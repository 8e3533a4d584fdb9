use transmission_tui::cli::{validate_url, version, DEFAULT_URL};
use transmission_tui::order::{compare_names, order_of_names};
use transmission_tui::text::{
    bool_string, chars_of, decimal_string, lines, pad_left, signed_decimal_string, split_on,
};
use std::cmp::Ordering;

#[test]
fn decimal_text_of_numbers() {
    assert_eq!(decimal_string(0), "0");
    assert_eq!(decimal_string(7), "7");
    assert_eq!(decimal_string(10), "10");
    assert_eq!(decimal_string(u64::MAX), "18446744073709551615");
    assert_eq!(signed_decimal_string(-1), "-1");
    assert_eq!(signed_decimal_string(i64::MIN), "-9223372036854775808");
    assert_eq!(signed_decimal_string(i64::MAX), "9223372036854775807");
    assert_eq!(bool_string(true), "true");
    assert_eq!(bool_string(false), "false");
}

#[test]
fn characters_of_a_text() {
    assert_eq!(chars_of("aé日"), vec!['a', 'é', '日']);
    assert_eq!(chars_of(""), Vec::<char>::new());
}

#[test]
fn split_keeps_empty_pieces() {
    assert_eq!(split_on("a/b/c", '/'), vec!["a", "b", "c"]);
    assert_eq!(split_on("", '/'), vec![""]);
    assert_eq!(split_on("/", '/'), vec!["", ""]);
    assert_eq!(split_on("a//b/", '/'), vec!["a", "", "b", ""]);
    assert_eq!(split_on("日本/語", '/'), vec!["日本", "語"]);
}

#[test]
fn split_pieces_join_back() {
    for text in ["", "/", "a/b", "//x//", "plain", "é/日/"] {
        assert_eq!(split_on(text, '/').join("/"), text);
    }
}

#[test]
fn lines_of_a_text() {
    assert_eq!(lines(""), Vec::<String>::new());
    assert_eq!(lines("one"), vec!["one"]);
    assert_eq!(lines("one\ntwo"), vec!["one", "two"]);
    assert_eq!(lines("one\r\ntwo\n"), vec!["one", "two"]);
    assert_eq!(lines("\n"), vec![""]);
    assert_eq!(lines("a\n\nb"), vec!["a", "", "b"]);
    assert_eq!(lines("a\r"), vec!["a\r"]);
    assert_eq!(lines("a\r\r\n"), vec!["a\r"]);
}

#[test]
fn lines_agree_with_the_standard_library() {
    for text in ["", "x", "x\n", "\r\n", "a\rb\n", "a\n\r\nb\r", "12.5%\nDone"] {
        let expected: Vec<String> = text.lines().map(|line| line.to_string()).collect();
        assert_eq!(lines(text), expected);
    }
}

#[test]
fn padding_counts_characters() {
    assert_eq!(pad_left("ab", 5), "   ab");
    assert_eq!(pad_left("abcde", 5), "abcde");
    assert_eq!(pad_left("abcdef", 5), "abcdef");
    assert_eq!(pad_left("", 2), "  ");
    assert_eq!(pad_left("日本", 4), "  日本");
    assert_eq!(pad_left("1.0 KB", 10), format!("{:>10}", "1.0 KB"));
}

#[test]
fn names_are_ordered_by_their_bytes() {
    assert_eq!(compare_names("a", "b"), -1);
    assert_eq!(compare_names("b", "a"), 1);
    assert_eq!(compare_names("a", "a"), 0);
    assert_eq!(compare_names("", "a"), -1);
    assert_eq!(compare_names("ab", "a"), 1);
    assert_eq!(compare_names("B", "a"), -1);
    assert_eq!(compare_names("z", "é"), -1);
    assert_eq!(order_of_names("a", "b"), Ordering::Less);
    assert_eq!(order_of_names("b", "a"), Ordering::Greater);
    assert_eq!(order_of_names("same", "same"), Ordering::Equal);
}

#[test]
fn name_order_agrees_with_the_standard_library() {
    let names = ["", "a", "A", "ab", "b", "é", "日本", "z", "Zebra", "a b"];
    for a in names {
        for b in names {
            assert_eq!(order_of_names(a, b), a.cmp(b));
        }
    }
}

#[test]
fn url_with_http_or_https_is_taken() {
    assert_eq!(validate_url("http://localhost:9091"), Ok("http://localhost:9091".to_string()));
    assert_eq!(validate_url("https://example.org/rpc"), Ok("https://example.org/rpc".to_string()));
    assert_eq!(validate_url(DEFAULT_URL), Ok(DEFAULT_URL.to_string()));
    assert_eq!(validate_url("http://"), Ok("http://".to_string()));
}

#[test]
fn url_without_one_scheme_is_refused() {
    let missing = Err("Invalid URL: URL should have a scheme.".to_string());
    assert_eq!(validate_url("localhost:9091"), missing);
    assert_eq!(validate_url(""), missing);
    assert_eq!(validate_url("http://a://b"), missing);
    assert_eq!(validate_url("http:/x"), missing);
}

#[test]
fn url_with_another_scheme_is_refused() {
    let invalid = Err("Invalid scheme: Scheme should be either 'http' or 'https'.".to_string());
    assert_eq!(validate_url("ftp://example.org"), invalid);
    assert_eq!(validate_url("://example.org"), invalid);
    assert_eq!(validate_url("HTTP://example.org"), invalid);
    assert_eq!(validate_url("xhttp://example.org"), invalid);
    assert_eq!(validate_url("httpss://example.org"), invalid);
}

#[test]
fn version_text_names_both_directories() {
    assert_eq!(
        version("0.1.0-abc (2024-01-01)", "/home/u/.config/app", "/home/u/.local/share/app"),
        "0.1.0-abc (2024-01-01)\n\nConfig directory: /home/u/.config/app\nData directory: /home/u/.local/share/app"
    );
}
