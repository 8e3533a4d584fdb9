//! What the command line is checked against, and the text it prints for its version.

use vstd::prelude::*;
use vstd::string::*;
use crate::text::chars_of;

verus! {

/// The address of the server that is used when none is given.
pub const DEFAULT_URL: &'static str = "http://localhost:9091/transmission/rpc";

/// Whether `://` stands at the given place of an address.
pub open spec fn is_separator_at(url: Seq<char>, at: int) -> bool {
    0 <= at && at + 3 <= url.len() && url[at] == ':' && url[at + 1] == '/' && url[at + 2] == '/'
}

/// How often `://` stands before the given place of an address.
pub open spec fn separators_before(url: Seq<char>, end: int) -> nat
    decreases end,
{
    if end <= 0 {
        0
    } else {
        separators_before(url, end - 1) + if is_separator_at(url, end - 1) {
            1nat
        } else {
            0nat
        }
    }
}

/// Whether an address begins with the given scheme and `://`.
pub open spec fn has_scheme(url: Seq<char>, scheme: Seq<char>) -> bool {
    is_separator_at(url, scheme.len() as int) && url.take(scheme.len() as int) == scheme
}

/// An address as the command line takes it, or why it does not: `://` has to stand in it
/// exactly once, and `http` or `https` before it.
pub open spec fn validated(url: Seq<char>) -> Result<Seq<char>, Seq<char>> {
    if separators_before(url, url.len() as int) != 1 {
        Err("Invalid URL: URL should have a scheme."@)
    } else if has_scheme(url, "http"@) || has_scheme(url, "https"@) {
        Ok(url)
    } else {
        Err("Invalid scheme: Scheme should be either 'http' or 'https'."@)
    }
}

/// The text of a result of texts.
pub open spec fn result_text(result: Result<String, String>) -> Result<Seq<char>, Seq<char>> {
    match result {
        Ok(text) => Ok(text@),
        Err(text) => Err(text@),
    }
}

/// Checks the address of the server that the command line gives.
pub fn validate_url(url: &str) -> (checked: Result<String, String>)
    ensures
        result_text(checked) == validated(url@),
{
    let chars = chars_of(url);
    let mut count: usize = 0;
    let mut i: usize = 0;
    while i < chars.len()
        invariant
            i <= chars.len(),
            chars@ == url@,
            count == separators_before(url@, i as int),
            count <= i,
        decreases chars.len() - i,
    {
        if chars.len() - i >= 3 && chars[i] == ':' && chars[i + 1] == '/' && chars[i + 2] == '/' {
            count += 1;
        }
        i += 1;
    }
    if count != 1 {
        return Err("Invalid URL: URL should have a scheme.".to_owned());
    }
    proof {
        reveal_strlit("http");
        reveal_strlit("https");
    }
    let http = chars.len() >= 7 && chars[0] == 'h' && chars[1] == 't' && chars[2] == 't'
        && chars[3] == 'p' && chars[4] == ':' && chars[5] == '/' && chars[6] == '/';
    let https = chars.len() >= 8 && chars[0] == 'h' && chars[1] == 't' && chars[2] == 't'
        && chars[3] == 'p' && chars[4] == 's' && chars[5] == ':' && chars[6] == '/' && chars[7]
        == '/';
    proof {
        assert(http == has_scheme(url@, "http"@)) by {
            if http {
                assert(url@.take(4) =~= "http"@);
            } else if has_scheme(url@, "http"@) {
                assert(url@.take(4)[0] == 'h' && url@.take(4)[1] == 't' && url@.take(4)[2] == 't'
                    && url@.take(4)[3] == 'p');
            }
        }
        assert(https == has_scheme(url@, "https"@)) by {
            if https {
                assert(url@.take(5) =~= "https"@);
            } else if has_scheme(url@, "https"@) {
                assert(url@.take(5)[0] == 'h' && url@.take(5)[1] == 't' && url@.take(5)[2] == 't'
                    && url@.take(5)[3] == 'p' && url@.take(5)[4] == 's');
            }
        }
    }
    if http || https {
        Ok(url.to_owned())
    } else {
        Err("Invalid scheme: Scheme should be either 'http' or 'https'.".to_owned())
    }
}

/// The text that the command line prints for its version: the version, and the two
/// directories in which the program keeps its files.
pub open spec fn version_text(
    release: Seq<char>,
    config_dir: Seq<char>,
    data_dir: Seq<char>,
) -> Seq<char> {
    release + "\n\nConfig directory: "@ + config_dir + "\nData directory: "@ + data_dir
}

/// Puts together the text that the command line prints for its version.
pub fn version(release: &str, config_dir: &str, data_dir: &str) -> (text: String)
    ensures
        text@ == version_text(release@, config_dir@, data_dir@),
{
    let mut text = release.to_owned();
    text.append("\n\nConfig directory: ");
    text.append(config_dir);
    text.append("\nData directory: ");
    text.append(data_dir);
    text
}

} // verus!
