//! Decimal text of integers and small helpers on character sequences.

use vstd::prelude::*;
use vstd::string::*;
use vstd::std_specs::iter::IteratorSpec;

verus! {

/// The character of one decimal digit.
pub open spec fn digit_char(d: int) -> char {
    if d == 0 {
        '0'
    } else if d == 1 {
        '1'
    } else if d == 2 {
        '2'
    } else if d == 3 {
        '3'
    } else if d == 4 {
        '4'
    } else if d == 5 {
        '5'
    } else if d == 6 {
        '6'
    } else if d == 7 {
        '7'
    } else if d == 8 {
        '8'
    } else {
        '9'
    }
}

/// Decimal digits of a natural number, most significant first, without leading zeros.
pub open spec fn decimal(n: nat) -> Seq<char>
    decreases n,
{
    if n < 10 {
        seq![digit_char(n as int)]
    } else {
        decimal(n / 10).push(digit_char((n % 10) as int))
    }
}

/// Decimal text of an integer: a minus sign before the digits of a negative number.
pub open spec fn signed_decimal(v: int) -> Seq<char> {
    if v < 0 {
        seq!['-'] + decimal((-v) as nat)
    } else {
        decimal(v as nat)
    }
}

/// The text `true` or `false`.
pub open spec fn bool_text(b: bool) -> Seq<char> {
    if b {
        "true"@
    } else {
        "false"@
    }
}

/// One decimal digit as a string slice.
pub fn digit_str(d: u64) -> (s: &'static str)
    requires
        d < 10,
    ensures
        s@ == seq![digit_char(d as int)],
{
    proof {
        reveal_strlit("0");
        reveal_strlit("1");
        reveal_strlit("2");
        reveal_strlit("3");
        reveal_strlit("4");
        reveal_strlit("5");
        reveal_strlit("6");
        reveal_strlit("7");
        reveal_strlit("8");
        reveal_strlit("9");
    }
    let s = if d == 0 {
        "0"
    } else if d == 1 {
        "1"
    } else if d == 2 {
        "2"
    } else if d == 3 {
        "3"
    } else if d == 4 {
        "4"
    } else if d == 5 {
        "5"
    } else if d == 6 {
        "6"
    } else if d == 7 {
        "7"
    } else if d == 8 {
        "8"
    } else {
        "9"
    };
    assert(s@ =~= seq![digit_char(d as int)]);
    s
}

/// Decimal text of an unsigned number.
pub fn decimal_string(n: u64) -> (text: String)
    ensures
        text@ == decimal(n as nat),
    decreases n,
{
    if n < 10 {
        digit_str(n).to_owned()
    } else {
        let mut text = decimal_string(n / 10);
        text.append(digit_str(n % 10));
        text
    }
}

/// Decimal text of a signed number.
pub fn signed_decimal_string(v: i64) -> (text: String)
    ensures
        text@ == signed_decimal(v as int),
{
    if v < 0 {
        let magnitude: u64 = magnitude_of_negative(v);
        let mut text = "-".to_owned();
        proof {
            reveal_strlit("-");
        }
        text.append(decimal_string(magnitude).as_str());
        assert(text@ =~= seq!['-'] + decimal((-v) as nat));
        text
    } else {
        decimal_string(v as u64)
    }
}

/// The absolute value of a negative number, which always fits the unsigned type.
pub fn magnitude_of_negative(v: i64) -> (m: u64)
    requires
        v < 0,
    ensures
        m == -v,
{
    let below: i64 = -(v + 1);
    (below as u64) + 1
}

/// The text `true` or `false` as a string.
pub fn bool_string(b: bool) -> (text: String)
    ensures
        text@ == bool_text(b),
{
    if b {
        "true".to_owned()
    } else {
        "false".to_owned()
    }
}

/// The characters of a string.
pub fn chars_of(s: &str) -> (chars: Vec<char>)
    ensures
        chars@ == s@,
{
    let mut chars: Vec<char> = Vec::new();
    for c in it: s.chars()
        invariant
            chars@ == it.seq().take(it.index() as int),
            it.seq() == s@,
    {
        chars.push(c);
    }
    assert(chars@ =~= s@);
    chars
}

/// The texts of a sequence of strings.
pub open spec fn texts(strings: Seq<String>) -> Seq<Seq<char>> {
    strings.map_values(|s: String| s@)
}

/// The text of an optional string.
pub open spec fn option_text(value: Option<String>) -> Option<Seq<char>> {
    match value {
        Some(text) => Some(text@),
        None => None,
    }
}

/// The pieces of a text between the occurrences of a separator, empty pieces included.
pub open spec fn split(text: Seq<char>, separator: char) -> Seq<Seq<char>>
    decreases text.len(),
{
    if text.len() == 0 {
        seq![Seq::empty()]
    } else {
        let front = split(text.drop_last(), separator);
        if text.last() == separator {
            front.push(Seq::empty())
        } else {
            front.update(front.len() - 1, front.last().push(text.last()))
        }
    }
}

/// A text has at least one piece.
pub proof fn lemma_split_is_not_empty(text: Seq<char>, separator: char)
    ensures
        split(text, separator).len() >= 1,
    decreases text.len(),
{
    if text.len() > 0 {
        lemma_split_is_not_empty(text.drop_last(), separator);
    }
}

/// The pieces of a text joined again, the separator between them.
pub open spec fn join(pieces: Seq<Seq<char>>, separator: char) -> Seq<char>
    decreases pieces.len(),
{
    if pieces.len() == 0 {
        Seq::empty()
    } else if pieces.len() == 1 {
        pieces[0]
    } else {
        join(pieces.drop_last(), separator).push(separator) + pieces.last()
    }
}

/// Splitting loses nothing: no piece holds the separator, and the pieces joined by the
/// separator are the text.
pub proof fn split_then_join(text: Seq<char>, separator: char)
    ensures
        join(split(text, separator), separator) == text,
        forall|i: int, j: int|
            0 <= i < split(text, separator).len() && 0 <= j < split(text, separator)[i].len()
                ==> split(text, separator)[i][j] != separator,
    decreases text.len(),
{
    let pieces = split(text, separator);
    if text.len() == 0 {
        assert(join(pieces, separator) =~= text);
    } else {
        let front = split(text.drop_last(), separator);
        split_then_join(text.drop_last(), separator);
        lemma_split_is_not_empty(text.drop_last(), separator);
        if text.last() == separator {
            assert(pieces.drop_last() =~= front);
            assert(join(pieces, separator) =~= text.drop_last().push(separator));
            assert(text.drop_last().push(separator) =~= text);
        } else {
            let last = front.last().push(text.last());
            if front.len() == 1 {
                assert(join(front, separator) == front[0]);
                assert(join(pieces, separator) =~= text.drop_last().push(text.last()));
            } else {
                assert(pieces.drop_last() =~= front.drop_last());
                assert(join(pieces, separator) =~= (join(front.drop_last(), separator).push(
                    separator,
                ) + front.last()).push(text.last()));
            }
            assert(text.drop_last().push(text.last()) =~= text);
            assert forall|i: int, j: int|
                0 <= i < pieces.len() && 0 <= j < pieces[i].len() implies pieces[i][j]
                != separator by {
                if i < front.len() - 1 {
                    assert(pieces[i] == front[i]);
                } else if j < front.last().len() {
                    assert(pieces[i][j] == front[i][j]);
                }
            }
        }
    }
}

/// Splits a text at each occurrence of a separator.
pub fn split_on(text: &str, separator: char) -> (pieces: Vec<String>)
    ensures
        texts(pieces@) == split(text@, separator),
        pieces.len() >= 1,
{
    let chars = chars_of(text);
    let mut pieces: Vec<String> = Vec::new();
    let mut start: usize = 0;
    let mut i: usize = 0;
    assert(text@.take(0) =~= Seq::<char>::empty());
    assert(split(text@.take(0), separator) =~= texts(pieces@).push(text@.subrange(0, 0)));
    while i < chars.len()
        invariant
            start <= i <= chars.len(),
            chars@ == text@,
            split(text@.take(i as int), separator) == texts(pieces@).push(
                text@.subrange(start as int, i as int),
            ),
        decreases chars.len() - i,
    {
        let ghost done = texts(pieces@);
        let ghost open = text@.subrange(start as int, i as int);
        proof {
            let next = text@.take(i + 1);
            assert(next.drop_last() =~= text@.take(i as int));
            assert(next.last() == text@[i as int]);
        }
        if chars[i] == separator {
            pieces.push(text.substring_char(start, i).to_owned());
            start = i + 1;
            proof {
                assert(texts(pieces@) =~= done.push(open));
                assert(text@.subrange(start as int, i + 1) =~= Seq::<char>::empty());
            }
        } else {
            proof {
                assert(text@.subrange(start as int, i + 1) =~= open.push(text@[i as int]));
                assert(done.push(open).update(done.len() as int, open.push(text@[i as int]))
                    =~= done.push(open.push(text@[i as int])));
            }
        }
        i += 1;
    }
    let ghost done = texts(pieces@);
    pieces.push(text.substring_char(start, i).to_owned());
    proof {
        assert(text@.take(i as int) =~= text@);
        assert(texts(pieces@) =~= done.push(text@.subrange(start as int, i as int)));
    }
    pieces
}

/// A line as it was ended by a line feed: without the carriage return that may stand
/// before the line feed.
pub open spec fn without_carriage_return(line: Seq<char>) -> Seq<char> {
    if line.len() > 0 && line.last() == '\r' {
        line.drop_last()
    } else {
        line
    }
}

/// The lines of a text. A line ends with a line feed, or a carriage return and a line feed,
/// neither of which belongs to the line. What stands behind the last line feed is a line
/// only if it is not empty.
pub open spec fn lines_of(text: Seq<char>) -> Seq<Seq<char>> {
    let pieces = split(text, '\n');
    let ended = Seq::new(
        (pieces.len() - 1) as nat,
        |i: int| without_carriage_return(pieces[i]),
    );
    if pieces.last().len() == 0 {
        ended
    } else {
        ended.push(pieces.last())
    }
}

/// Splits a text into its lines.
pub fn lines(text: &str) -> (lines: Vec<String>)
    ensures
        texts(lines@) == lines_of(text@),
{
    let pieces = split_on(text, '\n');
    let mut lines: Vec<String> = Vec::new();
    let mut i: usize = 0;
    while i + 1 < pieces.len()
        invariant
            i + 1 <= pieces.len(),
            lines.len() == i,
            forall|k: int| 0 <= k < i ==> lines[k]@ == without_carriage_return(pieces[k]@),
        decreases pieces.len() - i,
    {
        let piece = pieces[i].as_str();
        let length = piece.unicode_len();
        if length > 0 && piece.get_char(length - 1) == '\r' {
            lines.push(piece.substring_char(0, length - 1).to_owned());
        } else {
            lines.push(piece.to_owned());
        }
        i += 1;
    }
    let rest = pieces[pieces.len() - 1].as_str();
    if rest.unicode_len() > 0 {
        lines.push(rest.to_owned());
    }
    assert(texts(lines@) =~= lines_of(text@));
    lines
}

/// A number of blanks.
pub open spec fn blanks(count: nat) -> Seq<char> {
    Seq::new(count, |i: int| ' ')
}

/// A text with blanks before it, as many as it lacks to the given number of characters.
pub open spec fn padded_left(text: Seq<char>, width: nat) -> Seq<char> {
    if text.len() >= width {
        text
    } else {
        blanks((width - text.len()) as nat) + text
    }
}

/// Pads a text on the left to the given number of characters.
pub fn pad_left(text: &str, width: usize) -> (padded: String)
    ensures
        padded@ == padded_left(text@, width as nat),
{
    let length = text.unicode_len();
    let mut padded = String::new();
    let mut i: usize = length;
    assert(padded@ =~= blanks(0));
    while i < width
        invariant
            length <= i,
            length == text@.len(),
            length < width ==> i <= width,
            length >= width ==> i == length,
            padded@ == blanks((i - length) as nat),
        decreases width - i,
    {
        proof {
            reveal_strlit(" ");
        }
        padded.append(" ");
        i += 1;
        assert(padded@ =~= blanks((i - length) as nat));
    }
    let ghost front = padded@;
    padded.append(text);
    proof {
        assert(padded@ == front + text@);
        if length >= width {
            assert(i == length);
            assert(front =~= Seq::<char>::empty());
            assert(front + text@ =~= text@);
        } else {
            assert(i == width);
            assert(front == blanks((width - text@.len()) as nat));
        }
    }
    padded
}

/// The texts of a sequence of lists of strings.
pub open spec fn texts_of_rows(rows: Seq<Vec<String>>) -> Seq<Seq<Seq<char>>> {
    rows.map_values(|row: Vec<String>| texts(row@))
}

} // verus!
