//! Calendar dates of timestamps.

use vstd::prelude::*;
use vstd::string::*;
use crate::text::option_text;

verus! {

/// The text of the UTC date and time that lies `seconds` after the Unix epoch, or nothing
/// where that moment is outside the range of dates that can be represented.
pub uninterp spec fn utc_date_text(seconds: i64) -> Option<Seq<char>>;

/// `chrono::DateTime::from_timestamp` with no nanoseconds, the date then written by its
/// `Display`. The result is taken to depend on the seconds alone: it is none where chrono
/// reports the seconds as out of range, and else the text chrono prints.
#[verifier::external_body]
pub(crate) fn utc_date_string(seconds: i64) -> (text: Option<String>)
    ensures
        option_text(text) == utc_date_text(seconds),
{
    chrono::DateTime::from_timestamp(seconds, 0).map(|date| date.to_string())
}

} // verus!
