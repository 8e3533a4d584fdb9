//! Display text of raw numeric fields.

use vstd::prelude::*;
use vstd::string::*;
use crate::rpc::{Priority, TorrentStatus};
use crate::text::{decimal, decimal_string, digit_char, digit_str, magnitude_of_negative};

verus! {

/// Seconds in a day, an hour and a minute.
pub const DAY: i64 = 86400;

pub const HOUR: i64 = 3600;

pub const MINUTE: i64 = 60;

/// The longest remaining time, in days, that is still shown as a duration.
pub const LONGEST_ETA_DAYS: i64 = 99;

/// One component of a duration: the count followed by its unit, or nothing for a count of zero.
pub open spec fn unit_text(count: int, unit: char) -> Seq<char> {
    if count > 0 {
        decimal(count as nat).push(unit)
    } else {
        Seq::empty()
    }
}

/// The display text of a remaining time in seconds.
///
/// `-1` is unknown and `-2` is unbounded, as is anything beyond 99 days. A span of a day or
/// more shows its whole days only; a shorter one shows its hours, minutes and seconds, each
/// only when it is not zero. A negative span other than the two sentinels has no text.
pub open spec fn eta_text(eta: int) -> Seq<char> {
    if eta == -1 {
        "Unknown"@
    } else if eta == -2 || eta > 99 * 86400 {
        "Inf"@
    } else if eta < 0 {
        Seq::empty()
    } else if eta >= 86400 {
        decimal((eta / 86400) as nat).push('d')
    } else {
        unit_text(eta / 3600, 'h') + unit_text((eta % 3600) / 60, 'm') + unit_text(eta % 60, 's')
    }
}

fn unit_string(count: i64, unit: &str) -> (text: String)
    requires
        0 <= count,
        unit@.len() == 1,
    ensures
        text@ == unit_text(count as int, unit@[0]),
{
    if count > 0 {
        let mut text = decimal_string(count as u64);
        text.append(unit);
        assert(text@ =~= decimal(count as nat).push(unit@[0]));
        text
    } else {
        String::new()
    }
}

/// Formats a remaining time in seconds for display.
pub fn convert_eta(eta: i64) -> (text: String)
    ensures
        text@ == eta_text(eta as int),
{
    if eta == -1 {
        "Unknown".to_owned()
    } else if eta == -2 || eta > DAY * LONGEST_ETA_DAYS {
        "Inf".to_owned()
    } else if eta < 0 {
        String::new()
    } else if eta >= DAY {
        proof {
            reveal_strlit("d");
        }
        let text = unit_string(eta / DAY, "d");
        text
    } else {
        proof {
            reveal_strlit("h");
            reveal_strlit("m");
            reveal_strlit("s");
        }
        let mut text = unit_string(eta / HOUR, "h");
        text.append(unit_string((eta % HOUR) / MINUTE, "m").as_str());
        text.append(unit_string(eta % MINUTE, "s").as_str());
        text
    }
}

/// Index of the unit a non-negative byte count is shown in: 0 for B up to 4 for TB.
///
/// It is the largest unit that the count reaches, so that the scaled count is at least one
/// and, below the largest unit, less than 1024.
pub open spec fn unit_index(bytes: int) -> int {
    if bytes < 1024 {
        0
    } else if bytes < 1_048_576 {
        1
    } else if bytes < 1_073_741_824 {
        2
    } else if bytes < 1_099_511_627_776 {
        3
    } else {
        4
    }
}

/// Number of bytes in one unit: 1024 to the power of the unit's index.
pub open spec fn unit_size(index: int) -> int {
    if index <= 0 {
        1
    } else if index == 1 {
        1024
    } else if index == 2 {
        1_048_576
    } else if index == 3 {
        1_073_741_824
    } else {
        1_099_511_627_776
    }
}

/// Suffix of a unit.
pub open spec fn unit_name(index: int) -> Seq<char> {
    if index <= 0 {
        "B"@
    } else if index == 1 {
        "KB"@
    } else if index == 2 {
        "MB"@
    } else if index == 3 {
        "GB"@
    } else {
        "TB"@
    }
}

/// The quotient `n / d` rounded to the nearest integer, a tie going to the even neighbour.
pub open spec fn round_half_even(n: int, d: int) -> int {
    let q = n / d;
    let r = n % d;
    if 2 * r > d || (2 * r == d && q % 2 == 1) {
        q + 1
    } else {
        q
    }
}

/// A non-negative byte count scaled to its unit, in tenths of the unit, rounded.
pub open spec fn scaled_tenths(bytes: int) -> int {
    round_half_even(10 * bytes, unit_size(unit_index(bytes)))
}

/// A number of tenths written with one decimal place.
pub open spec fn one_decimal(tenths: int) -> Seq<char> {
    decimal((tenths / 10) as nat) + seq!['.', digit_char(tenths % 10)]
}

/// The display text of a byte count: the count scaled to its unit with one decimal place, a
/// space and the unit's suffix. A negative count is shown in bytes.
pub open spec fn bytes_text(bytes: int) -> Seq<char> {
    if bytes < 0 {
        seq!['-'] + one_decimal(10 * (-bytes)) + seq![' '] + unit_name(0)
    } else {
        one_decimal(scaled_tenths(bytes)) + seq![' '] + unit_name(unit_index(bytes))
    }
}

/// The unit of a positive byte count is the one in which the count is at least one and, unless
/// it is the largest unit, less than 1024; what is displayed lies between 1.0 and 1024.0.
pub proof fn unit_choice(bytes: int)
    requires
        bytes >= 1,
    ensures
        0 <= unit_index(bytes) <= 4,
        unit_size(unit_index(bytes)) <= bytes,
        unit_index(bytes) < 4 ==> bytes < 1024 * unit_size(unit_index(bytes)),
        10 <= scaled_tenths(bytes),
        unit_index(bytes) < 4 ==> scaled_tenths(bytes) <= 10240,
{
    let index = unit_index(bytes);
    let scaled = 10 * bytes;
    if index == 0 {
        assert(scaled / 1 == scaled && scaled % 1 == 0);
    } else if index == 1 {
        lemma_rounded_quotient_bounds(scaled, 1024, 10, 10240);
    } else if index == 2 {
        lemma_rounded_quotient_bounds(scaled, 1_048_576, 10, 10240);
    } else if index == 3 {
        lemma_rounded_quotient_bounds(scaled, 1_073_741_824, 10, 10240);
    } else {
        lemma_rounded_quotient_bounds(scaled, 1_099_511_627_776, 10, scaled);
    }
}

/// A rounded quotient lies between two integers whose multiples of the divisor enclose
/// the dividend.
proof fn lemma_rounded_quotient_bounds(n: int, d: int, low: int, high: int)
    requires
        d > 0,
        low * d <= n <= high * d,
    ensures
        low <= round_half_even(n, d) <= high,
{
    let q = n / d;
    let r = n % d;
    assert(n == d * q + r && 0 <= r < d) by (nonlinear_arith)
        requires
            d > 0,
            q == n / d,
            r == n % d,
    ;
    assert(low <= q <= high && (r > 0 ==> q < high)) by (nonlinear_arith)
        requires
            low * d <= n <= high * d,
            n == d * q + r,
            0 <= r < d,
            d > 0,
    ;
}

/// A count of less than 1024 bytes is shown exactly.
pub proof fn small_counts_are_exact(bytes: int)
    requires
        0 <= bytes < 1024,
    ensures
        unit_index(bytes) == 0,
        bytes_text(bytes) == decimal(bytes as nat) + seq!['.', '0', ' '] + unit_name(0),
{
    assert(scaled_tenths(bytes) == 10 * bytes);
    assert(bytes_text(bytes) =~= decimal(bytes as nat) + seq!['.', '0', ' '] + unit_name(0));
}

fn unit_str(index: u8) -> (name: &'static str)
    requires
        index <= 4,
    ensures
        name@ == unit_name(index as int),
{
    if index == 0 {
        "B"
    } else if index == 1 {
        "KB"
    } else if index == 2 {
        "MB"
    } else if index == 3 {
        "GB"
    } else {
        "TB"
    }
}

fn one_decimal_string(tenths: u64) -> (text: String)
    ensures
        text@ == one_decimal(tenths as int),
{
    proof {
        reveal_strlit(".");
    }
    let mut text = decimal_string(tenths / 10);
    text.append(".");
    text.append(digit_str(tenths % 10));
    assert(text@ =~= one_decimal(tenths as int));
    text
}

/// Formats a byte count for display.
pub fn convert_bytes(bytes: i64) -> (text: String)
    ensures
        text@ == bytes_text(bytes as int),
{
    proof {
        reveal_strlit("-");
        reveal_strlit(" ");
        reveal_strlit(".");
        reveal_strlit("0");
    }
    if bytes < 0 {
        let magnitude: u64 = magnitude_of_negative(bytes);
        let mut text = "-".to_owned();
        text.append(decimal_string(magnitude).as_str());
        text.append(".");
        text.append("0");
        text.append(" ");
        text.append(unit_str(0));
        assert(text@ =~= bytes_text(bytes as int));
        text
    } else {
        let index: u8 = if bytes < 1024 {
            0
        } else if bytes < 1_048_576 {
            1
        } else if bytes < 1_073_741_824 {
            2
        } else if bytes < 1_099_511_627_776 {
            3
        } else {
            4
        };
        let size: u128 = if index == 0 {
            1
        } else if index == 1 {
            1024
        } else if index == 2 {
            1_048_576
        } else if index == 3 {
            1_073_741_824
        } else {
            1_099_511_627_776
        };
        let scaled: u128 = (bytes as u128) * 10;
        let quotient: u128 = scaled / size;
        let rest: u128 = scaled % size;
        let tenths: u128 = if 2 * rest > size || (2 * rest == size && quotient % 2 == 1) {
            quotient + 1
        } else {
            quotient
        };
        assert(tenths == scaled_tenths(bytes as int));
        let mut text = one_decimal_string(tenths as u64);
        text.append(" ");
        text.append(unit_str(index));
        assert(text@ =~= bytes_text(bytes as int));
        text
    }
}

/// The label of a download priority.
pub open spec fn priority_text(priority: Priority) -> Seq<char> {
    match priority {
        Priority::Low => "Low"@,
        Priority::Normal => "Normal"@,
        Priority::High => "High"@,
    }
}

/// Names a download priority for display.
pub fn convert_priority(priority: &Priority) -> (text: String)
    ensures
        text@ == priority_text(*priority),
{
    match priority {
        Priority::Low => "Low".to_owned(),
        Priority::Normal => "Normal".to_owned(),
        Priority::High => "High".to_owned(),
    }
}

/// The label of a torrent's status.
pub open spec fn status_text(status: TorrentStatus) -> Seq<char> {
    match status {
        TorrentStatus::Stopped => "Stopped"@,
        TorrentStatus::QueuedToVerify => "QueuedToVerify"@,
        TorrentStatus::Verifying => "Verifying"@,
        TorrentStatus::QueuedToDownload => "QueuedToDownload"@,
        TorrentStatus::Downloading => "Downloading"@,
        TorrentStatus::QueuedToSeed => "QueuedToSeed"@,
        TorrentStatus::Seeding => "Seeding"@,
    }
}

/// Names a torrent's status for display.
pub fn convert_status(status: TorrentStatus) -> (text: String)
    ensures
        text@ == status_text(status),
{
    match status {
        TorrentStatus::Stopped => "Stopped".to_owned(),
        TorrentStatus::QueuedToVerify => "QueuedToVerify".to_owned(),
        TorrentStatus::Verifying => "Verifying".to_owned(),
        TorrentStatus::QueuedToDownload => "QueuedToDownload".to_owned(),
        TorrentStatus::Downloading => "Downloading".to_owned(),
        TorrentStatus::QueuedToSeed => "QueuedToSeed".to_owned(),
        TorrentStatus::Seeding => "Seeding".to_owned(),
    }
}

} // verus!
