use transmission_tui::rpc::{Priority, TorrentStatus};
use transmission_tui::utils::{convert_bytes, convert_eta, convert_priority, convert_status};

#[test]
fn test_convert_bytes() {
    assert_eq!(convert_bytes(0), "0.0 B");
    assert_eq!(convert_bytes(1), "1.0 B");
    assert_eq!(convert_bytes(1023), "1023.0 B");
    assert_eq!(convert_bytes(1024), "1.0 KB");
    assert_eq!(convert_bytes(1024 * 1024), "1.0 MB");
    assert_eq!(convert_bytes(1024 * 1024 * 1024), "1.0 GB");
    assert_eq!(convert_bytes(1024 * 1024 * 1024 * 1024), "1.0 TB");
    assert_eq!(convert_bytes(-1), "-1.0 B");
}

#[test]
fn test_convert_eta() {
    assert_eq!(convert_eta(-1), "Unknown");
    assert_eq!(convert_eta(-2), "Inf");
    assert_eq!(convert_eta(86400 * 3600), "Inf");
    assert_eq!(convert_eta(0), "");
    assert_eq!(convert_eta(1), "1s");
    assert_eq!(convert_eta(60), "1m");
    assert_eq!(convert_eta(3600), "1h");
    assert_eq!(convert_eta(86400), "1d");
    assert_eq!(convert_eta(86400 + 3600), "1d");
}

#[test]
fn convert_bytes_rounds_to_one_decimal() {
    assert_eq!(convert_bytes(1536), "1.5 KB");
    assert_eq!(convert_bytes(1075), "1.0 KB");
    assert_eq!(convert_bytes(1076), "1.1 KB");
    assert_eq!(convert_bytes(1024 * 1024 - 1), "1024.0 KB");
    assert_eq!(convert_bytes(123_456_789), "117.7 MB");
}

#[test]
fn convert_bytes_breaks_ties_to_even() {
    // 1280 / 1024 = 1.25 and 1792 / 1024 = 1.75
    assert_eq!(convert_bytes(1280), "1.2 KB");
    assert_eq!(convert_bytes(1792), "1.8 KB");
}

#[test]
fn convert_bytes_stays_in_the_largest_unit() {
    assert_eq!(convert_bytes(1024 * 1024 * 1024 * 1024 * 1024), "1024.0 TB");
    assert_eq!(convert_bytes(i64::MAX), "8388608.0 TB");
}

#[test]
fn convert_bytes_of_negative_counts() {
    assert_eq!(convert_bytes(-1024), "-1024.0 B");
    assert_eq!(convert_bytes(i64::MIN), "-9223372036854775808.0 B");
}

#[test]
fn convert_eta_joins_the_units_below_a_day() {
    assert_eq!(convert_eta(5400), "1h30m");
    assert_eq!(convert_eta(3661), "1h1m1s");
    assert_eq!(convert_eta(86399), "23h59m59s");
    assert_eq!(convert_eta(61), "1m1s");
}

#[test]
fn convert_eta_at_the_limits() {
    assert_eq!(convert_eta(86400 * 99), "99d");
    assert_eq!(convert_eta(86400 * 99 + 1), "Inf");
    assert_eq!(convert_eta(-3), "");
    assert_eq!(convert_eta(i64::MIN), "");
    assert_eq!(convert_eta(i64::MAX), "Inf");
}

#[test]
fn test_convert_priority() {
    assert_eq!(convert_priority(&Priority::Low), "Low");
    assert_eq!(convert_priority(&Priority::High), "High");
    assert_eq!(convert_priority(&Priority::Normal), "Normal");
}

#[test]
fn test_convert_status() {
    assert_eq!(convert_status(TorrentStatus::Stopped), "Stopped");
    assert_eq!(
        convert_status(TorrentStatus::QueuedToVerify),
        "QueuedToVerify"
    );
    assert_eq!(convert_status(TorrentStatus::Verifying), "Verifying");
    assert_eq!(
        convert_status(TorrentStatus::QueuedToDownload),
        "QueuedToDownload"
    );
    assert_eq!(convert_status(TorrentStatus::Downloading), "Downloading");
    assert_eq!(convert_status(TorrentStatus::QueuedToSeed), "QueuedToSeed");
    assert_eq!(convert_status(TorrentStatus::Seeding), "Seeding");
}
