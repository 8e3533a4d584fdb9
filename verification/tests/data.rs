use transmission_tui::data::{
    assemble_torrent, cell_string, convert_speed, dropped_records, keep_records, map_torrent,
    map_torrent_data, shorten_name, Torrent,
};
use transmission_tui::rpc::{
    Priority, RawFile, RawFileStat, RawTorrent, RawTracker, TorrentStatus,
};

fn raw(id: i64, name: &str) -> RawTorrent {
    RawTorrent {
        id: Some(id),
        name: Some(name.to_string()),
        is_stalled: Some(false),
        status: Some(TorrentStatus::Downloading),
        size_when_done: Some(2048),
        left_until_done: Some(1024),
        total_size: Some(4096),
        uploaded_ever: Some(512),
        rate_upload: Some(1024),
        rate_download: Some(2 * 1024 * 1024),
        eta: Some(5400),
        upload_ratio: Some("0.25".to_string()),
        percent_done: Some("50.0%".to_string()),
        download_dir: Some("/downloads".to_string()),
        hash_string: Some("abcdef".to_string()),
        error_string: Some(String::new()),
        added_date: Some(1431648000),
        done_date: Some(0),
        tracker_stats: Some(vec![RawTracker {
            host: "tracker.example.org".to_string(),
            is_backup: false,
            next_announce_time: "2024-01-01 00:00:00 UTC".to_string(),
        }]),
        files: Some(vec![
            RawFile { name: "dir/one".to_string(), bytes_completed: 1024, length: 2048 },
            RawFile { name: "dir/two".to_string(), bytes_completed: 0, length: 1536 },
        ]),
        file_stats: Some(vec![
            RawFileStat { wanted: true, priority: Priority::High },
            RawFileStat { wanted: false, priority: Priority::Low },
        ]),
    }
}

fn names(records: &[Torrent]) -> Vec<String> {
    records.iter().map(|t| t.name.clone()).collect()
}

#[test]
fn a_complete_record_is_mapped() {
    let t = map_torrent(&raw(7, "ubuntu.iso")).expect("nothing is missing");
    assert_eq!(t.id, 7);
    assert!(!t.is_stalled);
    assert_eq!(t.status, "Downloading");
    assert_eq!(t.name, "ubuntu.iso");
    assert_eq!(t.formatted_name, "ubuntu.iso\nStatus: Downloading    Have: 1.0 KB of 2.0 KB");
    assert_eq!(t.percent_done, "50.0%");
    assert_eq!(t.total_size, "4.0 KB");
    assert_eq!(t.size_done, "2.0 KB");
    assert_eq!(t.uploaded, "512.0 B");
    assert_eq!(t.upload_speed, "1.0 KB/s");
    assert_eq!(t.downloaded, "1.0 KB");
    assert_eq!(t.download_speed, "2.0 MB/s");
    assert_eq!(t.ratio, "0.25");
    assert_eq!(t.location, "/downloads");
    assert_eq!(t.hash, "abcdef");
    assert_eq!(t.added_date, "2015-05-15 00:00:00 UTC");
    assert_eq!(t.done_date, "1970-01-01 00:00:00 UTC");
    assert_eq!(t.eta, "1h30m");
    assert_eq!(t.error, "");
    assert_eq!(t.trackers.len(), 1);
    assert_eq!(t.trackers[0].host, "tracker.example.org");
    assert!(!t.trackers[0].is_backup);
    assert_eq!(t.trackers[0].next_announce, "2024-01-01 00:00:00 UTC");
    assert_eq!(t.files.len(), 2);
    assert_eq!(t.files[0].name, "dir/one");
    assert_eq!(t.files[0].downloaded, "1.0 KB");
    assert_eq!(t.files[0].total_size, "2.0 KB");
    assert_eq!(t.files[0].priority, "High");
    assert!(t.files[0].wanted);
    assert_eq!(t.files[1].total_size, "1.5 KB");
    assert_eq!(t.files[1].priority, "Low");
    assert!(!t.files[1].wanted);
}

#[test]
fn a_record_that_lacks_a_field_is_dropped() {
    let strip: Vec<fn(&mut RawTorrent)> = vec![
        |r| r.id = None,
        |r| r.name = None,
        |r| r.is_stalled = None,
        |r| r.status = None,
        |r| r.size_when_done = None,
        |r| r.left_until_done = None,
        |r| r.total_size = None,
        |r| r.uploaded_ever = None,
        |r| r.rate_upload = None,
        |r| r.rate_download = None,
        |r| r.eta = None,
        |r| r.upload_ratio = None,
        |r| r.percent_done = None,
        |r| r.download_dir = None,
        |r| r.hash_string = None,
        |r| r.error_string = None,
        |r| r.added_date = None,
        |r| r.done_date = None,
        |r| r.tracker_stats = None,
        |r| r.files = None,
    ];
    for remove in strip {
        let mut record = raw(1, "n");
        remove(&mut record);
        assert!(map_torrent(&record).is_none());
    }
}

#[test]
fn files_without_settings_are_left_out() {
    let mut record = raw(1, "n");
    record.file_stats = None;
    assert!(map_torrent(&record).expect("the record stays").files.is_empty());
    let mut record = raw(1, "n");
    record.file_stats = Some(vec![RawFileStat { wanted: true, priority: Priority::Normal }]);
    let t = map_torrent(&record).expect("the record stays");
    assert_eq!(t.files.len(), 1);
    assert_eq!(t.files[0].name, "dir/one");
    assert_eq!(t.files[0].priority, "Normal");
}

#[test]
fn a_date_out_of_range_drops_the_record() {
    let mut record = raw(1, "n");
    record.added_date = Some(i64::MAX);
    assert!(map_torrent(&record).is_none());
    let mut record = raw(1, "n");
    record.done_date = Some(i64::MIN);
    assert!(map_torrent(&record).is_none());
    let mut record = raw(1, "n");
    record.done_date = Some(-1);
    assert_eq!(map_torrent(&record).expect("in range").done_date, "1969-12-31 23:59:59 UTC");
}

#[test]
fn the_last_and_first_dates_in_range() {
    let mut record = raw(1, "n");
    record.added_date = Some(8_210_266_876_799);
    record.done_date = Some(-8_334_601_228_800);
    assert!(map_torrent(&record).is_some());
    record.added_date = Some(8_210_266_876_800);
    assert!(map_torrent(&record).is_none());
    record.added_date = Some(0);
    record.done_date = Some(-8_334_601_228_801);
    assert!(map_torrent(&record).is_none());
}

#[test]
fn bytes_that_cannot_be_counted_drop_the_record() {
    let mut record = raw(1, "n");
    record.size_when_done = Some(i64::MAX);
    record.left_until_done = Some(-1);
    assert!(map_torrent(&record).is_none());
    record.left_until_done = Some(0);
    assert!(map_torrent(&record).is_some());
}

#[test]
fn assembling_takes_the_dates_as_given() {
    let record = raw(3, "n");
    let t = assemble_torrent(&record, Some("then".to_string()), Some("now".to_string()))
        .expect("complete");
    assert_eq!(t.added_date, "then");
    assert_eq!(t.done_date, "now");
    assert!(assemble_torrent(&record, None, Some("now".to_string())).is_none());
    assert!(assemble_torrent(&record, Some("then".to_string()), None).is_none());
}

#[test]
fn long_names_are_shortened() {
    let long = "x".repeat(81);
    assert_eq!(shorten_name(&long), format!("{}...", "x".repeat(80)));
    let exact = "y".repeat(80);
    assert_eq!(shorten_name(&exact), exact);
    assert_eq!(shorten_name(""), "");
    let t = map_torrent(&raw(1, &long)).expect("complete");
    assert_eq!(t.name, long);
    assert!(t.formatted_name.starts_with(&format!("{}...\nStatus: ", "x".repeat(80))));
}

#[test]
fn shortening_never_cuts_a_character() {
    // 27 characters of three bytes each: the 80th byte lies inside the last one.
    let name = "日".repeat(27);
    assert_eq!(shorten_name(&name), format!("{}...", "日".repeat(26)));
    // one byte, then two-byte characters: the 80th byte ends a character... 1 + 2 * 40 = 81
    let name = format!("a{}", "é".repeat(40));
    assert_eq!(shorten_name(&name), format!("a{}...", "é".repeat(39)));
    let name = "é".repeat(41);
    assert_eq!(shorten_name(&name), format!("{}...", "é".repeat(40)));
}

#[test]
fn speeds_have_their_unit() {
    assert_eq!(convert_speed(0), "0.0 B/s");
    assert_eq!(convert_speed(1536), "1.5 KB/s");
}

#[test]
fn records_are_sorted_by_name() {
    let records = map_torrent_data(&vec![raw(1, "b"), raw(2, "a")]);
    assert_eq!(names(&records), vec!["a", "b"]);
    let records = map_torrent_data(&vec![raw(1, "b"), raw(2, "B"), raw(3, "a"), raw(4, "é")]);
    assert_eq!(names(&records), vec!["B", "a", "b", "é"]);
}

#[test]
fn sorting_keeps_equal_names_in_their_order() {
    let records = map_torrent_data(&vec![
        raw(1, "same"),
        raw(2, "other"),
        raw(3, "same"),
        raw(4, "same"),
        raw(5, "a"),
    ]);
    let ids: Vec<i64> = records.iter().map(|t| t.id).collect();
    assert_eq!(ids, vec![5, 2, 1, 3, 4]);
}

#[test]
fn dropped_records_are_not_in_the_result() {
    let mut broken = raw(2, "a");
    broken.hash_string = None;
    let records = map_torrent_data(&vec![raw(1, "c"), broken, raw(3, "b")]);
    assert_eq!(names(&records), vec!["b", "c"]);
    assert!(map_torrent_data(&Vec::new()).is_empty());
}

#[test]
fn keeping_does_not_sort() {
    let mut broken = raw(2, "a");
    broken.eta = None;
    let records = keep_records(&vec![raw(1, "c"), broken, raw(3, "b")]);
    assert_eq!(names(&records), vec!["c", "b"]);
}

#[test]
fn a_copy_holds_the_same() {
    let t = map_torrent(&raw(7, "copy")).expect("complete");
    let c = t.clone();
    assert_eq!(c.id, t.id);
    assert_eq!(c.formatted_name, t.formatted_name);
    assert_eq!(c.files.len(), t.files.len());
    assert_eq!(c.files[1].name, t.files[1].name);
    assert_eq!(c.trackers[0].host, t.trackers[0].host);
}

#[test]
fn dropped_records_are_counted() {
    let mut broken = raw(2, "a");
    broken.id = None;
    let mut late = raw(4, "d");
    late.added_date = Some(i64::MAX);
    assert_eq!(dropped_records(&vec![raw(1, "c"), broken, raw(3, "b"), late]), 2);
    assert_eq!(dropped_records(&vec![raw(1, "c")]), 0);
    assert_eq!(dropped_records(&Vec::new()), 0);
}

#[test]
fn the_row_of_a_record() {
    let t = map_torrent(&raw(7, "row")).expect("complete");
    let cells = t.ref_array();
    assert_eq!(cells[0], &t.formatted_name);
    assert_eq!(cells[1], "50.0%");
    assert_eq!(cells[2], "1h30m");
    assert_eq!(cells[3], "2.0 MB/s");
    assert_eq!(cells[4], "1.0 KB/s");
    assert_eq!(cells[5], "0.25");
    assert_eq!(t.formatted_name(), t.formatted_name);
    assert_eq!(t.percent_done(), "50.0%");
    assert_eq!(t.eta(), "1h30m");
    assert_eq!(t.download_speed(), "2.0 MB/s");
    assert_eq!(t.upload_speed(), "1.0 KB/s");
    assert_eq!(t.ratio(), "0.25");
    assert_eq!(
        t.row(),
        vec![
            "\nrow\nStatus: Downloading    Have: 1.0 KB of 2.0 KB\n",
            "\n50.0%\n",
            "\n1h30m\n",
            "\n2.0 MB/s\n",
            "\n1.0 KB/s\n",
            "\n0.25\n",
        ]
    );
    assert_eq!(cell_string("x"), "\nx\n");
}
