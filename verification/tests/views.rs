use transmission_tui::action::{Action, Key, KeyEvent, Target};
use transmission_tui::components::home::{
    constraint_len_calculator, fold_widths, measure, Home, HomeKey, RowWidths,
};
use transmission_tui::components::properties::info::InfoTab;
use transmission_tui::components::properties::trackers::tracker_lines;
use transmission_tui::components::properties::{Properties, PropertiesKey, SelectedTab};
use transmission_tui::components::selection::{Scroll, Selection};
use transmission_tui::components::session_stats::SessionStat;
use transmission_tui::components::torrent_info::{self, TorrentInfo};
use transmission_tui::components::properties::peers;
use transmission_tui::components::{Outcome, TreeCommand};
use transmission_tui::data::{Files, Torrent, Tracker};
use transmission_tui::rpc::{RawTorrent, Request, SessionStats, TorrentAction, TorrentStatus};

fn torrent(id: i64, name: &str) -> Torrent {
    Torrent {
        id,
        is_stalled: id % 2 == 0,
        status: "Seeding".to_string(),
        name: name.to_string(),
        formatted_name: format!("{name}\nStatus: Seeding    Have: 1.0 KB of 1.0 KB"),
        percent_done: "Done".to_string(),
        total_size: "1.0 KB".to_string(),
        size_done: "1.0 KB".to_string(),
        uploaded: "2.0 KB".to_string(),
        upload_speed: "0.0 B/s".to_string(),
        downloaded: "1.0 KB".to_string(),
        download_speed: "10.0 KB/s".to_string(),
        ratio: "2.00".to_string(),
        location: "/data".to_string(),
        hash: "ff00".to_string(),
        added_date: "2024-01-01 00:00:00 UTC".to_string(),
        done_date: "2024-01-02 00:00:00 UTC".to_string(),
        eta: "Unknown".to_string(),
        error: String::new(),
        trackers: vec![
            Tracker { host: "one".to_string(), is_backup: false, next_announce: "soon".to_string() },
            Tracker { host: "two".to_string(), is_backup: true, next_announce: "later".to_string() },
            Tracker { host: "three".to_string(), is_backup: false, next_announce: "never".to_string() },
        ],
        files: vec![Files {
            name: "a/b".to_string(),
            downloaded: "1.0 KB".to_string(),
            total_size: "1.0 KB".to_string(),
            priority: "Normal".to_string(),
            wanted: true,
        }],
    }
}

fn key(code: Key) -> KeyEvent {
    KeyEvent { code, control: false }
}

fn three() -> Vec<Torrent> {
    vec![torrent(10, "a"), torrent(5, "b"), torrent(8, "c")]
}

#[test]
fn the_list_opens_on_the_focused_torrent() {
    assert_eq!(Home::new(three(), Some(5)).state.selected, Some(1));
    assert_eq!(Home::new(three(), Some(10)).state.selected, Some(0));
    assert_eq!(Home::new(three(), Some(8)).state.selected, Some(2));
}

#[test]
fn the_list_falls_back_to_the_first_row() {
    assert_eq!(Home::new(three(), Some(99)).state.selected, Some(0));
    assert_eq!(Home::new(three(), None).state.selected, Some(0));
    assert_eq!(Home::new(Vec::new(), Some(5)).state.selected, None);
    assert_eq!(Home::new(Vec::new(), None).state.selected, None);
}

#[test]
fn the_first_of_two_rows_with_one_number_is_selected() {
    let items = vec![torrent(1, "a"), torrent(5, "b"), torrent(5, "c")];
    assert_eq!(Home::new(items, Some(5)).state.selected, Some(1));
}

#[test]
fn the_scroll_bar_spans_four_lines_a_row() {
    let home = Home::new(three(), None);
    assert_eq!(home.scroll_state, Scroll { content_length: 12, position: 0 });
}

#[test]
fn the_cursor_wraps_at_both_ends() {
    let mut home = Home::new(three(), None);
    home.previous();
    assert_eq!(home.state.selected, Some(2));
    assert_eq!(home.scroll_state.position, 8);
    home.next();
    assert_eq!(home.state.selected, Some(0));
    assert_eq!(home.scroll_state.position, 0);
    home.next();
    assert_eq!(home.state.selected, Some(1));
    assert_eq!(home.scroll_state.position, 4);
    home.next();
    home.next();
    assert_eq!(home.state.selected, Some(0));
}

#[test]
fn the_cursor_of_an_empty_list() {
    let mut home = Home::new(Vec::new(), None);
    home.next();
    assert_eq!(home.state.selected, Some(0));
    home.previous();
    assert_eq!(home.state.selected, Some(0));
    home.settle();
    assert_eq!(home.state.selected, None);
}

#[test]
fn top_and_bottom() {
    let mut home = Home::new(three(), Some(5));
    home.bottom();
    assert_eq!(home.state.selected, Some(usize::MAX));
    assert_eq!(home.scroll_state.position, 11);
    home.settle();
    assert_eq!(home.state.selected, Some(2));
    home.top();
    assert_eq!(home.state.selected, Some(0));
    assert_eq!(home.scroll_state.position, 0);
    home.bottom();
    home.next();
    assert_eq!(home.state.selected, Some(0));
    home.bottom();
    home.previous();
    assert_eq!(home.state.selected, Some(usize::MAX - 1));
    assert_eq!(home.scroll_state.position, usize::MAX);
}

#[test]
fn keys_of_the_list() {
    assert_eq!(Home::key_meaning(key(Key::Char('q'))), HomeKey::Quit);
    assert_eq!(Home::key_meaning(key(Key::Char('l'))), HomeKey::Open);
    assert_eq!(Home::key_meaning(key(Key::Enter)), HomeKey::Open);
    assert_eq!(Home::key_meaning(key(Key::Char('j'))), HomeKey::Next);
    assert_eq!(Home::key_meaning(key(Key::Down)), HomeKey::Next);
    assert_eq!(Home::key_meaning(key(Key::Char('k'))), HomeKey::Previous);
    assert_eq!(Home::key_meaning(key(Key::Up)), HomeKey::Previous);
    assert_eq!(Home::key_meaning(key(Key::Char('g'))), HomeKey::Top);
    assert_eq!(Home::key_meaning(key(Key::Char('G'))), HomeKey::Bottom);
    assert_eq!(Home::key_meaning(key(Key::Char('p'))), HomeKey::Toggle);
    assert_eq!(Home::key_meaning(key(Key::Char('s'))), HomeKey::StartAll);
    assert_eq!(Home::key_meaning(key(Key::Char('S'))), HomeKey::StopAll);
    assert_eq!(Home::key_meaning(key(Key::Char('x'))), HomeKey::Ignored);
    assert_eq!(Home::key_meaning(key(Key::Esc)), HomeKey::Ignored);
    assert_eq!(Home::key_meaning(key(Key::Home)), HomeKey::Ignored);
}

#[test]
fn enter_opens_the_selected_torrent() {
    let mut home = Home::new(three(), Some(5));
    match home.handle_key_event(key(Key::Enter)) {
        Outcome::FollowUp(Action::SwitchMode(Target::Detail, Some(5))) => {}
        other => panic!("{other:?}"),
    }
    home.next();
    match home.handle_key_event(key(Key::Char('l'))) {
        Outcome::FollowUp(Action::SwitchMode(Target::Detail, Some(8))) => {}
        other => panic!("{other:?}"),
    }
}

#[test]
fn enter_without_a_row_is_an_error() {
    let mut home = Home::new(Vec::new(), None);
    match home.handle_key_event(key(Key::Enter)) {
        Outcome::FollowUp(Action::Error(message)) => assert_eq!(message, "No row is selected"),
        other => panic!("{other:?}"),
    }
    let mut home = Home::new(three(), None);
    home.bottom();
    match home.handle_key_event(key(Key::Enter)) {
        Outcome::FollowUp(Action::Error(message)) => {
            assert_eq!(message, "The selection is past the end of the list")
        }
        other => panic!("{other:?}"),
    }
    match home.handle_key_event(key(Key::Char('p'))) {
        Outcome::FollowUp(Action::Error(message)) => {
            assert_eq!(message, "The selection is past the end of the list")
        }
        other => panic!("{other:?}"),
    }
}

#[test]
fn p_starts_a_stalled_torrent_and_stops_another() {
    let mut home = Home::new(three(), Some(10));
    match home.handle_key_event(key(Key::Char('p'))) {
        Outcome::Call(Request::SetAction(TorrentAction::Start, ids)) => assert_eq!(ids, vec![10]),
        other => panic!("{other:?}"),
    }
    home.next();
    match home.handle_key_event(key(Key::Char('p'))) {
        Outcome::Call(Request::SetAction(TorrentAction::Stop, ids)) => assert_eq!(ids, vec![5]),
        other => panic!("{other:?}"),
    }
}

#[test]
fn s_starts_and_stops_all() {
    let mut home = Home::new(three(), None);
    match home.handle_key_event(key(Key::Char('s'))) {
        Outcome::Call(Request::SetAction(TorrentAction::Start, ids)) => {
            assert_eq!(ids, vec![10, 5, 8])
        }
        other => panic!("{other:?}"),
    }
    match home.handle_key_event(key(Key::Char('S'))) {
        Outcome::Call(Request::SetAction(TorrentAction::Stop, ids)) => {
            assert_eq!(ids, vec![10, 5, 8])
        }
        other => panic!("{other:?}"),
    }
    assert!(matches!(home.handle_key_event(key(Key::Char('q'))), Outcome::FollowUp(Action::Quit)));
    assert!(matches!(home.handle_key_event(key(Key::Other)), Outcome::Nothing));
}

#[test]
fn a_tick_asks_for_all_torrents() {
    let home = Home::new(three(), None);
    assert!(matches!(home.update(&Action::Tick), Outcome::Call(Request::GetItems(None))));
    assert!(matches!(home.update(&Action::Render), Outcome::Nothing));
}

#[test]
fn new_items_leave_the_cursor() {
    let mut home = Home::new(three(), Some(8));
    home.receive(vec![torrent(1, "only")]);
    assert_eq!(home.items.len(), 1);
    assert_eq!(home.state.selected, Some(2));
    assert!(matches!(home.selected_id(), Err(_)));
    home.settle();
    assert_eq!(home.state.selected, Some(0));
    assert!(matches!(home.selected_id(), Ok(1)));
}

#[test]
fn the_columns_are_measured() {
    let mut wide = torrent(1, "x");
    wide.formatted_name = "日本語".to_string();
    wide.percent_done = "1\n12345\n12".to_string();
    wide.eta = "2h".to_string();
    wide.download_speed = "ｗｉｄｅ".to_string();
    wide.upload_speed = "up".to_string();
    wide.ratio = "None".to_string();
    let mut narrow = torrent(2, "y");
    narrow.formatted_name = "abcd".to_string();
    narrow.percent_done = "Done".to_string();
    narrow.eta = "Unknown".to_string();
    narrow.download_speed = "d".to_string();
    narrow.upload_speed = "upload".to_string();
    narrow.ratio = "1.00".to_string();
    let widths = constraint_len_calculator(&[wide, narrow]);
    assert_eq!(widths, (4, 5, 7, 8, 6, 4));
    assert_eq!(constraint_len_calculator(&[]), (0, 0, 0, 0, 0, 0));
}

#[test]
fn selection_moves_by_pages() {
    let mut selection = Selection::new();
    assert_eq!(selection.selected(), None);
    selection.scroll_down_by(4);
    assert_eq!(selection.selected(), Some(4));
    selection.scroll_up_by(3);
    assert_eq!(selection.selected(), Some(1));
    selection.scroll_up_by(3);
    assert_eq!(selection.selected(), Some(0));
    selection.select_last();
    selection.scroll_down_by(1);
    assert_eq!(selection.selected(), Some(usize::MAX));
    selection.settle(3);
    assert_eq!(selection.selected(), Some(2));
    selection.settle(0);
    assert_eq!(selection.selected(), None);
    let mut none = Selection::with_selected(None);
    none.settle(5);
    assert_eq!(none.selected(), None);
}

#[test]
fn tabs_stop_at_both_ends() {
    assert_eq!(SelectedTab::Info.previous(), SelectedTab::Info);
    assert_eq!(SelectedTab::Info.next(), SelectedTab::Tracker);
    assert_eq!(SelectedTab::Tracker.next(), SelectedTab::Files);
    assert_eq!(SelectedTab::Files.next(), SelectedTab::Files);
    assert_eq!(SelectedTab::Files.previous(), SelectedTab::Tracker);
    assert_eq!(SelectedTab::Tracker.previous(), SelectedTab::Info);
    assert_eq!(SelectedTab::default(), SelectedTab::Info);
    assert_eq!(SelectedTab::Info.title(), "  Info  ");
    assert_eq!(SelectedTab::Tracker.title(), "  Tracker  ");
    assert_eq!(SelectedTab::Files.title(), "  Files  ");
    assert_eq!(SelectedTab::Files.index(), 2);
}

#[test]
fn the_detail_needs_a_torrent() {
    assert!(Properties::new(&Vec::new()).is_err());
    let view = Properties::new(&three()).expect("there is one");
    assert_eq!(view.data.id, 10);
    assert_eq!(view.selected_tab, SelectedTab::Info);
    assert_eq!(view.tracker_tab.state.selected, Some(0));
    assert_eq!(view.tracker_tab.scroll_state, Scroll { content_length: 12, position: 0 });
}

#[test]
fn keys_of_the_detail() {
    let control = |c| KeyEvent { code: Key::Char(c), control: true };
    assert_eq!(Properties::key_meaning(key(Key::Char('q'))), PropertiesKey::Quit);
    assert_eq!(Properties::key_meaning(key(Key::Esc)), PropertiesKey::Back);
    assert_eq!(Properties::key_meaning(key(Key::Backspace)), PropertiesKey::Back);
    assert_eq!(Properties::key_meaning(key(Key::Char('l'))), PropertiesKey::NextTab);
    assert_eq!(Properties::key_meaning(key(Key::Right)), PropertiesKey::NextTab);
    assert_eq!(Properties::key_meaning(key(Key::Char('h'))), PropertiesKey::PreviousTab);
    assert_eq!(Properties::key_meaning(key(Key::Left)), PropertiesKey::PreviousTab);
    assert_eq!(Properties::key_meaning(key(Key::Home)), PropertiesKey::Top);
    assert_eq!(Properties::key_meaning(key(Key::End)), PropertiesKey::Bottom);
    assert_eq!(Properties::key_meaning(key(Key::Char('u'))), PropertiesKey::Ignored);
    assert_eq!(Properties::key_meaning(control('u')), PropertiesKey::ScrollUp);
    assert_eq!(Properties::key_meaning(key(Key::Char('d'))), PropertiesKey::Ignored);
    assert_eq!(Properties::key_meaning(control('d')), PropertiesKey::ScrollDown);
    assert_eq!(Properties::key_meaning(control('q')), PropertiesKey::Quit);
    assert_eq!(Properties::key_meaning(key(Key::Enter)), PropertiesKey::Toggle);
}

#[test]
fn back_names_the_torrent_that_was_shown() {
    let mut view = Properties::new(&vec![torrent(5, "five")]).expect("there is one");
    match view.handle_key_event(key(Key::Esc)) {
        Outcome::FollowUp(Action::SwitchMode(Target::List, Some(5))) => {}
        other => panic!("{other:?}"),
    }
    assert!(matches!(view.handle_key_event(key(Key::Char('q'))), Outcome::FollowUp(Action::Quit)));
}

#[test]
fn each_tab_has_its_own_cursor() {
    let mut view = Properties::new(&three()).expect("there is one");
    assert!(matches!(view.handle_key_event(key(Key::Down)), Outcome::Nothing));
    assert_eq!(view.tracker_tab.state.selected, Some(0));
    view.handle_key_event(key(Key::Right));
    assert_eq!(view.selected_tab, SelectedTab::Tracker);
    view.handle_key_event(key(Key::Down));
    assert_eq!(view.tracker_tab.state.selected, Some(1));
    assert_eq!(view.tracker_tab.scroll_state.position, 4);
    view.handle_key_event(KeyEvent { code: Key::Char('d'), control: true });
    assert_eq!(view.tracker_tab.state.selected, Some(5));
    assert_eq!(view.tracker_tab.scroll_state.position, 20);
    view.settle();
    assert_eq!(view.tracker_tab.state.selected, Some(2));
    view.handle_key_event(KeyEvent { code: Key::Char('u'), control: true });
    assert_eq!(view.tracker_tab.state.selected, Some(0));
    view.handle_key_event(key(Key::Up));
    assert_eq!(view.tracker_tab.state.selected, Some(2));
    view.handle_key_event(key(Key::Right));
    assert_eq!(view.selected_tab, SelectedTab::Files);
    assert!(matches!(
        view.handle_key_event(key(Key::Down)),
        Outcome::Tree(TreeCommand::Down)
    ));
    assert!(matches!(view.handle_key_event(key(Key::Up)), Outcome::Tree(TreeCommand::Up)));
    assert!(matches!(view.handle_key_event(key(Key::Home)), Outcome::Tree(TreeCommand::Top)));
    assert!(matches!(view.handle_key_event(key(Key::End)), Outcome::Tree(TreeCommand::Bottom)));
    assert!(matches!(view.handle_key_event(key(Key::Enter)), Outcome::Tree(TreeCommand::Toggle)));
    assert!(matches!(
        view.handle_key_event(KeyEvent { code: Key::Char('u'), control: true }),
        Outcome::Tree(TreeCommand::ScrollUp(4))
    ));
    assert!(matches!(
        view.handle_key_event(KeyEvent { code: Key::Char('d'), control: true }),
        Outcome::Tree(TreeCommand::ScrollDown(4))
    ));
    assert_eq!(view.tracker_tab.state.selected, Some(2));
    view.handle_key_event(key(Key::Left));
    view.handle_key_event(key(Key::Left));
    assert_eq!(view.selected_tab, SelectedTab::Info);
    assert!(matches!(view.handle_key_event(key(Key::Enter)), Outcome::Nothing));
}

#[test]
fn a_tick_asks_for_the_torrent_shown() {
    let view = Properties::new(&vec![torrent(5, "five")]).expect("there is one");
    assert!(matches!(view.update(&Action::Tick), Outcome::Call(Request::GetItems(Some(5)))));
    assert!(matches!(view.update(&Action::Quit), Outcome::Nothing));
}

#[test]
fn a_refresh_reaches_every_tab() {
    let mut view = Properties::new(&vec![torrent(5, "five")]).expect("there is one");
    view.handle_key_event(key(Key::Right));
    view.handle_key_event(key(Key::Down));
    let mut newer = torrent(5, "five again");
    newer.trackers.pop();
    assert!(view.receive(&vec![newer]).is_ok());
    assert_eq!(view.data.name, "five again");
    assert_eq!(view.info_tab.data.name, "five again");
    assert_eq!(view.tracker_tab.data.trackers.len(), 2);
    assert_eq!(view.files_tab.data.name, "five again");
    assert_eq!(view.selected_tab, SelectedTab::Tracker);
    assert_eq!(view.tracker_tab.state.selected, Some(1));
    assert!(view.receive(&Vec::new()).is_err());
    assert_eq!(view.data.name, "five again");
}

#[test]
fn info_lines() {
    let tab = InfoTab::new(&torrent(1, "name"));
    assert_eq!(
        tab.activity(),
        vec![
            "Have: 1.0 KB of 1.0 KB (Done)",
            "Uploaded: 2.0 KB (Ratio: 2.00)",
            "Downloaded: 1.0 KB",
            "Remaining Time: Unknown",
            "State: Seeding",
            "Error: ",
        ]
    );
    assert_eq!(
        tab.details(),
        vec![
            "Name: name",
            "Size: 1.0 KB",
            "Location: /data",
            "Hash: ff00",
            "Added: 2024-01-01 00:00:00 UTC",
            "Done: 2024-01-02 00:00:00 UTC",
        ]
    );
}

#[test]
fn lines_of_trackers() {
    let t = torrent(1, "n");
    assert_eq!(tracker_lines(&t.trackers[0]), vec!["", "one", "soon", ""]);
    assert_eq!(tracker_lines(&t.trackers[1]), vec!["two", ""]);
}

#[test]
fn the_files_tab_builds_the_tree() {
    let view = Properties::new(&vec![torrent(5, "five")]).expect("there is one");
    let tree = view.files_tab.render();
    assert_eq!(tree.len(), 1);
    assert_eq!(tree[0].label(), "a");
}

#[test]
fn the_strip_of_totals() {
    let strip = SessionStat::new(SessionStats {
        torrent_count: 12,
        download_speed: 2048,
        upload_speed: 0,
    });
    assert_eq!(strip.render_stats(), "Down: 2.0 KB/s Up: 0.0 B/s Torrents: 12 ");
    assert!(matches!(strip.update(&Action::Tick), Outcome::Call(Request::GetStats)));
    assert!(matches!(strip.update(&Action::Render), Outcome::Nothing));
    let negative = SessionStat::new(SessionStats {
        torrent_count: -1,
        download_speed: -1,
        upload_speed: 1,
    });
    assert_eq!(negative.render_stats(), "Down: -1.0 B/s Up: 1.0 B/s Torrents: -1 ");
}

#[test]
fn the_table_of_the_list() {
    let home = Home::new(vec![torrent(1, "a"), torrent(2, "b")], None);
    let rows = home.render_table();
    assert_eq!(rows.len(), 2);
    assert_eq!(rows[0].len(), 6);
    assert_eq!(rows[1][0], "\nb\nStatus: Seeding    Have: 1.0 KB of 1.0 KB\n");
    assert_eq!(rows[1][1], "\nDone\n");
    assert_eq!(rows[1][2], "\nUnknown\n");
    assert_eq!(rows[1][3], "\n10.0 KB/s\n");
    assert_eq!(rows[1][4], "\n0.0 B/s\n");
    assert_eq!(rows[1][5], "\n2.00\n");
}

#[test]
fn what_the_tabs_show() {
    let mut view = Properties::new(&vec![torrent(5, "five")]).expect("there is one");
    assert_eq!(
        view.render_tabs(),
        (vec!["  Info  ".to_string(), "  Tracker  ".to_string(), "  Files  ".to_string()], 0)
    );
    view.next_tab();
    view.next_tab();
    assert_eq!(view.render_tabs().1, 2);
    view.previous_tab();
    assert_eq!(view.render_tabs().1, 1);
    let (activity, details) = view.info_tab.render();
    assert_eq!(activity.len(), 6);
    assert_eq!(details[0], "Name: five");
    assert_eq!(
        view.tracker_tab.render(),
        vec![vec!["", "one", "soon", ""], vec!["two", ""], vec!["", "three", "never", ""]]
    );
    assert_eq!(peers::Tab::new(&view.data).render(), "Under Construction");
}

#[test]
fn the_moves_of_the_files_tab() {
    let view = Properties::new(&vec![torrent(5, "five")]).expect("there is one");
    let tab = &view.files_tab;
    assert_eq!(tab.down(), TreeCommand::Down);
    assert_eq!(tab.up(), TreeCommand::Up);
    assert_eq!(tab.scroll_up(4), TreeCommand::ScrollUp(4));
    assert_eq!(tab.scroll_down(3), TreeCommand::ScrollDown(3));
    assert_eq!(tab.top(), TreeCommand::Top);
    assert_eq!(tab.bottom(), TreeCommand::Bottom);
    assert_eq!(tab.toggle(), TreeCommand::Toggle);
}

#[test]
fn the_trackers_tab_on_its_own() {
    let view = Properties::new(&vec![torrent(5, "five")]).expect("there is one");
    let mut tab = view.tracker_tab;
    tab.bottom();
    assert_eq!(tab.state.selected, Some(usize::MAX));
    assert_eq!(tab.scroll_state.position, 11);
    tab.settle();
    assert_eq!(tab.state.selected, Some(2));
    tab.next();
    assert_eq!(tab.state.selected, Some(0));
    tab.previous();
    assert_eq!(tab.state.selected, Some(2));
    tab.top();
    assert_eq!(tab.state.selected, Some(0));
    tab.scroll_down(2);
    assert_eq!(tab.state.selected, Some(2));
    assert_eq!(tab.scroll_state.position, 4);
    tab.scroll_up(1);
    assert_eq!(tab.state.selected, Some(1));
    assert_eq!(tab.scroll_state.position, 1);
}

fn reported() -> RawTorrent {
    RawTorrent {
        id: Some(1),
        name: Some("n".to_string()),
        is_stalled: None,
        status: Some(TorrentStatus::Seeding),
        size_when_done: Some(2048),
        left_until_done: Some(0),
        total_size: Some(4096),
        uploaded_ever: Some(1024),
        rate_upload: None,
        rate_download: None,
        eta: Some(-2),
        upload_ratio: Some("0.50".to_string()),
        percent_done: Some("Done".to_string()),
        download_dir: Some("/d".to_string()),
        hash_string: Some("beef".to_string()),
        error_string: None,
        added_date: None,
        done_date: None,
        tracker_stats: None,
        files: None,
        file_stats: None,
    }
}

#[test]
fn the_plain_view_of_a_torrent() {
    let mut view = TorrentInfo::new(reported());
    assert_eq!(
        view.render_info().expect("all is reported"),
        vec![
            "Activity",
            "Have: 2.0 KB of 2.0 KB (Done)",
            "Uploaded: 1.0 KB (Ratio: 0.50)",
            "Downloaded: 2.0 KB",
            "Remaining Time: Inf",
            "State: Seeding",
            "Details",
            "Size: 4.0 KB",
            "Location: /d",
            "Hash: beef",
        ]
    );
    let mut partial = reported();
    partial.hash_string = None;
    view.receive(partial);
    assert!(view.render_info().is_none());
    assert!(matches!(
        view.update(&Action::Tick),
        Outcome::Call(Request::GetItems(Some(1)))
    ));
    assert!(matches!(view.handle_key_event(key(Key::Char('q'))), Outcome::FollowUp(Action::Quit)));
    assert!(matches!(
        view.handle_key_event(key(Key::Esc)),
        Outcome::FollowUp(Action::SwitchMode(Target::List, None))
    ));
    assert!(matches!(view.handle_key_event(key(Key::Right)), Outcome::Nothing));
    assert_eq!(view.selected_tab, torrent_info::SelectedTab::Peers);
    view.handle_key_event(key(Key::Char('l')));
    view.handle_key_event(key(Key::Char('l')));
    view.handle_key_event(key(Key::Char('l')));
    assert_eq!(view.selected_tab, torrent_info::SelectedTab::Files);
    assert_eq!(view.selected_tab.index(), 3);
    assert_eq!(view.selected_tab.title(), "  Files  ");
    assert_eq!(view.selected_tab.placeholder(), "Files");
    view.handle_key_event(key(Key::Left));
    assert_eq!(view.selected_tab, torrent_info::SelectedTab::Tracker);
    assert_eq!(view.selected_tab.placeholder(), "Trackers");
    view.handle_key_event(key(Key::Char('h')));
    view.handle_key_event(key(Key::Char('h')));
    view.handle_key_event(key(Key::Char('h')));
    assert_eq!(view.selected_tab, torrent_info::SelectedTab::Info);
    assert_eq!(view.selected_tab.placeholder(), "");
}

#[test]
fn column_widths_from_measured_rows() {
    let rows = vec![
        RowWidths { name: 30, done: vec![4], eta: 2, download: 9, upload: 7, ratio: 4 },
        RowWidths { name: 12, done: vec![1, 6, 2], eta: 7, download: 8, upload: 8, ratio: 4 },
        RowWidths { name: 20, done: Vec::new(), eta: 0, download: 0, upload: 0, ratio: 5 },
    ];
    assert_eq!(fold_widths(&rows), (12, 6, 7, 9, 8, 5));
    assert_eq!(fold_widths(&Vec::new()), (0, 0, 0, 0, 0, 0));
    let huge = vec![RowWidths {
        name: 65536 + 3,
        done: vec![65535],
        eta: 65536,
        download: 131073,
        upload: 1,
        ratio: 0,
    }];
    assert_eq!(fold_widths(&huge), (3, 65535, 0, 1, 1, 0));
}

#[test]
fn a_row_is_measured_in_columns() {
    let mut item = torrent(1, "x");
    item.formatted_name = "日本語\nab".to_string();
    item.percent_done = "１\n\nabc".to_string();
    item.eta = String::new();
    let widths = measure(&item);
    assert_eq!(widths.done, vec![2, 0, 3]);
    assert_eq!(widths.eta, 0);
    assert_eq!(widths.download, 9);
    assert_eq!(widths.upload, 7);
    assert_eq!(widths.ratio, 4);
    assert_eq!(widths.name, unicode_width::UnicodeWidthStr::width("日本語\nab"));
}
