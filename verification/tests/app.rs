use transmission_tui::action::{Action, ActionQueue, Key, KeyEvent, Mode, Target};
use transmission_tui::app::{next_mode, App, Effect, Screen};
use transmission_tui::components::properties::SelectedTab;
use transmission_tui::components::TreeCommand;
use transmission_tui::error::AppError;
use transmission_tui::rpc::{
    Purpose, RawTorrent, Reply, Request, SessionStats, TorrentAction, TorrentStatus, Transport,
};

fn raw(id: i64, name: &str) -> RawTorrent {
    RawTorrent {
        id: Some(id),
        name: Some(name.to_string()),
        is_stalled: Some(true),
        status: Some(TorrentStatus::Stopped),
        size_when_done: Some(10),
        left_until_done: Some(0),
        total_size: Some(10),
        uploaded_ever: Some(0),
        rate_upload: Some(0),
        rate_download: Some(0),
        eta: Some(-1),
        upload_ratio: Some("None".to_string()),
        percent_done: Some("Done".to_string()),
        download_dir: Some("/d".to_string()),
        hash_string: Some("h".to_string()),
        error_string: Some(String::new()),
        added_date: Some(0),
        done_date: Some(0),
        tracker_stats: Some(Vec::new()),
        files: Some(Vec::new()),
        file_stats: None,
    }
}

fn stats() -> SessionStats {
    SessionStats { torrent_count: 0, download_speed: 0, upload_speed: 0 }
}

fn key(code: Key) -> KeyEvent {
    KeyEvent { code, control: false }
}

fn started(raws: Vec<RawTorrent>) -> App {
    App::new(transmission_tui::data::map_torrent_data(&raws), stats())
}

fn names(app: &App) -> Vec<String> {
    app.home.items.iter().map(|t| t.name.clone()).collect()
}

/// Handles everything that waits, answering each request with the given torrents.
fn run(app: &mut App, server: &[(i64, &str)]) -> Vec<Effect> {
    let mut effects = Vec::new();
    while let Some(action) = app.next_action() {
        if let Some(effect) = app.dispatch(action) {
            effects.push(effect);
        }
        while let Some(request) = app.take_request().expect("no request is out") {
            let reply = match request {
                Request::GetItems(None) => {
                    Reply::Items(server.iter().map(|(id, name)| raw(*id, name)).collect())
                }
                Request::GetItems(Some(wanted)) => Reply::Items(
                    server
                        .iter()
                        .filter(|(id, _)| *id == wanted)
                        .map(|(id, name)| raw(*id, name))
                        .collect(),
                ),
                Request::SetAction(..) => Reply::Done,
                Request::GetStats => Reply::Stats(SessionStats {
                    torrent_count: server.len() as i32,
                    download_speed: 1,
                    upload_speed: 2,
                }),
            };
            app.complete(reply);
        }
    }
    effects
}

#[test]
fn the_queue_hands_out_follow_ups_first_then_keys_then_timers() {
    let mut queue = ActionQueue::new();
    assert!(queue.is_empty());
    assert!(queue.pop().is_none());
    queue.push_tick();
    queue.push_render();
    queue.push_input(key(Key::Char('a')));
    queue.push_follow_up(Action::Quit);
    queue.push_input(key(Key::Char('b')));
    queue.push_follow_up(Action::ClearScreen);
    queue.push_tick();
    assert!(!queue.is_empty());
    assert!(matches!(queue.pop(), Some(Action::Quit)));
    assert!(matches!(queue.pop(), Some(Action::ClearScreen)));
    assert!(matches!(queue.pop(), Some(Action::Key(KeyEvent { code: Key::Char('a'), .. }))));
    assert!(matches!(queue.pop(), Some(Action::Key(KeyEvent { code: Key::Char('b'), .. }))));
    assert!(matches!(queue.pop(), Some(Action::Tick)));
    assert!(matches!(queue.pop(), Some(Action::Render)));
    assert!(matches!(queue.pop(), Some(Action::Tick)));
    assert!(queue.pop().is_none());
    assert!(queue.is_empty());
}

#[test]
fn the_ways_between_the_screens() {
    assert_eq!(next_mode(Mode::List, Target::Detail, Some(5)), Some(Mode::Detail(5)));
    assert_eq!(next_mode(Mode::Detail(5), Target::List, Some(5)), Some(Mode::List));
    assert_eq!(next_mode(Mode::Detail(5), Target::List, None), Some(Mode::List));
    assert_eq!(next_mode(Mode::List, Target::Detail, None), None);
    assert_eq!(next_mode(Mode::List, Target::List, Some(1)), None);
    assert_eq!(next_mode(Mode::Detail(5), Target::Detail, Some(6)), None);
}

#[test]
fn the_app_starts_in_the_list() {
    let app = started(vec![raw(1, "b"), raw(2, "a")]);
    assert_eq!(app.current_mode(), Mode::List);
    assert_eq!(names(&app), vec!["a", "b"]);
    assert_eq!(app.home.state.selected, Some(0));
    assert!(!app.should_quit);
    assert!(!app.transport.is_in_use());
}

#[test]
fn a_tick_refreshes_the_list_sorted() {
    let mut app = started(Vec::new());
    app.queue.push_tick();
    let effects = run(&mut app, &[(1, "b"), (2, "a")]);
    assert!(effects.is_empty());
    assert_eq!(names(&app), vec!["a", "b"]);
    assert_eq!(app.stats.stats.torrent_count, 2);
    assert_eq!(app.stats.stats.upload_speed, 2);
    assert_eq!(app.current_mode(), Mode::List);
}

#[test]
fn a_tick_asks_for_items_and_totals() {
    let mut app = started(vec![raw(1, "a")]);
    assert!(app.dispatch(Action::Tick).is_none());
    assert_eq!(app.outbox.len(), 2);
    assert!(matches!(app.outbox[0].request, Request::GetItems(None)));
    assert_eq!(app.outbox[0].purpose, Purpose::RefreshList);
    assert!(matches!(app.outbox[1].request, Request::GetStats));
    assert_eq!(app.outbox[1].purpose, Purpose::RefreshStats);
}

#[test]
fn selecting_leads_to_the_detail_and_back_to_the_row() {
    let server = [(3, "a"), (5, "b"), (9, "c")];
    let mut app = started(server.iter().map(|(id, name)| raw(*id, name)).collect());
    app.queue.push_input(key(Key::Down));
    app.queue.push_input(key(Key::Enter));
    run(&mut app, &server);
    assert_eq!(app.current_mode(), Mode::Detail(5));
    match &app.screen {
        Screen::Detail(5, view) => {
            assert_eq!(view.data.name, "b");
            assert_eq!(view.selected_tab, SelectedTab::Info);
        }
        other => panic!("{other:?}"),
    }
    app.queue.push_input(key(Key::Esc));
    run(&mut app, &server);
    assert_eq!(app.current_mode(), Mode::List);
    assert_eq!(app.home.state.selected, Some(1));
    assert_eq!(app.home.items[1].id, 5);
}

#[test]
fn back_falls_to_the_first_row_when_the_torrent_is_gone() {
    let server = [(3, "a"), (5, "b"), (9, "c")];
    let mut app = started(server.iter().map(|(id, name)| raw(*id, name)).collect());
    app.queue.push_follow_up(Action::SwitchMode(Target::Detail, Some(9)));
    run(&mut app, &server);
    assert_eq!(app.current_mode(), Mode::Detail(9));
    app.queue.push_input(key(Key::Backspace));
    run(&mut app, &[(3, "a"), (5, "b")]);
    assert_eq!(app.current_mode(), Mode::List);
    assert_eq!(names(&app), vec!["a", "b"]);
    assert_eq!(app.home.state.selected, Some(0));
    app.queue.push_follow_up(Action::SwitchMode(Target::Detail, Some(5)));
    run(&mut app, &[(3, "a"), (5, "b")]);
    app.queue.push_input(key(Key::Esc));
    run(&mut app, &[]);
    assert_eq!(app.current_mode(), Mode::List);
    assert_eq!(app.home.state.selected, None);
}

#[test]
fn a_detail_that_the_server_does_not_have_is_an_error() {
    let mut app = started(vec![raw(3, "a")]);
    app.queue.push_input(key(Key::Enter));
    let effects = run(&mut app, &[]);
    assert_eq!(app.current_mode(), Mode::List);
    assert_eq!(effects.len(), 1);
    match &effects[0] {
        Effect::ShowError(message) => {
            assert_eq!(message, "The selection is past the end of the list")
        }
        other => panic!("{other:?}"),
    }
}

#[test]
fn switches_that_lead_nowhere_are_swallowed() {
    let mut app = started(vec![raw(3, "a")]);
    assert!(app.dispatch(Action::SwitchMode(Target::List, Some(3))).is_none());
    assert!(app.dispatch(Action::SwitchMode(Target::Detail, None)).is_none());
    assert!(app.outbox.is_empty());
    assert_eq!(app.current_mode(), Mode::List);
}

#[test]
fn a_second_request_waits_while_one_is_out() {
    let mut app = started(vec![raw(3, "a")]);
    app.dispatch(Action::Tick);
    let first = app.take_request().expect("the handle is free");
    assert!(matches!(first, Some(Request::GetItems(None))));
    assert!(app.transport.is_in_use());
    match app.take_request() {
        Err(AppError::TransportBusy) => {}
        other => panic!("{other:?}"),
    }
    assert_eq!(app.outbox.len(), 1);
    assert!(app.transport.is_in_use());
    app.complete(Reply::Items(vec![raw(4, "z")]));
    assert!(!app.transport.is_in_use());
    assert_eq!(names(&app), vec!["z"]);
    assert!(matches!(app.take_request(), Ok(Some(Request::GetStats))));
}

#[test]
fn the_handle_refuses_a_second_claim() {
    let mut transport = Transport::new();
    assert!(!transport.is_in_use());
    assert!(transport.begin(Purpose::RefreshList).is_ok());
    assert!(matches!(transport.begin(Purpose::RefreshStats), Err(AppError::TransportBusy)));
    assert!(transport.is_in_use());
    assert_eq!(transport.finish(), Some(Purpose::RefreshList));
    assert_eq!(transport.finish(), None);
    assert!(transport.begin(Purpose::Acknowledge).is_ok());
}

#[test]
fn a_failed_request_is_shown_and_the_loop_goes_on() {
    let mut app = started(vec![raw(3, "a")]);
    app.dispatch(Action::Tick);
    app.take_request().expect("free");
    app.complete(Reply::Failed("connection refused".to_string()));
    assert_eq!(names(&app), vec!["a"]);
    match app.next_action() {
        Some(Action::Error(message)) => {
            assert_eq!(message, "connection refused");
            match app.dispatch(Action::Error(message)) {
                Some(Effect::ShowError(shown)) => assert_eq!(shown, "connection refused"),
                other => panic!("{other:?}"),
            }
        }
        other => panic!("{other:?}"),
    }
    assert!(!app.should_quit);
}

#[test]
fn an_answer_of_the_wrong_kind_is_an_error() {
    let mut app = started(vec![raw(3, "a")]);
    app.dispatch(Action::Tick);
    app.take_request().expect("free");
    app.complete(Reply::Done);
    assert!(matches!(app.next_action(), Some(Action::Error(_))));
    app.take_request().expect("free");
    app.complete(Reply::Items(vec![raw(1, "x")]));
    assert!(matches!(app.next_action(), Some(Action::Error(_))));
    assert_eq!(names(&app), vec!["a"]);
}

#[test]
fn an_answer_that_nobody_asked_for_changes_nothing() {
    let mut app = started(vec![raw(3, "a")]);
    app.complete(Reply::Items(vec![raw(1, "x")]));
    assert_eq!(names(&app), vec!["a"]);
    assert!(app.next_action().is_none());
}

#[test]
fn quit_ends_the_loop() {
    let mut app = started(vec![raw(3, "a")]);
    app.queue.push_input(key(Key::Char('q')));
    let effects = run(&mut app, &[]);
    assert!(app.should_quit);
    assert!(matches!(effects.as_slice(), [Effect::Quit]));
}

#[test]
fn render_draws_and_settles_the_cursor() {
    let mut app = started(vec![raw(3, "a"), raw(4, "b")]);
    app.queue.push_input(key(Key::Char('G')));
    app.queue.push_render();
    let effects = run(&mut app, &[]);
    assert!(matches!(effects.as_slice(), [Effect::Draw]));
    assert_eq!(app.home.state.selected, Some(1));
    assert!(matches!(app.dispatch(Action::ClearScreen), Some(Effect::ClearScreen)));
}

#[test]
fn keys_come_before_ticks() {
    let mut app = started(vec![raw(3, "a"), raw(4, "b")]);
    app.queue.push_tick();
    app.queue.push_input(key(Key::Down));
    assert!(matches!(app.next_action(), Some(Action::Key(_))));
    assert!(matches!(app.next_action(), Some(Action::Tick)));
}

#[test]
fn commands_go_to_the_server() {
    let mut app = started(vec![raw(3, "a"), raw(4, "b")]);
    assert!(app.dispatch(Action::Key(key(Key::Char('S')))).is_none());
    match app.take_request() {
        Ok(Some(Request::SetAction(TorrentAction::Stop, ids))) => assert_eq!(ids, vec![3, 4]),
        other => panic!("{other:?}"),
    }
    app.complete(Reply::Done);
    assert!(app.next_action().is_none());
    app.dispatch(Action::Key(key(Key::Char('p'))));
    match app.take_request() {
        Ok(Some(Request::SetAction(TorrentAction::Start, ids))) => assert_eq!(ids, vec![3]),
        other => panic!("{other:?}"),
    }
}

#[test]
fn the_detail_is_refreshed_by_a_tick() {
    let mut app = started(vec![raw(3, "a")]);
    app.queue.push_input(key(Key::Enter));
    run(&mut app, &[(3, "a")]);
    app.queue.push_tick();
    run(&mut app, &[(3, "renamed")]);
    match &app.screen {
        Screen::Detail(3, view) => assert_eq!(view.data.name, "renamed"),
        other => panic!("{other:?}"),
    }
    app.queue.push_tick();
    let effects = run(&mut app, &[]);
    assert!(matches!(effects.as_slice(), [Effect::ShowError(_)]));
    assert_eq!(app.current_mode(), Mode::Detail(3));
}

#[test]
fn moves_in_the_tree_are_handed_on() {
    let mut app = started(vec![raw(3, "a")]);
    app.queue.push_input(key(Key::Enter));
    app.queue.push_input(key(Key::Right));
    app.queue.push_input(key(Key::Right));
    app.queue.push_input(key(Key::Down));
    let effects = run(&mut app, &[(3, "a")]);
    assert!(matches!(effects.as_slice(), [Effect::Tree(TreeCommand::Down)]));
}
