//! The loop that handles the actions: what each action does to the views, and what it asks
//! of the terminal and of the server.
//!
//! Nothing here draws, reads keys or talks to the server. The caller takes the next action
//! with [`App::next_action`], hands it to [`App::dispatch`] and carries out the effect that
//! comes back. It then sends each request that [`App::take_request`] gives and hands the
//! answer to [`App::complete`], before it takes the next action.

use vstd::prelude::*;
use vstd::string::*;
use crate::action::{Action, ActionQueue, ActionView, KeyEvent, Mode, Target};
use crate::components::home::{column_widths, cursor_after_key, initial_selection, Home};
use crate::components::properties::{
    tab_after_key, tracker_cursor_after_key, tracker_scroll_after_key, Properties, SelectedTab,
};
use crate::components::selection::{scroll_of, settled, Scroll};
use crate::components::session_stats::SessionStat;
use crate::components::{Outcome, OutcomeView, TreeCommand};
use crate::data::{
    kept_records, map_torrent_data, stably_sorted, torrents_view, Torrent, TorrentView,
};
use crate::error::{error_text, AppError, AppErrorView};
use crate::rpc::{
    pending_view, raw_torrents_view, Pending, PendingView, Purpose, Reply, Request, RequestView,
    SessionStats, Transport,
};

verus! {

/// What is shown: the list, or the detail view of the torrent with the given number.
#[derive(Debug)]
pub enum Screen {
    List,
    Detail(i64, Properties),
}

/// What handling an action asks of the terminal.
#[derive(Debug)]
pub enum Effect {
    /// Draw the views as they are now.
    Draw,
    ClearScreen,
    /// Show a message to the operator.
    ShowError(String),
    /// Leave the loop.
    Quit,
    /// Move in the tree of files.
    Tree(TreeCommand),
}

/// What an [`Effect`] holds.
pub enum EffectView {
    Draw,
    ClearScreen,
    ShowError(Seq<char>),
    Quit,
    Tree(TreeCommand),
}

impl View for Effect {
    type V = EffectView;

    open spec fn view(&self) -> EffectView {
        match self {
            Effect::Draw => EffectView::Draw,
            Effect::ClearScreen => EffectView::ClearScreen,
            Effect::ShowError(message) => EffectView::ShowError(message@),
            Effect::Quit => EffectView::Quit,
            Effect::Tree(command) => EffectView::Tree(*command),
        }
    }
}

/// The view of an optional effect.
pub open spec fn option_effect_view(effect: Option<Effect>) -> Option<EffectView> {
    match effect {
        Some(effect) => Some(effect@),
        None => None,
    }
}

/// The screen that a switch leads to, if it leads anywhere: from the list to the detail of
/// a torrent that is named, and from a detail back to the list. There is no other way.
pub open spec fn transition(mode: Mode, target: Target, focus: Option<i64>) -> Option<Mode> {
    match (mode, target, focus) {
        (Mode::List, Target::Detail, Some(id)) => Some(Mode::Detail(id)),
        (Mode::Detail(_), Target::List, _) => Some(Mode::List),
        _ => None,
    }
}

/// Decides where a switch leads.
pub fn next_mode(mode: Mode, target: Target, focus: Option<i64>) -> (next: Option<Mode>)
    ensures
        next == transition(mode, target, focus),
{
    match mode {
        Mode::List => match target {
            Target::Detail => match focus {
                Some(id) => Some(Mode::Detail(id)),
                None => None,
            },
            Target::List => None,
        },
        Mode::Detail(_) => match target {
            Target::List => Some(Mode::List),
            Target::Detail => None,
        },
    }
}

/// Selecting a torrent in the list leads to its detail, and going back from there leads to
/// the list.
pub proof fn select_then_back(id: i64, focus: Option<i64>)
    ensures
        transition(Mode::List, Target::Detail, Some(id)) == Some(Mode::Detail(id)),
        transition(Mode::Detail(id), Target::List, focus) == Some(Mode::List),
{
}

/// No switch leads anywhere but to the list or to the detail of the torrent that it names.
pub proof fn no_other_mode_is_reached(mode: Mode, target: Target, focus: Option<i64>)
    ensures
        match transition(mode, target, focus) {
            Some(Mode::List) => mode is Detail && target == Target::List,
            Some(Mode::Detail(id)) => mode == Mode::List && target == Target::Detail && focus
                == Some(id),
            None => true,
        },
{
}

/// The request that a switch sends before the other screen can be shown: the torrents
/// that the screen is to show.
pub open spec fn switch_request(mode: Mode, target: Target, focus: Option<i64>) -> Seq<
    PendingView,
> {
    match transition(mode, target, focus) {
        Some(Mode::Detail(id)) => seq![
            PendingView {
                request: RequestView::GetItems(Some(id)),
                purpose: Purpose::EnterDetail(id),
            },
        ],
        Some(Mode::List) => seq![
            PendingView {
                request: RequestView::GetItems(None),
                purpose: Purpose::EnterList(focus),
            },
        ],
        None => Seq::empty(),
    }
}

/// The requests of a tick: the list asks for all torrents and for the totals of the
/// session, the detail view for its torrent.
pub open spec fn tick_requests(screen: Screen) -> Seq<PendingView> {
    match screen {
        Screen::List => seq![
            PendingView { request: RequestView::GetItems(None), purpose: Purpose::RefreshList },
            PendingView { request: RequestView::GetStats, purpose: Purpose::RefreshStats },
        ],
        Screen::Detail(_, view) => seq![
            PendingView {
                request: RequestView::GetItems(Some(view.data.id)),
                purpose: Purpose::RefreshDetail,
            },
        ],
    }
}

/// The state of the dashboard.
#[derive(Debug)]
pub struct App {
    /// The list of all torrents. It is kept while a detail is shown.
    pub home: Home,
    /// The totals of the session, shown below the list.
    pub stats: SessionStat,
    pub screen: Screen,
    /// The actions that wait to be handled.
    pub queue: ActionQueue,
    /// The handle to the server.
    pub transport: Transport,
    /// The requests that wait to be sent, oldest first.
    pub outbox: Vec<Pending>,
    /// Whether the loop is to end.
    pub should_quit: bool,
}

/// Whether two states differ at most in the actions that wait, of which the later state has
/// the given follow-ups more.
pub open spec fn follow_ups_added(old: App, new: App, added: Seq<ActionView>) -> bool {
    &&& new.queue.follow_ups() == old.queue.follow_ups() + added
    &&& new.queue.inputs() == old.queue.inputs()
    &&& new.queue.timers() == old.queue.timers()
}

/// Whether the later state has the given requests more to send.
pub open spec fn requests_added(old: App, new: App, added: Seq<PendingView>) -> bool {
    pending_view(new.outbox@) == pending_view(old.outbox@) + added
}

/// Whether the later state shows what the earlier one showed.
pub open spec fn views_kept(old: App, new: App) -> bool {
    &&& new.home == old.home
    &&& new.stats == old.stats
    &&& new.screen == old.screen
}

/// What handling the answer of a view does: a follow-up is put before all that waits, a
/// request is put behind those that wait to be sent, and a move in the tree is handed on.
pub open spec fn routed(
    old: App,
    new: App,
    outcome: OutcomeView,
    effect: Option<EffectView>,
) -> bool {
    match outcome {
        OutcomeView::Nothing => {
            &&& follow_ups_added(old, new, Seq::empty())
            &&& requests_added(old, new, Seq::empty())
            &&& effect is None
        },
        OutcomeView::FollowUp(action) => {
            &&& follow_ups_added(old, new, seq![action])
            &&& requests_added(old, new, Seq::empty())
            &&& effect is None
        },
        OutcomeView::Call(request) => {
            &&& follow_ups_added(old, new, Seq::empty())
            &&& requests_added(
                old,
                new,
                seq![PendingView { request, purpose: Purpose::Acknowledge }],
            )
            &&& effect is None
        },
        OutcomeView::Tree(command) => {
            &&& follow_ups_added(old, new, Seq::empty())
            &&& requests_added(old, new, Seq::empty())
            &&& effect == Some(EffectView::Tree(command))
        },
    }
}

/// What a key press does to the views.
pub open spec fn views_after_key(old: App, new: App, key: KeyEvent) -> bool {
    &&& new.stats == old.stats
    &&& match old.screen {
        Screen::List => {
            &&& new.screen is List
            &&& new.home.items == old.home.items
            &&& new.home.longest_item_lens == old.home.longest_item_lens
            &&& (new.home.state, new.home.scroll_state) == cursor_after_key(old.home, key)
        },
        Screen::Detail(id, view) => {
            &&& new.home == old.home
            &&& new.screen matches Screen::Detail(shown, after)
            &&& shown == id
            &&& after.data == view.data
            &&& after.info_tab == view.info_tab
            &&& after.files_tab == view.files_tab
            &&& after.tracker_tab.data == view.tracker_tab.data
            &&& after.selected_tab == tab_after_key(view.selected_tab, key)
            &&& after.tracker_tab.state == tracker_cursor_after_key(view, key)
            &&& after.tracker_tab.scroll_state == tracker_scroll_after_key(view, key)
        },
    }
}

/// What the view that is shown answers to a key.
pub open spec fn key_outcome(app: App, key: KeyEvent) -> OutcomeView {
    match app.screen {
        Screen::List => crate::components::home::key_outcome(app.home, key),
        Screen::Detail(_, view) => crate::components::properties::key_outcome(view, key),
    }
}

/// What drawing does to the views: the cursor of the list that is drawn comes to stand in
/// the list.
pub open spec fn views_after_render(old: App, new: App) -> bool {
    &&& new.stats == old.stats
    &&& match old.screen {
        Screen::List => {
            &&& new.screen is List
            &&& new.home.items == old.home.items
            &&& new.home.longest_item_lens == old.home.longest_item_lens
            &&& new.home.scroll_state == old.home.scroll_state
            &&& new.home.state.selected == settled(
                old.home.state.selected,
                old.home.items@.len() as int,
            )
        },
        Screen::Detail(id, view) => {
            &&& new.home == old.home
            &&& new.screen matches Screen::Detail(shown, after)
            &&& shown == id
            &&& after.data == view.data
            &&& after.info_tab == view.info_tab
            &&& after.files_tab == view.files_tab
            &&& after.selected_tab == view.selected_tab
            &&& after.tracker_tab.data == view.tracker_tab.data
            &&& after.tracker_tab.scroll_state == view.tracker_tab.scroll_state
            &&& after.tracker_tab.state.selected == if view.selected_tab == SelectedTab::Tracker {
                settled(
                    view.tracker_tab.state.selected,
                    view.tracker_tab.data.trackers@.len() as int,
                )
            } else {
                view.tracker_tab.state.selected
            }
        },
    }
}

/// What handling an action does.
pub open spec fn dispatched(
    old: App,
    action: ActionView,
    new: App,
    effect: Option<EffectView>,
) -> bool {
    &&& new.transport == old.transport
    &&& new.should_quit == (old.should_quit || action is Quit)
    &&& match action {
        ActionView::Quit => {
            &&& views_kept(old, new)
            &&& routed(old, new, OutcomeView::Nothing, None)
            &&& effect == Some(EffectView::Quit)
        },
        ActionView::Render => {
            &&& views_after_render(old, new)
            &&& routed(old, new, OutcomeView::Nothing, None)
            &&& effect == Some(EffectView::Draw)
        },
        ActionView::ClearScreen => {
            &&& views_kept(old, new)
            &&& routed(old, new, OutcomeView::Nothing, None)
            &&& effect == Some(EffectView::ClearScreen)
        },
        ActionView::Error(message) => {
            &&& views_kept(old, new)
            &&& routed(old, new, OutcomeView::Nothing, None)
            &&& effect == Some(EffectView::ShowError(message))
        },
        ActionView::SwitchMode(target, focus) => {
            &&& views_kept(old, new)
            &&& follow_ups_added(old, new, Seq::empty())
            &&& requests_added(old, new, switch_request(old.mode(), target, focus))
            &&& effect is None
        },
        ActionView::Tick => {
            &&& views_kept(old, new)
            &&& follow_ups_added(old, new, Seq::empty())
            &&& requests_added(old, new, tick_requests(old.screen))
            &&& effect is None
        },
        ActionView::Key(key) => {
            &&& views_after_key(old, new, key)
            &&& routed(old, new, key_outcome(old, key), effect)
        },
    }
}

/// The message for an answer that is not the answer to what was asked.
pub open spec fn unexpected_answer() -> Seq<char> {
    "The server answered something that was not asked for"@
}

/// What an answer with torrents does, given the display records made of them.
pub open spec fn items_received(
    old: App,
    purpose: Purpose,
    records: Seq<TorrentView>,
    new: App,
) -> bool {
    &&& new.stats == old.stats
    &&& requests_added(old, new, Seq::empty())
    &&& new.should_quit == old.should_quit
    &&& match purpose {
        Purpose::RefreshList => {
            &&& torrents_view(new.home.items@) == records
            &&& new.home.state == old.home.state
            &&& new.home.scroll_state == old.home.scroll_state
            &&& new.home.longest_item_lens == old.home.longest_item_lens
            &&& new.screen == old.screen
            &&& follow_ups_added(old, new, Seq::empty())
        },
        Purpose::RefreshDetail => {
            &&& new.home == old.home
            &&& match old.screen {
                Screen::List => new.screen == old.screen && follow_ups_added(
                    old,
                    new,
                    Seq::empty(),
                ),
                Screen::Detail(id, view) => if records.len() == 0 {
                    &&& new.screen == old.screen
                    &&& follow_ups_added(
                        old,
                        new,
                        seq![ActionView::Error(error_text(AppErrorView::IndexOutOfRange))],
                    )
                } else {
                    &&& follow_ups_added(old, new, Seq::empty())
                    &&& new.screen matches Screen::Detail(shown, after)
                    &&& shown == id
                    &&& after.data@ == records[0]
                    &&& after.info_tab.data@ == records[0]
                    &&& after.tracker_tab.data@ == records[0]
                    &&& after.files_tab.data@ == records[0]
                    &&& after.selected_tab == view.selected_tab
                    &&& after.tracker_tab.state == view.tracker_tab.state
                    &&& after.tracker_tab.scroll_state == view.tracker_tab.scroll_state
                },
            }
        },
        Purpose::EnterDetail(id) => {
            &&& new.home == old.home
            &&& if records.len() == 0 {
                &&& new.screen == old.screen
                &&& follow_ups_added(
                    old,
                    new,
                    seq![ActionView::Error(error_text(AppErrorView::IndexOutOfRange))],
                )
            } else {
                &&& follow_ups_added(old, new, Seq::empty())
                &&& new.screen matches Screen::Detail(shown, view)
                &&& shown == id
                &&& view.data@ == records[0]
                &&& view.info_tab.data@ == records[0]
                &&& view.tracker_tab.data@ == records[0]
                &&& view.files_tab.data@ == records[0]
                &&& view.selected_tab == SelectedTab::Info
                &&& view.tracker_tab.state.selected == Some(0usize)
                &&& view.tracker_tab.scroll_state == (Scroll {
                    content_length: scroll_of(records[0].trackers.len() as usize),
                    position: 0,
                })
            }
        },
        Purpose::EnterList(focus) => {
            &&& new.screen is List
            &&& torrents_view(new.home.items@) == records
            &&& new.home.state.selected == initial_selection(records, focus)
            &&& new.home.scroll_state == (Scroll {
                content_length: scroll_of(records.len() as usize),
                position: 0,
            })
            &&& new.home.longest_item_lens == column_widths(records)
            &&& follow_ups_added(old, new, Seq::empty())
        },
        _ => {
            &&& views_kept(old, new)
            &&& follow_ups_added(old, new, seq![ActionView::Error(unexpected_answer())])
        },
    }
}

/// What an answer does that holds no torrents.
pub open spec fn answer_received(old: App, purpose: Purpose, reply: Reply, new: App) -> bool {
    &&& requests_added(old, new, Seq::empty())
    &&& new.should_quit == old.should_quit
    &&& new.home == old.home
    &&& new.screen == old.screen
    &&& match reply {
        Reply::Failed(message) => {
            &&& new.stats == old.stats
            &&& follow_ups_added(old, new, seq![ActionView::Error(message@)])
        },
        Reply::Stats(stats) => if purpose == Purpose::RefreshStats {
            &&& new.stats.stats == stats
            &&& follow_ups_added(old, new, Seq::empty())
        } else {
            &&& new.stats == old.stats
            &&& follow_ups_added(old, new, seq![ActionView::Error(unexpected_answer())])
        },
        Reply::Done => if purpose == Purpose::Acknowledge {
            &&& new.stats == old.stats
            &&& follow_ups_added(old, new, Seq::empty())
        } else {
            &&& new.stats == old.stats
            &&& follow_ups_added(old, new, seq![ActionView::Error(unexpected_answer())])
        },
        Reply::Items(_) => true,
    }
}

/// What the answer to the request that is out does. The handle to the server is free
/// again. An answer that comes while no request is out changes nothing.
pub open spec fn completed(old: App, reply: Reply, new: App) -> bool {
    match old.transport.in_flight() {
        None => new == old,
        Some(purpose) => {
            &&& new.transport.in_flight() is None
            &&& match reply {
                Reply::Items(torrents) => exists|records: Seq<TorrentView>|
                    {
                        &&& stably_sorted(kept_records(raw_torrents_view(torrents@)), records)
                        &&& #[trigger] items_received(old, purpose, records, new)
                    },
                _ => answer_received(old, purpose, reply, new),
            }
        },
    }
}

/// When the answer to a refresh of the list has been taken, the list stands in the order
/// of the names of its torrents.
pub proof fn refreshed_list_is_sorted(old: App, reply: Reply, new: App)
    requires
        completed(old, reply, new),
        old.transport.in_flight() == Some(Purpose::RefreshList),
        reply is Items,
    ensures
        crate::data::sorted_by_name(torrents_view(new.home.items@)),
        new.screen == old.screen,
        new.home.state == old.home.state,
{
    let torrents = reply->Items_0;
    let records = choose|records: Seq<TorrentView>|
        {
            &&& stably_sorted(kept_records(raw_torrents_view(torrents@)), records)
            &&& #[trigger] items_received(old, Purpose::RefreshList, records, new)
        };
    assert(torrents_view(new.home.items@) == records);
}

/// Selecting a row of the list asks for the detail of its torrent, and going back from a
/// detail asks for the list with that torrent in focus. When the list then opens, its
/// cursor stands on the row of that torrent if the torrents that the server reported hold
/// it, and else on the first row.
pub proof fn select_and_return(
    home: Home,
    view: Properties,
    old: App,
    records: Seq<TorrentView>,
    new: App,
)
    requires
        home.state.selected matches Some(row) && row < home.items@.len(),
        items_received(old, Purpose::EnterList(Some(view.data.id)), records, new),
    ensures
        crate::components::home::key_outcome(
            home,
            KeyEvent { code: crate::action::Key::Enter, control: false },
        ) == OutcomeView::FollowUp(
            ActionView::SwitchMode(
                Target::Detail,
                Some(home.items@[home.state.selected.unwrap() as int].id),
            ),
        ),
        crate::components::properties::key_outcome(
            view,
            KeyEvent { code: crate::action::Key::Esc, control: false },
        ) == OutcomeView::FollowUp(ActionView::SwitchMode(Target::List, Some(view.data.id))),
        new.mode() == Mode::List,
        new.home.state.selected == initial_selection(records, Some(view.data.id)),
        records.len() > 0 ==> new.home.state.selected is Some,
        (exists|k: int| 0 <= k < records.len() && (#[trigger] records[k]).id == view.data.id)
            ==> records[new.home.state.selected.unwrap() as int].id == view.data.id,
        !(exists|k: int| 0 <= k < records.len() && (#[trigger] records[k]).id == view.data.id)
            && records.len() > 0 ==> new.home.state.selected == Some(0usize),
{
    assert(records.len() == new.home.items.len());
    crate::components::home::focus_is_reselected(records, view.data.id);
}

impl App {
    /// The screen that is shown.
    pub open spec fn mode(&self) -> Mode {
        match self.screen {
            Screen::List => Mode::List,
            Screen::Detail(id, _) => Mode::Detail(id),
        }
    }

    /// The dashboard as it starts: the list of the given torrents with the cursor on the
    /// first, nothing waiting and no request out.
    pub fn new(items: Vec<Torrent>, stats: SessionStats) -> (app: Self)
        ensures
            app.screen is List,
            app.home.items == items,
            app.home.state.selected == initial_selection(torrents_view(items@), None),
            app.home.scroll_state == (Scroll {
                content_length: scroll_of(items.len()),
                position: 0,
            }),
            app.home.longest_item_lens == column_widths(torrents_view(items@)),
            app.stats.stats == stats,
            app.queue.pending() == Seq::<ActionView>::empty(),
            app.outbox@.len() == 0,
            app.transport.in_flight() is None,
            !app.should_quit,
    {
        let app = App {
            home: Home::new(items, None),
            stats: SessionStat::new(stats),
            screen: Screen::List,
            queue: ActionQueue::new(),
            transport: Transport::new(),
            outbox: Vec::new(),
            should_quit: false,
        };
        assert(app.queue.pending() =~= Seq::<ActionView>::empty());
        app
    }

    /// The screen that is shown.
    pub fn current_mode(&self) -> (mode: Mode)
        ensures
            mode == self.mode(),
    {
        match &self.screen {
            Screen::List => Mode::List,
            Screen::Detail(id, _) => Mode::Detail(*id),
        }
    }

    /// Takes the action that is to be handled next: what a handler asked for comes before
    /// the key presses, and these before the ticks of the two timers.
    pub fn next_action(&mut self) -> (next: Option<Action>)
        ensures
            crate::action::option_action_view(next) == if old(self).queue.pending().len() > 0 {
                Some(old(self).queue.pending()[0])
            } else {
                None
            },
            final(self).queue.pending() == if old(self).queue.pending().len() > 0 {
                old(self).queue.pending().drop_first()
            } else {
                old(self).queue.pending()
            },
            views_kept(*old(self), *final(self)),
            final(self).transport == old(self).transport,
            final(self).outbox == old(self).outbox,
            final(self).should_quit == old(self).should_quit,
    {
        let next = self.queue.pop();
        proof {
            let before = old(self).queue;
            if before.follow_ups().len() > 0 {
                assert(self.queue.pending() =~= before.pending().drop_first());
            } else if before.inputs().len() > 0 {
                assert(self.queue.pending() =~= before.pending().drop_first());
            } else if before.timers().len() > 0 {
                assert(self.queue.pending() =~= before.pending().drop_first());
            } else {
                assert(self.queue.pending() =~= before.pending());
            }
        }
        next
    }

    fn enqueue(&mut self, request: Request, purpose: Purpose)
        ensures
            views_kept(*old(self), *final(self)),
            final(self).queue == old(self).queue,
            final(self).transport == old(self).transport,
            final(self).should_quit == old(self).should_quit,
            requests_added(
                *old(self),
                *final(self),
                seq![PendingView { request: request@, purpose }],
            ),
    {
        self.outbox.push(Pending { request, purpose });
        assert(pending_view(self.outbox@) =~= pending_view(old(self).outbox@) + seq![
            PendingView { request: request@, purpose },
        ]);
    }

    fn enqueue_outcome(&mut self, outcome: Outcome, purpose: Purpose)
        requires
            outcome is Call || outcome is Nothing,
        ensures
            views_kept(*old(self), *final(self)),
            final(self).queue == old(self).queue,
            final(self).transport == old(self).transport,
            final(self).should_quit == old(self).should_quit,
            requests_added(
                *old(self),
                *final(self),
                match outcome@ {
                    OutcomeView::Call(request) => seq![PendingView { request, purpose }],
                    _ => Seq::empty(),
                },
            ),
    {
        match outcome {
            Outcome::Call(request) => self.enqueue(request, purpose),
            _ => {
                assert(pending_view(self.outbox@) =~= pending_view(old(self).outbox@)
                    + Seq::<PendingView>::empty());
            },
        }
    }

    fn route(&mut self, outcome: Outcome) -> (effect: Option<Effect>)
        ensures
            views_kept(*old(self), *final(self)),
            final(self).transport == old(self).transport,
            final(self).should_quit == old(self).should_quit,
            routed(*old(self), *final(self), outcome@, option_effect_view(effect)),
    {
        proof {
            assert(pending_view(self.outbox@) =~= pending_view(self.outbox@)
                + Seq::<PendingView>::empty());
            assert(self.queue.follow_ups() =~= self.queue.follow_ups()
                + Seq::<ActionView>::empty());
        }
        match outcome {
            Outcome::Nothing => None,
            Outcome::FollowUp(action) => {
                self.queue.push_follow_up(action);
                assert(self.queue.follow_ups() =~= old(self).queue.follow_ups() + seq![action@]);
                None
            },
            Outcome::Call(request) => {
                self.enqueue(request, Purpose::Acknowledge);
                None
            },
            Outcome::Tree(command) => Some(Effect::Tree(command)),
        }
    }

    fn report(&mut self, error: AppError)
        ensures
            views_kept(*old(self), *final(self)),
            final(self).transport == old(self).transport,
            final(self).should_quit == old(self).should_quit,
            final(self).outbox == old(self).outbox,
            follow_ups_added(
                *old(self),
                *final(self),
                seq![ActionView::Error(error_text(error@))],
            ),
    {
        self.queue.push_follow_up(Action::Error(error.message()));
        assert(self.queue.follow_ups() =~= old(self).queue.follow_ups() + seq![
            ActionView::Error(error_text(error@)),
        ]);
    }

    /// Handles one action.
    pub fn dispatch(&mut self, action: Action) -> (effect: Option<Effect>)
        ensures
            dispatched(*old(self), action@, *final(self), option_effect_view(effect)),
    {
        proof {
            assert(pending_view(self.outbox@) =~= pending_view(self.outbox@)
                + Seq::<PendingView>::empty());
            assert(self.queue.follow_ups() =~= self.queue.follow_ups()
                + Seq::<ActionView>::empty());
        }
        match action {
            Action::Quit => {
                self.should_quit = true;
                Some(Effect::Quit)
            },
            Action::Render => {
                match &mut self.screen {
                    Screen::List => self.home.settle(),
                    Screen::Detail(_, view) => view.settle(),
                }
                Some(Effect::Draw)
            },
            Action::ClearScreen => Some(Effect::ClearScreen),
            Action::Error(message) => Some(Effect::ShowError(message)),
            Action::SwitchMode(target, focus) => {
                match next_mode(self.current_mode(), target, focus) {
                    Some(Mode::Detail(id)) => self.enqueue(
                        Request::GetItems(Some(id)),
                        Purpose::EnterDetail(id),
                    ),
                    Some(Mode::List) => self.enqueue(
                        Request::GetItems(None),
                        Purpose::EnterList(focus),
                    ),
                    None => {},
                }
                None
            },
            Action::Tick => {
                let tick = Action::Tick;
                match &self.screen {
                    Screen::List => {
                        let items = self.home.update(&tick);
                        let totals = self.stats.update(&tick);
                        let ghost before = pending_view(self.outbox@);
                        self.enqueue_outcome(items, Purpose::RefreshList);
                        self.enqueue_outcome(totals, Purpose::RefreshStats);
                        assert(pending_view(self.outbox@) =~= before + tick_requests(
                            old(self).screen,
                        ));
                    },
                    Screen::Detail(_, view) => {
                        let item = view.update(&tick);
                        self.enqueue_outcome(item, Purpose::RefreshDetail);
                    },
                }
                None
            },
            Action::Key(key) => {
                let outcome = match &mut self.screen {
                    Screen::List => self.home.handle_key_event(key),
                    Screen::Detail(_, view) => view.handle_key_event(key),
                };
                self.route(outcome)
            },
        }
    }

    /// Gives the request that is to be sent next, and claims the handle to the server for
    /// it. While a request is out none is given: the attempt fails, and nothing changes.
    pub fn take_request(&mut self) -> (next: Result<Option<Request>, AppError>)
        ensures
            old(self).outbox@.len() == 0 ==> (next matches Ok(None)) && *final(self) == *old(self),
            old(self).outbox@.len() > 0 && old(self).transport.in_flight() is Some ==> (
            next matches Err(error) && error@ == AppErrorView::TransportBusy) && *final(self)
                == *old(self),
            old(self).outbox@.len() > 0 && old(self).transport.in_flight() is None ==> {
                &&& next matches Ok(Some(request))
                &&& request@ == old(self).outbox@[0]@.request
                &&& final(self).transport.in_flight() == Some(old(self).outbox@[0].purpose)
                &&& final(self).outbox@ == old(self).outbox@.drop_first()
                &&& views_kept(*old(self), *final(self))
                &&& final(self).queue == old(self).queue
                &&& final(self).should_quit == old(self).should_quit
            },
    {
        if self.outbox.len() == 0 {
            return Ok(None);
        }
        let purpose = self.outbox[0].purpose;
        match self.transport.begin(purpose) {
            Err(error) => Err(error),
            Ok(()) => {
                let pending = self.outbox.remove(0);
                assert(self.outbox@ =~= old(self).outbox@.drop_first());
                Ok(Some(pending.request))
            },
        }
    }

    /// Takes display records that the server's answer was turned into, for the given
    /// purpose.
    pub fn receive_items(&mut self, purpose: Purpose, records: Vec<Torrent>)
        ensures
            final(self).transport == old(self).transport,
            items_received(*old(self), purpose, torrents_view(records@), *final(self)),
    {
        proof {
            assert(pending_view(self.outbox@) =~= pending_view(self.outbox@)
                + Seq::<PendingView>::empty());
            assert(self.queue.follow_ups() =~= self.queue.follow_ups()
                + Seq::<ActionView>::empty());
        }
        match purpose {
            Purpose::RefreshList => {
                self.home.receive(records);
            },
            Purpose::RefreshDetail => {
                let taken = match &mut self.screen {
                    Screen::List => Ok(()),
                    Screen::Detail(_, view) => view.receive(&records),
                };
                match taken {
                    Ok(()) => {},
                    Err(error) => self.report(error),
                }
            },
            Purpose::EnterDetail(id) => {
                match Properties::new(&records) {
                    Ok(view) => {
                        self.screen = Screen::Detail(id, view);
                    },
                    Err(error) => self.report(error),
                }
            },
            Purpose::EnterList(focus) => {
                self.home = Home::new(records, focus);
                self.screen = Screen::List;
            },
            _ => {
                let message = "The server answered something that was not asked for";
                self.queue.push_follow_up(Action::Error(message.to_owned()));
                assert(self.queue.follow_ups() =~= old(self).queue.follow_ups() + seq![
                    ActionView::Error(unexpected_answer()),
                ]);
            },
        }
    }

    /// Takes the answer to the request that is out.
    pub fn complete(&mut self, reply: Reply)
        ensures
            completed(*old(self), reply, *final(self)),
    {
        let purpose = match self.transport.finish() {
            Some(purpose) => purpose,
            None => {
                return ;
            },
        };
        let ghost freed = *self;
        proof {
            assert(pending_view(self.outbox@) =~= pending_view(self.outbox@)
                + Seq::<PendingView>::empty());
            assert(self.queue.follow_ups() =~= self.queue.follow_ups()
                + Seq::<ActionView>::empty());
        }
        match reply {
            Reply::Items(torrents) => {
                let records = map_torrent_data(&torrents);
                self.receive_items(purpose, records);
                assert(items_received(*old(self), purpose, torrents_view(records@), *self));
            },
            Reply::Failed(message) => {
                self.report(AppError::TransportFailure(message));
            },
            Reply::Stats(stats) => {
                match purpose {
                    Purpose::RefreshStats => self.stats.receive(stats),
                    _ => self.report(
                        AppError::TransportFailure(
                            "The server answered something that was not asked for".to_owned(),
                        ),
                    ),
                }
            },
            Reply::Done => {
                match purpose {
                    Purpose::Acknowledge => {},
                    _ => self.report(
                        AppError::TransportFailure(
                            "The server answered something that was not asked for".to_owned(),
                        ),
                    ),
                }
            },
        }
    }
}

} // verus!
