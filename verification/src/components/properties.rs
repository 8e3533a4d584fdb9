//! The detail view of one torrent.

use vstd::prelude::*;
use vstd::string::*;
use crate::action::{Action, ActionView, Key, KeyEvent, Target};
use crate::components::selection::{
    capped_sum, floored_difference, next_row, previous_row, scroll_of, settled, Scroll, Selection,
};
use crate::components::{Outcome, OutcomeView, TreeCommand};
use crate::data::Torrent;
use crate::error::{AppError, AppErrorView};
use crate::rpc::{Request, RequestView};

pub mod files;
pub mod info;
pub mod peers;
pub mod trackers;

verus! {

/// Rows that a page key moves the cursor by.
pub const SCROLL_SIZE: usize = 4;

/// The tab of the detail view that is shown.
#[derive(Clone, Copy, Debug, PartialEq, Eq, Structural)]
pub enum SelectedTab {
    Info,
    Tracker,
    Files,
}

/// The tab to the right, the last tab staying where it is.
pub open spec fn next_tab(tab: SelectedTab) -> SelectedTab {
    match tab {
        SelectedTab::Info => SelectedTab::Tracker,
        SelectedTab::Tracker => SelectedTab::Files,
        SelectedTab::Files => SelectedTab::Files,
    }
}

/// The tab to the left, the first tab staying where it is.
pub open spec fn previous_tab(tab: SelectedTab) -> SelectedTab {
    match tab {
        SelectedTab::Info => SelectedTab::Info,
        SelectedTab::Tracker => SelectedTab::Info,
        SelectedTab::Files => SelectedTab::Tracker,
    }
}

/// The name of a tab.
pub open spec fn tab_name(tab: SelectedTab) -> Seq<char> {
    match tab {
        SelectedTab::Info => "Info"@,
        SelectedTab::Tracker => "Tracker"@,
        SelectedTab::Files => "Files"@,
    }
}

impl Default for SelectedTab {
    fn default() -> (tab: Self)
        ensures
            tab == SelectedTab::Info,
    {
        SelectedTab::Info
    }
}

impl SelectedTab {
    /// The tab to the left, or this tab if there is none.
    pub fn previous(self) -> (tab: Self)
        ensures
            tab == previous_tab(self),
    {
        match self {
            SelectedTab::Info => SelectedTab::Info,
            SelectedTab::Tracker => SelectedTab::Info,
            SelectedTab::Files => SelectedTab::Tracker,
        }
    }

    /// The tab to the right, or this tab if there is none.
    pub fn next(self) -> (tab: Self)
        ensures
            tab == next_tab(self),
    {
        match self {
            SelectedTab::Info => SelectedTab::Tracker,
            SelectedTab::Tracker => SelectedTab::Files,
            SelectedTab::Files => SelectedTab::Files,
        }
    }

    /// The place of the tab among the tabs, from the left.
    pub fn index(self) -> (place: usize)
        ensures
            place == match self {
                SelectedTab::Info => 0usize,
                SelectedTab::Tracker => 1usize,
                SelectedTab::Files => 2usize,
            },
    {
        match self {
            SelectedTab::Info => 0,
            SelectedTab::Tracker => 1,
            SelectedTab::Files => 2,
        }
    }

    /// The title of the tab: its name between two blanks on either side.
    pub fn title(self) -> (title: String)
        ensures
            title@ == "  "@ + tab_name(self) + "  "@,
    {
        let mut title = "  ".to_owned();
        match self {
            SelectedTab::Info => title.append("Info"),
            SelectedTab::Tracker => title.append("Tracker"),
            SelectedTab::Files => title.append("Files"),
        }
        title.append("  ");
        title
    }
}

/// The detail view of one torrent: its record and the three tabs that show it.
#[derive(Debug)]
pub struct Properties {
    pub data: Torrent,
    pub selected_tab: SelectedTab,
    pub info_tab: info::InfoTab,
    pub tracker_tab: trackers::Tab,
    pub files_tab: files::Tab,
}

/// What a key means in the detail view.
#[derive(Clone, Copy, Debug, PartialEq, Eq, Structural)]
pub enum PropertiesKey {
    Quit,
    Back,
    NextTab,
    PreviousTab,
    Next,
    Previous,
    Top,
    Bottom,
    ScrollUp,
    ScrollDown,
    Toggle,
    Ignored,
}

/// What a key means in the detail view. The two page keys count only with the control key.
pub open spec fn properties_key(key: KeyEvent) -> PropertiesKey {
    match key.code {
        Key::Char(c) => if c == 'q' {
            PropertiesKey::Quit
        } else if c == 'l' {
            PropertiesKey::NextTab
        } else if c == 'h' {
            PropertiesKey::PreviousTab
        } else if c == 'j' {
            PropertiesKey::Next
        } else if c == 'k' {
            PropertiesKey::Previous
        } else if c == 'g' {
            PropertiesKey::Top
        } else if c == 'G' {
            PropertiesKey::Bottom
        } else if c == 'u' && key.control {
            PropertiesKey::ScrollUp
        } else if c == 'd' && key.control {
            PropertiesKey::ScrollDown
        } else {
            PropertiesKey::Ignored
        },
        Key::Esc => PropertiesKey::Back,
        Key::Backspace => PropertiesKey::Back,
        Key::Right => PropertiesKey::NextTab,
        Key::Left => PropertiesKey::PreviousTab,
        Key::Down => PropertiesKey::Next,
        Key::Up => PropertiesKey::Previous,
        Key::Home => PropertiesKey::Top,
        Key::End => PropertiesKey::Bottom,
        Key::Enter => PropertiesKey::Toggle,
        Key::Other => PropertiesKey::Ignored,
    }
}

/// The move in the tree of files that a key asks for.
pub open spec fn tree_command(meaning: PropertiesKey) -> Option<TreeCommand> {
    match meaning {
        PropertiesKey::Next => Some(TreeCommand::Down),
        PropertiesKey::Previous => Some(TreeCommand::Up),
        PropertiesKey::Top => Some(TreeCommand::Top),
        PropertiesKey::Bottom => Some(TreeCommand::Bottom),
        PropertiesKey::ScrollUp => Some(TreeCommand::ScrollUp(4)),
        PropertiesKey::ScrollDown => Some(TreeCommand::ScrollDown(4)),
        PropertiesKey::Toggle => Some(TreeCommand::Toggle),
        _ => None,
    }
}

/// What the detail view answers to a key.
pub open spec fn key_outcome(view: Properties, key: KeyEvent) -> OutcomeView {
    match properties_key(key) {
        PropertiesKey::Quit => OutcomeView::FollowUp(ActionView::Quit),
        PropertiesKey::Back => OutcomeView::FollowUp(
            ActionView::SwitchMode(Target::List, Some(view.data.id)),
        ),
        meaning => if view.selected_tab == SelectedTab::Files {
            match tree_command(meaning) {
                Some(command) => OutcomeView::Tree(command),
                None => OutcomeView::Nothing,
            }
        } else {
            OutcomeView::Nothing
        },
    }
}

/// The tab that is shown after a key.
pub open spec fn tab_after_key(tab: SelectedTab, key: KeyEvent) -> SelectedTab {
    match properties_key(key) {
        PropertiesKey::NextTab => next_tab(tab),
        PropertiesKey::PreviousTab => previous_tab(tab),
        _ => tab,
    }
}

/// The cursor among the trackers after a key, which moves only while the trackers are
/// shown.
pub open spec fn tracker_cursor_after_key(view: Properties, key: KeyEvent) -> Selection {
    let selected = view.tracker_tab.state.selected;
    let row = match selected {
        Some(row) => row,
        None => 0,
    };
    let rows = view.tracker_tab.data.trackers@.len() as int;
    if view.selected_tab == SelectedTab::Tracker {
        match properties_key(key) {
            PropertiesKey::Next => Selection { selected: Some(next_row(selected, rows)) },
            PropertiesKey::Previous => Selection { selected: Some(previous_row(selected, rows)) },
            PropertiesKey::Top => Selection { selected: Some(0usize) },
            PropertiesKey::Bottom => Selection { selected: Some(usize::MAX) },
            PropertiesKey::ScrollUp => Selection { selected: Some(floored_difference(row, 4)) },
            PropertiesKey::ScrollDown => Selection { selected: Some(capped_sum(row, 4)) },
            _ => view.tracker_tab.state,
        }
    } else {
        view.tracker_tab.state
    }
}

/// The scroll bar beside the trackers after a key, which follows the cursor.
pub open spec fn tracker_scroll_after_key(view: Properties, key: KeyEvent) -> Scroll {
    let bar = view.tracker_tab.scroll_state;
    let row = tracker_cursor_after_key(view, key).selected;
    if view.selected_tab == SelectedTab::Tracker {
        match properties_key(key) {
            PropertiesKey::Next => Scroll { position: scroll_of(row.unwrap()), ..bar },
            PropertiesKey::Previous => Scroll { position: scroll_of(row.unwrap()), ..bar },
            PropertiesKey::Top => Scroll { position: 0, ..bar },
            PropertiesKey::Bottom => Scroll {
                position: floored_difference(bar.content_length, 1),
                ..bar
            },
            PropertiesKey::ScrollUp => Scroll {
                position: trackers::capped_product(row.unwrap(), 4),
                ..bar
            },
            PropertiesKey::ScrollDown => Scroll {
                position: trackers::capped_product(row.unwrap(), 4),
                ..bar
            },
            _ => bar,
        }
    } else {
        bar
    }
}

impl Properties {
    /// Opens the detail view on the first of the given torrents. Without a torrent there
    /// is no view.
    pub fn new(items: &Vec<Torrent>) -> (view: Result<Self, AppError>)
        ensures
            items.len() == 0 ==> (view matches Err(error) && error@
                == AppErrorView::IndexOutOfRange),
            items.len() > 0 ==> (view matches Ok(view) && {
                &&& view.data@ == items[0]@
                &&& view.selected_tab == SelectedTab::Info
                &&& view.info_tab.data@ == items[0]@
                &&& view.tracker_tab.data@ == items[0]@
                &&& view.tracker_tab.state.selected == Some(0usize)
                &&& view.tracker_tab.scroll_state == (Scroll {
                    content_length: scroll_of(items[0]@.trackers.len() as usize),
                    position: 0,
                })
                &&& view.files_tab.data@ == items[0]@
            }),
    {
        if items.len() == 0 {
            return Err(AppError::IndexOutOfRange);
        }
        let data = items[0].clone();
        Ok(
            Properties {
                info_tab: info::InfoTab::new(&data),
                tracker_tab: trackers::Tab::new(&data),
                files_tab: files::Tab::new(&data),
                data,
                selected_tab: SelectedTab::Info,
            },
        )
    }

    /// Shows the tab to the right.
    pub fn next_tab(&mut self)
        ensures
            *final(self) == (Properties {
                selected_tab: next_tab(old(self).selected_tab),
                ..*old(self)
            }),
    {
        self.selected_tab = self.selected_tab.next();
    }

    /// Shows the tab to the left.
    pub fn previous_tab(&mut self)
        ensures
            *final(self) == (Properties {
                selected_tab: previous_tab(old(self).selected_tab),
                ..*old(self)
            }),
    {
        self.selected_tab = self.selected_tab.previous();
    }

    /// What a key means in the detail view.
    pub fn key_meaning(key: KeyEvent) -> (meaning: PropertiesKey)
        ensures
            meaning == properties_key(key),
    {
        match key.code {
            Key::Char(c) => {
                if c == 'q' {
                    PropertiesKey::Quit
                } else if c == 'l' {
                    PropertiesKey::NextTab
                } else if c == 'h' {
                    PropertiesKey::PreviousTab
                } else if c == 'j' {
                    PropertiesKey::Next
                } else if c == 'k' {
                    PropertiesKey::Previous
                } else if c == 'g' {
                    PropertiesKey::Top
                } else if c == 'G' {
                    PropertiesKey::Bottom
                } else if c == 'u' && key.control {
                    PropertiesKey::ScrollUp
                } else if c == 'd' && key.control {
                    PropertiesKey::ScrollDown
                } else {
                    PropertiesKey::Ignored
                }
            },
            Key::Esc => PropertiesKey::Back,
            Key::Backspace => PropertiesKey::Back,
            Key::Right => PropertiesKey::NextTab,
            Key::Left => PropertiesKey::PreviousTab,
            Key::Down => PropertiesKey::Next,
            Key::Up => PropertiesKey::Previous,
            Key::Home => PropertiesKey::Top,
            Key::End => PropertiesKey::Bottom,
            Key::Enter => PropertiesKey::Toggle,
            Key::Other => PropertiesKey::Ignored,
        }
    }

    /// Moves the cursor of the tab that is shown: among the trackers here, and in the tree
    /// of files by the answer.
    fn move_cursor(&mut self, meaning: PropertiesKey) -> (outcome: Outcome)
        requires
            tree_command(meaning) is Some,
        ensures
            final(self).data == old(self).data,
            final(self).selected_tab == old(self).selected_tab,
            final(self).info_tab == old(self).info_tab,
            final(self).files_tab == old(self).files_tab,
            final(self).tracker_tab.data == old(self).tracker_tab.data,
            outcome@ == if old(self).selected_tab == SelectedTab::Files {
                OutcomeView::Tree(tree_command(meaning).unwrap())
            } else {
                OutcomeView::Nothing
            },
            forall|key: KeyEvent|
                properties_key(key) == meaning ==> final(self).tracker_tab.state
                    == #[trigger] tracker_cursor_after_key(*old(self), key)
                    && final(self).tracker_tab.scroll_state == tracker_scroll_after_key(
                    *old(self),
                    key,
                ),
    {
        match self.selected_tab {
            SelectedTab::Info => Outcome::Nothing,
            SelectedTab::Tracker => {
                match meaning {
                    PropertiesKey::Next => self.tracker_tab.next(),
                    PropertiesKey::Previous => self.tracker_tab.previous(),
                    PropertiesKey::Top => self.tracker_tab.top(),
                    PropertiesKey::Bottom => self.tracker_tab.bottom(),
                    PropertiesKey::ScrollUp => self.tracker_tab.scroll_up(SCROLL_SIZE),
                    PropertiesKey::ScrollDown => self.tracker_tab.scroll_down(SCROLL_SIZE),
                    _ => {},
                }
                Outcome::Nothing
            },
            SelectedTab::Files => {
                let command = match meaning {
                    PropertiesKey::Next => TreeCommand::Down,
                    PropertiesKey::Previous => TreeCommand::Up,
                    PropertiesKey::Top => TreeCommand::Top,
                    PropertiesKey::Bottom => TreeCommand::Bottom,
                    PropertiesKey::ScrollUp => TreeCommand::ScrollUp(SCROLL_SIZE),
                    PropertiesKey::ScrollDown => TreeCommand::ScrollDown(SCROLL_SIZE),
                    _ => TreeCommand::Toggle,
                };
                Outcome::Tree(command)
            },
        }
    }

    /// Handles a key press: changes the tab or moves a cursor, or answers with what is to
    /// be done.
    pub fn handle_key_event(&mut self, key: KeyEvent) -> (outcome: Outcome)
        ensures
            outcome@ == key_outcome(*old(self), key),
            final(self).data == old(self).data,
            final(self).info_tab == old(self).info_tab,
            final(self).files_tab == old(self).files_tab,
            final(self).tracker_tab.data == old(self).tracker_tab.data,
            final(self).selected_tab == tab_after_key(old(self).selected_tab, key),
            final(self).tracker_tab.state == tracker_cursor_after_key(*old(self), key),
            final(self).tracker_tab.scroll_state == tracker_scroll_after_key(*old(self), key),
    {
        let meaning = Self::key_meaning(key);
        match meaning {
            PropertiesKey::Quit => Outcome::FollowUp(Action::Quit),
            PropertiesKey::Back => Outcome::FollowUp(
                Action::SwitchMode(Target::List, Some(self.data.id)),
            ),
            PropertiesKey::NextTab => {
                self.next_tab();
                Outcome::Nothing
            },
            PropertiesKey::PreviousTab => {
                self.previous_tab();
                Outcome::Nothing
            },
            PropertiesKey::Ignored => Outcome::Nothing,
            _ => self.move_cursor(meaning),
        }
    }

    /// What the row of tabs shows: the titles of the tabs, and the place of the tab that is
    /// shown.
    pub fn render_tabs(&self) -> (tabs: (Vec<String>, usize))
        ensures
            crate::text::texts(tabs.0@) == seq![
                "  "@ + tab_name(SelectedTab::Info) + "  "@,
                "  "@ + tab_name(SelectedTab::Tracker) + "  "@,
                "  "@ + tab_name(SelectedTab::Files) + "  "@,
            ],
            tabs.1 == match self.selected_tab {
                SelectedTab::Info => 0usize,
                SelectedTab::Tracker => 1usize,
                SelectedTab::Files => 2usize,
            },
    {
        let mut titles: Vec<String> = Vec::new();
        titles.push(SelectedTab::Info.title());
        titles.push(SelectedTab::Tracker.title());
        titles.push(SelectedTab::Files.title());
        assert(crate::text::texts(titles@) =~= seq![
            "  "@ + tab_name(SelectedTab::Info) + "  "@,
            "  "@ + tab_name(SelectedTab::Tracker) + "  "@,
            "  "@ + tab_name(SelectedTab::Files) + "  "@,
        ]);
        (titles, self.selected_tab.index())
    }

    /// Brings the cursor among the trackers before they are drawn, which they are while
    /// their tab is shown.
    pub fn settle(&mut self)
        ensures
            final(self).data == old(self).data,
            final(self).selected_tab == old(self).selected_tab,
            final(self).info_tab == old(self).info_tab,
            final(self).files_tab == old(self).files_tab,
            final(self).tracker_tab.data == old(self).tracker_tab.data,
            final(self).tracker_tab.scroll_state == old(self).tracker_tab.scroll_state,
            final(self).tracker_tab.state.selected == if old(self).selected_tab
                == SelectedTab::Tracker {
                settled(
                    old(self).tracker_tab.state.selected,
                    old(self).tracker_tab.data.trackers@.len() as int,
                )
            } else {
                old(self).tracker_tab.state.selected
            },
    {
        match self.selected_tab {
            SelectedTab::Tracker => self.tracker_tab.settle(),
            _ => {},
        }
    }

    /// Reacts to an action: a tick asks the server for the torrent that is shown, nothing
    /// else matters.
    pub fn update(&self, action: &Action) -> (outcome: Outcome)
        ensures
            outcome@ == if action is Tick {
                OutcomeView::Call(RequestView::GetItems(Some(self.data.id)))
            } else {
                OutcomeView::Nothing
            },
    {
        match action {
            Action::Tick => Outcome::Call(Request::GetItems(Some(self.data.id))),
            _ => Outcome::Nothing,
        }
    }

    /// Takes the first of the torrents that the server reported in place of the one shown
    /// so far, in every tab. The tab that is shown and the cursors stay. Without a torrent
    /// nothing changes.
    pub fn receive(&mut self, items: &Vec<Torrent>) -> (taken: Result<(), AppError>)
        ensures
            items.len() == 0 ==> (taken matches Err(error) && error@
                == AppErrorView::IndexOutOfRange) && *final(self) == *old(self),
            items.len() > 0 ==> {
                &&& taken is Ok
                &&& final(self).data@ == items[0]@
                &&& final(self).info_tab.data@ == items[0]@
                &&& final(self).tracker_tab.data@ == items[0]@
                &&& final(self).files_tab.data@ == items[0]@
                &&& final(self).selected_tab == old(self).selected_tab
                &&& final(self).tracker_tab.state == old(self).tracker_tab.state
                &&& final(self).tracker_tab.scroll_state == old(self).tracker_tab.scroll_state
            },
    {
        if items.len() == 0 {
            return Err(AppError::IndexOutOfRange);
        }
        let data = items[0].clone();
        self.info_tab = info::InfoTab::new(&data);
        self.tracker_tab.receive(&data);
        self.files_tab.receive(&data);
        self.data = data;
        Ok(())
    }
}

} // verus!
