//! A plain view of one torrent as the server reports it, with four tabs of which only the
//! first shows the torrent.

use vstd::prelude::*;
use vstd::string::*;
use crate::action::{Action, ActionView, Key, KeyEvent, Target};
use crate::components::{Outcome, OutcomeView};
use crate::rpc::{RawTorrent, RawTorrentView, Request, RequestView};
use crate::text::texts;
use crate::utils::{
    bytes_text, convert_bytes, convert_eta, convert_status, eta_text, status_text,
};

verus! {

/// The number of the torrent that this view shows.
pub const SHOWN_TORRENT: i64 = 1;

/// The tab of the view that is shown.
#[derive(Clone, Copy, Debug, PartialEq, Eq, Structural)]
pub enum SelectedTab {
    Info,
    Peers,
    Tracker,
    Files,
}

/// The tab to the right, the last tab staying where it is.
pub open spec fn next_tab(tab: SelectedTab) -> SelectedTab {
    match tab {
        SelectedTab::Info => SelectedTab::Peers,
        SelectedTab::Peers => SelectedTab::Tracker,
        SelectedTab::Tracker => SelectedTab::Files,
        SelectedTab::Files => SelectedTab::Files,
    }
}

/// The tab to the left, the first tab staying where it is.
pub open spec fn previous_tab(tab: SelectedTab) -> SelectedTab {
    match tab {
        SelectedTab::Info => SelectedTab::Info,
        SelectedTab::Peers => SelectedTab::Info,
        SelectedTab::Tracker => SelectedTab::Peers,
        SelectedTab::Files => SelectedTab::Tracker,
    }
}

/// The name of a tab.
pub open spec fn tab_name(tab: SelectedTab) -> Seq<char> {
    match tab {
        SelectedTab::Info => "Info"@,
        SelectedTab::Peers => "Peers"@,
        SelectedTab::Tracker => "Tracker"@,
        SelectedTab::Files => "Files"@,
    }
}

/// What a tab shows that does not show the torrent yet.
pub open spec fn placeholder_text(tab: SelectedTab) -> Seq<char> {
    match tab {
        SelectedTab::Info => Seq::empty(),
        SelectedTab::Peers => "Peers"@,
        SelectedTab::Tracker => "Trackers"@,
        SelectedTab::Files => "Files"@,
    }
}

impl SelectedTab {
    /// The tab to the left, or this tab if there is none.
    pub fn previous(self) -> (tab: Self)
        ensures
            tab == previous_tab(self),
    {
        match self {
            SelectedTab::Info => SelectedTab::Info,
            SelectedTab::Peers => SelectedTab::Info,
            SelectedTab::Tracker => SelectedTab::Peers,
            SelectedTab::Files => SelectedTab::Tracker,
        }
    }

    /// The tab to the right, or this tab if there is none.
    pub fn next(self) -> (tab: Self)
        ensures
            tab == next_tab(self),
    {
        match self {
            SelectedTab::Info => SelectedTab::Peers,
            SelectedTab::Peers => SelectedTab::Tracker,
            SelectedTab::Tracker => SelectedTab::Files,
            SelectedTab::Files => SelectedTab::Files,
        }
    }

    /// The place of the tab among the tabs, from the left.
    pub fn index(self) -> (place: usize)
        ensures
            place == match self {
                SelectedTab::Info => 0usize,
                SelectedTab::Peers => 1usize,
                SelectedTab::Tracker => 2usize,
                SelectedTab::Files => 3usize,
            },
    {
        match self {
            SelectedTab::Info => 0,
            SelectedTab::Peers => 1,
            SelectedTab::Tracker => 2,
            SelectedTab::Files => 3,
        }
    }

    /// The title of the tab: its name between two blanks on either side.
    pub fn title(self) -> (title: String)
        ensures
            title@ == "  "@ + tab_name(self) + "  "@,
    {
        let mut title = "  ".to_owned();
        match self {
            SelectedTab::Info => title.append("Info"),
            SelectedTab::Peers => title.append("Peers"),
            SelectedTab::Tracker => title.append("Tracker"),
            SelectedTab::Files => title.append("Files"),
        }
        title.append("  ");
        title
    }

    /// What the tab shows in place of the torrent.
    pub fn placeholder(self) -> (text: &'static str)
        ensures
            text@ == placeholder_text(self),
    {
        match self {
            SelectedTab::Info => {
                proof {
                    reveal_strlit("");
                }
                assert(""@ =~= Seq::<char>::empty());
                ""
            },
            SelectedTab::Peers => "Peers",
            SelectedTab::Tracker => "Trackers",
            SelectedTab::Files => "Files",
        }
    }
}

/// The view of one torrent as the server reports it.
#[derive(Debug)]
pub struct TorrentInfo {
    pub torrent: RawTorrent,
    pub selected_tab: SelectedTab,
}

/// Whether the server has reported all that the first tab shows, and the bytes that are
/// there can be counted.
pub open spec fn can_be_shown(raw: RawTorrentView) -> bool {
    &&& raw.size_when_done is Some
    &&& raw.left_until_done is Some
    &&& i64::MIN <= raw.size_when_done.unwrap() - raw.left_until_done.unwrap() <= i64::MAX
    &&& raw.percent_done is Some
    &&& raw.uploaded_ever is Some
    &&& raw.upload_ratio is Some
    &&& raw.eta is Some
    &&& raw.status is Some
    &&& raw.total_size is Some
    &&& raw.download_dir is Some
    &&& raw.hash_string is Some
}

/// The lines of the first tab.
pub open spec fn info_text(raw: RawTorrentView) -> Seq<Seq<char>> {
    let have = bytes_text(raw.size_when_done.unwrap() - raw.left_until_done.unwrap());
    seq![
        "Activity"@,
        "Have: "@ + have + " of "@ + bytes_text(raw.size_when_done.unwrap() as int) + " ("@
            + raw.percent_done.unwrap() + ")"@,
        "Uploaded: "@ + bytes_text(raw.uploaded_ever.unwrap() as int) + " (Ratio: "@
            + raw.upload_ratio.unwrap() + ")"@,
        "Downloaded: "@ + have,
        "Remaining Time: "@ + eta_text(raw.eta.unwrap() as int),
        "State: "@ + status_text(raw.status.unwrap()),
        "Details"@,
        "Size: "@ + bytes_text(raw.total_size.unwrap() as int),
        "Location: "@ + raw.download_dir.unwrap(),
        "Hash: "@ + raw.hash_string.unwrap(),
    ]
}

/// What a key means in this view: `q` quits, escape leads back to the list, and the keys
/// to the left and to the right change the tab.
pub open spec fn key_outcome(key: KeyEvent) -> OutcomeView {
    match key.code {
        Key::Char(c) => if c == 'q' {
            OutcomeView::FollowUp(ActionView::Quit)
        } else {
            OutcomeView::Nothing
        },
        Key::Esc => OutcomeView::FollowUp(ActionView::SwitchMode(Target::List, None)),
        _ => OutcomeView::Nothing,
    }
}

/// The tab that is shown after a key.
pub open spec fn tab_after_key(tab: SelectedTab, key: KeyEvent) -> SelectedTab {
    match key.code {
        Key::Char(c) => if c == 'l' {
            next_tab(tab)
        } else if c == 'h' {
            previous_tab(tab)
        } else {
            tab
        },
        Key::Right => next_tab(tab),
        Key::Left => previous_tab(tab),
        _ => tab,
    }
}

fn labelled(label: &str, value: &str) -> (line: String)
    ensures
        line@ == label@ + value@,
{
    let mut line = label.to_owned();
    line.append(value);
    line
}

impl TorrentInfo {
    /// A view of the given torrent, its first tab shown.
    pub fn new(torrent: RawTorrent) -> (view: Self)
        ensures
            view.torrent == torrent,
            view.selected_tab == SelectedTab::Info,
    {
        TorrentInfo { torrent, selected_tab: SelectedTab::Info }
    }

    /// Shows the tab to the right.
    pub fn next_tab(&mut self)
        ensures
            final(self).torrent == old(self).torrent,
            final(self).selected_tab == next_tab(old(self).selected_tab),
    {
        self.selected_tab = self.selected_tab.next();
    }

    /// Shows the tab to the left.
    pub fn previous_tab(&mut self)
        ensures
            final(self).torrent == old(self).torrent,
            final(self).selected_tab == previous_tab(old(self).selected_tab),
    {
        self.selected_tab = self.selected_tab.previous();
    }

    /// Handles a key press.
    pub fn handle_key_event(&mut self, key: KeyEvent) -> (outcome: Outcome)
        ensures
            outcome@ == key_outcome(key),
            final(self).torrent == old(self).torrent,
            final(self).selected_tab == tab_after_key(old(self).selected_tab, key),
    {
        match key.code {
            Key::Char(c) => {
                if c == 'q' {
                    return Outcome::FollowUp(Action::Quit);
                } else if c == 'l' {
                    self.next_tab();
                } else if c == 'h' {
                    self.previous_tab();
                }
            },
            Key::Esc => {
                return Outcome::FollowUp(Action::SwitchMode(Target::List, None));
            },
            Key::Right => self.next_tab(),
            Key::Left => self.previous_tab(),
            _ => {},
        }
        Outcome::Nothing
    }

    /// Reacts to an action: a tick asks the server for the torrent, nothing else matters.
    pub fn update(&self, action: &Action) -> (outcome: Outcome)
        ensures
            outcome@ == if action is Tick {
                OutcomeView::Call(RequestView::GetItems(Some(SHOWN_TORRENT)))
            } else {
                OutcomeView::Nothing
            },
    {
        match action {
            Action::Tick => Outcome::Call(Request::GetItems(Some(SHOWN_TORRENT))),
            _ => Outcome::Nothing,
        }
    }

    /// Takes the torrent that the server reported in place of the one shown so far.
    pub fn receive(&mut self, torrent: RawTorrent)
        ensures
            final(self).torrent == torrent,
            final(self).selected_tab == old(self).selected_tab,
    {
        self.torrent = torrent;
    }

    /// The lines of the first tab, or nothing where the server has not reported all that
    /// they show.
    pub fn render_info(&self) -> (lines: Option<Vec<String>>)
        ensures
            lines is Some == can_be_shown(self.torrent@),
            lines matches Some(lines) ==> texts(lines@) == info_text(self.torrent@),
    {
        let raw = &self.torrent;
        let size = match raw.size_when_done {
            Some(size) => size,
            None => {
                return None;
            },
        };
        let left = match raw.left_until_done {
            Some(left) => left,
            None => {
                return None;
            },
        };
        let have = match size.checked_sub(left) {
            Some(have) => convert_bytes(have),
            None => {
                return None;
            },
        };
        let percent = match &raw.percent_done {
            Some(percent) => percent,
            None => {
                return None;
            },
        };
        let uploaded = match raw.uploaded_ever {
            Some(bytes) => convert_bytes(bytes),
            None => {
                return None;
            },
        };
        let ratio = match &raw.upload_ratio {
            Some(ratio) => ratio,
            None => {
                return None;
            },
        };
        let eta = match raw.eta {
            Some(eta) => convert_eta(eta),
            None => {
                return None;
            },
        };
        let status = match raw.status {
            Some(status) => convert_status(status),
            None => {
                return None;
            },
        };
        let total = match raw.total_size {
            Some(size) => convert_bytes(size),
            None => {
                return None;
            },
        };
        let location = match &raw.download_dir {
            Some(dir) => dir,
            None => {
                return None;
            },
        };
        let hash = match &raw.hash_string {
            Some(hash) => hash,
            None => {
                return None;
            },
        };
        let mut progress = labelled("Have: ", have.as_str());
        progress.append(" of ");
        progress.append(convert_bytes(size).as_str());
        progress.append(" (");
        progress.append(percent.as_str());
        progress.append(")");
        let mut upload = labelled("Uploaded: ", uploaded.as_str());
        upload.append(" (Ratio: ");
        upload.append(ratio.as_str());
        upload.append(")");
        let mut lines: Vec<String> = Vec::new();
        lines.push("Activity".to_owned());
        lines.push(progress);
        lines.push(upload);
        lines.push(labelled("Downloaded: ", have.as_str()));
        lines.push(labelled("Remaining Time: ", eta.as_str()));
        lines.push(labelled("State: ", status.as_str()));
        lines.push("Details".to_owned());
        lines.push(labelled("Size: ", total.as_str()));
        lines.push(labelled("Location: ", location.as_str()));
        lines.push(labelled("Hash: ", hash.as_str()));
        assert(texts(lines@) =~= info_text(self.torrent@));
        Some(lines)
    }
}

} // verus!
