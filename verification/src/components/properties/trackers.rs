//! The tab with the trackers of a torrent.

use vstd::prelude::*;
use vstd::string::*;
use crate::components::selection::{
    capped_sum, floored_difference, next_row, previous_row, scroll_of, scroll_position_of, settled,
    Scroll, Selection,
};
use crate::data::{Torrent, Tracker, TrackerView};
use crate::text::{texts, texts_of_rows};

verus! {

/// The tab with the trackers of a torrent and its cursor.
#[derive(Debug)]
pub struct Tab {
    pub data: Torrent,
    /// The selected tracker.
    pub state: Selection,
    /// The scroll bar beside the trackers.
    pub scroll_state: Scroll,
}

/// `a * b`, or the largest number if the product is larger.
pub open spec fn capped_product(a: usize, b: usize) -> usize {
    if a * b > usize::MAX {
        usize::MAX
    } else {
        (a * b) as usize
    }
}

/// The lines of one tracker: a backup tracker takes its host and an empty line, any other
/// an empty line, its host, the time of its next announce and an empty line.
pub open spec fn tracker_text(tracker: TrackerView) -> Seq<Seq<char>> {
    if tracker.is_backup {
        seq![tracker.host, Seq::empty()]
    } else {
        seq![Seq::empty(), tracker.host, tracker.next_announce, Seq::empty()]
    }
}

/// The lines of some trackers, tracker by tracker.
pub open spec fn trackers_text(trackers: Seq<TrackerView>) -> Seq<Seq<Seq<char>>> {
    Seq::new(trackers.len(), |i: int| tracker_text(trackers[i]))
}

/// The lines of one tracker.
pub fn tracker_lines(tracker: &Tracker) -> (lines: Vec<String>)
    ensures
        texts(lines@) == tracker_text(tracker@),
{
    let mut lines: Vec<String> = Vec::new();
    if tracker.is_backup {
        lines.push(tracker.host.clone());
        lines.push(String::new());
    } else {
        lines.push(String::new());
        lines.push(tracker.host.clone());
        lines.push(tracker.next_announce.clone());
        lines.push(String::new());
    }
    assert(texts(lines@) =~= tracker_text(tracker@));
    lines
}

fn capped_multiply(a: usize, b: usize) -> (product: usize)
    ensures
        product == capped_product(a, b),
{
    match a.checked_mul(b) {
        Some(product) => product,
        None => usize::MAX,
    }
}

impl Tab {
    /// A tab that shows the trackers of the given torrent, the cursor on the first.
    pub fn new(data: &Torrent) -> (tab: Self)
        ensures
            tab.data@ == data@,
            tab.state.selected == Some(0usize),
            tab.scroll_state == (Scroll {
                content_length: scroll_of(data@.trackers.len() as usize),
                position: 0,
            }),
    {
        Tab {
            data: data.clone(),
            state: Selection::with_selected(Some(0)),
            scroll_state: Scroll::new(scroll_position_of(data.trackers.len())),
        }
    }

    /// Shows another state of the torrent. The cursor stays where it is.
    pub fn receive(&mut self, data: &Torrent)
        ensures
            final(self).data@ == data@,
            final(self).state == old(self).state,
            final(self).scroll_state == old(self).scroll_state,
    {
        self.data = data.clone();
    }

    /// Moves the cursor down one tracker, from the last to the first.
    pub fn next(&mut self)
        ensures
            final(self).data == old(self).data,
            final(self).state.selected == Some(
                next_row(old(self).state.selected, old(self).data.trackers@.len() as int),
            ),
            final(self).scroll_state == (Scroll {
                position: scroll_of(
                    next_row(old(self).state.selected, old(self).data.trackers@.len() as int),
                ),
                ..old(self).scroll_state
            }),
    {
        let row: usize = match self.state.selected() {
            Some(row) => {
                if row >= self.data.trackers.len().saturating_sub(1) {
                    0
                } else {
                    row + 1
                }
            },
            None => 0,
        };
        self.state.select(Some(row));
        self.scroll_state.set_position(scroll_position_of(row));
    }

    /// Moves the cursor up one tracker, from the first to the last.
    pub fn previous(&mut self)
        ensures
            final(self).data == old(self).data,
            final(self).state.selected == Some(
                previous_row(old(self).state.selected, old(self).data.trackers@.len() as int),
            ),
            final(self).scroll_state == (Scroll {
                position: scroll_of(
                    previous_row(old(self).state.selected, old(self).data.trackers@.len() as int),
                ),
                ..old(self).scroll_state
            }),
    {
        let row: usize = match self.state.selected() {
            Some(row) => {
                if row == 0 {
                    self.data.trackers.len().saturating_sub(1)
                } else {
                    row - 1
                }
            },
            None => 0,
        };
        self.state.select(Some(row));
        self.scroll_state.set_position(scroll_position_of(row));
    }

    /// Moves the cursor to the first tracker.
    pub fn top(&mut self)
        ensures
            final(self).data == old(self).data,
            final(self).state.selected == Some(0usize),
            final(self).scroll_state == (Scroll { position: 0, ..old(self).scroll_state }),
    {
        self.state.select_first();
        self.scroll_state.first();
    }

    /// Moves the cursor to the last tracker.
    pub fn bottom(&mut self)
        ensures
            final(self).data == old(self).data,
            final(self).state.selected == Some(usize::MAX),
            final(self).scroll_state == (Scroll {
                position: floored_difference(old(self).scroll_state.content_length, 1),
                ..old(self).scroll_state
            }),
    {
        self.state.select_last();
        self.scroll_state.last();
    }

    /// Moves the cursor up by some trackers, not past the first, and the scroll bar with it.
    pub fn scroll_up(&mut self, amount: usize)
        requires
            amount <= u16::MAX,
        ensures
            final(self).data == old(self).data,
            final(self).state.selected == Some(
                floored_difference(
                    match old(self).state.selected {
                        Some(row) => row,
                        None => 0,
                    },
                    amount as int,
                ),
            ),
            final(self).scroll_state == (Scroll {
                position: capped_product(final(self).state.selected.unwrap(), amount),
                ..old(self).scroll_state
            }),
    {
        self.state.scroll_up_by(amount as u16);
        let row: usize = match self.state.selected() {
            Some(row) => row,
            None => 0,
        };
        self.scroll_state.set_position(capped_multiply(row, amount));
    }

    /// Moves the cursor down by some trackers, and the scroll bar with it.
    pub fn scroll_down(&mut self, amount: usize)
        requires
            amount <= u16::MAX,
        ensures
            final(self).data == old(self).data,
            final(self).state.selected == Some(
                capped_sum(
                    match old(self).state.selected {
                        Some(row) => row,
                        None => 0,
                    },
                    amount as int,
                ),
            ),
            final(self).scroll_state == (Scroll {
                position: capped_product(final(self).state.selected.unwrap(), amount),
                ..old(self).scroll_state
            }),
    {
        self.state.scroll_down_by(amount as u16);
        let row: usize = match self.state.selected() {
            Some(row) => row,
            None => 0,
        };
        self.scroll_state.set_position(capped_multiply(row, amount));
    }

    /// What the tab shows: the lines of each tracker.
    pub fn render(&self) -> (rows: Vec<Vec<String>>)
        ensures
            texts_of_rows(rows@) == trackers_text(self.data@.trackers),
    {
        let mut rows: Vec<Vec<String>> = Vec::new();
        let mut i: usize = 0;
        while i < self.data.trackers.len()
            invariant
                i <= self.data.trackers.len(),
                rows.len() == i,
                forall|k: int|
                    0 <= k < i ==> texts(rows[k]@) == tracker_text(self.data.trackers[k]@),
            decreases self.data.trackers.len() - i,
        {
            rows.push(tracker_lines(&self.data.trackers[i]));
            i += 1;
        }
        assert(texts_of_rows(rows@) =~= trackers_text(self.data@.trackers));
        rows
    }

    /// Brings the cursor among the trackers before they are drawn.
    pub fn settle(&mut self)
        ensures
            final(self).data == old(self).data,
            final(self).state.selected == settled(
                old(self).state.selected,
                old(self).data.trackers@.len() as int,
            ),
            final(self).scroll_state == old(self).scroll_state,
    {
        self.state.settle(self.data.trackers.len());
    }
}

} // verus!
