//! The list of all torrents.

use vstd::prelude::*;
use vstd::string::*;
use crate::action::{Action, ActionView, Key, KeyEvent, Target};
use crate::components::selection::{
    floored_difference, next_row, previous_row, scroll_of, scroll_position_of, settled, Scroll,
    Selection,
};
use crate::components::{Outcome, OutcomeView};
use crate::data::{cell_text, torrents_view, Torrent, TorrentView};
use crate::error::{error_text, AppError, AppErrorView};
use crate::rpc::{Request, RequestView, TorrentAction};
use crate::text::{lines, lines_of, texts, texts_of_rows};
use crate::width::{display_width, store_width, stored_width, width_of};

verus! {

/// The list of all torrents with its cursor.
#[derive(Debug)]
pub struct Home {
    /// The torrents as the server last reported them, sorted by name.
    pub items: Vec<Torrent>,
    /// The selected row.
    pub state: Selection,
    /// The scroll bar beside the list.
    pub scroll_state: Scroll,
    /// Widths of the six columns: name, done, remaining time, download, upload, ratio.
    pub longest_item_lens: (u16, u16, u16, u16, u16, u16),
}

/// What a key means in the list.
#[derive(Clone, Copy, Debug, PartialEq, Eq, Structural)]
pub enum HomeKey {
    Quit,
    Open,
    Next,
    Previous,
    Top,
    Bottom,
    Toggle,
    StartAll,
    StopAll,
    Ignored,
}

/// What a key means in the list.
pub open spec fn home_key(key: KeyEvent) -> HomeKey {
    match key.code {
        Key::Char(c) => if c == 'q' {
            HomeKey::Quit
        } else if c == 'l' {
            HomeKey::Open
        } else if c == 'j' {
            HomeKey::Next
        } else if c == 'k' {
            HomeKey::Previous
        } else if c == 'g' {
            HomeKey::Top
        } else if c == 'G' {
            HomeKey::Bottom
        } else if c == 'p' {
            HomeKey::Toggle
        } else if c == 's' {
            HomeKey::StartAll
        } else if c == 'S' {
            HomeKey::StopAll
        } else {
            HomeKey::Ignored
        },
        Key::Enter => HomeKey::Open,
        Key::Down => HomeKey::Next,
        Key::Up => HomeKey::Previous,
        _ => HomeKey::Ignored,
    }
}

/// Index of the first record with the given number, or the number of records if none
/// has it.
pub open spec fn first_row_of(items: Seq<TorrentView>, id: i64) -> int
    decreases items.len(),
{
    if items.len() == 0 {
        0
    } else {
        let before = first_row_of(items.drop_last(), id);
        if before < items.len() - 1 {
            before
        } else if items.last().id == id {
            items.len() - 1
        } else {
            items.len() as int
        }
    }
}

/// What `first_row_of` finds is a row with that number, and the first one.
pub proof fn lemma_first_row_of(items: Seq<TorrentView>, id: i64)
    ensures
        0 <= first_row_of(items, id) <= items.len(),
        first_row_of(items, id) < items.len() ==> items[first_row_of(items, id)].id == id,
        forall|k: int| 0 <= k < first_row_of(items, id) ==> (#[trigger] items[k]).id != id,
    decreases items.len(),
{
    if items.len() > 0 {
        lemma_first_row_of(items.drop_last(), id);
        assert(forall|k: int| 0 <= k < items.len() - 1 ==> items.drop_last()[k] == items[k]);
    }
}

/// The row that is selected when the list is opened: that of the torrent to focus on if
/// it is in the list, else the first row; no row in an empty list.
pub open spec fn initial_selection(items: Seq<TorrentView>, id: Option<i64>) -> Option<usize> {
    if items.len() == 0 {
        None
    } else {
        match id {
            Some(id) => if first_row_of(items, id) < items.len() {
                Some(first_row_of(items, id) as usize)
            } else {
                Some(0usize)
            },
            None => Some(0usize),
        }
    }
}

/// When the list is opened with a torrent to focus on, the cursor stands on the first row of
/// that torrent if the list has one, and else on the first row; only an empty list has no
/// cursor.
pub proof fn focus_is_reselected(items: Seq<TorrentView>, id: i64)
    requires
        items.len() <= usize::MAX,
    ensures
        items.len() == 0 <==> initial_selection(items, Some(id)) is None,
        initial_selection(items, Some(id)) matches Some(row) ==> {
            &&& row < items.len()
            &&& (exists|k: int| 0 <= k < items.len() && (#[trigger] items[k]).id == id)
                ==> items[row as int].id == id && forall|k: int|
                0 <= k < row ==> (#[trigger] items[k]).id != id
            &&& !(exists|k: int| 0 <= k < items.len() && (#[trigger] items[k]).id == id) ==> row
                == 0
        },
{
    lemma_first_row_of(items, id);
}

/// The number of the selected torrent, or why there is none.
pub open spec fn selected_id(items: Seq<TorrentView>, selected: Option<usize>) -> Result<
    i64,
    AppErrorView,
> {
    match selected {
        None => Err(AppErrorView::NoSelection),
        Some(row) => if row < items.len() {
            Ok(items[row as int].id)
        } else {
            Err(AppErrorView::IndexOutOfRange)
        },
    }
}

/// The numbers of all torrents, in the order of the list.
pub open spec fn ids_of(items: Seq<TorrentView>) -> Seq<i64> {
    Seq::new(items.len(), |i: int| items[i].id)
}

/// The request that starts the selected torrent if it is stalled and stops it if not, or
/// why there is none.
pub open spec fn toggle_request(items: Seq<TorrentView>, selected: Option<usize>) -> Result<
    RequestView,
    AppErrorView,
> {
    match selected_id(items, selected) {
        Ok(id) => Ok(
            RequestView::SetAction(
                if items[selected.unwrap() as int].is_stalled {
                    TorrentAction::Start
                } else {
                    TorrentAction::Stop
                },
                seq![id],
            ),
        ),
        Err(error) => Err(error),
    }
}

/// What the list answers to a key.
pub open spec fn key_outcome(home: Home, key: KeyEvent) -> OutcomeView {
    let items = torrents_view(home.items@);
    match home_key(key) {
        HomeKey::Quit => OutcomeView::FollowUp(ActionView::Quit),
        HomeKey::Open => match selected_id(items, home.state.selected) {
            Ok(id) => OutcomeView::FollowUp(ActionView::SwitchMode(Target::Detail, Some(id))),
            Err(error) => OutcomeView::FollowUp(ActionView::Error(error_text(error))),
        },
        HomeKey::Toggle => match toggle_request(items, home.state.selected) {
            Ok(request) => OutcomeView::Call(request),
            Err(error) => OutcomeView::FollowUp(ActionView::Error(error_text(error))),
        },
        HomeKey::StartAll => OutcomeView::Call(
            RequestView::SetAction(TorrentAction::Start, ids_of(items)),
        ),
        HomeKey::StopAll => OutcomeView::Call(
            RequestView::SetAction(TorrentAction::Stop, ids_of(items)),
        ),
        _ => OutcomeView::Nothing,
    }
}

/// The cursor and the scroll bar after a key.
pub open spec fn cursor_after_key(home: Home, key: KeyEvent) -> (Selection, Scroll) {
    let rows = home.items@.len() as int;
    match home_key(key) {
        HomeKey::Next => (
            Selection { selected: Some(next_row(home.state.selected, rows)) },
            Scroll {
                position: scroll_of(next_row(home.state.selected, rows)),
                ..home.scroll_state
            },
        ),
        HomeKey::Previous => (
            Selection { selected: Some(previous_row(home.state.selected, rows)) },
            Scroll {
                position: scroll_of(previous_row(home.state.selected, rows)),
                ..home.scroll_state
            },
        ),
        HomeKey::Top => (
            Selection { selected: Some(0usize) },
            Scroll { position: 0, ..home.scroll_state },
        ),
        HomeKey::Bottom => (
            Selection { selected: Some(usize::MAX) },
            Scroll {
                position: floored_difference(home.scroll_state.content_length, 1),
                ..home.scroll_state
            },
        ),
        _ => (home.state, home.scroll_state),
    }
}

/// The texts of the cells of the list, row by row.
pub open spec fn table_text(items: Seq<TorrentView>) -> Seq<Seq<Seq<char>>> {
    Seq::new(
        items.len(),
        |i: int|
            seq![
                cell_text(items[i].formatted_name),
                cell_text(items[i].percent_done),
                cell_text(items[i].eta),
                cell_text(items[i].download_speed),
                cell_text(items[i].upload_speed),
                cell_text(items[i].ratio),
            ],
    )
}

/// The widths of the texts of one row of the list, in columns of the terminal.
#[derive(Debug)]
pub struct RowWidths {
    /// The width of the two lines that name the torrent, taken as one text.
    pub name: usize,
    /// The width of each line of the text that says how much is done.
    pub done: Vec<usize>,
    pub eta: usize,
    pub download: usize,
    pub upload: usize,
    pub ratio: usize,
}

/// What a [`RowWidths`] holds.
pub struct RowWidthsView {
    pub name: usize,
    pub done: Seq<usize>,
    pub eta: usize,
    pub download: usize,
    pub upload: usize,
    pub ratio: usize,
}

impl View for RowWidths {
    type V = RowWidthsView;

    open spec fn view(&self) -> RowWidthsView {
        RowWidthsView {
            name: self.name,
            done: self.done@,
            eta: self.eta,
            download: self.download,
            upload: self.upload,
            ratio: self.ratio,
        }
    }
}

/// The views of a sequence of measured rows.
pub open spec fn rows_view(rows: Seq<RowWidths>) -> Seq<RowWidthsView> {
    rows.map_values(|r: RowWidths| r@)
}

/// The widths of the texts of a torrent's row.
pub open spec fn measured(item: TorrentView) -> RowWidthsView {
    RowWidthsView {
        name: display_width(item.formatted_name) as usize,
        done: lines_of(item.percent_done).map_values(
            |line: Seq<char>| display_width(line) as usize,
        ),
        eta: display_width(item.eta) as usize,
        download: display_width(item.download_speed) as usize,
        upload: display_width(item.upload_speed) as usize,
        ratio: display_width(item.ratio) as usize,
    }
}

/// The largest of some numbers, zero if there is none.
pub open spec fn largest(numbers: Seq<usize>) -> usize
    decreases numbers.len(),
{
    if numbers.len() == 0 {
        0
    } else {
        let rest = largest(numbers.drop_last());
        if rest >= numbers.last() {
            rest
        } else {
            numbers.last()
        }
    }
}

/// The smallest of some numbers, zero if there is none.
pub open spec fn smallest(numbers: Seq<usize>) -> usize
    decreases numbers.len(),
{
    if numbers.len() == 0 {
        0
    } else if numbers.len() == 1 {
        numbers[0]
    } else {
        let rest = smallest(numbers.drop_last());
        if rest <= numbers.last() {
            rest
        } else {
            numbers.last()
        }
    }
}

/// The largest of the numbers of two lists is the larger of the largest of each.
pub proof fn lemma_largest_of_both(first: Seq<usize>, second: Seq<usize>)
    ensures
        largest(first + second) == if largest(first) >= largest(second) {
            largest(first)
        } else {
            largest(second)
        },
    decreases second.len(),
{
    if second.len() == 0 {
        assert(first + second =~= first);
    } else {
        assert((first + second).drop_last() =~= first + second.drop_last());
        lemma_largest_of_both(first, second.drop_last());
    }
}

/// The widths of the lines that say how much is done, all rows after one another.
pub open spec fn done_widths(rows: Seq<RowWidthsView>) -> Seq<usize>
    decreases rows.len(),
{
    if rows.len() == 0 {
        Seq::empty()
    } else {
        done_widths(rows.drop_last()) + rows.last().done
    }
}

/// The widths of the six columns, given the widths of the texts of each row, each as
/// sixteen bits keep it. The column of names goes by the narrowest of its texts, the
/// others by the widest of theirs, the column that says how much is done by the widest
/// line.
pub open spec fn folded_widths(rows: Seq<RowWidthsView>) -> (u16, u16, u16, u16, u16, u16) {
    (
        stored_width(smallest(rows.map_values(|r: RowWidthsView| r.name)) as nat),
        stored_width(largest(done_widths(rows)) as nat),
        stored_width(largest(rows.map_values(|r: RowWidthsView| r.eta)) as nat),
        stored_width(largest(rows.map_values(|r: RowWidthsView| r.download)) as nat),
        stored_width(largest(rows.map_values(|r: RowWidthsView| r.upload)) as nat),
        stored_width(largest(rows.map_values(|r: RowWidthsView| r.ratio)) as nat),
    )
}

/// The widths of the six columns of the list.
pub open spec fn column_widths(items: Seq<TorrentView>) -> (u16, u16, u16, u16, u16, u16) {
    folded_widths(items.map_values(|item: TorrentView| measured(item)))
}

/// Measures the texts of a torrent's row.
pub fn measure(item: &Torrent) -> (widths: RowWidths)
    ensures
        widths@ == measured(item@),
{
    let parts = lines(item.percent_done.as_str());
    let mut done: Vec<usize> = Vec::new();
    let mut i: usize = 0;
    while i < parts.len()
        invariant
            i <= parts.len(),
            done.len() == i,
            forall|k: int| 0 <= k < i ==> done[k] == display_width(parts[k]@),
        decreases parts.len() - i,
    {
        done.push(width_of(parts[i].as_str()));
        i += 1;
    }
    assert(done@ =~= texts(parts@).map_values(|line: Seq<char>| display_width(line) as usize));
    RowWidths {
        name: width_of(item.formatted_name.as_str()),
        done,
        eta: width_of(item.eta.as_str()),
        download: width_of(item.download_speed.as_str()),
        upload: width_of(item.upload_speed.as_str()),
        ratio: width_of(item.ratio.as_str()),
    }
}

fn largest_of(numbers: &Vec<usize>) -> (most: usize)
    ensures
        most == largest(numbers@),
{
    let mut most: usize = 0;
    let mut i: usize = 0;
    assert(numbers@.take(0) =~= Seq::<usize>::empty());
    while i < numbers.len()
        invariant
            i <= numbers.len(),
            most == largest(numbers@.take(i as int)),
        decreases numbers.len() - i,
    {
        assert(numbers@.take(i + 1).drop_last() =~= numbers@.take(i as int));
        if numbers[i] > most {
            most = numbers[i];
        }
        i += 1;
    }
    assert(numbers@.take(i as int) =~= numbers@);
    most
}

/// Works out the widths of the six columns from the widths of the texts of each row.
pub fn fold_widths(rows: &Vec<RowWidths>) -> (widths: (u16, u16, u16, u16, u16, u16))
    ensures
        widths == folded_widths(rows_view(rows@)),
{
    let ghost all = rows_view(rows@);
    let ghost names = |r: RowWidthsView| r.name;
    let ghost etas = |r: RowWidthsView| r.eta;
    let ghost downs = |r: RowWidthsView| r.download;
    let ghost ups = |r: RowWidthsView| r.upload;
    let ghost ratios = |r: RowWidthsView| r.ratio;
    let mut name_len: usize = 0;
    let mut done_len: usize = 0;
    let mut eta_len: usize = 0;
    let mut up_len: usize = 0;
    let mut down_len: usize = 0;
    let mut ratio_len: usize = 0;
    let mut i: usize = 0;
    assert(all.take(0) =~= Seq::<RowWidthsView>::empty());
    assert(all.take(0).map_values(names) =~= Seq::<usize>::empty());
    assert(all.take(0).map_values(etas) =~= Seq::<usize>::empty());
    assert(all.take(0).map_values(downs) =~= Seq::<usize>::empty());
    assert(all.take(0).map_values(ups) =~= Seq::<usize>::empty());
    assert(all.take(0).map_values(ratios) =~= Seq::<usize>::empty());
    while i < rows.len()
        invariant
            i <= rows.len(),
            all == rows_view(rows@),
            names == |r: RowWidthsView| r.name,
            etas == |r: RowWidthsView| r.eta,
            downs == |r: RowWidthsView| r.download,
            ups == |r: RowWidthsView| r.upload,
            ratios == |r: RowWidthsView| r.ratio,
            name_len == smallest(all.take(i as int).map_values(names)),
            done_len == largest(done_widths(all.take(i as int))),
            eta_len == largest(all.take(i as int).map_values(etas)),
            down_len == largest(all.take(i as int).map_values(downs)),
            up_len == largest(all.take(i as int).map_values(ups)),
            ratio_len == largest(all.take(i as int).map_values(ratios)),
        decreases rows.len() - i,
    {
        let row = &rows[i];
        proof {
            let before = all.take(i as int);
            let next = all.take(i + 1);
            assert(next.drop_last() =~= before);
            assert(next.last() == row@);
            assert(next.map_values(names).drop_last() =~= before.map_values(names));
            assert(next.map_values(etas).drop_last() =~= before.map_values(etas));
            assert(next.map_values(downs).drop_last() =~= before.map_values(downs));
            assert(next.map_values(ups).drop_last() =~= before.map_values(ups));
            assert(next.map_values(ratios).drop_last() =~= before.map_values(ratios));
            lemma_largest_of_both(done_widths(before), row@.done);
        }
        if i == 0 || row.name < name_len {
            name_len = row.name;
        }
        let done = largest_of(&row.done);
        if done > done_len {
            done_len = done;
        }
        if row.eta > eta_len {
            eta_len = row.eta;
        }
        if row.download > down_len {
            down_len = row.download;
        }
        if row.upload > up_len {
            up_len = row.upload;
        }
        if row.ratio > ratio_len {
            ratio_len = row.ratio;
        }
        i += 1;
    }
    assert(all.take(i as int) =~= all);
    (
        store_width(name_len),
        store_width(done_len),
        store_width(eta_len),
        store_width(down_len),
        store_width(up_len),
        store_width(ratio_len),
    )
}

/// Measures the columns of the list.
pub fn constraint_len_calculator(items: &[Torrent]) -> (widths: (u16, u16, u16, u16, u16, u16))
    ensures
        widths == column_widths(torrents_view(items@)),
{
    let mut rows: Vec<RowWidths> = Vec::new();
    let mut i: usize = 0;
    while i < items.len()
        invariant
            i <= items.len(),
            rows.len() == i,
            forall|k: int| 0 <= k < i ==> rows[k]@ == measured(items[k]@),
        decreases items.len() - i,
    {
        rows.push(measure(&items[i]));
        i += 1;
    }
    assert(rows_view(rows@) =~= torrents_view(items@).map_values(
        |item: TorrentView| measured(item),
    ));
    fold_widths(&rows)
}

fn find_row(items: &Vec<Torrent>, id: i64) -> (row: usize)
    ensures
        row == first_row_of(torrents_view(items@), id),
        row <= items.len(),
{
    let ghost all = torrents_view(items@);
    let mut i: usize = 0;
    assert(all.take(0) =~= Seq::<TorrentView>::empty());
    while i < items.len()
        invariant
            i <= items.len(),
            all == torrents_view(items@),
            first_row_of(all.take(i as int), id) == i,
        decreases items.len() - i,
    {
        proof {
            let next = all.take(i + 1);
            assert(next.drop_last() =~= all.take(i as int));
            assert(next.last() == items[i as int]@);
        }
        if items[i].id == id {
            proof {
                lemma_first_row_in_prefix(all, id, i + 1);
            }
            return i;
        }
        i += 1;
    }
    assert(all.take(i as int) =~= all);
    i
}

proof fn lemma_first_row_in_prefix(items: Seq<TorrentView>, id: i64, n: int)
    requires
        0 <= n <= items.len(),
        first_row_of(items.take(n), id) < n,
    ensures
        first_row_of(items, id) == first_row_of(items.take(n), id),
    decreases items.len() - n,
{
    if n < items.len() {
        assert(items.take(n + 1).drop_last() =~= items.take(n));
        lemma_first_row_in_prefix(items, id, n + 1);
    } else {
        assert(items.take(n) =~= items);
    }
}

impl Home {
    /// Opens the list on the given torrents, the cursor on the torrent to focus on if it
    /// is among them and else on the first row.
    pub fn new(items: Vec<Torrent>, id: Option<i64>) -> (home: Self)
        ensures
            home.items == items,
            home.state.selected == initial_selection(torrents_view(items@), id),
            home.scroll_state == (Scroll { content_length: scroll_of(items.len()), position: 0 }),
            home.longest_item_lens == column_widths(torrents_view(items@)),
    {
        let index: Option<usize> = if items.len() == 0 {
            None
        } else {
            match id {
                Some(id) => {
                    let row = find_row(&items, id);
                    if row < items.len() {
                        Some(row)
                    } else {
                        Some(0)
                    }
                },
                None => Some(0),
            }
        };
        let widths = constraint_len_calculator(items.as_slice());
        let length = scroll_position_of(items.len());
        Home {
            items,
            state: Selection::with_selected(index),
            scroll_state: Scroll::new(length),
            longest_item_lens: widths,
        }
    }

    /// The number of the selected torrent.
    pub fn selected_id(&self) -> (id: Result<i64, AppError>)
        ensures
            match id {
                Ok(id) => selected_id(torrents_view(self.items@), self.state.selected) == Ok::<
                    i64,
                    AppErrorView,
                >(id),
                Err(error) => selected_id(torrents_view(self.items@), self.state.selected) == Err::<
                    i64,
                    AppErrorView,
                >(error@),
            },
    {
        match self.state.selected() {
            None => Err(AppError::NoSelection),
            Some(row) => {
                if row < self.items.len() {
                    Ok(self.items[row].id)
                } else {
                    Err(AppError::IndexOutOfRange)
                }
            },
        }
    }

    /// The request that starts the selected torrent if it is stalled, and stops it if
    /// it is not.
    pub fn toggle_state(&self) -> (request: Result<Request, AppError>)
        ensures
            match request {
                Ok(request) => toggle_request(torrents_view(self.items@), self.state.selected)
                    == Ok::<RequestView, AppErrorView>(request@),
                Err(error) => toggle_request(torrents_view(self.items@), self.state.selected)
                    == Err::<RequestView, AppErrorView>(error@),
            },
    {
        match self.state.selected() {
            None => Err(AppError::NoSelection),
            Some(row) => {
                if row < self.items.len() {
                    let item = &self.items[row];
                    let kind = if item.is_stalled {
                        TorrentAction::Start
                    } else {
                        TorrentAction::Stop
                    };
                    let mut ids: Vec<i64> = Vec::new();
                    ids.push(item.id);
                    assert(ids@ =~= seq![item.id]);
                    Ok(Request::SetAction(kind, ids))
                } else {
                    Err(AppError::IndexOutOfRange)
                }
            },
        }
    }

    /// The numbers of all torrents of the list.
    pub fn ids(&self) -> (ids: Vec<i64>)
        ensures
            ids@ == ids_of(torrents_view(self.items@)),
    {
        let mut ids: Vec<i64> = Vec::new();
        let mut i: usize = 0;
        while i < self.items.len()
            invariant
                i <= self.items.len(),
                ids.len() == i,
                forall|k: int| 0 <= k < i ==> ids[k] == self.items[k].id,
            decreases self.items.len() - i,
        {
            ids.push(self.items[i].id);
            i += 1;
        }
        assert(ids@ =~= ids_of(torrents_view(self.items@)));
        ids
    }

    /// The request that starts every torrent of the list.
    pub fn start_all(&self) -> (request: Request)
        ensures
            request@ == RequestView::SetAction(
                TorrentAction::Start,
                ids_of(torrents_view(self.items@)),
            ),
    {
        Request::SetAction(TorrentAction::Start, self.ids())
    }

    /// The request that stops every torrent of the list.
    pub fn stop_all(&self) -> (request: Request)
        ensures
            request@ == RequestView::SetAction(
                TorrentAction::Stop,
                ids_of(torrents_view(self.items@)),
            ),
    {
        Request::SetAction(TorrentAction::Stop, self.ids())
    }

    /// Moves the cursor down one row, from the last row to the first.
    pub fn next(&mut self)
        ensures
            final(self).items == old(self).items,
            final(self).longest_item_lens == old(self).longest_item_lens,
            final(self).state.selected == Some(
                next_row(old(self).state.selected, old(self).items@.len() as int),
            ),
            final(self).scroll_state == (Scroll {
                position: scroll_of(
                    next_row(old(self).state.selected, old(self).items@.len() as int),
                ),
                ..old(self).scroll_state
            }),
    {
        let row: usize = match self.state.selected() {
            Some(row) => {
                if row >= self.items.len().saturating_sub(1) {
                    0
                } else {
                    row + 1
                }
            },
            None => 0,
        };
        self.state.select(Some(row));
        self.scroll_state.set_position(scroll_position_of(row));
    }

    /// Moves the cursor up one row, from the first row to the last.
    pub fn previous(&mut self)
        ensures
            final(self).items == old(self).items,
            final(self).longest_item_lens == old(self).longest_item_lens,
            final(self).state.selected == Some(
                previous_row(old(self).state.selected, old(self).items@.len() as int),
            ),
            final(self).scroll_state == (Scroll {
                position: scroll_of(
                    previous_row(old(self).state.selected, old(self).items@.len() as int),
                ),
                ..old(self).scroll_state
            }),
    {
        let row: usize = match self.state.selected() {
            Some(row) => {
                if row == 0 {
                    self.items.len().saturating_sub(1)
                } else {
                    row - 1
                }
            },
            None => 0,
        };
        self.state.select(Some(row));
        self.scroll_state.set_position(scroll_position_of(row));
    }

    /// Moves the cursor to the first row.
    pub fn top(&mut self)
        ensures
            final(self).items == old(self).items,
            final(self).longest_item_lens == old(self).longest_item_lens,
            final(self).state.selected == Some(0usize),
            final(self).scroll_state == (Scroll { position: 0, ..old(self).scroll_state }),
    {
        self.state.select_first();
        self.scroll_state.first();
    }

    /// Moves the cursor to the last row.
    pub fn bottom(&mut self)
        ensures
            final(self).items == old(self).items,
            final(self).longest_item_lens == old(self).longest_item_lens,
            final(self).state.selected == Some(usize::MAX),
            final(self).scroll_state == (Scroll {
                position: floored_difference(old(self).scroll_state.content_length, 1),
                ..old(self).scroll_state
            }),
    {
        self.state.select_last();
        self.scroll_state.last();
    }

    /// What a key means in the list.
    pub fn key_meaning(key: KeyEvent) -> (meaning: HomeKey)
        ensures
            meaning == home_key(key),
    {
        match key.code {
            Key::Char(c) => {
                if c == 'q' {
                    HomeKey::Quit
                } else if c == 'l' {
                    HomeKey::Open
                } else if c == 'j' {
                    HomeKey::Next
                } else if c == 'k' {
                    HomeKey::Previous
                } else if c == 'g' {
                    HomeKey::Top
                } else if c == 'G' {
                    HomeKey::Bottom
                } else if c == 'p' {
                    HomeKey::Toggle
                } else if c == 's' {
                    HomeKey::StartAll
                } else if c == 'S' {
                    HomeKey::StopAll
                } else {
                    HomeKey::Ignored
                }
            },
            Key::Enter => HomeKey::Open,
            Key::Down => HomeKey::Next,
            Key::Up => HomeKey::Previous,
            _ => HomeKey::Ignored,
        }
    }

    /// Handles a key press: moves the cursor, or answers with what is to be done.
    pub fn handle_key_event(&mut self, key: KeyEvent) -> (outcome: Outcome)
        ensures
            outcome@ == key_outcome(*old(self), key),
            final(self).items == old(self).items,
            final(self).longest_item_lens == old(self).longest_item_lens,
            (final(self).state, final(self).scroll_state) == cursor_after_key(*old(self), key),
    {
        match Self::key_meaning(key) {
            HomeKey::Quit => Outcome::FollowUp(Action::Quit),
            HomeKey::Open => match self.selected_id() {
                Ok(id) => Outcome::FollowUp(Action::SwitchMode(Target::Detail, Some(id))),
                Err(error) => Outcome::FollowUp(Action::Error(error.message())),
            },
            HomeKey::Next => {
                self.next();
                Outcome::Nothing
            },
            HomeKey::Previous => {
                self.previous();
                Outcome::Nothing
            },
            HomeKey::Top => {
                self.top();
                Outcome::Nothing
            },
            HomeKey::Bottom => {
                self.bottom();
                Outcome::Nothing
            },
            HomeKey::Toggle => match self.toggle_state() {
                Ok(request) => Outcome::Call(request),
                Err(error) => Outcome::FollowUp(Action::Error(error.message())),
            },
            HomeKey::StartAll => Outcome::Call(self.start_all()),
            HomeKey::StopAll => Outcome::Call(self.stop_all()),
            HomeKey::Ignored => Outcome::Nothing,
        }
    }

    /// What the table shows: the texts of the cells of each row.
    pub fn render_table(&self) -> (rows: Vec<Vec<String>>)
        ensures
            texts_of_rows(rows@) == table_text(torrents_view(self.items@)),
    {
        let mut rows: Vec<Vec<String>> = Vec::new();
        let mut i: usize = 0;
        while i < self.items.len()
            invariant
                i <= self.items.len(),
                rows.len() == i,
                forall|k: int|
                    0 <= k < i ==> texts(rows[k]@) == table_text(torrents_view(self.items@))[k],
            decreases self.items.len() - i,
        {
            rows.push(self.items[i].row());
            i += 1;
        }
        assert(texts_of_rows(rows@) =~= table_text(torrents_view(self.items@)));
        rows
    }

    /// Reacts to an action: a tick asks the server for all torrents, nothing else matters.
    pub fn update(&self, action: &Action) -> (outcome: Outcome)
        ensures
            outcome@ == if action is Tick {
                OutcomeView::Call(RequestView::GetItems(None))
            } else {
                OutcomeView::Nothing
            },
    {
        match action {
            Action::Tick => Outcome::Call(Request::GetItems(None)),
            _ => Outcome::Nothing,
        }
    }

    /// Takes the torrents that the server reported in place of those shown so far. The
    /// cursor stays on its row.
    pub fn receive(&mut self, items: Vec<Torrent>)
        ensures
            final(self).items == items,
            final(self).state == old(self).state,
            final(self).scroll_state == old(self).scroll_state,
            final(self).longest_item_lens == old(self).longest_item_lens,
    {
        self.items = items;
    }

    /// Brings the cursor into the list before the list is drawn: a cursor past the end
    /// moves to the last row, and an empty list has none.
    pub fn settle(&mut self)
        ensures
            final(self).items == old(self).items,
            final(self).state.selected == settled(
                old(self).state.selected,
                old(self).items@.len() as int,
            ),
            final(self).scroll_state == old(self).scroll_state,
            final(self).longest_item_lens == old(self).longest_item_lens,
    {
        self.state.settle(self.items.len());
    }
}

} // verus!
