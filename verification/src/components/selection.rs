//! The cursor of a list and the position of its scroll bar.

use vstd::prelude::*;

verus! {

/// Lines that one row of a list takes on the screen.
pub const ITEM_HEIGHT: usize = 4;

/// The row below the selected one, the first row below the last: the first row also if
/// none is selected.
pub open spec fn next_row(selected: Option<usize>, rows: int) -> usize {
    match selected {
        Some(row) => if row + 1 >= rows {
            0
        } else {
            (row + 1) as usize
        },
        None => 0,
    }
}

/// The row above the selected one, the last row above the first: the first row if none
/// is selected.
pub open spec fn previous_row(selected: Option<usize>, rows: int) -> usize {
    match selected {
        Some(row) => if row == 0 {
            if rows <= 0 {
                0
            } else {
                (rows - 1) as usize
            }
        } else {
            (row - 1) as usize
        },
        None => 0,
    }
}

/// Where the scroll bar stands for a row: a row takes four lines.
pub open spec fn scroll_of(row: usize) -> usize {
    if row * 4 > usize::MAX {
        usize::MAX
    } else {
        (row * 4) as usize
    }
}

/// Where the scroll bar stands for a row.
pub fn scroll_position_of(row: usize) -> (position: usize)
    ensures
        position == scroll_of(row),
{
    match row.checked_mul(ITEM_HEIGHT) {
        Some(position) => position,
        None => usize::MAX,
    }
}

/// The selection as it stands once a list of `rows` rows has been drawn: there is none
/// in an empty list, and one past the end has moved to the last row.
pub open spec fn settled(selected: Option<usize>, rows: int) -> Option<usize> {
    match selected {
        Some(row) => if rows <= 0 {
            None
        } else if row >= rows {
            Some((rows - 1) as usize)
        } else {
            Some(row)
        },
        None => None,
    }
}

/// `a + b`, or the largest number if the sum is larger.
pub open spec fn capped_sum(a: usize, b: int) -> usize {
    if a + b > usize::MAX {
        usize::MAX
    } else {
        (a + b) as usize
    }
}

/// `a - b`, or zero if `b` is larger.
pub open spec fn floored_difference(a: usize, b: int) -> usize {
    if a < b {
        0
    } else {
        (a - b) as usize
    }
}

/// The row that is selected in a list, if any. The row may lie past the end of the list
/// until the list is drawn.
#[derive(Clone, Copy, Debug, PartialEq, Eq, Structural)]
pub struct Selection {
    pub selected: Option<usize>,
}

impl Selection {
    /// No row selected.
    pub fn new() -> (selection: Self)
        ensures
            selection.selected is None,
    {
        Selection { selected: None }
    }

    /// The given row selected.
    pub fn with_selected(selected: Option<usize>) -> (selection: Self)
        ensures
            selection.selected == selected,
    {
        Selection { selected }
    }

    /// The selected row.
    pub fn selected(&self) -> (selected: Option<usize>)
        ensures
            selected == self.selected,
    {
        self.selected
    }

    /// Selects a row, or none.
    pub fn select(&mut self, index: Option<usize>)
        ensures
            final(self).selected == index,
    {
        self.selected = index;
    }

    /// Selects the first row.
    pub fn select_first(&mut self)
        ensures
            final(self).selected == Some(0usize),
    {
        self.selected = Some(0);
    }

    /// Selects the last row: a row past every end, which settles on the last row when the
    /// list is drawn.
    pub fn select_last(&mut self)
        ensures
            final(self).selected == Some(usize::MAX),
    {
        self.selected = Some(usize::MAX);
    }

    /// Moves the selection down by some rows, starting from the first row if none is
    /// selected.
    pub fn scroll_down_by(&mut self, amount: u16)
        ensures
            final(self).selected == Some(
                capped_sum(
                    match old(self).selected {
                        Some(row) => row,
                        None => 0,
                    },
                    amount as int,
                ),
            ),
    {
        let row: usize = match self.selected {
            Some(row) => row,
            None => 0,
        };
        self.selected = Some(row.saturating_add(amount as usize));
    }

    /// Moves the selection up by some rows, not past the first.
    pub fn scroll_up_by(&mut self, amount: u16)
        ensures
            final(self).selected == Some(
                floored_difference(
                    match old(self).selected {
                        Some(row) => row,
                        None => 0,
                    },
                    amount as int,
                ),
            ),
    {
        let row: usize = match self.selected {
            Some(row) => row,
            None => 0,
        };
        self.selected = Some(row.saturating_sub(amount as usize));
    }

    /// Brings the selection into a list of `rows` rows, as drawing the list does.
    pub fn settle(&mut self, rows: usize)
        ensures
            final(self).selected == settled(old(self).selected, rows as int),
    {
        match self.selected {
            Some(row) => {
                if rows == 0 {
                    self.selected = None;
                } else if row >= rows {
                    self.selected = Some(rows - 1);
                }
            },
            None => {},
        }
    }
}

/// The scroll bar of a list: how long what it scrolls is, and where in it the bar stands.
#[derive(Clone, Copy, Debug, PartialEq, Eq, Structural)]
pub struct Scroll {
    pub content_length: usize,
    pub position: usize,
}

impl Scroll {
    /// A bar at the start of content of the given length.
    pub fn new(content_length: usize) -> (scroll: Self)
        ensures
            scroll == (Scroll { content_length, position: 0 }),
    {
        Scroll { content_length, position: 0 }
    }

    /// Moves the bar to a position.
    pub fn set_position(&mut self, position: usize)
        ensures
            *final(self) == (Scroll { position, ..*old(self) }),
    {
        self.position = position;
    }

    /// Moves the bar to the start.
    pub fn first(&mut self)
        ensures
            *final(self) == (Scroll { position: 0, ..*old(self) }),
    {
        self.position = 0;
    }

    /// Moves the bar to the end.
    pub fn last(&mut self)
        ensures
            *final(self) == (Scroll {
                position: floored_difference(old(self).content_length, 1),
                ..*old(self)
            }),
    {
        self.position = self.content_length.saturating_sub(1);
    }
}

} // verus!
