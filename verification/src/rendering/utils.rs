//! Lists and tables with a selected row, moved by the arrow keys.
//!
//! The selection is a row index or nothing. A list may wrap around its ends
//! (`allow_oob`) or stop at them; a table always wraps.
use vstd::prelude::*;

verus! {

/// The row selected after moving down from `selected` in a list of `len`
/// rows: the next row; at the last row, the first one when the list wraps
/// and the same one otherwise; the first row when nothing was selected.
pub open spec fn next_row(selected: Option<usize>, len: nat, wrap: bool) -> int {
    match selected {
        Some(i) => if i >= len - 1 {
            if wrap {
                0
            } else {
                i as int
            }
        } else {
            i + 1
        },
        None => 0,
    }
}

/// The row selected after moving up from `selected` in a list of `len`
/// rows: the previous row; at the first row, the last one when the list
/// wraps and the same one otherwise; the first row when nothing was
/// selected.
pub open spec fn previous_row(selected: Option<usize>, len: nat, wrap: bool) -> int {
    match selected {
        Some(i) => if i < 1 {
            if wrap {
                len - 1
            } else {
                0
            }
        } else {
            i - 1
        },
        None => 0,
    }
}

/// Moving is defined: a selection exists only in a list with rows, except
/// where moving cannot reach past its ends.
pub open spec fn can_move_down(selected: Option<usize>, len: nat) -> bool {
    selected is Some ==> len > 0
}

pub open spec fn can_move_up(selected: Option<usize>, len: nat, wrap: bool) -> bool {
    (selected matches Some(i) && i == 0 && wrap) ==> len > 0
}

/// The selection is a row of the list, or there is none.
pub open spec fn selection_in_bounds(selected: Option<usize>, len: nat) -> bool {
    selected matches Some(i) ==> i < len
}

pub struct StatefulList<T> {
    pub selected: Option<usize>,
    pub items: Vec<T>,
    pub allow_oob: bool,
}

impl<T> StatefulList<T> {
    /// An empty list that stops at its ends, nothing selected.
    pub fn new() -> (r: StatefulList<T>)
        ensures
            r.selected is None,
            r.items@.len() == 0,
            !r.allow_oob,
    {
        StatefulList { selected: None, items: Vec::new(), allow_oob: false }
    }

    /// An empty list that wraps around, nothing selected.
    pub fn new_inverted() -> (r: StatefulList<T>)
        ensures
            r.selected is None,
            r.items@.len() == 0,
            r.allow_oob,
    {
        StatefulList { selected: None, items: Vec::new(), allow_oob: true }
    }

    /// A list of `items` that stops at its ends, the first row selected.
    pub fn with_items(items: Vec<T>) -> (r: StatefulList<T>)
        ensures
            r.selected == Some(0usize),
            r.items@ == items@,
            !r.allow_oob,
    {
        StatefulList { selected: Some(0), items, allow_oob: false }
    }

    /// A list of `items` that wraps around, the first row selected.
    pub fn with_items_oob(items: Vec<T>) -> (r: StatefulList<T>)
        ensures
            r.selected == Some(0usize),
            r.items@ == items@,
            r.allow_oob,
    {
        StatefulList { selected: Some(0), items, allow_oob: true }
    }

    /// A list of `items` that stops at its ends, the last row selected.
    pub fn with_items_inverted(items: Vec<T>) -> (r: StatefulList<T>)
        requires
            items@.len() > 0,
        ensures
            r.selected == Some((items@.len() - 1) as usize),
            r.items@ == items@,
            !r.allow_oob,
    {
        let last = items.len() - 1;
        StatefulList { selected: Some(last), items, allow_oob: false }
    }

    /// A list of `items` that wraps around, the last row selected.
    pub fn with_items_inverted_oob(items: Vec<T>) -> (r: StatefulList<T>)
        requires
            items@.len() > 0,
        ensures
            r.selected == Some((items@.len() - 1) as usize),
            r.items@ == items@,
            r.allow_oob,
    {
        let last = items.len() - 1;
        StatefulList { selected: Some(last), items, allow_oob: true }
    }

    /// Moves the selection down (see `next_row`).
    pub fn next(&mut self)
        requires
            can_move_down(old(self).selected, old(self).items@.len()),
        ensures
            final(self).selected == Some(
                next_row(old(self).selected, old(self).items@.len(), old(self).allow_oob) as usize,
            ),
            final(self).items@ == old(self).items@,
            final(self).allow_oob == old(self).allow_oob,
    {
        let i: usize = match self.selected {
            Some(i) => {
                if i >= self.items.len() - 1 {
                    if self.allow_oob {
                        0
                    } else {
                        i
                    }
                } else {
                    i + 1
                }
            },
            None => 0,
        };
        self.selected = Some(i);
    }

    /// Moves the selection up (see `previous_row`).
    pub fn previous(&mut self)
        requires
            can_move_up(old(self).selected, old(self).items@.len(), old(self).allow_oob),
        ensures
            final(self).selected == Some(
                previous_row(old(self).selected, old(self).items@.len(), old(self).allow_oob)
                    as usize,
            ),
            final(self).items@ == old(self).items@,
            final(self).allow_oob == old(self).allow_oob,
    {
        let i: usize = match self.selected {
            Some(i) => {
                if i < 1 {
                    if self.allow_oob {
                        self.items.len() - 1
                    } else {
                        0
                    }
                } else {
                    i - 1
                }
            },
            None => 0,
        };
        self.selected = Some(i);
    }

    /// Clears the selection.
    pub fn unselect(&mut self)
        ensures
            final(self).selected is None,
            final(self).items@ == old(self).items@,
            final(self).allow_oob == old(self).allow_oob,
    {
        self.selected = None;
    }

    /// The selected row (the first one when nothing is selected), if the
    /// list has it.
    pub fn selected(&self) -> (r: Option<&T>)
        ensures
            ({
                let i = match self.selected {
                    Some(i) => i as int,
                    None => 0,
                };
                if i < self.items@.len() {
                    r == Some(&self.items@[i])
                } else {
                    r is None
                }
            }),
    {
        let i: usize = match self.selected {
            Some(i) => i,
            None => 0,
        };
        if i < self.items.len() {
            Some(&self.items[i])
        } else {
            None
        }
    }
}

pub struct StatefulTable<T> {
    pub selected: Option<usize>,
    pub items: Vec<T>,
}

impl<T> StatefulTable<T> {
    /// An empty table, the first row selected.
    pub fn new() -> (r: StatefulTable<T>)
        ensures
            r.selected == Some(0usize),
            r.items@.len() == 0,
    {
        StatefulTable { selected: Some(0), items: Vec::new() }
    }

    /// A table of `items`, the first row selected.
    pub fn with_items(items: Vec<T>) -> (r: StatefulTable<T>)
        ensures
            r.selected == Some(0usize),
            r.items@ == items@,
    {
        StatefulTable { selected: Some(0), items }
    }

    /// Moves the selection down, from the last row to the first.
    pub fn next(&mut self)
        requires
            can_move_down(old(self).selected, old(self).items@.len()),
        ensures
            final(self).selected == Some(
                next_row(old(self).selected, old(self).items@.len(), true) as usize,
            ),
            final(self).items@ == old(self).items@,
    {
        let i: usize = match self.selected {
            Some(i) => {
                if i >= self.items.len() - 1 {
                    0
                } else {
                    i + 1
                }
            },
            None => 0,
        };
        self.selected = Some(i);
    }

    /// Moves the selection up, from the first row to the last.
    pub fn previous(&mut self)
        requires
            can_move_up(old(self).selected, old(self).items@.len(), true),
        ensures
            final(self).selected == Some(
                previous_row(old(self).selected, old(self).items@.len(), true) as usize,
            ),
            final(self).items@ == old(self).items@,
    {
        let i: usize = match self.selected {
            Some(i) => {
                if i == 0 {
                    self.items.len() - 1
                } else {
                    i - 1
                }
            },
            None => 0,
        };
        self.selected = Some(i);
    }

    /// Clears the selection.
    pub fn unselect(&mut self)
        ensures
            final(self).selected is None,
            final(self).items@ == old(self).items@,
    {
        self.selected = None;
    }
}

/// Moving in a list with rows never leaves it: from a selection inside the
/// list (or none), moving up or down selects a row of the list.
pub proof fn lemma_moves_stay_in_bounds(selected: Option<usize>, len: nat, wrap: bool)
    requires
        len > 0,
        selection_in_bounds(selected, len),
    ensures
        0 <= next_row(selected, len, wrap) < len,
        0 <= previous_row(selected, len, wrap) < len,
{
}

/// In a list that wraps, moving down then up, or up then down, comes back
/// to the row it started from.
pub proof fn lemma_wrapping_moves_undo(i: usize, len: nat)
    requires
        i < len,
        len <= usize::MAX,
    ensures
        previous_row(Some(next_row(Some(i), len, true) as usize), len, true) == i,
        next_row(Some(previous_row(Some(i), len, true) as usize), len, true) == i,
{
}

/// In a list that stops at its ends, moving down from any row but the last
/// and then up comes back; the last row stays where it is when moving down,
/// and the first when moving up.
pub proof fn lemma_bounded_moves(i: usize, len: nat)
    requires
        i < len,
        len <= usize::MAX,
    ensures
        i + 1 < len ==> previous_row(Some(next_row(Some(i), len, false) as usize), len, false)
            == i,
        i + 1 == len ==> next_row(Some(i), len, false) == i,
        i == 0 ==> previous_row(Some(i), len, false) == 0,
{
}

} // verus!
