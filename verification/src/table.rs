//! Row selection for the interactive tables.
//!
//! Selection wraps circularly in both directions: moving down from the
//! last row selects the first, moving up from the first selects the
//! last.  On an empty table both moves are no-ops and nothing is
//! selected.

use vstd::prelude::*;

verus! {

/// The selection after one "next" command on a table of `len` rows:
/// wraps from the last row to row 0, selects row 0 where nothing was
/// selected, and does nothing on an empty table.
pub open spec fn wrap_next(sel: Option<usize>, len: usize) -> Option<usize> {
    if len == 0 {
        sel
    } else {
        match sel {
            None => Some(0usize),
            Some(i) => if i >= len - 1 {
                Some(0usize)
            } else {
                Some((i + 1) as usize)
            },
        }
    }
}

/// The selection after one "previous" command: wraps from row 0 to the
/// last row, selects row 0 where nothing was selected, and does nothing
/// on an empty table.
pub open spec fn wrap_previous(sel: Option<usize>, len: usize) -> Option<usize> {
    if len == 0 {
        sel
    } else {
        match sel {
            None => Some(0usize),
            Some(i) => if i == 0 {
                Some((len - 1) as usize)
            } else {
                Some((i - 1) as usize)
            },
        }
    }
}

/// The cursor state of one table.
#[derive(Debug)]
pub struct TableState {
    /// The selected row, if any.
    pub selected: Option<usize>,
}

impl Clone for TableState {
    fn clone(&self) -> (res: Self)
        ensures
            res == *self,
    {
        TableState { selected: self.selected }
    }
}

impl Default for TableState {
    fn default() -> (res: Self)
        ensures
            res.selected is None,
    {
        TableState { selected: None }
    }
}

impl TableState {
    /// A table state with nothing selected.
    pub fn new() -> (t: TableState)
        ensures
            t.selected is None,
    {
        TableState { selected: None }
    }

    /// The selected row, if any.
    pub fn selected(&self) -> (r: Option<usize>)
        ensures
            r == self.selected,
    {
        self.selected
    }

    /// Replace the selection.
    pub fn select(&mut self, s: Option<usize>)
        ensures
            final(self).selected == s,
    {
        self.selected = s;
    }

    /// Move the selection down one row, wrapping from the last row to
    /// row 0; a no-op on an empty table.
    pub fn next_row(&mut self, len: usize)
        ensures
            final(self).selected == wrap_next(old(self).selected, len),
    {
        if len == 0 {
            return;
        }
        let i = match self.selected {
            None => 0,
            Some(i) => if i >= len - 1 {
                0
            } else {
                i + 1
            },
        };
        self.selected = Some(i);
    }

    /// Move the selection up one row, wrapping from row 0 to the last
    /// row; a no-op on an empty table.
    pub fn previous_row(&mut self, len: usize)
        ensures
            final(self).selected == wrap_previous(old(self).selected, len),
    {
        if len == 0 {
            return;
        }
        let i = match self.selected {
            None => 0,
            Some(i) => if i == 0 {
                len - 1
            } else {
                i - 1
            },
        };
        self.selected = Some(i);
    }
}

} // verus!
