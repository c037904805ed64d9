//! The history view: one target's check history, row by row.

use vstd::prelude::*;

use crate::domain::MonitoredDomain;
use crate::table::{wrap_next, wrap_previous, TableState};

verus! {

/// The cursor state of the history table.
#[derive(Debug)]
pub struct HistoryTableState {
    pub table_state: TableState,
}

impl Clone for HistoryTableState {
    fn clone(&self) -> (res: Self)
        ensures
            res == *self,
    {
        HistoryTableState { table_state: self.table_state.clone() }
    }
}

impl Default for HistoryTableState {
    fn default() -> (res: Self)
        ensures
            res.table_state.selected is None,
    {
        HistoryTableState { table_state: TableState::new() }
    }
}

/// A screen showing one target's history, with its own row cursor.
#[derive(Debug)]
pub struct HistoryScreen {
    /// The target whose history is shown.
    pub domain: MonitoredDomain,
    pub history_table_state: HistoryTableState,
}

impl HistoryScreen {
    /// Open the history of one target, selecting the most recent entry
    /// where the history is not empty.
    pub fn new(domain: MonitoredDomain, table_state: HistoryTableState) -> (s: HistoryScreen)
        ensures
            s.domain == domain,
            s.history_table_state.table_state.selected == if domain.check_history@.len() > 0 {
                Some((domain.check_history@.len() - 1) as usize)
            } else {
                table_state.table_state.selected
            },
    {
        let mut screen = HistoryScreen { domain, history_table_state: table_state };
        let n = screen.domain.check_history.len();
        if n > 0 {
            screen.history_table_state.table_state.select(Some(n - 1));
        }
        screen
    }

    /// Move down one history row, wrapping from the last row to row 0; a
    /// no-op where the history is empty.
    pub fn next_row(&mut self)
        ensures
            final(self).domain == old(self).domain,
            final(self).history_table_state.table_state.selected == wrap_next(
                old(self).history_table_state.table_state.selected,
                old(self).domain.check_history@.len() as usize,
            ),
    {
        let len = self.domain.check_history.len();
        self.history_table_state.table_state.next_row(len);
    }

    /// Move up one history row, wrapping from row 0 to the last row; a
    /// no-op where the history is empty.
    pub fn previous_row(&mut self)
        ensures
            final(self).domain == old(self).domain,
            final(self).history_table_state.table_state.selected == wrap_previous(
                old(self).history_table_state.table_state.selected,
                old(self).domain.check_history@.len() as usize,
            ),
    {
        let len = self.domain.check_history.len();
        self.history_table_state.table_state.previous_row(len);
    }
}

} // verus!
