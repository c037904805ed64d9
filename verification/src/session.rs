//! The session state machine: the target screen and its modes.
//!
//! The screen is in one of three modes: the target table, the Add Target
//! modal, or the history view.  Every key press is dispatched exactly
//! once: a modal consumes editing keys as text (so a `q` typed into a URL
//! is inserted, not treated as quit), table commands navigate and mutate
//! the registry, and unconsumed keys are left for the global handler.

use vstd::prelude::*;
use vstd::string::StringExecFns;

use crate::domain::{fresh_id, MonitoredDomain};
use crate::editor::{is_edit_key, spec_edit};
use crate::history::HistoryTableState;
use crate::keys::KeyInput;
use crate::persist::Persistence;
use crate::popup::Popup;
use crate::registry::Registry;
use crate::table::{wrap_next, wrap_previous, TableState};
use crate::validate::{is_valid_url, spec_default_tlds, valid_url};

verus! {

/// The polling interval given to targets added through the modal.
pub const DEFAULT_INTERVAL_SECONDS: u64 = 60;

/// The modal's title when it opens.
pub open spec fn add_domain_title() -> Seq<char> {
    "Add New Domain"@
}

/// The modal's title after a rejected submission.
pub open spec fn invalid_url_title() -> Seq<char> {
    "Invalid URL! (e.g., http://example.com)"@
}

/// The modal's title after a fresh id collided with an existing one,
/// which indicates a bug rather than a runtime condition.
pub open spec fn duplicate_id_title() -> Seq<char> {
    "Internal error: id already in use"@
}

/// The text the modal's input line starts with.
pub open spec fn initial_input() -> Seq<char> {
    "https://"@
}

/// The cursor state of the target table.
#[derive(Debug)]
pub struct DomainTableState {
    pub table_state: TableState,
}

impl Clone for DomainTableState {
    fn clone(&self) -> (res: Self)
        ensures
            res == *self,
    {
        DomainTableState { table_state: self.table_state.clone() }
    }
}

impl Default for DomainTableState {
    fn default() -> (res: Self)
        ensures
            res.table_state.selected is None,
    {
        DomainTableState { table_state: TableState::new() }
    }
}

/// Which surface of the target screen has the keyboard.
#[derive(Debug)]
pub enum DomainScreenMode {
    /// The table of targets.
    DomainTable,
    /// The Add Target modal, on top of the table.
    AddDomain(Popup),
    /// The history view of the selected target.
    HistoryTable,
}

/// The target screen: the table cursor, the history cursor, and the
/// active mode.  The registry itself is passed in by the caller, which
/// may share it with the checker loops behind a lock.
#[derive(Debug)]
pub struct DomainScreen {
    pub domain_table_state: DomainTableState,
    pub history_table_state: HistoryTableState,
    pub mode: DomainScreenMode,
}

/// The relation of a delete command to the registry and the selection:
/// with no selection nothing happens; else the selected target leaves
/// the registry and the selection moves to the nearest valid row, or
/// clears when the table becomes empty.
pub open spec fn deleted(
    pre: DomainScreen,
    rpre: Seq<MonitoredDomain>,
    post: DomainScreen,
    rpost: Seq<MonitoredDomain>,
) -> bool {
    match pre.domain_table_state.table_state.selected {
        None => {
            &&& rpost == rpre
            &&& post.domain_table_state == pre.domain_table_state
        },
        Some(i) => {
            &&& rpost == rpre.remove(i as int)
            &&& post.domain_table_state.table_state.selected == (if rpost.len() == 0 {
                None
            } else if i as int >= rpost.len() {
                Some((rpost.len() - 1) as usize)
            } else {
                Some(i)
            })
        },
    }
}

/// The outcome of submitting the modal's text with a given fresh id:
/// normally the registry gains one target with that id, the submitted
/// URL, the default interval and an empty history, and the modal closes;
/// where the id collides (a bug), nothing changes and the modal shows an
/// internal error.
pub open spec fn submitted(
    p: Popup,
    rpre: Seq<MonitoredDomain>,
    post: DomainScreen,
    rpost: Seq<MonitoredDomain>,
    id: u128,
    text: Seq<char>,
) -> bool {
    if forall|i: int| 0 <= i < rpre.len() ==> rpre[i].id != id {
        &&& rpost.len() == rpre.len() + 1
        &&& rpost.subrange(0, rpre.len() as int) == rpre
        &&& rpost.last().id == id
        &&& rpost.last().url@ == text
        &&& rpost.last().interval_seconds == DEFAULT_INTERVAL_SECONDS
        &&& rpost.last().check_history@.len() == 0
        &&& post.mode is DomainTable
    } else {
        &&& rpost == rpre
        &&& post.mode matches DomainScreenMode::AddDomain(q) && q@.title == duplicate_id_title()
            && q@.edit == p@.edit
    }
}

/// One key while the Add Target modal is open.  Every key is offered to
/// the modal first and nothing it consumes escalates: Esc cancels, Enter
/// submits, editing keys edit the line, and the rest are not consumed.
pub open spec fn modal_step(
    p: Popup,
    pre: DomainScreen,
    rpre: Seq<MonitoredDomain>,
    post: DomainScreen,
    rpost: Seq<MonitoredDomain>,
    key: KeyInput,
    consumed: bool,
) -> bool {
    match key {
        KeyInput::Esc => {
            &&& consumed
            &&& rpost == rpre
            &&& post.mode is DomainTable
            &&& post.domain_table_state == pre.domain_table_state
            &&& post.history_table_state == pre.history_table_state
        },
        KeyInput::Enter => {
            let text = p@.edit.text;
            &&& consumed
            &&& post.domain_table_state == pre.domain_table_state
            &&& post.history_table_state == pre.history_table_state
            &&& if !valid_url(text, spec_default_tlds()) {
                &&& rpost == rpre
                &&& post.mode matches DomainScreenMode::AddDomain(q)
                    && q@.title == invalid_url_title() && q@.edit == p@.edit
            } else {
                exists|id: u128| submitted(p, rpre, post, rpost, id, text)
            }
        },
        _ => {
            &&& rpost == rpre
            &&& post.domain_table_state == pre.domain_table_state
            &&& post.history_table_state == pre.history_table_state
            &&& consumed == is_edit_key(key)
            &&& post.mode matches DomainScreenMode::AddDomain(q) && q@.title == p@.title
                && q@.edit == spec_edit(p@.edit, key)
        },
    }
}

/// One key on the target table: `a` opens the modal, `d` deletes the
/// selection, `h` opens the history of the selection, Up/`k` and
/// Down/`j` move the cursor with wrap-around, and anything else —
/// Esc and quit included — is left for the global handler.
pub open spec fn table_step(
    pre: DomainScreen,
    rpre: Seq<MonitoredDomain>,
    post: DomainScreen,
    rpost: Seq<MonitoredDomain>,
    key: KeyInput,
    consumed: bool,
) -> bool {
    let sel = pre.domain_table_state.table_state.selected;
    let nav_frame = {
        &&& rpost == rpre
        &&& post.mode is DomainTable
        &&& post.history_table_state == pre.history_table_state
    };
    let unconsumed = {
        &&& !consumed
        &&& rpost == rpre
        &&& post == pre
    };
    match key {
        KeyInput::Char(c) => {
            if c == 'a' || c == 'A' {
                &&& consumed
                &&& rpost == rpre
                &&& post.domain_table_state == pre.domain_table_state
                &&& post.history_table_state == pre.history_table_state
                &&& post.mode matches DomainScreenMode::AddDomain(q)
                    && q@.title == add_domain_title()
                    && q@.edit.text == initial_input()
                    && q@.edit.cursor == initial_input().len()
            } else if c == 'd' || c == 'D' {
                &&& consumed
                &&& post.mode is DomainTable
                &&& post.history_table_state == pre.history_table_state
                &&& deleted(pre, rpre, post, rpost)
            } else if c == 'h' || c == 'H' {
                &&& consumed
                &&& rpost == rpre
                &&& post.domain_table_state == pre.domain_table_state
                &&& post.history_table_state == pre.history_table_state
                &&& if sel is Some {
                    post.mode is HistoryTable
                } else {
                    post.mode is DomainTable
                }
            } else if c == 'k' {
                &&& nav_frame
                &&& consumed
                &&& post.domain_table_state.table_state.selected == wrap_previous(
                    sel,
                    rpre.len() as usize,
                )
            } else if c == 'j' {
                &&& nav_frame
                &&& consumed
                &&& post.domain_table_state.table_state.selected == wrap_next(
                    sel,
                    rpre.len() as usize,
                )
            } else {
                unconsumed
            }
        },
        KeyInput::Up => {
            &&& nav_frame
            &&& consumed
            &&& post.domain_table_state.table_state.selected == wrap_previous(
                sel,
                rpre.len() as usize,
            )
        },
        KeyInput::Down => {
            &&& nav_frame
            &&& consumed
            &&& post.domain_table_state.table_state.selected == wrap_next(
                sel,
                rpre.len() as usize,
            )
        },
        _ => unconsumed,
    }
}

/// One key on the history view: Esc goes back to the table, Up/`k` and
/// Down/`j` move the history cursor with wrap-around, and anything else
/// is left for the global handler.
pub open spec fn history_step(
    pre: DomainScreen,
    rpre: Seq<MonitoredDomain>,
    post: DomainScreen,
    rpost: Seq<MonitoredDomain>,
    key: KeyInput,
    consumed: bool,
) -> bool {
    match pre.domain_table_state.table_state.selected {
        None => {
            &&& !consumed
            &&& rpost == rpre
            &&& post == pre
        },
        Some(i) => {
            let hlen = rpre[i as int].check_history@.len() as usize;
            let hsel = pre.history_table_state.table_state.selected;
            let nav_frame = {
                &&& rpost == rpre
                &&& post.mode is HistoryTable
                &&& post.domain_table_state == pre.domain_table_state
            };
            match key {
                KeyInput::Esc => {
                    &&& consumed
                    &&& rpost == rpre
                    &&& post.mode is DomainTable
                    &&& post.domain_table_state == pre.domain_table_state
                    &&& post.history_table_state == pre.history_table_state
                },
                KeyInput::Up => {
                    &&& nav_frame
                    &&& consumed
                    &&& post.history_table_state.table_state.selected == wrap_previous(
                        hsel,
                        hlen,
                    )
                },
                KeyInput::Down => {
                    &&& nav_frame
                    &&& consumed
                    &&& post.history_table_state.table_state.selected == wrap_next(hsel, hlen)
                },
                KeyInput::Char(c) => {
                    if c == 'k' {
                        &&& nav_frame
                        &&& consumed
                        &&& post.history_table_state.table_state.selected == wrap_previous(
                            hsel,
                            hlen,
                        )
                    } else if c == 'j' {
                        &&& nav_frame
                        &&& consumed
                        &&& post.history_table_state.table_state.selected == wrap_next(
                            hsel,
                            hlen,
                        )
                    } else {
                        &&& !consumed
                        &&& rpost == rpre
                        &&& post == pre
                    }
                },
                _ => {
                    &&& !consumed
                    &&& rpost == rpre
                    &&& post == pre
                },
            }
        },
    }
}

/// One key on the target screen, whatever its mode: the dispatch of
/// [`modal_step`], [`table_step`] and [`history_step`] on the mode the
/// key arrived in.
pub open spec fn screen_step(
    pre: DomainScreen,
    rpre: Seq<MonitoredDomain>,
    post: DomainScreen,
    rpost: Seq<MonitoredDomain>,
    key: KeyInput,
    consumed: bool,
) -> bool {
    match pre.mode {
        DomainScreenMode::AddDomain(p) => modal_step(p, pre, rpre, post, rpost, key, consumed),
        DomainScreenMode::DomainTable => table_step(pre, rpre, post, rpost, key, consumed),
        DomainScreenMode::HistoryTable => history_step(pre, rpre, post, rpost, key, consumed),
    }
}

impl DomainScreen {
    /// The screen invariant against a registry: the table selection is a
    /// valid row, and the history view is only ever open on a selection.
    pub open spec fn wf(self, reg: Seq<MonitoredDomain>) -> bool {
        &&& match self.domain_table_state.table_state.selected {
            Some(i) => (i as int) < reg.len(),
            None => true,
        }
        &&& match self.mode {
            DomainScreenMode::AddDomain(p) => p.wf(),
            DomainScreenMode::HistoryTable => self.domain_table_state.table_state.selected
                is Some,
            DomainScreenMode::DomainTable => true,
        }
    }

    /// A fresh screen: the table, nothing selected.
    pub fn new() -> (s: DomainScreen)
        ensures
            s.mode is DomainTable,
            s.domain_table_state.table_state.selected is None,
            s.history_table_state.table_state.selected is None,
    {
        DomainScreen {
            domain_table_state: DomainTableState { table_state: TableState::new() },
            history_table_state: HistoryTableState { table_state: TableState::new() },
            mode: DomainScreenMode::DomainTable,
        }
    }

    /// Move the table cursor down one row, wrapping from the last row to
    /// row 0; a no-op on an empty table.
    pub fn next_row(&mut self, registry: &Registry)
        ensures
            final(self).mode == old(self).mode,
            final(self).history_table_state == old(self).history_table_state,
            final(self).domain_table_state.table_state.selected == wrap_next(
                old(self).domain_table_state.table_state.selected,
                registry@.len() as usize,
            ),
    {
        let len = registry.len();
        self.domain_table_state.table_state.next_row(len);
    }

    /// Move the table cursor up one row, wrapping from row 0 to the last
    /// row; a no-op on an empty table.
    pub fn previous_row(&mut self, registry: &Registry)
        ensures
            final(self).mode == old(self).mode,
            final(self).history_table_state == old(self).history_table_state,
            final(self).domain_table_state.table_state.selected == wrap_previous(
                old(self).domain_table_state.table_state.selected,
                registry@.len() as usize,
            ),
    {
        let len = registry.len();
        self.domain_table_state.table_state.previous_row(len);
    }

    /// Delete the selected target, persist the new state, and move the
    /// selection to the nearest valid row — or clear it when the table
    /// becomes empty.  With no selection nothing happens.
    pub fn delete_entry<P: Persistence>(&mut self, registry: &mut Registry, sink: &mut P)
        requires
            old(registry).wf(),
            old(self).wf(old(registry)@),
            old(self).mode is DomainTable,
        ensures
            final(registry).wf(),
            final(self).wf(final(registry)@),
            final(self).mode == old(self).mode,
            final(self).history_table_state == old(self).history_table_state,
            deleted(*old(self), old(registry)@, *final(self), final(registry)@),
    {
        let sel = self.domain_table_state.table_state.selected();
        if let Some(i) = sel {
            assert(i < registry@.len());
            let id = registry.get(i).id;
            let removed = registry.remove(id);
            proof {
                assert(removed is Ok);
                let j = choose|j: int|
                    {
                        &&& 0 <= j < old(registry)@.len()
                        &&& old(registry)@[j].id == id
                        &&& removed->Ok_0 == old(registry)@[j]
                        &&& registry@ == old(registry)@.remove(j)
                    };
                assert(old(registry)@[i as int].id == id);
                assert(j == i as int);
            }
            let _ = sink.persist(registry.domains_ref());
            let new_len = registry.len();
            if new_len == 0 {
                self.domain_table_state.table_state.select(None);
            } else if i >= new_len {
                self.domain_table_state.table_state.select(Some(new_len - 1));
            } else {
                self.domain_table_state.table_state.select(Some(i));
            }
        }
    }

    /// Route one key press to the active mode.  Returns whether the key
    /// was consumed; an unconsumed key is the caller's to offer to the
    /// global commands, so each key is dispatched exactly once.
    pub fn handle_key_event<P: Persistence>(
        &mut self,
        registry: &mut Registry,
        sink: &mut P,
        key: KeyInput,
    ) -> (consumed: bool)
        requires
            old(registry).wf(),
            old(self).wf(old(registry)@),
        ensures
            final(registry).wf(),
            final(self).wf(final(registry)@),
            screen_step(
                *old(self),
                old(registry)@,
                *final(self),
                final(registry)@,
                key,
                consumed,
            ),
    {
        match &mut self.mode {
            DomainScreenMode::AddDomain(popup) => {
                match key {
                    KeyInput::Esc => {
                        self.mode = DomainScreenMode::DomainTable;
                        true
                    },
                    KeyInput::Enter => {
                        let text = popup.input_line();
                        if !is_valid_url(text.as_str()) {
                            popup.set_title(
                                String::from_str("Invalid URL! (e.g., http://example.com)"),
                            );
                            return true;
                        }
                        let id = fresh_id();
                        let d = MonitoredDomain::new(id, text, DEFAULT_INTERVAL_SECONDS);
                        match registry.insert(d) {
                            Ok(()) => {
                                let _ = sink.persist(registry.domains_ref());
                                self.mode = DomainScreenMode::DomainTable;
                                proof {
                                    let p0 = old(self).mode->AddDomain_0;
                                    assert(registry@.subrange(0, old(registry)@.len() as int)
                                        =~= old(registry)@);
                                    assert(submitted(
                                        p0,
                                        old(registry)@,
                                        *self,
                                        registry@,
                                        id,
                                        p0@.edit.text,
                                    ));
                                }
                                true
                            },
                            Err(_) => {
                                popup.set_title(
                                    String::from_str("Internal error: id already in use"),
                                );
                                proof {
                                    let p0 = old(self).mode->AddDomain_0;
                                    assert(submitted(
                                        p0,
                                        old(registry)@,
                                        *self,
                                        registry@,
                                        id,
                                        p0@.edit.text,
                                    ));
                                }
                                true
                            },
                        }
                    },
                    _ => popup.input(key),
                }
            },
            DomainScreenMode::DomainTable => {
                match key {
                    KeyInput::Char(c) => {
                        if c == 'a' || c == 'A' {
                            self.mode = DomainScreenMode::AddDomain(
                                Popup::new(
                                    String::from_str("Add New Domain"),
                                    Some(String::from_str("https://")),
                                ),
                            );
                            true
                        } else if c == 'd' || c == 'D' {
                            self.delete_entry(registry, sink);
                            true
                        } else if c == 'h' || c == 'H' {
                            if self.domain_table_state.table_state.selected().is_some() {
                                self.mode = DomainScreenMode::HistoryTable;
                            }
                            true
                        } else if c == 'k' {
                            self.previous_row(registry);
                            true
                        } else if c == 'j' {
                            self.next_row(registry);
                            true
                        } else {
                            false
                        }
                    },
                    KeyInput::Up => {
                        self.previous_row(registry);
                        true
                    },
                    KeyInput::Down => {
                        self.next_row(registry);
                        true
                    },
                    _ => false,
                }
            },
            DomainScreenMode::HistoryTable => {
                let sel = self.domain_table_state.table_state.selected();
                match sel {
                    Some(i) => {
                        assert(i < registry@.len());
                        let hist_len = registry.get(i).check_history.len();
                        match key {
                            KeyInput::Esc => {
                                self.mode = DomainScreenMode::DomainTable;
                                true
                            },
                            KeyInput::Up => {
                                self.history_table_state.table_state.previous_row(hist_len);
                                true
                            },
                            KeyInput::Down => {
                                self.history_table_state.table_state.next_row(hist_len);
                                true
                            },
                            KeyInput::Char(c) => {
                                if c == 'k' {
                                    self.history_table_state.table_state.previous_row(hist_len);
                                    true
                                } else if c == 'j' {
                                    self.history_table_state.table_state.next_row(hist_len);
                                    true
                                } else {
                                    false
                                }
                            },
                            _ => false,
                        }
                    },
                    None => false,
                }
            },
        }
    }
}

} // verus!
