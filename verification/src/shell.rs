//! The outer shell: the menu, the global commands, and key routing.
//!
//! Key routing is two-tier and strictly single-dispatch: a key goes to
//! the active screen first, and only a key the screen did not consume is
//! offered to the global commands (quit, return to menu, open the target
//! screen).  No key ever reaches two handlers.

use vstd::prelude::*;

use crate::keys::KeyInput;
use crate::persist::Persistence;
use crate::registry::Registry;
use crate::session::{screen_step, DomainScreen};

verus! {

/// An internally queued screen-transition event, drained by the run
/// loop.
#[derive(Debug, Clone, Copy, PartialEq, Eq, Structural)]
pub enum AppEvent {
    /// Open the target screen; the run loop loads the registry and
    /// starts monitoring before switching.
    SwitchToDomainsScreen,
}

/// Which screen is active.
#[derive(Debug)]
pub enum Menu {
    /// The main menu.
    Main,
    /// The target screen.
    Domains(DomainScreen),
}

/// The whole interactive session: the active screen, the exit flag, and
/// the queue of pending screen-transition events.
#[derive(Debug)]
pub struct App {
    pub current_screen: Menu,
    pub exit: bool,
    pub pending_events: Vec<AppEvent>,
}

/// The effect of one key on the global commands: `q` quits, Esc leaves
/// the target screen for the menu, and `e` queues opening the target
/// screen when it is not already active.  Anything else is not consumed.
pub open spec fn global_step(pre: App, post: App, key: KeyInput, consumed: bool) -> bool {
    match key {
        KeyInput::Char(c) => {
            if c == 'q' || c == 'Q' {
                &&& consumed
                &&& post.exit
                &&& post.current_screen == pre.current_screen
                &&& post.pending_events@ == pre.pending_events@
            } else if c == 'e' || c == 'E' {
                if pre.current_screen is Domains {
                    &&& !consumed
                    &&& post == pre
                } else {
                    &&& consumed
                    &&& post.current_screen == pre.current_screen
                    &&& post.exit == pre.exit
                    &&& post.pending_events@ == pre.pending_events@.push(
                        AppEvent::SwitchToDomainsScreen,
                    )
                }
            } else {
                &&& !consumed
                &&& post == pre
            }
        },
        KeyInput::Esc => {
            if pre.current_screen is Domains {
                &&& consumed
                &&& post.current_screen is Main
                &&& post.exit == pre.exit
                &&& post.pending_events@ == pre.pending_events@
            } else {
                &&& !consumed
                &&& post == pre
            }
        },
        _ => {
            &&& !consumed
            &&& post == pre
        },
    }
}

impl App {
    /// The shell invariant against a registry: the target screen, when
    /// active, is well formed.
    pub open spec fn wf(self, reg: Seq<crate::domain::MonitoredDomain>) -> bool {
        match self.current_screen {
            Menu::Domains(s) => s.wf(reg),
            Menu::Main => true,
        }
    }

    /// A fresh session: the main menu, not exiting, nothing queued.
    pub fn new() -> (a: App)
        ensures
            a.current_screen is Main,
            !a.exit,
            a.pending_events@ =~= Seq::<AppEvent>::empty(),
    {
        App { current_screen: Menu::Main, exit: false, pending_events: Vec::new() }
    }

    /// Apply one key to the global commands alone.
    pub fn handle_global_key_event(&mut self, key: KeyInput) -> (consumed: bool)
        ensures
            global_step(*old(self), *final(self), key, consumed),
    {
        match key {
            KeyInput::Char(c) => {
                if c == 'q' || c == 'Q' {
                    self.exit = true;
                    true
                } else if c == 'e' || c == 'E' {
                    if matches!(self.current_screen, Menu::Domains(_)) {
                        false
                    } else {
                        self.pending_events.push(AppEvent::SwitchToDomainsScreen);
                        true
                    }
                } else {
                    false
                }
            },
            KeyInput::Esc => {
                if matches!(self.current_screen, Menu::Domains(_)) {
                    self.current_screen = Menu::Main;
                    true
                } else {
                    false
                }
            },
            _ => false,
        }
    }

    /// Route one key press: the active screen first, then — only for a
    /// key the screen did not consume — the global commands.  Each key
    /// is dispatched exactly once.
    pub fn handle_key<P: Persistence>(
        &mut self,
        registry: &mut Registry,
        sink: &mut P,
        key: KeyInput,
    ) -> (consumed: bool)
        requires
            old(registry).wf(),
            old(self).wf(old(registry)@),
        ensures
            final(registry).wf(),
            final(self).wf(final(registry)@),
            match old(self).current_screen {
                Menu::Main => {
                    &&& global_step(*old(self), *final(self), key, consumed)
                    &&& final(registry)@ == old(registry)@
                },
                Menu::Domains(s) => exists|s2: DomainScreen, c1: bool|
                    {
                        &&& #[trigger] screen_step(
                            s,
                            old(registry)@,
                            s2,
                            final(registry)@,
                            key,
                            c1,
                        )
                        &&& if c1 {
                            &&& consumed
                            &&& final(self).current_screen == Menu::Domains(s2)
                            &&& final(self).exit == old(self).exit
                            &&& final(self).pending_events@ == old(self).pending_events@
                        } else {
                            global_step(
                                App {
                                    current_screen: Menu::Domains(s2),
                                    exit: old(self).exit,
                                    pending_events: old(self).pending_events,
                                },
                                *final(self),
                                key,
                                consumed,
                            )
                        }
                    },
            },
    {
        let screen_consumed = match &mut self.current_screen {
            Menu::Main => false,
            Menu::Domains(screen) => screen.handle_key_event(registry, sink, key),
        };
        if screen_consumed {
            proof {
                let s = old(self).current_screen->Domains_0;
                let s2 = self.current_screen->Domains_0;
                assert(screen_step(s, old(registry)@, s2, registry@, key, true));
                assert(self.current_screen == Menu::Domains(s2));
            }
            return true;
        }
        let ghost mid = *self;
        let r = self.handle_global_key_event(key);
        proof {
            if old(self).current_screen is Domains {
                let s = old(self).current_screen->Domains_0;
                let s2 = mid.current_screen->Domains_0;
                assert(screen_step(s, old(registry)@, s2, registry@, key, false));
                assert(mid == App {
                    current_screen: Menu::Domains(s2),
                    exit: old(self).exit,
                    pending_events: old(self).pending_events,
                });
                assert(global_step(mid, *self, key, r));
            }
        }
        r
    }

    /// Take the oldest pending screen-transition event, if any.
    pub fn take_event(&mut self) -> (e: Option<AppEvent>)
        ensures
            final(self).current_screen == old(self).current_screen,
            final(self).exit == old(self).exit,
            match e {
                Some(ev) => {
                    &&& old(self).pending_events@.len() > 0
                    &&& ev == old(self).pending_events@[0]
                    &&& final(self).pending_events@ == old(self).pending_events@.drop_first()
                },
                None => {
                    &&& old(self).pending_events@.len() == 0
                    &&& final(self).pending_events@ == old(self).pending_events@
                },
            },
    {
        if self.pending_events.len() == 0 {
            return None;
        }
        let e = self.pending_events.remove(0);
        proof {
            assert(self.pending_events@ =~= old(self).pending_events@.drop_first());
        }
        Some(e)
    }
}

} // verus!
