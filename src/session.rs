//! One apply or revert, as a state machine that hands out actions.
//!
//! A driver calls `begin`, performs each `Step::Perform` action it is given,
//! and reports how it went to `advance`, until a `Step::Finished` comes. The
//! first failure ends the operation; later actions are not handed out.
use vstd::prelude::*;
use crate::mode::{DnsError, Mode, Platform, mode_named, resolve_mode, supported_on};
use crate::plan::{Action, ActionView, Operation, plan, plan_action, plan_len};
use crate::routes::{interface_selected, selected_interface};

verus! {

/// How a performed action went.
#[derive(Debug)]
pub enum Outcome {
    /// It succeeded; what it printed (the listing, for `Action::ListRoutes`).
    Succeeded(String),
    /// It failed.
    Failed(DnsError),
}

/// What the driver does next.
#[derive(Debug)]
pub enum Step {
    Perform(Action),
    Finished(Result<(), DnsError>),
}

/// An operation in progress.
pub struct Session {
    mode: Mode,
    op: Operation,
    dns: String,
    interface: String,
    next: usize,
    done: bool,
}

/// A session seen as plain values.
pub struct SessionView {
    pub mode: Mode,
    pub op: Operation,
    pub dns: Seq<char>,
    /// The interface the route listing selected; empty before it.
    pub interface: Seq<char>,
    /// How many actions have been handed out.
    pub next: nat,
    pub done: bool,
}

impl View for Session {
    type V = SessionView;

    closed spec fn view(&self) -> SessionView {
        SessionView {
            mode: self.mode,
            op: self.op,
            dns: self.dns@,
            interface: self.interface@,
            next: self.next as nat,
            done: self.done,
        }
    }
}

/// The actions of a session's operation, given the interface it holds.
pub open spec fn actions_of(s: SessionView) -> Seq<ActionView> {
    plan(s.mode, s.op, s.dns, s.interface)
}

/// A session never counts past the end of its actions.
pub open spec fn well_formed(s: SessionView) -> bool {
    s.next <= actions_of(s).len()
}

/// A session that has handed out nothing yet.
pub open spec fn fresh(s: SessionView, m: Mode, op: Operation, dns: Seq<char>) -> bool {
    &&& s.mode == m
    &&& s.op == op
    &&& s.dns == dns
    &&& s.interface.len() == 0
    &&& s.next == 0
    &&& !s.done
    &&& well_formed(s)
}

/// What handing out the next action does: the action at `next`, or the
/// end of the operation when none is left.
pub open spec fn hands_out(before: SessionView, after: SessionView, r: Step) -> bool {
    &&& after.mode == before.mode
    &&& after.op == before.op
    &&& after.dns == before.dns
    &&& if before.next < actions_of(before).len() {
        &&& r matches Step::Perform(a) && a@ == actions_of(before)[before.next as int]
        &&& after.next == before.next + 1
        &&& !after.done
    } else {
        &&& r matches Step::Finished(Ok(()))
        &&& after.next == before.next
        &&& after.done
    }
}

/// Whether the action last handed out was the route listing.
pub open spec fn listing_reported(s: SessionView) -> bool {
    s.mode == Mode::Windows && s.next == 1
}

impl Session {
    /// A session that overrides the resolver of `mode` with `dns`.
    pub fn apply(mode: Mode, dns: &str) -> (r: Session)
        ensures
            fresh(r@, mode, Operation::Apply, dns@),
    {
        Session {
            mode,
            op: Operation::Apply,
            dns: String::from_str(dns),
            interface: String::new(),
            next: 0,
            done: false,
        }
    }

    /// A session that restores the resolver of `mode`.
    pub fn revert(mode: Mode) -> (r: Session)
        ensures
            fresh(r@, mode, Operation::Revert, Seq::empty()),
    {
        Session {
            mode,
            op: Operation::Revert,
            dns: String::new(),
            interface: String::new(),
            next: 0,
            done: false,
        }
    }

    /// Whether the operation has ended.
    pub fn is_finished(&self) -> (r: bool)
        ensures
            r == self@.done,
    {
        self.done
    }

    fn hand_out(&mut self) -> (r: Step)
        requires
            !old(self)@.done,
            well_formed(old(self)@),
        ensures
            hands_out(old(self)@, final(self)@, r),
            final(self)@.interface == old(self)@.interface,
            well_formed(final(self)@),
    {
        let len = plan_len(self.mode, self.op);
        if self.next < len {
            let a = plan_action(self.mode, self.op, self.dns.as_str(), self.interface.as_str(), self.next);
            self.next = self.next + 1;
            Step::Perform(a)
        } else {
            self.done = true;
            Step::Finished(Ok(()))
        }
    }

    /// The first step of the operation.
    pub fn begin(&mut self) -> (r: Step)
        requires
            !old(self)@.done,
            well_formed(old(self)@),
        ensures
            hands_out(old(self)@, final(self)@, r),
            final(self)@.interface == old(self)@.interface,
            well_formed(final(self)@),
    {
        self.hand_out()
    }

    /// Takes the outcome of the action last handed out and gives the next
    /// step. A failure ends the operation with that error. A route listing
    /// selects the interface that the following action configures.
    pub fn advance(&mut self, outcome: Outcome) -> (r: Step)
        requires
            !old(self)@.done,
            well_formed(old(self)@),
        ensures
            well_formed(final(self)@),
            match outcome {
                Outcome::Failed(e) => {
                    &&& r == Step::Finished(Err(e))
                    &&& final(self)@ == (SessionView { done: true, ..old(self)@ })
                },
                Outcome::Succeeded(out) => {
                    let listed = SessionView {
                        interface: if listing_reported(old(self)@) {
                            final(self)@.interface
                        } else {
                            old(self)@.interface
                        },
                        ..old(self)@
                    };
                    &&& listing_reported(old(self)@) ==> interface_selected(
                        out@,
                        final(self)@.interface,
                    )
                    &&& hands_out(listed, final(self)@, r)
                    &&& final(self)@.interface == listed.interface
                },
            },
    {
        match outcome {
            Outcome::Failed(e) => {
                self.done = true;
                Step::Finished(Err(e))
            },
            Outcome::Succeeded(out) => {
                if self.mode == Mode::Windows && self.next == 1 {
                    self.interface = selected_interface(out.as_str());
                }
                self.hand_out()
            },
        }
    }
}

/// Starts an override of the resolver selected by `mode_name` with `dns`.
/// An unknown mode, or one this platform lacks, is refused before any
/// action is handed out.
pub fn begin_apply(mode_name: &str, dns: &str, platform: Platform) -> (r: Result<Session, DnsError>)
    ensures
        match mode_named(mode_name@) {
            Some(m) if supported_on(m, platform) => r matches Ok(s) && fresh(
                s@,
                m,
                Operation::Apply,
                dns@,
            ),
            _ => r matches Err(DnsError::UnsupportedMode(n)) && n@ == mode_name@,
        },
{
    match resolve_mode(mode_name, platform) {
        Ok(m) => Ok(Session::apply(m, dns)),
        Err(e) => Err(e),
    }
}

/// Starts a restore of the resolver selected by `mode_name`. An unknown
/// mode, or one this platform lacks, is refused before any action is handed
/// out.
pub fn begin_revert(mode_name: &str, platform: Platform) -> (r: Result<Session, DnsError>)
    ensures
        match mode_named(mode_name@) {
            Some(m) if supported_on(m, platform) => r matches Ok(s) && fresh(
                s@,
                m,
                Operation::Revert,
                Seq::empty(),
            ),
            _ => r matches Err(DnsError::UnsupportedMode(n)) && n@ == mode_name@,
        },
{
    match resolve_mode(mode_name, platform) {
        Ok(m) => Ok(Session::revert(m)),
        Err(e) => Err(e),
    }
}

} // verus!
