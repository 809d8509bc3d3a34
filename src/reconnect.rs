//! Scheduling of automatic reconnection attempts.
//!
//! At most one attempt is outstanding. Each armed attempt carries a ticket;
//! the caller sleeps for the delay and then presents the ticket, and the
//! attempt goes ahead only if that ticket is still the pending one. A
//! cancelled or superseded timer therefore fires into nothing.
use vstd::prelude::*;

verus! {

/// An armed reconnection attempt: wait `delay_secs`, then present `ticket`.
#[derive(Clone, Copy, Debug, PartialEq, Eq)]
pub struct ReconnectTimer {
    pub ticket: u64,
    pub delay_secs: u64,
}

pub ghost struct SchedulerView {
    pub pending: Option<u64>,
    pub next_ticket: u64,
}

pub open spec fn ticket_after(t: u64) -> u64 {
    if t == u64::MAX {
        0
    } else {
        (t + 1) as u64
    }
}

/// What arming returns: a timer when reconnection is enabled and none is
/// pending yet.
pub open spec fn arm_result(s: SchedulerView, enabled: bool, interval: u64) -> Option<
    ReconnectTimer,
> {
    if enabled && s.pending is None {
        Some(ReconnectTimer { ticket: s.next_ticket, delay_secs: interval })
    } else {
        None
    }
}

pub open spec fn after_arm(s: SchedulerView, enabled: bool) -> SchedulerView {
    if enabled && s.pending is None {
        SchedulerView { pending: Some(s.next_ticket), next_ticket: ticket_after(s.next_ticket) }
    } else {
        s
    }
}

pub open spec fn after_fire(s: SchedulerView, ticket: u64) -> SchedulerView {
    if s.pending == Some(ticket) {
        SchedulerView { pending: None, ..s }
    } else {
        s
    }
}

pub struct ReconnectScheduler {
    pending: Option<u64>,
    next_ticket: u64,
}

impl View for ReconnectScheduler {
    type V = SchedulerView;

    closed spec fn view(&self) -> SchedulerView {
        SchedulerView { pending: self.pending, next_ticket: self.next_ticket }
    }
}

impl ReconnectScheduler {
    pub fn new() -> (r: Self)
        ensures
            r@.pending is None,
    {
        ReconnectScheduler { pending: None, next_ticket: 0 }
    }

    pub fn is_pending(&self) -> (r: bool)
        ensures
            r == self@.pending is Some,
    {
        self.pending.is_some()
    }

    /// After a failed attempt: arms one timer of `interval` seconds when
    /// reconnection is `enabled` and no timer is pending; otherwise arms
    /// nothing.
    pub fn arm(&mut self, enabled: bool, interval: u64) -> (r: Option<ReconnectTimer>)
        ensures
            r == arm_result(old(self)@, enabled, interval),
            final(self)@ == after_arm(old(self)@, enabled),
    {
        if !enabled || self.pending.is_some() {
            return None;
        }
        let ticket = self.next_ticket;
        self.pending = Some(ticket);
        self.next_ticket = if ticket == u64::MAX {
            0
        } else {
            ticket + 1
        };
        Some(ReconnectTimer { ticket, delay_secs: interval })
    }

    /// A timer ran out: true when its ticket is the pending one, which is then
    /// consumed.
    pub fn fire(&mut self, ticket: u64) -> (r: bool)
        ensures
            r == (old(self)@.pending == Some(ticket)),
            final(self)@ == after_fire(old(self)@, ticket),
    {
        match self.pending {
            Some(t) => {
                if t == ticket {
                    self.pending = None;
                    true
                } else {
                    false
                }
            },
            None => false,
        }
    }

    /// Drops the pending attempt, if any.
    pub fn cancel(&mut self)
        ensures
            final(self)@ == (SchedulerView { pending: None, ..old(self)@ }),
    {
        self.pending = None;
    }
}

/// Failures that come faster than the interval arm one timer: once a timer
/// is pending, a further failure arms none and changes nothing.
pub proof fn lemma_failures_do_not_stack(s: SchedulerView, interval: u64)
    ensures
        arm_result(after_arm(s, true), true, interval) is None,
        after_arm(after_arm(s, true), true) == after_arm(s, true),
{
}

/// A timer fires once: its ticket is consumed, and presenting it again finds
/// nothing pending.
pub proof fn lemma_fires_once(s: SchedulerView, interval: u64)
    requires
        s.pending is None,
    ensures
        ({
            let t = arm_result(s, true, interval)->Some_0;
            let armed = after_arm(s, true);
            &&& t.delay_secs == interval
            &&& armed.pending == Some(t.ticket)
            &&& after_fire(armed, t.ticket).pending is None
            &&& after_fire(after_fire(armed, t.ticket), t.ticket) == after_fire(armed, t.ticket)
        }),
{
}

} // verus!
