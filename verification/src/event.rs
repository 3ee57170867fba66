//! The notification broadcaster and its one-shot waiter.
//!
//! An [`Event`] holds a capacity-one registry of waiting listeners. A
//! [`Listener`] is created unregistered; its first poll registers it, a
//! notification delivers its wake, and the poll that observes the wake
//! resolves it. A delivered-but-unobserved wake keeps the single slot busy,
//! so a second waiter asking to register while any part of the slot is in
//! use is refused with a capacity error rather than silently dropped.

use vstd::prelude::*;

use crate::model::EventModel;
use crate::model::ListenerState;
use crate::model::notify_transition;
use crate::model::wf_pair;

verus! {

/// The result of polling a listener.
#[derive(Clone, Copy, PartialEq, Eq, Debug, Structural)]
pub enum PollStatus {
    /// The listener has resolved; it is consumed and must not be polled
    /// again.
    Ready,
    /// Not notified yet: the caller must re-poll after being woken, or
    /// busy-poll.
    Pending,
}

/// Registration was refused: more waiters asked to register than the
/// registry's fixed capacity of one supports. A fatal misconfiguration, not
/// a recoverable condition.
#[derive(Clone, Copy, PartialEq, Eq, Debug, Structural)]
pub enum RegisterError {
    CapacityExceeded,
}

/// A notification broadcaster with a registry of (at most one) waiting
/// listener.
pub struct Event {
    registered: bool,
    woken: bool,
}

impl Event {
    /// The registry and in-flight wake, as the model sees them.
    pub closed spec fn view(&self) -> EventModel {
        EventModel { registered: self.registered, woken: self.woken }
    }

    /// A fresh event: empty registry, no wake in flight.
    pub fn new() -> (r: Event)
        ensures
            r@ == (EventModel { registered: false, woken: false }),
    {
        Event { registered: false, woken: false }
    }

    /// Whether a waiter currently sits in the registry.
    pub fn has_waiter(&self) -> (r: bool)
        ensures
            r == self@.registered,
    {
        self.registered
    }

    /// Whether a wake was delivered and not yet observed by a poll.
    pub fn wake_pending(&self) -> (r: bool)
        ensures
            r == self@.woken,
    {
        self.woken
    }

    /// Add a waiter to the registry. Succeeds exactly when the slot is
    /// wholly free — no waiter registered and no wake still in flight;
    /// otherwise the capacity of one is exhausted and registration is
    /// refused unchanged.
    pub fn register(&mut self) -> (r: Result<(), RegisterError>)
        ensures
            r is Ok <==> (!old(self)@.registered && !old(self)@.woken),
            r is Ok ==> final(self)@ == (EventModel { registered: true, woken: false }),
            r is Err ==> final(self)@ == old(self)@ && r == Err::<(), RegisterError>(
                RegisterError::CapacityExceeded,
            ),
    {
        if self.registered || self.woken {
            Err(RegisterError::CapacityExceeded)
        } else {
            self.registered = true;
            Ok(())
        }
    }

    /// Wake up to `n` registered waiters: each woken waiter leaves the
    /// registry and its wake is delivered. A no-op if the registry is empty
    /// or `n` is zero; never blocks. Returns how many waiters were woken —
    /// never more than `n`, in registration order (with capacity one, the
    /// single registered waiter is the first and only one).
    pub fn notify(&mut self, n: usize) -> (woken: usize)
        ensures
            (final(self)@, woken as nat) == notify_transition(old(self)@, n as nat),
            woken <= n,
    {
        if n >= 1 && self.registered {
            self.registered = false;
            self.woken = true;
            1
        } else {
            0
        }
    }
}

/// What one poll does to a listener and its event, and what it reports: the
/// first poll registers the waiter; a poll that finds the wake delivered
/// resolves it; any other poll changes nothing.
pub open spec fn poll_transition(l: ListenerState, e: EventModel) -> (
    ListenerState,
    EventModel,
    PollStatus,
) {
    match l {
        ListenerState::Unregistered => (
            ListenerState::Registered,
            EventModel { registered: true, woken: false },
            PollStatus::Pending,
        ),
        ListenerState::Registered => {
            if e.woken {
                (
                    ListenerState::Notified,
                    EventModel { registered: false, woken: false },
                    PollStatus::Ready,
                )
            } else {
                (l, e, PollStatus::Pending)
            }
        },
        ListenerState::Notified => (l, e, PollStatus::Ready),
    }
}

/// A one-shot waiter bound to an [`Event`], owned exclusively by the task
/// that awaits it.
pub struct Listener {
    state: ListenerState,
}

impl Listener {
    /// The waiter's position in its lifecycle.
    pub closed spec fn view(&self) -> ListenerState {
        self.state
    }

    /// A fresh, unregistered listener.
    pub fn new() -> (r: Listener)
        ensures
            r@ == ListenerState::Unregistered,
    {
        Listener { state: ListenerState::Unregistered }
    }

    /// The waiter's position in its lifecycle, observably.
    pub fn state(&self) -> (r: ListenerState)
        ensures
            r == self@,
    {
        self.state
    }

    /// Whether the listener has resolved. Once it has, it is consumed: no
    /// further poll is valid.
    pub fn is_resolved(&self) -> (r: bool)
        ensures
            r == (self@ == ListenerState::Notified),
    {
        match self.state {
            ListenerState::Notified => true,
            _ => false,
        }
    }

    /// Poll the waiter against its event. On the first poll it registers
    /// itself and reports `Pending`; once the event has delivered its wake,
    /// the next poll observes it, resolves the listener and reports
    /// `Ready`, consuming it. A listener already consumed must not be
    /// polled again.
    pub fn poll(&mut self, ev: &mut Event) -> (r: PollStatus)
        requires
            wf_pair(old(self)@, old(ev)@),
            old(self)@ != ListenerState::Notified,
        ensures
            wf_pair(final(self)@, final(ev)@),
            (final(self)@, final(ev)@, r) == poll_transition(old(self)@, old(ev)@),
    {
        match self.state {
            ListenerState::Unregistered => {
                // Well-formedness says the slot is free, so registration
                // cannot be refused.
                match ev.register() {
                    Ok(()) => {
                        self.state = ListenerState::Registered;
                        PollStatus::Pending
                    },
                    Err(_) => {
                        proof {
                            assert(false);
                        }
                        PollStatus::Pending
                    },
                }
            },
            ListenerState::Registered => {
                if ev.woken {
                    ev.woken = false;
                    self.state = ListenerState::Notified;
                    PollStatus::Ready
                } else {
                    PollStatus::Pending
                }
            },
            ListenerState::Notified => {
                proof {
                    assert(false);
                }
                PollStatus::Ready
            },
        }
    }

    /// Abandon the wait: the listener leaves the registry, and a wake
    /// already delivered to it is discarded with it. The listener is back
    /// to fresh, as a newly built one would be.
    pub fn cancel(&mut self, ev: &mut Event)
        requires
            wf_pair(old(self)@, old(ev)@),
            old(self)@ == ListenerState::Registered,
        ensures
            final(self)@ == ListenerState::Unregistered,
            final(ev)@ == (EventModel { registered: false, woken: false }),
            wf_pair(final(self)@, final(ev)@),
    {
        self.state = ListenerState::Unregistered;
        ev.registered = false;
        ev.woken = false;
    }
}

} // verus!
