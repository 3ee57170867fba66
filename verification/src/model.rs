//! The transition system that the executable core refines.
//!
//! Two contexts touch the shared state: the driver loop, whose position is
//! the program counter [`DriverPc`], and the interrupt producer, which may
//! preempt it between any two of its steps. [`driver_step`] and
//! [`interrupt_step`] give the two transitions; [`model_inv`] is the
//! invariant both preserve; the lemmas at the bottom prove that no
//! interleaving loses a wakeup, that a resolved listener is terminal, and
//! that a notification wakes a bounded number of waiters.

use vstd::prelude::*;

verus! {

/// The lifecycle of a one-shot waiter.
#[derive(Clone, Copy, PartialEq, Eq, Debug, Structural)]
pub enum ListenerState {
    /// Created, not yet registered with its event.
    Unregistered,
    /// In the event's registry (or woken and not yet polled).
    Registered,
    /// Resolved: the terminal state; the listener is consumed.
    Notified,
}

/// The shared state of a capacity-one event.
#[derive(Clone, Copy, PartialEq, Eq, Debug, Structural)]
pub struct EventModel {
    /// A waiter sits in the registry, not yet notified.
    pub registered: bool,
    /// A notification was delivered to the registered waiter and has not yet
    /// been observed by a poll.
    pub woken: bool,
}

/// The driver loop's position between atomic steps of the protocol.
#[derive(Clone, Copy, PartialEq, Eq, Debug, Structural)]
pub enum DriverPc {
    /// Start of an iteration: perform the side effect, then test-and-clear
    /// the flag; if it was set, skip the wait.
    CheckFlag,
    /// The first check came back clear: register a fresh listener.
    Register,
    /// Registered; test-and-clear the flag once more to catch a
    /// notification that raced in since the first check.
    Recheck,
    /// Busy-poll the listener until it resolves.
    Spin,
    /// Iteration complete; loop back to the start.
    Done,
}

/// The whole system between steps: flag, event registry, the one listener,
/// and the driver's position.
#[derive(Clone, Copy, PartialEq, Eq, Debug, Structural)]
pub struct ModelState {
    pub flag: bool,
    pub event: EventModel,
    pub listener: ListenerState,
    pub pc: DriverPc,
}

/// A listener and its event agree with each other: the waiter counts as
/// `Registered` exactly while it sits in the registry or a wake for it is in
/// flight, and never both at once.
pub open spec fn wf_pair(l: ListenerState, e: EventModel) -> bool {
    &&& !(e.registered && e.woken)
    &&& (l == ListenerState::Registered) <==> (e.registered || e.woken)
}

/// What `notify(n)` does to a capacity-one event: if at least one wake is
/// asked for and a waiter is registered, it is removed from the registry and
/// its wake is delivered; otherwise nothing changes. The second component is
/// the number of waiters woken.
pub open spec fn notify_transition(e: EventModel, n: nat) -> (EventModel, nat) {
    if n >= 1 && e.registered {
        (EventModel { registered: false, woken: true }, 1)
    } else {
        (e, 0)
    }
}

/// The interrupt producer's whole step, run to completion before the driver
/// resumes: set the flag, then notify one waiter.
pub open spec fn interrupt_step(s: ModelState) -> ModelState {
    ModelState {
        flag: true,
        event: notify_transition(s.event, 1).0,
        ..s
    }
}

/// One atomic step of the driver loop at its current position.
pub open spec fn driver_step(s: ModelState) -> ModelState {
    match s.pc {
        DriverPc::CheckFlag => {
            if s.flag {
                // Already notified this cycle: skip the wait.
                ModelState { flag: false, pc: DriverPc::Done, ..s }
            } else {
                ModelState { flag: false, pc: DriverPc::Register, ..s }
            }
        },
        DriverPc::Register => {
            // First poll of the fresh listener: it enters the registry.
            ModelState {
                event: EventModel { registered: true, woken: false },
                listener: ListenerState::Registered,
                pc: DriverPc::Recheck,
                ..s
            }
        },
        DriverPc::Recheck => {
            if s.flag {
                // A notification raced in: abandon the wait; the abandoned
                // listener leaves the registry and any in-flight wake for it
                // is discarded (the flag already carried the notification).
                ModelState {
                    flag: false,
                    event: EventModel { registered: false, woken: false },
                    listener: ListenerState::Unregistered,
                    pc: DriverPc::Done,
                    ..s
                }
            } else {
                ModelState { pc: DriverPc::Spin, ..s }
            }
        },
        DriverPc::Spin => {
            if s.event.woken {
                // The poll observes the wake: resolve, clear the flag
                // defensively, and finish the iteration.
                ModelState {
                    flag: false,
                    event: EventModel { registered: false, woken: false },
                    listener: ListenerState::Notified,
                    pc: DriverPc::Done,
                    ..s
                }
            } else {
                // Pending: keep spinning.
                s
            }
        },
        DriverPc::Done => {
            // Next iteration begins with a fresh listener.
            ModelState { listener: ListenerState::Unregistered, pc: DriverPc::CheckFlag, ..s }
        },
    }
}

/// The system invariant, preserved by both transitions from the initial
/// state. Beyond the listener/event agreement it pins the listener's state
/// to the driver's position, and records that past the second flag check a
/// set flag can only have come from an interrupt that also delivered the
/// wake.
pub open spec fn model_inv(s: ModelState) -> bool {
    &&& wf_pair(s.listener, s.event)
    &&& (s.pc == DriverPc::CheckFlag || s.pc == DriverPc::Register) ==> s.listener
        == ListenerState::Unregistered
    &&& (s.pc == DriverPc::Recheck || s.pc == DriverPc::Spin) ==> s.listener
        == ListenerState::Registered
    &&& s.pc == DriverPc::Done ==> s.listener != ListenerState::Registered
    &&& s.pc == DriverPc::Recheck ==> (s.event.woken ==> s.flag)
    &&& s.pc == DriverPc::Spin ==> (s.flag ==> s.event.woken)
}

/// The state the system starts in: flag clear, registry empty, a fresh
/// listener, the driver at the top of its loop.
pub open spec fn init_state() -> ModelState {
    ModelState {
        flag: false,
        event: EventModel { registered: false, woken: false },
        listener: ListenerState::Unregistered,
        pc: DriverPc::CheckFlag,
    }
}

/// The window in which a notification could be lost: the driver has passed
/// the first flag check of the iteration and the listener has not yet
/// resolved.
pub open spec fn in_wait_window(s: ModelState) -> bool {
    s.pc == DriverPc::Register || s.pc == DriverPc::Recheck || s.pc == DriverPc::Spin
}

/// A notification has arrived and has not yet been consumed: it survives in
/// the flag or in the in-flight wake.
pub open spec fn notification_pending(s: ModelState) -> bool {
    s.flag || s.event.woken
}

/// The driver, stepping alone, finishes its iteration within `n` steps.
pub open spec fn reaches_done_within(s: ModelState, n: nat) -> bool
    decreases n,
{
    s.pc == DriverPc::Done || (n >= 1 && reaches_done_within(driver_step(s), (n - 1) as nat))
}

/// The initial state satisfies the invariant.
pub proof fn lemma_init_inv()
    ensures
        model_inv(init_state()),
{
}

/// Every driver step preserves the invariant.
pub proof fn lemma_driver_step_preserves_inv(s: ModelState)
    requires
        model_inv(s),
    ensures
        model_inv(driver_step(s)),
{
}

/// Every interrupt step preserves the invariant, wherever it preempts the
/// driver; and it never touches the listener or the driver's position.
pub proof fn lemma_interrupt_step_preserves_inv(s: ModelState)
    requires
        model_inv(s),
    ensures
        model_inv(interrupt_step(s)),
        interrupt_step(s).listener == s.listener,
        interrupt_step(s).pc == s.pc,
{
}

/// Law (no lost wakeup, pending form): whenever a notification is pending
/// inside the wait window, the driver finishes the iteration within two of
/// its own steps — it never hangs in the spin loop.
pub proof fn lemma_no_lost_wakeup(s: ModelState)
    requires
        model_inv(s),
        in_wait_window(s),
        notification_pending(s),
    ensures
        reaches_done_within(s, 2),
{
    reveal_with_fuel(reaches_done_within, 3);
}

/// Law (no lost wakeup): an interrupt that fires at any point after the
/// first flag check and before the listener resolves leaves a pending
/// notification, and the driver then proceeds past the wait within two
/// steps.
pub proof fn lemma_interrupt_in_window_reaches_done(s: ModelState)
    requires
        model_inv(s),
        in_wait_window(s),
    ensures
        notification_pending(interrupt_step(s)),
        reaches_done_within(interrupt_step(s), 2),
{
    lemma_interrupt_step_preserves_inv(s);
    lemma_no_lost_wakeup(interrupt_step(s));
}

/// The state after running a schedule of steps from `s`: `true` entries are
/// driver steps, `false` entries interrupts preempting it.
pub open spec fn run_schedule(s: ModelState, sched: Seq<bool>) -> ModelState
    decreases sched.len(),
{
    if sched.len() == 0 {
        s
    } else if sched[0] {
        run_schedule(driver_step(s), sched.drop_first())
    } else {
        run_schedule(interrupt_step(s), sched.drop_first())
    }
}

/// How many driver steps a schedule contains.
pub open spec fn driver_steps_in(sched: Seq<bool>) -> nat
    decreases sched.len(),
{
    if sched.len() == 0 {
        0
    } else {
        (if sched[0] {
            1nat
        } else {
            0nat
        }) + driver_steps_in(sched.drop_first())
    }
}

/// The run from `s` under this schedule visits `Done` at some point — the
/// iteration completes.
pub open spec fn completes_under(s: ModelState, sched: Seq<bool>) -> bool
    decreases sched.len(),
{
    s.pc == DriverPc::Done || (sched.len() > 0 && (if sched[0] {
        completes_under(driver_step(s), sched.drop_first())
    } else {
        completes_under(interrupt_step(s), sched.drop_first())
    }))
}

/// How many driver steps a pending notification still needs before the
/// iteration completes, at worst.
pub open spec fn wait_rank(s: ModelState) -> nat {
    match s.pc {
        DriverPc::Register => 2,
        DriverPc::Recheck => 1,
        DriverPc::Spin => 1,
        _ => 0,
    }
}

/// The invariant holds in every state reachable from an invariant state,
/// under every interleaving of driver steps and interrupts.
pub proof fn lemma_inv_any_interleaving(s: ModelState, sched: Seq<bool>)
    requires
        model_inv(s),
    ensures
        model_inv(run_schedule(s, sched)),
    decreases sched.len(),
{
    if sched.len() > 0 {
        if sched[0] {
            lemma_driver_step_preserves_inv(s);
            lemma_inv_any_interleaving(driver_step(s), sched.drop_first());
        } else {
            lemma_interrupt_step_preserves_inv(s);
            lemma_inv_any_interleaving(interrupt_step(s), sched.drop_first());
        }
    }
}

/// Law (no lost wakeup, for any interleaving): once a notification is
/// pending inside the wait window, then under *every* schedule of driver
/// steps and further interrupts, the iteration completes by the time the
/// driver has taken `wait_rank` (at most two) of its own steps. Interrupts
/// preempting the driver anywhere cannot delay or derail it.
pub proof fn lemma_no_lost_wakeup_any_interleaving(s: ModelState, sched: Seq<bool>)
    requires
        model_inv(s),
        in_wait_window(s),
        notification_pending(s),
        driver_steps_in(sched) >= wait_rank(s),
    ensures
        completes_under(s, sched),
    decreases sched.len(),
{
    assert(wait_rank(s) >= 1);
    assert(sched.len() > 0);
    let rest = sched.drop_first();
    if sched[0] {
        let s1 = driver_step(s);
        lemma_driver_step_preserves_inv(s);
        assert(driver_steps_in(rest) + 1 == driver_steps_in(sched));
        if s1.pc == DriverPc::Done {
            assert(completes_under(s1, rest));
        } else {
            // One driver step spent; the rank dropped with it, and the
            // notification is still pending.
            assert(wait_rank(s1) < wait_rank(s));
            lemma_no_lost_wakeup_any_interleaving(s1, rest);
        }
        assert(completes_under(s, sched));
    } else {
        let s1 = interrupt_step(s);
        lemma_interrupt_step_preserves_inv(s);
        assert(driver_steps_in(rest) == driver_steps_in(sched));
        assert(wait_rank(s1) == wait_rank(s));
        lemma_no_lost_wakeup_any_interleaving(s1, rest);
        assert(completes_under(s, sched));
    }
}

/// Law (at-most-one resolution): a resolved listener is terminal. Under the
/// invariant it exists only with the iteration complete, and an interrupt
/// firing then neither revives it nor re-delivers a wake to it.
pub proof fn lemma_resolved_is_terminal(s: ModelState)
    requires
        model_inv(s),
        s.listener == ListenerState::Notified,
    ensures
        s.pc == DriverPc::Done,
        interrupt_step(s).listener == ListenerState::Notified,
        !interrupt_step(s).event.registered,
        !interrupt_step(s).event.woken,
{
}

/// Law (bounded wake count): a notification wakes at most `n` waiters, and
/// at most as many as are registered; with no waiter registered it is a
/// no-op on the registry.
pub proof fn lemma_bounded_wake(e: EventModel, n: nat)
    ensures
        notify_transition(e, n).1 <= n,
        !e.registered ==> notify_transition(e, n) == (e, 0nat),
{
}

} // verus!
