use irq_notify::driver::Driver;
use irq_notify::event::Event;
use irq_notify::event::Listener;
use irq_notify::event::PollStatus;
use irq_notify::event::RegisterError;
use irq_notify::flag::Flag;
use irq_notify::model::DriverPc;
use irq_notify::model::ListenerState;

#[test]
fn flag_starts_clear() {
    let mut f = Flag::new();
    assert_eq!(f.take(), false);
}

#[test]
fn flag_set_then_take() {
    let mut f = Flag::new();
    f.set();
    assert_eq!(f.take(), true);
    assert_eq!(f.take(), false);
}

#[test]
fn flag_repeated_set_is_idempotent() {
    // Two sets before a single take behave exactly as one set: true is
    // observed exactly once, then false.
    let mut once = Flag::new();
    once.set();
    let mut twice = Flag::new();
    twice.set();
    twice.set();
    assert_eq!(once.take(), true);
    assert_eq!(twice.take(), true);
    assert_eq!(once.take(), false);
    assert_eq!(twice.take(), false);
}

#[test]
fn flag_clear_discards() {
    let mut f = Flag::new();
    f.set();
    f.clear();
    assert_eq!(f.take(), false);
}

#[test]
fn notify_on_empty_registry_is_noop() {
    let mut ev = Event::new();
    assert_eq!(ev.notify(1), 0);
    assert_eq!(ev.has_waiter(), false);
    assert_eq!(ev.wake_pending(), false);
}

#[test]
fn notify_zero_wakes_nobody() {
    let mut ev = Event::new();
    let mut l = Listener::new();
    assert_eq!(l.poll(&mut ev), PollStatus::Pending);
    assert_eq!(ev.notify(0), 0);
    assert_eq!(ev.has_waiter(), true);
    assert_eq!(l.poll(&mut ev), PollStatus::Pending);
}

#[test]
fn notify_wakes_at_most_registered() {
    // Asking for five wakes with one waiter registered wakes exactly one.
    let mut ev = Event::new();
    let mut l = Listener::new();
    assert_eq!(l.poll(&mut ev), PollStatus::Pending);
    assert_eq!(ev.notify(5), 1);
    assert_eq!(ev.notify(5), 0);
}

#[test]
fn register_over_capacity_is_refused() {
    let mut ev = Event::new();
    assert_eq!(ev.register(), Ok(()));
    assert_eq!(ev.register(), Err(RegisterError::CapacityExceeded));
    // The refused registration left the registry as it was.
    assert_eq!(ev.has_waiter(), true);
}

#[test]
fn register_while_wake_in_flight_is_refused() {
    let mut ev = Event::new();
    let mut l = Listener::new();
    assert_eq!(l.poll(&mut ev), PollStatus::Pending);
    assert_eq!(ev.notify(1), 1);
    // The wake was delivered but not yet observed: the slot is still busy.
    assert_eq!(ev.register(), Err(RegisterError::CapacityExceeded));
}

#[test]
fn scenario_notify_is_not_retroactive() {
    // No waiter registered; a notification fires; a listener registering
    // afterwards reaches Registered, not Notified.
    let mut ev = Event::new();
    assert_eq!(ev.notify(1), 0);
    let mut l = Listener::new();
    assert_eq!(l.poll(&mut ev), PollStatus::Pending);
    assert_eq!(l.state(), ListenerState::Registered);
    assert_eq!(l.is_resolved(), false);
}

#[test]
fn scenario_registered_then_notified_resolves_next_poll() {
    // A registered listener whose event is notified resolves on the very
    // next poll, with no further spinning.
    let mut ev = Event::new();
    let mut l = Listener::new();
    assert_eq!(l.poll(&mut ev), PollStatus::Pending);
    assert_eq!(ev.notify(1), 1);
    assert_eq!(l.poll(&mut ev), PollStatus::Ready);
    assert_eq!(l.state(), ListenerState::Notified);
    assert_eq!(l.is_resolved(), true);
    // Resolution is one-shot: nothing is left registered or in flight.
    assert_eq!(ev.has_waiter(), false);
    assert_eq!(ev.wake_pending(), false);
    assert_eq!(ev.notify(1), 0);
}

#[test]
fn cancel_frees_the_slot() {
    let mut ev = Event::new();
    let mut l = Listener::new();
    assert_eq!(l.poll(&mut ev), PollStatus::Pending);
    l.cancel(&mut ev);
    assert_eq!(l.state(), ListenerState::Unregistered);
    assert_eq!(ev.has_waiter(), false);
    assert_eq!(ev.register(), Ok(()));
}

#[test]
fn driver_fast_path_skips_wait() {
    // The interrupt fires before the iteration's first check: the loop
    // observes the flag and never registers or spins.
    let mut d = Driver::new();
    assert_eq!(d.interrupt_fire(), 0);
    assert_eq!(d.step(), DriverPc::Done);
    assert_eq!(d.listener_state(), ListenerState::Unregistered);
}

#[test]
fn scenario_race_between_checks_is_caught() {
    // First check clear; the interrupt fires before the second check; the
    // loop observes true on the recheck and skips spinning.
    let mut d = Driver::new();
    assert_eq!(d.step(), DriverPc::Register);
    assert_eq!(d.interrupt_fire(), 0);
    assert_eq!(d.step(), DriverPc::Recheck);
    assert_eq!(d.step(), DriverPc::Done);
}

#[test]
fn interrupt_during_recheck_finishes_in_one_step() {
    let mut d = Driver::new();
    assert_eq!(d.step(), DriverPc::Register);
    assert_eq!(d.step(), DriverPc::Recheck);
    // The listener is registered by now, so the interrupt wakes it.
    assert_eq!(d.interrupt_fire(), 1);
    assert_eq!(d.step(), DriverPc::Done);
}

#[test]
fn interrupt_during_spin_resolves_next_poll() {
    // The loop is spinning; the interrupt fires; the very next poll
    // observes the wake and the iteration completes.
    let mut d = Driver::new();
    assert_eq!(d.step(), DriverPc::Register);
    assert_eq!(d.step(), DriverPc::Recheck);
    assert_eq!(d.step(), DriverPc::Spin);
    // Nothing has fired: polling stays pending, the loop keeps spinning.
    assert_eq!(d.step(), DriverPc::Spin);
    assert_eq!(d.step(), DriverPc::Spin);
    assert_eq!(d.interrupt_fire(), 1);
    assert_eq!(d.step(), DriverPc::Done);
    assert_eq!(d.listener_state(), ListenerState::Notified);
}

#[test]
fn driver_loops_back_with_fresh_listener() {
    let mut d = Driver::new();
    assert_eq!(d.step(), DriverPc::Register);
    assert_eq!(d.step(), DriverPc::Recheck);
    assert_eq!(d.step(), DriverPc::Spin);
    assert_eq!(d.interrupt_fire(), 1);
    assert_eq!(d.step(), DriverPc::Done);
    assert_eq!(d.step(), DriverPc::CheckFlag);
    assert_eq!(d.listener_state(), ListenerState::Unregistered);
    // A second full cycle works the same way.
    assert_eq!(d.step(), DriverPc::Register);
    assert_eq!(d.step(), DriverPc::Recheck);
    assert_eq!(d.step(), DriverPc::Spin);
    assert_eq!(d.interrupt_fire(), 1);
    assert_eq!(d.step(), DriverPc::Done);
}

#[test]
fn repeated_interrupts_wake_once_per_registration() {
    let mut d = Driver::new();
    assert_eq!(d.step(), DriverPc::Register);
    assert_eq!(d.step(), DriverPc::Recheck);
    assert_eq!(d.interrupt_fire(), 1);
    // The waiter already left the registry: further interrupts only
    // re-set the flag.
    assert_eq!(d.interrupt_fire(), 0);
    assert_eq!(d.interrupt_fire(), 0);
    assert_eq!(d.step(), DriverPc::Done);
}
