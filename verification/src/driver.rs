//! The single-task poll loop and the interrupt producer's step.
//!
//! A [`Driver`] owns the shared flag and event and the one listener, and
//! advances one atomic protocol step at a time, so that a caller can
//! interleave [`Driver::interrupt_fire`] — the producer preempting the loop
//! — between any two steps. Each step is proved to be exactly the
//! corresponding transition of [`crate::model`], so the model's lemmas (no
//! lost wakeup among them) hold of this code.

use vstd::prelude::*;

use crate::event::Event;
use crate::event::Listener;
use crate::event::PollStatus;
use crate::flag::Flag;
use crate::model::DriverPc;
use crate::model::ListenerState;
use crate::model::ModelState;
use crate::model::driver_step;
use crate::model::init_state;
use crate::model::interrupt_step;
use crate::model::lemma_driver_step_preserves_inv;
use crate::model::lemma_interrupt_step_preserves_inv;
use crate::model::model_inv;
use crate::model::notify_transition;

verus! {

/// The whole bridge: flag, event, the current iteration's listener, and the
/// loop's position.
pub struct Driver {
    flag: Flag,
    event: Event,
    listener: Listener,
    pc: DriverPc,
}

impl Driver {
    /// The system as the model sees it.
    pub closed spec fn model(&self) -> ModelState {
        ModelState {
            flag: self.flag.is_set(),
            event: self.event@,
            listener: self.listener@,
            pc: self.pc,
        }
    }

    /// The driver is in a state the protocol can reach.
    pub open spec fn wf(&self) -> bool {
        model_inv(self.model())
    }

    /// A fresh bridge: flag clear, registry empty, fresh listener, the loop
    /// at the top of an iteration.
    pub fn new() -> (r: Driver)
        ensures
            r.wf(),
            r.model() == init_state(),
    {
        Driver {
            flag: Flag::new(),
            event: Event::new(),
            listener: Listener::new(),
            pc: DriverPc::CheckFlag,
        }
    }

    /// Where the loop stands.
    pub fn pc(&self) -> (r: DriverPc)
        ensures
            r == self.model().pc,
    {
        self.pc
    }

    /// Where the current iteration's listener stands.
    pub fn listener_state(&self) -> (r: ListenerState)
        ensures
            r == self.model().listener,
    {
        self.listener.state()
    }

    /// The interrupt producer's whole step, run to completion wherever it
    /// preempts the loop: set the flag, then notify one waiter. Returns how
    /// many waiters were woken (at most the one asked for).
    pub fn interrupt_fire(&mut self) -> (woken: usize)
        requires
            old(self).wf(),
        ensures
            final(self).wf(),
            final(self).model() == interrupt_step(old(self).model()),
            woken as nat == notify_transition(old(self).model().event, 1).1,
            woken <= 1,
    {
        proof {
            lemma_interrupt_step_preserves_inv(self.model());
        }
        self.flag.set();
        self.event.notify(1)
    }

    /// One atomic step of the loop at its current position: the
    /// double-check-then-register-then-spin protocol. Returns the position
    /// reached. The caller performs the iteration's observable side effect
    /// before the step taken at the top of an iteration, and re-calls from
    /// `Spin` until the listener resolves.
    pub fn step(&mut self) -> (pc: DriverPc)
        requires
            old(self).wf(),
        ensures
            final(self).wf(),
            final(self).model() == driver_step(old(self).model()),
            pc == final(self).model().pc,
    {
        proof {
            lemma_driver_step_preserves_inv(self.model());
        }
        match self.pc {
            DriverPc::CheckFlag => {
                if self.flag.take() {
                    // Already notified this cycle: skip the wait.
                    self.pc = DriverPc::Done;
                } else {
                    self.pc = DriverPc::Register;
                }
            },
            DriverPc::Register => {
                let r = self.listener.poll(&mut self.event);
                self.pc = DriverPc::Recheck;
            },
            DriverPc::Recheck => {
                if self.flag.take() {
                    // A notification raced in since the first check:
                    // abandon the wait rather than spin for a wake that the
                    // flag already carried.
                    self.listener.cancel(&mut self.event);
                    self.pc = DriverPc::Done;
                } else {
                    self.pc = DriverPc::Spin;
                }
            },
            DriverPc::Spin => {
                match self.listener.poll(&mut self.event) {
                    PollStatus::Ready => {
                        // Resolved: clear the flag defensively and finish
                        // the iteration.
                        self.flag.clear();
                        self.pc = DriverPc::Done;
                    },
                    PollStatus::Pending => {},
                }
            },
            DriverPc::Done => {
                // The resolved or abandoned listener is dropped; the next
                // iteration starts with a fresh one.
                self.listener = Listener::new();
                self.pc = DriverPc::CheckFlag;
            },
        }
        self.pc
    }
}

} // verus!
