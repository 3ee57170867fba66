//! An interrupt-to-task notification bridge.
//!
//! A single cooperatively scheduled main-loop task must suspend until an
//! external interrupt fires, without ever losing a notification that arrives
//! in the window between checking for work and registering to be woken.
//!
//! The pieces, leaves first:
//! - [`flag::Flag`]: a shared boolean, atomically set by the producer and
//!   read-and-cleared by the consumer; the fast-path "work already happened"
//!   short circuit.
//! - [`event::Event`] and [`event::Listener`]: a capacity-one notification
//!   broadcaster and its one-shot waiter.
//! - [`driver::Driver`]: the double-check-then-register-then-spin poll loop
//!   that drives a listener to completion, together with the interrupt
//!   producer's step.
//! - [`model`]: the transition system that the executable code refines, and
//!   the proofs that no interleaving of interrupt and loop loses a wakeup.

pub mod driver;
pub mod event;
pub mod flag;
pub mod model;
