//! The shared flag: one bit of cross-context state.
//!
//! The interrupt producer sets it; the consumer tests-and-clears it in one
//! atomic step. A `true` value means "at least one notification occurred since
//! the last clear"; setting it again before a clear changes nothing more.

use vstd::prelude::*;

verus! {

/// The value held by a `portable_atomic::AtomicBool`.
///
/// The atomic is opaque to the verifier; this names its contents, and the
/// wrappers below say how `new`, `store` and `swap` act on it. With the
/// atomic held exclusively (`&mut`), those calls are the only way its value
/// changes.
pub uninterp spec fn atomic_bool_value(a: portable_atomic::AtomicBool) -> bool;

/// Declares `portable_atomic::AtomicBool` to the verifier, as an opaque
/// type, so that the flag can hold one.
#[verifier::external_type_specification]
#[verifier::external_body]
pub struct ExAtomicBool(portable_atomic::AtomicBool);

/// Relies on `portable_atomic::AtomicBool::new`: the atomic starts out
/// holding the given value.
#[verifier::external_body]
fn atomic_bool_new(v: bool) -> (r: portable_atomic::AtomicBool)
    ensures
        atomic_bool_value(r) == v,
{
    portable_atomic::AtomicBool::new(v)
}

/// Relies on `portable_atomic::AtomicBool::store`: after the call the atomic
/// holds the given value. Sequentially consistent, so a producer's `store`
/// is ordered with the consumer's `swap`.
#[verifier::external_body]
fn atomic_bool_store(a: &mut portable_atomic::AtomicBool, v: bool)
    ensures
        atomic_bool_value(*final(a)) == v,
{
    a.store(v, portable_atomic::Ordering::SeqCst);
}

/// Relies on `portable_atomic::AtomicBool::swap`: stores the given value and
/// returns the previous one, in a single atomic step. Sequentially
/// consistent.
#[verifier::external_body]
fn atomic_bool_swap(a: &mut portable_atomic::AtomicBool, v: bool) -> (r: bool)
    ensures
        r == atomic_bool_value(*old(a)),
        atomic_bool_value(*final(a)) == v,
{
    a.swap(v, portable_atomic::Ordering::SeqCst)
}

/// What `set` leaves in the flag: `true`, whatever was there before.
pub open spec fn flag_after_set(b: bool) -> bool {
    true
}

/// What `take` returns and leaves: the old value comes out, `false` stays.
pub open spec fn flag_after_take(b: bool) -> (bool, bool) {
    (b, false)
}

/// The missed-wakeup guard: a single shared boolean.
pub struct Flag {
    inner: portable_atomic::AtomicBool,
}

impl Flag {
    /// Whether the flag is currently set.
    pub closed spec fn is_set(&self) -> bool {
        atomic_bool_value(self.inner)
    }

    /// A fresh, clear flag.
    pub fn new() -> (r: Flag)
        ensures
            !r.is_set(),
    {
        Flag { inner: atomic_bool_new(false) }
    }

    /// Atomically store `true`. Callable from any context; never blocks.
    pub fn set(&mut self)
        ensures
            final(self).is_set() == flag_after_set(old(self).is_set()),
    {
        atomic_bool_store(&mut self.inner, true);
    }

    /// Atomically store `false`, discarding any pending notification; the
    /// consumer's defensive clear after a wakeup has been consumed.
    pub fn clear(&mut self)
        ensures
            !final(self).is_set(),
    {
        atomic_bool_store(&mut self.inner, false);
    }

    /// Atomically store `false` and return the previous value: the
    /// consumer's test-and-clear, in one step.
    pub fn take(&mut self) -> (r: bool)
        ensures
            (r, final(self).is_set()) == flag_after_take(old(self).is_set()),
    {
        atomic_bool_swap(&mut self.inner, false)
    }
}

/// Law: repeated `set` calls before a single `take` behave exactly as one
/// `set` does — the flag holds the same value after two sets as after one,
/// and the following `take` observes `true` exactly once, then `false`.
pub proof fn lemma_flag_set_idempotent(b: bool)
    ensures
        flag_after_set(flag_after_set(b)) == flag_after_set(b),
        flag_after_take(flag_after_set(b)) == (true, false),
        flag_after_take(flag_after_take(flag_after_set(b)).1) == (false, false),
{
}

} // verus!
