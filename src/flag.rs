//! The flag itself: a shared fired bit and a one-waker slot.
use std::sync::atomic::{AtomicBool, Ordering};
use std::sync::Arc;
use std::task::Waker;

use futures::task::AtomicWaker;
use vstd::prelude::*;

use crate::protocol::Phase;

verus! {

/// A task's handle for waking it, from std.
#[verifier::external_type_specification]
#[verifier::external_body]
pub struct ExWaker(Waker);

/// futures' one-waker slot, safe to fill and empty from different tasks.
#[verifier::external_type_specification]
#[verifier::external_body]
pub struct ExAtomicWaker(AtomicWaker);

/// Relies on futures' `AtomicWaker::new`: an empty slot.
pub assume_specification[ AtomicWaker::new ]() -> AtomicWaker;

/// Relies on futures' `AtomicWaker::register`: puts a clone of the waker in
/// the slot, in place of any earlier one.
pub assume_specification[ AtomicWaker::register ](slot: &AtomicWaker, waker: &Waker);

/// Relies on futures' `AtomicWaker::wake`: takes the waker out of the slot, if
/// one is there, and wakes it.
pub assume_specification[ AtomicWaker::wake ](slot: &AtomicWaker);

struct Inner {
    waker: AtomicWaker,
    set: AtomicBool,
}

/// A single-shot event that one task waits on and another signals.
///
/// Every clone refers to the same state. The wait follows the protocol of
/// `crate::protocol`: read the fired bit, register the waker, read it again.
/// The bit and the slot are shared with other tasks, so the contracts here
/// say nothing of what they hold; `crate::protocol` proves the protocol.
pub struct Flag {
    inner: Arc<Inner>,
    id: Ghost<nat>,
}

impl Clone for Flag {
    fn clone(&self) -> (r: Flag)
        ensures
            r.id() == self.id(),
    {
        Flag { inner: self.inner.clone(), id: self.id }
    }
}

impl Flag {
    /// Which flag this is: clones share it, and a registry gives each flag it
    /// makes one of its own.
    pub closed spec fn id(self) -> nat {
        self.id@
    }

    /// A new flag, unfired and with no waker registered.
    pub fn new() -> (r: Flag) {
        Flag::with_id(Ghost(0))
    }

    /// A new flag with the identity `id`.
    pub(crate) fn with_id(id: Ghost<nat>) -> (r: Flag)
        ensures
            r.id() == id@,
    {
        Flag {
            inner: Arc::new(Inner { waker: AtomicWaker::new(), set: AtomicBool::new(false) }),
            id,
        }
    }

    /// Fires the flag and wakes the registered waker, if any. Signaling a
    /// flag that has already fired does nothing more.
    pub fn signal(&self) {
        self.inner.set.store(true, Ordering::Relaxed);
        self.inner.waker.wake();
    }

    /// One poll of the flag on behalf of the task that `waker` wakes: returns
    /// `Phase::Ready` when the wait is over, and `Phase::Pending` once the
    /// waker is registered and the flag was still unfired after that.
    pub fn poll_phase(&self, waker: &Waker) -> (r: Phase)
        ensures
            r == Phase::Ready || r == Phase::Pending,
    {
        let phase = Phase::after_check(self.inner.set.load(Ordering::Relaxed));
        match phase {
            Phase::Register => {
                self.inner.waker.register(waker);
                Phase::after_recheck(self.inner.set.load(Ordering::Relaxed))
            },
            _ => phase,
        }
    }
}

} // verus!
