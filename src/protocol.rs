//! The flag's wait protocol (check, register, re-check) as plain values.
//!
//! `FlagState` holds one flag together with the one task that waits on it.
//! The task moves through `Phase`s one step at a time, and a signal may come
//! between any two of its steps. A signal is one step: under cooperative
//! scheduling no task suspends inside it. The proofs here show that whatever
//! the interleaving, a fired flag lets its task complete.
use vstd::prelude::*;

verus! {

/// Where the waiting task stands within a poll of the flag.
#[derive(Clone, Copy, Debug, PartialEq, Eq, Structural)]
pub enum Phase {
    /// About to read the fired bit for the first time.
    Check,
    /// Found the flag unfired; about to put its waker in the flag's slot.
    Register,
    /// Registered; about to read the fired bit once more.
    Recheck,
    /// The wait has completed.
    Ready,
    /// Suspended: the task runs again only once it is woken.
    Pending,
}

impl Phase {
    /// The phase that follows the first read of the fired bit.
    pub fn after_check(fired: bool) -> (r: Phase)
        ensures
            r == (if fired { Phase::Ready } else { Phase::Register }),
    {
        if fired {
            Phase::Ready
        } else {
            Phase::Register
        }
    }

    /// The phase that follows the read of the fired bit made after registering.
    pub fn after_recheck(fired: bool) -> (r: Phase)
        ensures
            r == (if fired { Phase::Ready } else { Phase::Pending }),
    {
        if fired {
            Phase::Ready
        } else {
            Phase::Pending
        }
    }
}

/// One flag and the one task that waits on it.
#[derive(Clone, Copy, Debug, PartialEq, Eq, Structural)]
pub struct FlagState {
    /// The flag has been signaled.
    pub fired: bool,
    /// A waker sits in the flag's slot.
    pub registered: bool,
    /// A wake reached the task since it last began a poll.
    pub woken: bool,
    /// Where the task stands.
    pub phase: Phase,
}

impl FlagState {
    /// The state right after the flag is made: unfired, nobody registered,
    /// and the task about to poll.
    pub open spec fn initial() -> FlagState {
        FlagState { fired: false, registered: false, woken: false, phase: Phase::Check }
    }

    /// A signal: set the fired bit, then take the registered waker, if any,
    /// and wake it.
    pub open spec fn signaled(self) -> FlagState {
        FlagState {
            fired: true,
            registered: false,
            woken: self.woken || self.registered,
            phase: self.phase,
        }
    }

    /// One step of the waiting task. A suspended task that was woken is
    /// polled again from the start; one that was not stays suspended.
    pub open spec fn stepped(self) -> FlagState {
        match self.phase {
            Phase::Check => FlagState {
                woken: false,
                phase: if self.fired { Phase::Ready } else { Phase::Register },
                ..self
            },
            Phase::Register => FlagState { registered: true, phase: Phase::Recheck, ..self },
            Phase::Recheck => FlagState {
                phase: if self.fired { Phase::Ready } else { Phase::Pending },
                ..self
            },
            Phase::Pending => if self.woken {
                FlagState { phase: Phase::Check, ..self }
            } else {
                self
            },
            Phase::Ready => self,
        }
    }

    /// What holds in every state that polls and signals can reach.
    pub open spec fn inv(self) -> bool {
        &&& self.phase == Phase::Recheck ==> self.registered || self.fired
        &&& self.phase == Phase::Pending ==> (self.registered && !self.fired) || (
        self.fired && self.woken)
    }

    /// The state after a sequence of events, where `true` is a signal and
    /// `false` one step of the waiting task.
    pub open spec fn run(self, events: Seq<bool>) -> FlagState
        decreases events.len(),
    {
        if events.len() == 0 {
            self
        } else {
            let next = if events[0] {
                self.signaled()
            } else {
                self.stepped()
            };
            next.run(events.drop_first())
        }
    }

    /// A fresh flag whose task is about to poll.
    pub fn new() -> (r: FlagState)
        ensures
            r == FlagState::initial(),
    {
        FlagState { fired: false, registered: false, woken: false, phase: Phase::Check }
    }

    /// Signals the flag.
    pub fn signal(&mut self)
        ensures
            *final(self) == old(self).signaled(),
    {
        self.woken = self.woken || self.registered;
        self.registered = false;
        self.fired = true;
    }

    /// Takes one step of the waiting task.
    pub fn step(&mut self)
        ensures
            *final(self) == old(self).stepped(),
    {
        match self.phase {
            Phase::Check => {
                self.woken = false;
                self.phase = Phase::after_check(self.fired);
            },
            Phase::Register => {
                self.registered = true;
                self.phase = Phase::Recheck;
            },
            Phase::Recheck => {
                self.phase = Phase::after_recheck(self.fired);
            },
            Phase::Pending => {
                if self.woken {
                    self.phase = Phase::Check;
                }
            },
            Phase::Ready => {},
        }
    }

    /// The wait has completed.
    pub fn is_ready(&self) -> (r: bool)
        ensures
            r == (self.phase == Phase::Ready),
    {
        match self.phase {
            Phase::Ready => true,
            _ => false,
        }
    }
}

/// A fresh flag satisfies the invariant, and each signal and each step of the
/// waiting task keeps it.
pub proof fn lemma_inv_inductive(s: FlagState)
    ensures
        FlagState::initial().inv(),
        s.inv() ==> s.signaled().inv(),
        s.inv() ==> s.stepped().inv(),
{
}

/// Every state reached from a fresh flag satisfies the invariant.
pub proof fn lemma_run_keeps_inv(s: FlagState, events: Seq<bool>)
    requires
        s.inv(),
    ensures
        s.run(events).inv(),
    decreases events.len(),
{
    lemma_inv_inductive(s);
    if events.len() > 0 {
        let next = if events[0] {
            s.signaled()
        } else {
            s.stepped()
        };
        lemma_run_keeps_inv(next, events.drop_first());
    }
}

/// No wakeup is lost: whatever interleaving of signals and poll steps has
/// happened since the flag was made, once the flag has fired its task
/// completes within two more steps of its own.
pub proof fn lemma_no_lost_wakeup(events: Seq<bool>)
    ensures
        FlagState::initial().run(events).fired ==> FlagState::initial().run(
            events,
        ).stepped().stepped().phase == Phase::Ready,
{
    lemma_inv_inductive(FlagState::initial());
    lemma_run_keeps_inv(FlagState::initial(), events);
}

/// Signaling twice has the same effect as signaling once.
pub proof fn lemma_signal_idempotent(s: FlagState)
    ensures
        s.signaled().signaled() == s.signaled(),
{
}

/// Once fired, a flag stays fired, through any further signals and steps.
pub proof fn lemma_fired_monotone(s: FlagState, events: Seq<bool>)
    requires
        s.fired,
    ensures
        s.run(events).fired,
    decreases events.len(),
{
    if events.len() > 0 {
        let next = if events[0] {
            s.signaled()
        } else {
            s.stepped()
        };
        lemma_fired_monotone(next, events.drop_first());
    }
}

/// A task that polls a flag already fired completes at its first read,
/// without registering.
pub proof fn lemma_fast_path(s: FlagState)
    requires
        s.phase == Phase::Check,
        s.fired,
    ensures
        s.stepped().phase == Phase::Ready,
        s.stepped().registered == s.registered,
{
}

} // verus!
