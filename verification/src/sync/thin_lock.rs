//! A lock of a counter in shared memory and a semaphore.
//!
//! The counter says how many threads hold the lock or wait for it. A thread takes the lock by adding
//! one: if the counter was zero the lock is its own, else it waits on the semaphore. A thread gives
//! the lock up by taking one away: if the counter was above one it releases the semaphore, so that
//! one of those that wait goes on.

use vstd::prelude::*;

verus! {

/// What a thread does after adding one to the counter.
#[derive(Clone, Copy, PartialEq, Eq, Structural, Debug)]
pub enum LockStep {
    /// The lock was free and is held now.
    Acquired,
    /// The lock is contested: it is held once a wait on the semaphore succeeds.
    Wait,
}

/// What a thread does after taking one from the counter.
#[derive(Clone, Copy, PartialEq, Eq, Structural, Debug)]
pub enum UnlockStep {
    /// The counter was not that of a held lock.
    Invalid,
    /// Nobody waits.
    Free,
    /// Somebody waits: the semaphore is to be released.
    Release,
}

/// Decides how to go on after adding one to the counter, on the value that it had before.
pub fn lock_step(previous: usize) -> (step: LockStep)
    ensures
        step == spec_lock_step(previous as int),
{
    match previous {
        0 => LockStep::Acquired,
        _ => LockStep::Wait,
    }
}

/// Decides how to go on after taking one from the counter, on the value that it had before.
pub fn unlock_step(previous: usize) -> (step: UnlockStep)
    ensures
        step == spec_unlock_step(previous as int),
{
    match previous {
        0 => UnlockStep::Invalid,
        1 => UnlockStep::Free,
        _ => UnlockStep::Release,
    }
}

/// How a thread goes on after adding one to a counter of this value.
pub open spec fn spec_lock_step(previous: int) -> LockStep {
    if previous == 0 {
        LockStep::Acquired
    } else {
        LockStep::Wait
    }
}

/// How a thread goes on after taking one from a counter of this value.
pub open spec fn spec_unlock_step(previous: int) -> UnlockStep {
    if previous == 0 {
        UnlockStep::Invalid
    } else if previous == 1 {
        UnlockStep::Free
    } else {
        UnlockStep::Release
    }
}

/// A lock with all threads that use it.
pub struct LockState {
    /// The counter in shared memory.
    pub counter: int,
    /// How many waits on the semaphore can succeed.
    pub semaphore: int,
    /// The threads that wait on the semaphore.
    pub waiting: Set<int>,
    /// The threads that hold the lock.
    pub holding: Set<int>,
    /// The threads that gave the lock up and have not released the semaphore yet.
    pub releasing: Set<int>,
}

/// One step of one thread.
pub enum ThreadStep {
    /// The thread adds one to the counter.
    Add(int),
    /// The wait of the thread on the semaphore succeeds.
    Wake(int),
    /// The thread takes one from the counter.
    Subtract(int),
    /// The thread releases the semaphore.
    Release(int),
}

impl LockState {
    /// A lock that nobody has used yet.
    pub open spec fn initial() -> LockState {
        LockState {
            counter: 0,
            semaphore: 0,
            waiting: Set::empty(),
            holding: Set::empty(),
            releasing: Set::empty(),
        }
    }

    /// What every reachable state keeps.
    pub open spec fn valid(self) -> bool {
        &&& self.waiting.finite() && self.holding.finite() && self.releasing.finite()
        &&& self.semaphore >= 0
        &&& self.counter == self.holding.len() + self.waiting.len()
        &&& self.counter == 0 ==> self.holding.len() + self.releasing.len() + self.semaphore == 0
        &&& self.counter > 0 ==> self.holding.len() + self.releasing.len() + self.semaphore == 1
    }

    /// Whether the thread takes part in nothing at the moment.
    pub open spec fn idle(self, a: int) -> bool {
        !self.waiting.contains(a) && !self.holding.contains(a) && !self.releasing.contains(a)
    }

    /// Whether a step can be taken.
    pub open spec fn enabled(self, step: ThreadStep) -> bool {
        match step {
            ThreadStep::Add(a) => self.idle(a),
            ThreadStep::Wake(a) => self.waiting.contains(a) && self.semaphore > 0,
            ThreadStep::Subtract(a) => self.holding.contains(a),
            ThreadStep::Release(a) => self.releasing.contains(a),
        }
    }

    /// The state after a step.
    pub open spec fn after(self, step: ThreadStep) -> LockState {
        match step {
            ThreadStep::Add(a) => match spec_lock_step(self.counter) {
                LockStep::Acquired => LockState {
                    counter: self.counter + 1,
                    holding: self.holding.insert(a),
                    ..self
                },
                LockStep::Wait => LockState {
                    counter: self.counter + 1,
                    waiting: self.waiting.insert(a),
                    ..self
                },
            },
            ThreadStep::Wake(a) => LockState {
                semaphore: self.semaphore - 1,
                waiting: self.waiting.remove(a),
                holding: self.holding.insert(a),
                ..self
            },
            ThreadStep::Subtract(a) => match spec_unlock_step(self.counter) {
                UnlockStep::Release => LockState {
                    counter: self.counter - 1,
                    holding: self.holding.remove(a),
                    releasing: self.releasing.insert(a),
                    ..self
                },
                _ => LockState { counter: self.counter - 1, holding: self.holding.remove(a), ..self },
            },
            ThreadStep::Release(a) => LockState {
                semaphore: self.semaphore + 1,
                releasing: self.releasing.remove(a),
                ..self
            },
        }
    }

    /// The state after a whole run of steps, or nothing where a step of it cannot be taken.
    pub open spec fn run(self, steps: Seq<ThreadStep>) -> Option<LockState>
        decreases steps.len(),
    {
        if steps.len() == 0 {
            Some(self)
        } else {
            match self.run(steps.drop_last()) {
                Some(s) => if s.enabled(steps.last()) {
                    Some(s.after(steps.last()))
                } else {
                    None
                },
                None => None,
            }
        }
    }
}

/// Every step of every thread keeps the lock in a valid state.
pub proof fn step_keeps_lock_valid(s: LockState, step: ThreadStep)
    requires
        s.valid(),
        s.enabled(step),
    ensures
        s.after(step).valid(),
{
    broadcast use vstd::set::group_set_axioms;

    match step {
        ThreadStep::Add(_) => {},
        ThreadStep::Wake(a) => {
            assert(!s.holding.contains(a)) by {
                assert(s.holding.len() == 0);
                assert(s.holding =~= Set::empty());
            }
            assert(s.waiting.len() > 0) by {
                assert(s.waiting.remove(a).len() < s.waiting.len());
            }
        },
        ThreadStep::Subtract(a) => {
            assert(s.holding.remove(a).len() < s.holding.len());
            assert(s.releasing.len() == 0);
            assert(s.releasing =~= Set::empty());
        },
        ThreadStep::Release(a) => {
            assert(s.releasing.remove(a).len() < s.releasing.len());
        },
    }
}

/// Whatever threads do with a new lock, in whatever order, it stays in a valid state.
pub proof fn every_reachable_lock_is_valid(steps: Seq<ThreadStep>)
    requires
        LockState::initial().run(steps) is Some,
    ensures
        LockState::initial().run(steps)->0.valid(),
    decreases steps.len(),
{
    if steps.len() > 0 {
        every_reachable_lock_is_valid(steps.drop_last());
        step_keeps_lock_valid(LockState::initial().run(steps.drop_last())->0, steps.last());
    }
}

/// At most one thread holds the lock.
pub proof fn lock_is_exclusive(s: LockState, a: int, b: int)
    requires
        s.valid(),
        s.holding.contains(a),
        s.holding.contains(b),
    ensures
        a == b,
{
    broadcast use vstd::set::group_set_axioms;

    if a != b {
        assert(s.holding.remove(a).contains(b));
        assert(s.holding.remove(a).remove(b).len() + 2 == s.holding.len());
    }
}

/// The semaphore never counts above one, so that releasing it never exceeds its limit.
pub proof fn semaphore_stays_in_bounds(s: LockState)
    requires
        s.valid(),
    ensures
        0 <= s.semaphore <= 1,
        s.releasing.len() > 0 ==> s.semaphore == 0,
{
}

/// A thread that gives up the lock never finds the counter invalid.
pub proof fn holder_never_finds_counter_invalid(s: LockState, a: int)
    requires
        s.valid(),
        s.holding.contains(a),
    ensures
        spec_unlock_step(s.counter) != UnlockStep::Invalid,
{
    broadcast use vstd::set::group_set_axioms;

    assert(s.holding.remove(a).len() < s.holding.len());
}

/// No wake-up is lost: as long as a thread waits, the lock is held, is about to be passed on, or can
/// be taken by one that waits.
pub proof fn no_wake_up_is_lost(s: LockState, a: int)
    requires
        s.valid(),
        s.waiting.contains(a),
    ensures
        s.holding.len() == 1 || s.releasing.len() == 1 || s.enabled(ThreadStep::Wake(a)),
{
    broadcast use vstd::set::group_set_axioms;

    assert(s.waiting.remove(a).len() < s.waiting.len());
}

} // verus!
