//! Mutexes of Windows in shared memory.
//!
//! In shared memory a mutex is a count of those who hold it or wait for it. Those who wait do so on a semaphore.

use crate::error::Error;
use crate::layout::{CACHE_LINE, USIZE_SIZE};
use crate::shm::SharedMemMap;
use crate::sync::thin_lock::{
    lock_step, spec_lock_step, spec_unlock_step, unlock_step, LockStep, UnlockStep,
};
use crate::sync::{PlatformMutex, PlatformMutexHandle};
use crate::windows::handles::{SendableWinHandle, WinHandle};
use vstd::prelude::*;

verus! {

/// The number of bytes of shared memory that a mutex takes.
pub const MUTEX_SHM_SIZE: usize = CACHE_LINE;

/// A mutex in mapped memory.
#[derive(PartialEq, Eq, Structural, Debug)]
pub struct Mutex {
    pub mem: SharedMemMap,
    /// The place of the mutex in the shared memory object.
    pub raw_offset: usize,
    /// The address of the count.
    pub atomic: usize,
    pub semaphore: WinHandle,
}

/// Holds a mutex.
#[derive(Debug)]
pub struct MutexGuard<'a> {
    pub mutex: &'a Mutex,
}

/// What can go wrong when a mutex is given up.
#[derive(Clone, Copy, PartialEq, Eq, Structural, Debug)]
pub enum MutexProblem {
    /// The count in shared memory was not that of a held mutex.
    InvalidState,
    /// The semaphore could not be released.
    NotReleased,
}

/// A handle to a mutex.
#[derive(PartialEq, Eq, Structural, Debug)]
pub struct MutexHandle {
    pub semaphore: SendableWinHandle<WinHandle>,
    pub raw_offset: usize,
}

/// What is asked of the operating system to make a mutex: a count to be stored, and a semaphore.
#[derive(Clone, Copy, PartialEq, Eq, Structural, Debug)]
pub struct MutexRequest {
    pub mem: SharedMemMap,
    pub raw_offset: usize,
    /// The address at which the count is to be stored.
    pub atomic: usize,
    /// The count to be stored.
    pub count: usize,
    /// How many times the semaphore can be waited for at first.
    pub semaphore_count: i32,
    /// How many times the semaphore can be waited for at most.
    pub semaphore_max: i32,
}

/// A mutex can live at this place.
pub open spec fn placeable(memory: SharedMemMap, offset: usize) -> bool {
    &&& memory.valid()
    &&& offset + MUTEX_SHM_SIZE <= memory.region.len
    &&& (memory.region.pointer + offset) % USIZE_SIZE as int == 0
}

impl PlatformMutex for Mutex {
    open spec fn spec_shm_size() -> usize {
        MUTEX_SHM_SIZE
    }

    fn shm_size() -> (size: usize) {
        MUTEX_SHM_SIZE
    }

    open spec fn spec_memory(&self) -> SharedMemMap {
        self.mem
    }

    fn memory(&self) -> (memory: SharedMemMap) {
        self.mem
    }
}

impl PlatformMutexHandle for MutexHandle {
    open spec fn spec_raw_offset(&self) -> usize {
        self.raw_offset
    }

    fn raw_offset(&self) -> (offset: usize) {
        self.raw_offset
    }
}

impl Mutex {
    /// What to ask of the operating system to make a mutex at a place in mapped memory. The mutex is free.
    pub fn new_with_memory(memory: SharedMemMap, offset: usize) -> (request: MutexRequest)
        requires
            placeable(memory, offset),
        ensures
            request == (MutexRequest {
                mem: memory,
                raw_offset: (memory.region.offset + offset) as usize,
                atomic: (memory.region.pointer + offset) as usize,
                count: 0,
                semaphore_count: 0,
                semaphore_max: 1,
            }),
            request.atomic == memory.region.pointer + offset,
            request.raw_offset == memory.region.offset + offset,
    {
        MutexRequest {
            mem: memory,
            raw_offset: memory.offset() + offset,
            atomic: memory.pointer() + offset,
            count: 0,
            semaphore_count: 0,
            semaphore_max: 1,
        }
    }

    /// Refers to a mutex that exists at a place in mapped memory.
    pub fn from_handle(handle: MutexHandle, memory: SharedMemMap, offset: usize) -> (mutex: Mutex)
        requires
            placeable(memory, offset),
        ensures
            mutex.mem == memory,
            mutex.raw_offset == handle.raw_offset,
            mutex.atomic == memory.region.pointer + offset,
            mutex.semaphore == handle.semaphore.0,
    {
        Mutex {
            mem: memory,
            raw_offset: handle.raw_offset,
            atomic: memory.pointer() + offset,
            semaphore: handle.semaphore.0,
        }
    }

    /// A handle to the mutex, from what came of duplicating the handle to its semaphore.
    pub fn handle(&self, semaphore: Result<WinHandle, Error>) -> (handle: Result<MutexHandle, Error>)
        ensures
            handle == match semaphore {
                Ok(semaphore) => Ok::<MutexHandle, Error>(
                    MutexHandle { semaphore: SendableWinHandle(semaphore), raw_offset: self.raw_offset },
                ),
                Err(e) => Err(e),
            },
    {
        match semaphore {
            Ok(semaphore) => Ok(MutexHandle { semaphore: SendableWinHandle(semaphore), raw_offset: self.raw_offset }),
            Err(e) => Err(e),
        }
    }
}

impl Mutex {
    /// Takes the mutex. `increment` adds one to the count at an address and gives what it was, and `wait` waits for a
    /// semaphore, which is done just where the mutex was not free.
    pub fn lock<'a, A: FnOnce(usize) -> usize, W: FnOnce(&WinHandle)>(
        &'a self,
        increment: A,
        wait: W,
    ) -> (guard: MutexGuard<'a>)
        requires
            increment.requires((self.atomic,)),
            forall|previous: usize| #[trigger]
                increment.ensures((self.atomic,), previous) && spec_lock_step(previous as int) == LockStep::Wait
                    ==> wait.requires((&self.semaphore,)),
        ensures
            guard.mutex == self,
            exists|previous: usize| #[trigger]
                increment.ensures((self.atomic,), previous) && (spec_lock_step(previous as int) == LockStep::Wait
                    ==> wait.ensures((&self.semaphore,), ())),
    {
        match lock_step(increment(self.atomic)) {
            LockStep::Acquired => {},
            LockStep::Wait => {
                wait(&self.semaphore);
            },
        }
        MutexGuard { mutex: self }
    }
}

impl<'a> MutexGuard<'a> {
    /// The mutex was given up, with this outcome: one was taken from the count, and the semaphore was released for
    /// one of those who wait, if anybody does.
    pub open spec fn given_up<S: FnOnce(usize) -> usize, R: FnOnce(&WinHandle) -> bool>(
        self,
        decrement: S,
        release: R,
        previous: usize,
        problem: Option<MutexProblem>,
    ) -> bool {
        &&& decrement.ensures((self.mutex.atomic,), previous)
        &&& match spec_unlock_step(previous as int) {
            UnlockStep::Invalid => problem == Some(MutexProblem::InvalidState),
            UnlockStep::Free => problem is None,
            UnlockStep::Release => match problem {
                None => release.ensures((&self.mutex.semaphore,), true),
                Some(p) => p == MutexProblem::NotReleased && release.ensures((&self.mutex.semaphore,), false),
            },
        }
    }

    /// Gives up the guard: what went wrong, if anything. Only a holder that panics already goes on after that.
    ///
    /// `decrement` takes one from the count at an address and gives what it was, and `release` releases a semaphore
    /// once, or fails to.
    pub fn release<S: FnOnce(usize) -> usize, R: FnOnce(&WinHandle) -> bool>(
        self,
        decrement: S,
        release: R,
        panicking: bool,
    ) -> (problem: Option<MutexProblem>)
        requires
            decrement.requires((self.mutex.atomic,)),
            forall|previous: usize| #[trigger]
                decrement.ensures((self.mutex.atomic,), previous) && spec_unlock_step(previous as int)
                    == UnlockStep::Release ==> release.requires((&self.mutex.semaphore,)),
            !panicking ==> !decrement.ensures((self.mutex.atomic,), 0) && !release.ensures(
                (&self.mutex.semaphore,),
                false,
            ),
        ensures
            exists|previous: usize| #[trigger] self.given_up(decrement, release, previous, problem),
            problem is Some ==> panicking,
    {
        let previous: usize = decrement(self.mutex.atomic);
        let problem = match unlock_step(previous) {
            UnlockStep::Invalid => Some(MutexProblem::InvalidState),
            UnlockStep::Free => None,
            UnlockStep::Release => if release(&self.mutex.semaphore) {
                None
            } else {
                Some(MutexProblem::NotReleased)
            },
        };
        assert(self.given_up(decrement, release, previous, problem));
        problem
    }
}

impl MutexRequest {
    /// The mutex, from what came of the request for its semaphore.
    pub fn made(self, semaphore: Result<WinHandle, Error>) -> (mutex: Result<Mutex, Error>)
        ensures
            mutex == match semaphore {
                Ok(semaphore) => Ok::<Mutex, Error>(
                    Mutex { mem: self.mem, raw_offset: self.raw_offset, atomic: self.atomic, semaphore },
                ),
                Err(e) => Err(e),
            },
    {
        match semaphore {
            Ok(semaphore) => Ok(
                Mutex { mem: self.mem, raw_offset: self.raw_offset, atomic: self.atomic, semaphore },
            ),
            Err(e) => Err(e),
        }
    }
}

} // verus!
