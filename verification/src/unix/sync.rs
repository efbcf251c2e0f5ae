//! Mutexes of the POSIX threads library in shared memory.
//!
//! In shared memory a mutex is a count of those who refer to it, and behind it the mutex of the
//! operating system. Whoever gives up the last reference destroys the mutex.

use crate::error::Error;
use crate::layout::USIZE_SIZE;
use crate::shm::SharedMemMap;
use crate::step::Step;
use crate::sync::{placement_fault, spec_mutex_shm_size, PlatformMutex, PlatformMutexHandle};
use vstd::prelude::*;

verus! {

/// The number of bytes of shared memory that a mutex takes. The size of the mutex of the operating
/// system is particular to the platform, so this is a bound.
pub const MUTEX_SHM_SIZE: usize = 128;

/// The greatest number of bytes that the mutex of the operating system may take.
pub const PTHREAD_MUTEX_SIZE_BOUND: usize = MUTEX_SHM_SIZE - USIZE_SIZE;

/// A mutex in mapped memory.
#[derive(Clone, Copy, PartialEq, Eq, Structural, Debug)]
pub struct Mutex {
    pub mem: SharedMemMap,
    /// The place of the mutex in the shared memory object.
    pub raw_offset: usize,
    /// The address of the count of references.
    pub refcount: usize,
    /// The address of the mutex of the operating system.
    pub pthread_mutex: usize,
}

/// A handle to a mutex.
#[derive(Clone, Copy, PartialEq, Eq, Structural, Debug)]
pub struct MutexHandle {
    pub raw_offset: usize,
}

/// The making of a mutex.
#[derive(Clone, Copy, PartialEq, Eq, Structural, Debug)]
pub enum Initialization {
    /// The count of references is to be set to one.
    Count(Mutex),
    /// The attributes of a mutex are to be made.
    Attributes(Mutex),
    /// They are to say that the mutex is shared between processes.
    Share(Mutex),
    /// The mutex is to be made, with these attributes.
    Mutex(Mutex),
    /// The attributes are to be destroyed.
    Cleanup(Mutex),
}

/// A call that the making of a mutex makes.
#[derive(Clone, Copy, PartialEq, Eq, Structural, Debug)]
pub enum InitializationCall {
    /// Store a count at an address.
    StoreCount { address: usize, count: usize },
    InitAttributes,
    ShareAttributes,
    InitMutex { address: usize },
    DestroyAttributes,
}

/// The count of references of a mutex that was just made.
pub const FIRST_REFERENCE: usize = 1;

/// What happens to the count of references of a mutex.
#[derive(Clone, Copy, PartialEq, Eq, Structural, Debug)]
pub enum CountChange {
    /// A reference is taken: the count rises by one.
    Acquire,
    /// A reference is given up: the count falls by one.
    Release,
}

/// A change to the count of references at an address.
#[derive(Clone, Copy, PartialEq, Eq, Structural, Debug)]
pub struct CountUpdate {
    pub address: usize,
    pub change: CountChange,
}

impl CountChange {
    /// The count after the change.
    pub open spec fn applied(self, count: int) -> int {
        match self {
            CountChange::Acquire => count + 1,
            CountChange::Release => count - 1,
        }
    }
}

/// A mutex of the operating system of `pthread_mutex_size` bytes can live at this place.
pub open spec fn placeable(memory: SharedMemMap, offset: usize, pthread_mutex_size: usize) -> bool {
    &&& memory.valid()
    &&& offset + MUTEX_SHM_SIZE <= memory.region.len
    &&& (memory.region.pointer + offset) % USIZE_SIZE as int == 0
    &&& pthread_mutex_size <= PTHREAD_MUTEX_SIZE_BOUND
}

/// The mutex at this place.
pub open spec fn placed(memory: SharedMemMap, offset: usize, raw_offset: usize) -> Mutex {
    Mutex {
        mem: memory,
        raw_offset,
        refcount: (memory.region.pointer + offset) as usize,
        pthread_mutex: (memory.region.pointer + offset + USIZE_SIZE) as usize,
    }
}

impl PlatformMutex for Mutex {
    open spec fn spec_shm_size() -> usize {
        MUTEX_SHM_SIZE
    }

    fn shm_size() -> (size: usize) {
        MUTEX_SHM_SIZE
    }

    open spec fn spec_memory(&self) -> SharedMemMap {
        self.mem
    }

    fn memory(&self) -> (memory: SharedMemMap) {
        self.mem
    }
}

impl PlatformMutexHandle for MutexHandle {
    open spec fn spec_raw_offset(&self) -> usize {
        self.raw_offset
    }

    fn raw_offset(&self) -> (offset: usize) {
        self.raw_offset
    }
}

impl Mutex {
    /// The mutex lies within its mapping, the count in front of what the operating system uses.
    pub open spec fn valid(&self) -> bool {
        &&& self.mem.valid()
        &&& self.mem.region.pointer <= self.refcount
        &&& self.refcount % USIZE_SIZE == 0
        &&& self.pthread_mutex == self.refcount + USIZE_SIZE
        &&& self.pthread_mutex + PTHREAD_MUTEX_SIZE_BOUND <= self.mem.region.pointer + self.mem.region.len
    }

    /// Starts to make a mutex at a place in mapped memory.
    pub fn new_with_memory(memory: SharedMemMap, offset: usize, pthread_mutex_size: usize) -> (initialization:
        Initialization)
        requires
            placeable(memory, offset, pthread_mutex_size),
        ensures
            initialization == Initialization::Count(
                placed(memory, offset, (memory.region.offset + offset) as usize),
            ),
            initialization->Count_0.valid(),
    {
        let raw_offset: usize = memory.offset() + offset;
        let refcount: usize = memory.pointer() + offset;
        let pthread_mutex: usize = refcount + USIZE_SIZE;
        Initialization::Count(Mutex { mem: memory, raw_offset, refcount, pthread_mutex })
    }

    /// Refers to a mutex that exists at a place in mapped memory, and says how its count of references is to be
    /// changed.
    pub fn from_handle(
        handle: MutexHandle,
        memory: SharedMemMap,
        offset: usize,
        pthread_mutex_size: usize,
    ) -> (opened: (Mutex, CountUpdate))
        requires
            placeable(memory, offset, pthread_mutex_size),
        ensures
            opened.0 == placed(memory, offset, handle.raw_offset),
            opened.0.valid(),
            opened.1 == opened.0.acquisition(),
    {
        let refcount: usize = memory.pointer() + offset;
        let pthread_mutex: usize = refcount + USIZE_SIZE;
        let mutex = Mutex { mem: memory, raw_offset: handle.raw_offset, refcount, pthread_mutex };
        (mutex, CountUpdate { address: refcount, change: CountChange::Acquire })
    }

    /// The change to the count when a reference to the mutex is taken.
    pub open spec fn acquisition(self) -> CountUpdate {
        CountUpdate { address: self.refcount, change: CountChange::Acquire }
    }

    /// The change to the count when a reference to the mutex is given up.
    pub open spec fn spec_give_up(self) -> CountUpdate {
        CountUpdate { address: self.refcount, change: CountChange::Release }
    }

    /// A handle to the mutex.
    pub fn handle(&self) -> (handle: Result<MutexHandle, Error>)
        ensures
            handle == Ok::<MutexHandle, Error>(MutexHandle { raw_offset: self.raw_offset }),
    {
        Ok(MutexHandle { raw_offset: self.raw_offset })
    }

    /// How the count of references is to be changed when this reference is given up.
    pub fn give_up(&self) -> (update: CountUpdate)
        ensures
            update == self.spec_give_up(),
    {
        CountUpdate { address: self.refcount, change: CountChange::Release }
    }

    /// Gives up a reference: says whether the mutex is to be destroyed, on the count of references before
    /// this one was given up.
    pub fn release(self, previous: usize) -> (destroy: bool)
        ensures
            destroy == destroys(previous as int),
    {
        previous == 1
    }
}

/// Who gives up a reference destroys the mutex, where this was the count before: none is left.
pub open spec fn destroys(previous: int) -> bool {
    CountChange::Release.applied(previous) == 0
}

impl Initialization {
    /// The mutex that is made.
    pub open spec fn mutex(self) -> Mutex {
        match self {
            Initialization::Count(m) => m,
            Initialization::Attributes(m) => m,
            Initialization::Share(m) => m,
            Initialization::Mutex(m) => m,
            Initialization::Cleanup(m) => m,
        }
    }

    /// How many calls are left.
    pub open spec fn calls_left(self) -> nat {
        match self {
            Initialization::Count(_) => 5,
            Initialization::Attributes(_) => 4,
            Initialization::Share(_) => 3,
            Initialization::Mutex(_) => 2,
            Initialization::Cleanup(_) => 1,
        }
    }

    /// The call that is due.
    pub fn call(&self) -> (call: InitializationCall)
        ensures
            call == match *self {
                Initialization::Count(m) => InitializationCall::StoreCount {
                    address: m.refcount,
                    count: FIRST_REFERENCE,
                },
                Initialization::Attributes(_) => InitializationCall::InitAttributes,
                Initialization::Share(_) => InitializationCall::ShareAttributes,
                Initialization::Mutex(m) => InitializationCall::InitMutex { address: m.pthread_mutex },
                Initialization::Cleanup(_) => InitializationCall::DestroyAttributes,
            },
    {
        match self {
            Initialization::Count(m) => InitializationCall::StoreCount {
                    address: m.refcount,
                    count: FIRST_REFERENCE,
                },
            Initialization::Attributes(_) => InitializationCall::InitAttributes,
            Initialization::Share(_) => InitializationCall::ShareAttributes,
            Initialization::Mutex(m) => InitializationCall::InitMutex { address: m.pthread_mutex },
            Initialization::Cleanup(_) => InitializationCall::DestroyAttributes,
        }
    }

    /// Moves on with the reply to the call that was due: zero, or an error number. Storing the count and
    /// destroying the attributes do not fail.
    pub fn reply(self, code: i32) -> (step: Step<Initialization, Mutex>)
        ensures
            match self {
                Initialization::Count(m) => step == Step::<Initialization, Mutex>::Next(
                    Initialization::Attributes(m),
                ),
                Initialization::Attributes(m) => step == (if code == 0 {
                    Step::<Initialization, Mutex>::Next(Initialization::Share(m))
                } else {
                    Step::Done(Err(Error::Os(code)))
                }),
                Initialization::Share(m) => step == (if code == 0 {
                    Step::<Initialization, Mutex>::Next(Initialization::Mutex(m))
                } else {
                    Step::Done(Err(Error::Os(code)))
                }),
                Initialization::Mutex(m) => step == (if code == 0 {
                    Step::<Initialization, Mutex>::Next(Initialization::Cleanup(m))
                } else {
                    Step::Done(Err(Error::Os(code)))
                }),
                Initialization::Cleanup(m) => step == Step::<Initialization, Mutex>::Done(Ok(m)),
            },
            match step {
                Step::Next(next) => next.mutex() == self.mutex() && next.calls_left() + 1 == self.calls_left(),
                Step::Done(Ok(mutex)) => mutex == self.mutex() && self.calls_left() == 1,
                Step::Done(Err(e)) => e == Error::Os(code),
            },
    {
        match self {
            Initialization::Count(m) => Step::Next(Initialization::Attributes(m)),
            Initialization::Attributes(m) => match code {
                0 => Step::Next(Initialization::Share(m)),
                err => Step::Done(Err(Error::Os(err))),
            },
            Initialization::Share(m) => match code {
                0 => Step::Next(Initialization::Mutex(m)),
                err => Step::Done(Err(Error::Os(err))),
            },
            Initialization::Mutex(m) => match code {
                0 => Step::Next(Initialization::Cleanup(m)),
                err => Step::Done(Err(Error::Os(err))),
            },
            Initialization::Cleanup(m) => Step::Done(Ok(m)),
        }
    }
}

/// Holds the mutex of the operating system.
#[derive(Debug)]
pub struct MutexGuard<'a> {
    pub mutex: &'a Mutex,
}

impl Mutex {
    /// The guard of the mutex, once the operating system has locked it.
    pub fn lock<'a>(&'a self, code: i32) -> (guard: MutexGuard<'a>)
        requires
            code == 0,
        ensures
            guard.mutex == self,
    {
        MutexGuard { mutex: self }
    }
}

impl<'a> MutexGuard<'a> {
    /// Gives up the guard: the error number that unlocking the mutex gave, if any. Only a holder that panics
    /// already goes on with one.
    pub fn release(self, code: i32, panicking: bool) -> (reported: Option<i32>)
        requires
            code == 0 || panicking,
        ensures
            reported == (if code == 0 {
                None
            } else {
                Some(code)
            }),
    {
        if code == 0 {
            None
        } else {
            Some(code)
        }
    }
}

/// A handle to a mutex leads back to it, in the mapping that it was made in: the place that the handle names is one
/// that can hold a mutex, and the mutex there is the one that the handle was taken from.
pub proof fn handle_leads_back_to_mutex(memory: SharedMemMap, offset: usize)
    requires
        memory.valid(),
        placement_fault::<Mutex>(memory, offset) is None,
    ensures
        ({
            let mutex = placed(memory, offset, (memory.region.offset + offset) as usize);
            let handle = MutexHandle { raw_offset: mutex.raw_offset };
            let found = (handle.raw_offset - memory.region.offset) as usize;
            &&& memory.region.offset <= handle.raw_offset
            &&& found == offset
            &&& memory.region.len >= found + spec_mutex_shm_size::<Mutex>()
            &&& placed(memory, found, handle.raw_offset) == mutex
        }),
{
}

/// The count of references to a mutex that was made, after these changes to counts of references in its memory.
/// Only those at the address of its own count matter.
pub open spec fn references(mutex: Mutex, updates: Seq<CountUpdate>) -> int
    decreases updates.len(),
{
    if updates.len() == 0 {
        FIRST_REFERENCE as int
    } else {
        let before = references(mutex, updates.drop_last());
        if updates.last().address == mutex.refcount {
            updates.last().change.applied(before)
        } else {
            before
        }
    }
}

/// A mutex is destroyed when the last reference to it is given up, and not before: the one who gives up a
/// reference destroys the mutex just where no reference is left. A reference that is taken is one more, and a change
/// to the count of another mutex changes nothing.
pub proof fn mutex_is_destroyed_with_its_last_reference(mutex: Mutex, updates: Seq<CountUpdate>, other: CountUpdate)
    ensures
        destroys(references(mutex, updates)) <==> references(mutex, updates.push(mutex.spec_give_up())) == 0,
        references(mutex, updates.push(mutex.spec_give_up())) == references(mutex, updates) - 1,
        references(mutex, updates.push(mutex.acquisition())) == references(mutex, updates) + 1,
        other.address != mutex.refcount ==> references(mutex, updates.push(other)) == references(mutex, updates),
{
    assert(updates.push(mutex.spec_give_up()).drop_last() =~= updates);
    assert(updates.push(mutex.acquisition()).drop_last() =~= updates);
    assert(updates.push(other).drop_last() =~= updates);
}

} // verus!
