//! A mutex in shared memory.
//!
//! On top of the lock of the operating system lies a flag, guarded by that lock, which says that
//! somebody panicked while holding it, possibly in another process.

pub mod thin_lock;

use crate::error::{Error, Fault};
use crate::layout::USIZE_SIZE;
use crate::shm::queue::PoisonError;
use crate::shm::{Access, SharedMemMap};
use crate::unix::sync as platform;
use vstd::prelude::*;

verus! {

/// A lock of the operating system that lives in shared memory.
pub trait PlatformMutex: Sized {
    /// The number of bytes of shared memory that it takes.
    spec fn spec_shm_size() -> usize;

    /// The number of bytes of shared memory that it takes.
    fn shm_size() -> (size: usize)
        ensures
            size == Self::spec_shm_size(),
    ;

    /// The mapping that it lives in.
    spec fn spec_memory(&self) -> SharedMemMap;

    /// The mapping that it lives in.
    fn memory(&self) -> (memory: SharedMemMap)
        ensures
            memory == self.spec_memory(),
    ;
}

/// A handle to a lock of the operating system.
pub trait PlatformMutexHandle: Sized {
    /// The place of the lock in the shared memory object.
    spec fn spec_raw_offset(&self) -> usize;

    /// The place of the lock in the shared memory object.
    fn raw_offset(&self) -> (offset: usize)
        ensures
            offset == self.spec_raw_offset(),
    ;
}

/// A mutex that can operate within shared memory.
#[derive(Debug)]
pub struct Mutex<P> {
    pub inner: P,
    /// The address of the poison flag.
    pub poison: usize,
}

/// Holds the lock of a mutex.
#[derive(Debug)]
pub struct MutexGuard<'a, P> {
    pub mutex: &'a Mutex<P>,
}

/// A handle to a mutex that exists in shared memory.
///
/// It can be sent over any medium that transmits resources of the operating system. To get a working
/// mutex from it, the shared memory that holds the mutex must be transmitted as well.
#[derive(Debug)]
pub struct MutexHandle<H> {
    pub inner: H,
    pub shm_token: u128,
}

/// The number of bytes of shared memory that a mutex of this platform takes.
pub const MUTEX_SHM_SIZE: usize = platform::MUTEX_SHM_SIZE + USIZE_SIZE;

/// The number of bytes of shared memory that a mutex takes: those of the lock, and the flag.
pub open spec fn spec_mutex_shm_size<P: PlatformMutex>() -> int {
    P::spec_shm_size() + USIZE_SIZE
}

/// The number of bytes of shared memory that a mutex takes.
pub fn mutex_shm_size<P: PlatformMutex>() -> (size: usize)
    requires
        spec_mutex_shm_size::<P>() <= usize::MAX,
    ensures
        size == spec_mutex_shm_size::<P>(),
{
    P::shm_size() + USIZE_SIZE
}

/// Why memory cannot hold a mutex at a place, if it cannot.
pub open spec fn placement_fault<P: PlatformMutex>(memory: SharedMemMap, offset: usize) -> Option<Fault> {
    if memory.region.len < offset + spec_mutex_shm_size::<P>() {
        Some(Fault::MutexOffset)
    } else if (memory.region.pointer + offset) % USIZE_SIZE as int != 0 {
        Some(Fault::MutexUnaligned)
    } else if memory.region.access != Access::ReadWrite {
        Some(Fault::MutexReadOnly)
    } else {
        None
    }
}

/// The address of the poison flag of a mutex at a place in mapped memory.
pub open spec fn poison_address<P: PlatformMutex>(memory: SharedMemMap, offset: usize) -> usize {
    (memory.region.pointer + offset + P::spec_shm_size()) as usize
}

impl<P: PlatformMutex> Mutex<P> {
    /// Creates a brand new mutex in the given shared memory location, with the poison flag cleared. `clear_poison`
    /// clears the flag at an address, and `create` creates the lock. Neither is done where the memory cannot be
    /// written.
    ///
    /// This can only be used to create a brand new mutex, not to create a handle to one that already
    /// exists at the location. The memory has to be long enough and aligned to a pointer width.
    pub fn new_with_memory<C: FnOnce(usize), F: FnOnce(SharedMemMap) -> Result<P, Error>>(
        memory: SharedMemMap,
        offset: usize,
        clear_poison: C,
        create: F,
    ) -> (mutex: Result<Mutex<P>, Error>)
        requires
            memory.valid(),
            offset + spec_mutex_shm_size::<P>() <= memory.region.len,
            (memory.region.pointer + offset) % USIZE_SIZE as int == 0,
            memory.region.access == Access::ReadWrite ==> clear_poison.requires(
                (poison_address::<P>(memory, offset),),
            ),
            memory.region.access == Access::ReadWrite && clear_poison.ensures(
                (poison_address::<P>(memory, offset),),
                (),
            ) ==> create.requires((memory,)),
        ensures
            memory.region.access != Access::ReadWrite ==> mutex == Err::<Mutex<P>, Error>(
                Error::Fault(Fault::MutexReadOnly),
            ),
            memory.region.access == Access::ReadWrite ==> {
                &&& clear_poison.ensures((poison_address::<P>(memory, offset),), ())
                &&& match mutex {
                    Ok(m) => create.ensures((memory,), Ok(m.inner)) && m.poison == poison_address::<P>(memory, offset),
                    Err(e) => create.ensures((memory,), Err(e)),
                }
            },
    {
        let poison: usize = memory.pointer() + offset + P::shm_size();
        let create_here = |memory: SharedMemMap| -> (created: Result<P, Error>)
            requires
                clear_poison.requires((poison,)),
                clear_poison.ensures((poison,), ()) ==> create.requires((memory,)),
            ensures
                clear_poison.ensures((poison,), ()),
                create.ensures((memory,), created),
        {
            clear_poison(poison);
            create(memory)
        };
        Self::with_inner(memory, offset, create_here)
    }

    /// Establishes a new reference to a mutex that was created before. `open` opens the lock, which is not done
    /// where the handle does not lead to a mutex in this memory. The poison flag stays as it is.
    pub fn from_handle<H: PlatformMutexHandle, F: FnOnce(H, SharedMemMap, usize) -> Result<P, Error>>(
        handle: MutexHandle<H>,
        memory: SharedMemMap,
        open: F,
    ) -> (mutex: Result<Mutex<P>, Error>)
        requires
            memory.valid(),
            memory.token == handle.shm_token && memory.region.offset <= handle.inner.spec_raw_offset()
                ==> handle.inner.spec_raw_offset() - memory.region.offset + spec_mutex_shm_size::<P>() <= usize::MAX,
            handle.fault::<P>(memory) is None ==> open.requires((handle.inner, memory, handle.place(memory))),
        ensures
            match handle.fault::<P>(memory) {
                Some(fault) => mutex == Err::<Mutex<P>, Error>(Error::Fault(fault)),
                None => match mutex {
                    Ok(m) => open.ensures((handle.inner, memory, handle.place(memory)), Ok(m.inner)) && m.poison
                        == poison_address::<P>(memory, handle.place(memory)),
                    Err(e) => open.ensures((handle.inner, memory, handle.place(memory)), Err(e)),
                },
            },
    {
        if memory.token() != handle.shm_token {
            return Err(Error::Fault(Fault::MutexForeignMemory));
        }
        let raw_offset: usize = handle.inner.raw_offset();
        let local_offset: usize = match raw_offset.checked_sub(memory.offset()) {
            Some(offset) => offset,
            None => return Err(Error::Fault(Fault::MutexOutsideMapping)),
        };
        if memory.len() < local_offset + mutex_shm_size::<P>() {
            return Err(Error::Fault(Fault::MutexOutsideMapping));
        }
        let inner = handle.inner;
        let open_here = |memory: SharedMemMap| -> (opened: Result<P, Error>)
            requires
                open.requires((inner, memory, local_offset)),
            ensures
                open.ensures((inner, memory, local_offset), opened),
        { open(inner, memory, local_offset) };
        Self::with_inner(memory, local_offset, open_here)
    }

    /// Makes a mutex at a place in mapped memory, around a lock that `f` makes there. That is not done where the
    /// memory cannot hold a mutex.
    pub fn with_inner<F: FnOnce(SharedMemMap) -> Result<P, Error>>(
        memory: SharedMemMap,
        offset: usize,
        f: F,
    ) -> (mutex: Result<Mutex<P>, Error>)
        requires
            memory.valid(),
            offset + spec_mutex_shm_size::<P>() <= usize::MAX,
            placement_fault::<P>(memory, offset) is None ==> f.requires((memory,)),
        ensures
            match placement_fault::<P>(memory, offset) {
                Some(fault) => mutex == Err::<Mutex<P>, Error>(Error::Fault(fault)),
                None => match mutex {
                    Ok(m) => f.ensures((memory,), Ok(m.inner)) && m.poison == poison_address::<P>(memory, offset),
                    Err(e) => f.ensures((memory,), Err(e)),
                },
            },
    {
        if memory.len() < offset + mutex_shm_size::<P>() {
            return Err(Error::Fault(Fault::MutexOffset));
        }
        if (memory.pointer() + offset) % USIZE_SIZE != 0 {
            return Err(Error::Fault(Fault::MutexUnaligned));
        }
        if memory.access() != Access::ReadWrite {
            return Err(Error::Fault(Fault::MutexReadOnly));
        }
        let poison: usize = memory.pointer() + offset + P::shm_size();
        match f(memory) {
            Ok(inner) => Ok(Mutex { inner, poison }),
            Err(e) => Err(e),
        }
    }

    /// Acquires an exclusive lock on the mutex, including any instances of it that other handles led to. The guard
    /// comes as an error if the poison flag is set.
    ///
    /// `lock` takes the lock of the operating system, and `load_poison` reads the flag at an address.
    pub fn lock<'a, L: FnOnce(&P), D: FnOnce(usize) -> bool>(&'a self, lock: L, load_poison: D) -> (guard: Result<
        MutexGuard<'a, P>,
        PoisonError<MutexGuard<'a, P>>,
    >)
        requires
            lock.requires((&self.inner,)),
            lock.ensures((&self.inner,), ()) ==> load_poison.requires((self.poison,)),
        ensures
            lock.ensures((&self.inner,), ()),
            match guard {
                Ok(g) => g.mutex == self && load_poison.ensures((self.poison,), false),
                Err(e) => e.guard.mutex == self && load_poison.ensures((self.poison,), true),
            },
    {
        lock(&self.inner);
        let guard = MutexGuard { mutex: self };
        if load_poison(self.poison) {
            Err(PoisonError { guard })
        } else {
            Ok(guard)
        }
    }

    /// A handle to the mutex that can be transmitted to other processes. `inner` makes one to the lock of the
    /// operating system.
    pub fn handle<H, F: FnOnce(&P) -> Result<H, Error>>(&self, inner: F) -> (handle: Result<MutexHandle<H>, Error>)
        requires
            inner.requires((&self.inner,)),
        ensures
            match handle {
                Ok(h) => inner.ensures((&self.inner,), Ok(h.inner)) && h.shm_token == self.inner.spec_memory().token,
                Err(e) => inner.ensures((&self.inner,), Err(e)),
            },
    {
        match inner(&self.inner) {
            Ok(inner) => Ok(MutexHandle { inner, shm_token: self.inner.memory().token() }),
            Err(e) => Err(e),
        }
    }
}

impl<H: PlatformMutexHandle> MutexHandle<H> {
    /// The place in a mapping that the handle leads to.
    pub open spec fn place(&self, memory: SharedMemMap) -> usize {
        (self.inner.spec_raw_offset() - memory.region.offset) as usize
    }

    /// Why the handle does not lead to a mutex in mapped memory, if it does not.
    pub open spec fn fault<P: PlatformMutex>(&self, memory: SharedMemMap) -> Option<Fault> {
        if memory.token != self.shm_token {
            Some(Fault::MutexForeignMemory)
        } else if self.inner.spec_raw_offset() < memory.region.offset || memory.region.len < self.place(memory)
            + spec_mutex_shm_size::<P>() {
            Some(Fault::MutexOutsideMapping)
        } else {
            placement_fault::<P>(memory, self.place(memory))
        }
    }
}

/// All references to a mutex share its poison flag: in any two mappings of a shared memory object that hold the
/// mutex, the flag is at the same place of the object.
pub proof fn references_share_the_poison_flag<P: PlatformMutex, H: PlatformMutexHandle>(
    handle: MutexHandle<H>,
    first: SharedMemMap,
    second: SharedMemMap,
)
    requires
        first.valid(),
        second.valid(),
        handle.fault::<P>(first) is None,
        handle.fault::<P>(second) is None,
    ensures
        poison_address::<P>(first, handle.place(first)) - first.region.pointer + first.region.offset
            == poison_address::<P>(second, handle.place(second)) - second.region.pointer + second.region.offset,
{
}

impl<'a, P> MutexGuard<'a, P> {
    /// Gives up the guard: says what the poison flag is to be, on what it was and on whether the
    /// holder panics.
    pub fn release(self, poison: bool, panicking: bool) -> (flag: bool)
        ensures
            flag == (poison || panicking),
    {
        if panicking {
            true
        } else {
            poison
        }
    }
}

} // verus!
