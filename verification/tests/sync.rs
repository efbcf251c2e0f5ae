use sandbox_ipc::error::{Error, Fault};
use sandbox_ipc::shm::queue::PoisonError;
use sandbox_ipc::shm::{Access, Region, SharedMemMap};
use sandbox_ipc::step::Step;
use sandbox_ipc::sync::thin_lock::{lock_step, unlock_step, LockStep, UnlockStep};
use sandbox_ipc::sync::{mutex_shm_size, Mutex, MutexHandle, MUTEX_SHM_SIZE};
use sandbox_ipc::unix::sync as platform;
use sandbox_ipc::windows::handles::WinHandle;
use sandbox_ipc::windows::sync as windows;
use std::cell::Cell;

const PTHREAD_MUTEX_SIZE: usize = 40;

fn check_send<T: Send>(_t: &T) {}

fn mapping(pointer: usize, len: usize) -> SharedMemMap {
    SharedMemMap { region: Region { pointer, len, offset: 0, access: Access::ReadWrite }, token: 5 }
}

/// Makes the mutex of the platform, all calls for which go well.
fn create(memory: SharedMemMap) -> Result<platform::Mutex, Error> {
    let mut initialization = platform::Mutex::new_with_memory(memory, 0, PTHREAD_MUTEX_SIZE);
    loop {
        match initialization.reply(0) {
            Step::Next(next) => initialization = next,
            Step::Done(mutex) => return mutex,
        }
    }
}

fn open(handle: platform::MutexHandle, memory: SharedMemMap, offset: usize) -> Result<platform::Mutex, Error> {
    Ok(platform::Mutex::from_handle(handle, memory, offset, PTHREAD_MUTEX_SIZE).0)
}

fn make_mutex() -> Mutex<platform::Mutex> {
    let memory = mapping(0x1_0000, MUTEX_SHM_SIZE);
    Mutex::new_with_memory(memory, 0, |_poison: usize| (), create).unwrap()
}

#[test]
fn mutex_is_send() {
    let mutex = make_mutex();
    check_send(&mutex);
}

#[test]
fn uncontested_mutex_lock() {
    let mutex = make_mutex();
    let held = Cell::new(0);
    let poison = Cell::new(false);
    let lock = |inner: &platform::Mutex| {
        assert_eq!(inner.lock(0).mutex, &mutex.inner);
        held.set(held.get() + 1);
    };
    let load = |address: usize| {
        assert_eq!(address, mutex.poison);
        poison.get()
    };
    {
        let guard = mutex.lock(lock, load).unwrap();
        assert_eq!(held.get(), 1);
        poison.set(guard.release(poison.get(), false));
        assert_eq!(platform::MutexGuard { mutex: &mutex.inner }.release(0, false), None);
    }
    {
        let guard = mutex.lock(lock, load).unwrap();
        assert_eq!(held.get(), 2);
        poison.set(guard.release(poison.get(), false));
        assert_eq!(platform::MutexGuard { mutex: &mutex.inner }.release(0, false), None);
    }
    assert!(!poison.get());
}

#[test]
fn mutex_size_includes_the_flag() {
    let word = core::mem::size_of::<usize>();
    assert_eq!(MUTEX_SHM_SIZE, 128 + word);
    assert_eq!(mutex_shm_size::<platform::Mutex>(), MUTEX_SHM_SIZE);
    assert_eq!(mutex_shm_size::<windows::Mutex>(), 64 + word);
}

#[test]
fn new_mutex_has_a_clear_flag_behind_it() {
    let cleared = Cell::new(0);
    let memory = mapping(0x1_0000, MUTEX_SHM_SIZE);
    let clear = |poison: usize| cleared.set(poison);
    let mutex = Mutex::new_with_memory(memory, 0, clear, create).unwrap();
    assert_eq!(cleared.get(), 0x1_0000 + 128);
    assert_eq!(mutex.poison, 0x1_0000 + 128);
    assert_eq!(mutex.inner.refcount, 0x1_0000);
    assert_eq!(mutex.inner.pthread_mutex, 0x1_0000 + core::mem::size_of::<usize>());
}

#[test]
fn panicking_holder_poisons_the_mutex() {
    let mutex = make_mutex();
    let lock = |_inner: &platform::Mutex| ();
    let poison = mutex.lock(lock, |_address: usize| false).unwrap().release(false, true);
    assert!(poison);
    let guard = match mutex.lock(lock, |_address: usize| poison) {
        Err(PoisonError { guard }) => guard,
        Ok(_) => panic!("not poisoned"),
    };
    assert!(guard.release(true, false));
}

#[test]
fn memory_has_to_suit_a_mutex() {
    let untouched = |_memory: SharedMemMap| -> Result<platform::Mutex, Error> { panic!("touched the memory") };
    let refused = |memory, offset| Mutex::with_inner(memory, offset, untouched).err();
    let memory = mapping(0x1_0000, MUTEX_SHM_SIZE);
    assert_eq!(refused(memory, 8), Some(Error::Fault(Fault::MutexOffset)));
    assert_eq!(refused(mapping(0x1_0001, MUTEX_SHM_SIZE), 0), Some(Error::Fault(Fault::MutexUnaligned)));
    let mut read_only = memory;
    read_only.region.access = Access::Read;
    assert_eq!(refused(read_only, 0), Some(Error::Fault(Fault::MutexReadOnly)));
    let clear = |_poison: usize| panic!("touched the memory");
    let made = Mutex::new_with_memory(read_only, 0, clear, untouched);
    assert!(matches!(made, Err(Error::Fault(Fault::MutexReadOnly))));
    let failing = |_memory: SharedMemMap| Err::<platform::Mutex, Error>(Error::Os(12));
    assert!(matches!(Mutex::with_inner(memory, 0, failing), Err(Error::Os(12))));
}

#[test]
fn handle_leads_to_the_same_mutex() {
    let mutex = make_mutex();
    let handle = mutex.handle(|inner: &platform::Mutex| inner.handle()).unwrap();
    assert_eq!(handle.shm_token, 5);
    assert_eq!(handle.inner.raw_offset, 0);
    let memory = mapping(0x7_0000, MUTEX_SHM_SIZE);
    let other = Mutex::from_handle(handle, memory, open).unwrap();
    assert_eq!(other.inner.refcount, 0x7_0000);
    assert_eq!(other.poison, 0x7_0000 + 128);
    let refused = mutex.handle(|_inner: &platform::Mutex| Err::<platform::MutexHandle, Error>(Error::Os(1)));
    assert!(matches!(refused, Err(Error::Os(1))));
}

#[test]
fn handle_of_other_memory_is_refused_by_a_mutex() {
    let opened = Cell::new(0);
    let count_open = |handle, memory, offset| {
        opened.set(opened.get() + 1);
        open(handle, memory, offset)
    };
    let refused = |raw_offset, shm_token, memory| {
        let handle = MutexHandle { inner: platform::MutexHandle { raw_offset }, shm_token };
        Mutex::from_handle(handle, memory, count_open).err()
    };
    let memory = mapping(0x1_0000, MUTEX_SHM_SIZE + 8);
    assert_eq!(refused(0, 6, memory), Some(Error::Fault(Fault::MutexForeignMemory)));
    assert_eq!(refused(usize::MAX, 6, memory), Some(Error::Fault(Fault::MutexForeignMemory)));
    assert_eq!(refused(16, 5, memory), Some(Error::Fault(Fault::MutexOutsideMapping)));
    assert_eq!(refused(8, 5, memory), None);
    let mut part = memory;
    part.region.offset = 4096;
    assert_eq!(refused(0, 5, part), Some(Error::Fault(Fault::MutexOutsideMapping)));
    assert_eq!(refused(4096, 5, part), None);
    assert_eq!(refused(4, 5, memory), Some(Error::Fault(Fault::MutexUnaligned)));
    assert_eq!(opened.get(), 2);
}

#[test]
fn new_reference_does_not_clear_the_poison() {
    let memory = mapping(0x1_0000, MUTEX_SHM_SIZE);
    let poison = Cell::new(true);
    let clear = |_address: usize| poison.set(false);
    let mutex = Mutex::new_with_memory(memory, 0, clear, create).unwrap();
    assert!(!poison.get());
    let lock = |_inner: &platform::Mutex| ();
    let load = |_address: usize| poison.get();
    poison.set(mutex.lock(lock, load).unwrap().release(poison.get(), true));

    let handle = mutex.handle(|inner: &platform::Mutex| inner.handle()).unwrap();
    let other = Mutex::from_handle(handle, memory, open).unwrap();
    assert_eq!(other.poison, mutex.poison);
    assert!(poison.get());
    assert!(other.lock(lock, load).is_err());
}

#[test]
fn mutex_counts_its_references() {
    let count = Cell::new(0usize);
    let change = |update: platform::CountUpdate| {
        assert_eq!(update.address, 0x1_0000);
        match update.change {
            platform::CountChange::Acquire => count.replace(count.get() + 1),
            platform::CountChange::Release => count.replace(count.get() - 1),
        }
    };
    let memory = mapping(0x1_0000, MUTEX_SHM_SIZE);
    if let platform::InitializationCall::StoreCount { count: first, .. } =
        platform::Mutex::new_with_memory(memory, 0, PTHREAD_MUTEX_SIZE).call()
    {
        count.set(first);
    }
    let mutex = create(memory).unwrap();
    let (other, update) =
        platform::Mutex::from_handle(mutex.handle().unwrap(), memory, 0, PTHREAD_MUTEX_SIZE);
    assert_eq!(other, mutex);
    change(update);
    assert_eq!(count.get(), 2);
    let previous = change(mutex.give_up());
    assert!(!mutex.release(previous));
    let previous = change(other.give_up());
    assert!(other.release(previous));
    assert_eq!(count.get(), 0);
}

#[test]
fn flag_is_read_once_the_lock_is_held() {
    let mutex = make_mutex();
    let held = Cell::new(false);
    let lock = |_inner: &platform::Mutex| held.set(true);
    let load = |_address: usize| {
        assert!(held.get());
        false
    };
    assert!(mutex.lock(lock, load).is_ok());
}

#[test]
fn making_a_mutex_takes_five_calls() {
    let memory = mapping(0x1_0000, MUTEX_SHM_SIZE);
    let mut initialization = platform::Mutex::new_with_memory(memory, 0, PTHREAD_MUTEX_SIZE);
    let mut calls = Vec::new();
    let mutex = loop {
        calls.push(initialization.call());
        match initialization.reply(0) {
            Step::Next(next) => initialization = next,
            Step::Done(mutex) => break mutex.unwrap(),
        }
    };
    assert_eq!(
        calls,
        vec![
            platform::InitializationCall::StoreCount { address: 0x1_0000, count: 1 },
            platform::InitializationCall::InitAttributes,
            platform::InitializationCall::ShareAttributes,
            platform::InitializationCall::InitMutex { address: mutex.pthread_mutex },
            platform::InitializationCall::DestroyAttributes,
        ]
    );
}

#[test]
fn making_a_mutex_stops_at_a_failure() {
    let mutex = make_mutex().inner;
    let failed = |initialization: platform::Initialization| initialization.reply(12);
    assert_eq!(failed(platform::Initialization::Attributes(mutex)), Step::Done(Err(Error::Os(12))));
    assert_eq!(failed(platform::Initialization::Share(mutex)), Step::Done(Err(Error::Os(12))));
    assert_eq!(failed(platform::Initialization::Mutex(mutex)), Step::Done(Err(Error::Os(12))));
    assert_eq!(failed(platform::Initialization::Cleanup(mutex)), Step::Done(Ok(mutex)));
}

#[test]
fn last_reference_destroys_the_mutex() {
    let mutex = make_mutex().inner;
    assert!(!mutex.release(2));
    assert!(mutex.release(1));
}

#[test]
fn unlocking_may_fail_while_panicking() {
    let mutex = make_mutex().inner;
    assert_eq!(mutex.lock(0).release(1, true), Some(1));
}

#[test]
fn thin_lock_waits_only_when_contested() {
    assert_eq!(lock_step(0), LockStep::Acquired);
    assert_eq!(lock_step(1), LockStep::Wait);
    assert_eq!(lock_step(7), LockStep::Wait);
    assert_eq!(unlock_step(0), UnlockStep::Invalid);
    assert_eq!(unlock_step(1), UnlockStep::Free);
    assert_eq!(unlock_step(2), UnlockStep::Release);
}

#[test]
fn thin_lock_passes_from_holder_to_waiter() {
    let mut counter: usize = 0;
    let mut semaphore = 0;
    let mut lock = || {
        counter += 1;
        lock_step(counter - 1)
    };
    assert_eq!(lock(), LockStep::Acquired);
    assert_eq!(lock(), LockStep::Wait);
    counter -= 1;
    assert_eq!(unlock_step(counter + 1), UnlockStep::Release);
    semaphore += 1;
    assert_eq!(semaphore, 1);
    semaphore -= 1;
    counter -= 1;
    assert_eq!(unlock_step(counter + 1), UnlockStep::Free);
    assert_eq!((counter, semaphore), (0, 0));
}

#[test]
fn windows_mutex_asks_for_a_semaphore() {
    let memory = mapping(0x1_0000, 128);
    let request = windows::Mutex::new_with_memory(memory, 8);
    assert_eq!(request.atomic, 0x1_0008);
    assert_eq!(request.raw_offset, 8);
    assert_eq!((request.count, request.semaphore_count, request.semaphore_max), (0, 0, 1));
    assert_eq!(request.made(Err(Error::Os(6))), Err(Error::Os(6)));
    let mutex = request.made(Ok(WinHandle(70))).unwrap();
    assert!(matches!(mutex.handle(Err(Error::Os(5))), Err(Error::Os(5))));
    let handle = mutex.handle(Ok(WinHandle(71))).unwrap();
    let other = windows::Mutex::from_handle(handle, mapping(0x3_0000, 128), 8);
    assert_eq!(other.atomic, 0x3_0008);
    assert_eq!(other.semaphore, WinHandle(71));
    assert_eq!(other.raw_offset, 8);
}

#[test]
fn windows_mutex_waits_only_when_contested() {
    let mutex = windows::Mutex::new_with_memory(mapping(0x1_0000, 128), 8).made(Ok(WinHandle(70))).unwrap();
    let count = Cell::new(0usize);
    let waits = Cell::new(0);
    let increment = |address: usize| {
        assert_eq!(address, 0x1_0008);
        count.replace(count.get() + 1)
    };
    let decrement = |_address: usize| count.replace(count.get() - 1);
    let wait = |semaphore: &WinHandle| {
        assert_eq!(*semaphore, WinHandle(70));
        waits.set(waits.get() + 1);
    };
    let releases = Cell::new(0);
    let release = |_semaphore: &WinHandle| {
        releases.set(releases.get() + 1);
        true
    };
    let first = mutex.lock(increment, wait);
    assert_eq!((count.get(), waits.get()), (1, 0));
    let second = mutex.lock(increment, wait);
    assert_eq!((count.get(), waits.get()), (2, 1));
    assert_eq!(first.release(decrement, release, false), None);
    assert_eq!((count.get(), releases.get()), (1, 1));
    assert_eq!(second.release(decrement, release, false), None);
    assert_eq!((count.get(), releases.get()), (0, 1));
}

#[test]
fn windows_mutex_may_fail_while_panicking() {
    let mutex = windows::Mutex::new_with_memory(mapping(0x1_0000, 128), 8).made(Ok(WinHandle(70))).unwrap();
    let lock = || mutex.lock(|_address: usize| 0, |_semaphore: &WinHandle| ());
    let stuck = |_semaphore: &WinHandle| false;
    assert_eq!(lock().release(|_address: usize| 0, stuck, true), Some(windows::MutexProblem::InvalidState));
    assert_eq!(lock().release(|_address: usize| 1, stuck, true), None);
    assert_eq!(lock().release(|_address: usize| 2, stuck, true), Some(windows::MutexProblem::NotReleased));
}
