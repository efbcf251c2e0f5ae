use sandbox_ipc::channel::MessageChannel;
use sandbox_ipc::error::{Error, Fault};
use sandbox_ipc::identity::shared_memory_name;
use sandbox_ipc::ser::{Async, AsyncSink, Attempt, NoopWrapper};
use sandbox_ipc::shm::{Access, Bound, RangeArgument, Region, SharedMem, SharedMemMap};
use sandbox_ipc::step::{Reply, Step};
use sandbox_ipc::unix::channel::{MessageChannel as PlatformChannel, TransferReply};
use sandbox_ipc::unix::cmsg::Cmsg;
use sandbox_ipc::unix::fd::{FlagCall, ScopedFd};
use sandbox_ipc::unix::handles::{ChannelSerializeWrapper, HandleCall, HandleReceiver, HandleSender, SendableFd};
use sandbox_ipc::unix::sharedmem::{MapRequest, OpenMode};
use sandbox_ipc::unix::sharedmem::SharedMem as PlatformMem;
use std::cell::RefCell;
use std::ops::RangeFull;

const PAGE: usize = 4096;

fn check_send<T: Send>(_t: &T) {}

fn ok(value: i32) -> Reply {
    Reply { value, errno: 0 }
}

fn failed(errno: i32) -> Reply {
    Reply { value: -1, errno }
}

/// A shared memory object whose descriptors are 10 and 11.
fn make_platform(size: usize) -> PlatformMem {
    let open = |name: &String, mode: OpenMode| {
        assert_eq!(name.len(), 30);
        match mode {
            OpenMode::CreateReadWrite => ok(10),
            OpenMode::ReadOnly => ok(11),
        }
    };
    PlatformMem::new(size, open, |_name: &String| ok(0), |_fd: i32, _size: usize| ok(0)).unwrap()
}

fn make(size: usize) -> SharedMem<PlatformMem> {
    SharedMem::new(size, |size: usize| Ok(make_platform(size))).unwrap()
}

fn map<R: RangeArgument<usize>>(
    memory: &SharedMem<PlatformMem>,
    range: R,
    access: Access,
) -> Result<SharedMemMap, Error> {
    let map = |inner: &PlatformMem, range: R, access: Access| {
        let request = inner.map(range, access, PAGE)?;
        request.mapped(Ok(0x10_0000)).map(|map| map.region())
    };
    memory.map(range, access, map)
}

#[test]
fn shared_mem_map_is_send() {
    let memory = make(4096);
    let memory = map(&memory, .., Access::ReadWrite).unwrap();
    check_send(&memory);
    assert_eq!(memory.len(), 4096);
}

#[test]
fn shared_mem_is_send() {
    let memory = make(4096);
    check_send(&memory);
    assert_eq!(memory.size(), 4096);
}

#[test]
fn big_shm() {
    let memory = make(64 * 1024 * 1024);
    let mapping = map(&memory, .., Access::ReadWrite).unwrap();
    assert_eq!(mapping.len(), 64 * 1024 * 1024);
}

/// Carries out the calls that sending a descriptor makes: a duplicate has a number that is greater by 100.
fn send_fd(slot: &mut Option<HandleSender>, fd: i32) -> usize {
    let mut sending = SendableFd(fd).serialize(slot).unwrap();
    loop {
        let reply = match sending.call() {
            HandleCall::Duplicate { fd } => ok(fd + 100),
            HandleCall::Flags(_) => ok(0),
        };
        match sending.reply(slot.as_mut().unwrap(), reply) {
            Step::Next(next) => sending = next,
            Step::Done(index) => return index.unwrap(),
        }
    }
}

fn recv_fd(slot: &Option<HandleReceiver>, index: usize) -> i32 {
    let mut receiving = SendableFd::deserialize(slot, index).unwrap();
    loop {
        match receiving.reply(ok(0)) {
            Step::Next(next) => receiving = next,
            Step::Done(fd) => return fd.unwrap(),
        }
    }
}

#[test]
fn send_mem_same_process() {
    let register = |fd: ScopedFd| Ok(fd.0);
    let (mut a, mut b) = MessageChannel::pair(Ok((ScopedFd(3), ScopedFd(4))), register, 8192).unwrap();

    let test_bytes: &[u8] = b"hello";
    let mut contents = vec![0u8; 0x1000];

    let memory = make(0x1000);
    let mapping = map(&memory, .., Access::ReadWrite).unwrap();
    contents[mapping.offset()..mapping.offset() + test_bytes.len()].copy_from_slice(test_bytes);

    let mut sender = None;
    let guard = ChannelSerializeWrapper::before_serialize(&mut sender, a.inner.io.sealed);
    let rw_index = send_fd(&mut sender, memory.inner.rw_fd.as_ref().unwrap().0);
    let ro_index = send_fd(&mut sender, memory.inner.ro_fd.0);
    let message = (rw_index, ro_index, memory.size(), memory.token);
    guard.commit(&mut sender, &mut a.inner.io.cmsg);
    assert!(sender.is_none());
    let serialize = |message: &(usize, usize, usize, u128), buffer: &mut [u8]| {
        let bytes = bincode::serialize(message).ok()?;
        buffer[..bytes.len()].copy_from_slice(&bytes);
        Some(bytes.len())
    };
    let unused = |_io: &mut PlatformChannel<i32>, _bytes: &[u8]| -> Attempt { panic!("nothing to send") };
    assert_eq!(a.inner.start_send::<_, NoopWrapper, _, _>(message, unused, serialize), Ok(AsyncSink::Ready));
    let packet = RefCell::new((Vec::new(), Vec::new()));
    let write = |io: &mut PlatformChannel<i32>, bytes: &[u8]| {
        let transmit = |_socket: &i32, cmsg: &Cmsg, bytes: &[u8]| {
            *packet.borrow_mut() = (bytes.to_vec(), cmsg.fds().to_vec());
            TransferReply { result: bytes.len() as isize, errno: 0, would_block: false }
        };
        match io.write(bytes, |_socket: &i32| Ok(Async::Ready(())), transmit, |_socket: &i32| Ok(())) {
            Ok(len) => Attempt::Done(len),
            Err(error) => Attempt::Failed(error),
        }
    };
    assert_eq!(a.inner.poll_complete(write), Ok(Async::Ready(())));

    let (packet, fds) = packet.into_inner();
    let receive = |_socket: &i32, cmsg: &mut Cmsg, room: &mut [u8]| {
        cmsg.set_fds(&fds);
        room[..packet.len()].copy_from_slice(&packet);
        TransferReply { result: packet.len() as isize, errno: 0, would_block: false }
    };
    let datagram = &mut b.inner;
    let ready = |_socket: &i32| Ok(Async::Ready(()));
    let received = datagram.io.read(&mut datagram.rx_buffer, ready, receive, |_socket: &i32| Ok(()));
    assert_eq!(received, Ok(packet.len()));
    let mut receiver = None;
    let guard = ChannelSerializeWrapper::before_deserialize(&mut receiver, &b.inner.io.cmsg);
    let deserialize = |bytes: &[u8]| bincode::deserialize::<(usize, usize, usize, u128)>(bytes).ok();
    let (rw_index, ro_index, size, token) =
        match b.inner.poll::<_, NoopWrapper, _>(Attempt::Done(packet.len()), deserialize) {
            Ok(Async::Ready(Some(message))) => message,
            _ => panic!("no message"),
        };
    let inner = PlatformMem {
        rw_fd: Some(ScopedFd(recv_fd(&receiver, rw_index))),
        ro_fd: ScopedFd(recv_fd(&receiver, ro_index)),
        size,
    };
    guard.release(&mut receiver);
    assert_eq!(inner.rw_fd, Some(ScopedFd(110)));
    assert_eq!(inner.ro_fd, ScopedFd(111));
    let received = SharedMem { inner, token };
    assert_eq!(received.token, memory.token);

    let mapping = map(&received, .., Access::Read).unwrap();
    assert_eq!(&contents[mapping.offset()..mapping.offset() + test_bytes.len()], test_bytes);
}

#[test]
fn creation_takes_a_fresh_name_and_drops_it() {
    let calls = RefCell::new(Vec::new());
    let open = |name: &String, mode: OpenMode| {
        calls.borrow_mut().push((name.clone(), Some(mode)));
        ok(5)
    };
    let unlink = |name: &String| {
        calls.borrow_mut().push((name.clone(), None));
        ok(0)
    };
    let truncate = |fd: i32, size: usize| {
        assert_eq!((fd, size), (5, 100));
        ok(0)
    };
    let memory = PlatformMem::new(100, open, unlink, truncate).unwrap();
    assert_eq!(memory.size, 100);
    let calls = calls.into_inner();
    assert_eq!(calls[0].1, Some(OpenMode::CreateReadWrite));
    assert_eq!(calls[1].1, Some(OpenMode::ReadOnly));
    assert_eq!(calls[2].1, None);
    assert!(calls.iter().all(|call| call.0 == calls[0].0));
    assert_eq!(calls[0].0.len(), shared_memory_name(0).len());
}

#[test]
fn creation_closes_what_was_opened_before_a_failure() {
    let fail_at = |step: i32| {
        let open = |_name: &String, mode: OpenMode| match mode {
            OpenMode::CreateReadWrite => if step == 0 { failed(17) } else { ok(10) },
            OpenMode::ReadOnly => if step == 1 { failed(2) } else { ok(11) },
        };
        let unlink = |_name: &String| if step == 2 { failed(13) } else { ok(0) };
        let truncate = |_fd: i32, _size: usize| if step == 3 { failed(22) } else { ok(0) };
        match PlatformMem::new(1, open, unlink, truncate) {
            Ok(_) => None,
            Err(failure) => Some((failure.error, failure.close)),
        }
    };
    assert_eq!(fail_at(0), Some((Error::Os(17), vec![])));
    assert_eq!(fail_at(1), Some((Error::Os(2), vec![ScopedFd(10)])));
    assert_eq!(fail_at(2), Some((Error::Os(13), vec![ScopedFd(10), ScopedFd(11)])));
    assert_eq!(fail_at(3), Some((Error::Os(22), vec![ScopedFd(10), ScopedFd(11)])));
    assert_eq!(fail_at(4), None);
}

#[test]
fn second_handle_has_no_more_access() {
    let memory = make_platform(64);
    let read_only = match memory.clone(Access::Read).unwrap().reply(ok(20)) {
        Step::Done(Ok(memory)) => memory,
        _ => panic!("not cloned"),
    };
    assert_eq!(read_only, PlatformMem { rw_fd: None, ro_fd: ScopedFd(20), size: 64 });
    assert_eq!(read_only.clone(Access::ReadWrite), Err(Error::Fault(Fault::MemoryReadOnly)));
    assert_eq!(read_only.map(.., Access::ReadWrite, PAGE), Err(Error::Fault(Fault::MemoryReadOnly)));

    let cloning = memory.clone(Access::ReadWrite).unwrap();
    assert_eq!(cloning.call(), 10);
    let cloning = match cloning.reply(ok(30)) {
        Step::Next(cloning) => cloning,
        Step::Done(_) => panic!("over"),
    };
    assert_eq!(cloning.call(), 11);
    assert_eq!(
        cloning.reply(ok(31)),
        Step::Done(Ok(PlatformMem { rw_fd: Some(ScopedFd(30)), ro_fd: ScopedFd(31), size: 64 }))
    );
    assert_eq!(memory.clone(Access::Read).unwrap().reply(failed(24)), Step::Done(Err(Error::Os(24))));
}

#[test]
fn handles_to_one_object_share_its_token() {
    let memory = make(64);
    let clone = |inner: &PlatformMem, access: Access| {
        assert_eq!((inner.ro_fd.0, access), (11, Access::Read));
        Ok(PlatformMem { rw_fd: None, ro_fd: ScopedFd(20), size: inner.size })
    };
    let other = memory.clone_with_access(Access::Read, clone).unwrap();
    assert_eq!(other.token, memory.token);
    assert_eq!(other.inner.ro_fd, ScopedFd(20));
    assert_ne!(make(64).token, memory.token);
    assert_eq!((memory.token >> 76) & 0xf, 4);
    assert_eq!(map(&memory, .., Access::Read).unwrap().token(), memory.token);
    let refused = memory.clone_with_access(Access::Read, |_inner: &PlatformMem, _access: Access| Err(Error::Os(1)));
    assert!(matches!(refused, Err(Error::Os(1))));
    let refused: Result<SharedMem<PlatformMem>, Error> = SharedMem::new(64, |_size: usize| Err(Error::Os(2)));
    assert!(matches!(refused, Err(Error::Os(2))));
    let unmapped = |_inner: &PlatformMem, _range: RangeFull, _access: Access| Err(Error::Os(3));
    assert_eq!(memory.map(.., Access::Read, unmapped), Err(Error::Os(3)));
}

#[test]
fn mapping_covers_whole_pages() {
    let memory = make_platform(10_000);
    assert_eq!(
        memory.map(.., Access::Read, PAGE),
        Ok(MapRequest {
            fd: 11,
            access: Access::Read,
            mapping_offset: 0,
            mapping_len: 12_288,
            user_offset: 0,
            user_len: 10_000,
        })
    );
    let request = memory.map(5_000.., Access::ReadWrite, PAGE).unwrap();
    assert_eq!(
        request,
        MapRequest {
            fd: 10,
            access: Access::ReadWrite,
            mapping_offset: 4_096,
            mapping_len: 4_096,
            user_offset: 5_000,
            user_len: 1,
        }
    );
    let map = request.mapped(Ok(0x8000)).unwrap();
    assert_eq!(
        map.region(),
        Region { pointer: 0x8000 + 904, len: 1, offset: 5_000, access: Access::ReadWrite }
    );
    assert_eq!(map.unmap(ok(0)), Ok(()));
    assert_eq!(map.unmap(failed(22)), Err(Error::Os(22)));
    assert_eq!(request.mapped(Err(Error::Os(12))), Err(Error::Os(12)));
}

#[test]
fn mapping_outside_of_the_object_is_refused() {
    let memory = make_platform(100);
    assert_eq!(memory.map(100.., Access::Read, PAGE), Err(Error::Fault(Fault::MapRange)));
    assert_eq!(memory.map(usize::MAX.., Access::Read, PAGE), Err(Error::Fault(Fault::MapRange)));
    assert!(memory.map(99.., Access::Read, PAGE).is_ok());
}

#[test]
fn mapping_without_regard_to_pages() {
    let memory = make_platform(100);
    assert_eq!(
        memory.map_with(.., Access::Read),
        Ok(MapRequest {
            fd: 11,
            access: Access::Read,
            mapping_offset: 0,
            mapping_len: 100,
            user_offset: 0,
            user_len: 100,
        })
    );
    assert_eq!(memory.map_with(7.., Access::ReadWrite).unwrap().mapping_len, 8);
    let read_only = PlatformMem { rw_fd: None, ro_fd: ScopedFd(1), size: 1 };
    assert_eq!(read_only.map_with(.., Access::ReadWrite), Err(Error::Fault(Fault::MemoryReadOnly)));
}

#[test]
fn ranges_have_their_bounds() {
    assert_eq!(RangeArgument::<usize>::start(&(..)), Bound::Unbounded);
    assert_eq!(RangeArgument::<usize>::end(&(..)), Bound::Unbounded);
    assert_eq!(RangeArgument::start(&(3..)), Bound::Included(&3));
    assert_eq!(RangeArgument::end(&(3..)), Bound::Unbounded);
    assert_eq!(RangeArgument::start(&(..9)), Bound::Unbounded);
    assert_eq!(RangeArgument::end(&(..9)), Bound::Excluded(&9));
    assert_eq!(RangeArgument::start(&(3..9)), Bound::Included(&3));
    assert_eq!(RangeArgument::end(&(3..9)), Bound::Excluded(&9));
}

#[test]
fn descriptor_flags_are_read_before_they_are_set() {
    let mut slot = None;
    let _guard = ChannelSerializeWrapper::before_serialize(&mut slot, false);
    let sending = SendableFd(9).serialize(&slot).unwrap();
    assert_eq!(sending.call(), HandleCall::Duplicate { fd: 9 });
    let sending = match sending.reply(slot.as_mut().unwrap(), ok(40)) {
        Step::Next(next) => next,
        Step::Done(_) => panic!("over"),
    };
    assert_eq!(sending.call(), HandleCall::Flags(FlagCall::Read { fd: 40 }));
    let sending = match sending.reply(slot.as_mut().unwrap(), ok(2)) {
        Step::Next(next) => next,
        Step::Done(_) => panic!("over"),
    };
    assert_eq!(sending.call(), HandleCall::Flags(FlagCall::Write { fd: 40, flags: 3 }));
    assert_eq!(sending.reply(slot.as_mut().unwrap(), ok(0)), Step::Done(Ok(0)));
    assert_eq!(slot.unwrap().fds, vec![40]);
}
