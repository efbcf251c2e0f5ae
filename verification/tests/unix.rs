use sandbox_ipc::error::{Error, Fault};
use sandbox_ipc::ser::Async;
use sandbox_ipc::step::{Reply, Step};
use sandbox_ipc::unix::channel::{
    raw_socketpair, socket_type, ChildMessageChannel, MessageChannel, NamedMessageChannel, NamingFailure,
    PreMessageChannel, ProcessHandle, SocketType, TransferReply, LISTEN_BACKLOG,
};
use sandbox_ipc::unix::cmsg::{cmsg_align, cmsg_len, cmsg_space, sockaddr_un, Cmsg};
use sandbox_ipc::unix::fd::{clear_cloexec, set_cloexec, CloexecGuard, FlagCall, FlagChange, ScopedFd};
use sandbox_ipc::unix::handles::{
    ChannelSerializeWrapper, HandleCall, HandleReceiver, HandleSender, Receiving, SendableFd, Sending, MAX_MSG_FDS,
};
use std::cell::{Cell, RefCell};

fn ok(value: i32) -> Reply {
    Reply { value, errno: 0 }
}

fn failed(errno: i32) -> Reply {
    Reply { value: -1, errno }
}

fn change(change: FlagChange, flags: i32) -> i32 {
    match change.reply(ok(flags)) {
        Step::Next(FlagChange::Write { flags, .. }) => flags,
        _ => panic!("flags are not set"),
    }
}

#[test]
fn only_one_flag_changes() {
    assert_eq!(change(set_cloexec(3), 0), libc::FD_CLOEXEC);
    assert_eq!(change(set_cloexec(3), 0b1010), 0b1010 | libc::FD_CLOEXEC);
    assert_eq!(change(clear_cloexec(3), 0b1010 | libc::FD_CLOEXEC), 0b1010);
    assert_eq!(change(clear_cloexec(3), change(set_cloexec(3), 6)), 6);
}

#[test]
fn flags_are_read_and_set() {
    let start = set_cloexec(3);
    assert_eq!(start.call(), FlagCall::Read { fd: 3 });
    let next = match start.reply(ok(4)) {
        Step::Next(next) => next,
        Step::Done(_) => panic!("over"),
    };
    assert_eq!(next.call(), FlagCall::Write { fd: 3, flags: 5 });
    assert_eq!(next.reply(ok(0)), Step::Done(Ok(())));
    assert_eq!(next.reply(failed(9)), Step::Done(Err(Error::Os(9))));
    // A failure to read is left to the call that sets the flags.
    assert_eq!(start.reply(failed(9)), Step::Next(FlagChange::Write { fd: 3, flags: -1 }));
}

#[test]
fn flag_may_be_another_bit() {
    let flag = 0x0100_0000;
    let start = set_cloexec(3);
    assert_eq!(start.reply_by(flag, ok(5)), Step::Next(FlagChange::Write { fd: 3, flags: 0x0100_0005 }));
    let start = clear_cloexec(3);
    assert_eq!(start.reply_by(flag, ok(0x0100_0005)), Step::Next(FlagChange::Write { fd: 3, flags: 5 }));
    let setup = raw_socketpair(Ok((3, 4))).unwrap();
    match setup.reply_by(flag, ok(2)) {
        Step::Next(next) => assert_eq!(next.call(), FlagCall::Write { fd: 3, flags: 0x0100_0002 }),
        Step::Done(_) => panic!("over"),
    }
    let mut sender = HandleSender { fds: vec![1], sealed: false };
    let sending = Sending::Flags { duplicate: 6, change: set_cloexec(6) };
    let sending = match sending.reply_by(flag, &mut sender, ok(0)) {
        Step::Next(next) => next,
        Step::Done(_) => panic!("over"),
    };
    assert_eq!(sending.call(), HandleCall::Flags(FlagCall::Write { fd: 6, flags: flag }));
    assert_eq!(sending.reply_by(flag, &mut sender, ok(0)), Step::Done(Ok(1)));
    assert_eq!(sender.fds, vec![1, 6]);
    let receiving = Receiving::Flags { fd: 7, change: set_cloexec(7) };
    match receiving.reply_by(flag, ok(1)) {
        Step::Next(next) => assert_eq!(next.call(), FlagCall::Write { fd: 7, flags: 0x0100_0001 }),
        Step::Done(_) => panic!("over"),
    }
}

#[test]
fn guard_sets_the_flag_again() {
    let guard = CloexecGuard::new(&7, Ok(())).unwrap();
    assert_eq!(guard.release(), set_cloexec(7));
    assert_eq!(CloexecGuard::new(&7, Err(Error::Os(9))), Err(Error::Os(9)));
}

#[test]
fn control_message_sizes() {
    let word = core::mem::size_of::<usize>();
    assert_eq!(cmsg_align(0), 0);
    assert_eq!(cmsg_align(1), word);
    assert_eq!(cmsg_align(word), word);
    assert_eq!(cmsg_len(16, 4), 20);
    assert_eq!(cmsg_space(16, 4), 16 + word);
    assert_eq!(cmsg_len(12, 4), cmsg_align(12) + 4);
}

#[test]
fn control_message_has_the_header_of_this_platform() {
    let header = core::mem::size_of::<libc::cmsghdr>();
    let cmsg = Cmsg::new(5);
    assert_eq!(cmsg.declared_len(), cmsg_align(header) + 5 * 4);
    assert_eq!(cmsg.controllen(), cmsg.declared_len());
    assert_eq!(cmsg.space(), cmsg_align(header) + cmsg_align(20));
    assert_eq!(cmsg.current_fd_count(), 5);
    assert_eq!(cmsg.fds(), &[0; 5]);
}

#[test]
fn control_message_carries_descriptors() {
    let mut cmsg = Cmsg::with_header_size(4, 16);
    cmsg.set_fds(&[7, 8]);
    assert_eq!(cmsg.fds(), &[7, 8]);
    assert_eq!(cmsg.declared_len(), 24);
    assert_eq!(cmsg.controllen(), 24);
    cmsg.reset_fd_count();
    assert_eq!(cmsg.current_fd_count(), 4);
    assert_eq!(cmsg.fds(), &[7, 8, 0, 0]);
    cmsg.received(16 + 12, 16 + 12, vec![1, 2, 3, 4]);
    assert_eq!(cmsg.fds(), &[1, 2, 3]);
    cmsg.received(16, 0, vec![1, 2, 3, 4]);
    assert_eq!(cmsg.fds(), &[] as &[i32]);
    assert_eq!(cmsg.controllen(), 0);
}

#[test]
fn socket_address_ends_with_zeros() {
    assert_eq!(sockaddr_un(b"/a", 5), b"/a\0\0\0".to_vec());
    assert_eq!(sockaddr_un(b"", 1), vec![0]);
    assert_ne!(sockaddr_un(b"/a", 5), sockaddr_un(b"/ab", 5));
}

#[test]
fn no_more_descriptors_than_fit_are_sent() {
    let sender = HandleSender { fds: vec![1; MAX_MSG_FDS], sealed: false };
    assert_eq!(sender.send(5), Err(Error::Fault(Fault::TooManyDescriptors)));
    let sender = HandleSender { fds: vec![1; MAX_MSG_FDS - 1], sealed: false };
    assert_eq!(sender.send(5), Ok(Sending::Duplicate { fd: 5 }));
    assert_eq!(MAX_MSG_FDS, 32);
}

#[test]
fn descriptor_that_cannot_be_duplicated_is_not_sent() {
    let mut sender = HandleSender { fds: vec![], sealed: false };
    let sending = sender.send(5).unwrap();
    assert_eq!(sending.reply(&mut sender, failed(24)), Step::Done(Err(Error::Os(24))));
    let change = FlagChange::Write { fd: 6, flags: 1 };
    let sending = Sending::Flags { duplicate: 6, change };
    assert_eq!(sending.reply(&mut sender, failed(9)), Step::Done(Err(Error::Os(9))));
    assert!(sender.fds.is_empty());
}

#[test]
fn received_descriptor_is_looked_at() {
    let receiver = HandleReceiver { fds: vec![40, 41] };
    assert_eq!(receiver.recv(2), Err(Error::Fault(Fault::DescriptorIndex)));
    let receiving = receiver.recv(1).unwrap();
    assert_eq!(receiving, Receiving::Check { fd: 41 });
    assert_eq!(receiving.call(), FlagCall::Read { fd: 41 });
    assert_eq!(receiving.reply(failed(9)), Step::Done(Err(Error::Fault(Fault::InvalidDescriptor))));
    let receiving = match receiving.reply(ok(0)) {
        Step::Next(next) => next,
        Step::Done(_) => panic!("over"),
    };
    let receiving = match receiving.reply(ok(0)) {
        Step::Next(next) => next,
        Step::Done(_) => panic!("over"),
    };
    assert_eq!(receiving.call(), FlagCall::Write { fd: 41, flags: 1 });
    assert_eq!(receiving.reply(failed(5)), Step::Done(Err(Error::Os(5))));
    assert_eq!(receiving.reply(ok(0)), Step::Done(Ok(41)));
}

#[test]
fn descriptors_need_a_channel() {
    assert_eq!(SendableFd(3).serialize(&None), Err(Error::Fault(Fault::SerializeOutsideChannel)));
    assert_eq!(SendableFd::deserialize(&None, 0), Err(Error::Fault(Fault::DeserializeOutsideChannel)));
}

#[test]
fn serialization_of_messages_can_be_nested() {
    let mut slot = Some(HandleSender { fds: vec![1, 2], sealed: false });
    let guard = ChannelSerializeWrapper::before_serialize(&mut slot, false);
    assert!(slot.as_ref().unwrap().fds.is_empty());
    slot.as_mut().unwrap().fds.push(9);
    guard.release(&mut slot);
    assert_eq!(slot.as_ref().unwrap().fds, vec![1, 2]);

    let mut cmsg = Cmsg::new(MAX_MSG_FDS);
    let guard = ChannelSerializeWrapper::before_serialize(&mut slot, false);
    slot.as_mut().unwrap().fds.push(9);
    guard.commit(&mut slot, &mut cmsg);
    assert_eq!(cmsg.fds(), &[9]);
    assert_eq!(slot.as_ref().unwrap().fds, vec![1, 2]);

    let mut slot = Some(HandleReceiver { fds: vec![3] });
    let guard = ChannelSerializeWrapper::before_deserialize(&mut slot, &cmsg);
    assert_eq!(slot.as_ref().unwrap().fds, vec![9]);
    guard.release(&mut slot);
    assert_eq!(slot.unwrap().fds, vec![3]);
}

#[test]
fn sockets_keep_the_bounds_of_messages() {
    assert_eq!(socket_type(false), SocketType::SeqPacket);
    assert_eq!(socket_type(true), SocketType::Stream);
}

#[test]
fn pair_of_sockets_is_closed_on_exec() {
    let mut setup = raw_socketpair(Ok((3, 4))).unwrap();
    let mut calls = Vec::new();
    let pair = loop {
        calls.push(setup.call());
        match setup.reply(ok(0)) {
            Step::Next(next) => setup = next,
            Step::Done(pair) => break pair,
        }
    };
    assert_eq!(pair, Ok((ScopedFd(3), ScopedFd(4))));
    assert_eq!(
        calls,
        vec![
            FlagCall::Read { fd: 3 },
            FlagCall::Write { fd: 3, flags: 1 },
            FlagCall::Read { fd: 4 },
            FlagCall::Write { fd: 4, flags: 1 },
        ]
    );
    assert_eq!(raw_socketpair(Err(Error::Os(24))), Err(Error::Os(24)));
}

fn channel() -> MessageChannel<i32> {
    MessageChannel::with_socket(Ok(3)).unwrap()
}

fn done(result: isize) -> TransferReply {
    TransferReply { result, errno: 0, would_block: false }
}

const BLOCKED: TransferReply = TransferReply { result: -1, errno: 11, would_block: true };

const BROKEN: TransferReply = TransferReply { result: -1, errno: 32, would_block: false };

const NOT_READY: Error = Error::Fault(Fault::NotReady);

/// Sends a packet on a channel whose calls give these replies, and says how often each call was made.
fn write_with(
    ready: Result<Async<()>, Error>,
    reply: TransferReply,
    waiting: Result<(), Error>,
) -> (Result<usize, Error>, u32, u32) {
    let mut channel = channel();
    channel.cmsg.set_fds(&[5, 6]);
    let (sent, waits) = (Cell::new(0), Cell::new(0));
    let poll_write = |socket: &i32| {
        assert_eq!(*socket, 3);
        ready
    };
    let transmit = |_socket: &i32, cmsg: &Cmsg, bytes: &[u8]| {
        sent.set(sent.get() + 1);
        assert_eq!(cmsg.fds(), &[5, 6]);
        assert_eq!(bytes, b"packet");
        reply
    };
    let need_write = |_socket: &i32| {
        waits.set(waits.get() + 1);
        waiting
    };
    let written = channel.write(b"packet", poll_write, transmit, need_write);
    (written, sent.get(), waits.get())
}

#[test]
fn packet_is_sent_with_its_descriptors() {
    let ready = || Ok(Async::Ready(()));
    assert_eq!(write_with(ready(), done(6), Ok(())), (Ok(6), 1, 0));
    assert_eq!(write_with(ready(), BLOCKED, Ok(())), (Err(Error::Os(11)), 1, 1));
    assert_eq!(write_with(ready(), BLOCKED, Err(Error::Os(1))), (Err(Error::Os(1)), 1, 1));
    assert_eq!(write_with(ready(), BROKEN, Ok(())), (Err(Error::Os(32)), 1, 0));
    assert_eq!(write_with(Ok(Async::NotReady), done(6), Ok(())), (Err(NOT_READY), 0, 0));
    assert_eq!(write_with(Err(Error::Os(2)), done(6), Ok(())), (Err(Error::Os(2)), 0, 0));
    assert_eq!(channel().shutdown(ok(0)), Ok(()));
    assert_eq!(channel().shutdown(failed(107)), Err(Error::Os(107)));
}

/// Receives a packet on a channel whose calls give these replies. Gives the descriptors too, and says how often the
/// event loop was told to wait.
fn read_with(
    ready: Result<Async<()>, Error>,
    reply: TransferReply,
    waiting: Result<(), Error>,
) -> (Result<usize, Error>, Vec<i32>, u32) {
    let mut channel = channel();
    channel.cmsg.set_fds(&[5]);
    let waits = Cell::new(0);
    let receive = |_socket: &i32, cmsg: &mut Cmsg, room: &mut [u8]| {
        assert_eq!(cmsg.current_fd_count(), MAX_MSG_FDS);
        cmsg.set_fds(&[7, 8]);
        room[0] = 1;
        reply
    };
    let need_read = |_socket: &i32| {
        waits.set(waits.get() + 1);
        waiting
    };
    let mut buffer = [0; 4];
    let read = channel.read(&mut buffer, |_socket: &i32| ready, receive, need_read);
    assert_eq!(buffer[0] == 1, channel.cmsg.fds() == [7, 8]);
    (read, channel.cmsg.fds().to_vec(), waits.get())
}

#[test]
fn packet_is_received_with_room_for_descriptors() {
    let ready = || Ok(Async::Ready(()));
    assert_eq!(read_with(ready(), done(2), Ok(())), (Ok(2), vec![7, 8], 0));
    assert_eq!(read_with(ready(), BLOCKED, Ok(())), (Err(Error::Os(11)), vec![7, 8], 1));
    assert_eq!(read_with(ready(), BLOCKED, Err(Error::Os(1))), (Err(Error::Os(1)), vec![7, 8], 1));
    assert_eq!(read_with(ready(), BROKEN, Ok(())), (Err(Error::Os(32)), vec![7, 8], 0));
    assert_eq!(read_with(Ok(Async::NotReady), done(2), Ok(())), (Err(NOT_READY), vec![5], 0));
    assert_eq!(read_with(Err(Error::Os(2)), done(2), Ok(())), (Err(Error::Os(2)), vec![5], 0));
}

#[test]
fn socket_that_is_not_watched_makes_no_channel() {
    let register = |fd: ScopedFd| if fd.0 == 4 { Err(Error::Os(1)) } else { Ok(fd.0) };
    let pair = MessageChannel::pair(Ok((ScopedFd(3), ScopedFd(4))), register);
    assert!(matches!(pair, Err(Error::Os(1))));
    let pair = MessageChannel::pair(Ok((ScopedFd(5), ScopedFd(6))), register).unwrap();
    assert_eq!((pair.0.socket, pair.1.socket), (5, 6));
    assert!(matches!(MessageChannel::pair(Err(Error::Os(24)), register), Err(Error::Os(24))));
    assert!(matches!(ChildMessageChannel { fd: 4 }.into_channel(register), Err(Error::Os(1))));
    assert_eq!(ChildMessageChannel { fd: 9 }.into_channel(register).unwrap().socket, 9);
    let (a, b) = PreMessageChannel::pair(Ok((ScopedFd(7), ScopedFd(8)))).unwrap();
    let process = ProcessHandle::current().unwrap().clone().unwrap();
    assert_eq!(a.into_channel(process, register).unwrap().socket, 7);
    assert_eq!(b.into_sealed_channel(register).unwrap().socket, 8);
}

#[test]
fn sealed_channel_sends_no_descriptors() {
    let (a, b) = PreMessageChannel::pair(Ok((ScopedFd(7), ScopedFd(8)))).unwrap();
    let register = |fd: ScopedFd| Ok(fd.0);
    let process = ProcessHandle::current().unwrap();
    assert!(!a.into_channel(process, register).unwrap().sealed);
    let mut sealed = b.into_sealed_channel(register).unwrap();
    assert!(sealed.sealed);

    let mut slot = None;
    let guard = ChannelSerializeWrapper::before_serialize(&mut slot, sealed.sealed);
    assert_eq!(SendableFd(3).serialize(&slot), Err(Error::Fault(Fault::ChannelSealed)));
    guard.commit(&mut slot, &mut sealed.cmsg);
    assert!(sealed.cmsg.fds().is_empty());

    // Bytes are sent as on any other channel.
    sealed.cmsg.set_fds(&[5, 6]);
    let transmit = |_socket: &i32, cmsg: &Cmsg, bytes: &[u8]| {
        assert!(cmsg.fds().is_empty());
        assert_eq!(bytes, b"packet");
        done(6)
    };
    let ready = |_socket: &i32| Ok(Async::Ready(()));
    assert_eq!(sealed.write(b"packet", ready, transmit, |_socket: &i32| Ok(())), Ok(6));

    // So are descriptors received.
    let receive = |_socket: &i32, cmsg: &mut Cmsg, room: &mut [u8]| {
        cmsg.set_fds(&[40]);
        room[0] = 1;
        done(1)
    };
    let mut buffer = [0; 4];
    assert_eq!(sealed.read(&mut buffer, ready, receive, |_socket: &i32| Ok(())), Ok(1));
    let mut slot = None;
    let guard = ChannelSerializeWrapper::before_deserialize(&mut slot, &sealed.cmsg);
    assert_eq!(SendableFd::deserialize(&slot, 0), Ok(Receiving::Check { fd: 40 }));
    guard.release(&mut slot);
}

#[test]
fn socket_is_open_across_the_launch() {
    let log = RefCell::new(Vec::new());
    let change_flags = |change: FlagChange| {
        log.borrow_mut().push(format!("{:?}", change));
        Ok(())
    };
    let launch = |channel: ChildMessageChannel| {
        log.borrow_mut().push(format!("launch {}", channel.fd));
        Ok((ProcessHandle::current().unwrap(), "child"))
    };
    let register = |fd: ScopedFd| Ok(fd.0);
    let (channel, child) = MessageChannel::establish_with_child_custom(
        Ok((ScopedFd(3), ScopedFd(4))),
        change_flags,
        launch,
        register,
    )
    .unwrap();
    assert_eq!((channel.socket, child), (3, "child"));
    let expected = vec![
        format!("{:?}", clear_cloexec(4)),
        "launch 4".to_string(),
        format!("{:?}", set_cloexec(4)),
    ];
    assert_eq!(log.into_inner(), expected);
}

#[test]
fn launch_goes_on_without_the_flag() {
    let changes = Cell::new(0);
    let change_flags = |_change: FlagChange| {
        changes.set(changes.get() + 1);
        Err(Error::Os(9))
    };
    let launch = |_channel: ChildMessageChannel| Err::<(ProcessHandle, ()), Error>(Error::Os(2));
    let established = MessageChannel::<i32>::establish_with_child_custom(
        Ok((ScopedFd(3), ScopedFd(4))),
        change_flags,
        launch,
        |fd: ScopedFd| Ok(fd.0),
    );
    assert!(matches!(established, Err(Error::Os(2))));
    assert_eq!(changes.get(), 1);
}

fn locate(file: &String) -> Vec<u8> {
    format!("/tmp/{}", file).into_bytes()
}

#[test]
fn named_socket_waits_for_a_connection() {
    let bound = RefCell::new(Vec::new());
    let bind = |socket: i32, path: &Vec<u8>| {
        assert_eq!(socket, 6);
        *bound.borrow_mut() = path.clone();
        ok(0)
    };
    let listen = |socket: i32, backlog: i32| {
        assert_eq!((socket, backlog), (6, LISTEN_BACKLOG));
        ok(0)
    };
    let change_flags = |change: FlagChange| {
        assert_eq!(change, set_cloexec(6));
        Ok(())
    };
    let channel = NamedMessageChannel::new(locate, 108, || 6, change_flags, bind, listen).unwrap();
    assert_eq!(channel.socket, ScopedFd(6));
    assert_eq!(channel.name().len(), "/tmp/".len() + 36);
    let path = bound.into_inner();
    assert_eq!(path.len(), 108);
    assert_eq!(&path[..channel.name().len()], &channel.name()[..]);
    assert!(path[channel.name().len()..].iter().all(|b| *b == 0));

    let accepted = channel.accept(ok(9), |fd: ScopedFd| Ok(fd.0)).unwrap();
    assert_eq!(accepted.socket, 9);
}

#[test]
fn named_socket_is_closed_on_a_failure() {
    let fail_at = |step: i32| {
        let change_flags = |_change: FlagChange| if step == 0 { Err(Error::Os(9)) } else { Ok(()) };
        let bind = |_socket: i32, _path: &Vec<u8>| if step == 1 { failed(98) } else { ok(0) };
        let listen = |_socket: i32, _backlog: i32| if step == 2 { failed(22) } else { ok(0) };
        NamedMessageChannel::new(locate, 108, || 6, change_flags, bind, listen).err()
    };
    let closed = |error: Error| Some(NamingFailure { error, close: Some(ScopedFd(6)) });
    assert_eq!(fail_at(0), closed(Error::Os(9)));
    assert_eq!(fail_at(1), closed(Error::Os(98)));
    assert_eq!(fail_at(2), closed(Error::Os(22)));
    assert_eq!(fail_at(3), None);
}

#[test]
fn connection_goes_to_the_name() {
    let connect = |socket: i32, path: &Vec<u8>| {
        assert_eq!(socket, 6);
        assert_eq!(&path[..], b"/x\0\0");
        ok(0)
    };
    let change_flags = |_change: FlagChange| Ok(());
    let register = |fd: ScopedFd| Ok(fd.0);
    let channel = NamedMessageChannel::connect(b"/x", 4, || 6, change_flags, connect, register).unwrap();
    assert_eq!(channel.socket, 6);
    let refuse = |_socket: i32, _path: &Vec<u8>| failed(111);
    let failure = NamedMessageChannel::connect(b"/x", 4, || 6, change_flags, refuse, register).err();
    assert_eq!(failure, Some(NamingFailure { error: Error::Os(111), close: None }));
    let no_flags = |_change: FlagChange| Err(Error::Os(9));
    let failure = NamedMessageChannel::connect(b"/x", 4, || -1, no_flags, refuse, register).err();
    assert_eq!(failure, Some(NamingFailure { error: Error::Os(9), close: None }));
    let unwatched = |_fd: ScopedFd| Err::<i32, Error>(Error::Os(1));
    let failure = NamedMessageChannel::connect(b"/x", 4, || 6, change_flags, connect, unwatched).err();
    assert_eq!(failure, Some(NamingFailure { error: Error::Os(1), close: None }));
}

#[test]
fn connection_that_is_not_accepted_makes_no_channel() {
    let channel = NamedMessageChannel { socket: ScopedFd(6), name: b"/x".to_vec() };
    assert!(matches!(channel.accept(failed(4), |fd: ScopedFd| Ok(fd.0)), Err(Error::Os(4))));
}
