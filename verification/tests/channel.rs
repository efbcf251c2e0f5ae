use sandbox_ipc::channel::{
    ChildMessageChannel, ChildRawMessageChannel, MessageChannel, NamedMessageChannel, PreMessageChannel,
    PreRawMessageChannel, ProcessHandle, ProcessToken, RawMessageChannel,
};
use sandbox_ipc::error::Error;
use sandbox_ipc::ser::Async;
use sandbox_ipc::step::Reply;
use sandbox_ipc::unix::channel as platform;
use sandbox_ipc::unix::channel::TransferReply;
use sandbox_ipc::unix::cmsg::Cmsg;
use sandbox_ipc::unix::fd::{clear_cloexec, set_cloexec, FlagChange, ScopedFd};
use std::cell::RefCell;
use std::collections::VecDeque;

fn check_send<T: Send>(_t: &T) {}

fn register(fd: ScopedFd) -> Result<i32, Error> {
    if fd.0 < 0 {
        Err(Error::Os(9))
    } else {
        Ok(fd.0)
    }
}

fn sockets() -> Result<(ScopedFd, ScopedFd), Error> {
    Ok((ScopedFd(3), ScopedFd(4)))
}

#[test]
fn channel_pre_raw_message_channel_is_send() {
    let (a, _b) = PreRawMessageChannel::pair(sockets()).unwrap();
    check_send(&a);
}

#[test]
fn process_token_is_send() {
    let token = ProcessToken::current().unwrap();
    check_send(&token);
}

#[test]
fn process_handle_is_send() {
    let token = ProcessHandle::current().unwrap();
    check_send(&token);
}

#[test]
fn raw_message_channel_pair() {
    let (a, b) = RawMessageChannel::pair(sockets(), register).unwrap();
    assert_eq!((a.inner.socket, b.inner.socket), (3, 4));
}

#[test]
fn channel_of_messages_on_a_channel_of_packets() {
    let (a, _b) = RawMessageChannel::pair(sockets(), register).unwrap();
    let channel = MessageChannel::from_raw(a, 100).unwrap();
    assert_eq!(channel.max_message_size, 100);
    assert_eq!(channel.inner.io.socket, 3);
    assert_eq!(channel.inner.rx_buffer, vec![0; 100]);
    assert_eq!(channel.inner.tx_buffer, vec![0; 100]);
    assert_eq!(channel.inner.buffered_send, None);
}

#[test]
fn pairs_fail_without_sockets() {
    assert!(matches!(RawMessageChannel::pair(Err(Error::Os(24)), register), Err(Error::Os(24))));
    assert!(matches!(MessageChannel::pair(Err(Error::Os(24)), register, 8), Err(Error::Os(24))));
    assert_eq!(PreMessageChannel::pair(Err(Error::Os(24)), 8), Err(Error::Os(24)));
    assert_eq!(PreRawMessageChannel::pair(Err(Error::Os(24))), Err(Error::Os(24)));
    let unwatched = MessageChannel::pair(Ok((ScopedFd(3), ScopedFd(-1))), register, 8);
    assert!(matches!(unwatched, Err(Error::Os(9))));
}

#[test]
fn ends_of_a_channel_keep_the_message_size() {
    let (a, b) = PreMessageChannel::pair(sockets(), 64).unwrap();
    let process = ProcessHandle::current().unwrap().clone().unwrap();
    let a = a.into_channel(process, register).unwrap();
    let b = b.into_sealed_channel(register).unwrap();
    assert_eq!((a.max_message_size, b.max_message_size), (64, 64));
    assert_eq!((a.inner.io.sealed, b.inner.io.sealed), (false, true));
    assert_eq!((a.inner.io.socket, b.inner.io.socket), (3, 4));
}

#[test]
fn ends_of_a_channel_of_packets() {
    let token = ProcessToken::current().unwrap().clone().unwrap();
    let (a, b) = PreRawMessageChannel::pair(sockets()).unwrap();
    assert_eq!(a.into_channel(token, register).unwrap().inner.socket, 3);
    let sealed = b.into_sealed_raw_channel(register).unwrap();
    assert_eq!(sealed.inner.socket, 4);
    assert!(sealed.inner.sealed);
    assert!(MessageChannel::from_raw(sealed, 8).unwrap().inner.io.sealed);
    let (a, _b) = PreRawMessageChannel::pair(sockets()).unwrap();
    let process = ProcessHandle::current().unwrap();
    assert_eq!(a.into_raw_channel(process, register).unwrap().inner.socket, 3);
    let broken = PreRawMessageChannel(platform::PreMessageChannel { fd: ScopedFd(-1) });
    assert!(matches!(broken.into_sealed_raw_channel(register), Err(Error::Os(9))));
}

#[test]
fn child_gets_the_second_socket_and_the_message_size() {
    let log = RefCell::new(Vec::new());
    let change_flags = |change: FlagChange| {
        log.borrow_mut().push(change);
        Ok(())
    };
    let launch = |channel: &ChildMessageChannel| {
        assert_eq!(log.borrow().as_slice(), &[clear_cloexec(4)]);
        Ok(*channel)
    };
    let (ours, theirs) =
        MessageChannel::establish_with_child(sockets(), 256, change_flags, launch, register).unwrap();
    assert_eq!(log.into_inner(), vec![clear_cloexec(4), set_cloexec(4)]);
    assert_eq!((ours.inner.io.socket, ours.max_message_size), (3, 256));
    let theirs = theirs.into_channel(register).unwrap();
    assert_eq!((theirs.inner.io.socket, theirs.max_message_size), (4, 256));
}

#[test]
fn failed_launch_establishes_nothing() {
    let launch = |_channel: &ChildMessageChannel| Err::<(), Error>(Error::Os(2));
    let change_flags = |_change: FlagChange| Ok(());
    let established = MessageChannel::establish_with_child(sockets(), 256, change_flags, launch, register);
    assert!(matches!(established, Err(Error::Os(2))));
    let raw = |_channel: ChildRawMessageChannel| Err::<(ProcessHandle, ()), Error>(Error::Os(2));
    let established = RawMessageChannel::establish_with_child_custom(sockets(), change_flags, raw, register);
    assert!(matches!(established, Err(Error::Os(2))));
}

#[test]
fn channel_of_packets_is_established_with_a_child() {
    let launch = |channel: ChildRawMessageChannel| Ok((ProcessHandle::current().unwrap(), channel));
    let change_flags = |_change: FlagChange| Ok(());
    let (ours, theirs) =
        RawMessageChannel::establish_with_child_custom(sockets(), change_flags, launch, register).unwrap();
    assert_eq!(ours.inner.socket, 3);
    assert_eq!(theirs.into_channel(register).unwrap().inner.socket, 4);
}

#[test]
fn end_that_exists_is_sent_to_a_child() {
    let log = RefCell::new(Vec::new());
    let change_flags = |change: FlagChange| {
        log.borrow_mut().push(change);
        Ok(())
    };
    let (a, _b) = MessageChannel::pair(sockets(), register, 32).unwrap();
    let launch = |channel: &ChildMessageChannel| Ok((channel.inner.fd, channel.max_message_size));
    assert_eq!(a.send_to_child(|socket: &i32| *socket, change_flags, launch), Ok((3, 32)));
    let (a, _b) = RawMessageChannel::pair(sockets(), register).unwrap();
    let launch = |channel: ChildRawMessageChannel| Ok((ProcessToken::current().unwrap(), channel.0.fd));
    assert_eq!(a.send_to_child_custom(|socket: &i32| *socket, change_flags, launch), Ok(3));
    assert_eq!(
        log.into_inner(),
        vec![clear_cloexec(3), set_cloexec(3), clear_cloexec(3), set_cloexec(3)]
    );
}

fn named_channel(bound: i32) -> Result<NamedMessageChannel, platform::NamingFailure> {
    let locate = |file: &String| format!("/{}", file).into_bytes();
    let change_flags = |_change: FlagChange| Ok(());
    let bind = |_socket: i32, _path: &Vec<u8>| Reply { value: bound, errno: 98 };
    let listen = |_socket: i32, _backlog: i32| Reply { value: 0, errno: 0 };
    NamedMessageChannel::new(locate, 108, || 6, change_flags, bind, listen, 16)
}

#[test]
fn named_channel_keeps_the_message_size() {
    let channel = named_channel(0).unwrap();
    assert_eq!(channel.inner.socket, ScopedFd(6));
    assert_eq!(channel.name().len(), 37);
    let accepted = channel.accept(Reply { value: 7, errno: 0 }, register).unwrap();
    assert_eq!((accepted.inner.io.socket, accepted.max_message_size), (7, 16));
    let refused = named_channel(0).unwrap().accept(Reply { value: -1, errno: 4 }, register);
    assert!(matches!(refused, Err(Error::Os(4))));
    let failure = named_channel(-1).err();
    assert_eq!(failure, Some(platform::NamingFailure { error: Error::Os(98), close: Some(ScopedFd(6)) }));
}

#[test]
fn connection_to_a_name_has_a_message_size() {
    let change_flags = |_change: FlagChange| Ok(());
    let connect = |_socket: i32, path: &Vec<u8>| {
        assert_eq!(&path[..], b"/x\0\0");
        Reply { value: 0, errno: 0 }
    };
    let connected = NamedMessageChannel::connect(b"/x", 4, || 8, change_flags, connect, register, 16).unwrap();
    assert_eq!((connected.inner.io.socket, connected.max_message_size), (8, 16));
    let refuse = |_socket: i32, _path: &Vec<u8>| Reply { value: -1, errno: 111 };
    let failure = NamedMessageChannel::connect(b"/x", 4, || 8, change_flags, refuse, register, 16).err();
    assert_eq!(failure, Some(platform::NamingFailure { error: Error::Os(111), close: None }));
}

/// A connection: for each of two sockets, the packets that are on their way to it.
type Connection = RefCell<[VecDeque<(Vec<u8>, usize)>; 2]>;

fn send(connection: &Connection, channel: &RawMessageChannel<i32>, packet: &[u8]) -> Result<usize, Error> {
    let transmit = |socket: &i32, cmsg: &Cmsg, bytes: &[u8]| {
        let other = if *socket == 3 { 1 } else { 0 };
        connection.borrow_mut()[other].push_back((bytes.to_vec(), cmsg.fds().len()));
        TransferReply { result: bytes.len() as isize, errno: 0, would_block: false }
    };
    channel.inner.write(packet, |_socket: &i32| Ok(Async::Ready(())), transmit, |_socket: &i32| Ok(()))
}

fn receive(connection: &Connection, channel: &mut RawMessageChannel<i32>) -> Result<Vec<u8>, Error> {
    let receive = |socket: &i32, cmsg: &mut Cmsg, room: &mut [u8]| {
        let own = if *socket == 3 { 0 } else { 1 };
        match connection.borrow_mut()[own].pop_front() {
            Some((bytes, count)) => {
                room[..bytes.len()].copy_from_slice(&bytes);
                cmsg.set_fds(&vec![50; count]);
                TransferReply { result: bytes.len() as isize, errno: 0, would_block: false }
            }
            None => TransferReply { result: -1, errno: 11, would_block: true },
        }
    };
    let mut buffer = [0; 16];
    let ready = |_socket: &i32| Ok(Async::Ready(()));
    let len = channel.inner.read(&mut buffer, ready, receive, |_socket: &i32| Ok(()))?;
    Ok(buffer[..len].to_vec())
}

fn check_delivery(mut a: RawMessageChannel<i32>, mut b: RawMessageChannel<i32>) {
    let connection: Connection = RefCell::new([VecDeque::new(), VecDeque::new()]);
    a.inner.cmsg.set_fds(&[8, 9]);
    assert_eq!(send(&connection, &a, b"first"), Ok(5));
    a.inner.cmsg.set_fds(&[]);
    assert_eq!(send(&connection, &a, b"second"), Ok(6));
    assert_eq!(receive(&connection, &mut b), Ok(b"first".to_vec()));
    assert_eq!(b.inner.cmsg.fds().len(), if a.inner.sealed { 0 } else { 2 });
    assert_eq!(receive(&connection, &mut b), Ok(b"second".to_vec()));
    assert!(b.inner.cmsg.fds().is_empty());
    assert_eq!(receive(&connection, &mut b), Err(Error::Os(11)));
    assert_eq!(receive(&connection, &mut a), Err(Error::Os(11)));
    b.inner.cmsg.set_fds(&[]);
    assert_eq!(send(&connection, &b, b"back"), Ok(4));
    assert_eq!(receive(&connection, &mut a), Ok(b"back".to_vec()));
}

#[test]
fn what_one_end_writes_the_other_reads() {
    let (a, b) = RawMessageChannel::pair(sockets(), register).unwrap();
    check_delivery(a, b);

    let change_flags = |_change: FlagChange| Ok(());
    let launch = |channel: ChildRawMessageChannel| Ok((ProcessHandle::current().unwrap(), channel));
    let (parent, told) =
        RawMessageChannel::establish_with_child_custom(sockets(), change_flags, launch, register).unwrap();
    check_delivery(parent, told.into_channel(register).unwrap());

    let (a, b) = PreRawMessageChannel::pair(sockets()).unwrap();
    let a = a.into_channel(ProcessToken::current().unwrap(), register).unwrap();
    let b = b.into_sealed_raw_channel(register).unwrap();
    check_delivery(a, b);
    let (a, b) = PreRawMessageChannel::pair(sockets()).unwrap();
    let a = a.into_sealed_raw_channel(register).unwrap();
    let b = b.into_raw_channel(ProcessHandle::current().unwrap(), register).unwrap();
    check_delivery(a, b);
}
