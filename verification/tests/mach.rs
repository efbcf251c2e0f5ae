use sandbox_ipc::error::{Error, Fault};
use sandbox_ipc::mach::channel::{
    accept_child, poll_recv, Channel, ChannelSerializer, ChildChannelBuilder, ChildChannelMetadata, PreChannel,
    RecvAttempt, CHILD_DESCRIPTORS, TOKEN_LEN,
};
use sandbox_ipc::mach::message::{
    inline_data_capacity, Descriptor, MsgBuffer, PortCopyMode, PortMoveMode, Right,
};
use sandbox_ipc::mach::resource::{
    ChannelResourceReceiver, ChannelResourceSender, RawResource, RawResourceRef, RawResourceTransceiver, Resource,
    ResourceExt, ResourceKind, ResourceMetadata, ResourceRef, ResourceRefExt, ResourceTransceiver,
    ResourceTransceiverExt,
};
use sandbox_ipc::mach::word::{word_bytes, word_value, Endian};
use sandbox_ipc::ser::Async;
use sandbox_ipc::unix::fd::ScopedFd;
use sandbox_ipc::unix::resource::ResourceExt as UnixResourceExt;
use sandbox_ipc::unix::resource::ResourceRefExt as UnixResourceRefExt;
use sandbox_ipc::unix::resource::ResourceTransceiverExt as UnixResourceTransceiverExt;
use std::cell::{Cell, RefCell};
use std::time::Duration;

const WORD: usize = core::mem::size_of::<usize>();

fn no_port(_fd: i32) -> Result<u32, Error> {
    Err(Error::Os(9))
}

fn no_fd(_port: u32) -> Result<i32, Error> {
    Err(Error::Os(3))
}

/// Both ends of a channel over ports with numbers; a right to send to a port has a number greater by 1000.
fn make_pair() -> (PreChannel<u32>, PreChannel<u32>) {
    let next = Cell::new(0);
    let new_port = || {
        next.set(next.get() + 1);
        Ok(next.get())
    };
    let make_sender = |port: &u32| Ok(*port + 1000);
    PreChannel::pair(new_port, make_sender).unwrap()
}

#[test]
fn make_prechannel() {
    let (a, b) = make_pair();
    assert_eq!(a.tx, b.rx + 1000);
    assert_eq!(b.tx, a.rx + 1000);
    assert_ne!(a.rx, b.rx);
}

#[test]
fn pair_fails_where_a_port_does() {
    let fail = || Err::<u32, Error>(Error::Os(6));
    assert_eq!(PreChannel::pair(fail, |port: &u32| Ok(*port)), Err(Error::Os(6)));
    let make_sender = |_port: &u32| Err::<u32, Error>(Error::Os(7));
    assert_eq!(PreChannel::pair(|| Ok(1u32), make_sender), Err(Error::Os(7)));
}

#[test]
fn words_have_their_bytes() {
    let little = word_bytes(0x0102, Endian::Little);
    assert_eq!(little, 0x0102usize.to_le_bytes().to_vec());
    let big = word_bytes(0x0102, Endian::Big);
    assert_eq!(big, 0x0102usize.to_be_bytes().to_vec());
    assert_eq!(word_value(&little, Endian::Little), 0x0102);
    assert_eq!(word_value(&big, Endian::Big), 0x0102);
    assert_eq!(word_value(&[0xff; WORD], Endian::Little), usize::MAX);
    assert_eq!(word_value(&word_bytes(usize::MAX, Endian::Big), Endian::Big), usize::MAX);
}

#[test]
fn frame_is_padded() {
    let mut msg = MsgBuffer::new();
    msg.finish(b"abcde", Endian::Little);
    let mut expected = 5usize.to_le_bytes().to_vec();
    expected.extend_from_slice(b"abcde\0\0\0");
    assert_eq!(msg.inline_data, expected);
    let mut msg = MsgBuffer::new();
    msg.finish(b"abcd", Endian::Big);
    assert_eq!(msg.inline_data.len(), WORD + 4);
    let mut buffer = [9u8; 6];
    assert_eq!(msg.data(&mut buffer, Endian::Big), Ok(4));
    assert_eq!(&buffer, b"abcd\x09\x09");
    assert_eq!(inline_data_capacity(6), WORD + 6);
}

#[test]
fn frame_that_is_broken_is_refused() {
    let mut msg = MsgBuffer::new();
    let mut buffer = [0u8; 4];
    msg.extend_inline_data(&[1; WORD - 1]);
    assert_eq!(msg.data(&mut buffer, Endian::Little), Err(Error::Fault(Fault::MessageTooShort)));
    let mut msg = MsgBuffer::new();
    msg.extend_inline_data(&3usize.to_le_bytes());
    msg.extend_inline_data(&[1, 2]);
    assert_eq!(msg.data(&mut buffer, Endian::Little), Err(Error::Fault(Fault::MessageLengthMismatch)));
    let mut msg = MsgBuffer::new();
    msg.finish(b"abcde", Endian::Little);
    assert_eq!(msg.data(&mut buffer, Endian::Little), Err(Error::Fault(Fault::BufferTooSmall)));
    assert_eq!(buffer, [0; 4]);
}

#[test]
fn metadata_reads_back() {
    let metadata = ResourceMetadata { descriptor_index: 0x0102_0304, kind: ResourceKind::Fd };
    let little = metadata.to_bytes(Endian::Little);
    assert_eq!(little, vec![4, 3, 2, 1, 1, 0, 0, 0]);
    let big = metadata.to_bytes(Endian::Big);
    assert_eq!(big, vec![1, 2, 3, 4, 0, 0, 0, 1]);
    assert_eq!(ResourceMetadata::from_bytes(&little, Endian::Little), Ok(metadata));
    assert_eq!(ResourceMetadata::from_bytes(&big, Endian::Big), Ok(metadata));
    assert_eq!(
        ResourceMetadata::from_bytes(&little[..7], Endian::Little),
        Err(Error::Fault(Fault::ResourceTooShort))
    );
    assert_eq!(
        ResourceMetadata::from_bytes(&[0, 0, 0, 0, 2, 0, 0, 0], Endian::Little),
        Err(Error::Fault(Fault::ResourceKind))
    );
    assert_eq!(ResourceKind::from_u32(0), Some(ResourceKind::Port));
    assert_eq!(ResourceKind::from_u32(2), None);
    assert_eq!(ResourceKind::Fd.to_u32(), 1);
}

#[test]
fn resources_are_found_where_they_were_put() {
    let channel: Channel<u32, ()> = make_pair()
        .0
        .into_resource_channel(|_rx: &u32| Ok(()), ResourceTransceiver::mach())
        .unwrap();
    let mut sender = channel.send_with_resources().unwrap();
    let port = sender.move_resource(RawResource::Port(PortMoveMode::Receive, 5), no_port).unwrap();
    let fd = sender.copy_resource(RawResourceRef::Fd(8), |fd: i32| Ok(fd as u32 + 500)).unwrap();
    assert_eq!(port, ResourceMetadata { descriptor_index: 0, kind: ResourceKind::Port });
    assert_eq!(fd, ResourceMetadata { descriptor_index: 1, kind: ResourceKind::Fd });
    let msg = sender.finish(b"data", Endian::Little);
    assert_eq!(
        msg.descriptors,
        vec![
            Descriptor::Port { right: Right::Move(PortMoveMode::Receive), port: Some(5) },
            Descriptor::Port { right: Right::Copy(PortCopyMode::Send), port: Some(508) },
        ]
    );

    let mut buffer = [0u8; 16];
    let receive = |max_resources: usize, capacity: usize| {
        assert_eq!((max_resources, capacity), (2, WORD + 16));
        Ok(msg)
    };
    let mut receiver = channel.recv_with_resources(2, &mut buffer, Endian::Little, receive).unwrap();
    assert_eq!(receiver.data_len(), 4);
    assert_eq!(&buffer[..4], b"data");
    let taken = receiver.recv_resource(fd, |port: u32| Ok(port as i32 - 500));
    assert_eq!(taken, Ok(RawResource::Fd(ScopedFd(8))));
    assert_eq!(receiver.recv_resource(fd, no_fd), Err(Error::Fault(Fault::ResourceTaken)));
    let missing = ResourceMetadata { descriptor_index: 2, kind: ResourceKind::Fd };
    assert_eq!(receiver.recv_resource(missing, no_fd), Err(Error::Fault(Fault::ResourceIndex)));
}

#[test]
fn resource_that_cannot_be_converted_is_an_error() {
    let mut sender = ChannelResourceSender { msg: MsgBuffer::new() };
    assert_eq!(sender.move_resource(RawResource::Fd(ScopedFd(1)), no_port), Err(Error::Os(9)));
    assert_eq!(sender.copy_resource(RawResourceRef::Fd(1), no_port), Err(Error::Os(9)));
    assert!(sender.msg.descriptors.is_empty());
    let moved = sender.move_resource(RawResource::Fd(ScopedFd(1)), |fd: i32| Ok(fd as u32)).unwrap();
    let mut receiver = ChannelResourceReceiver { msg: sender.msg, data_len: 0 };
    assert_eq!(receiver.recv_resource(moved, no_fd), Err(Error::Os(3)));
    assert_eq!(receiver.recv_resource(moved, no_fd), Err(Error::Fault(Fault::ResourceTaken)));
}

#[test]
fn resources_need_a_channel_that_carries_them() {
    let (a, b) = make_pair();
    let plain: Channel<u32, u8> = a.into_channel(|rx: &u32| Ok(*rx as u8)).unwrap();
    assert_eq!(plain.rx_registration, 2);
    assert!(matches!(plain.send_with_resources(), Err(Error::Fault(Fault::NoResourceTransmission))));
    let mut buffer = [0u8; 4];
    let receive = |_max: usize, _capacity: usize| Ok(MsgBuffer::new());
    assert!(matches!(
        plain.recv_with_resources(1, &mut buffer, Endian::Little, receive),
        Err(Error::Fault(Fault::NoResourceReceiving))
    ));
    let tx_only: Channel<u32, ()> =
        b.into_resource_channel(|_rx: &u32| Ok(()), ResourceTransceiver::mach_tx_only()).unwrap();
    assert!(tx_only.send_with_resources().is_ok());
    assert!(matches!(
        tx_only.recv_with_resources(1, &mut buffer, Endian::Little, receive),
        Err(Error::Fault(Fault::NoResourceReceiving))
    ));
    let (a, b) = make_pair();
    let agreed: Channel<u32, ()> = a
        .into_agreed_channel(|_rx: &u32| Ok(()), Some(RawResourceTransceiver::Mach { tx: false, rx: true }))
        .unwrap();
    assert!(agreed.send_with_resources().is_err());
    let refused = |_resources: usize, _bytes: usize| Err(Error::Os(5));
    assert!(agreed.recv_with_resources(1, &mut buffer, Endian::Little, refused).is_err());
    let unwatched = b.into_agreed_channel(|_rx: &u32| Err::<(), Error>(Error::Os(1)), None);
    assert_eq!(unwatched, Err(Error::Os(1)));
}

#[test]
fn data_is_sent_and_received_without_resources() {
    let channel: Channel<u32, ()> = make_pair().0.into_channel(|_rx: &u32| Ok(())).unwrap();
    let msg = channel.send(b"hi", Endian::Little);
    assert!(msg.descriptors.is_empty());
    let mut buffer = [0u8; 2];
    assert_eq!(channel.recv(Ok(msg), &mut buffer, Endian::Little), Ok(2));
    assert_eq!(&buffer, b"hi");
    assert_eq!(channel.recv(Err(Error::Os(4)), &mut buffer, Endian::Little), Err(Error::Os(4)));
}

#[test]
fn serializer_gets_a_sender_when_it_needs_one() {
    let channel: Channel<u32, ()> = make_pair()
        .0
        .into_resource_channel(|_rx: &u32| Ok(()), ResourceTransceiver::mach())
        .unwrap();
    let msg = ChannelSerializer::new(&channel).finish(b"plain", Endian::Little);
    assert!(msg.descriptors.is_empty());

    let mut serializer = ChannelSerializer::new(&channel);
    let sender = serializer.ensure_sender().unwrap();
    sender.move_resource(RawResource::Port(PortMoveMode::Send, 4), no_port).unwrap();
    let sender = serializer.ensure_sender().unwrap();
    sender.move_resource(RawResource::Port(PortMoveMode::Send, 5), no_port).unwrap();
    let msg = serializer.finish(b"with", Endian::Little);
    assert_eq!(msg.descriptors.len(), 2);

    let plain: Channel<u32, ()> = make_pair().0.into_channel(|_rx: &u32| Ok(())).unwrap();
    let mut serializer = ChannelSerializer::new(&plain);
    assert!(matches!(serializer.ensure_sender(), Err(Error::Fault(Fault::NoResourceTransmission))));
}

#[test]
fn receiving_waits_for_a_message() {
    let received = || RecvAttempt::Received;
    let timed_out = || RecvAttempt::TimedOut;
    let failed = || RecvAttempt::Failed(Error::Os(4));
    let clear = || Ok(());
    let ready = || Ok(Async::Ready(()));
    assert_eq!(poll_recv(ready(), received, clear), Ok(Async::Ready(())));
    assert_eq!(poll_recv(ready(), timed_out, clear), Ok(Async::NotReady));
    assert_eq!(poll_recv(ready(), timed_out, || Err(Error::Os(5))), Err(Error::Os(5)));
    assert_eq!(poll_recv(ready(), failed, clear), Err(Error::Os(4)));
    assert_eq!(poll_recv(Ok(Async::NotReady), received, clear), Ok(Async::NotReady));
    assert_eq!(poll_recv(Err(Error::Os(6)), received, clear), Err(Error::Os(6)));
}

#[test]
fn resources_are_told_apart() {
    let port = Resource::from_mach_port(PortMoveMode::SendOnce, 3);
    assert_eq!(port.as_mach_port(), Some(3));
    assert_eq!(UnixResourceExt::as_raw_fd(&port), None);
    assert_eq!(port.into_mach_port(), Ok(3));
    let fd = <Resource as UnixResourceExt>::from_fd(7);
    assert_eq!(UnixResourceExt::as_raw_fd(&fd), Some(7));
    assert_eq!(fd.as_mach_port(), None);
    assert_eq!(UnixResourceExt::into_raw_fd(fd), Ok(7));
    let fd = <Resource as UnixResourceExt>::from_fd(7);
    assert_eq!(fd.into_mach_port(), Err(<Resource as UnixResourceExt>::from_fd(7)));
    let port = Resource::from_mach_port(PortMoveMode::Send, 3);
    assert_eq!(UnixResourceExt::into_raw_fd(port), Err(Resource::from_mach_port(PortMoveMode::Send, 3)));
    assert_eq!(ResourceRef::with_mach_port(PortCopyMode::MakeSend, 4).as_mach_port(), Some(4));
    assert_eq!(<ResourceRef as UnixResourceRefExt>::with_raw_fd(5).as_mach_port(), None);
    assert_eq!(UnixResourceRefExt::as_raw_fd(&<ResourceRef as UnixResourceRefExt>::with_raw_fd(5)), Some(5));
    assert_eq!(ResourceTransceiver::mach_rx_only().inner, RawResourceTransceiver::Mach { tx: false, rx: true });
    assert_eq!(<ResourceTransceiver as UnixResourceTransceiverExt>::inline(), ResourceTransceiver::mach());
    assert_eq!(
        <ResourceTransceiver as UnixResourceTransceiverExt>::inline_tx_only(),
        ResourceTransceiver::mach_tx_only()
    );
    assert_eq!(
        <ResourceTransceiver as UnixResourceTransceiverExt>::inline_rx_only(),
        ResourceTransceiver::mach_rx_only()
    );
}

fn child_message(metadata: &ChildChannelMetadata) -> MsgBuffer {
    metadata.message(PreChannel { tx: 21, rx: 22 })
}

#[test]
fn parent_and_child_set_up_a_channel() {
    let mut builder = ChildChannelBuilder::new(vec!["command"]);
    builder.enable_resource_tx(true);
    builder.set_timeout(Some(Duration::from_secs(3)));
    let told: RefCell<Option<ChildChannelMetadata>> = RefCell::new(None);
    let advertise = |name: &String| {
        assert!(name.starts_with("rust.sandbox-ipc-core.child."));
        Ok(name.len())
    };
    let relay = |command: &mut Vec<&str>, metadata: ChildChannelMetadata| {
        command.push("metadata");
        assert!(metadata.resource_rx);
        assert!(!metadata.resource_tx);
        *told.borrow_mut() = Some(metadata);
        Ok(())
    };
    let receive = |_port: usize, descriptors: usize, bytes: usize, timeout: Option<Duration>| {
        assert_eq!((descriptors, bytes), (CHILD_DESCRIPTORS, TOKEN_LEN));
        assert_eq!(timeout, Some(Duration::from_secs(3)));
        Ok(child_message(told.borrow().as_ref().unwrap()))
    };
    let spawn = |command: &mut Vec<&str>| {
        assert_eq!(command, &["command", "metadata"]);
        Ok("child")
    };
    let (child, channel, transceiver) =
        PreChannel::establish_with_child(&mut builder, advertise, relay, spawn, receive, |port: u32| Ok(port))
            .unwrap();
    assert_eq!(child, "child");
    assert_eq!(builder.command, vec!["command", "metadata"]);
    assert_eq!(channel, PreChannel { tx: 21, rx: 22 });
    assert_eq!(transceiver, Some(RawResourceTransceiver::Mach { tx: true, rx: false }));

    let metadata = told.into_inner().unwrap();
    let token = metadata.token;
    assert_ne!(token, [0; 32]);
    let sent = RefCell::new(None);
    let look_up = |name: &String| Ok(name.len());
    let send = |_port: usize, msg: MsgBuffer| {
        *sent.borrow_mut() = Some(msg);
        Ok(())
    };
    let (ours, transceiver) = metadata.into_pre_channel(look_up, || Ok(make_pair()), send).unwrap();
    assert_eq!(ours, make_pair().0);
    assert_eq!(transceiver, Some(RawResourceTransceiver::Mach { tx: false, rx: true }));
    let accepted = accept_child(&sent.into_inner().unwrap(), &token, |port: u32| Ok(port)).unwrap();
    assert_eq!(accepted, make_pair().1);
}

#[test]
fn tokens_differ() {
    let tokens = RefCell::new(Vec::new());
    for _ in 0..2 {
        let mut builder = ChildChannelBuilder::new(());
        let relay = |_command: &mut (), metadata: ChildChannelMetadata| {
            tokens.borrow_mut().push(metadata.token);
            Err(Error::Os(1))
        };
        let receive = |_p: (), _d: usize, _b: usize, _t: Option<Duration>| Ok(MsgBuffer::new());
        let established = PreChannel::establish_with_child(
            &mut builder,
            |_name: &String| Ok(()),
            relay,
            |_command: &mut ()| -> Result<(), Error> { panic!("spawned") },
            receive,
            |port: u32| Ok(port),
        );
        assert_eq!(established, Err(Error::Os(1)));
    }
    let tokens = tokens.into_inner();
    assert_ne!(tokens[0], tokens[1]);
}

fn establish(fail_at: u32) -> Error {
    let mut builder = ChildChannelBuilder::new(());
    builder.enable_resource_rx(true);
    let at = |step: u32| if fail_at == step { Err(Error::Os(step as i32)) } else { Ok(()) };
    let told: RefCell<Option<MsgBuffer>> = RefCell::new(None);
    let relay = |_command: &mut (), metadata: ChildChannelMetadata| {
        *told.borrow_mut() = Some(child_message(&metadata));
        at(1)
    };
    let receive = |_p: (), _d: usize, _b: usize, _t: Option<Duration>| {
        at(3).map(|_| told.borrow_mut().take().unwrap())
    };
    PreChannel::establish_with_child(
        &mut builder,
        |_name: &String| at(0),
        relay,
        |_command: &mut ()| at(2),
        receive,
        |port: u32| at(4).map(|_| port),
    )
    .unwrap_err()
}

#[test]
fn establishing_fails_where_a_part_of_it_does() {
    for step in 0..5 {
        assert_eq!(establish(step), Error::Os(step as i32));
    }
}

#[test]
fn message_of_a_stranger_is_refused() {
    let metadata = ChildChannelMetadata {
        bootstrap_name: "name".to_string(),
        token: [7; 32],
        resource_rx: false,
        resource_tx: false,
    };
    let adopt = |port: u32| Ok::<u32, Error>(port);
    let refused = |msg: &MsgBuffer| accept_child(msg, &[7; 32], adopt).err();
    let msg = child_message(&metadata);
    assert_eq!(refused(&msg), None);
    assert_eq!(accept_child(&msg, &[8; 32], adopt), Err(Error::Fault(Fault::TokenMismatch)));
    let mut msg = child_message(&metadata);
    msg.descriptors[0] = Descriptor::Other;
    assert_eq!(refused(&msg), Some(Error::Fault(Fault::MissingTxDescriptor)));
    let mut msg = child_message(&metadata);
    msg.descriptors.pop();
    assert_eq!(refused(&msg), Some(Error::Fault(Fault::MissingRxDescriptor)));
    let mut msg = child_message(&metadata);
    msg.descriptors[0] = Descriptor::Port { right: Right::Move(PortMoveMode::Send), port: None };
    assert_eq!(refused(&msg), Some(Error::Fault(Fault::MissingTxPort)));
    let mut msg = child_message(&metadata);
    msg.descriptors[1] = Descriptor::Port { right: Right::Move(PortMoveMode::Receive), port: None };
    assert_eq!(refused(&msg), Some(Error::Fault(Fault::MissingRxPort)));
}

#[test]
fn child_fails_where_a_part_of_setting_up_does() {
    let metadata = |name: &str| ChildChannelMetadata {
        bootstrap_name: name.to_string(),
        token: [7; 32],
        resource_rx: false,
        resource_tx: false,
    };
    let look_up = |_name: &String| Ok(());
    let pair = || Ok(make_pair());
    let send = |_port: (), _msg: MsgBuffer| Ok(());
    assert_eq!(
        metadata("a\0b").into_pre_channel(look_up, pair, send),
        Err(Error::Fault(Fault::InvalidServiceName))
    );
    let unknown = |_name: &String| Err::<(), Error>(Error::Os(1));
    assert_eq!(metadata("a").into_pre_channel(unknown, pair, send), Err(Error::Os(1)));
    let no_pair = || Err(Error::Os(2));
    assert_eq!(metadata("a").into_pre_channel(look_up, no_pair, send), Err(Error::Os(2)));
    let unsent = |_port: (), _msg: MsgBuffer| Err(Error::Os(3));
    assert_eq!(metadata("a").into_pre_channel(look_up, pair, unsent), Err(Error::Os(3)));
    let (_, transceiver) = metadata("a").into_pre_channel(look_up, pair, send).unwrap();
    assert_eq!(transceiver, None);
}

#[test]
fn message_carries_what_was_serialized() {
    let channel: Channel<u32, ()> = make_pair()
        .0
        .into_resource_channel(|_rx: &u32| Ok(()), ResourceTransceiver::mach())
        .unwrap();
    let plain = |_serializer: &mut ChannelSerializer<'_, u32, ()>| Some(b"plain".to_vec());
    let msg = channel.send_message(plain, Endian::Little).unwrap();
    assert!(msg.descriptors.is_empty());
    assert_eq!(msg.inline_data, channel.send(b"plain", Endian::Little).inline_data);

    let with_port = |serializer: &mut ChannelSerializer<'_, u32, ()>| {
        let sender = serializer.ensure_sender().unwrap();
        let metadata = sender.move_resource(RawResource::Port(PortMoveMode::Send, 4), no_port).unwrap();
        Some(metadata.to_bytes(Endian::Little))
    };
    let msg = channel.send_message(with_port, Endian::Little).unwrap();
    assert_eq!(msg.descriptors, vec![Descriptor::Port { right: Right::Move(PortMoveMode::Send), port: Some(4) }]);
    let mut buffer = [0u8; 8];
    assert_eq!(channel.recv(Ok(msg), &mut buffer, Endian::Little), Ok(8));
    let metadata = ResourceMetadata { descriptor_index: 0, kind: ResourceKind::Port };
    assert_eq!(ResourceMetadata::from_bytes(&buffer, Endian::Little), Ok(metadata));

    let refused = |_serializer: &mut ChannelSerializer<'_, u32, ()>| None;
    assert!(matches!(
        channel.send_message(refused, Endian::Little),
        Err(Error::Fault(Fault::MessageSerialization))
    ));
}

#[test]
fn child_is_spawned_with_a_channel() {
    let mut builder = ChildChannelBuilder::new("command");
    builder.enable_resource_rx(true).enable_resource_tx(true).set_timeout(None);
    let told: RefCell<Option<ChildChannelMetadata>> = RefCell::new(None);
    let advertise = |_name: &String| Ok(());
    let relay = |_command: &mut &str, metadata: ChildChannelMetadata| {
        *told.borrow_mut() = Some(metadata);
        Ok(())
    };
    let spawn = |_command: &mut &str| Ok("child");
    let receive = |_port: (), _descriptors: usize, _bytes: usize, timeout: Option<Duration>| {
        assert_eq!(timeout, None);
        Ok(child_message(told.borrow().as_ref().unwrap()))
    };
    let adopt = |port: u32| Ok(port);
    let (child, ports, transceiver) = builder.spawn_pre_channel(advertise, relay, spawn, receive, adopt).unwrap();
    assert_eq!(child, "child");
    assert_eq!(ports, PreChannel { tx: 21, rx: 22 });
    assert_eq!(transceiver, Some(ResourceTransceiver::mach()));

    let register = |rx: &u32| Ok(*rx + 5);
    let (child, channel) = builder.spawn(advertise, relay, spawn, receive, adopt, register).unwrap();
    assert_eq!(child, "child");
    assert_eq!((channel.tx, channel.rx, channel.rx_registration), (21, 22, 27));
    assert_eq!(channel.resource_transceiver, Some(RawResourceTransceiver::Mach { tx: true, rx: true }));

    let unregistered = |_rx: &u32| Err::<(), Error>(Error::Os(8));
    let spawned = builder.spawn(advertise, relay, spawn, receive, adopt, unregistered);
    assert!(matches!(spawned, Err(Error::Os(8))));

    builder.enable_resource_rx(false).enable_resource_tx(false);
    let (_, channel) = builder.spawn(advertise, relay, spawn, receive, adopt, register).unwrap();
    assert_eq!(channel.resource_transceiver, None);
}

#[test]
fn child_gets_a_channel_to_its_parent() {
    let metadata = || ChildChannelMetadata {
        bootstrap_name: "parent".to_string(),
        token: [7; 32],
        resource_rx: true,
        resource_tx: false,
    };
    let look_up = |_name: &String| Ok(());
    let pair = || Ok(make_pair());
    let send = |_port: (), _msg: MsgBuffer| Ok(());
    let channel = metadata().into_channel(look_up, pair, send, |rx: &u32| Ok(*rx)).unwrap();
    let ours = make_pair().0;
    assert_eq!((channel.tx, channel.rx, channel.rx_registration), (ours.tx, ours.rx, ours.rx));
    assert_eq!(channel.resource_transceiver, Some(RawResourceTransceiver::Mach { tx: false, rx: true }));
    let unregistered = |_rx: &u32| Err::<(), Error>(Error::Os(8));
    assert!(matches!(metadata().into_channel(look_up, pair, send, unregistered), Err(Error::Os(8))));
    let unknown = |_name: &String| Err::<(), Error>(Error::Os(1));
    assert!(matches!(metadata().into_channel(unknown, pair, send, |_rx: &u32| Ok(())), Err(Error::Os(1))));
}
