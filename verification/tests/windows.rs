use sandbox_ipc::context::Current;
use sandbox_ipc::error::{Error, Fault};
use sandbox_ipc::shm::{Access, Region};
use sandbox_ipc::windows::channel::{
    connect_started, inherited_handle, raw_pipe_pair, wait_millis, wide_pipe_name, ChildMessageChannel, ConnectReply,
    MessageChannel, NamedMessageChannel, PreMessageChannel, Timeout, ERROR_IO_PENDING, INFINITE, PIPE_PAIR_TIMEOUT,
};
use sandbox_ipc::windows::handles::{
    ChannelSerializeWrapper, Closing, HandleReceiver, HandleSender, HandleTarget, ProcessHandle, ProcessRef,
    RemoteProcess, SendableWinHandle, WinHandle,
};
use sandbox_ipc::windows::pipe;
use sandbox_ipc::windows::request::{
    message_pipe, HandleAccess, HandleRequest, OpenRequest, PipeRequest, PipeType,
};
use sandbox_ipc::windows::sharedmem::{Halves, MapAccess, SharedMem, ViewRequest};
use sandbox_ipc::windows::socket::{
    deserialize_socket, protocol_name, serialize_socket, Guid, WsaProtoInfo, WsaProtocolChain,
};
use std::cell::RefCell;

const MESSAGE_PIPE_REQUEST: PipeRequest = PipeRequest {
    pipe_type: PipeType { message: true, message_read_mode: true, reject_remote_clients: true },
    duplex: true,
    overlapped: true,
    instances: 1,
    everybody: true,
};

const CLIENT_REQUEST: OpenRequest = OpenRequest {
    read: true,
    write: true,
    shared: false,
    existing: true,
    identification: true,
    overlapped: true,
    everybody: false,
};

const PENDING: ConnectReply = ConnectReply { returned: 0, errno: ERROR_IO_PENDING };

fn process(handle: usize, id: u32) -> ProcessHandle {
    ProcessHandle { handle: SendableWinHandle(WinHandle(handle)), id }
}

#[test]
fn waiting_for_a_connection_has_to_go_on() {
    assert_eq!(connect_started(PENDING), Ok(()));
    assert_eq!(connect_started(ConnectReply { returned: 1, errno: 0 }), Err(Error::Os(0)));
    assert_eq!(connect_started(ConnectReply { returned: 0, errno: 535 }), Err(Error::Os(535)));
    assert_eq!(ERROR_IO_PENDING, 997);
}

#[test]
fn timeouts_are_in_milliseconds() {
    assert_eq!(wait_millis(None), INFINITE);
    assert_eq!(wait_millis(Some(Timeout { secs: 2, nanos: 5_999_999 })), 2005);
    assert_eq!(wait_millis(Some(Timeout { secs: 0, nanos: 0 })), 0);
    assert_eq!(wait_millis(Some(Timeout { secs: 4_294_968, nanos: 0 })), 704);
}

fn pipe_pair(fail_at: i32) -> (Result<(u32, u32), Error>, Vec<String>) {
    let log = RefCell::new(Vec::new());
    let at = |step: i32| if step == fail_at { Err(Error::Os(step)) } else { Ok(()) };
    let create = |name: &String, request: PipeRequest| {
        assert_eq!(request, MESSAGE_PIPE_REQUEST);
        log.borrow_mut().push(name.clone());
        at(2).map(|_| 10u32)
    };
    let connect = |_pipe: &u32| if fail_at == 3 { ConnectReply { returned: 0, errno: 3 } } else { PENDING };
    let open = |name: &String, request: OpenRequest| {
        assert_eq!(request, OpenRequest { everybody: true, ..CLIENT_REQUEST });
        log.borrow_mut().push(name.clone());
        at(4).map(|_| 11u32)
    };
    let wait = |pipe: &u32, millis: u32| {
        assert_eq!((*pipe, millis), (10, PIPE_PAIR_TIMEOUT));
        at(5)
    };
    let pipes = raw_pipe_pair(message_pipe(), || at(0), || at(1), create, connect, open, wait);
    (pipes, log.into_inner())
}

#[test]
fn pipes_are_connected_by_a_fresh_name() {
    let (pipes, names) = pipe_pair(-1);
    assert_eq!(pipes, Ok((10, 11)));
    assert_eq!(names[0], names[1]);
    assert!(names[0].starts_with(r"\\.\pipe\"));
    for step in 0..6 {
        assert_eq!(pipe_pair(step).0, Err(Error::Os(step)));
    }
}

#[test]
fn ends_in_one_process_send_handles_to_it() {
    let register = |pipe: u32| Ok::<u32, Error>(pipe + 100);
    let pipes = |pipe_type: PipeType| {
        assert_eq!(pipe_type, MESSAGE_PIPE_REQUEST.pipe_type);
        Ok((1, 2))
    };
    let (a, b) = MessageChannel::pair(pipes, register).unwrap();
    assert_eq!((a.pipe, a.server, b.pipe, b.server), (101, true, 102, false));
    assert_eq!(a.handle_target(), HandleTarget::CurrentProcess);
    assert_eq!(b.handle_target(), HandleTarget::CurrentProcess);
    let failing = |_pipe: u32| Err::<u32, Error>(Error::Os(6));
    assert!(matches!(MessageChannel::pair(pipes, failing), Err(Error::Os(6))));
}

#[test]
fn child_inherits_a_pipe_and_a_process() {
    let launch = |channel: ChildMessageChannel| Ok((process(50, 7), channel));
    let (channel, child) = MessageChannel::establish_with_child_custom(
        |_pipe_type: PipeType| Ok((1u32, 2u32)),
        |request: HandleRequest| {
            assert_eq!(request, HandleRequest { access: HandleAccess::DuplicateHandles, inheritable: true });
            Ok(WinHandle(40))
        },
        |pipe: u32, request: HandleRequest| {
            assert_eq!(request, HandleRequest { access: HandleAccess::Same, inheritable: true });
            Ok(WinHandle(pipe as usize))
        },
        77,
        launch,
        |pipe: u32| Ok(pipe),
    )
    .unwrap();
    assert_eq!((channel.pipe, channel.server), (1, true));
    assert_eq!(channel.handle_target(), HandleTarget::RemoteProcess(RemoteProcess { handle: 50, id: 7 }));
    let mut handles = child.handles();
    assert_eq!(handles.next(), Some(2));
    assert_eq!(handles.next(), Some(40));
    assert_eq!(handles.next(), None);
    let theirs = child.into_channel(|pipe: WinHandle| Ok(pipe.0)).unwrap();
    assert!(!theirs.server);
    assert_eq!(theirs.handle_target(), HandleTarget::RemoteProcess(RemoteProcess { handle: 40, id: 77 }));
}

#[test]
fn child_without_a_process_sends_no_handles() {
    let child = ChildMessageChannel {
        channel_handle: WinHandle(2),
        remote_process_handle: None,
        remote_process_id: 0,
    };
    let mut handles = child.handles();
    assert_eq!(handles.next(), Some(2));
    assert_eq!(handles.next(), None);
    let channel = child.into_channel(|pipe: WinHandle| Ok(pipe.0)).unwrap();
    assert_eq!(channel.handle_target(), HandleTarget::Nobody);
}

#[test]
fn establishing_a_pipe_fails_where_a_part_of_it_does() {
    let establish = |fail_at: i32| {
        let at = |step: i32| if step == fail_at { Err(Error::Os(step)) } else { Ok(()) };
        MessageChannel::establish_with_child_custom(
            |_pipe_type: PipeType| at(0).map(|_| (1u32, 2u32)),
            |_request: HandleRequest| at(1).map(|_| WinHandle(40)),
            |_pipe: u32, _request: HandleRequest| at(2).map(|_| WinHandle(41)),
            77,
            |_channel: ChildMessageChannel| at(3).map(|_| (process(50, 7), ())),
            |pipe: u32| at(4).map(|_| pipe),
        )
        .err()
    };
    for step in 0..5 {
        assert_eq!(establish(step), Some(Error::Os(step)));
    }
    assert_eq!(establish(5), None);
}

#[test]
fn inherited_handle_may_be_invalid() {
    assert_eq!(inherited_handle(Some(WinHandle(3))), Ok(WinHandle(3)));
    assert_eq!(inherited_handle(None), Err(Error::Fault(Fault::InvalidInheritedHandle)));
}

#[test]
fn sealed_end_sends_no_handles() {
    let (a, b) = PreMessageChannel::pair(|_pipe_type: PipeType| Ok((1u32, 2u32))).unwrap();
    let open = a.into_channel(process(9, 8), |pipe: u32| Ok(pipe)).unwrap();
    assert!(open.server);
    assert_eq!(open.handle_target(), HandleTarget::RemoteProcess(RemoteProcess { handle: 9, id: 8 }));
    let sealed = b.into_sealed_channel(|pipe: u32| Ok(pipe)).unwrap();
    assert!(!sealed.server);
    let mut sender = HandleSender::new(sealed.handle_target());
    let duplicate = |_handle: usize, _process: ProcessRef| panic!("duplicated");
    assert_eq!(sender.send(5, duplicate), Err(Error::Fault(Fault::HandlesNotConfigured)));
    assert_eq!(sender.remote_process_id(1), Err(Error::Fault(Fault::HandlesNotConfigured)));
    assert!(matches!(PreMessageChannel::<u32>::pair(|_pipe_type: PipeType| Err(Error::Os(1))), Err(Error::Os(1))));
}

#[test]
fn names_of_pipes_are_wide() {
    assert_eq!(wide_pipe_name("ab"), Ok(vec![0x61, 0x62, 0]));
    assert_eq!(wide_pipe_name(""), Ok(vec![0]));
    assert_eq!(wide_pipe_name("\u{e9}\u{20ac}"), Ok(vec![0xe9, 0x20ac, 0]));
    assert_eq!(wide_pipe_name("\u{1f600}"), Ok(vec![0xd83d, 0xde00, 0]));
    assert_eq!(wide_pipe_name("a\0"), Ok(vec![0x61, 0]));
    assert_eq!(wide_pipe_name("a\0b"), Err(Error::Fault(Fault::InvalidPipeName)));
    assert_eq!(wide_pipe_name("a\0\0"), Err(Error::Fault(Fault::InvalidPipeName)));
}

#[test]
fn named_pipe_is_accepted_in_time() {
    let create = |_name: &String, request: PipeRequest| {
        assert_eq!(request, PipeRequest { everybody: false, ..MESSAGE_PIPE_REQUEST });
        Ok(10u32)
    };
    let open_process = |id: u32, request: HandleRequest| {
        assert_eq!(request, HandleRequest { access: HandleAccess::DuplicateHandles, inheritable: false });
        Ok(WinHandle(id as usize + 1))
    };
    let channel = NamedMessageChannel::new(create, |_pipe: &u32| PENDING).unwrap();
    assert!(channel.name().starts_with(r"\\.\pipe\"));
    let wait = |_pipe: &u32, millis: u32| {
        assert_eq!(millis, 1500);
        Ok(())
    };
    let timeout = Some(Timeout { secs: 1, nanos: 500_000_000 });
    let accepted = channel
        .accept(timeout, wait, |_pipe: &u32| Ok(33), open_process, |pipe: u32| Ok(pipe))
        .unwrap();
    assert!(accepted.server);
    assert_eq!(accepted.handle_target(), HandleTarget::RemoteProcess(RemoteProcess { handle: 34, id: 33 }));
    let refused = NamedMessageChannel::new(
        |_name: &String, _request: PipeRequest| Err::<u32, Error>(Error::Os(5)),
        |_pipe: &u32| PENDING,
    );
    assert!(matches!(refused, Err(Error::Os(5))));
    let early = ConnectReply { returned: 1, errno: 8 };
    let refused = NamedMessageChannel::new(|_name: &String, _request: PipeRequest| Ok(1u32), |_pipe: &u32| early);
    assert!(matches!(refused, Err(Error::Os(8))));
}

fn connect(name: &str, fail_at: i32) -> Result<MessageChannel<u32>, Error> {
    let at = |step: i32| if step == fail_at { Err(Error::Os(step)) } else { Ok(()) };
    NamedMessageChannel::connect(
        name,
        None,
        |units: &Vec<u16>, millis: u32| {
            assert_eq!((units.len(), millis), (2, INFINITE));
            at(0)
        },
        |_units: &Vec<u16>, request: OpenRequest| {
            assert_eq!(request, CLIENT_REQUEST);
            at(1).map(|_| 12u32)
        },
        |_pipe: &u32| at(2).map(|_| 90),
        |id: u32, _request: HandleRequest| at(3).map(|_| WinHandle(id as usize)),
        |pipe: u32| at(4).map(|_| pipe),
    )
}

#[test]
fn named_pipe_is_connected_to() {
    let connected = connect("n", -1).unwrap();
    assert_eq!((connected.pipe, connected.server), (12, false));
    assert_eq!(connected.handle_target(), HandleTarget::RemoteProcess(RemoteProcess { handle: 90, id: 90 }));
    for step in 0..5 {
        assert_eq!(connect("n", step).err(), Some(Error::Os(step)));
    }
    assert_eq!(connect("a\0b", -1).err(), Some(Error::Fault(Fault::InvalidPipeName)));
}

#[test]
fn handles_are_closed_unless_the_message_is_sent() {
    let remote = HandleTarget::RemoteProcess(RemoteProcess { handle: 50, id: 7 });
    let mut current = Current { context: None };
    let guard = ChannelSerializeWrapper::before_serialize(&mut current, remote);
    let duplicate = |handle: usize, process: ProcessRef| {
        assert_eq!(process, ProcessRef::Handle(50));
        Ok(handle + 1000)
    };
    assert_eq!(SendableWinHandle(1usize).serialize(&mut current, duplicate), Ok(1001));
    assert_eq!(SendableWinHandle(2usize).serialize(&mut current, duplicate), Ok(1002));
    let refuse = |_handle: usize, _process: ProcessRef| Err(Error::Os(6));
    assert_eq!(SendableWinHandle(3usize).serialize(&mut current, refuse), Err(Error::Os(6)));
    let closings = ChannelSerializeWrapper::after_serialize(&mut current, guard);
    assert_eq!(
        closings,
        vec![
            Closing::Remote { process: 50, handle: 1001 },
            Closing::Remote { process: 50, handle: 1002 }
        ]
    );
    assert!(!current.has_current());

    let guard = ChannelSerializeWrapper::before_serialize(&mut current, HandleTarget::CurrentProcess);
    let local = |handle: usize, process: ProcessRef| {
        assert_eq!(process, ProcessRef::Current);
        Ok(handle)
    };
    assert_eq!(SendableWinHandle(1usize).serialize(&mut current, local), Ok(1));
    ChannelSerializeWrapper::commit_serialize(&mut current);
    assert!(ChannelSerializeWrapper::after_serialize(&mut current, guard).is_empty());
    assert_eq!(
        SendableWinHandle(1usize).serialize(&mut current, local),
        Err(Error::Fault(Fault::SerializeHandleOutsideChannel))
    );

    let mut sender = HandleSender::new(HandleTarget::CurrentProcess);
    assert_eq!(sender.send(5, local), Ok(5));
    assert_eq!(sender.remote_process_id(66), Ok(66));
    assert_eq!(sender.release(), vec![Closing::Local(5)]);
}

#[test]
fn handles_are_received_within_a_channel() {
    let mut current = Current { context: None };
    assert_eq!(
        SendableWinHandle::deserialize(&current, Some(WinHandle(4))),
        Err(Error::Fault(Fault::DeserializeHandleOutsideChannel))
    );
    let guard = ChannelSerializeWrapper::before_deserialize(&mut current);
    assert_eq!(current.context, Some(HandleReceiver));
    assert_eq!(
        SendableWinHandle::deserialize(&current, Some(WinHandle(4))),
        Ok(SendableWinHandle(WinHandle(4)))
    );
    assert_eq!(SendableWinHandle::deserialize(&current, None), Err(Error::Fault(Fault::InvalidHandle)));
    current.leave(guard);
    assert_eq!(current.context, None);
}

#[test]
fn process_handles_keep_the_number() {
    let duplicate = |request: HandleRequest| {
        assert_eq!(request, HandleRequest { access: HandleAccess::DuplicateHandles, inheritable: false });
        Ok(WinHandle(4))
    };
    let current = ProcessHandle::current(duplicate, 9).unwrap();
    assert_eq!(current, process(4, 9));
    assert_eq!(current.clone(Ok(WinHandle(5))), Ok(process(5, 9)));
    assert_eq!(current.clone(Err(Error::Os(1))), Err(Error::Os(1)));
    assert_eq!(ProcessHandle::from_child(Ok(WinHandle(6)), 3), Ok(process(6, 3)));
    assert_eq!(ProcessHandle::current(|_request: HandleRequest| Err(Error::Os(2)), 3), Err(Error::Os(2)));
    let duplicate = |handle: usize, _request: HandleRequest| Ok(WinHandle(handle + 1));
    assert_eq!(ProcessHandle::from_windows_handle_raw(7, 3, 0, duplicate), Ok(process(8, 3)));
    assert_eq!(ProcessHandle::from_windows_handle_raw(7, 0, 87, duplicate), Err(Error::Os(87)));
    let refuse = |_handle: usize, _request: HandleRequest| Err(Error::Os(5));
    assert_eq!(ProcessHandle::from_windows_handle_raw(7, 3, 0, refuse), Err(Error::Os(5)));
}

#[test]
fn pipe_is_registered_once() {
    let mut named: pipe::NamedPipe<u8, u32> = pipe::NamedPipe::Unregistered(3);
    assert!(matches!(named.ensure_registered(|_pipe: &u8| Err(Error::Os(6))), Err(Error::Os(6))));
    assert!(matches!(named, pipe::NamedPipe::Unregistered(3)));
    *named.ensure_registered(|pipe: &u8| Ok(*pipe as u32 * 10)).unwrap() += 1;
    let again = |_pipe: &u8| -> Result<u32, Error> { panic!("registered twice") };
    assert_eq!(*named.ensure_registered(again).unwrap(), 31);
}

#[test]
fn end_of_a_pipe_goes_to_a_child() {
    let pipes = |_pipe_type: PipeType| Ok((1, 2));
    let (server, client, mut state) = pipe::MessageChannel::<u32, u32>::pair(pipes).unwrap();
    assert_eq!(server.handle_target(&state), HandleTarget::CurrentProcess);
    let sent = RefCell::new(None);
    let launch = |channel: &pipe::ChildMessageChannel| {
        *sent.borrow_mut() =
            Some((channel.channel_handle.0, channel.remote_process_handle.0, channel.server));
        Ok("child")
    };
    let child = client.send_to_child(
        &mut state,
        |_request: HandleRequest| Ok(WinHandle(40)),
        |pipe: &u32, _request: HandleRequest| Ok(WinHandle(*pipe as usize + 100)),
        launch,
        |_child: &&str| Ok(WinHandle(41)),
    );
    assert_eq!(child, Ok("child"));
    assert_eq!(sent.into_inner(), Some((102, 40, false)));
    assert_eq!(state, pipe::HandleTargetState::ClientSentTo(WinHandle(41)));
    assert_eq!(server.handle_target(&state), HandleTarget::RemoteProcess(41));

    let arrived = pipe::ChildMessageChannel {
        channel_handle: WinHandle(102),
        remote_process_handle: WinHandle(40),
        server: false,
    };
    let (channel, state) = arrived.into_channel::<u32>().unwrap();
    assert_eq!(state, pipe::HandleTargetState::ServerSentTo(WinHandle(40)));
    assert_eq!(channel.handle_target(&state), HandleTarget::RemoteProcess(40));
}

#[test]
fn used_pipe_cannot_be_sent() {
    let used: pipe::MessageChannel<u32, u32> =
        pipe::MessageChannel { pipe: pipe::NamedPipe::Registered(1), server: true };
    let mut state = pipe::HandleTargetState::Unsent;
    let launch = |_channel: &pipe::ChildMessageChannel| -> Result<(), Error> { panic!("launched") };
    let result = used.send_to_child(
        &mut state,
        |_request: HandleRequest| Ok(WinHandle(40)),
        |_pipe: &u32, _request: HandleRequest| Ok(WinHandle(1)),
        launch,
        |_child: &()| Ok(WinHandle(41)),
    );
    assert_eq!(result, Err(Error::Fault(Fault::ChannelInUse)));
    assert_eq!(state, pipe::HandleTargetState::Unsent);
}

#[test]
fn numbers_are_split_in_halves() {
    assert_eq!(Halves::of(0x1234_5678), Halves { high: 0, low: 0x1234_5678 });
    assert_eq!(SharedMem::size_halves(usize::MAX).low, u32::MAX);
    assert_eq!(Halves::of(0x1_0000_0002), Halves { high: 1, low: 2 });
}

#[test]
fn view_starts_at_a_page() {
    let memory = SharedMem::new(10_000, Ok(WinHandle(3))).unwrap();
    let request = memory.map(5_000..6_000, Access::ReadWrite, 4096).unwrap();
    assert_eq!(
        request,
        ViewRequest {
            handle: 3,
            raw_access: MapAccess::Write,
            mapping_offset: Halves { high: 0, low: 4096 },
            mapping_len: 1904,
            shift: 904,
            user_len: 1000,
            user_offset: 5000,
            access: Access::ReadWrite,
        }
    );
    let map = request.mapped(Ok(0x1_0000)).unwrap();
    assert_eq!(
        map.region(),
        Region { pointer: 0x1_0000 + 904, len: 1000, offset: 5000, access: Access::ReadWrite }
    );
    assert_eq!(request.mapped(Err(Error::Os(8))), Err(Error::Os(8)));
    assert_eq!(memory.map(.., Access::Read, 4096).unwrap().mapping_len, 10_000);
    assert_eq!(memory.map(..10_001, Access::Read, 4096), Err(Error::Fault(Fault::ViewRange)));
    assert_eq!(memory.map(10_001.., Access::Read, 4096), Err(Error::Fault(Fault::ViewRange)));
    assert_eq!(memory.map(9..8, Access::Read, 4096), Err(Error::Fault(Fault::ViewRange)));
    assert_eq!(memory.map_with(7.., Access::Read).mapping_len, 8);
    assert!(matches!(SharedMem::new(1, Err(Error::Os(8))), Err(Error::Os(8))));
}

#[test]
fn second_handle_of_memory_has_the_access() {
    let memory = SharedMem::new(64, Ok(WinHandle(3))).unwrap();
    let rights = RefCell::new(Vec::new());
    let duplicate = |handle: usize, right: MapAccess| {
        rights.borrow_mut().push((handle, right));
        Ok(WinHandle(4))
    };
    assert_eq!(memory.clone(Access::Read, duplicate), Ok(SharedMem { handle: WinHandle(4), size: 64 }));
    assert!(memory.clone(Access::ReadWrite, duplicate).is_ok());
    assert_eq!(rights.into_inner(), vec![(3, MapAccess::Read), (3, MapAccess::All)]);
    let refuse = |_handle: usize, _right: MapAccess| Err(Error::Os(5));
    assert_eq!(memory.clone(Access::Read, refuse), Err(Error::Os(5)));
}

fn info() -> WsaProtoInfo {
    WsaProtoInfo {
        service_flags1: 1,
        service_flags2: 2,
        service_flags3: 3,
        service_flags4: 4,
        provider_flags: 5,
        provider_id: Guid::from_parts((1, 2, 3, [4; 8])),
        catalog_entry_id: 6,
        protocol_chain: WsaProtocolChain { chain_len: 1, chain_entries: [0; 7] },
        version: 2,
        address_family: 23,
        max_sock_addr: 28,
        min_sock_addr: 28,
        socket_type: 1,
        protocol: 6,
        protocol_max_offset: 0,
        network_byte_order: 0,
        security_scheme: 0,
        message_size: 0,
        provider_reserved: 0,
        protocol_name: vec![0; 256],
    }
}

#[test]
fn socket_is_described_for_the_other_process() {
    let none: Current<HandleSender> = Current { context: None };
    let duplicate = |socket: usize, id: u32| {
        assert_eq!(socket, 5);
        let mut info = info();
        info.message_size = id;
        Ok(info)
    };
    assert!(matches!(
        serialize_socket(&none, 5, 9, duplicate),
        Err(Error::Fault(Fault::SerializeHandleOutsideChannel))
    ));
    let here = Current { context: Some(HandleSender::new(HandleTarget::CurrentProcess)) };
    assert_eq!(serialize_socket(&here, 5, 9, duplicate).unwrap().message_size, 9);
    let remote = HandleTarget::RemoteProcess(RemoteProcess { handle: 1, id: 44 });
    let there = Current { context: Some(HandleSender::new(remote)) };
    assert_eq!(serialize_socket(&there, 5, 9, duplicate).unwrap().message_size, 44);
    let nobody = Current { context: Some(HandleSender::new(HandleTarget::Nobody)) };
    assert!(matches!(
        serialize_socket(&nobody, 5, 9, duplicate),
        Err(Error::Fault(Fault::HandlesNotConfigured))
    ));
}

#[test]
fn socket_is_made_from_its_description() {
    let open = |family: i32, kind: i32, protocol: i32, _info: WsaProtoInfo| {
        assert_eq!((family, kind, protocol), (23, 1, 6));
        Ok(12)
    };
    let here = Current { context: Some(HandleReceiver) };
    assert_eq!(deserialize_socket(&here, info(), open), Ok(12));
    let none: Current<HandleReceiver> = Current { context: None };
    assert_eq!(
        deserialize_socket(&none, info(), open),
        Err(Error::Fault(Fault::DeserializeHandleOutsideChannel))
    );
}

#[test]
fn protocol_names_have_a_fixed_length() {
    let units: Vec<u16> = (0..300).collect();
    assert_eq!(protocol_name(&units), Ok(units[..256].to_vec()));
    assert_eq!(protocol_name(&units[..255]), Err(255));
    assert_eq!(Guid::from_parts((1, 2, 3, [4; 8])).to_parts(), (1, 2, 3, [4; 8]));
}
