//! What handles, shared memory objects, mutexes and channels do for their users, in terms of what they hand over and
//! what they get.

use crate::context::{ContextGuard, Current};
use crate::error::{Error, Fault};
use crate::shm;
use crate::shm::{Access, Bound, RangeArgument, Region};
use crate::windows::channel::{
    connect_started, inherited_handle, pipes_were_made, raw_pipe_pair, utf16, utf16_char, wait_millis, wide_pipe_name,
    ChildMessageChannel, ChildMessageChannelHandles, ConnectReply, MessageChannel, NamedMessageChannel,
    PreMessageChannel, Timeout,
};
use crate::windows::handles::{
    ChannelSerializeWrapper, Closing, HandleReceiver, HandleSender, HandleTarget, ProcessHandle, ProcessRef,
    RemoteProcess, SendableWinHandle, WinHandle,
};
use crate::windows::pipe;
use crate::windows::request::{
    inheritance_request, message_pipe, open_request, pipe_request, process_request, HandleAccess, HandleRequest,
    OpenRequest, PipeRequest, PipeType,
};
use crate::windows::sharedmem::{Halves, MapAccess, SharedMem, SharedMemMap, ViewRequest};
use crate::windows::socket::{deserialize_socket, protocol_name, serialize_socket, Guid, WsaProtoInfo};
use crate::windows::sync::{Mutex, MutexGuard, MutexHandle, MutexProblem, MutexRequest};
use vstd::prelude::*;

verus! {

/// The halves of a number make it up again, and different numbers have different halves.
pub proof fn halves_make_up_the_number(x: usize, y: usize, a: Halves, b: Halves)
    requires
        call_ensures(Halves::of, (x,), a),
        call_ensures(SharedMem::size_halves, (y,), b),
    ensures
        a.high * 0x1_0000_0000 + a.low == x,
        b.high * 0x1_0000_0000 + b.low == y,
        a == b <==> x == y,
{
}

/// An object is of the size that it was asked for, and so is every second handle to it, which is made with the right to
/// read, or with all rights.
pub proof fn second_handle_has_the_size_of_the_object<F>(
    size: usize,
    handle: Result<WinHandle, Error>,
    made: Result<SharedMem, Error>,
    memory: SharedMem,
    access: Access,
    duplicate: F,
    copy: Result<SharedMem, Error>,
) where F: FnOnce(usize, MapAccess) -> Result<WinHandle, Error>
    ensures
        call_ensures(SharedMem::new, (size, handle), made) ==> match handle {
            Ok(h) => made matches Ok(m) && m.handle == h && m.size == size,
            Err(e) => made == Err::<SharedMem, Error>(e),
        },
        call_ensures(SharedMem::clone::<F>, (&memory, access, duplicate), copy) ==> {
            let right = if access == Access::Read {
                MapAccess::Read
            } else {
                MapAccess::All
            };
            match copy {
                Ok(m) => m.size == memory.size && duplicate.ensures((memory.handle.0, right), Ok(m.handle)),
                Err(e) => duplicate.ensures((memory.handle.0, right), Err(e)),
            }
        },
{
}

/// A request to map a part of an object is made just where the part is of the object, and asks for the pages from the
/// one that the part starts in up to its end, with the access that is wanted.
pub proof fn view_covers_the_part_asked_for<R: RangeArgument<usize>>(
    memory: SharedMem,
    range: R,
    access: Access,
    page: usize,
    request: Result<ViewRequest, Error>,
)
    requires
        0 < page,
        call_ensures(SharedMem::map::<R>, (&memory, range, access, page), request),
    ensures
        ({
            let start = match range.start_bound() {
                Bound::Included(i) => i as int,
                Bound::Excluded(i) => i + 1,
                Bound::Unbounded => 0,
            };
            let end = match range.end_bound() {
                Bound::Included(i) => i + 1,
                Bound::Excluded(i) => i as int,
                Bound::Unbounded => memory.size as int,
            };
            &&& request is Ok <==> start <= end && end <= memory.size
            &&& request matches Err(e) ==> e == Error::Fault(Fault::ViewRange)
            &&& request matches Ok(r) ==> {
                let first = r.mapping_offset.high * 0x1_0000_0000 + r.mapping_offset.low;
                &&& r.handle == memory.handle.0
                &&& r.access == access
                &&& r.raw_access == MapAccess::Read <==> access == Access::Read
                &&& r.raw_access == MapAccess::Write <==> access == Access::ReadWrite
                &&& r.user_offset == start
                &&& r.user_len == end - start
                &&& first % page as int == 0
                &&& first <= start < first + page
                &&& first + r.shift == start
                &&& first + r.mapping_len == end
            }
        }),
{
}

/// A request without regard to pages starts where the range starts, and takes its length from there too.
pub proof fn view_with_an_address_is_unchecked<R: RangeArgument<usize>>(
    memory: SharedMem,
    range: R,
    access: Access,
    request: ViewRequest,
)
    requires
        call_ensures(SharedMem::map_with::<R>, (&memory, range, access), request),
    ensures
        request.handle == memory.handle.0,
        request.access == access,
        request.raw_access == MapAccess::Read <==> access == Access::Read,
        request.raw_access == MapAccess::Write <==> access == Access::ReadWrite,
        request.shift == 0,
        request.mapping_offset.high * 0x1_0000_0000 + request.mapping_offset.low == request.user_offset,
        request.mapping_len == request.user_len,
        match range.start_bound() {
            Bound::Included(i) => request.user_offset == i && request.user_len == i + 1,
            Bound::Excluded(i) => request.user_offset == i + 1 && request.user_len == i,
            Bound::Unbounded => request.user_offset == 0 && request.user_len == memory.size,
        },
{
}

/// What is mapped is what was asked for: the part starts as far into the mapping as it starts behind its page, and has
/// the place, the length and the access that was asked for.
pub proof fn mapped_view_is_what_was_asked_for(
    request: ViewRequest,
    pointer: Result<usize, Error>,
    map: Result<SharedMemMap, Error>,
    region: Region,
)
    requires
        request.shift + request.user_len == request.mapping_len,
        pointer matches Ok(p) ==> p + request.mapping_len <= usize::MAX,
        call_ensures(ViewRequest::mapped, (request, pointer), map),
    ensures
        map is Ok <==> pointer is Ok,
        pointer matches Err(e) ==> map == Err::<SharedMemMap, Error>(e),
        map matches Ok(m) ==> {
            &&& m.mapping_pointer == pointer->Ok_0
            &&& m.mapping_len == request.mapping_len
            &&& call_ensures(SharedMemMap::region, (&m,), region) ==> region == (Region {
                pointer: (pointer->Ok_0 + request.shift) as usize,
                len: request.user_len,
                offset: request.user_offset,
                access: request.access,
            })
        },
{
}

/// A handle is sent by duplicating it into the process at the other end, and what it is called there is told and kept,
/// behind those that were sent before. Where there is no such process, or it cannot be duplicated, nothing is kept.
pub proof fn handle_is_sent_as_it_is_called_there<F>(
    handle: usize,
    duplicate: F,
    sent: Result<usize, Error>,
    target: HandleTarget<RemoteProcess>,
    new: HandleSender,
) where F: FnOnce(usize, ProcessRef) -> Result<usize, Error>
    ensures
        call_ensures(HandleSender::new, (target,), new) ==> new.target == target && new.handles@.len() == 0,
        forall|sender: &mut HandleSender| #[trigger]
            call_ensures(HandleSender::send::<F>, (sender, handle, duplicate), sent) ==> {
                &&& final(sender).target == sender.target
                &&& sender.target is Nobody ==> sent == Err::<usize, Error>(Error::Fault(Fault::HandlesNotConfigured))
                &&& sender.target is CurrentProcess ==> duplicate.ensures((handle, ProcessRef::Current), sent)
                &&& sender.target matches HandleTarget::RemoteProcess(remote) ==> duplicate.ensures(
                    (handle, ProcessRef::Handle(remote.handle)),
                    sent,
                )
                &&& match sent {
                    Ok(called) => {
                        &&& final(sender).handles@.len() == sender.handles@.len() + 1
                        &&& final(sender).handles@.last() == called
                        &&& forall|k: int| 0 <= k < sender.handles@.len() ==> final(sender).handles@[k]
                            == sender.handles@[k]
                    },
                    Err(_) => final(sender).handles@ == sender.handles@,
                }
            },
{
}

/// A sender that is given up has each of its handles closed, in the process that it was sent to, and no other one; once
/// the message is sent there are none.
pub proof fn sender_closes_its_handles(
    sender: HandleSender,
    closings: Vec<Closing>,
    current: u32,
    id: Result<u32, Error>,
)
    ensures
        call_ensures(HandleSender::release, (sender,), closings) ==> {
            &&& sender.target is Nobody ==> closings@.len() == 0
            &&& !(sender.target is Nobody) ==> closings@.len() == sender.handles@.len()
            &&& forall|i: int|
                0 <= i < closings@.len() ==> #[trigger] closings@[i] == (match sender.target {
                    HandleTarget::RemoteProcess(remote) => Closing::Remote {
                        process: remote.handle,
                        handle: sender.handles@[i],
                    },
                    _ => Closing::Local(sender.handles@[i]),
                })
        },
        forall|there: &mut HandleSender| #[trigger]
            call_ensures(HandleSender::commit, (there,), ()) ==> final(there).handles@.len() == 0 && final(there).target
                == there.target,
        call_ensures(HandleSender::remote_process_id, (&sender, current), id) ==> match sender.target {
            HandleTarget::Nobody => id is Err,
            HandleTarget::CurrentProcess => id == Ok::<u32, Error>(current),
            HandleTarget::RemoteProcess(remote) => id == Ok::<u32, Error>(remote.id),
        },
{
}

/// A handle in a message is sent by the sender of the current thread, and a thread without one sends nothing.
pub proof fn handle_is_serialized_by_the_current_sender<F>(
    handle: usize,
    duplicate: F,
    sent: Result<usize, Error>,
    receiving: Current<HandleReceiver>,
    arrived: Option<WinHandle>,
    received: Result<SendableWinHandle<WinHandle>, Error>,
) where F: FnOnce(usize, ProcessRef) -> Result<usize, Error>
    ensures
        forall|current: &mut Current<HandleSender>| #[trigger]
            call_ensures(
                SendableWinHandle::<usize>::serialize::<F>,
                (&SendableWinHandle(handle), current, duplicate),
                sent,
            ) ==> match current.context {
                None => sent == Err::<usize, Error>(Error::Fault(Fault::SerializeHandleOutsideChannel))
                    && final(current).context is None,
                Some(before) => final(current).context matches Some(after) && {
                    &&& after.target == before.target
                    &&& before.target is Nobody ==> sent is Err
                    &&& before.target is CurrentProcess ==> duplicate.ensures((handle, ProcessRef::Current), sent)
                    &&& before.target matches HandleTarget::RemoteProcess(remote) ==> duplicate.ensures(
                        (handle, ProcessRef::Handle(remote.handle)),
                        sent,
                    )
                    &&& sent matches Ok(called) ==> after.handles@ == before.handles@.push(called)
                    &&& sent is Err ==> after.handles@ == before.handles@
                },
            },
        call_ensures(SendableWinHandle::<usize>::deserialize, (&receiving, arrived), received) ==> {
            &&& received is Ok <==> receiving.context is Some && arrived is Some
            &&& received matches Ok(r) ==> arrived == Some(r.0)
            &&& receiving.context is None ==> received == Err::<SendableWinHandle<WinHandle>, Error>(
                Error::Fault(Fault::DeserializeHandleOutsideChannel),
            )
            &&& receiving.context is Some && arrived is None ==> received == Err::<SendableWinHandle<WinHandle>, Error>(
                Error::Fault(Fault::InvalidHandle),
            )
        },
{
}

/// While a message is serialized or deserialized the thread has a sender or a receiver of its own, and afterwards what
/// it had before. The handles of a message that was not sent are closed, as the sender says.
pub proof fn thread_has_its_sender_back(
    target: HandleTarget<RemoteProcess>,
    guard: ContextGuard<HandleSender>,
    receiving: ContextGuard<HandleReceiver>,
    closings: Vec<Closing>,
    released: Vec<Closing>,
    held: HandleSender,
)
    ensures
        forall|current: &mut Current<HandleSender>| #[trigger]
            call_ensures(ChannelSerializeWrapper::before_serialize, (current, target), guard) ==> {
                &&& guard.previous == current.context
                &&& final(current).context matches Some(sender) && sender.target == target && sender.handles@.len() == 0
            },
        forall|current: &mut Current<HandleReceiver>| #[trigger]
            call_ensures(ChannelSerializeWrapper::before_deserialize, (current,), receiving) ==> receiving.previous
                == current.context && final(current).context is Some,
        forall|current: &mut Current<HandleSender>| #[trigger]
            call_ensures(ChannelSerializeWrapper::commit_serialize, (current,), ()) && current.context is Some ==> (
            final(current).context matches Some(sender) && sender.handles@.len() == 0 && sender.target
                == current.context->0.target),
        forall|current: &mut Current<HandleSender>| #[trigger]
            call_ensures(ChannelSerializeWrapper::after_serialize, (current, guard), closings) ==> {
                &&& final(current).context == guard.previous
                &&& current.context is None ==> closings@.len() == 0
                &&& current.context == Some(held) && call_ensures(HandleSender::release, (held,), released)
                    ==> closings@ == released@
            },
{
}

/// A handle to a process is asked for with the right to send handles to it, and stands for the process with its number;
/// so does every copy of it.
pub proof fn process_handles_stand_for_their_process<F, G>(
    duplicate: F,
    duplicate_raw: G,
    id: u32,
    errno: i32,
    raw: usize,
    handle: Result<WinHandle, Error>,
    process: ProcessHandle,
    made: Result<ProcessHandle, Error>,
    remote: RemoteProcess,
) where F: FnOnce(HandleRequest) -> Result<WinHandle, Error>, G: FnOnce(usize, HandleRequest) -> Result<WinHandle, Error>
    ensures
        ({
            let request = HandleRequest { access: HandleAccess::DuplicateHandles, inheritable: false };
            &&& call_ensures(ProcessHandle::current::<F>, (duplicate, id), made) ==> match made {
                Ok(p) => p.id == id && duplicate.ensures((request,), Ok(p.handle.0)),
                Err(e) => duplicate.ensures((request,), Err(e)),
            }
            &&& call_ensures(ProcessHandle::from_windows_handle_raw::<G>, (raw, id, errno, duplicate_raw), made) ==> (
            if id == 0 {
                made == Err::<ProcessHandle, Error>(Error::Os(errno))
            } else {
                match made {
                    Ok(p) => p.id == id && duplicate_raw.ensures((raw, request), Ok(p.handle.0)),
                    Err(e) => duplicate_raw.ensures((raw, request), Err(e)),
                }
            })
        }),
        call_ensures(ProcessHandle::clone, (&process, handle), made) ==> match handle {
            Ok(h) => made matches Ok(p) && p.handle.0 == h && p.id == process.id,
            Err(e) => made == Err::<ProcessHandle, Error>(e),
        },
        call_ensures(ProcessHandle::from_child, (handle, id), made) ==> match handle {
            Ok(h) => made matches Ok(p) && p.handle.0 == h && p.id == id,
            Err(e) => made == Err::<ProcessHandle, Error>(e),
        },
        call_ensures(ProcessHandle::remote, (&process,), remote) ==> remote.id == process.id && WinHandle(remote.handle)
            == process.handle.0,
{
}

/// A socket in a message is described for the process at the other end, and opened from the whole of its description.
/// An identifier keeps its parts.
pub proof fn socket_is_described_for_the_other_end<F, G>(
    current: Current<HandleSender>,
    socket: usize,
    process_id: u32,
    duplicate: F,
    info: Result<WsaProtoInfo, Error>,
    receiving: Current<HandleReceiver>,
    arrived: WsaProtoInfo,
    open: G,
    opened: Result<usize, Error>,
    guid: Guid,
    parts: (u32, u16, u16, [u8; 8]),
    back: Guid,
) where F: FnOnce(usize, u32) -> Result<WsaProtoInfo, Error>, G: FnOnce(
    i32,
    i32,
    i32,
    WsaProtoInfo,
) -> Result<usize, Error>
    ensures
        call_ensures(serialize_socket::<F>, (&current, socket, process_id, duplicate), info) ==> match current.context {
            None => info == Err::<WsaProtoInfo, Error>(Error::Fault(Fault::SerializeHandleOutsideChannel)),
            Some(sender) => match sender.target {
                HandleTarget::Nobody => info == Err::<WsaProtoInfo, Error>(Error::Fault(Fault::HandlesNotConfigured)),
                HandleTarget::CurrentProcess => duplicate.ensures((socket, process_id), info),
                HandleTarget::RemoteProcess(remote) => duplicate.ensures((socket, remote.id), info),
            },
        },
        call_ensures(deserialize_socket::<G>, (&receiving, arrived, open), opened) ==> (if receiving.context is Some {
            open.ensures((arrived.address_family, arrived.socket_type, arrived.protocol, arrived), opened)
        } else {
            opened == Err::<usize, Error>(Error::Fault(Fault::DeserializeHandleOutsideChannel))
        }),
        call_ensures(Guid::to_parts, (&guid,), parts) && call_ensures(Guid::from_parts, (parts,), back) ==> back == guid,
{
}

/// The name of a protocol is the first 256 units that came for it, and fewer do not make a name.
pub proof fn protocol_name_has_all_its_units(units: &[u16], name: Result<Vec<u16>, usize>)
    requires
        call_ensures(protocol_name, (units,), name),
    ensures
        name is Ok <==> units@.len() >= 256,
        name matches Ok(n) ==> n@.len() == 256 && forall|k: int| 0 <= k < 256 ==> n@[k] == units@[k],
        name matches Err(found) ==> found == units@.len(),
{
}

/// What is asked of the operating system: pipes keep messages apart both ways, take no clients from other machines,
/// can be read and written without waiting, and are alone under their name; a pipe is opened for reading and writing,
/// by nobody else, and only where there is one; a handle to a process can be used to send handles and for nothing
/// else.
pub proof fn requests_ask_for_what_is_needed(
    kind: PipeType,
    some_kind: PipeType,
    flag: bool,
    made: PipeRequest,
    opened: OpenRequest,
    process: HandleRequest,
    inherited: HandleRequest,
)
    ensures
        call_ensures(message_pipe, (), kind) ==> kind.message && kind.message_read_mode && kind.reject_remote_clients,
        call_ensures(pipe_request, (some_kind, flag), made) ==> made.pipe_type == some_kind && made.duplex
            && made.overlapped && made.instances == 1 && made.everybody == flag,
        call_ensures(open_request, (flag,), opened) ==> opened.read && opened.write && !opened.shared && opened.existing
            && opened.identification && opened.overlapped && opened.everybody == flag,
        call_ensures(process_request, (flag,), process) ==> process.access == HandleAccess::DuplicateHandles
            && process.inheritable == flag,
        call_ensures(inheritance_request, (), inherited) ==> inherited.access == HandleAccess::Same
            && inherited.inheritable,
{
}

/// A lock that is asked for at a place in mapped memory has its count there, at zero, and a semaphore that nobody can
/// pass at first and one thread at most at any time. The lock that is made of this, and the lock that its handle leads
/// to at that place of another mapping, is the same: its place in the object is, and the semaphore is the duplicate.
pub proof fn lock_is_found_where_it_was_made(
    memory: shm::SharedMemMap,
    offset: usize,
    request: MutexRequest,
    semaphore: Result<WinHandle, Error>,
    made: Result<Mutex, Error>,
    mutex: Mutex,
    duplicate: Result<WinHandle, Error>,
    handle: Result<MutexHandle, Error>,
    there: shm::SharedMemMap,
    place: usize,
    found: Mutex,
)
    requires
        call_ensures(Mutex::new_with_memory, (memory, offset), request),
        call_ensures(MutexRequest::made, (request, semaphore), made),
        call_ensures(Mutex::handle, (&mutex, duplicate), handle),
    ensures
        request.mem == memory,
        request.atomic == memory.region.pointer + offset,
        request.raw_offset == memory.region.offset + offset,
        request.count == 0,
        request.semaphore_count == 0,
        request.semaphore_max == 1,
        match semaphore {
            Ok(s) => made matches Ok(m) && m.mem == memory && m.atomic == memory.region.pointer + offset && m.raw_offset
                == memory.region.offset + offset && m.semaphore == s,
            Err(e) => made == Err::<Mutex, Error>(e),
        },
        match duplicate {
            Ok(d) => handle matches Ok(h) && h.semaphore.0 == d && h.raw_offset == mutex.raw_offset && (call_ensures(
                Mutex::from_handle,
                (h, there, place),
                found,
            ) ==> found.mem == there && found.raw_offset == mutex.raw_offset && found.atomic == there.region.pointer
                + place && found.semaphore == d),
            Err(e) => handle == Err::<MutexHandle, Error>(e),
        },
{
}

/// Taking a lock adds to its count, and waits for its semaphore where the count was not zero. Giving it up takes from
/// its count, releases its semaphore where somebody else is counted, and says so where that, or the count, is wrong.
pub proof fn lock_is_passed_on<'a, A, W, S, R>(
    mutex: &'a Mutex,
    increment: A,
    wait: W,
    guard: MutexGuard<'a>,
    held: MutexGuard<'a>,
    decrement: S,
    release: R,
    panicking: bool,
    problem: Option<MutexProblem>,
) where A: FnOnce(usize) -> usize, W: FnOnce(&WinHandle), S: FnOnce(usize) -> usize, R: FnOnce(&WinHandle) -> bool
    ensures
        call_ensures(Mutex::lock::<A, W>, (mutex, increment, wait), guard) ==> guard.mutex == mutex && exists|
            previous: usize,
        | #[trigger]
            increment.ensures((mutex.atomic,), previous) && (previous > 0 ==> wait.ensures((&mutex.semaphore,), ())),
        call_ensures(MutexGuard::<'a>::release::<S, R>, (held, decrement, release, panicking), problem) ==> exists|
            previous: usize,
        | #[trigger]
            decrement.ensures((held.mutex.atomic,), previous) && match problem {
                None => previous == 1 || (previous >= 2 && release.ensures((&held.mutex.semaphore,), true)),
                Some(MutexProblem::InvalidState) => previous == 0,
                Some(MutexProblem::NotReleased) => previous >= 2 && release.ensures((&held.mutex.semaphore,), false),
            },
{
    if call_ensures(MutexGuard::<'a>::release::<S, R>, (held, decrement, release, panicking), problem) {
        let previous = choose|previous: usize| #[trigger] held.given_up(decrement, release, previous, problem);
        assert(decrement.ensures((held.mutex.atomic,), previous));
    }
}

/// Waiting for a connection has started just where the operating system says that it goes on, and the time to wait is
/// the one that is asked for, in milliseconds, or as long as it takes.
pub proof fn waiting_takes_as_long_as_asked_for(
    reply: ConnectReply,
    started: Result<(), Error>,
    timeout: Timeout,
    millis: u32,
    forever: u32,
)
    ensures
        call_ensures(connect_started, (reply,), started) ==> {
            &&& started is Ok <==> reply.returned == 0 && reply.errno == 997
            &&& started matches Err(e) ==> e == Error::Os(reply.errno)
        },
        call_ensures(wait_millis, (Some(timeout),), millis) && timeout.secs * 1000 + timeout.nanos / 1_000_000
            < 0xFFFF_FFFF ==> {
            &&& millis == timeout.secs * 1000 + timeout.nanos / 1_000_000
            &&& call_ensures(wait_millis, (None,), forever) ==> millis < forever
        },
        call_ensures(wait_millis, (None,), forever) ==> forever == 0xFFFF_FFFF,
{
}

/// Both ends of a channel within a process are over the two pipes, in their order, the server's and the client's, and
/// send handles to that process.
pub proof fn ends_within_a_process<S, H, M, R, U, G, N>(
    make_pipes: M,
    register: R,
    pair: Result<(MessageChannel<S>, MessageChannel<S>), Error>,
    make_both: N,
    both: Result<(pipe::MessageChannel<U, G>, pipe::MessageChannel<U, G>, pipe::HandleTargetState), Error>,
) where
    M: FnOnce(PipeType) -> Result<(H, H), Error>,
    R: Fn(H) -> Result<S, Error>,
    N: FnOnce(PipeType) -> Result<(U, U), Error>,

    ensures
        call_ensures(MessageChannel::<S>::pair::<H, M, R>, (make_pipes, register), pair) ==> exists|
            kind: PipeType,
            pipes: Result<(H, H), Error>,
        | #[trigger]
            make_pipes.ensures((kind,), pipes) && kind.message && kind.message_read_mode && kind.reject_remote_clients && (
            match (pipes, pair) {
                (Ok((first, second)), Ok((a, b))) => {
                    &&& register.ensures((first,), Ok(a.pipe)) && register.ensures((second,), Ok(b.pipe))
                    &&& a.server && !b.server
                    &&& a.target is CurrentProcess && b.target is CurrentProcess
                },
                (Ok((first, second)), Err(e)) => register.ensures((first,), Err(e)) || register.ensures(
                    (second,),
                    Err(e),
                ),
                (Err(e), _) => pair == Err::<(MessageChannel<S>, MessageChannel<S>), Error>(e),
            }),
        call_ensures(pipe::MessageChannel::<U, G>::pair::<N>, (make_both,), both) ==> exists|
            kind: PipeType,
            pipes: Result<(U, U), Error>,
        | #[trigger]
            make_both.ensures((kind,), pipes) && kind.message && kind.message_read_mode && kind.reject_remote_clients && (
            match (pipes, both) {
                (Ok((first, second)), Ok((a, b, state))) => {
                    &&& a.pipe == pipe::NamedPipe::<U, G>::Unregistered(first) && a.server
                    &&& b.pipe == pipe::NamedPipe::<U, G>::Unregistered(second) && !b.server
                    &&& state is Unsent
                },
                (Ok(_), Err(_)) => false,
                (Err(e), _) => both is Err && both->Err_0 == e,
            }),
{
    if call_ensures(MessageChannel::<S>::pair::<H, M, R>, (make_pipes, register), pair) {
        let kind = PipeType { message: true, message_read_mode: true, reject_remote_clients: true };
        assert(exists|pipes: Result<(H, H), Error>| #[trigger] make_pipes.ensures((kind,), pipes));
    }
    if call_ensures(pipe::MessageChannel::<U, G>::pair::<N>, (make_both,), both) {
        let kind = PipeType { message: true, message_read_mode: true, reject_remote_clients: true };
        assert(exists|pipes: Result<(U, U), Error>| #[trigger] make_both.ensures((kind,), pipes));
    }
}

/// A child of a process is told of handles that it inherits: that of the client's pipe and that of its parent, with
/// the number of its parent. What it makes of this is the client's end, which sends handles to the parent if it knows
/// it. The parent has the server's end, which sends handles to the child.
pub proof fn parent_and_child_send_each_other_handles<S, H, T, M, P, B, L, R, F>(
    make_pipes: M,
    process_handle: P,
    inheritable: B,
    process_id: u32,
    launch: L,
    register: R,
    channel: MessageChannel<S>,
    t: T,
    child: ChildMessageChannel,
    register_child: F,
    there: Result<MessageChannel<S>, Error>,
) where
    M: FnOnce(PipeType) -> Result<(H, H), Error>,
    P: FnOnce(HandleRequest) -> Result<WinHandle, Error>,
    B: FnOnce(H, HandleRequest) -> Result<WinHandle, Error>,
    L: FnOnce(ChildMessageChannel) -> Result<(ProcessHandle, T), Error>,
    R: FnOnce(H) -> Result<S, Error>,
    F: FnOnce(WinHandle) -> Result<S, Error>,

    ensures
        call_ensures(
            MessageChannel::<S>::establish_with_child_custom::<H, T, M, P, B, L, R>,
            (make_pipes, process_handle, inheritable, process_id, launch, register),
            Ok((channel, t)),
        ) ==> channel.server && exists|sent: ChildMessageChannel, launched: Result<(ProcessHandle, T), Error>| #[trigger]
            launch.ensures((sent,), launched) && sent.remote_process_id == process_id && (
            sent.remote_process_handle matches Some(parent) && process_handle.ensures(
                (HandleRequest { access: HandleAccess::DuplicateHandles, inheritable: true },),
                Ok(parent),
            )) && (launched matches Ok((process, given)) && given == t && channel.target == HandleTarget::RemoteProcess(
                process,
            )) && exists|server: H, client: H|
                #![trigger
                    register.ensures((server,), Ok(channel.pipe)),
                    inheritable.ensures(
                        (client, HandleRequest { access: HandleAccess::Same, inheritable: true }),
                        Ok(sent.channel_handle),
                    )
                ]
                register.ensures((server,), Ok(channel.pipe)) && inheritable.ensures(
                    (client, HandleRequest { access: HandleAccess::Same, inheritable: true }),
                    Ok(sent.channel_handle),
                ),
        call_ensures(ChildMessageChannel::into_channel::<S, F>, (child, register_child), there) ==> match there {
            Ok(c) => {
                &&& register_child.ensures((child.channel_handle,), Ok(c.pipe))
                &&& !c.server
                &&& match child.remote_process_handle {
                    Some(parent) => c.target matches HandleTarget::RemoteProcess(p) && p.handle.0 == parent && p.id
                        == child.remote_process_id,
                    None => c.target is Nobody,
                }
            },
            Err(e) => register_child.ensures((child.channel_handle,), Err(e)),
        },
{
}

/// The handles that a child inherits are that of its pipe, and then that of its parent if it is told of one, each once.
pub proof fn inherited_handles_come_one_by_one<'a>(
    child: &'a ChildMessageChannel,
    handles: ChildMessageChannelHandles<'a>,
    handle: Option<usize>,
    told: Option<WinHandle>,
    inherited: Result<WinHandle, Error>,
)
    ensures
        call_ensures(ChildMessageChannel::handles, (child,), handles) ==> handles.channel == child && handles.index == 0,
        forall|there: &mut ChildMessageChannelHandles<'a>| #[trigger]
            call_ensures(ChildMessageChannelHandles::<'a>::next, (there,), handle) ==> {
                &&& final(there).channel == there.channel
                &&& there.index == 0 ==> handle == Some(there.channel.channel_handle.0) && final(there).index == 1
                &&& there.index == 1 ==> (match there.channel.remote_process_handle {
                    Some(parent) => handle == Some(parent.0),
                    None => handle is None,
                }) && final(there).index == 2
                &&& there.index >= 2 ==> handle is None && final(there).index == there.index
            },
        call_ensures(inherited_handle, (told,), inherited) ==> match told {
            Some(h) => inherited == Ok::<WinHandle, Error>(h),
            None => inherited == Err::<WinHandle, Error>(Error::Fault(Fault::InvalidInheritedHandle)),
        },
{
}

/// The process that handles are sent to over a channel is the one that the channel is to.
pub proof fn channel_sends_handles_to_its_target<S, U, G>(
    channel: MessageChannel<S>,
    target: HandleTarget<RemoteProcess>,
    end: pipe::MessageChannel<U, G>,
    state: pipe::HandleTargetState,
    other: HandleTarget<usize>,
)
    ensures
        call_ensures(MessageChannel::<S>::handle_target, (&channel,), target) ==> match channel.target {
            HandleTarget::Nobody => target is Nobody,
            HandleTarget::CurrentProcess => target is CurrentProcess,
            HandleTarget::RemoteProcess(p) => target matches HandleTarget::RemoteProcess(r) && WinHandle(r.handle)
                == p.handle.0 && r.id == p.id,
        },
        call_ensures(pipe::MessageChannel::<U, G>::handle_target, (&end, &state), other) ==> match state {
            pipe::HandleTargetState::Unsent => other is CurrentProcess,
            pipe::HandleTargetState::ServerSentTo(p) => other == HandleTarget::RemoteProcess(p.0),
            pipe::HandleTargetState::ClientSentTo(p) => other == HandleTarget::RemoteProcess(p.0),
        },
{
}

/// Ends of a channel that are sent on before they are used keep their pipe and their side. They send handles to the
/// process that they are told, or to nobody if they are made sealed.
pub proof fn ends_can_be_sent_on<H, S, M, R>(
    make_pipes: M,
    pair: Result<(PreMessageChannel<H>, PreMessageChannel<H>), Error>,
    end: PreMessageChannel<H>,
    process: ProcessHandle,
    register: R,
    channel: Result<MessageChannel<S>, Error>,
) where M: FnOnce(PipeType) -> Result<(H, H), Error>, R: FnOnce(H) -> Result<S, Error>
    ensures
        call_ensures(PreMessageChannel::<H>::pair::<M>, (make_pipes,), pair) ==> {
            let kind = PipeType { message: true, message_read_mode: true, reject_remote_clients: true };
            match pair {
                Ok((a, b)) => a.server && !b.server && make_pipes.ensures((kind,), Ok((a.pipe.0, b.pipe.0))),
                Err(e) => make_pipes.ensures((kind,), Err(e)),
            }
        },
        call_ensures(PreMessageChannel::<H>::into_channel::<S, R>, (end, process, register), channel) ==> match channel {
            Ok(c) => register.ensures((end.pipe.0,), Ok(c.pipe)) && c.server == end.server && c.target
                == HandleTarget::RemoteProcess(process),
            Err(e) => register.ensures((end.pipe.0,), Err(e)),
        },
        call_ensures(PreMessageChannel::<H>::into_sealed_channel::<S, R>, (end, register), channel) ==> match channel {
            Ok(c) => register.ensures((end.pipe.0,), Ok(c.pipe)) && c.server == end.server && c.target is Nobody,
            Err(e) => register.ensures((end.pipe.0,), Err(e)),
        },
{
}

/// The event loop watches a pipe from its first use on, and is asked for that once: a pipe that is watched stays what
/// it is, and one that cannot be watched stays unwatched.
pub proof fn pipe_is_watched_from_its_first_use<U, G, F>(register: F, refused: Error) where
    F: FnOnce(&U) -> Result<G, Error>,

    ensures
        forall|there: &mut pipe::NamedPipe<U, G>, watched: &mut G|
            #![trigger call_ensures(pipe::NamedPipe::<U, G>::ensure_registered::<F>, (there, register), Ok(watched))]
            call_ensures(pipe::NamedPipe::<U, G>::ensure_registered::<F>, (there, register), Ok(watched)) ==> {
                &&& *final(there) == pipe::NamedPipe::<U, G>::Registered(*final(watched))
                &&& match *there {
                    pipe::NamedPipe::Registered(before) => *watched == before,
                    pipe::NamedPipe::Unregistered(unwatched) => register.ensures((&unwatched,), Ok(*watched)),
                }
            },
        forall|there: &mut pipe::NamedPipe<U, G>|
            #![trigger call_ensures(pipe::NamedPipe::<U, G>::ensure_registered::<F>, (there, register), Err(refused))]
            call_ensures(pipe::NamedPipe::<U, G>::ensure_registered::<F>, (there, register), Err(refused)) ==> (
            *there matches pipe::NamedPipe::Unregistered(unwatched) && register.ensures((&unwatched,), Err(refused))
                && *final(there) == *there),
{
}

/// A child that is handed an end of a channel is told of handles to the pipe of that end and to its parent, and which
/// end it is. It is then known that this end went to the child; what the child makes of it is that end, with the other
/// one at the parent. An end that was used already cannot be handed on.
pub proof fn end_goes_to_the_child<U, G, T, P, B, L, H>(
    end: pipe::MessageChannel<U, G>,
    process_handle: P,
    inheritable: B,
    launch: L,
    child_handle: H,
    child: Result<T, Error>,
    sent: pipe::ChildMessageChannel,
    arrived: Result<(pipe::MessageChannel<WinHandle, G>, pipe::HandleTargetState), Error>,
) where
    P: FnOnce(HandleRequest) -> Result<WinHandle, Error>,
    B: FnOnce(&U, HandleRequest) -> Result<WinHandle, Error>,
    L: FnOnce(&pipe::ChildMessageChannel) -> Result<T, Error>,
    H: FnOnce(&T) -> Result<WinHandle, Error>,

    ensures
        forall|state: &mut pipe::HandleTargetState| #[trigger]
            call_ensures(
                pipe::MessageChannel::<U, G>::send_to_child::<T, P, B, L, H>,
                (end, state, process_handle, inheritable, launch, child_handle),
                child,
            ) ==> match child {
                Ok(c) => {
                    &&& end.pipe is Unregistered
                    &&& end.server ==> *final(state) is ServerSentTo
                    &&& !end.server ==> *final(state) is ClientSentTo
                    &&& *final(state) matches pipe::HandleTargetState::ServerSentTo(remote) ==> child_handle.ensures(
                        (&c,),
                        Ok(remote),
                    )
                    &&& *final(state) matches pipe::HandleTargetState::ClientSentTo(remote) ==> child_handle.ensures(
                        (&c,),
                        Ok(remote),
                    )
                    &&& exists|told: &pipe::ChildMessageChannel| #[trigger]
                        launch.ensures((told,), Ok(c)) && told.server == end.server && process_handle.ensures(
                            (HandleRequest { access: HandleAccess::DuplicateHandles, inheritable: true },),
                            Ok(told.remote_process_handle),
                        ) && inheritable.ensures(
                            (
                                &end.pipe->Unregistered_0,
                                HandleRequest { access: HandleAccess::Same, inheritable: true },
                            ),
                            Ok(told.channel_handle),
                        )
                },
                Err(_) => *final(state) is Unsent,
            },
        call_ensures(pipe::ChildMessageChannel::into_channel::<G>, (sent,), arrived) ==> (arrived matches Ok((c, state))
            && {
            &&& c.pipe == pipe::NamedPipe::<WinHandle, G>::Unregistered(sent.channel_handle)
            &&& c.server == sent.server
            &&& sent.server ==> state == pipe::HandleTargetState::ClientSentTo(sent.remote_process_handle)
            &&& !sent.server ==> state == pipe::HandleTargetState::ServerSentTo(sent.remote_process_handle)
        }),
{
}

/// A pipe with a name was made under that name as others see it, and waits. Who connects in time, and who is connected
/// to by that name, is the process that handles are sent to.
pub proof fn processes_meet_under_a_name<H, S, C, N, W, I, P, R, V, O>(
    create: C,
    connect: N,
    waiting: Result<NamedMessageChannel<H>, Error>,
    named: NamedMessageChannel<H>,
    name: &String,
    timeout: Timeout,
    wait: W,
    process_id: I,
    open_process: P,
    register: R,
    accepted: MessageChannel<S>,
    text: &str,
    wait_name: V,
    open: O,
    connected: MessageChannel<S>,
) where
    C: FnOnce(&String, PipeRequest) -> Result<H, Error>,
    N: FnOnce(&H) -> ConnectReply,
    W: FnOnce(&H, u32) -> Result<(), Error>,
    I: FnOnce(&H) -> Result<u32, Error>,
    P: FnOnce(u32, HandleRequest) -> Result<WinHandle, Error>,
    R: FnOnce(H) -> Result<S, Error>,
    V: FnOnce(&Vec<u16>, u32) -> Result<(), Error>,
    O: FnOnce(&Vec<u16>, OpenRequest) -> Result<H, Error>,

    requires
        timeout.secs * 1000 + timeout.nanos / 1_000_000 < 0xFFFF_FFFF,
    ensures
        call_ensures(NamedMessageChannel::<H>::new::<C, N>, (create, connect), waiting) ==> (waiting matches Ok(n)
            ==> (exists|request: PipeRequest| #[trigger]
            create.ensures((&n.name, request), Ok(n.server_pipe)) && request.pipe_type.message && request.instances == 1
                && !request.everybody) && exists|reply: ConnectReply| #[trigger]
            connect.ensures((&n.server_pipe,), reply) && reply.returned == 0 && reply.errno == 997),
        call_ensures(NamedMessageChannel::<H>::name, (&named,), name) ==> *name == named.name,
        call_ensures(
            NamedMessageChannel::<H>::accept::<S, W, I, P, R>,
            (named, Some(timeout), wait, process_id, open_process, register),
            Ok(accepted),
        ) ==> {
            &&& exists|millis: u32, waited: Result<(), Error>| #[trigger]
                wait.ensures((&named.server_pipe, millis), waited) && waited is Ok && millis == timeout.secs * 1000
                    + timeout.nanos / 1_000_000
            &&& register.ensures((named.server_pipe,), Ok(accepted.pipe))
            &&& accepted.server
            &&& accepted.target matches HandleTarget::RemoteProcess(p) && process_id.ensures(
                (&named.server_pipe,),
                Ok(p.id),
            ) && open_process.ensures(
                (p.id, HandleRequest { access: HandleAccess::DuplicateHandles, inheritable: false }),
                Ok(p.handle.0),
            )
        },
        call_ensures(
            NamedMessageChannel::<H>::connect::<S, V, O, I, P, R>,
            (text, Some(timeout), wait_name, open, process_id, open_process, register),
            Ok(connected),
        ) ==> !connected.server && exists|units: &Vec<u16>, millis: u32, waited: Result<(), Error>| #[trigger]
            wait_name.ensures((units, millis), waited) && waited is Ok && millis == timeout.secs * 1000 + timeout.nanos
                / 1_000_000 && units@ == crate::windows::channel::wide(text@) && exists|request: OpenRequest, there: H|
                #[trigger]
                open.ensures((units, request), Ok(there)) && request.read && request.write && request.existing
                    && !request.everybody && register.ensures((there,), Ok(connected.pipe)) && (
                connected.target matches HandleTarget::RemoteProcess(p) && process_id.ensures((&there,), Ok(p.id))
                    && open_process.ensures(
                    (p.id, HandleRequest { access: HandleAccess::DuplicateHandles, inheritable: false }),
                    Ok(p.handle.0),
                )),
{
}

/// A name of a pipe can be handed to the operating system just where it holds no zero but at its end.
pub proof fn pipe_names_hold_no_zero(name: &str, units: Result<Vec<u16>, Error>)
    requires
        call_ensures(wide_pipe_name, (name,), units),
    ensures
        units is Ok <==> forall|i: int| 0 <= i < name@.len() - 1 ==> name@[i] != '\0',
        units matches Err(e) ==> e == Error::Fault(Fault::InvalidPipeName),
        units matches Ok(u) ==> name@.len() == 0 ==> u@ == seq![0u16],
{
    reveal_with_fuel(crate::windows::channel::utf16, 2);
}

/// A pair of pipes is connected: the client's was opened by the name that the server's was made under, as a pipe of the
/// kind that is asked for and for everybody, once the server's waited, and the server's noticed within a second.
pub proof fn pipes_of_a_pair_are_connected<H, I, D, C, N, O, W>(
    kind: PipeType,
    init_descriptor: I,
    set_dacl: D,
    create: C,
    connect: N,
    open: O,
    wait: W,
    server: H,
    client: H,
) where
    I: FnOnce() -> Result<(), Error>,
    D: FnOnce() -> Result<(), Error>,
    C: FnOnce(&String, PipeRequest) -> Result<H, Error>,
    N: FnOnce(&H) -> ConnectReply,
    O: FnOnce(&String, OpenRequest) -> Result<H, Error>,
    W: FnOnce(&H, u32) -> Result<(), Error>,

    requires
        call_ensures(
            raw_pipe_pair::<H, I, D, C, N, O, W>,
            (kind, init_descriptor, set_dacl, create, connect, open, wait),
            Ok((server, client)),
        ),
    ensures
        exists|name: &String, made: PipeRequest, opened: OpenRequest|
            #![trigger create.ensures((name, made), Ok(server)), open.ensures((name, opened), Ok(client))]
            create.ensures((name, made), Ok(server)) && open.ensures((name, opened), Ok(client)) && made.pipe_type == kind
                && made.everybody && made.duplex && made.instances == 1 && opened.everybody && opened.read
                && opened.write && opened.existing,
        exists|reply: ConnectReply| #[trigger]
            connect.ensures((&server,), reply) && reply.returned == 0 && reply.errno == 997,
        exists|waited: Result<(), Error>| #[trigger] wait.ensures((&server, 1000), waited) && waited is Ok,
        exists|initialized: Result<(), Error>| #[trigger] init_descriptor.ensures((), initialized) && initialized is Ok,
        exists|allowed: Result<(), Error>| #[trigger] set_dacl.ensures((), allowed) && allowed is Ok,
{
    let (name, initialized, allowed, connecting, waited, a, b) = choose|
        name: String,
        initialized: Result<(), Error>,
        allowed: Result<(), Error>,
        connecting: ConnectReply,
        waited: Result<(), Error>,
        a: H,
        b: H,
    | #[trigger]
        pipes_were_made(
            kind,
            init_descriptor,
            set_dacl,
            create,
            connect,
            open,
            wait,
            name,
            initialized,
            allowed,
            connecting,
            waited,
            a,
            b,
        ) && (server, client) == (a, b);
    assert(create.ensures((&name, pipe_request(kind, true)), Ok(server)));
    assert(open.ensures((&name, open_request(true)), Ok(client)));
    assert(connect.ensures((&server,), connecting));
    assert(wait.ensures((&server, 1000), waited));
}

/// A pair of pipes can be made where every call that it takes goes well.
pub proof fn pipes_are_made_unless_a_call_fails<H, I, D, C, N, O, W>(
    kind: PipeType,
    init_descriptor: I,
    set_dacl: D,
    create: C,
    connect: N,
    open: O,
    wait: W,
    pipes: Result<(H, H), Error>,
) where
    I: FnOnce() -> Result<(), Error>,
    D: FnOnce() -> Result<(), Error>,
    C: FnOnce(&String, PipeRequest) -> Result<H, Error>,
    N: FnOnce(&H) -> ConnectReply,
    O: FnOnce(&String, OpenRequest) -> Result<H, Error>,
    W: FnOnce(&H, u32) -> Result<(), Error>,

    requires
        call_ensures(
            raw_pipe_pair::<H, I, D, C, N, O, W>,
            (kind, init_descriptor, set_dacl, create, connect, open, wait),
            pipes,
        ),
        forall|r: Result<(), Error>| #[trigger] init_descriptor.ensures((), r) ==> r is Ok,
        forall|r: Result<(), Error>| #[trigger] set_dacl.ensures((), r) ==> r is Ok,
        forall|name: &String, request: PipeRequest, r: Result<H, Error>| #[trigger]
            create.ensures((name, request), r) ==> r is Ok,
        forall|pipe: &H, r: ConnectReply| #[trigger] connect.ensures((pipe,), r) ==> r.returned == 0 && r.errno == 997,
        forall|name: &String, request: OpenRequest, r: Result<H, Error>| #[trigger]
            open.ensures((name, request), r) ==> r is Ok,
        forall|pipe: &H, millis: u32, r: Result<(), Error>| #[trigger] wait.ensures((pipe, millis), r) ==> r is Ok,
    ensures
        pipes is Ok,
{
}

/// A channel with a child is established where every call that it takes goes well.
pub proof fn child_is_reached_unless_a_call_fails<S, H, T, M, P, B, L, R>(
    make_pipes: M,
    process_handle: P,
    inheritable: B,
    process_id: u32,
    launch: L,
    register: R,
    established: Result<(MessageChannel<S>, T), Error>,
) where
    M: FnOnce(PipeType) -> Result<(H, H), Error>,
    P: FnOnce(HandleRequest) -> Result<WinHandle, Error>,
    B: FnOnce(H, HandleRequest) -> Result<WinHandle, Error>,
    L: FnOnce(ChildMessageChannel) -> Result<(ProcessHandle, T), Error>,
    R: FnOnce(H) -> Result<S, Error>,

    requires
        call_ensures(
            MessageChannel::<S>::establish_with_child_custom::<H, T, M, P, B, L, R>,
            (make_pipes, process_handle, inheritable, process_id, launch, register),
            established,
        ),
        forall|kind: PipeType, r: Result<(H, H), Error>| #[trigger] make_pipes.ensures((kind,), r) ==> r is Ok,
        forall|request: HandleRequest, r: Result<WinHandle, Error>| #[trigger]
            process_handle.ensures((request,), r) ==> r is Ok,
        forall|pipe: H, request: HandleRequest, r: Result<WinHandle, Error>| #[trigger]
            inheritable.ensures((pipe, request), r) ==> r is Ok,
        forall|sent: ChildMessageChannel, r: Result<(ProcessHandle, T), Error>| #[trigger]
            launch.ensures((sent,), r) ==> r is Ok,
        forall|pipe: H, r: Result<S, Error>| #[trigger] register.ensures((pipe,), r) ==> r is Ok,
    ensures
        established is Ok,
{
}

/// An end of a channel that was not used yet can be handed to a child where every call that it takes goes well, and one
/// that was used cannot.
pub proof fn unused_end_can_be_handed_on<U, G, T, P, B, L, H>(
    end: pipe::MessageChannel<U, G>,
    process_handle: P,
    inheritable: B,
    launch: L,
    child_handle: H,
    child: Result<T, Error>,
) where
    P: FnOnce(HandleRequest) -> Result<WinHandle, Error>,
    B: FnOnce(&U, HandleRequest) -> Result<WinHandle, Error>,
    L: FnOnce(&pipe::ChildMessageChannel) -> Result<T, Error>,
    H: FnOnce(&T) -> Result<WinHandle, Error>,

    requires
        forall|request: HandleRequest, r: Result<WinHandle, Error>| #[trigger]
            process_handle.ensures((request,), r) ==> r is Ok,
        forall|pipe: &U, request: HandleRequest, r: Result<WinHandle, Error>| #[trigger]
            inheritable.ensures((pipe, request), r) ==> r is Ok,
        forall|sent: &pipe::ChildMessageChannel, r: Result<T, Error>| #[trigger] launch.ensures((sent,), r) ==> r is Ok,
        forall|t: &T, r: Result<WinHandle, Error>| #[trigger] child_handle.ensures((t,), r) ==> r is Ok,
    ensures
        forall|state: &mut pipe::HandleTargetState| #[trigger]
            call_ensures(
                pipe::MessageChannel::<U, G>::send_to_child::<T, P, B, L, H>,
                (end, state, process_handle, inheritable, launch, child_handle),
                child,
            ) ==> (child is Ok <==> end.pipe is Unregistered) && (child matches Err(e) ==> e == Error::Fault(
                Fault::ChannelInUse,
            )),
{
}

/// Processes meet under a name where every call that it takes goes well, whoever they are and however long they wait.
pub proof fn processes_meet_unless_a_call_fails<H, S, C, N, W, I, P, R, V, O>(
    create: C,
    connect: N,
    waiting: Result<NamedMessageChannel<H>, Error>,
    named: NamedMessageChannel<H>,
    timeout: Option<Timeout>,
    wait: W,
    process_id: I,
    open_process: P,
    register: R,
    accepted: Result<MessageChannel<S>, Error>,
    text: &str,
    wait_name: V,
    open: O,
    connected: Result<MessageChannel<S>, Error>,
) where
    C: FnOnce(&String, PipeRequest) -> Result<H, Error>,
    N: FnOnce(&H) -> ConnectReply,
    W: FnOnce(&H, u32) -> Result<(), Error>,
    I: FnOnce(&H) -> Result<u32, Error>,
    P: FnOnce(u32, HandleRequest) -> Result<WinHandle, Error>,
    R: FnOnce(H) -> Result<S, Error>,
    V: FnOnce(&Vec<u16>, u32) -> Result<(), Error>,
    O: FnOnce(&Vec<u16>, OpenRequest) -> Result<H, Error>,

    requires
        forall|name: &String, request: PipeRequest, r: Result<H, Error>| #[trigger]
            create.ensures((name, request), r) ==> r is Ok,
        forall|pipe: &H, r: ConnectReply| #[trigger] connect.ensures((pipe,), r) ==> r.returned == 0 && r.errno == 997,
        forall|pipe: &H, millis: u32, r: Result<(), Error>| #[trigger] wait.ensures((pipe, millis), r) ==> r is Ok,
        forall|pipe: &H, r: Result<u32, Error>| #[trigger] process_id.ensures((pipe,), r) ==> r is Ok,
        forall|id: u32, request: HandleRequest, r: Result<WinHandle, Error>| #[trigger]
            open_process.ensures((id, request), r) ==> r is Ok,
        forall|pipe: H, r: Result<S, Error>| #[trigger] register.ensures((pipe,), r) ==> r is Ok,
        forall|units: &Vec<u16>, millis: u32, r: Result<(), Error>| #[trigger]
            wait_name.ensures((units, millis), r) ==> r is Ok,
        forall|units: &Vec<u16>, request: OpenRequest, r: Result<H, Error>| #[trigger]
            open.ensures((units, request), r) ==> r is Ok,
    ensures
        call_ensures(NamedMessageChannel::<H>::new::<C, N>, (create, connect), waiting) ==> waiting is Ok,
        call_ensures(
            NamedMessageChannel::<H>::accept::<S, W, I, P, R>,
            (named, timeout, wait, process_id, open_process, register),
            accepted,
        ) ==> accepted is Ok,
        call_ensures(
            NamedMessageChannel::<H>::connect::<S, V, O, I, P, R>,
            (text, timeout, wait_name, open, process_id, open_process, register),
            connected,
        ) ==> (connected is Ok <==> forall|i: int| 0 <= i < text@.len() - 1 ==> text@[i] != '\0'),
{
}

/// A name of characters that take one unit each is handed to the operating system as these units, with a zero behind
/// them.
pub proof fn simple_names_are_handed_over_as_they_are(name: &str, units: Result<Vec<u16>, Error>)
    requires
        call_ensures(wide_pipe_name, (name,), units),
        forall|i: int| 0 <= i < name@.len() ==> 0 < (#[trigger] name@[i]) as int && name@[i] as int <= 0xFFFF,
    ensures
        units matches Ok(u) && u@.len() == name@.len() + 1 && u@.last() == 0 && forall|i: int|
            0 <= i < name@.len() ==> #[trigger] u@[i] as int == name@[i] as int,
{
    lemma_simple_units(name@);
    assert forall|i: int| 0 <= i < name@.len() implies name@[i] != '\0' by {}
}

/// The units of characters that take one unit each.
proof fn lemma_simple_units(text: Seq<char>)
    requires
        forall|i: int| 0 <= i < text.len() ==> 0 < (#[trigger] text[i]) as int && text[i] as int <= 0xFFFF,
    ensures
        utf16(text).len() == text.len(),
        forall|i: int| 0 <= i < text.len() ==> #[trigger] utf16(text)[i] as int == text[i] as int,
    decreases text.len(),
{
    if text.len() > 0 {
        let rest = text.drop_last();
        assert forall|i: int| 0 <= i < rest.len() implies 0 < (#[trigger] rest[i]) as int && rest[i] as int
            <= 0xFFFF by {
            assert(rest[i] == text[i]);
        }
        lemma_simple_units(rest);
        let c = text[text.len() - 1];
        assert(c as u32 as int == c as int);
        assert(utf16_char(c) == seq![c as u32 as u16]);
        assert forall|i: int| 0 <= i < text.len() implies #[trigger] utf16(text)[i] as int == text[i] as int by {
            if i < rest.len() {
                assert(utf16(text)[i] == utf16(rest)[i]);
                assert(rest[i] == text[i]);
            }
        }
    }
}

} // verus!
