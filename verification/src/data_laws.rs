//! What the smaller parts of the library do for their users, in terms of what they hand over and what they get.

use crate::bytes::copy;
use crate::context::{ContextGuard, Current};
use crate::error::{Error, ErrorKind, Fault};
use crate::identity::{
    hex_digit, new_pipe_name, new_service_name, new_shared_memory_name, new_socket_name, prefixed_name,
    shared_memory_name,
};
use crate::io::{SendableDataSource, SendableDataSourceBytes, SendableDataSourceReader, SendableFile};
use crate::layout::{align, lemma_round_up};
use crate::resource_channel::Channel;
use crate::shm::{Access, Bound, PlatformMemory, RangeArgument, Region, SharedMem, SharedMemMap};
use crate::sync::thin_lock::{lock_step, unlock_step, LockStep, UnlockStep};
use std::ops::{Range, RangeFrom, RangeFull, RangeTo};
use vstd::arithmetic::power2::pow2;
use vstd::prelude::*;

verus! {

/// Aligning to a power of two gives the one multiple of it that is not below what is aligned and less than a whole unit
/// above it.
pub proof fn aligned_size_is_the_next_multiple(x: usize, y: usize, n: nat, aligned: usize)
    requires
        y == pow2(n),
        n < usize::BITS,
        call_ensures(align, (x, y), aligned),
    ensures
        0 < y ==> aligned as int % y as int == 0 && x <= aligned < x + y,
{
    if 0 < y {
        lemma_round_up(x as int, y as int);
        vstd::arithmetic::div_mod::lemma_small_mod(0, y as nat);
    }
}

/// Copying puts the bytes of one buffer into the other one, each at its place, and leaves all other bytes as they are.
pub proof fn copy_moves_each_byte(source: &[u8], at: usize, from: usize, count: usize)
    ensures
        forall|dest: &mut [u8]| #[trigger]
            call_ensures(copy, (dest, at, source, from, count), ()) && at + count <= dest@.len() && from + count
                <= source@.len() ==> final(dest)@.len() == dest@.len() && forall|k: int|
                0 <= k < dest@.len() ==> #[trigger] final(dest)@[k] == (if at <= k < at + count {
                    source@[from + (k - at)]
                } else {
                    dest@[k]
                }),
{
}

/// A reader of data in memory gives the bytes that come next, as many as there are and the buffer takes, in their
/// order, leaves the rest of the buffer as it is, and goes on behind them.
pub proof fn reader_gives_the_next_bytes<F, G>(
    read_file: G,
    memory: &[u8],
    map: SharedMemMap,
    bytes: Vec<u8>,
    position: usize,
    count: Result<usize, Error>,
) where G: FnOnce(&mut F, &mut [u8]) -> Result<usize, Error>
    requires
        position <= bytes@.len(),
        position <= memory@.len(),
    ensures
        forall|reader: &mut SendableDataSourceReader<F>, buffer: &mut [u8]| #[trigger]
            call_ensures(
                SendableDataSourceReader::<F>::read::<G>,
                (reader, buffer, read_file, memory),
                count,
            ) && *reader == SendableDataSourceReader::<F>::Inline(bytes, position) ==> (count matches Ok(n) && {
                &&& n <= buffer@.len() && position + n <= bytes@.len()
                &&& n == buffer@.len() || position + n == bytes@.len()
                &&& final(buffer)@.len() == buffer@.len()
                &&& forall|k: int|
                    0 <= k < buffer@.len() ==> #[trigger] final(buffer)@[k] == (if k < n {
                        bytes@[position + k]
                    } else {
                        buffer@[k]
                    })
                &&& *final(reader) == SendableDataSourceReader::<F>::Inline(bytes, (position + n) as usize)
            }),
        forall|reader: &mut SendableDataSourceReader<F>, buffer: &mut [u8]| #[trigger]
            call_ensures(
                SendableDataSourceReader::<F>::read::<G>,
                (reader, buffer, read_file, memory),
                count,
            ) && *reader == SendableDataSourceReader::<F>::Memory(map, position) ==> (count matches Ok(n) && {
                &&& n <= buffer@.len() && position + n <= memory@.len()
                &&& n == buffer@.len() || position + n == memory@.len()
                &&& final(buffer)@.len() == buffer@.len()
                &&& forall|k: int|
                    0 <= k < buffer@.len() ==> #[trigger] final(buffer)@[k] == (if k < n {
                        memory@[position + k]
                    } else {
                        buffer@[k]
                    })
                &&& *final(reader) == SendableDataSourceReader::<F>::Memory(map, (position + n) as usize)
            }),
{
}

/// A reader of a file reads the file into the very buffer, and gives what that gave.
pub proof fn reader_of_a_file_reads_it<F, G>(
    file: F,
    read_file: G,
    memory: &[u8],
    count: Result<usize, Error>,
) where G: FnOnce(&mut F, &mut [u8]) -> Result<usize, Error>
    ensures
        forall|reader: &mut SendableDataSourceReader<F>, buffer: &mut [u8]| #[trigger]
            call_ensures(
                SendableDataSourceReader::<F>::read::<G>,
                (reader, buffer, read_file, memory),
                count,
            ) && *reader == SendableDataSourceReader::<F>::File(file) ==> exists|there: &mut F, room: &mut [u8]| #[trigger]
                read_file.ensures((there, room), count) && *there == file && room@ == buffer@ && final(room)@
                    == final(buffer)@ && *final(reader) == SendableDataSourceReader::<F>::File(*final(there)),
{
}

/// A source is read from its start, and brought into memory whole: what is held inline is given as it is, shared memory
/// is mapped whole and for reading, and a file is read from its start to its end.
pub proof fn source_is_read_whole<F, M, W, G, H, I>(
    file: F,
    shared: M,
    bytes: Vec<u8>,
    rewind: W,
    read_to_end: G,
    map: H,
    map_read: I,
    brought: Result<SendableDataSourceBytes, Error>,
    reader: Result<SendableDataSourceReader<F>, Error>,
    source: SendableDataSource<F, M>,
) where
    W: FnOnce(&mut F),
    G: FnOnce(F) -> Result<Vec<u8>, Error>,
    H: FnOnce(M, RangeFull, Access) -> Result<SharedMemMap, Error>,
    I: FnOnce(M, RangeFull, Access) -> Result<SharedMemMap, Error>,

    ensures
        call_ensures(SendableDataSource::<F, M>::from_file, (file,), source) ==> source == SendableDataSource::<
            F,
            M,
        >::File(file),
        call_ensures(
            SendableDataSource::<F, M>::to_read::<I>,
            (SendableDataSource::<F, M>::Inline(bytes), map_read),
            reader,
        ) ==> (reader matches Ok(SendableDataSourceReader::Inline(held, position)) && held == bytes && position == 0),
        call_ensures(
            SendableDataSource::<F, M>::to_read::<I>,
            (SendableDataSource::<F, M>::File(file), map_read),
            reader,
        ) ==> (reader matches Ok(SendableDataSourceReader::File(held)) && held == file),
        call_ensures(
            SendableDataSource::<F, M>::to_read::<I>,
            (SendableDataSource::<F, M>::Memory(shared), map_read),
            reader,
        ) ==> match reader {
            Ok(SendableDataSourceReader::Memory(held, position)) => position == 0 && map_read.ensures(
                (shared, RangeFull, Access::Read),
                Ok(held),
            ),
            Ok(_) => false,
            Err(e) => map_read.ensures((shared, RangeFull, Access::Read), Err(e)),
        },
        call_ensures(
            SendableDataSource::<F, M>::to_bytes::<W, G, H>,
            (SendableDataSource::<F, M>::Inline(bytes), rewind, read_to_end, map),
            brought,
        ) ==> (brought matches Ok(SendableDataSourceBytes::Vec(held)) && held == bytes),
        call_ensures(
            SendableDataSource::<F, M>::to_bytes::<W, G, H>,
            (SendableDataSource::<F, M>::Memory(shared), rewind, read_to_end, map),
            brought,
        ) ==> match brought {
            Ok(SendableDataSourceBytes::Shared(held)) => map.ensures((shared, RangeFull, Access::Read), Ok(held)),
            Ok(_) => false,
            Err(e) => map.ensures((shared, RangeFull, Access::Read), Err(e)),
        },
        call_ensures(
            SendableDataSource::<F, M>::to_bytes::<W, G, H>,
            (SendableDataSource::<F, M>::File(file), rewind, read_to_end, map),
            brought,
        ) ==> exists|there: &mut F| #[trigger]
            rewind.ensures((there,), ()) && *there == file && match brought {
                Ok(SendableDataSourceBytes::Vec(held)) => read_to_end.ensures((*final(there),), Ok(held)),
                Ok(_) => false,
                Err(e) => read_to_end.ensures((*final(there),), Err(e)),
            },
{
}

/// Data in memory is what was brought there, and a file is what was wrapped.
pub proof fn data_in_memory_is_what_was_brought<'a, B>(
    held: &'a SendableDataSourceBytes,
    memory: &'a [u8],
    bytes: &'a [u8],
    file: SendableFile<B>,
    inner: B,
)
    ensures
        call_ensures(SendableDataSourceBytes::deref, (held, memory), bytes) ==> match *held {
            SendableDataSourceBytes::Vec(v) => bytes@ == v@,
            SendableDataSourceBytes::Shared(_) => bytes@ == memory@,
        },
        call_ensures(SendableFile::<B>::into_inner, (file,), inner) ==> inner == file.0,
{
}

/// A digit is one of the sixteen, and tells its number.
pub proof fn digits_tell_their_number(a: u128, b: u128)
    requires
        a < 16,
        b < 16,
    ensures
        a < 10 ==> hex_digit(a) as int == '0' as int + a,
        10 <= a ==> hex_digit(a) as int == 'a' as int + a - 10,
        hex_digit(a) == hex_digit(b) ==> a == b,
{
}

/// The name of a shared memory object is a slash and the 29 leading digits of its identifier, whichever identifier that
/// is, so that every platform takes it. Identifiers with the same name have the same leading digits.
pub proof fn shared_memory_is_named_by_its_digits(id: u128, other: u128, name: String, other_name: String)
    requires
        call_ensures(shared_memory_name, (id,), name),
        call_ensures(shared_memory_name, (other,), other_name),
    ensures
        name@.len() == 30,
        name@[0] == '/',
        forall|i: int|
            #![trigger name@[i + 1]]
            0 <= i < 29 ==> name@[i + 1] == hex_digit((id >> ((124 - 4 * i) as u128)) & 0xf),
        name@ == other_name@ ==> id >> 12u128 == other >> 12u128,
{
    reveal_strlit("/");
    if name@ == other_name@ {
        assert forall|i: int| 0 <= i < 29 implies #[trigger] name@[i + 1] == other_name@[i + 1] by {}
        lemma_same_digits(id, other, name@, other_name@);
    }
}

/// Identifiers whose 29 leading digits are the same differ in their last three digits only.
proof fn lemma_same_digits(a: u128, b: u128, x: Seq<char>, y: Seq<char>)
    requires
        x == y,
        forall|i: int|
            #![trigger x[i + 1]]
            0 <= i < 29 ==> x[i + 1] == hex_digit((a >> ((124 - 4 * i) as u128)) & 0xf),
        forall|i: int|
            #![trigger y[i + 1]]
            0 <= i < 29 ==> y[i + 1] == hex_digit((b >> ((124 - 4 * i) as u128)) & 0xf),
    ensures
        a >> 12u128 == b >> 12u128,
{
    assert forall|s: u128| 12 <= s <= 124 && s % 4 == 0 implies #[trigger] (a >> s) & 0xf == (b >> s) & 0xf by {
        let i = (124 - s) / 4;
        assert((124 - 4 * i) as u128 == s);
        assert(x[i + 1] == hex_digit((a >> s) & 0xf));
        assert(y[i + 1] == hex_digit((b >> s) & 0xf));
        assert((a >> s) & 0xf < 16) by (bit_vector);
        assert((b >> s) & 0xf < 16) by (bit_vector);
        digits_tell_their_number((a >> s) & 0xf, (b >> s) & 0xf);
    }
    lemma_same_shifts(a, b, 124);
}

/// Identifiers whose digits from one place up are the same are the same from that place up.
proof fn lemma_same_shifts(a: u128, b: u128, s: u128)
    requires
        12 <= s <= 124,
        s % 4 == 0,
        s == 124 || a >> ((s + 4) as u128) == b >> ((s + 4) as u128),
        forall|s: u128| 12 <= s <= 124 && s % 4 == 0 ==> #[trigger] (a >> s) & 0xf == (b >> s) & 0xf,
    ensures
        a >> 12u128 == b >> 12u128,
    decreases s,
{
    let t: u128 = (s + 4) as u128;
    assert((a >> s) & 0xf == (b >> s) & 0xf);
    if s == 124 {
        assert(a >> s == b >> s) by (bit_vector)
            requires
                s == 124,
                (a >> s) & 0xf == (b >> s) & 0xf,
        ;
    } else {
        assert(a >> s == b >> s) by (bit_vector)
            requires
                s <= 120,
                t == s + 4,
                a >> t == b >> t,
                (a >> s) & 0xf == (b >> s) & 0xf,
        ;
    }
    if s > 12 {
        let next: u128 = (s - 4) as u128;
        assert((next + 4) as u128 == s);
        lemma_same_shifts(a, b, next);
    }
}

/// A name behind a prefix is that prefix and 36 characters: the digits of the identifier, the most significant first,
/// in five groups with hyphens between them.
pub proof fn prefix_is_followed_by_the_identifier(prefix: &str, id: u128, name: String)
    requires
        call_ensures(prefixed_name, (prefix, id), name),
    ensures
        name@.len() == prefix@.len() + 36,
        name@.take(prefix@.len() as int) == prefix@,
        ({
            let text = name@.skip(prefix@.len() as int);
            &&& text[8] == '-' && text[13] == '-' && text[18] == '-' && text[23] == '-'
            &&& forall|i: int|
                0 <= i < 32 ==> #[trigger] hex_digit((id >> ((124 - 4 * i) as u128)) & 0xf) == text[i + (if i < 8 {
                    0int
                } else if i < 12 {
                    1
                } else if i < 16 {
                    2
                } else if i < 20 {
                    3
                } else {
                    4
                })]
        }),
{
}

/// New names are names of identifiers that were drawn at random: their version digit is a four. Those of pipes and
/// services come behind their prefix.
pub proof fn new_names_are_of_random_identifiers(name: String)
    ensures
        call_ensures(new_socket_name, (), name) ==> name@.len() == 36 && name@[14] == '4',
        call_ensures(new_shared_memory_name, (), name) ==> name@.len() == 30 && name@[0] == '/' && name@[13] == '4',
        call_ensures(new_pipe_name, (), name) ==> {
            &&& name@.len() == "\\\\.\\pipe\\"@.len() + 36
            &&& name@.take("\\\\.\\pipe\\"@.len() as int) == "\\\\.\\pipe\\"@
            &&& name@["\\\\.\\pipe\\"@.len() + 14int] == '4'
        },
        call_ensures(new_service_name, (), name) ==> {
            &&& name@.len() == "rust.sandbox-ipc-core.child."@.len() + 36
            &&& name@.take("rust.sandbox-ipc-core.child."@.len() as int) == "rust.sandbox-ipc-core.child."@
            &&& name@["rust.sandbox-ipc-core.child."@.len() + 14int] == '4'
        },
{
    reveal_strlit("/");
    assert(hex_digit(4) == '4');
}

/// A thread has the lock right away just where nobody had it or waited for it, and waits else. A thread that gives it
/// up wakes another one just where somebody waits. So of a thread that comes and a thread that goes, one wakes the
/// other just where the other waits.
pub proof fn one_thread_wakes_the_other(previous: usize, came: LockStep, went: UnlockStep)
    requires
        call_ensures(lock_step, (previous,), came),
    ensures
        came == LockStep::Acquired <==> previous == 0,
        previous < usize::MAX && call_ensures(unlock_step, ((previous + 1) as usize,), went) ==> (went
            == UnlockStep::Release <==> came == LockStep::Wait),
        call_ensures(unlock_step, (previous,), went) ==> {
            &&& went == UnlockStep::Invalid <==> previous == 0
            &&& went == UnlockStep::Free <==> previous == 1
            &&& went == UnlockStep::Release <==> previous >= 2
        },
{
}

/// Every handle to an object, and every mapping of it, has the token of the object, and is what the operating system
/// made of the request for just this access and this part.
pub proof fn token_stays_with_the_object<P, F, G, R, H>(
    size: usize,
    create: F,
    made: Result<SharedMem<P>, Error>,
    memory: SharedMem<P>,
    access: Access,
    clone: G,
    copy: Result<SharedMem<P>, Error>,
    range: R,
    map: H,
    mapping: Result<SharedMemMap, Error>,
    bytes: usize,
) where
    P: PlatformMemory,
    F: FnOnce(usize) -> Result<P, Error>,
    G: FnOnce(&P, Access) -> Result<P, Error>,
    R: RangeArgument<usize>,
    H: FnOnce(&P, R, Access) -> Result<Region, Error>,

    ensures
        call_ensures(SharedMem::<P>::new::<F>, (size, create), made) ==> match made {
            Ok(m) => create.ensures((size,), Ok(m.inner)),
            Err(e) => create.ensures((size,), Err(e)),
        },
        call_ensures(SharedMem::<P>::clone_with_access::<G>, (&memory, access, clone), copy) ==> match copy {
            Ok(m) => m.token == memory.token && clone.ensures((&memory.inner, access), Ok(m.inner)),
            Err(e) => clone.ensures((&memory.inner, access), Err(e)),
        },
        call_ensures(SharedMem::<P>::map::<R, H>, (&memory, range, access, map), mapping) ==> match mapping {
            Ok(m) => m.token == memory.token && map.ensures((&memory.inner, range, access), Ok(m.region)),
            Err(e) => map.ensures((&memory.inner, range, access), Err(e)),
        },
        call_ensures(SharedMem::<P>::size, (&memory,), bytes) ==> bytes == memory.inner.spec_size(),
{
}

/// A mapping says of itself what it is.
pub proof fn mapping_says_what_it_is(
    map: SharedMemMap,
    pointer: usize,
    len: usize,
    access: Access,
    offset: usize,
    token: u128,
)
    requires
        call_ensures(SharedMemMap::pointer, (&map,), pointer),
        call_ensures(SharedMemMap::len, (&map,), len),
        call_ensures(SharedMemMap::access, (&map,), access),
        call_ensures(SharedMemMap::offset, (&map,), offset),
        call_ensures(SharedMemMap::token, (&map,), token),
    ensures
        map == (SharedMemMap { region: Region { pointer, len, offset, access }, token }),
{
}

/// A channel starts with an empty buffer and the usual size for messages, and changes that size to whatever it is set
/// to, and nothing else. A second handle to the channel has the same size, and a buffer of its own.
pub proof fn size_of_received_messages_is_what_was_set<I>(
    inner: I,
    made: Result<Channel<I>, Error>,
    channel: Channel<I>,
    copy: Channel<I>,
    len: usize,
    told: usize,
)
    ensures
        call_ensures(Channel::<I>::from_raw, (inner,), made) ==> (made matches Ok(c) && c.inner == inner
            && c.recv_buffer_len == 4096 && c.buffer@.len() == 0),
        call_ensures(Channel::<I>::clone_with, (&channel, inner), copy) ==> copy.inner == inner && copy.recv_buffer_len
            == channel.recv_buffer_len && copy.buffer@.len() == 0,
        call_ensures(Channel::<I>::recv_buffer_len, (&channel,), told) ==> told == channel.recv_buffer_len,
        forall|there: &mut Channel<I>| #[trigger]
            call_ensures(Channel::<I>::set_recv_buffer_len, (there, len), ()) ==> final(there).recv_buffer_len == len
                && final(there).inner == there.inner && final(there).buffer == there.buffer,
{
}

/// A message that was sent was serialized into an empty buffer, and finished with the very bytes that this gave; the
/// buffer is empty again. Sending fails just where starting, serializing or finishing does.
pub proof fn message_is_finished_with_its_bytes<I, T, A, F, G>(
    start: A,
    serialize: F,
    finish: G,
    result: Result<(), Error>,
) where
    A: FnOnce(&I) -> Result<T, Error>,
    F: FnOnce(&mut T, &mut Vec<u8>) -> bool,
    G: FnOnce(T, &[u8]) -> Result<(), Error>,

    ensures
        forall|channel: &mut Channel<I>| #[trigger]
            call_ensures(Channel::<I>::send::<T, A, F, G>, (channel, start, serialize, finish), result) && result is Ok
                ==> final(channel).buffer@.len() == 0 && exists|
                sender: &mut T,
                buffer: &mut Vec<u8>,
                bytes: &[u8],
                finished: Result<(), Error>,
            | #[trigger]
                serialize.ensures((sender, buffer), true) && #[trigger] finish.ensures(
                    (*final(sender), bytes),
                    finished,
                ) && start.ensures((&channel.inner,), Ok(*sender)) && buffer@.len() == 0 && bytes@ == final(buffer)@
                    && finished is Ok,
        forall|channel: &mut Channel<I>| #[trigger]
            call_ensures(Channel::<I>::send::<T, A, F, G>, (channel, start, serialize, finish), result) && (forall|
                inner: &I,
                started: Result<T, Error>,
            | #[trigger] start.ensures((inner,), started) ==> started is Ok) && (forall|
                sender: &mut T,
                buffer: &mut Vec<u8>,
                went_well: bool,
            | #[trigger] serialize.ensures((sender, buffer), went_well) ==> went_well) && (forall|
                sender: T,
                bytes: &[u8],
                finished: Result<(), Error>,
            | #[trigger] finish.ensures((sender, bytes), finished) ==> finished is Ok) ==> result is Ok,
        forall|channel: &mut Channel<I>| #[trigger]
            call_ensures(Channel::<I>::send::<T, A, F, G>, (channel, start, serialize, finish), result)
                ==> final(channel).inner == channel.inner && final(channel).recv_buffer_len == channel.recv_buffer_len,
{
}

/// A message that was received was deserialized from the very data that came into a buffer of the size that was set,
/// with the resources that came with it; the buffer is empty again.
pub proof fn message_is_made_of_the_data_received<I, M, T, F, G>(
    receive: F,
    deserialize: G,
    message: Result<M, Error>,
) where
    F: FnOnce(&I, usize, &mut [u8]) -> Result<(T, usize), Error>,
    G: FnOnce(T, &[u8]) -> Option<M>,

    ensures
        forall|channel: &mut Channel<I>| #[trigger]
            call_ensures(Channel::<I>::recv::<M, T, F, G>, (channel, receive, deserialize), message) ==> {
                &&& final(channel).inner == channel.inner
                &&& final(channel).recv_buffer_len == channel.recv_buffer_len
                &&& message matches Ok(m) ==> final(channel).buffer@.len() == 0 && exists|
                    room: &mut [u8],
                    received: Result<(T, usize), Error>,
                    resources: T,
                    data: &[u8],
                    deserialized: Option<M>,
                | #[trigger]
                    receive.ensures((&channel.inner, 32, room), received) && #[trigger] deserialize.ensures(
                        (resources, data),
                        deserialized,
                    ) && room@.len() == channel.recv_buffer_len && (received matches Ok((handed, len)) && handed
                        == resources && data@ == final(room)@.take(len as int)) && deserialized == Some(m)
            },
        forall|channel: &mut Channel<I>| #[trigger]
            call_ensures(Channel::<I>::recv::<M, T, F, G>, (channel, receive, deserialize), message) && (forall|
                inner: &I,
                count: usize,
                room: &mut [u8],
                received: Result<(T, usize), Error>,
            | #[trigger] receive.ensures((inner, count, room), received) ==> received is Ok) && (forall|
                resources: T,
                data: &[u8],
                deserialized: Option<M>,
            | #[trigger] deserialize.ensures((resources, data), deserialized) ==> deserialized is Some) ==> message is Ok,
{
}

/// What is refused for want of rights, for a way that is closed, for a packet that was cut off, or for having to wait,
/// is so for just these reasons; what came from the other side and cannot be used is invalid data.
pub proof fn kinds_of_failures(fault: Fault, kind: ErrorKind)
    requires
        call_ensures(Fault::kind, (fault,), kind),
    ensures
        kind == ErrorKind::PermissionDenied <==> fault is MemoryReadOnly,
        kind == ErrorKind::BrokenPipe <==> fault is HandlesNotConfigured || fault is ChannelSealed,
        kind == ErrorKind::WriteZero <==> fault is PartialWrite,
        kind == ErrorKind::WouldBlock <==> fault is NotReady,
        kind == ErrorKind::InvalidData <==> {
            ||| fault is DescriptorIndex || fault is InvalidDescriptor || fault is InvalidInheritedHandle
            ||| fault is Deserialization || fault is InvalidServiceName
            ||| fault is ResourceTooShort || fault is ResourceKind || fault is ResourceIndex || fault is ResourceTaken
            ||| fault is TokenMismatch || fault is MissingTxDescriptor || fault is MissingRxDescriptor
            ||| fault is MissingTxPort || fault is MissingRxPort
        },
        kind == ErrorKind::Other <==> {
            ||| fault is ChannelInUse || fault is InvalidHandle
            ||| fault is MessageTooShort || fault is MessageLengthMismatch || fault is BufferTooSmall
            ||| fault is SerializeOutsideChannel || fault is DeserializeOutsideChannel
            ||| fault is SerializeHandleOutsideChannel || fault is DeserializeHandleOutsideChannel
            ||| fault is SerializeOutsideContext || fault is DeserializeOutsideContext
            ||| fault is SerializeInInvalidContext
        },
{
}

/// A range has the bounds that it is written with: its start is part of it, its end is not, and what is left out is not
/// bounded.
pub proof fn ranges_have_their_bounds<T>(
    full: RangeFull,
    from: RangeFrom<T>,
    to: RangeTo<T>,
    both: Range<T>,
    start: Bound<&T>,
    end: Bound<&T>,
)
    ensures
        call_ensures(<RangeFull as RangeArgument<T>>::start, (&full,), start) ==> start is Unbounded,
        call_ensures(<RangeFull as RangeArgument<T>>::end, (&full,), end) ==> end is Unbounded,
        call_ensures(<RangeFrom<T> as RangeArgument<T>>::start, (&from,), start) ==> (start matches Bound::Included(i)
            && *i == from.start),
        call_ensures(<RangeFrom<T> as RangeArgument<T>>::end, (&from,), end) ==> end is Unbounded,
        call_ensures(<RangeTo<T> as RangeArgument<T>>::start, (&to,), start) ==> start is Unbounded,
        call_ensures(<RangeTo<T> as RangeArgument<T>>::end, (&to,), end) ==> (end matches Bound::Excluded(i) && *i
            == to.end),
        call_ensures(<Range<T> as RangeArgument<T>>::start, (&both,), start) ==> (start matches Bound::Included(i) && *i
            == both.start),
        call_ensures(<Range<T> as RangeArgument<T>>::end, (&both,), end) ==> (end matches Bound::Excluded(i) && *i
            == both.end),
{
}

/// A resource is serialized and deserialized with the current context, and only where there is one; each way of asking
/// for it says in its own words that there is none.
pub proof fn resources_turn_to_the_current_context<C, R, F>(
    current: Current<C>,
    f: F,
    result: Result<R, Error>,
    has: bool,
) where F: FnOnce(&C) -> Result<R, Error>
    ensures
        call_ensures(Current::<C>::has_current, (&current,), has) ==> (has <==> current.context is Some),
        current.context is Some && (call_ensures(Current::<C>::serialize_with::<R, F>, (&current, f), result)
            || call_ensures(Current::<C>::serialize_with_current::<R, F>, (&current, f), result) || call_ensures(
            Current::<C>::deserialize_with::<R, F>,
            (&current, f),
            result,
        )) ==> f.ensures((&current.context->0,), result),
        current.context is None ==> {
            &&& call_ensures(Current::<C>::serialize_with::<R, F>, (&current, f), result) ==> result == Err::<R, Error>(
                Error::Fault(Fault::SerializeOutsideContext),
            )
            &&& call_ensures(Current::<C>::serialize_with_current::<R, F>, (&current, f), result) ==> result == Err::<
                R,
                Error,
            >(Error::Fault(Fault::SerializeInInvalidContext))
            &&& call_ensures(Current::<C>::deserialize_with::<R, F>, (&current, f), result) ==> result == Err::<
                R,
                Error,
            >(Error::Fault(Fault::DeserializeOutsideContext))
        },
{
}

/// A context that is put into a place is the current one there, and its guard has what was there before.
pub proof fn context_that_is_entered_is_current<C>(context: C, guard: ContextGuard<C>)
    ensures
        forall|place: &mut Current<C>| #[trigger]
            call_ensures(Current::<C>::enter, (place, context), guard) ==> final(place).context == Some(context)
                && guard.previous == place.context,
        forall|place: &mut Current<C>| #[trigger]
            call_ensures(Current::<C>::leave, (place, guard), ()) ==> final(place).context == guard.previous,
{
}

/// Bytes become a source that holds them inline.
pub proof fn bytes_are_a_source<F, M>(bytes: Vec<u8>, source: SendableDataSource<F, M>)
    ensures
        call_ensures(<SendableDataSource<F, M> as From<Vec<u8>>>::from, (bytes,), source) ==> source
            == SendableDataSource::<F, M>::Inline(bytes),
{
}

} // verus!
