//! What channels of messages and mutexes do for their users, in terms of what they hand over and what they get.

use crate::error::{Error, Fault};
use crate::layout::USIZE_SIZE;
use crate::ser::{
    Async, AsyncSink, Attempt, BincodeDatagram, NoopWrapper, NoopWrapperGuard, SerializeWrapper, SerializeWrapperGuard,
};
use crate::shm::queue::PoisonError;
use crate::shm::{Access, SharedMemMap};
use crate::sync::{mutex_shm_size, Mutex, MutexGuard, MutexHandle, PlatformMutex, PlatformMutexHandle};
use vstd::prelude::*;

verus! {

/// A packet that was written whole, whatever its length, is sent: nothing is left to send afterwards. One that was
/// written in any other way is kept as it is, and so is everything else.
pub proof fn packet_is_sent_once_written<S>(len: usize, attempt: Attempt, result: Result<Async<()>, Error>)
    ensures
        forall|channel: &mut BincodeDatagram<S>| #[trigger]
            call_ensures(BincodeDatagram::<S>::complete, (channel, attempt), result) && channel.buffered_send == Some(
                len,
            ) ==> {
                &&& attempt == Attempt::Done(len) ==> result == Ok::<Async<()>, Error>(Async::Ready(()))
                    && final(channel).buffered_send is None
                &&& attempt != Attempt::Done(len) ==> final(channel).buffered_send == Some(len)
                &&& attempt is WouldBlock ==> result == Ok::<Async<()>, Error>(Async::NotReady)
                &&& attempt matches Attempt::Failed(e) ==> result == Err::<Async<()>, Error>(e)
                &&& attempt matches Attempt::Done(written) ==> written != len ==> result == Err::<Async<()>, Error>(
                    Error::Fault(Fault::PartialWrite),
                )
                &&& final(channel).tx_buffer == channel.tx_buffer
                &&& final(channel).rx_buffer == channel.rx_buffer
                &&& final(channel).io == channel.io
            },
{
}

/// Sending the packet that is left writes the very bytes that stand for it in the buffer. Where the writer reports as
/// many bytes as there are, the packet is sent, and a second attempt finds nothing to send and writes nothing.
pub proof fn pending_packet_is_written_once<S, F, N>(
    write: F,
    again: N,
    len: usize,
    result: Result<Async<()>, Error>,
    second: Result<Async<()>, Error>,
) where F: FnOnce(&mut S, &[u8]) -> Attempt, N: FnOnce(&mut S, &[u8]) -> Attempt
    ensures
        forall|channel: &mut BincodeDatagram<S>| #[trigger]
            call_ensures(BincodeDatagram::<S>::poll_complete::<F>, (channel, write), result) && channel.valid()
                && channel.buffered_send == Some(len) ==> exists|io: &mut S, bytes: &[u8], attempt: Attempt| #[trigger]
                write.ensures((io, bytes), attempt) && *io == channel.io && *final(io) == final(channel).io
                    && bytes@.len() == len && (forall|k: int| 0 <= k < len ==> bytes@[k] == channel.tx_buffer@[k]) && (
                match attempt {
                    Attempt::Done(written) => if written == len {
                        result == Ok::<Async<()>, Error>(Async::Ready(())) && final(channel).buffered_send is None
                    } else {
                        result is Err && final(channel).buffered_send == Some(len)
                    },
                    Attempt::WouldBlock => result == Ok::<Async<()>, Error>(Async::NotReady)
                        && final(channel).buffered_send == Some(len),
                    Attempt::Failed(e) => result == Err::<Async<()>, Error>(e) && final(channel).buffered_send
                        == Some(len),
                }),
        forall|channel: &mut BincodeDatagram<S>| #[trigger]
            call_ensures(BincodeDatagram::<S>::poll_complete::<F>, (channel, write), result)
                && channel.buffered_send == Some(len) && (forall|io: &mut S, bytes: &[u8], attempt: Attempt| #[trigger]
                write.ensures((io, bytes), attempt) ==> attempt == Attempt::Done(len)) ==> result == Ok::<
                Async<()>,
                Error,
            >(Async::Ready(())) && final(channel).buffered_send is None && final(channel).tx_buffer
                == channel.tx_buffer,
        forall|channel: &mut BincodeDatagram<S>, later: &mut BincodeDatagram<S>|
            #![trigger
                call_ensures(BincodeDatagram::<S>::poll_complete::<F>, (channel, write), result),
                call_ensures(BincodeDatagram::<S>::poll_complete::<N>, (later, again), second)
            ]
            call_ensures(BincodeDatagram::<S>::poll_complete::<F>, (channel, write), result) && result == Ok::<
                Async<()>,
                Error,
            >(Async::Ready(())) && *later == *final(channel) && call_ensures(
                BincodeDatagram::<S>::poll_complete::<N>,
                (later, again),
                second,
            ) ==> second == Ok::<Async<()>, Error>(Async::Ready(())) && *final(later) == *later,
{
    assert forall|channel: &mut BincodeDatagram<S>| #[trigger]
        call_ensures(BincodeDatagram::<S>::poll_complete::<F>, (channel, write), result) && channel.valid()
            && channel.buffered_send == Some(len) implies exists|io: &mut S, bytes: &[u8], attempt: Attempt| #[trigger]
        write.ensures((io, bytes), attempt) && *io == channel.io && *final(io) == final(channel).io && bytes@.len()
            == len && (forall|k: int| 0 <= k < len ==> bytes@[k] == channel.tx_buffer@[k]) && (match attempt {
            Attempt::Done(written) => if written == len {
                result == Ok::<Async<()>, Error>(Async::Ready(())) && final(channel).buffered_send is None
            } else {
                result is Err && final(channel).buffered_send == Some(len)
            },
            Attempt::WouldBlock => result == Ok::<Async<()>, Error>(Async::NotReady) && final(channel).buffered_send
                == Some(len),
            Attempt::Failed(e) => result == Err::<Async<()>, Error>(e) && final(channel).buffered_send == Some(len),
        }) by {
        let (io, bytes, attempt) = choose|io: &mut S, bytes: &[u8], attempt: Attempt| #[trigger]
            write.ensures((io, bytes), attempt) && *io == channel.io && *final(io) == final(channel).io
                && channel.pending() == Some(bytes@) && result == crate::ser::completion(len, attempt);
        assert(write.ensures((io, bytes), attempt));
    }
}

/// A message that is given to a channel with nothing left to send becomes what is left to send: what the serializer
/// put into the buffer, as long as it says. Where the serializer fails, nothing is left to send.
pub proof fn message_becomes_the_pending_packet<S, T, W, F, G>(
    item: T,
    write: F,
    serialize: G,
    len: usize,
    result: Result<AsyncSink<T>, Error>,
) where
    W: for <'a>SerializeWrapper<'a, S>,
    F: FnOnce(&mut S, &[u8]) -> Attempt,
    G: FnOnce(&T, &mut [u8]) -> Option<usize>,

    ensures
        forall|channel: &mut BincodeDatagram<S>| #[trigger]
            call_ensures(BincodeDatagram::<S>::start_send::<T, W, F, G>, (channel, item, write, serialize), result)
                && channel.buffered_send is None ==> exists|room: &mut [u8], serialized: Option<usize>| #[trigger]
                serialize.ensures((&item, room), serialized) && room@ == channel.tx_buffer@
                    && final(channel).tx_buffer@ == final(room)@ && final(channel).buffered_send == serialized && (
                result == Ok::<AsyncSink<T>, Error>(AsyncSink::Ready) <==> serialized is Some) && (result is Err
                    <==> serialized is None),
        forall|channel: &mut BincodeDatagram<S>| #[trigger]
            call_ensures(BincodeDatagram::<S>::start_send::<T, W, F, G>, (channel, item, write, serialize), result)
                && channel.buffered_send == Some(len) && (forall|io: &mut S, bytes: &[u8], attempt: Attempt| #[trigger]
                write.ensures((io, bytes), attempt) ==> attempt == Attempt::Done(len)) ==> exists|
                room: &mut [u8],
                serialized: Option<usize>,
            | #[trigger]
                serialize.ensures((&item, room), serialized) && room@ == channel.tx_buffer@
                    && final(channel).tx_buffer@ == final(room)@ && final(channel).buffered_send == serialized && (
                result == Ok::<AsyncSink<T>, Error>(AsyncSink::Ready) <==> serialized is Some),
{
}

/// What is received is what was read: the first bytes of the receive buffer, as many as the packet had. A packet
/// without bytes is the end. Nothing else of the channel changes.
pub proof fn received_packet_is_the_message<S, R, W, G>(
    attempt: Attempt,
    deserialize: G,
    result: Result<Async<Option<R>>, Error>,
    message: Result<Async<Option<&[u8]>>, Error>,
    channel: BincodeDatagram<S>,
) where W: for <'a>SerializeWrapper<'a, S>, G: FnOnce(&[u8]) -> Option<R>
    ensures
        forall|channel: &mut BincodeDatagram<S>| #[trigger]
            call_ensures(BincodeDatagram::<S>::poll::<R, W, G>, (channel, attempt, deserialize), result) ==> {
                &&& final(channel).buffered_send == channel.buffered_send
                &&& final(channel).tx_buffer == channel.tx_buffer
                &&& final(channel).rx_buffer == channel.rx_buffer
                &&& attempt is WouldBlock ==> result == Ok::<Async<Option<R>>, Error>(Async::NotReady)
                &&& attempt matches Attempt::Failed(e) ==> result == Err::<Async<Option<R>>, Error>(e)
                &&& attempt == Attempt::Done(0) ==> result == Ok::<Async<Option<R>>, Error>(Async::Ready(None))
            },
        forall|channel: &mut BincodeDatagram<S>, len: usize|
            #![trigger
                call_ensures(BincodeDatagram::<S>::poll::<R, W, G>, (channel, Attempt::Done(len), deserialize), result)
            ]
            call_ensures(BincodeDatagram::<S>::poll::<R, W, G>, (channel, Attempt::Done(len), deserialize), result) && 0
                < len <= channel.rx_buffer@.len() ==> exists|bytes: &[u8], message: Option<R>| #[trigger]
                deserialize.ensures((bytes,), message) && bytes@.len() == len && (forall|k: int|
                    0 <= k < len ==> bytes@[k] == channel.rx_buffer@[k]) && (match message {
                    Some(m) => result == Ok::<Async<Option<R>>, Error>(Async::Ready(Some(m))),
                    None => result == Err::<Async<Option<R>>, Error>(Error::Fault(Fault::Deserialization)),
                }),
        call_ensures(BincodeDatagram::<S>::message, (&channel, attempt), message) ==> match attempt {
            Attempt::Done(len) => if len == 0 {
                message == Ok::<Async<Option<&[u8]>>, Error>(Async::Ready(None))
            } else {
                len <= channel.rx_buffer@.len() ==> (message matches Ok(Async::Ready(Some(bytes))) && bytes@.len()
                    == len && forall|k: int| 0 <= k < len ==> bytes@[k] == channel.rx_buffer@[k])
            },
            Attempt::WouldBlock => message == Ok::<Async<Option<&[u8]>>, Error>(Async::NotReady),
            Attempt::Failed(e) => message == Err::<Async<Option<&[u8]>>, Error>(e),
        },
{
    assert forall|channel: &mut BincodeDatagram<S>, len: usize|
        #![trigger
            call_ensures(BincodeDatagram::<S>::poll::<R, W, G>, (channel, Attempt::Done(len), deserialize), result)
        ]
        call_ensures(BincodeDatagram::<S>::poll::<R, W, G>, (channel, Attempt::Done(len), deserialize), result) && 0
            < len <= channel.rx_buffer@.len() implies exists|bytes: &[u8], message: Option<R>| #[trigger]
        deserialize.ensures((bytes,), message) && bytes@.len() == len && (forall|k: int|
            0 <= k < len ==> bytes@[k] == channel.rx_buffer@[k]) && (match message {
            Some(m) => result == Ok::<Async<Option<R>>, Error>(Async::Ready(Some(m))),
            None => result == Err::<Async<Option<R>>, Error>(Error::Fault(Fault::Deserialization)),
        }) by {
        let (bytes, message) = choose|bytes: &[u8], message: Option<R>| #[trigger]
            deserialize.ensures((bytes,), message) && bytes@ == channel.rx_buffer@.take(len as int) && result == (
            match message {
                Some(m) => Ok::<Async<Option<R>>, Error>(Async::Ready(Some(m))),
                None => Err(Error::Fault(Fault::Deserialization)),
            });
        assert(deserialize.ensures((bytes,), message));
    }
}

/// A new channel of messages has nothing to send, and room for as many bytes as it was asked for, both ways. It gives
/// back the channel that it was put on.
pub proof fn wrapped_channel_is_found_again<S>(io: S, size: usize, channel: BincodeDatagram<S>, inner: S, there: &S)
    ensures
        call_ensures(BincodeDatagram::<S>::wrap, (io, size), channel) ==> {
            &&& channel.buffered_send is None
            &&& channel.rx_buffer@.len() == size
            &&& channel.tx_buffer@.len() == size
            &&& call_ensures(BincodeDatagram::<S>::into_inner, (channel,), inner) ==> inner == io
            &&& call_ensures(BincodeDatagram::<S>::get_ref, (&channel,), there) ==> *there == io
        },
{
}

/// A handle leads to its mutex in every mapping of the object that holds the whole mutex, aligned, for reading and
/// writing, however long the mapping is: opening the lock decides alone, and the flag is right behind the lock. In any
/// other mapping the handle leads nowhere.
pub proof fn handle_leads_to_its_mutex<P, H, F>(
    handle: MutexHandle<H>,
    memory: SharedMemMap,
    open: F,
    mutex: Result<Mutex<P>, Error>,
) where P: PlatformMutex, H: PlatformMutexHandle, F: FnOnce(H, SharedMemMap, usize) -> Result<P, Error>
    requires
        memory.valid(),
        call_ensures(Mutex::<P>::from_handle::<H, F>, (handle, memory, open), mutex),
        handle.inner.spec_raw_offset() + P::spec_shm_size() + USIZE_SIZE <= usize::MAX,
    ensures
        ({
            let place = handle.inner.spec_raw_offset() - memory.region.offset;
            let lies_inside = 0 <= place && place + P::spec_shm_size() + USIZE_SIZE <= memory.region.len;
            if memory.token != handle.shm_token {
                mutex == Err::<Mutex<P>, Error>(Error::Fault(Fault::MutexForeignMemory))
            } else if !lies_inside {
                mutex == Err::<Mutex<P>, Error>(Error::Fault(Fault::MutexOutsideMapping))
            } else if (memory.region.pointer + place) % USIZE_SIZE as int != 0 {
                mutex == Err::<Mutex<P>, Error>(Error::Fault(Fault::MutexUnaligned))
            } else if memory.region.access == Access::Read {
                mutex == Err::<Mutex<P>, Error>(Error::Fault(Fault::MutexReadOnly))
            } else {
                match mutex {
                    Ok(m) => open.ensures((handle.inner, memory, place as usize), Ok(m.inner)) && m.poison
                        == memory.region.pointer + place + P::spec_shm_size(),
                    Err(e) => open.ensures((handle.inner, memory, place as usize), Err(e)),
                }
            }
        }),
{
}

/// A mutex is made wherever it fits, aligned, in memory that can be written: its flag is cleared right behind the lock,
/// within the mapping, and creating the lock decides alone. In memory that can only be read nothing is done.
pub proof fn mutex_is_made_where_it_fits<P, C, F>(
    memory: SharedMemMap,
    offset: usize,
    clear_poison: C,
    create: F,
    mutex: Result<Mutex<P>, Error>,
    inner: F,
    around: Result<Mutex<P>, Error>,
    size: usize,
) where P: PlatformMutex, C: FnOnce(usize), F: FnOnce(SharedMemMap) -> Result<P, Error>
    requires
        memory.valid(),
        call_ensures(mutex_shm_size::<P>, (), size),
        call_ensures(Mutex::<P>::new_with_memory::<C, F>, (memory, offset, clear_poison, create), mutex),
        call_ensures(Mutex::<P>::with_inner::<F>, (memory, offset, inner), around),
    ensures
        size == P::spec_shm_size() + USIZE_SIZE,
        memory.region.access == Access::Read ==> mutex is Err,
        offset + size <= memory.region.len && memory.region.access == Access::ReadWrite ==> {
            let flag = (memory.region.pointer + offset + P::spec_shm_size()) as usize;
            &&& flag + USIZE_SIZE <= memory.region.pointer + memory.region.len
            &&& clear_poison.ensures((flag,), ())
            &&& match mutex {
                Ok(m) => create.ensures((memory,), Ok(m.inner)) && m.poison == flag,
                Err(e) => create.ensures((memory,), Err(e)),
            }
        },
        offset + size > memory.region.len ==> around == Err::<Mutex<P>, Error>(Error::Fault(Fault::MutexOffset)),
        offset + size <= memory.region.len && (memory.region.pointer + offset) % USIZE_SIZE as int != 0 ==> around
            == Err::<Mutex<P>, Error>(Error::Fault(Fault::MutexUnaligned)),
        offset + size <= memory.region.len && (memory.region.pointer + offset) % USIZE_SIZE as int == 0 ==> (
        match memory.region.access {
            Access::Read => around == Err::<Mutex<P>, Error>(Error::Fault(Fault::MutexReadOnly)),
            Access::ReadWrite => match around {
                Ok(m) => inner.ensures((memory,), Ok(m.inner)) && m.poison == memory.region.pointer + offset
                    + P::spec_shm_size(),
                Err(e) => inner.ensures((memory,), Err(e)),
            },
        }),
{
}

/// A mutex that is found by its handle, in another mapping of its object, has its flag at the same place of the object
/// as the mutex that the handle was made from: the handle keeps the token and the place of the lock.
pub proof fn mutex_is_found_where_it_was_made<P, H, C, F, M, O>(
    here: SharedMemMap,
    offset: usize,
    clear_poison: C,
    create: F,
    made: Mutex<P>,
    make_handle: M,
    handle: MutexHandle<H>,
    there: SharedMemMap,
    open: O,
    found: Mutex<P>,
) where
    P: PlatformMutex,
    H: PlatformMutexHandle,
    C: FnOnce(usize),
    F: FnOnce(SharedMemMap) -> Result<P, Error>,
    M: FnOnce(&P) -> Result<H, Error>,
    O: FnOnce(H, SharedMemMap, usize) -> Result<P, Error>,

    requires
        here.valid(),
        there.valid(),
        offset + P::spec_shm_size() + USIZE_SIZE <= here.region.len,
        call_ensures(Mutex::<P>::new_with_memory::<C, F>, (here, offset, clear_poison, create), Ok(made)),
        made.inner.spec_memory() == here,
        call_ensures(Mutex::<P>::handle::<H, M>, (&made, make_handle), Ok(handle)),
        handle.inner.spec_raw_offset() == here.region.offset + offset,
        call_ensures(Mutex::<P>::from_handle::<H, O>, (handle, there, open), Ok(found)),
    ensures
        handle.shm_token == here.token,
        make_handle.ensures((&made.inner,), Ok(handle.inner)),
        there.token == here.token,
        found.poison - there.region.pointer + there.region.offset == made.poison - here.region.pointer
            + here.region.offset,
{
}

/// Locking takes the lock first and gives the guard as an error just where the flag of the mutex is set. The flag is
/// set when the guard is given up just where it was before or the holder panics.
pub proof fn locking_tells_of_a_panic<'a, P, L, D>(
    mutex: &'a Mutex<P>,
    lock: L,
    load_poison: D,
    guard: Result<MutexGuard<'a, P>, PoisonError<MutexGuard<'a, P>>>,
    held: MutexGuard<'a, P>,
    poison: bool,
    panicking: bool,
    flag: bool,
) where P: PlatformMutex, L: FnOnce(&P), D: FnOnce(usize) -> bool
    ensures
        call_ensures(Mutex::<P>::lock::<L, D>, (mutex, lock, load_poison), guard) ==> {
            &&& lock.ensures((&mutex.inner,), ())
            &&& load_poison.ensures((mutex.poison,), guard is Err)
            &&& match guard {
                Ok(g) => g.mutex == mutex,
                Err(e) => e.guard.mutex == mutex,
            }
        },
        call_ensures(MutexGuard::<'a, P>::release, (held, poison, panicking), flag) ==> (flag <==> poison || panicking),
{
}

/// The locks of both platforms tell the size that they take, the mapping that they live in, and their place in the
/// object.
pub proof fn locks_tell_where_they_live(
    size: usize,
    unix: crate::unix::sync::Mutex,
    windows: crate::windows::sync::Mutex,
    memory: SharedMemMap,
    unix_handle: crate::unix::sync::MutexHandle,
    windows_handle: crate::windows::sync::MutexHandle,
    offset: usize,
)
    ensures
        call_ensures(<crate::unix::sync::Mutex as PlatformMutex>::shm_size, (), size) ==> size == 128,
        call_ensures(<crate::windows::sync::Mutex as PlatformMutex>::shm_size, (), size) ==> size == 64,
        call_ensures(<crate::unix::sync::Mutex as PlatformMutex>::memory, (&unix,), memory) ==> memory == unix.mem,
        call_ensures(<crate::windows::sync::Mutex as PlatformMutex>::memory, (&windows,), memory) ==> memory
            == windows.mem,
        call_ensures(<crate::unix::sync::MutexHandle as PlatformMutexHandle>::raw_offset, (&unix_handle,), offset)
            ==> offset == unix_handle.raw_offset,
        call_ensures(<crate::windows::sync::MutexHandle as PlatformMutexHandle>::raw_offset, (&windows_handle,), offset)
            ==> offset == windows_handle.raw_offset,
{
}

/// Whoever changes the channel underneath changes just that.
pub proof fn channel_underneath_can_be_changed<S>()
    ensures
        forall|channel: &mut BincodeDatagram<S>, io: &mut S| #[trigger]
            call_ensures(BincodeDatagram::<S>::get_mut, (channel,), io) ==> {
                &&& *io == channel.io
                &&& final(channel).io == *final(io)
                &&& final(channel).tx_buffer == channel.tx_buffer
                &&& final(channel).rx_buffer == channel.rx_buffer
                &&& final(channel).buffered_send == channel.buffered_send
            },
{
}

/// A message that comes while the packet before it cannot be written is not taken: the failure is told, and the packet
/// is kept. A packet that was written in part counts as one that cannot be written.
pub proof fn failure_to_write_keeps_the_packet<S, T, W, F, G>(
    item: T,
    write: F,
    serialize: G,
    len: usize,
    attempt: Attempt,
    result: Result<AsyncSink<T>, Error>,
) where
    W: for <'a>SerializeWrapper<'a, S>,
    F: FnOnce(&mut S, &[u8]) -> Attempt,
    G: FnOnce(&T, &mut [u8]) -> Option<usize>,

    requires
        forall|io: &mut S, bytes: &[u8], other: Attempt| #[trigger]
            write.ensures((io, bytes), other) ==> other == attempt,
        attempt != Attempt::Done(len),
        !(attempt is WouldBlock),
    ensures
        forall|channel: &mut BincodeDatagram<S>| #[trigger]
            call_ensures(BincodeDatagram::<S>::start_send::<T, W, F, G>, (channel, item, write, serialize), result)
                && channel.buffered_send == Some(len) ==> {
                &&& attempt matches Attempt::Failed(e) ==> result == Err::<AsyncSink<T>, Error>(e)
                &&& attempt is Done ==> result == Err::<AsyncSink<T>, Error>(Error::Fault(Fault::PartialWrite))
                &&& final(channel).buffered_send == Some(len)
                &&& final(channel).tx_buffer == channel.tx_buffer
                &&& final(channel).rx_buffer == channel.rx_buffer
            },
{
}

/// A handle to a mutex can be had just where one to its lock can.
pub proof fn handle_to_a_mutex_needs_one_to_its_lock<P, H, M>(
    mutex: Mutex<P>,
    make_handle: M,
    handle: Result<MutexHandle<H>, Error>,
) where P: PlatformMutex, M: FnOnce(&P) -> Result<H, Error>
    requires
        call_ensures(Mutex::<P>::handle::<H, M>, (&mutex, make_handle), handle),
    ensures
        match handle {
            Ok(h) => make_handle.ensures((&mutex.inner,), Ok(h.inner)) && h.shm_token
                == mutex.inner.spec_memory().token,
            Err(e) => make_handle.ensures((&mutex.inner,), Err(e)),
        },
{
}

/// The wrapper of a channel that needs nothing done leaves the channel as it is, both ways.
pub proof fn channel_that_needs_nothing_stays_as_it_is<'a, S>(guard: NoopWrapperGuard)
    ensures
        forall|io: &'a mut S| #[trigger]
            call_ensures(<NoopWrapper as SerializeWrapper<'a, S>>::before_serialize, (io,), guard) ==> *final(io) == *io,
        forall|io: &'a mut S| #[trigger]
            call_ensures(<NoopWrapper as SerializeWrapper<'a, S>>::before_deserialize, (io,), guard) ==> *final(io)
                == *io,
        SerializeWrapperGuard::can_commit(&guard),
{
}

} // verus!
