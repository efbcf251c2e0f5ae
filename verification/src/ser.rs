//! Whole messages over a channel that carries packets of bytes.

use crate::bytes::overwritten;
use crate::error::{Error, Fault};
use vstd::prelude::*;

verus! {

/// Whether something could be done right away.
#[derive(PartialEq, Eq, Structural, Debug)]
pub enum Async<T> {
    Ready(T),
    NotReady,
}

/// Whether a message was taken for sending right away.
#[derive(PartialEq, Eq, Structural, Debug)]
pub enum AsyncSink<T> {
    Ready,
    /// It was not, and is handed back.
    NotReady(T),
}

/// What came of an attempt to read or write a packet.
#[derive(Clone, Copy, PartialEq, Eq, Structural, Debug)]
pub enum Attempt {
    /// A packet was transferred, as far as this number of bytes.
    Done(usize),
    /// It would have had to wait.
    WouldBlock,
    Failed(Error),
}

/// What has to happen around the serialization and deserialization of messages on a channel of type
/// `S`.
pub trait SerializeWrapper<'a, S: 'a> {
    type SerializeGuard: SerializeWrapperGuard<'a> + 'a;

    type DeserializeGuard: SerializeWrapperGuard<'a> + 'a;

    /// Called before a message is serialized. The guard lives until that is over.
    fn before_serialize(io: &'a mut S) -> Self::SerializeGuard;

    /// Called before a message is deserialized. The guard lives until that is over.
    fn before_deserialize(io: &'a mut S) -> Self::DeserializeGuard;
}

/// Lives while a message is serialized or deserialized.
pub trait SerializeWrapperGuard<'a> {
    /// The guard can be committed. That of a wrapper that says nothing else always can.
    open spec fn can_commit(&self) -> bool {
        true
    }

    /// Called in case that went well, and only then.
    fn commit(self)
        requires
            self.can_commit(),
    ;
}

/// The wrapper of a channel that needs nothing done.
#[derive(Clone, Copy, PartialEq, Eq, Structural, Debug)]
pub struct NoopWrapper;

/// The guard of a channel that needs nothing done.
#[derive(Clone, Copy, PartialEq, Eq, Structural, Debug)]
pub struct NoopWrapperGuard;

impl<'a, S: 'a> SerializeWrapper<'a, S> for NoopWrapper {
    type SerializeGuard = NoopWrapperGuard;

    type DeserializeGuard = NoopWrapperGuard;

    fn before_serialize(io: &'a mut S) -> (guard: NoopWrapperGuard)
        ensures
            *final(io) == *old(io),
    {
        NoopWrapperGuard
    }

    fn before_deserialize(io: &'a mut S) -> (guard: NoopWrapperGuard)
        ensures
            *final(io) == *old(io),
    {
        NoopWrapperGuard
    }
}

impl<'a> SerializeWrapperGuard<'a> for NoopWrapperGuard {
    open spec fn can_commit(&self) -> bool {
        true
    }

    fn commit(self) {
    }
}

/// A channel of messages on top of a channel of packets: each message is one packet.
#[derive(Debug)]
pub struct BincodeDatagram<S> {
    pub io: S,
    /// Where packets are received.
    pub rx_buffer: Vec<u8>,
    /// Where packets are put together.
    pub tx_buffer: Vec<u8>,
    /// The length of the packet that is still to be sent.
    pub buffered_send: Option<usize>,
}

/// What comes of sending a packet of `len` bytes, on what came of writing it.
pub open spec fn completion(len: usize, attempt: Attempt) -> Result<Async<()>, Error> {
    match attempt {
        Attempt::Done(written) => if written == len {
            Ok(Async::Ready(()))
        } else {
            Err(Error::Fault(Fault::PartialWrite))
        },
        Attempt::WouldBlock => Ok(Async::NotReady),
        Attempt::Failed(e) => Err(e),
    }
}

impl<S> BincodeDatagram<S> {
    /// The packet that is still to be sent lies within its buffer.
    pub open spec fn valid(&self) -> bool {
        self.buffered_send matches Some(len) ==> len <= self.tx_buffer@.len()
    }

    /// The packet that is still to be sent.
    pub open spec fn pending(&self) -> Option<Seq<u8>> {
        match self.buffered_send {
            Some(len) => Some(self.tx_buffer@.take(len as int)),
            None => None,
        }
    }

    /// Puts a channel of messages, each of at most `buffer_size` bytes, on top of a channel of
    /// packets.
    pub fn wrap(io: S, buffer_size: usize) -> (datagram: BincodeDatagram<S>)
        ensures
            datagram.io == io,
            datagram.rx_buffer@ == Seq::new(buffer_size as nat, |i: int| 0u8),
            datagram.tx_buffer@ == Seq::new(buffer_size as nat, |i: int| 0u8),
            datagram.buffered_send == None::<usize>,
            datagram.valid(),
    {
        BincodeDatagram {
            io,
            rx_buffer: zeros(buffer_size),
            tx_buffer: zeros(buffer_size),
            buffered_send: None,
        }
    }

    /// The channel underneath.
    pub fn get_ref(&self) -> (io: &S)
        ensures
            *io == self.io,
    {
        &self.io
    }

    /// The channel underneath.
    pub fn get_mut(&mut self) -> (io: &mut S)
        ensures
            *io == old(self).io,
            final(self).io == *final(io),
            final(self).rx_buffer == old(self).rx_buffer,
            final(self).tx_buffer == old(self).tx_buffer,
            final(self).buffered_send == old(self).buffered_send,
    {
        &mut self.io
    }

    /// Gives up the channel of messages for the channel underneath.
    pub fn into_inner(self) -> (io: S)
        ensures
            io == self.io,
    {
        self.io
    }

    /// Takes note of what came of writing the packet that was still to be sent.
    pub fn complete(&mut self, attempt: Attempt) -> (result: Result<Async<()>, Error>)
        requires
            old(self).buffered_send is Some,
        ensures
            result == completion(old(self).buffered_send->0, attempt),
            final(self).buffered_send == (if result == Ok::<Async<()>, Error>(Async::Ready(())) {
                None
            } else {
                old(self).buffered_send
            }),
            final(self).io == old(self).io,
            final(self).rx_buffer == old(self).rx_buffer,
            final(self).tx_buffer == old(self).tx_buffer,
    {
        match self.buffered_send {
            Some(len) => match attempt {
                Attempt::Done(written) => {
                    if written != len {
                        return Err(Error::Fault(Fault::PartialWrite));
                    }
                    self.buffered_send = None;
                    Ok(Async::Ready(()))
                },
                Attempt::WouldBlock => Ok(Async::NotReady),
                Attempt::Failed(e) => Err(e),
            },
            None => Ok(Async::Ready(())),
        }
    }

    /// Sends the packet that is still to be sent, if there is one. `write` is handed the channel
    /// underneath and that packet.
    pub fn poll_complete<F: FnOnce(&mut S, &[u8]) -> Attempt>(&mut self, write: F) -> (result: Result<Async<()>, Error>)
        requires
            old(self).valid(),
            forall|io: &mut S, bytes: &[u8]|
                old(self).pending() == Some(bytes@) && *io == old(self).io ==> #[trigger] write.requires((io, bytes)),
        ensures
            final(self).valid(),
            final(self).rx_buffer == old(self).rx_buffer,
            final(self).tx_buffer == old(self).tx_buffer,
            match old(self).buffered_send {
                None => result == Ok::<Async<()>, Error>(Async::Ready(())) && *final(self) == *old(self),
                Some(len) => {
                    &&& exists|io: &mut S, bytes: &[u8], attempt: Attempt| #[trigger]
                        write.ensures((io, bytes), attempt) && *io == old(self).io && *final(io) == final(self).io
                            && old(self).pending() == Some(bytes@) && result == completion(len, attempt)
                    &&& final(self).buffered_send == (if result == Ok::<Async<()>, Error>(Async::Ready(())) {
                        None
                    } else {
                        Some(len)
                    })
                },
            },
    {
        match self.buffered_send {
            Some(len) => {
                let bytes = vstd::slice::slice_subrange(self.tx_buffer.as_slice(), 0, len);
                let attempt = write(&mut self.io, bytes);
                self.complete(attempt)
            },
            None => Ok(Async::Ready(())),
        }
    }

    /// Takes a message for sending, once the one before it is on its way. `write` is handed the channel
    /// underneath and the packet that is still to be sent; `serialize` turns the message into bytes in a buffer, and
    /// says how many there are, or that it cannot. What it leaves in the buffer stays there, even if it fails.
    ///
    /// The guard of the wrapper is committed in case the message can be sent, and in no other.
    pub fn start_send<T, W, F, G>(&mut self, item: T, write: F, serialize: G) -> (result: Result<AsyncSink<T>, Error>)
        where
            W: for <'a>SerializeWrapper<'a, S>,
            F: FnOnce(&mut S, &[u8]) -> Attempt,
            G: FnOnce(&T, &mut [u8]) -> Option<usize>,

        requires
            old(self).valid(),
            forall|io: &mut S, bytes: &[u8]|
                old(self).pending() == Some(bytes@) && *io == old(self).io ==> #[trigger] write.requires((io, bytes)),
            forall|there: &mut S, guard: <W as SerializeWrapper<S>>::SerializeGuard, room: &mut [u8]|
                #![trigger
                    call_ensures(<W as SerializeWrapper<S>>::before_serialize, (there,), guard),
                    serialize.requires((&item, room))
                ]
                (match old(self).buffered_send {
                    None => *there == old(self).io,
                    Some(len) => exists|io: &mut S, bytes: &[u8], attempt: Attempt| #[trigger]
                        write.ensures((io, bytes), attempt) && *there == *final(io) && completion(len, attempt) is Ok
                            && completion(len, attempt)->Ok_0 is Ready,
                }) && call_ensures(<W as SerializeWrapper<S>>::before_serialize, (there,), guard)
                    && room@ == old(self).tx_buffer@ ==> serialize.requires((&item, room)),
            forall|room: &mut [u8], serialized: Option<usize>| #[trigger]
                serialize.ensures((&item, room), serialized) && serialized is Some
                    ==> serialized->0 <= final(room)@.len(),
            forall|
                io: &mut S,
                guard: <W as SerializeWrapper<S>>::SerializeGuard,
                room: &mut [u8],
                serialized: Option<usize>,
            |
                #![trigger
                    call_ensures(<W as SerializeWrapper<S>>::before_serialize, (io,), guard),
                    serialize.ensures((&item, room), serialized)
                ]
                call_ensures(<W as SerializeWrapper<S>>::before_serialize, (io,), guard) && serialize.ensures(
                    (&item, room),
                    serialized,
                ) && serialized is Some ==> guard.can_commit(),
        ensures
            final(self).valid(),
            final(self).rx_buffer == old(self).rx_buffer,
            match old(self).buffered_send {
                None => {
                    &&& exists|room: &mut [u8], serialized: Option<usize>| #[trigger]
                        serialize.ensures((&item, room), serialized) && room@ == old(self).tx_buffer@ && taken(
                            *final(self),
                            final(room)@,
                            serialized,
                            result,
                        )
                    &&& exists|io: &mut S, guard: <W as SerializeWrapper<S>>::SerializeGuard| #[trigger]
                        call_ensures(<W as SerializeWrapper<S>>::before_serialize, (io,), guard) && *io
                            == old(self).io && *final(io) == final(self).io && (result is Ok ==> call_ensures(
                            <<W as SerializeWrapper<S>>::SerializeGuard as SerializeWrapperGuard>::commit,
                            (guard,),
                            (),
                        ))
                },
                Some(len) => exists|io: &mut S, bytes: &[u8], attempt: Attempt| #[trigger]
                    write.ensures((io, bytes), attempt) && *io == old(self).io && old(self).pending() == Some(bytes@)
                        && match completion(len, attempt) {
                        Ok(Async::Ready(_)) => {
                            &&& exists|room: &mut [u8], serialized: Option<usize>| #[trigger]
                                serialize.ensures((&item, room), serialized) && room@ == old(self).tx_buffer@ && taken(
                                    *final(self),
                                    final(room)@,
                                    serialized,
                                    result,
                                )
                            &&& exists|there: &mut S, guard: <W as SerializeWrapper<S>>::SerializeGuard| #[trigger]
                                call_ensures(<W as SerializeWrapper<S>>::before_serialize, (there,), guard) && *there
                                    == *final(io) && *final(there) == final(self).io && (result is Ok ==> call_ensures(
                                    <<W as SerializeWrapper<S>>::SerializeGuard as SerializeWrapperGuard>::commit,
                                    (guard,),
                                    (),
                                ))
                        },
                        Ok(Async::NotReady) => {
                            &&& result == Ok::<AsyncSink<T>, Error>(AsyncSink::NotReady(item))
                            &&& final(self).io == *final(io)
                            &&& final(self).tx_buffer == old(self).tx_buffer
                            &&& final(self).buffered_send == old(self).buffered_send
                        },
                        Err(e) => {
                            &&& result == Err::<AsyncSink<T>, Error>(e)
                            &&& final(self).io == *final(io)
                            &&& final(self).tx_buffer == old(self).tx_buffer
                            &&& final(self).buffered_send == old(self).buffered_send
                        },
                    },
            },
    {
        match self.poll_complete(write) {
            Ok(Async::Ready(_)) => {},
            Ok(Async::NotReady) => return Ok(AsyncSink::NotReady(item)),
            Err(e) => return Err(e),
        }

        let guard = W::before_serialize(&mut self.io);
        let serialized = serialize(&item, self.tx_buffer.as_mut_slice());
        match serialized {
            Some(len) => {
                guard.commit();
                self.buffered_send = Some(len);
                Ok(AsyncSink::Ready)
            },
            None => Err(Error::Fault(Fault::Serialization)),
        }
    }

    /// The message in the receive buffer, on what came of reading a packet into it: nothing once the
    /// other side is gone.
    pub fn message(&self, attempt: Attempt) -> (message: Result<Async<Option<&[u8]>>, Error>)
        requires
            attempt matches Attempt::Done(len) ==> len <= self.rx_buffer@.len(),
        ensures
            match attempt {
                Attempt::Done(len) => if len == 0 {
                    message == Ok::<Async<Option<&[u8]>>, Error>(Async::Ready(None))
                } else {
                    message matches Ok(Async::Ready(Some(bytes))) && bytes@ == self.rx_buffer@.take(len as int)
                },
                Attempt::WouldBlock => message == Ok::<Async<Option<&[u8]>>, Error>(Async::NotReady),
                Attempt::Failed(e) => message == Err::<Async<Option<&[u8]>>, Error>(e),
            },
    {
        match attempt {
            Attempt::Done(len) => {
                if len == 0 {
                    Ok(Async::Ready(None))
                } else {
                    Ok(Async::Ready(Some(vstd::slice::slice_subrange(self.rx_buffer.as_slice(), 0, len))))
                }
            },
            Attempt::WouldBlock => Ok(Async::NotReady),
            Attempt::Failed(e) => Err(e),
        }
    }

    /// Receives a message. `attempt` is what came of reading a packet into the receive buffer, and
    /// `deserialize` turns the bytes of the packet into a message, or into nothing if it cannot.
    ///
    /// The guard of the wrapper is committed in case there is a message, and in no other.
    pub fn poll<R, W, G>(&mut self, attempt: Attempt, deserialize: G) -> (result: Result<Async<Option<R>>, Error>)
        where
            W: for <'a>SerializeWrapper<'a, S>,
            G: FnOnce(&[u8]) -> Option<R>,

        requires
            attempt matches Attempt::Done(len) ==> len <= old(self).rx_buffer@.len(),
            forall|io: &mut S, guard: <W as SerializeWrapper<S>>::DeserializeGuard, bytes: &[u8]|
                #![trigger
                    call_ensures(<W as SerializeWrapper<S>>::before_deserialize, (io,), guard),
                    deserialize.requires((bytes,))
                ]
                call_ensures(<W as SerializeWrapper<S>>::before_deserialize, (io,), guard) && *io == old(self).io && (
                attempt matches Attempt::Done(len) && 0 < len && bytes@ == old(self).rx_buffer@.take(len as int))
                    ==> deserialize.requires((bytes,)),
            forall|io: &mut S, guard: <W as SerializeWrapper<S>>::DeserializeGuard, bytes: &[u8], message: R|
                #![trigger
                    call_ensures(<W as SerializeWrapper<S>>::before_deserialize, (io,), guard),
                    deserialize.ensures((bytes,), Some(message))
                ]
                call_ensures(<W as SerializeWrapper<S>>::before_deserialize, (io,), guard) && deserialize.ensures(
                    (bytes,),
                    Some(message),
                ) ==> guard.can_commit(),
        ensures
            final(self).rx_buffer == old(self).rx_buffer,
            final(self).tx_buffer == old(self).tx_buffer,
            final(self).buffered_send == old(self).buffered_send,
            match attempt {
                Attempt::Done(len) => if len == 0 {
                    result == Ok::<Async<Option<R>>, Error>(Async::Ready(None)) && final(self).io == old(self).io
                } else {
                    &&& exists|bytes: &[u8], message: Option<R>| #[trigger]
                        deserialize.ensures((bytes,), message) && bytes@ == old(self).rx_buffer@.take(len as int)
                            && result == (match message {
                            Some(m) => Ok::<Async<Option<R>>, Error>(Async::Ready(Some(m))),
                            None => Err(Error::Fault(Fault::Deserialization)),
                        })
                    &&& exists|io: &mut S, guard: <W as SerializeWrapper<S>>::DeserializeGuard| #[trigger]
                        call_ensures(<W as SerializeWrapper<S>>::before_deserialize, (io,), guard) && *io
                            == old(self).io && *final(io) == final(self).io && (result is Ok ==> call_ensures(
                            <<W as SerializeWrapper<S>>::DeserializeGuard as SerializeWrapperGuard>::commit,
                            (guard,),
                            (),
                        ))
                },
                Attempt::WouldBlock => {
                    result == Ok::<Async<Option<R>>, Error>(Async::NotReady) && final(self).io == old(self).io
                },
                Attempt::Failed(e) => result == Err::<Async<Option<R>>, Error>(e) && final(self).io == old(self).io,
            },
    {
        let len: usize = match attempt {
            Attempt::Done(len) => len,
            Attempt::WouldBlock => return Ok(Async::NotReady),
            Attempt::Failed(e) => return Err(e),
        };
        if len == 0 {
            return Ok(Async::Ready(None));
        }

        let guard = W::before_deserialize(&mut self.io);
        let bytes = vstd::slice::slice_subrange(self.rx_buffer.as_slice(), 0, len);
        match deserialize(bytes) {
            Some(message) => {
                guard.commit();
                Ok(Async::Ready(Some(message)))
            },
            None => Err(Error::Fault(Fault::Deserialization)),
        }
    }
}

/// What a channel on which nothing was left to send comes to when it is given a message, on what serializing the
/// message left in its buffer, and on how many bytes that are, if it could be serialized.
pub open spec fn taken<S, T>(
    after: BincodeDatagram<S>,
    buffer: Seq<u8>,
    serialized: Option<usize>,
    result: Result<AsyncSink<T>, Error>,
) -> bool {
    &&& after.tx_buffer@ == buffer
    &&& after.buffered_send == serialized
    &&& result == (match serialized {
        Some(_) => Ok::<AsyncSink<T>, Error>(AsyncSink::Ready),
        None => Err(Error::Fault(Fault::Serialization)),
    })
}

/// A message that comes while the packet before it has to wait is handed back as it is. Nothing happens to the channel
/// but that it was asked to write the packet: the message is not serialized, whatever the wrapper. That packet is what
/// the next attempt to send writes.
pub proof fn message_waits_for_the_one_before_it<S, T, W, F, G, N>(item: T, write: F, serialize: G, next_write: N) where
    W: for <'a>SerializeWrapper<'a, S>,
    F: FnOnce(&mut S, &[u8]) -> Attempt,
    G: FnOnce(&T, &mut [u8]) -> Option<usize>,
    N: FnOnce(&mut S, &[u8]) -> Attempt,

    requires
        forall|io: &mut S, bytes: &[u8], attempt: Attempt| #[trigger]
            write.ensures((io, bytes), attempt) ==> attempt is WouldBlock,
    ensures
        forall|channel: &mut BincodeDatagram<S>, result: Result<AsyncSink<T>, Error>| #[trigger]
            call_ensures(BincodeDatagram::<S>::start_send::<T, W, F, G>, (channel, item, write, serialize), result)
                && channel.valid() && channel.buffered_send is Some ==> {
                &&& result == Ok::<AsyncSink<T>, Error>(AsyncSink::NotReady(item))
                &&& final(channel).pending() == channel.pending()
                &&& exists|io: &mut S, bytes: &[u8]| #[trigger]
                    write.ensures((io, bytes), Attempt::WouldBlock) && *io == channel.io
                        && *final(io) == final(channel).io
            },
        forall|
            channel: &mut BincodeDatagram<S>,
            result: Result<AsyncSink<T>, Error>,
            later: &mut BincodeDatagram<S>,
            completed: Result<Async<()>, Error>,
        |
            #![trigger
                call_ensures(BincodeDatagram::<S>::start_send::<T, W, F, G>, (channel, item, write, serialize), result),
                call_ensures(BincodeDatagram::<S>::poll_complete::<N>, (later, next_write), completed)
            ]
            call_ensures(BincodeDatagram::<S>::start_send::<T, W, F, G>, (channel, item, write, serialize), result)
                && channel.valid() && channel.buffered_send is Some && *later == *final(channel) && call_ensures(
                BincodeDatagram::<S>::poll_complete::<N>,
                (later, next_write),
                completed,
            ) ==> exists|io: &mut S, bytes: &[u8], attempt: Attempt| #[trigger]
                next_write.ensures((io, bytes), attempt) && channel.pending() == Some(bytes@),
{
}

/// That many zero bytes.
fn zeros(len: usize) -> (bytes: Vec<u8>)
    ensures
        bytes@ == Seq::new(len as nat, |i: int| 0u8),
{
    let mut bytes: Vec<u8> = Vec::new();
    let mut i: usize = 0;
    while i < len
        invariant
            i <= len,
            bytes@ == Seq::new(i as nat, |k: int| 0u8),
        decreases len - i,
    {
        bytes.push(0);
        i = i + 1;
    }
    bytes
}

/// A packet that is read into a buffer it fits in is, as a message, what the sender put up for
/// sending, whatever the buffer held before.
pub proof fn packet_reads_back<S>(sender: BincodeDatagram<S>, rx_buffer: Seq<u8>)
    requires
        sender.valid(),
        sender.buffered_send matches Some(len) && len <= rx_buffer.len(),
    ensures
        sender.pending() matches Some(packet) && packet.len() == sender.buffered_send->0
            && overwritten(rx_buffer, 0, packet).take(packet.len() as int) == packet,
{
    let packet = sender.pending()->0;
    assert(overwritten(rx_buffer, 0, packet).take(packet.len() as int) =~= packet);
}

} // verus!
