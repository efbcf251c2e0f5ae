//! Channels of messages that carry resources of the operating system wherever their types hold them.

use crate::error::{Error, Fault};
use vstd::prelude::*;

verus! {

/// The greatest number of resources that a message carries.
pub const CHANNEL_MSG_MAX_RESOURCES: usize = 32;

/// The number of bytes that a message may have unless something else is set.
pub const CHANNEL_MSG_DEFAULT_BUFFER_LEN: usize = 4096;

/// A channel of messages. `I` is a channel of data and resources.
#[derive(Debug)]
pub struct Channel<I> {
    pub inner: I,
    pub recv_buffer_len: usize,
    pub buffer: Vec<u8>,
}

impl<I> Channel<I> {
    /// A channel of messages on top of a channel of data and resources.
    pub fn from_raw(inner: I) -> (channel: Result<Channel<I>, Error>)
        ensures
            channel matches Ok(c) && c.inner == inner && c.recv_buffer_len == CHANNEL_MSG_DEFAULT_BUFFER_LEN
                && c.buffer@ == Seq::<u8>::empty(),
    {
        Ok(Channel { inner, recv_buffer_len: CHANNEL_MSG_DEFAULT_BUFFER_LEN, buffer: Vec::new() })
    }

    /// Another handle to the channel, around another handle to the channel underneath.
    pub fn clone_with(&self, inner: I) -> (channel: Channel<I>)
        ensures
            channel.inner == inner,
            channel.recv_buffer_len == self.recv_buffer_len,
            channel.buffer@ == Seq::<u8>::empty(),
    {
        Channel { inner, recv_buffer_len: self.recv_buffer_len, buffer: Vec::new() }
    }

    /// Sets the size of the buffer that messages are received into.
    pub fn set_recv_buffer_len(&mut self, len: usize)
        ensures
            final(self).recv_buffer_len == len,
            final(self).inner == old(self).inner,
            final(self).buffer == old(self).buffer,
    {
        self.recv_buffer_len = len;
    }

    /// The size of the buffer that messages are received into.
    pub fn recv_buffer_len(&self) -> (len: usize)
        ensures
            len == self.recv_buffer_len,
    {
        self.recv_buffer_len
    }

    /// Sends a message. `start` starts to send on the channel underneath, `serialize` turns the message into
    /// bytes in a buffer, says whether it could, and hands its resources to what was started, and `finish`
    /// finishes that with the bytes.
    ///
    /// The buffer is empty again after a message was sent, and after a failure it holds what was serialized.
    pub fn send<T, A, F, G>(&mut self, start: A, serialize: F, finish: G) -> (result: Result<(), Error>) where
        A: FnOnce(&I) -> Result<T, Error>,
        F: FnOnce(&mut T, &mut Vec<u8>) -> bool,
        G: FnOnce(T, &[u8]) -> Result<(), Error>,

        requires
            old(self).buffer@.len() == 0,
            start.requires((&old(self).inner,)),
            forall|sender: &mut T, buffer: &mut Vec<u8>|
                start.ensures((&old(self).inner,), Ok(*sender)) && buffer@.len() == 0 ==> #[trigger]
                    serialize.requires((sender, buffer)),
            forall|sender: &mut T, buffer: &mut Vec<u8>, bytes: &[u8]|
                #![trigger serialize.ensures((sender, buffer), true), finish.requires((*final(sender), bytes))]
                serialize.ensures((sender, buffer), true) && bytes@ == final(buffer)@ ==> finish.requires(
                    (*final(sender), bytes),
                ),
        ensures
            final(self).inner == old(self).inner,
            final(self).recv_buffer_len == old(self).recv_buffer_len,
            match result {
                Ok(_) => {
                    &&& final(self).buffer@.len() == 0
                    &&& exists|
                        sender: &mut T,
                        buffer: &mut Vec<u8>,
                        bytes: &[u8],
                        finished: Result<(), Error>,
                    | #[trigger]
                        serialize.ensures((sender, buffer), true) && #[trigger] finish.ensures(
                            (*final(sender), bytes),
                            finished,
                        ) && start.ensures((&old(self).inner,), Ok(*sender)) && buffer@.len() == 0 && bytes@
                            == final(buffer)@ && finished is Ok
                },
                Err(e) => {
                    ||| start.ensures((&old(self).inner,), Err(e)) && final(self).buffer@.len() == 0
                    ||| e == Error::Fault(Fault::Serialization) && exists|sender: &mut T, buffer: &mut Vec<u8>|
                        #[trigger]
                        serialize.ensures((sender, buffer), false) && start.ensures(
                            (&old(self).inner,),
                            Ok(*sender),
                        ) && buffer@.len() == 0 && final(self).buffer == *final(buffer)
                    ||| exists|sender: &mut T, buffer: &mut Vec<u8>, bytes: &[u8]| #[trigger]
                        serialize.ensures((sender, buffer), true) && #[trigger] finish.ensures(
                            (*final(sender), bytes),
                            Err(e),
                        ) && start.ensures((&old(self).inner,), Ok(*sender)) && buffer@.len() == 0 && bytes@
                            == final(buffer)@ && final(self).buffer == *final(buffer)
                },
            },
    {
        let mut sender = match start(&self.inner) {
            Ok(sender) => sender,
            Err(e) => return Err(e),
        };
        if !serialize(&mut sender, &mut self.buffer) {
            return Err(Error::Fault(Fault::Serialization));
        }
        let ghost done = sender;
        let bytes = self.buffer.as_slice();
        let finished = finish(sender, bytes);
        assert(finish.ensures((done, bytes), finished));
        match finished {
            Ok(_) => {},
            Err(e) => return Err(e),
        }
        self.buffer.clear();
        Ok(())
    }

    /// Receives a message. `receive` receives up to so many resources, and data into a buffer, and says how
    /// much data there is; `deserialize` turns the data into a message, or into nothing if it cannot, and is
    /// handed the resources.
    ///
    /// The buffer is empty again after a message was received.
    pub fn recv<M, T, F, G>(&mut self, receive: F, deserialize: G) -> (message: Result<M, Error>) where
        F: FnOnce(&I, usize, &mut [u8]) -> Result<(T, usize), Error>,
        G: FnOnce(T, &[u8]) -> Option<M>,

        requires
            old(self).buffer@.len() == 0,
            forall|room: &mut [u8]|
                room@.len() == old(self).recv_buffer_len ==> #[trigger] receive.requires(
                    (&old(self).inner, CHANNEL_MSG_MAX_RESOURCES, room),
                ),
            forall|room: &mut [u8], received: Result<(T, usize), Error>| #[trigger]
                receive.ensures((&old(self).inner, CHANNEL_MSG_MAX_RESOURCES, room), received) ==> (received matches Ok(
                    (_, len),
                ) ==> len <= final(room)@.len()),
            forall|room: &mut [u8], received: Result<(T, usize), Error>, data: &[u8]|
                #![trigger
                    receive.ensures((&old(self).inner, CHANNEL_MSG_MAX_RESOURCES, room), received),
                    deserialize.requires(((received->Ok_0).0, data))
                ]
                receive.ensures((&old(self).inner, CHANNEL_MSG_MAX_RESOURCES, room), received) && received is Ok
                    && data@ == final(room)@.take((received->Ok_0).1 as int) ==> deserialize.requires(
                    ((received->Ok_0).0, data),
                ),
        ensures
            final(self).inner == old(self).inner,
            final(self).recv_buffer_len == old(self).recv_buffer_len,
            match message {
                Ok(m) => {
                    &&& final(self).buffer@.len() == 0
                    &&& exists|
                        room: &mut [u8],
                        received: Result<(T, usize), Error>,
                        resources: T,
                        data: &[u8],
                        deserialized: Option<M>,
                    | #[trigger]
                        receive.ensures((&old(self).inner, CHANNEL_MSG_MAX_RESOURCES, room), received) && #[trigger]
                        deserialize.ensures((resources, data), deserialized) && room@.len() == old(self).recv_buffer_len
                            && (received matches Ok((handed, len)) && handed == resources && data@ == final(room)@.take(
                            len as int,
                        )) && deserialized == Some(m)
                },
                Err(e) => {
                    ||| exists|room: &mut [u8]| #[trigger]
                        receive.ensures((&old(self).inner, CHANNEL_MSG_MAX_RESOURCES, room), Err(e)) && room@.len()
                            == old(self).recv_buffer_len && final(self).buffer@ == final(room)@
                    ||| e == Error::Fault(Fault::Serialization) && exists|
                        room: &mut [u8],
                        received: Result<(T, usize), Error>,
                        resources: T,
                        data: &[u8],
                        deserialized: Option<M>,
                    | #[trigger]
                        receive.ensures((&old(self).inner, CHANNEL_MSG_MAX_RESOURCES, room), received) && #[trigger]
                        deserialize.ensures((resources, data), deserialized) && room@.len() == old(self).recv_buffer_len
                            && (received matches Ok((handed, len)) && handed == resources && data@ == final(room)@.take(
                            len as int,
                        )) && deserialized is None && data@ == final(self).buffer@
                },
            },
    {
        let mut i: usize = 0;
        while i < self.recv_buffer_len
            invariant
                i <= self.recv_buffer_len,
                self.buffer@.len() == i,
                self.inner == old(self).inner,
                self.recv_buffer_len == old(self).recv_buffer_len,
            decreases self.recv_buffer_len - i,
        {
            self.buffer.push(0);
            i = i + 1;
        }
        let received = receive(&self.inner, CHANNEL_MSG_MAX_RESOURCES, self.buffer.as_mut_slice());
        let (resources, data_len) = match received {
            Ok(received) => received,
            Err(e) => return Err(e),
        };
        let ghost filled = self.buffer@;
        self.buffer.truncate(data_len);
        assert(self.buffer@ =~= filled.take(data_len as int));
        let ghost handed = resources;
        let data = self.buffer.as_slice();
        let message = deserialize(resources, data);
        assert(deserialize.ensures((handed, data), message));
        match message {
            Some(message) => {
                self.buffer.clear();
                Ok(message)
            },
            None => Err(Error::Fault(Fault::Serialization)),
        }
    }
}

} // verus!
