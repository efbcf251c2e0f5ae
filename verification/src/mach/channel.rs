//! Channels over Mach ports, and how they are set up with child processes.
//!
//! To set up a channel with a child, a process makes a port, has the bootstrap server know it by a random
//! name, and passes the name and a random token to the child as it launches it. The child looks up the port
//! and sends it a message with the token, a right to send to a port that the child receives on, and the
//! right to receive from a port that the child sends to. The token keeps another process from posing as the
//! child.

use crate::bytes::overwritten;
use crate::error::{Error, Fault};
use crate::identity::{hyphenated, is_random_uuid, new_service_name};
use crate::layout::USIZE_SIZE;
use crate::mach::message::{
    framed, inline_data_capacity, unframed, Descriptor, MsgBuffer, PortMoveMode, Right, INLINE_DATA_UNIT,
};
use crate::mach::resource::{
    ChannelResourceReceiver, ChannelResourceSender, RawResourceTransceiver, ResourceTransceiver,
};
use crate::mach::word::Endian;
use crate::ser::Async;
use vstd::prelude::*;
use vstd::string::StrSliceExecFns;

verus! {

/// The number of bytes that a token has.
pub const TOKEN_LEN: usize = 32;

/// The number of rights in the message of a child to its parent.
pub const CHILD_DESCRIPTORS: usize = 2;

/// Both ports of a channel. `P` is a right to a port.
#[derive(PartialEq, Eq, Structural, Debug)]
pub struct PreChannel<P> {
    pub tx: P,
    pub rx: P,
}

/// A channel that an event loop watches. `G` is what the event loop knows it by.
#[derive(PartialEq, Eq, Structural, Debug)]
pub struct Channel<P, G> {
    pub tx: P,
    pub rx: P,
    pub rx_registration: G,
    pub resource_transceiver: Option<RawResourceTransceiver>,
}

/// What a child process needs to know to set up a channel with its parent.
#[derive(Debug)]
pub struct ChildChannelMetadata {
    pub bootstrap_name: String,
    pub token: [u8; 32],
    pub resource_rx: bool,
    pub resource_tx: bool,
}

/// Sets up a channel with a child process that it launches. `C` is a command.
#[derive(Debug)]
pub struct ChildChannelBuilder<C> {
    pub command: C,
    pub resource_tx: bool,
    pub resource_rx: bool,
    pub timeout: Option<core::time::Duration>,
}

/// What came of an attempt to receive a message without waiting.
#[derive(PartialEq, Eq, Structural, Debug)]
pub enum RecvAttempt {
    Received,
    TimedOut,
    Failed(Error),
}

/// Draws a token: `rand::Rng::gen` on `rand::thread_rng`.
///
/// Nothing is claimed of it, since it is left to chance.
#[verifier::external_body]
fn random_token() -> [u8; 32] {
    rand::Rng::gen(&mut rand::thread_rng())
}

/// What a side that sends and receives resources, or does not, is given for it.
pub open spec fn spec_transceiver(tx: bool, rx: bool) -> Option<RawResourceTransceiver> {
    if tx || rx {
        Some(RawResourceTransceiver::Mach { tx, rx })
    } else {
        None
    }
}

/// What a side that sends and receives resources, or does not, is given for it.
fn transceiver(tx: bool, rx: bool) -> (transceiver: Option<RawResourceTransceiver>)
    ensures
        transceiver == spec_transceiver(tx, rx),
{
    match (tx, rx) {
        (false, false) => None,
        (tx, rx) => Some(RawResourceTransceiver::Mach { tx, rx }),
    }
}

impl<P> PreChannel<P> {
    /// Both ends of a channel: what one end sends to, the other end receives from. `new_port` makes a port
    /// that can be received from, and `make_sender` a right to send to such a port.
    pub fn pair<N, M>(new_port: N, make_sender: M) -> (pair: Result<(PreChannel<P>, PreChannel<P>), Error>) where
        N: Fn() -> Result<P, Error>,
        M: Fn(&P) -> Result<P, Error>,

        requires
            new_port.requires(()),
            forall|port: &P| new_port.ensures((), Ok(*port)) ==> #[trigger] make_sender.requires((port,)),
        ensures
            match pair {
                Ok((a, b)) => {
                    &&& new_port.ensures((), Ok(a.rx))
                    &&& new_port.ensures((), Ok(b.rx))
                    &&& make_sender.ensures((&b.rx,), Ok(a.tx))
                    &&& make_sender.ensures((&a.rx,), Ok(b.tx))
                },
                Err(e) => {
                    ||| new_port.ensures((), Err(e))
                    ||| exists|port: &P| #[trigger]
                        make_sender.ensures((port,), Err(e)) && new_port.ensures((), Ok(*port))
                },
            },
    {
        let ltr = match new_port() {
            Ok(port) => port,
            Err(e) => return Err(e),
        };
        let rtl = match new_port() {
            Ok(port) => port,
            Err(e) => return Err(e),
        };
        let ltr_sender = match make_sender(&ltr) {
            Ok(port) => port,
            Err(e) => return Err(e),
        };
        let rtl_sender = match make_sender(&rtl) {
            Ok(port) => port,
            Err(e) => return Err(e),
        };
        Ok((PreChannel { tx: ltr_sender, rx: rtl }, PreChannel { tx: rtl_sender, rx: ltr }))
    }

    /// A channel that does not carry resources. `register` has an event loop watch a port.
    pub fn into_channel<G, F: FnOnce(&P) -> Result<G, Error>>(self, register: F) -> (channel: Result<
        Channel<P, G>,
        Error,
    >)
        requires
            register.requires((&self.rx,)),
        ensures
            match channel {
                Ok(c) => {
                    &&& register.ensures((&self.rx,), Ok(c.rx_registration))
                    &&& c.tx == self.tx
                    &&& c.rx == self.rx
                    &&& c.resource_transceiver is None
                },
                Err(e) => register.ensures((&self.rx,), Err(e)),
            },
    {
        match register(&self.rx) {
            Ok(rx_registration) => Ok(
                Channel { tx: self.tx, rx: self.rx, rx_registration, resource_transceiver: None },
            ),
            Err(e) => Err(e),
        }
    }

    /// A channel that carries resources. `register` has an event loop watch a port.
    pub fn into_resource_channel<G, F: FnOnce(&P) -> Result<G, Error>>(
        self,
        register: F,
        resource_transceiver: ResourceTransceiver,
    ) -> (channel: Result<Channel<P, G>, Error>)
        requires
            register.requires((&self.rx,)),
        ensures
            match channel {
                Ok(c) => {
                    &&& register.ensures((&self.rx,), Ok(c.rx_registration))
                    &&& c.tx == self.tx
                    &&& c.rx == self.rx
                    &&& c.resource_transceiver == Some(resource_transceiver.inner)
                },
                Err(e) => register.ensures((&self.rx,), Err(e)),
            },
    {
        match register(&self.rx) {
            Ok(rx_registration) => Ok(
                Channel {
                    tx: self.tx,
                    rx: self.rx,
                    rx_registration,
                    resource_transceiver: Some(resource_transceiver.inner),
                },
            ),
            Err(e) => Err(e),
        }
    }
}

impl<P> PreChannel<P> {
    /// A channel that carries resources as far as both sides agreed to it. `register` has an event loop watch a
    /// port.
    pub fn into_agreed_channel<G, F: FnOnce(&P) -> Result<G, Error>>(
        self,
        register: F,
        transceiver: Option<RawResourceTransceiver>,
    ) -> (channel: Result<Channel<P, G>, Error>)
        requires
            register.requires((&self.rx,)),
        ensures
            match channel {
                Ok(c) => {
                    &&& register.ensures((&self.rx,), Ok(c.rx_registration))
                    &&& c.tx == self.tx
                    &&& c.rx == self.rx
                    &&& c.resource_transceiver == transceiver
                },
                Err(e) => register.ensures((&self.rx,), Err(e)),
            },
    {
        match transceiver {
            Some(inner) => self.into_resource_channel(register, ResourceTransceiver { inner }),
            None => self.into_channel(register),
        }
    }
}

/// Serializes the resources of one message: as long as there are none, the message needs no sender that
/// carries resources.
#[derive(Debug)]
pub struct ChannelSerializer<'a, P, G> {
    pub channel: Option<&'a Channel<P, G>>,
    pub sender: Option<ChannelResourceSender>,
}

impl<'a, P, G> ChannelSerializer<'a, P, G> {
    /// Serializes the resources of a message for a channel.
    pub fn new(channel: &'a Channel<P, G>) -> (serializer: ChannelSerializer<'a, P, G>)
        ensures
            serializer.channel == Some(channel),
            serializer.sender is None,
    {
        ChannelSerializer { channel: Some(channel), sender: None }
    }

    /// The sender that carries the resources of the message. It is made for the first of them. The channel is
    /// given up for that, even if it does not carry resources.
    pub fn ensure_sender(&mut self) -> (sender: Result<&mut ChannelResourceSender, Error>)
        requires
            old(self).sender is Some || old(self).channel is Some,
        ensures
            match old(self).sender {
                Some(present) => sender matches Ok(s) && *s == present && final(self).sender == Some(*final(s))
                    && final(self).channel == old(self).channel,
                None => if old(self).channel->0.sends_resources() {
                    sender matches Ok(s) && s.msg.inline_data@ == Seq::<u8>::empty() && s.msg.descriptors@ == Seq::<
                        Descriptor,
                    >::empty() && final(self).sender == Some(*final(s)) && final(self).channel is None
                } else {
                    &&& sender matches Err(e) && e == Error::Fault(Fault::NoResourceTransmission)
                    &&& final(self).sender is None
                    &&& final(self).channel is None
                },
            },
    {
        if self.sender.is_none() {
            match self.channel.take() {
                Some(channel) => match channel.send_with_resources() {
                    Ok(sender) => {
                        self.sender = Some(sender);
                    },
                    Err(e) => return Err(e),
                },
                None => return Err(Error::Fault(Fault::NoResourceTransmission)),
            }
        }
        match &mut self.sender {
            Some(sender) => Ok(sender),
            None => Err(Error::Fault(Fault::NoResourceTransmission)),
        }
    }

    /// There is a channel or a sender left to send the message with.
    pub open spec fn can_finish(&self) -> bool {
        &&& self.channel is Some || self.sender is Some
        &&& self.sender matches Some(s) ==> s.msg.inline_data@.len() == 0
    }

    /// The rights that the message carries.
    pub open spec fn carried(&self) -> Seq<Descriptor> {
        if self.channel is Some {
            Seq::empty()
        } else {
            self.sender->0.msg.descriptors@
        }
    }

    /// The message with its data and the resources that were serialized.
    pub fn finish(self, buffer: &[u8], endian: Endian) -> (msg: MsgBuffer)
        requires
            self.can_finish(),
            USIZE_SIZE + buffer@.len() + INLINE_DATA_UNIT <= usize::MAX,
        ensures
            msg.inline_data@ == framed(buffer@, endian),
            msg.descriptors@ == self.carried(),
    {
        match self.channel {
            Some(channel) => channel.send(buffer, endian),
            None => match self.sender {
                Some(sender) => sender.finish(buffer, endian),
                None => MsgBuffer::new(),
            },
        }
    }
}

impl<P, G> Channel<P, G> {
    /// The channel sends resources.
    pub open spec fn sends_resources(&self) -> bool {
        self.resource_transceiver matches Some(RawResourceTransceiver::Mach { tx: true, .. })
    }

    /// The channel receives resources.
    pub open spec fn receives_resources(&self) -> bool {
        self.resource_transceiver matches Some(RawResourceTransceiver::Mach { rx: true, .. })
    }

    /// The message that sends data without resources.
    pub fn send(&self, buffer: &[u8], endian: Endian) -> (msg: MsgBuffer)
        requires
            USIZE_SIZE + buffer@.len() + INLINE_DATA_UNIT <= usize::MAX,
        ensures
            msg.inline_data@ == framed(buffer@, endian),
            msg.descriptors@ == Seq::<Descriptor>::empty(),
    {
        ChannelResourceSender { msg: MsgBuffer::new() }.finish(buffer, endian)
    }

    /// The message that sends what `serialize` turns into bytes, or fails to. It is handed what serializes the
    /// resources of the message, and a message with resources is one that it made a sender for.
    pub fn send_message<'a, F>(&'a self, serialize: F, endian: Endian) -> (msg: Result<MsgBuffer, Error>) where
        F: FnOnce(&mut ChannelSerializer<'a, P, G>) -> Option<Vec<u8>>,

        requires
            forall|serializer: &mut ChannelSerializer<'a, P, G>|
                serializer.channel == Some(self) && serializer.sender is None ==> #[trigger] serialize.requires(
                    (serializer,),
                ),
            forall|serializer: &mut ChannelSerializer<'a, P, G>, bytes: Vec<u8>|
                #![trigger serialize.ensures((serializer,), Some(bytes))]
                serialize.ensures((serializer,), Some(bytes)) ==> final(serializer).can_finish() && USIZE_SIZE
                    + bytes@.len() + INLINE_DATA_UNIT <= usize::MAX,
        ensures
            match msg {
                Ok(m) => exists|serializer: &mut ChannelSerializer<'a, P, G>, bytes: Vec<u8>|
                    #![trigger serialize.ensures((serializer,), Some(bytes))]
                    serialize.ensures((serializer,), Some(bytes)) && serializer.channel == Some(self)
                        && serializer.sender is None && m.inline_data@ == framed(bytes@, endian) && m.descriptors@
                        == final(serializer).carried(),
                Err(e) => {
                    &&& e == Error::Fault(Fault::MessageSerialization)
                    &&& exists|serializer: &mut ChannelSerializer<'a, P, G>| #[trigger]
                        serialize.ensures((serializer,), None) && serializer.channel == Some(self)
                            && serializer.sender is None
                },
            },
    {
        let mut serializer = ChannelSerializer::new(self);
        match serialize(&mut serializer) {
            Some(bytes) => Ok(serializer.finish(bytes.as_slice(), endian)),
            None => Err(Error::Fault(Fault::MessageSerialization)),
        }
    }

    /// Starts a message with resources.
    pub fn send_with_resources(&self) -> (sender: Result<ChannelResourceSender, Error>)
        ensures
            self.sends_resources() ==> (sender matches Ok(s) && s.msg.inline_data@ == Seq::<u8>::empty()
                && s.msg.descriptors@ == Seq::<Descriptor>::empty()),
            !self.sends_resources() ==> sender == Err::<ChannelResourceSender, Error>(
                Error::Fault(Fault::NoResourceTransmission),
            ),
    {
        match self.resource_transceiver {
            Some(RawResourceTransceiver::Mach { tx: true, .. }) => Ok(ChannelResourceSender { msg: MsgBuffer::new() }),
            _ => Err(Error::Fault(Fault::NoResourceTransmission)),
        }
    }

    /// Takes the data out of a message that was received.
    pub fn recv(&self, msg: Result<MsgBuffer, Error>, buffer: &mut [u8], endian: Endian) -> (length: Result<
        usize,
        Error,
    >)
        ensures
            match msg {
                Err(e) => length == Err::<usize, Error>(e) && final(buffer)@ == old(buffer)@,
                Ok(msg) => match unframed(msg.inline_data@, endian) {
                    Err(fault) => length == Err::<usize, Error>(Error::Fault(fault)) && final(buffer)@ == old(buffer)@,
                    Ok(data) => if old(buffer)@.len() < data.len() {
                        &&& length == Err::<usize, Error>(Error::Fault(Fault::BufferTooSmall))
                        &&& final(buffer)@ == old(buffer)@
                    } else {
                        &&& length matches Ok(n) && n == data.len()
                        &&& final(buffer)@ == overwritten(old(buffer)@, 0, data)
                    },
                },
            },
    {
        match msg {
            Ok(msg) => msg.data(buffer, endian),
            Err(e) => Err(e),
        }
    }

    /// Receives a message with resources. `receive` receives a message with room for so many rights and so
    /// many bytes.
    pub fn recv_with_resources<F: FnOnce(usize, usize) -> Result<MsgBuffer, Error>>(
        &self,
        max_resources: usize,
        buffer: &mut [u8],
        endian: Endian,
        receive: F,
    ) -> (receiver: Result<ChannelResourceReceiver, Error>)
        requires
            USIZE_SIZE + old(buffer)@.len() <= usize::MAX,
            self.receives_resources() ==> receive.requires(
                (max_resources, (USIZE_SIZE + old(buffer)@.len()) as usize),
            ),
        ensures
            !self.receives_resources() ==> receiver == Err::<ChannelResourceReceiver, Error>(
                Error::Fault(Fault::NoResourceReceiving),
            ) && final(buffer)@ == old(buffer)@,
            self.receives_resources() ==> exists|msg: Result<MsgBuffer, Error>| #[trigger]
                receive.ensures(
                    (max_resources, (USIZE_SIZE + old(buffer)@.len()) as usize),
                    msg,
                ) && match msg {
                    Err(e) => receiver == Err::<ChannelResourceReceiver, Error>(e) && final(buffer)@ == old(buffer)@,
                    Ok(m) => match unframed(m.inline_data@, endian) {
                        Err(fault) => receiver == Err::<ChannelResourceReceiver, Error>(Error::Fault(fault))
                            && final(buffer)@ == old(buffer)@,
                        Ok(data) => if old(buffer)@.len() < data.len() {
                            &&& receiver == Err::<ChannelResourceReceiver, Error>(Error::Fault(Fault::BufferTooSmall))
                            &&& final(buffer)@ == old(buffer)@
                        } else {
                            &&& receiver matches Ok(r) && r.msg == m && r.data_len == data.len()
                            &&& final(buffer)@ == overwritten(old(buffer)@, 0, data)
                        },
                    },
                },
    {
        match self.resource_transceiver {
            Some(RawResourceTransceiver::Mach { rx: true, .. }) => {},
            _ => return Err(Error::Fault(Fault::NoResourceReceiving)),
        }
        let capacity: usize = inline_data_capacity(buffer.len());
        let received = receive(max_resources, capacity);
        assert(receive.ensures((max_resources, capacity), received));
        match received {
            Ok(msg) => match msg.data(buffer, endian) {
                Ok(data_len) => Ok(ChannelResourceReceiver { msg, data_len }),
                Err(e) => Err(e),
            },
            Err(e) => Err(e),
        }
    }
}

/// Receives a message once there is one. `ready` says whether there is, `receive` receives it without
/// waiting, and `clear` has the event loop wait for the next one.
pub fn poll_recv<F, C>(ready: Result<Async<()>, Error>, receive: F, clear: C) -> (result: Result<
    Async<()>,
    Error,
>) where
    F: FnOnce() -> RecvAttempt,
    C: FnOnce() -> Result<(), Error>,

    requires
        ready matches Ok(Async::Ready(_)) ==> receive.requires(()),
        receive.ensures((), RecvAttempt::TimedOut) ==> clear.requires(()),
    ensures
        match ready {
            Ok(Async::Ready(_)) => exists|attempt: RecvAttempt| #[trigger]
                receive.ensures((), attempt) && match attempt {
                    RecvAttempt::Received => result == Ok::<Async<()>, Error>(Async::Ready(())),
                    RecvAttempt::Failed(e) => result == Err::<Async<()>, Error>(e),
                    RecvAttempt::TimedOut => exists|cleared: Result<(), Error>| #[trigger]
                        clear.ensures((), cleared) && match cleared {
                            Ok(_) => result == Ok::<Async<()>, Error>(Async::NotReady),
                            Err(e) => result == Err::<Async<()>, Error>(e),
                        },
                },
            Ok(Async::NotReady) => result == Ok::<Async<()>, Error>(Async::NotReady),
            Err(e) => result == Err::<Async<()>, Error>(e),
        },
{
    match ready {
        Ok(Async::Ready(_)) => {},
        Ok(Async::NotReady) => return Ok(Async::NotReady),
        Err(e) => return Err(e),
    }
    let attempt = receive();
    assert(receive.ensures((), attempt));
    match attempt {
        RecvAttempt::Received => Ok(Async::Ready(())),
        RecvAttempt::TimedOut => match clear() {
            Ok(_) => Ok(Async::NotReady),
            Err(e) => Err(e),
        },
        RecvAttempt::Failed(e) => Err(e),
    }
}

impl<C> ChildChannelBuilder<C> {
    /// Sets up a channel without resources with a child that this command launches, and waits for the child
    /// as long as it takes.
    pub fn new(command: C) -> (builder: ChildChannelBuilder<C>)
        ensures
            builder.command == command,
            !builder.resource_tx,
            !builder.resource_rx,
            builder.timeout is None,
    {
        ChildChannelBuilder { command, resource_tx: false, resource_rx: false, timeout: None }
    }

    /// Says whether resources can be sent to the child.
    pub fn enable_resource_tx(&mut self, enabled: bool) -> (builder: &mut Self)
        ensures
            builder.resource_tx == enabled,
            builder.command == old(self).command,
            builder.resource_rx == old(self).resource_rx,
            builder.timeout == old(self).timeout,
            *final(self) == *final(builder),
    {
        self.resource_tx = enabled;
        self
    }

    /// Says whether resources can be received from the child.
    pub fn enable_resource_rx(&mut self, enabled: bool) -> (builder: &mut Self)
        ensures
            builder.resource_rx == enabled,
            builder.command == old(self).command,
            builder.resource_tx == old(self).resource_tx,
            builder.timeout == old(self).timeout,
            *final(self) == *final(builder),
    {
        self.resource_rx = enabled;
        self
    }

    /// Says how long to wait for the child.
    pub fn set_timeout(&mut self, timeout: Option<core::time::Duration>) -> (builder: &mut Self)
        ensures
            builder.timeout == timeout,
            builder.command == old(self).command,
            builder.resource_tx == old(self).resource_tx,
            builder.resource_rx == old(self).resource_rx,
            *final(self) == *final(builder),
    {
        self.timeout = timeout;
        self
    }

    /// What the child needs to know: what one side sends, the other side receives.
    pub fn metadata(&self, bootstrap_name: String, token: [u8; 32]) -> (metadata: ChildChannelMetadata)
        ensures
            metadata.bootstrap_name == bootstrap_name,
            metadata.token == token,
            metadata.resource_tx == self.resource_rx,
            metadata.resource_rx == self.resource_tx,
    {
        ChildChannelMetadata {
            bootstrap_name,
            token,
            resource_tx: self.resource_rx,
            resource_rx: self.resource_tx,
        }
    }
}

/// The right to a port at a place in a message, or why there is none.
pub open spec fn right_at(
    descriptors: Seq<Descriptor>,
    index: int,
    missing_descriptor: Fault,
    missing_port: Fault,
) -> Result<u32, Fault> {
    if index < descriptors.len() {
        match descriptors[index] {
            Descriptor::Port { port: Some(port), .. } => Ok(port),
            Descriptor::Port { port: None, .. } => Err(missing_port),
            Descriptor::Other => Err(missing_descriptor),
        }
    } else {
        Err(missing_descriptor)
    }
}

/// What keeps the message of a child from being accepted, apart from its ports being unusable: the token,
/// then a missing right, then an empty one.
pub open spec fn child_fault(msg: MsgBuffer, token: Seq<u8>) -> Option<Fault> {
    let tx = right_at(msg.descriptors@, 0, Fault::MissingTxDescriptor, Fault::MissingTxPort);
    let rx = right_at(msg.descriptors@, 1, Fault::MissingRxDescriptor, Fault::MissingRxPort);
    if msg.inline_data@ != token {
        Some(Fault::TokenMismatch)
    } else if tx == Err::<u32, Fault>(Fault::MissingTxDescriptor) {
        Some(Fault::MissingTxDescriptor)
    } else if rx == Err::<u32, Fault>(Fault::MissingRxDescriptor) {
        Some(Fault::MissingRxDescriptor)
    } else if tx is Err {
        Some(Fault::MissingTxPort)
    } else if rx is Err {
        Some(Fault::MissingRxPort)
    } else {
        None
    }
}

/// Compares bytes.
fn same_bytes(a: &[u8], b: &[u8]) -> (same: bool)
    ensures
        same == (a@ == b@),
{
    if a.len() != b.len() {
        return false;
    }
    let mut i: usize = 0;
    while i < a.len()
        invariant
            i <= a@.len() == b@.len(),
            forall|k: int| 0 <= k < i ==> a@[k] == b@[k],
        decreases a@.len() - i,
    {
        if a[i] != b[i] {
            return false;
        }
        i = i + 1;
    }
    assert(a@ =~= b@);
    true
}

/// The port behind a right at a place in a message: nothing if there is no right.
fn port_at(msg: &MsgBuffer, index: usize) -> (port: Option<Option<u32>>)
    ensures
        port == (if index < msg.descriptors@.len() {
            match msg.descriptors@[index as int] {
                Descriptor::Port { port, .. } => Some(port),
                Descriptor::Other => None,
            }
        } else {
            None
        }),
{
    if index < msg.descriptors.len() {
        match msg.descriptors[index] {
            Descriptor::Port { port, .. } => Some(port),
            Descriptor::Other => None,
        }
    } else {
        None
    }
}

/// The ports in the message of a child can be taken over: the first if the token is right and it is there, with room
/// for a second, and then the second.
pub open spec fn adoptable<P, A: Fn(u32) -> Result<P, Error>>(adopt: A, msg: MsgBuffer, token: Seq<u8>) -> bool {
    let first = (msg.descriptors@[0]->Port_port->0,);
    let second = (msg.descriptors@[1]->Port_port->0,);
    let fault = child_fault(msg, token);
    &&& fault is None || fault == Some(Fault::MissingRxPort) ==> adopt.requires(first)
    &&& fault is None ==> forall|port: P| #[trigger] adopt.ensures(first, Ok(port)) ==> adopt.requires(second)
}

/// Accepts the message of a child: the channel over the ports in it. `adopt` takes over a right that came in
/// a message.
pub fn accept_child<P, A: Fn(u32) -> Result<P, Error>>(msg: &MsgBuffer, token: &[u8; 32], adopt: A) -> (channel: Result<
    PreChannel<P>,
    Error,
>)
    requires
        adoptable(adopt, *msg, token@),
    ensures
        match child_fault(*msg, token@) {
            Some(Fault::MissingRxPort) => {
                let tx = right_at(msg.descriptors@, 0, Fault::MissingTxDescriptor, Fault::MissingTxPort)->Ok_0;
                ||| channel == Err::<PreChannel<P>, Error>(Error::Fault(Fault::MissingRxPort))
                ||| channel matches Err(e) && adopt.ensures((tx,), Err(e))
            },
            Some(fault) => channel == Err::<PreChannel<P>, Error>(Error::Fault(fault)),
            None => {
                let tx = right_at(msg.descriptors@, 0, Fault::MissingTxDescriptor, Fault::MissingTxPort)->Ok_0;
                let rx = right_at(msg.descriptors@, 1, Fault::MissingRxDescriptor, Fault::MissingRxPort)->Ok_0;
                match channel {
                    Ok(c) => adopt.ensures((tx,), Ok(c.tx)) && adopt.ensures((rx,), Ok(c.rx)),
                    Err(e) => adopt.ensures((tx,), Err(e)) || adopt.ensures((rx,), Err(e)),
                }
            },
        },
{
    if !same_bytes(msg.inline_data.as_slice(), token.as_slice()) {
        return Err(Error::Fault(Fault::TokenMismatch));
    }
    let tx_descriptor = match port_at(msg, 0) {
        Some(port) => port,
        None => return Err(Error::Fault(Fault::MissingTxDescriptor)),
    };
    let rx_descriptor = match port_at(msg, 1) {
        Some(port) => port,
        None => return Err(Error::Fault(Fault::MissingRxDescriptor)),
    };
    let tx = match tx_descriptor {
        Some(port) => match adopt(port) {
            Ok(port) => port,
            Err(e) => return Err(e),
        },
        None => return Err(Error::Fault(Fault::MissingTxPort)),
    };
    let rx = match rx_descriptor {
        Some(port) => match adopt(port) {
            Ok(port) => port,
            Err(e) => return Err(e),
        },
        None => return Err(Error::Fault(Fault::MissingRxPort)),
    };
    Ok(PreChannel { tx, rx })
}

/// A port is advertised under the name in the metadata, and what one side sends in the way of resources, the other
/// side receives.
pub open spec fn advertised<C, Q, V: FnOnce(&String) -> Result<Q, Error>>(
    builder: ChildChannelBuilder<C>,
    advertise: V,
    metadata: ChildChannelMetadata,
    port: Q,
) -> bool {
    &&& metadata.resource_tx == builder.resource_rx
    &&& metadata.resource_rx == builder.resource_tx
    &&& service_name(metadata.bootstrap_name@)
    &&& advertise.ensures((&metadata.bootstrap_name,), Ok(port))
}

/// This message came in on the port that is advertised under the name in the metadata.
pub open spec fn answered<C, Q, V, RV>(
    builder: ChildChannelBuilder<C>,
    advertise: V,
    receive: RV,
    metadata: ChildChannelMetadata,
    port: Q,
    msg: MsgBuffer,
) -> bool where
    V: FnOnce(&String) -> Result<Q, Error>,
    RV: FnOnce(Q, usize, usize, Option<core::time::Duration>) -> Result<MsgBuffer, Error>,
 {
    &&& advertised(builder, advertise, metadata, port)
    &&& receive.ensures((port, CHILD_DESCRIPTORS, TOKEN_LEN, builder.timeout), Ok(msg))
}

/// The message of a child is accepted, and these are the ports in it.
pub open spec fn adopted<P, A: Fn(u32) -> Result<P, Error>>(
    adopt: A,
    msg: MsgBuffer,
    token: Seq<u8>,
    channel: PreChannel<P>,
) -> bool {
    &&& child_fault(msg, token) is None
    &&& adopt.ensures((msg.descriptors@[0]->Port_port->0,), Ok(channel.tx))
    &&& adopt.ensures((msg.descriptors@[1]->Port_port->0,), Ok(channel.rx))
}

/// The message of a child is not accepted, for this reason. A port is taken over only if the token is right and both
/// rights are there.
pub open spec fn not_adopted<P, A: Fn(u32) -> Result<P, Error>>(
    adopt: A,
    msg: MsgBuffer,
    token: Seq<u8>,
    e: Error,
) -> bool {
    match child_fault(msg, token) {
        Some(Fault::MissingRxPort) => e == Error::Fault(Fault::MissingRxPort) || adopt.ensures(
            (msg.descriptors@[0]->Port_port->0,),
            Err(e),
        ),
        Some(fault) => e == Error::Fault(fault),
        None => adopt.ensures((msg.descriptors@[0]->Port_port->0,), Err(e)) || adopt.ensures(
            (msg.descriptors@[1]->Port_port->0,),
            Err(e),
        ),
    }
}

/// The calls that set up a channel with a child can be made in their order, as far as that does not depend on what
/// becomes of the command: the metadata is passed on once the port is advertised, the message of the child is received
/// once the child is launched, and the ports in it are taken over if it is accepted.
pub open spec fn child_calls_in_order<C, D, Q, P, V, RM, SP, RV, A>(
    builder: ChildChannelBuilder<C>,
    advertise: V,
    relay_metadata: RM,
    spawn: SP,
    receive: RV,
    adopt: A,
) -> bool where
    V: FnOnce(&String) -> Result<Q, Error>,
    RM: FnOnce(&mut C, ChildChannelMetadata) -> Result<(), Error>,
    SP: FnOnce(&mut C) -> Result<D, Error>,
    RV: FnOnce(Q, usize, usize, Option<core::time::Duration>) -> Result<MsgBuffer, Error>,
    A: Fn(u32) -> Result<P, Error>,
 {
    &&& forall|name: &String| service_name(name@) ==> #[trigger] advertise.requires((name,))
    &&& forall|command: &mut C, metadata: ChildChannelMetadata, port: Q|
        #![trigger advertised(builder, advertise, metadata, port), relay_metadata.requires((command, metadata))]
        advertised(builder, advertise, metadata, port) && *command == builder.command ==> relay_metadata.requires(
            (command, metadata),
        )
    &&& forall|filled: &mut C, spawned: Result<D, Error>, port: Q|
        #![trigger
            spawn.ensures((filled,), spawned),
            receive.requires((port, CHILD_DESCRIPTORS, TOKEN_LEN, builder.timeout))
        ]
        spawn.ensures((filled,), spawned) && spawned is Ok ==> receive.requires(
            (port, CHILD_DESCRIPTORS, TOKEN_LEN, builder.timeout),
        )
    &&& forall|metadata: ChildChannelMetadata, port: Q, msg: MsgBuffer| #[trigger]
        answered(builder, advertise, receive, metadata, port, msg) ==> adoptable(adopt, msg, metadata.token@)
}

/// What setting up a channel with a child comes to, on what came of launching it: the first failure, or the child,
/// with the ports in the message that came in on the advertised port, and with what the channel may do with resources.
pub open spec fn concluded<C, D, Q, P, RV, A>(
    builder: ChildChannelBuilder<C>,
    receive: RV,
    adopt: A,
    metadata: ChildChannelMetadata,
    port: Q,
    spawned: Result<D, Error>,
    result: Result<(D, PreChannel<P>, Option<RawResourceTransceiver>), Error>,
) -> bool where
    RV: FnOnce(Q, usize, usize, Option<core::time::Duration>) -> Result<MsgBuffer, Error>,
    A: Fn(u32) -> Result<P, Error>,
 {
    match spawned {
        Err(e) => result == Err::<(D, PreChannel<P>, Option<RawResourceTransceiver>), Error>(e),
        Ok(child) => exists|received: Result<MsgBuffer, Error>| #[trigger]
            receive.ensures((port, CHILD_DESCRIPTORS, TOKEN_LEN, builder.timeout), received) && match (
                received,
                result,
            ) {
                (Err(e), _) => result == Err::<(D, PreChannel<P>, Option<RawResourceTransceiver>), Error>(e),
                (Ok(msg), Ok((returned, channel, transceiver))) => {
                    &&& returned == child
                    &&& adopted(adopt, msg, metadata.token@, channel)
                    &&& transceiver == spec_transceiver(builder.resource_tx, builder.resource_rx)
                },
                (Ok(msg), Err(e)) => not_adopted(adopt, msg, metadata.token@, e),
            },
    }
}

/// A child and its ports, with what the channel may do with resources as the platform has it.
pub open spec fn raw_result<D, P>(result: Result<(D, PreChannel<P>, Option<ResourceTransceiver>), Error>) -> Result<
    (D, PreChannel<P>, Option<RawResourceTransceiver>),
    Error,
> {
    match result {
        Ok((child, channel, Some(transceiver))) => Ok((child, channel, Some(transceiver.inner))),
        Ok((child, channel, None)) => Ok((child, channel, None)),
        Err(e) => Err(e),
    }
}

/// What a channel with a child comes to, on what came of launching it: as `concluded` says, and an event loop watches
/// the port that is received from.
pub open spec fn watched<C, D, Q, P, G, RV, A, F>(
    builder: ChildChannelBuilder<C>,
    receive: RV,
    adopt: A,
    register: F,
    metadata: ChildChannelMetadata,
    port: Q,
    spawned: Result<D, Error>,
    result: Result<(D, Channel<P, G>), Error>,
) -> bool where
    RV: FnOnce(Q, usize, usize, Option<core::time::Duration>) -> Result<MsgBuffer, Error>,
    A: Fn(u32) -> Result<P, Error>,
    F: FnOnce(&P) -> Result<G, Error>,
 {
    exists|made: Result<(D, PreChannel<P>, Option<RawResourceTransceiver>), Error>| #[trigger]
        concluded(builder, receive, adopt, metadata, port, spawned, made) && match (made, result) {
            (Err(e), _) => result == Err::<(D, Channel<P, G>), Error>(e),
            (Ok((child, ports, transceiver)), Ok((returned, channel))) => {
                &&& returned == child
                &&& channel.tx == ports.tx
                &&& channel.rx == ports.rx
                &&& register.ensures((&ports.rx,), Ok(channel.rx_registration))
                &&& channel.resource_transceiver == transceiver
            },
            (Ok((_, ports, _)), Err(e)) => register.ensures((&ports.rx,), Err(e)),
        }
}

impl<P> PreChannel<P> {
    /// Sets up a channel with a child process.
    ///
    /// `advertise` makes a port and has the bootstrap server know it by a name, `relay_metadata` has the
    /// command pass the metadata on to the child, `spawn` launches the child by that command, `receive` receives a
    /// message on the port, with room for so many rights and so many bytes, and `adopt` takes over a right that
    /// came in a message.
    pub fn establish_with_child<C, D, Q, V, RM, SP, RV, A>(
        builder: &mut ChildChannelBuilder<C>,
        advertise: V,
        relay_metadata: RM,
        spawn: SP,
        receive: RV,
        adopt: A,
    ) -> (result: Result<(D, PreChannel<P>, Option<RawResourceTransceiver>), Error>) where
        V: FnOnce(&String) -> Result<Q, Error>,
        RM: FnOnce(&mut C, ChildChannelMetadata) -> Result<(), Error>,
        SP: FnOnce(&mut C) -> Result<D, Error>,
        RV: FnOnce(Q, usize, usize, Option<core::time::Duration>) -> Result<MsgBuffer, Error>,
        A: Fn(u32) -> Result<P, Error>,

        requires
            child_calls_in_order(*old(builder), advertise, relay_metadata, spawn, receive, adopt),
            forall|command: &mut C, metadata: ChildChannelMetadata, relayed: Result<(), Error>, filled: &mut C|
                #![trigger relay_metadata.ensures((command, metadata), relayed), spawn.requires((filled,))]
                relay_metadata.ensures((command, metadata), relayed) && relayed is Ok && *filled == *final(command)
                    ==> spawn.requires((filled,)),
        ensures
            final(builder).resource_tx == old(builder).resource_tx,
            final(builder).resource_rx == old(builder).resource_rx,
            final(builder).timeout == old(builder).timeout,
            ({
                ||| exists|name: &String, e: Error| #[trigger]
                    advertise.ensures((name,), Err(e)) && service_name(name@) && result is Err && result->Err_0 == e
                        && final(builder).command == old(builder).command
                ||| exists|command: &mut C, metadata: ChildChannelMetadata, relayed: Result<(), Error>, port: Q|
                    #![trigger
                        relay_metadata.ensures((command, metadata), relayed),
                        advertised(*old(builder), advertise, metadata, port)
                    ]
                    relay_metadata.ensures((command, metadata), relayed) && advertised(
                        *old(builder),
                        advertise,
                        metadata,
                        port,
                    ) && *command == old(builder).command && match relayed {
                        Err(e) => result is Err && result->Err_0 == e && *final(command) == final(builder).command,
                        Ok(_) => exists|filled: &mut C, spawned: Result<D, Error>| #[trigger]
                            spawn.ensures((filled,), spawned) && *filled == *final(command)
                                && *final(filled) == final(builder).command && concluded(
                                *old(builder),
                                receive,
                                adopt,
                                metadata,
                                port,
                                spawned,
                                result,
                            ),
                    }
            }),
    {
        let bootstrap_name = new_service_name();
        let init_port = match advertise(&bootstrap_name) {
            Ok(port) => port,
            Err(e) => return Err(e),
        };
        let token = random_token();
        let metadata = builder.metadata(bootstrap_name, token);
        let ghost passed = metadata;
        let ghost port = init_port;
        assert(advertised(*old(builder), advertise, passed, port));
        match relay_metadata(&mut builder.command, metadata) {
            Ok(_) => {},
            Err(e) => return Err(e),
        }
        let child = match spawn(&mut builder.command) {
            Ok(child) => child,
            Err(e) => return Err(e),
        };
        let msg = match receive(init_port, CHILD_DESCRIPTORS, TOKEN_LEN, builder.timeout) {
            Ok(msg) => msg,
            Err(e) => return Err(e),
        };
        assert(answered(*old(builder), advertise, receive, passed, port, msg));
        let channel = match accept_child(&msg, &token, adopt) {
            Ok(channel) => channel,
            Err(e) => return Err(e),
        };
        Ok((child, channel, transceiver(builder.resource_tx, builder.resource_rx)))
    }
}

impl<C> ChildChannelBuilder<C> {
    /// Sets up the ports of a channel with a child process that it launches, and says what the channel may do with
    /// resources. The calls are those of `PreChannel::establish_with_child`.
    pub fn spawn_pre_channel<P, D, Q, V, RM, SP, RV, A>(
        &mut self,
        advertise: V,
        relay_metadata: RM,
        spawn: SP,
        receive: RV,
        adopt: A,
    ) -> (result: Result<(D, PreChannel<P>, Option<ResourceTransceiver>), Error>) where
        V: FnOnce(&String) -> Result<Q, Error>,
        RM: FnOnce(&mut C, ChildChannelMetadata) -> Result<(), Error>,
        SP: FnOnce(&mut C) -> Result<D, Error>,
        RV: FnOnce(Q, usize, usize, Option<core::time::Duration>) -> Result<MsgBuffer, Error>,
        A: Fn(u32) -> Result<P, Error>,

        requires
            child_calls_in_order(*old(self), advertise, relay_metadata, spawn, receive, adopt),
            forall|command: &mut C, metadata: ChildChannelMetadata, relayed: Result<(), Error>, filled: &mut C|
                #![trigger relay_metadata.ensures((command, metadata), relayed), spawn.requires((filled,))]
                relay_metadata.ensures((command, metadata), relayed) && relayed is Ok && *filled == *final(command)
                    ==> spawn.requires((filled,)),
        ensures
            final(self).resource_tx == old(self).resource_tx,
            final(self).resource_rx == old(self).resource_rx,
            final(self).timeout == old(self).timeout,
            ({
                ||| exists|name: &String, e: Error| #[trigger]
                    advertise.ensures((name,), Err(e)) && service_name(name@) && result is Err && result->Err_0 == e
                        && final(self).command == old(self).command
                ||| exists|command: &mut C, metadata: ChildChannelMetadata, relayed: Result<(), Error>, port: Q|
                    #![trigger
                        relay_metadata.ensures((command, metadata), relayed),
                        advertised(*old(self), advertise, metadata, port)
                    ]
                    relay_metadata.ensures((command, metadata), relayed) && advertised(
                        *old(self),
                        advertise,
                        metadata,
                        port,
                    ) && *command == old(self).command && match relayed {
                        Err(e) => result is Err && result->Err_0 == e && *final(command) == final(self).command,
                        Ok(_) => exists|filled: &mut C, spawned: Result<D, Error>| #[trigger]
                            spawn.ensures((filled,), spawned) && *filled == *final(command)
                                && *final(filled) == final(self).command && concluded(
                                *old(self),
                                receive,
                                adopt,
                                metadata,
                                port,
                                spawned,
                                raw_result(result),
                            ),
                    }
            }),
    {
        match PreChannel::establish_with_child(self, advertise, relay_metadata, spawn, receive, adopt) {
            Ok((child, channel, transceiver)) => {
                let transceiver = match transceiver {
                    Some(inner) => Some(ResourceTransceiver { inner }),
                    None => None,
                };
                Ok((child, channel, transceiver))
            },
            Err(e) => Err(e),
        }
    }

    /// Sets up a channel with a child process that it launches. `register` has an event loop watch a port, and the
    /// other calls are those of `PreChannel::establish_with_child`.
    pub fn spawn<P, G, D, Q, V, RM, SP, RV, A, F>(
        &mut self,
        advertise: V,
        relay_metadata: RM,
        spawn: SP,
        receive: RV,
        adopt: A,
        register: F,
    ) -> (result: Result<(D, Channel<P, G>), Error>) where
        V: FnOnce(&String) -> Result<Q, Error>,
        RM: FnOnce(&mut C, ChildChannelMetadata) -> Result<(), Error>,
        SP: FnOnce(&mut C) -> Result<D, Error>,
        RV: FnOnce(Q, usize, usize, Option<core::time::Duration>) -> Result<MsgBuffer, Error>,
        A: Fn(u32) -> Result<P, Error>,
        F: FnOnce(&P) -> Result<G, Error>,

        requires
            child_calls_in_order(*old(self), advertise, relay_metadata, spawn, receive, adopt),
            forall|command: &mut C, metadata: ChildChannelMetadata, relayed: Result<(), Error>, filled: &mut C|
                #![trigger relay_metadata.ensures((command, metadata), relayed), spawn.requires((filled,))]
                relay_metadata.ensures((command, metadata), relayed) && relayed is Ok && *filled == *final(command)
                    ==> spawn.requires((filled,)),
            forall|msg: MsgBuffer, token: Seq<u8>, ports: PreChannel<P>| #[trigger]
                adopted(adopt, msg, token, ports) ==> register.requires((&ports.rx,)),
        ensures
            final(self).resource_tx == old(self).resource_tx,
            final(self).resource_rx == old(self).resource_rx,
            final(self).timeout == old(self).timeout,
            ({
                ||| exists|name: &String, e: Error| #[trigger]
                    advertise.ensures((name,), Err(e)) && service_name(name@) && result is Err && result->Err_0 == e
                        && final(self).command == old(self).command
                ||| exists|command: &mut C, metadata: ChildChannelMetadata, relayed: Result<(), Error>, port: Q|
                    #![trigger
                        relay_metadata.ensures((command, metadata), relayed),
                        advertised(*old(self), advertise, metadata, port)
                    ]
                    relay_metadata.ensures((command, metadata), relayed) && advertised(
                        *old(self),
                        advertise,
                        metadata,
                        port,
                    ) && *command == old(self).command && match relayed {
                        Err(e) => result is Err && result->Err_0 == e && *final(command) == final(self).command,
                        Ok(_) => exists|filled: &mut C, spawned: Result<D, Error>| #[trigger]
                            spawn.ensures((filled,), spawned) && *filled == *final(command)
                                && *final(filled) == final(self).command && watched(
                                *old(self),
                                receive,
                                adopt,
                                register,
                                metadata,
                                port,
                                spawned,
                                result,
                            ),
                    }
            }),
    {
        match self.spawn_pre_channel(advertise, relay_metadata, spawn, receive, adopt) {
            Ok((child, channel, transceiver)) => {
                let ghost ports = channel;
                let channel = match transceiver {
                    Some(transceiver) => channel.into_resource_channel(register, transceiver),
                    None => channel.into_channel(register),
                };
                match channel {
                    Ok(channel) => {
                        assert(PreChannel { tx: channel.tx, rx: channel.rx } == ports);
                        Ok((child, channel))
                    },
                    Err(e) => Err(e),
                }
            },
            Err(e) => Err(e),
        }
    }
}

/// A name that a process that waits for its child is known by.
pub open spec fn service_name(name: Seq<char>) -> bool {
    exists|id: u128|
        is_random_uuid(id) && name == "rust.sandbox-ipc-core.child."@
            + #[trigger] hyphenated(id)
}

/// The message in which a child sends its token and the ports of the other end of the channel.
pub open spec fn spec_child_message(token: Seq<u8>, theirs: PreChannel<u32>) -> (Seq<u8>, Seq<Descriptor>) {
    (
        token,
        seq![
            Descriptor::Port { right: Right::Move(PortMoveMode::Send), port: Some(theirs.tx) },
            Descriptor::Port { right: Right::Move(PortMoveMode::Receive), port: Some(theirs.rx) },
        ],
    )
}

/// The port with the name in the metadata was looked up, both ends of a channel were made, and the message
/// with the token and one end was sent to the port, with this outcome.
pub open spec fn parent_was_told<Q, L, F, S>(
    metadata: ChildChannelMetadata,
    look_up: L,
    pair: F,
    send: S,
    ends: (PreChannel<u32>, PreChannel<u32>),
    port: Q,
    msg: MsgBuffer,
    sent: Result<(), Error>,
) -> bool where
    L: FnOnce(&String) -> Result<Q, Error>,
    F: FnOnce() -> Result<(PreChannel<u32>, PreChannel<u32>), Error>,
    S: FnOnce(Q, MsgBuffer) -> Result<(), Error>,
 {
    &&& look_up.ensures((&metadata.bootstrap_name,), Ok(port))
    &&& pair.ensures((), Ok(ends))
    &&& (msg.inline_data@, msg.descriptors@) == spec_child_message(metadata.token@, ends.1)
    &&& send.ensures((port, msg), sent)
}

impl ChildChannelMetadata {
    /// The name can be handed to the operating system: it holds no zero byte.
    pub open spec fn name_is_valid(&self) -> bool {
        !vstd::utf8::encode_utf8(self.bootstrap_name@).contains(0u8)
    }

    /// The message in which the child sends its token and the ports of the other end of the channel.
    pub fn message(&self, theirs: PreChannel<u32>) -> (msg: MsgBuffer)
        ensures
            (msg.inline_data@, msg.descriptors@) == spec_child_message(self.token@, theirs),
    {
        let mut msg = MsgBuffer::new();
        msg.move_right(PortMoveMode::Send, theirs.tx);
        msg.move_right(PortMoveMode::Receive, theirs.rx);
        msg.extend_inline_data(self.token.as_slice());
        assert(msg.descriptors@ =~= spec_child_message(self.token@, theirs).1);
        assert(msg.inline_data@ =~= self.token@);
        msg
    }

    /// The calls that set up the channel can be made, each once the one before it went well: the port is looked up,
    /// unless the name is no good, both ends of a channel are made, and the message is sent to the port.
    pub open spec fn calls_in_order<Q, L, F, S>(self, look_up: L, pair: F, send: S) -> bool where
        L: FnOnce(&String) -> Result<Q, Error>,
        F: FnOnce() -> Result<(PreChannel<u32>, PreChannel<u32>), Error>,
        S: FnOnce(Q, MsgBuffer) -> Result<(), Error>,
     {
        &&& self.name_is_valid() ==> look_up.requires((&self.bootstrap_name,))
        &&& forall|port: Q| #[trigger] look_up.ensures((&self.bootstrap_name,), Ok(port)) ==> pair.requires(())
        &&& forall|port: Q, ends: (PreChannel<u32>, PreChannel<u32>), msg: MsgBuffer|
            #![trigger pair.ensures((), Ok(ends)), send.requires((port, msg))]
            look_up.ensures((&self.bootstrap_name,), Ok(port)) && pair.ensures((), Ok(ends)) && (
            msg.inline_data@,
            msg.descriptors@,
        ) == spec_child_message(self.token@, ends.1) ==> send.requires((port, msg))
    }

    /// The parent was found by its name and told, and this is the end of the channel that is left.
    pub open spec fn joined<Q, L, F, S>(self, look_up: L, pair: F, send: S, ours: PreChannel<u32>) -> bool where
        L: FnOnce(&String) -> Result<Q, Error>,
        F: FnOnce() -> Result<(PreChannel<u32>, PreChannel<u32>), Error>,
        S: FnOnce(Q, MsgBuffer) -> Result<(), Error>,
     {
        &&& self.name_is_valid()
        &&& exists|ends: (PreChannel<u32>, PreChannel<u32>), port: Q, msg: MsgBuffer, sent: Result<(), Error>|
            #[trigger]
            parent_was_told(self, look_up, pair, send, ends, port, msg, sent) && ends.0 == ours && sent is Ok
    }

    /// The name cannot be handed to the operating system, and the error says so; or it can, and the error is that
    /// of a call that setting up the channel made.
    pub open spec fn not_joined<Q, L, F, S>(self, look_up: L, pair: F, send: S, e: Error) -> bool where
        L: FnOnce(&String) -> Result<Q, Error>,
        F: FnOnce() -> Result<(PreChannel<u32>, PreChannel<u32>), Error>,
        S: FnOnce(Q, MsgBuffer) -> Result<(), Error>,
     {
        if !self.name_is_valid() {
            e == Error::Fault(Fault::InvalidServiceName)
        } else {
            ||| look_up.ensures((&self.bootstrap_name,), Err(e))
            ||| pair.ensures((), Err(e))
            ||| exists|ends: (PreChannel<u32>, PreChannel<u32>), port: Q, msg: MsgBuffer, sent: Result<(), Error>|
                #[trigger]
                parent_was_told(self, look_up, pair, send, ends, port, msg, sent) && sent is Err && sent->Err_0 == e
        }
    }

    /// Sets up the channel with the parent. `register` has an event loop watch a port, and the other calls are those
    /// of `into_pre_channel`.
    pub fn into_channel<Q, G, L, F, S, R>(self, look_up: L, pair: F, send: S, register: R) -> (channel: Result<
        Channel<u32, G>,
        Error,
    >) where
        L: FnOnce(&String) -> Result<Q, Error>,
        F: FnOnce() -> Result<(PreChannel<u32>, PreChannel<u32>), Error>,
        S: FnOnce(Q, MsgBuffer) -> Result<(), Error>,
        R: FnOnce(&u32) -> Result<G, Error>,

        requires
            self.calls_in_order(look_up, pair, send),
            forall|ours: PreChannel<u32>| #[trigger]
                self.joined(look_up, pair, send, ours) ==> register.requires((&ours.rx,)),
        ensures
            match channel {
                Ok(c) => {
                    &&& self.joined(look_up, pair, send, PreChannel { tx: c.tx, rx: c.rx })
                    &&& register.ensures((&c.rx,), Ok(c.rx_registration))
                    &&& c.resource_transceiver == spec_transceiver(self.resource_tx, self.resource_rx)
                },
                Err(e) => {
                    ||| self.not_joined(look_up, pair, send, e)
                    ||| exists|ours: PreChannel<u32>| #[trigger]
                        self.joined(look_up, pair, send, ours) && register.ensures((&ours.rx,), Err(e))
                },
            },
    {
        match self.into_pre_channel(look_up, pair, send) {
            Ok((ours, transceiver)) => {
                let ghost ports = ours;
                assert(self.joined(look_up, pair, send, ports));
                match ours.into_agreed_channel(register, transceiver) {
                    Ok(channel) => {
                        assert(PreChannel { tx: channel.tx, rx: channel.rx } == ports);
                        Ok(channel)
                    },
                    Err(e) => Err(e),
                }
            },
            Err(e) => Err(e),
        }
    }

    /// Sets up the channel with the parent. `look_up` asks the bootstrap server for the port with a name,
    /// `pair` makes both ends of a channel, and `send` sends a message to a port.
    pub fn into_pre_channel<Q, L, F, S>(self, look_up: L, pair: F, send: S) -> (established: Result<
        (PreChannel<u32>, Option<RawResourceTransceiver>),
        Error,
    >) where
        L: FnOnce(&String) -> Result<Q, Error>,
        F: FnOnce() -> Result<(PreChannel<u32>, PreChannel<u32>), Error>,
        S: FnOnce(Q, MsgBuffer) -> Result<(), Error>,

        requires
            self.calls_in_order(look_up, pair, send),
        ensures
            match established {
                Ok((ours, transceiver)) => {
                    &&& self.joined(look_up, pair, send, ours)
                    &&& transceiver == spec_transceiver(self.resource_tx, self.resource_rx)
                },
                Err(e) => self.not_joined(look_up, pair, send, e),
            },
    {
        if has_zero_byte(&self.bootstrap_name) {
            return Err(Error::Fault(Fault::InvalidServiceName));
        }
        let init_port = match look_up(&self.bootstrap_name) {
            Ok(port) => port,
            Err(e) => return Err(e),
        };
        let (ours, theirs) = match pair() {
            Ok(pair) => pair,
            Err(e) => return Err(e),
        };
        let ghost port = init_port;
        let msg = self.message(theirs);
        let ghost passed = msg;
        let sent = send(init_port, msg);
        assert(parent_was_told(self, look_up, pair, send, (ours, theirs), port, passed, sent));
        match sent {
            Ok(_) => {},
            Err(e) => return Err(e),
        }
        Ok((ours, transceiver(self.resource_tx, self.resource_rx)))
    }
}

/// Whether a text holds a zero byte.
fn has_zero_byte(text: &String) -> (has: bool)
    ensures
        has == vstd::utf8::encode_utf8(text@).contains(0u8),
{
    let bytes = text.as_str().as_bytes_vec();
    let mut i: usize = 0;
    while i < bytes.len()
        invariant
            i <= bytes@.len(),
            bytes@ == vstd::utf8::encode_utf8(text@),
            forall|k: int| 0 <= k < i ==> bytes@[k] != 0,
        decreases bytes@.len() - i,
    {
        if bytes[i] == 0 {
            assert(bytes@.contains(0u8));
            return true;
        }
        i = i + 1;
    }
    false
}

/// The message of a child that knows the token is accepted, and the parent's ports are those of the other end
/// of the child's channel: what the child sends to, the parent receives from, and the other way round. What
/// one side sends in the way of resources, the other side receives.
pub proof fn parent_and_child_share_a_channel<C>(
    builder: ChildChannelBuilder<C>,
    metadata: ChildChannelMetadata,
    theirs: PreChannel<u32>,
    msg: MsgBuffer,
)
    requires
        metadata.resource_tx == builder.resource_rx,
        metadata.resource_rx == builder.resource_tx,
        (msg.inline_data@, msg.descriptors@) == spec_child_message(metadata.token@, theirs),
    ensures
        child_fault(msg, metadata.token@) is None,
        msg.descriptors@[0]->Port_port == Some(theirs.tx),
        msg.descriptors@[1]->Port_port == Some(theirs.rx),
        match (
            spec_transceiver(builder.resource_tx, builder.resource_rx),
            spec_transceiver(metadata.resource_tx, metadata.resource_rx),
        ) {
            (
                Some(RawResourceTransceiver::Mach { tx, rx }),
                Some(RawResourceTransceiver::Mach { tx: child_tx, rx: child_rx }),
            ) => tx == child_rx && rx == child_tx,
            (None, None) => true,
            _ => false,
        },
{
}

/// The message of a process that does not know the token is not accepted.
pub proof fn stranger_is_turned_away(msg: MsgBuffer, token: Seq<u8>)
    requires
        msg.inline_data@ != token,
    ensures
        child_fault(msg, token) == Some(Fault::TokenMismatch),
{
}

} // verus!
