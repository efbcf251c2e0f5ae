//! Channels between processes.
//!
//! A channel is first set up with a child process, or under a name. Further channels are set up by making
//! both ends of one and sending the ends to where they are needed, over channels that exist already.

use crate::error::Error;
use crate::ser::BincodeDatagram;
use crate::step::Reply;
use crate::unix::channel as platform;
use crate::unix::fd::{clear_cloexec, CloexecGuard, FlagChange, ScopedFd};
use vstd::prelude::*;

verus! {

/// A channel of messages of up to a certain size. `S` is a socket that an event loop watches.
#[derive(Debug)]
pub struct MessageChannel<S> {
    pub inner: BincodeDatagram<platform::MessageChannel<S>>,
    pub max_message_size: usize,
}

/// What a child process needs to know to take part in a channel of messages. It is passed to the child by
/// way of its arguments or its environment.
#[derive(Clone, Copy, PartialEq, Eq, Structural, Debug)]
pub struct ChildMessageChannel {
    pub inner: platform::ChildMessageChannel,
    pub max_message_size: usize,
}

/// A channel of messages that another process can connect to by its name.
#[derive(Debug)]
pub struct NamedMessageChannel {
    pub inner: platform::NamedMessageChannel,
    pub max_message_size: usize,
}

/// One end of a channel of messages, which can be sent to another process.
#[derive(PartialEq, Eq, Structural, Debug)]
pub struct PreMessageChannel {
    pub inner: platform::PreMessageChannel,
    pub max_message_size: usize,
}

/// A channel of packets. It can be made into a channel of messages.
#[derive(Debug)]
pub struct RawMessageChannel<S> {
    pub inner: platform::MessageChannel<S>,
}

/// What a child process needs to know to take part in a channel of packets.
#[derive(Clone, Copy, PartialEq, Eq, Structural, Debug)]
pub struct ChildRawMessageChannel(pub platform::ChildMessageChannel);

/// One end of a channel of packets, which can be sent to another process.
#[derive(PartialEq, Eq, Structural, Debug)]
pub struct PreRawMessageChannel(pub platform::PreMessageChannel);

/// Stands for a process. It is needed to send resources of the operating system to that process.
#[derive(PartialEq, Eq, Structural, Debug)]
pub struct ProcessToken(pub platform::ProcessHandle);

/// Stands for a process, like a token.
#[derive(PartialEq, Eq, Structural, Debug)]
pub struct ProcessHandle(pub platform::ProcessHandle);

impl<S> MessageChannel<S> {
    /// The channel is over this socket, takes messages of this size, is sealed or not, and was not used yet.
    pub open spec fn unused(&self, socket: S, max_message_size: usize, sealed: bool) -> bool {
        &&& self.max_message_size == max_message_size
        &&& self.inner.io.socket == socket
        &&& self.inner.io.sealed == sealed
        &&& self.inner.io.valid()
        &&& self.inner.rx_buffer@ == Seq::new(max_message_size as nat, |i: int| 0u8)
        &&& self.inner.tx_buffer@ == Seq::new(max_message_size as nat, |i: int| 0u8)
        &&& self.inner.buffered_send is None
    }

    /// Both ends of a channel over a pair of sockets. `register` has an event loop watch a socket.
    pub fn pair<R: Fn(ScopedFd) -> Result<S, Error>>(
        sockets: Result<(ScopedFd, ScopedFd), Error>,
        register: R,
        max_message_size: usize,
    ) -> (pair: Result<(MessageChannel<S>, MessageChannel<S>), Error>)
        requires
            sockets matches Ok((a, b)) ==> {
                &&& register.requires((a,))
                &&& forall|socket: S| #[trigger] register.ensures((a,), Ok(socket)) ==> register.requires((b,))
            },
        ensures
            match (sockets, pair) {
                (Err(e), _) => pair == Err::<(MessageChannel<S>, MessageChannel<S>), Error>(e),
                (Ok((a, b)), Ok((left, right))) => {
                    &&& register.ensures((a,), Ok(left.inner.io.socket))
                    &&& register.ensures((b,), Ok(right.inner.io.socket))
                    &&& left.unused(left.inner.io.socket, max_message_size, false)
                    &&& right.unused(right.inner.io.socket, max_message_size, false)
                },
                (Ok((a, b)), Err(e)) => register.ensures((a,), Err(e)) || register.ensures((b,), Err(e)),
            },
    {
        match platform::MessageChannel::pair(sockets, register) {
            Ok((a, b)) => Ok(
                (
                    MessageChannel { inner: BincodeDatagram::wrap(a, max_message_size), max_message_size },
                    MessageChannel { inner: BincodeDatagram::wrap(b, max_message_size), max_message_size },
                ),
            ),
            Err(e) => Err(e),
        }
    }

    /// A channel of messages on top of a channel of packets.
    pub fn from_raw(channel: RawMessageChannel<S>, max_message_size: usize) -> (message_channel: Result<
        MessageChannel<S>,
        Error,
    >)
        requires
            channel.inner.valid(),
        ensures
            message_channel matches Ok(m) && m.inner.io == channel.inner && m.unused(
                channel.inner.socket,
                max_message_size,
                channel.inner.sealed,
            ),
    {
        Ok(MessageChannel { inner: BincodeDatagram::wrap(channel.inner, max_message_size), max_message_size })
    }

    /// Hands this end of a channel to a child process. Its socket stays open across the launch.
    ///
    /// `descriptor` gives the descriptor of a socket, `change_flags` carries out a change of flags, and
    /// `transmit_and_launch` launches the child and has it told about its end of the channel.
    pub fn send_to_child<T, D, C, L>(self, descriptor: D, change_flags: C, transmit_and_launch: L) -> (child: Result<
        T,
        Error,
    >) where
        D: FnOnce(&S) -> i32,
        C: Fn(FlagChange) -> Result<(), Error>,
        L: FnOnce(&ChildMessageChannel) -> Result<T, Error>,

        requires
            descriptor.requires((&self.inner.io.socket,)),
            forall|fd: i32| #[trigger]
                descriptor.ensures((&self.inner.io.socket,), fd) ==> change_flags.requires(
                    (FlagChange::Read { fd, close_on_exec: false },),
                ),
            forall|fd: i32, cleared: Result<(), Error>| #[trigger]
                change_flags.ensures((FlagChange::Read { fd, close_on_exec: false },), cleared)
                    ==> transmit_and_launch.requires((&self.child_end(fd),)),
            forall|fd: i32, launched: Result<T, Error>| #[trigger]
                transmit_and_launch.ensures((&self.child_end(fd),), launched) ==> change_flags.requires(
                    (FlagChange::Read { fd, close_on_exec: true },),
                ),
        ensures
            exists|fd: i32| #[trigger]
                descriptor.ensures((&self.inner.io.socket,), fd) && platform::kept_open(fd, change_flags)
                    && transmit_and_launch.ensures((&self.child_end(fd),), child),
    {
        let fd: i32 = descriptor(&self.inner.io.socket);
        let channel = ChildMessageChannel {
            inner: platform::ChildMessageChannel { fd },
            max_message_size: self.max_message_size,
        };
        let cleared = change_flags(clear_cloexec(fd));
        assert(change_flags.ensures((FlagChange::Read { fd, close_on_exec: false },), cleared));
        let guard = CloexecGuard::new(&fd, cleared);
        assert(channel == self.child_end(fd));
        let child = transmit_and_launch(&channel);
        assert(transmit_and_launch.ensures((&self.child_end(fd),), child));
        platform::restore(guard, change_flags);
        child
    }

    /// What a child needs to know to take over this end of the channel, whose socket has this descriptor.
    pub open spec fn child_end(&self, fd: i32) -> ChildMessageChannel {
        ChildMessageChannel {
            inner: platform::ChildMessageChannel { fd },
            max_message_size: self.max_message_size,
        }
    }

    /// Establishes a channel with a child process. The child inherits the second of a pair of sockets.
    ///
    /// `change_flags` carries out a change of flags, `transmit_and_launch` launches the child and has it
    /// told about its end of the channel, and `register` has an event loop watch a socket.
    pub fn establish_with_child<T, C, L, R>(
        sockets: Result<(ScopedFd, ScopedFd), Error>,
        max_message_size: usize,
        change_flags: C,
        transmit_and_launch: L,
        register: R,
    ) -> (established: Result<(MessageChannel<S>, T), Error>) where
        C: Fn(FlagChange) -> Result<(), Error>,
        L: FnOnce(&ChildMessageChannel) -> Result<T, Error>,
        R: FnOnce(ScopedFd) -> Result<S, Error>,

        requires
            sockets matches Ok((a, b)) ==> {
                let channel = ChildMessageChannel {
                    inner: platform::ChildMessageChannel { fd: b.0 },
                    max_message_size,
                };
                &&& change_flags.requires((FlagChange::Read { fd: b.0, close_on_exec: false },))
                &&& forall|cleared: Result<(), Error>| #[trigger]
                    change_flags.ensures((FlagChange::Read { fd: b.0, close_on_exec: false },), cleared)
                        ==> transmit_and_launch.requires((&channel,))
                &&& forall|launched: Result<T, Error>| #[trigger]
                    transmit_and_launch.ensures((&channel,), launched) ==> {
                        &&& change_flags.requires((FlagChange::Read { fd: b.0, close_on_exec: true },))
                        &&& launched is Ok ==> register.requires((a,))
                    }
            },
        ensures
            match sockets {
                Err(e) => established == Err::<(MessageChannel<S>, T), Error>(e),
                Ok((a, b)) => platform::kept_open(b.0, change_flags) && exists|launched: Result<T, Error>| #[trigger]
                    transmit_and_launch.ensures(
                        (
                            &ChildMessageChannel {
                                inner: platform::ChildMessageChannel { fd: b.0 },
                                max_message_size,
                            },
                        ),
                        launched,
                    ) && match (launched, established) {
                        (Err(e), _) => established == Err::<(MessageChannel<S>, T), Error>(e),
                        (Ok(t), Ok((channel, returned))) => {
                            &&& returned == t
                            &&& register.ensures((a,), Ok(channel.inner.io.socket))
                            &&& channel.unused(channel.inner.io.socket, max_message_size, false)
                        },
                        (Ok(_), Err(e)) => register.ensures((a,), Err(e)),
                    },
            },
    {
        let launch = |inner: platform::ChildMessageChannel| -> (launched: Result<(platform::ProcessHandle, T), Error>)
            requires
                transmit_and_launch.requires((&ChildMessageChannel { inner, max_message_size },)),
            ensures
                match launched {
                    Ok((_, t)) => transmit_and_launch.ensures(
                        (&ChildMessageChannel { inner, max_message_size },),
                        Ok(t),
                    ),
                    Err(e) => transmit_and_launch.ensures((&ChildMessageChannel { inner, max_message_size },), Err(e)),
                },
        {
            match transmit_and_launch(&ChildMessageChannel { inner, max_message_size }) {
                Ok(t) => Ok((platform::ProcessHandle {  }, t)),
                Err(e) => Err(e),
            }
        };
        match platform::MessageChannel::establish_with_child_custom(sockets, change_flags, launch, register) {
            Ok((channel, t)) => Ok(
                (MessageChannel { inner: BincodeDatagram::wrap(channel, max_message_size), max_message_size }, t),
            ),
            Err(e) => Err(e),
        }
    }
}

impl ChildMessageChannel {
    /// The child's end of the channel. `register` has an event loop watch a socket.
    pub fn into_channel<S, R: FnOnce(ScopedFd) -> Result<S, Error>>(self, register: R) -> (channel: Result<
        MessageChannel<S>,
        Error,
    >)
        requires
            register.requires((ScopedFd(self.inner.fd),)),
        ensures
            match channel {
                Ok(c) => register.ensures((ScopedFd(self.inner.fd),), Ok(c.inner.io.socket)) && c.unused(
                    c.inner.io.socket,
                    self.max_message_size,
                    false,
                ),
                Err(e) => register.ensures((ScopedFd(self.inner.fd),), Err(e)),
            },
    {
        match self.inner.into_channel(register) {
            Ok(inner) => Ok(
                MessageChannel {
                    inner: BincodeDatagram::wrap(inner, self.max_message_size),
                    max_message_size: self.max_message_size,
                },
            ),
            Err(e) => Err(e),
        }
    }
}

impl NamedMessageChannel {
    /// A channel under a fresh name. The calls are those of the platform's channel under a name.
    pub fn new<P, O, C, B, L>(
        locate: P,
        path_capacity: usize,
        open: O,
        change_flags: C,
        bind: B,
        listen: L,
        max_message_size: usize,
    ) -> (channel: Result<NamedMessageChannel, platform::NamingFailure>) where
        P: FnOnce(&String) -> Vec<u8>,
        O: FnOnce() -> i32,
        C: FnOnce(FlagChange) -> Result<(), Error>,
        B: FnOnce(i32, &Vec<u8>) -> Reply,
        L: FnOnce(i32, i32) -> Reply,

        requires
            forall|file: &String| locate.requires((file,)),
            forall|file: &String, path: Vec<u8>| #[trigger]
                locate.ensures((file,), path) ==> path@.len() < path_capacity,
            open.requires(()),
            forall|socket: i32| #[trigger]
                open.ensures((), socket) ==> change_flags.requires(
                    (FlagChange::Read { fd: socket, close_on_exec: true },),
                ),
            forall|socket: i32, changed: Result<(), Error>, path: &Vec<u8>|
                #![trigger
                    change_flags.ensures((FlagChange::Read { fd: socket, close_on_exec: true },), changed),
                    bind.requires((socket, path))
                ]
                change_flags.ensures((FlagChange::Read { fd: socket, close_on_exec: true },), changed) && changed is Ok
                    ==> bind.requires((socket, path)),
            forall|socket: i32, path: &Vec<u8>, bound: Reply| #[trigger]
                bind.ensures((socket, path), bound) && bound.value >= 0 ==> listen.requires(
                    (socket, platform::LISTEN_BACKLOG),
                ),
        ensures
            platform::made_under_name(
                locate,
                path_capacity,
                open,
                change_flags,
                bind,
                listen,
                match channel {
                    Ok(c) => Ok(c.inner),
                    Err(failure) => Err(failure),
                },
            ),
            channel matches Ok(c) ==> c.max_message_size == max_message_size,
    {
        match platform::NamedMessageChannel::new(locate, path_capacity, open, change_flags, bind, listen) {
            Ok(inner) => Ok(NamedMessageChannel { inner, max_message_size }),
            Err(failure) => Err(failure),
        }
    }

    /// The name, which another process connects to.
    pub fn name(&self) -> (name: &Vec<u8>)
        ensures
            *name == self.inner.name,
    {
        self.inner.name()
    }

    /// The channel with the process that connected, on the reply to the request for its socket.
    /// `register` has an event loop watch a socket.
    pub fn accept<S, R: FnOnce(ScopedFd) -> Result<S, Error>>(self, reply: Reply, register: R) -> (channel: Result<
        MessageChannel<S>,
        Error,
    >)
        requires
            reply.value >= 0 ==> register.requires((ScopedFd(reply.value),)),
        ensures
            reply.value < 0 ==> channel == Err::<MessageChannel<S>, Error>(Error::Os(reply.errno)),
            reply.value >= 0 ==> match channel {
                Ok(c) => register.ensures((ScopedFd(reply.value),), Ok(c.inner.io.socket)) && c.unused(
                    c.inner.io.socket,
                    self.max_message_size,
                    false,
                ),
                Err(e) => register.ensures((ScopedFd(reply.value),), Err(e)),
            },
    {
        match self.inner.accept(reply, register) {
            Ok(inner) => Ok(
                MessageChannel {
                    inner: BincodeDatagram::wrap(inner, self.max_message_size),
                    max_message_size: self.max_message_size,
                },
            ),
            Err(e) => Err(e),
        }
    }

    /// The channel with the process that waits under a name. The calls are those of the platform's channel under a
    /// name.
    pub fn connect<S, O, C, N, R>(
        name: &[u8],
        path_capacity: usize,
        open: O,
        change_flags: C,
        connect: N,
        register: R,
        max_message_size: usize,
    ) -> (channel: Result<MessageChannel<S>, platform::NamingFailure>) where
        O: FnOnce() -> i32,
        C: FnOnce(FlagChange) -> Result<(), Error>,
        N: FnOnce(i32, &Vec<u8>) -> Reply,
        R: FnOnce(ScopedFd) -> Result<S, Error>,

        requires
            name@.len() < path_capacity,
            open.requires(()),
            forall|socket: i32| #[trigger]
                open.ensures((), socket) ==> change_flags.requires(
                    (FlagChange::Read { fd: socket, close_on_exec: true },),
                ),
            forall|socket: i32, changed: Result<(), Error>, path: &Vec<u8>|
                #![trigger
                    change_flags.ensures((FlagChange::Read { fd: socket, close_on_exec: true },), changed),
                    connect.requires((socket, path))
                ]
                change_flags.ensures((FlagChange::Read { fd: socket, close_on_exec: true },), changed) && changed is Ok
                    ==> connect.requires((socket, path)),
            forall|socket: i32, path: &Vec<u8>, reply: Reply| #[trigger]
                connect.ensures((socket, path), reply) && reply.value >= 0 ==> register.requires((ScopedFd(socket),)),
        ensures
            platform::made_by_name(
                name@,
                path_capacity,
                open,
                change_flags,
                connect,
                register,
                match channel {
                    Ok(c) => Ok(c.inner.io),
                    Err(failure) => Err(failure),
                },
            ),
            channel matches Ok(c) ==> c.unused(c.inner.io.socket, max_message_size, false),
    {
        match platform::NamedMessageChannel::connect(name, path_capacity, open, change_flags, connect, register) {
            Ok(inner) => Ok(MessageChannel { inner: BincodeDatagram::wrap(inner, max_message_size), max_message_size }),
            Err(failure) => Err(failure),
        }
    }
}

impl PreMessageChannel {
    /// Both ends of a channel over a pair of sockets.
    pub fn pair(sockets: Result<(ScopedFd, ScopedFd), Error>, max_message_size: usize) -> (pair: Result<
        (PreMessageChannel, PreMessageChannel),
        Error,
    >)
        ensures
            pair == match sockets {
                Ok((a, b)) => Ok::<(PreMessageChannel, PreMessageChannel), Error>(
                    (
                        PreMessageChannel { inner: platform::PreMessageChannel { fd: a }, max_message_size },
                        PreMessageChannel { inner: platform::PreMessageChannel { fd: b }, max_message_size },
                    ),
                ),
                Err(e) => Err(e),
            },
    {
        match platform::PreMessageChannel::pair(sockets) {
            Ok((a, b)) => Ok(
                (PreMessageChannel { inner: a, max_message_size }, PreMessageChannel { inner: b, max_message_size }),
            ),
            Err(e) => Err(e),
        }
    }

    /// The channel with the process that holds the other end. Only a process that is trusted more should
    /// hold such a channel to one that is trusted less.
    pub fn into_channel<S, R: FnOnce(ScopedFd) -> Result<S, Error>>(
        self,
        remote_process: ProcessHandle,
        register: R,
    ) -> (channel: Result<MessageChannel<S>, Error>)
        requires
            register.requires((self.inner.fd,)),
        ensures
            match channel {
                Ok(c) => register.ensures((self.inner.fd,), Ok(c.inner.io.socket)) && c.unused(
                    c.inner.io.socket,
                    self.max_message_size,
                    false,
                ),
                Err(e) => register.ensures((self.inner.fd,), Err(e)),
            },
    {
        match self.inner.into_channel(remote_process.0, register) {
            Ok(inner) => Ok(
                MessageChannel {
                    inner: BincodeDatagram::wrap(inner, self.max_message_size),
                    max_message_size: self.max_message_size,
                },
            ),
            Err(e) => Err(e),
        }
    }

    /// The sealed channel with whatever process holds the other end.
    ///
    /// A sealed channel cannot send resources of the operating system, but can still send data, and may receive
    /// resources if the other end is not sealed. The less trusted of two processes should hold a sealed channel.
    pub fn into_sealed_channel<S, R: FnOnce(ScopedFd) -> Result<S, Error>>(self, register: R) -> (channel: Result<
        MessageChannel<S>,
        Error,
    >)
        requires
            register.requires((self.inner.fd,)),
        ensures
            match channel {
                Ok(c) => register.ensures((self.inner.fd,), Ok(c.inner.io.socket)) && c.unused(
                    c.inner.io.socket,
                    self.max_message_size,
                    true,
                ),
                Err(e) => register.ensures((self.inner.fd,), Err(e)),
            },
    {
        match self.inner.into_sealed_channel(register) {
            Ok(inner) => Ok(
                MessageChannel {
                    inner: BincodeDatagram::wrap(inner, self.max_message_size),
                    max_message_size: self.max_message_size,
                },
            ),
            Err(e) => Err(e),
        }
    }
}

impl<S> RawMessageChannel<S> {
    /// Both ends of a channel over a pair of sockets. `register` has an event loop watch a socket.
    pub fn pair<R: Fn(ScopedFd) -> Result<S, Error>>(
        sockets: Result<(ScopedFd, ScopedFd), Error>,
        register: R,
    ) -> (pair: Result<(RawMessageChannel<S>, RawMessageChannel<S>), Error>)
        requires
            sockets matches Ok((a, b)) ==> {
                &&& register.requires((a,))
                &&& forall|socket: S| #[trigger] register.ensures((a,), Ok(socket)) ==> register.requires((b,))
            },
        ensures
            match (sockets, pair) {
                (Err(e), _) => pair == Err::<(RawMessageChannel<S>, RawMessageChannel<S>), Error>(e),
                (Ok((a, b)), Ok((left, right))) => {
                    &&& register.ensures((a,), Ok(left.inner.socket))
                    &&& register.ensures((b,), Ok(right.inner.socket))
                    &&& left.inner.valid() && !left.inner.sealed
                    &&& right.inner.valid() && !right.inner.sealed
                },
                (Ok((a, b)), Err(e)) => register.ensures((a,), Err(e)) || register.ensures((b,), Err(e)),
            },
    {
        match platform::MessageChannel::pair(sockets, register) {
            Ok((a, b)) => Ok((RawMessageChannel { inner: a }, RawMessageChannel { inner: b })),
            Err(e) => Err(e),
        }
    }

    /// Hands this end of a channel to a child process. Its socket stays open across the launch.
    ///
    /// `descriptor` gives the descriptor of a socket, `change_flags` carries out a change of flags, and
    /// `transmit_and_launch` launches the child and has it told about its end of the channel.
    pub fn send_to_child_custom<T, D, C, L>(
        self,
        descriptor: D,
        change_flags: C,
        transmit_and_launch: L,
    ) -> (child: Result<T, Error>) where
        D: FnOnce(&S) -> i32,
        C: Fn(FlagChange) -> Result<(), Error>,
        L: FnOnce(ChildRawMessageChannel) -> Result<(ProcessToken, T), Error>,

        requires
            descriptor.requires((&self.inner.socket,)),
            forall|fd: i32| #[trigger]
                descriptor.ensures((&self.inner.socket,), fd) ==> change_flags.requires(
                    (FlagChange::Read { fd, close_on_exec: false },),
                ),
            forall|fd: i32, cleared: Result<(), Error>| #[trigger]
                change_flags.ensures((FlagChange::Read { fd, close_on_exec: false },), cleared)
                    ==> transmit_and_launch.requires((ChildRawMessageChannel(platform::ChildMessageChannel { fd }),)),
            forall|fd: i32, launched: Result<(ProcessToken, T), Error>| #[trigger]
                transmit_and_launch.ensures(
                    (ChildRawMessageChannel(platform::ChildMessageChannel { fd }),),
                    launched,
                ) ==> change_flags.requires((FlagChange::Read { fd, close_on_exec: true },)),
        ensures
            exists|fd: i32, launched: Result<(ProcessToken, T), Error>|
                #![trigger
                    transmit_and_launch.ensures((ChildRawMessageChannel(platform::ChildMessageChannel { fd }),), launched)
                ]
                descriptor.ensures((&self.inner.socket,), fd) && platform::kept_open(fd, change_flags)
                    && transmit_and_launch.ensures(
                    (ChildRawMessageChannel(platform::ChildMessageChannel { fd }),),
                    launched,
                ) && child == (match launched {
                    Ok((_, t)) => Ok::<T, Error>(t),
                    Err(e) => Err(e),
                }),
    {
        let fd: i32 = descriptor(&self.inner.socket);
        let cleared = change_flags(clear_cloexec(fd));
        assert(change_flags.ensures((FlagChange::Read { fd, close_on_exec: false },), cleared));
        let guard = CloexecGuard::new(&fd, cleared);
        let launched = transmit_and_launch(ChildRawMessageChannel(platform::ChildMessageChannel { fd }));
        assert(transmit_and_launch.ensures((ChildRawMessageChannel(platform::ChildMessageChannel { fd }),), launched));
        platform::restore(guard, change_flags);
        match launched {
            Ok((_process, t)) => Ok(t),
            Err(e) => Err(e),
        }
    }

    /// Establishes a channel with a child process. The child inherits the second of a pair of sockets.
    ///
    /// `change_flags` carries out a change of flags, `transmit_and_launch` launches the child and has it
    /// told about its end of the channel, and `register` has an event loop watch a socket.
    pub fn establish_with_child_custom<T, C, L, R>(
        sockets: Result<(ScopedFd, ScopedFd), Error>,
        change_flags: C,
        transmit_and_launch: L,
        register: R,
    ) -> (established: Result<(RawMessageChannel<S>, T), Error>) where
        C: Fn(FlagChange) -> Result<(), Error>,
        L: FnOnce(ChildRawMessageChannel) -> Result<(ProcessHandle, T), Error>,
        R: FnOnce(ScopedFd) -> Result<S, Error>,

        requires
            sockets matches Ok((a, b)) ==> {
                let channel = ChildRawMessageChannel(platform::ChildMessageChannel { fd: b.0 });
                &&& change_flags.requires((FlagChange::Read { fd: b.0, close_on_exec: false },))
                &&& forall|cleared: Result<(), Error>| #[trigger]
                    change_flags.ensures((FlagChange::Read { fd: b.0, close_on_exec: false },), cleared)
                        ==> transmit_and_launch.requires((channel,))
                &&& forall|launched: Result<(ProcessHandle, T), Error>| #[trigger]
                    transmit_and_launch.ensures((channel,), launched) ==> {
                        &&& change_flags.requires((FlagChange::Read { fd: b.0, close_on_exec: true },))
                        &&& launched is Ok ==> register.requires((a,))
                    }
            },
        ensures
            match sockets {
                Err(e) => established == Err::<(RawMessageChannel<S>, T), Error>(e),
                Ok((a, b)) => platform::kept_open(b.0, change_flags) && exists|
                    launched: Result<(ProcessHandle, T), Error>,
                | #[trigger]
                    transmit_and_launch.ensures(
                        (ChildRawMessageChannel(platform::ChildMessageChannel { fd: b.0 }),),
                        launched,
                    ) && match (launched, established) {
                        (Err(e), _) => established == Err::<(RawMessageChannel<S>, T), Error>(e),
                        (Ok((_, t)), Ok((channel, returned))) => {
                            &&& returned == t
                            &&& register.ensures((a,), Ok(channel.inner.socket))
                            &&& channel.inner.valid() && !channel.inner.sealed
                        },
                        (Ok(_), Err(e)) => register.ensures((a,), Err(e)),
                    },
            },
    {
        let launch = |inner: platform::ChildMessageChannel| -> (launched: Result<(platform::ProcessHandle, T), Error>)
            requires
                transmit_and_launch.requires((ChildRawMessageChannel(inner),)),
            ensures
                match launched {
                    Ok((process, t)) => transmit_and_launch.ensures(
                        (ChildRawMessageChannel(inner),),
                        Ok((ProcessHandle(process), t)),
                    ),
                    Err(e) => transmit_and_launch.ensures((ChildRawMessageChannel(inner),), Err(e)),
                },
        {
            match transmit_and_launch(ChildRawMessageChannel(inner)) {
                Ok((process, t)) => Ok((process.0, t)),
                Err(e) => Err(e),
            }
        };
        match platform::MessageChannel::establish_with_child_custom(sockets, change_flags, launch, register) {
            Ok((channel, t)) => Ok((RawMessageChannel { inner: channel }, t)),
            Err(e) => Err(e),
        }
    }
}

impl ChildRawMessageChannel {
    /// The child's end of the channel. `register` has an event loop watch a socket.
    pub fn into_channel<S, R: FnOnce(ScopedFd) -> Result<S, Error>>(self, register: R) -> (channel: Result<
        RawMessageChannel<S>,
        Error,
    >)
        requires
            register.requires((ScopedFd(self.0.fd),)),
        ensures
            match channel {
                Ok(c) => register.ensures((ScopedFd(self.0.fd),), Ok(c.inner.socket)) && c.inner.valid()
                    && !c.inner.sealed,
                Err(e) => register.ensures((ScopedFd(self.0.fd),), Err(e)),
            },
    {
        match self.0.into_channel(register) {
            Ok(inner) => Ok(RawMessageChannel { inner }),
            Err(e) => Err(e),
        }
    }
}

impl PreRawMessageChannel {
    /// Both ends of a channel over a pair of sockets.
    pub fn pair(sockets: Result<(ScopedFd, ScopedFd), Error>) -> (pair: Result<
        (PreRawMessageChannel, PreRawMessageChannel),
        Error,
    >)
        ensures
            pair == match sockets {
                Ok((a, b)) => Ok::<(PreRawMessageChannel, PreRawMessageChannel), Error>(
                    (
                        PreRawMessageChannel(platform::PreMessageChannel { fd: a }),
                        PreRawMessageChannel(platform::PreMessageChannel { fd: b }),
                    ),
                ),
                Err(e) => Err(e),
            },
    {
        match platform::PreMessageChannel::pair(sockets) {
            Ok((a, b)) => Ok((PreRawMessageChannel(a), PreRawMessageChannel(b))),
            Err(e) => Err(e),
        }
    }

    /// The channel with the process that holds the other end.
    pub fn into_channel<S, R: FnOnce(ScopedFd) -> Result<S, Error>>(
        self,
        remote_process: ProcessToken,
        register: R,
    ) -> (channel: Result<RawMessageChannel<S>, Error>)
        requires
            register.requires((self.0.fd,)),
        ensures
            match channel {
                Ok(c) => register.ensures((self.0.fd,), Ok(c.inner.socket)) && c.inner.valid() && !c.inner.sealed,
                Err(e) => register.ensures((self.0.fd,), Err(e)),
            },
    {
        match self.0.into_channel(remote_process.0, register) {
            Ok(inner) => Ok(RawMessageChannel { inner }),
            Err(e) => Err(e),
        }
    }

    /// The channel with the process that holds the other end. Only a process that is trusted more should
    /// hold such a channel to one that is trusted less.
    pub fn into_raw_channel<S, R: FnOnce(ScopedFd) -> Result<S, Error>>(
        self,
        remote_process: ProcessHandle,
        register: R,
    ) -> (channel: Result<RawMessageChannel<S>, Error>)
        requires
            register.requires((self.0.fd,)),
        ensures
            match channel {
                Ok(c) => register.ensures((self.0.fd,), Ok(c.inner.socket)) && c.inner.valid() && !c.inner.sealed,
                Err(e) => register.ensures((self.0.fd,), Err(e)),
            },
    {
        self.into_channel(ProcessToken(remote_process.0), register)
    }

    /// The sealed channel with whatever process holds the other end.
    ///
    /// A sealed channel cannot send resources of the operating system, but can still send data, and may receive
    /// resources if the other end is not sealed. The less trusted of two processes should hold a sealed channel.
    pub fn into_sealed_raw_channel<S, R: FnOnce(ScopedFd) -> Result<S, Error>>(self, register: R) -> (channel: Result<
        RawMessageChannel<S>,
        Error,
    >)
        requires
            register.requires((self.0.fd,)),
        ensures
            match channel {
                Ok(c) => register.ensures((self.0.fd,), Ok(c.inner.socket)) && c.inner.valid() && c.inner.sealed,
                Err(e) => register.ensures((self.0.fd,), Err(e)),
            },
    {
        match self.0.into_sealed_channel(register) {
            Ok(inner) => Ok(RawMessageChannel { inner }),
            Err(e) => Err(e),
        }
    }
}

impl ProcessToken {
    /// The token of this process.
    pub fn current() -> (token: Result<ProcessToken, Error>)
        ensures
            token == Ok::<ProcessToken, Error>(ProcessToken(platform::ProcessHandle {  })),
    {
        match platform::ProcessHandle::current() {
            Ok(inner) => Ok(ProcessToken(inner)),
            Err(e) => Err(e),
        }
    }

    /// A copy of the token.
    pub fn clone(&self) -> (token: Result<ProcessToken, Error>)
        ensures
            token == Ok::<ProcessToken, Error>(*self),
    {
        match self.0.clone() {
            Ok(inner) => Ok(ProcessToken(inner)),
            Err(e) => Err(e),
        }
    }
}

impl ProcessHandle {
    /// The handle of this process.
    pub fn current() -> (handle: Result<ProcessHandle, Error>)
        ensures
            handle == Ok::<ProcessHandle, Error>(ProcessHandle(platform::ProcessHandle {  })),
    {
        match platform::ProcessHandle::current() {
            Ok(inner) => Ok(ProcessHandle(inner)),
            Err(e) => Err(e),
        }
    }

    /// A copy of the handle.
    pub fn clone(&self) -> (handle: Result<ProcessHandle, Error>)
        ensures
            handle == Ok::<ProcessHandle, Error>(*self),
    {
        match self.0.clone() {
            Ok(inner) => Ok(ProcessHandle(inner)),
            Err(e) => Err(e),
        }
    }
}

} // verus!
