//! Channels of packets over Unix domain sockets.
//!
//! Where sockets of sequenced packets are to be had, those are used. Where they are not, stream sockets
//! are, which keep the bounds of messages on the platform in question.

use crate::error::{Error, Fault};
use crate::identity::{hyphenated, is_random_uuid, new_socket_name};
use crate::ser::Async;
use crate::step::{Reply, Step};
use crate::unix::cmsg::{sockaddr_un, spec_sun_path, Cmsg};
use crate::unix::fd::{
    clear_cloexec, fd_cloexec, is_cloexec_flag, set_cloexec, CloexecGuard, FlagCall, FlagChange, ScopedFd,
};
use crate::unix::handles::{HandleReceiver, HandleSender, Receiving, Sending, MAX_MSG_FDS};
use vstd::prelude::*;

verus! {

/// A kind of socket.
#[derive(Clone, Copy, PartialEq, Eq, Structural, Debug)]
pub enum SocketType {
    SeqPacket,
    Stream,
}

/// The kind of socket that carries channels.
pub fn socket_type(macos: bool) -> (socket_type: SocketType)
    ensures
        socket_type == (if macos {
            SocketType::Stream
        } else {
            SocketType::SeqPacket
        }),
{
    if macos {
        SocketType::Stream
    } else {
        SocketType::SeqPacket
    }
}

/// The making of a pair of sockets: both are set to be closed when this process runs another program.
#[derive(Clone, Copy, PartialEq, Eq, Structural, Debug)]
pub enum PairSetup {
    First { first: i32, second: i32, change: FlagChange },
    Second { first: i32, second: i32, change: FlagChange },
}

/// Starts to make a pair of sockets, from what the operating system made of the request for one.
pub fn raw_socketpair(sockets: Result<(i32, i32), Error>) -> (setup: Result<PairSetup, Error>)
    ensures
        setup == match sockets {
            Ok((first, second)) => Ok::<PairSetup, Error>(
                PairSetup::First { first, second, change: FlagChange::Read { fd: first, close_on_exec: true } },
            ),
            Err(e) => Err(e),
        },
{
    match sockets {
        Ok((first, second)) => Ok(PairSetup::First { first, second, change: set_cloexec(first) }),
        Err(e) => Err(e),
    }
}

impl PairSetup {
    /// The call that is due.
    pub open spec fn spec_call(self) -> FlagCall {
        match self {
            PairSetup::First { change, .. } => change.spec_call(),
            PairSetup::Second { change, .. } => change.spec_call(),
        }
    }

    /// What comes of the making after a reply, where `flag` is the flag of sockets that are closed.
    pub open spec fn spec_reply_by(self, flag: i32, reply: Reply) -> Step<PairSetup, (ScopedFd, ScopedFd)> {
        match self {
            PairSetup::First { first, second, change } => match change.spec_reply_by(flag, reply) {
                Step::Next(change) => Step::Next(PairSetup::First { first, second, change }),
                Step::Done(Err(e)) => Step::Done(Err(e)),
                Step::Done(Ok(_)) => Step::Next(
                    PairSetup::Second { first, second, change: FlagChange::Read { fd: second, close_on_exec: true } },
                ),
            },
            PairSetup::Second { first, second, change } => match change.spec_reply_by(flag, reply) {
                Step::Next(change) => Step::Next(PairSetup::Second { first, second, change }),
                Step::Done(Err(e)) => Step::Done(Err(e)),
                Step::Done(Ok(_)) => Step::Done(Ok((ScopedFd(first), ScopedFd(second)))),
            },
        }
    }

    /// The call that is due.
    pub fn call(&self) -> (call: FlagCall)
        ensures
            call == self.spec_call(),
    {
        match self {
            PairSetup::First { change, .. } => change.call(),
            PairSetup::Second { change, .. } => change.call(),
        }
    }

    /// Moves on with the reply to the call that was due.
    pub fn reply(self, reply: Reply) -> (step: Step<PairSetup, (ScopedFd, ScopedFd)>)
        ensures
            exists|flag: i32| is_cloexec_flag(flag) && step == #[trigger] self.spec_reply_by(flag, reply),
    {
        self.reply_by(fd_cloexec(), reply)
    }

    /// Moves on with the reply to the call that was due, where `flag` is the flag of sockets that are closed.
    pub fn reply_by(self, flag: i32, reply: Reply) -> (step: Step<PairSetup, (ScopedFd, ScopedFd)>)
        ensures
            step == self.spec_reply_by(flag, reply),
    {
        match self {
            PairSetup::First { first, second, change } => match change.reply_by(flag, reply) {
                Step::Next(change) => Step::Next(PairSetup::First { first, second, change }),
                Step::Done(Err(e)) => Step::Done(Err(e)),
                Step::Done(Ok(_)) => Step::Next(PairSetup::Second { first, second, change: set_cloexec(second) }),
            },
            PairSetup::Second { first, second, change } => match change.reply_by(flag, reply) {
                Step::Next(change) => Step::Next(PairSetup::Second { first, second, change }),
                Step::Done(Err(e)) => Step::Done(Err(e)),
                Step::Done(Ok(_)) => Step::Done(Ok((ScopedFd(first), ScopedFd(second)))),
            },
        }
    }
}

/// A pair of sockets that is made without a failure takes four calls, which set both sockets to be closed
/// when this process runs another program, and change no other flag, whichever flag it is.
pub proof fn pair_is_closed_on_exec(flag: i32, first: i32, second: i32, flags: (i32, i32), replies: (Reply, Reply))
    requires
        replies.0.value != -1,
        replies.1.value != -1,
    ensures
        ({
            let start = PairSetup::First { first, second, change: FlagChange::Read { fd: first, close_on_exec: true } };
            let b = start.spec_reply_by(flag, Reply { value: flags.0, errno: 0 })->Next_0;
            let c = b.spec_reply_by(flag, replies.0)->Next_0;
            let d = c.spec_reply_by(flag, Reply { value: flags.1, errno: 0 })->Next_0;
            &&& start.spec_reply_by(flag, Reply { value: flags.0, errno: 0 }) is Next
            &&& b.spec_reply_by(flag, replies.0) is Next
            &&& c.spec_reply_by(flag, Reply { value: flags.1, errno: 0 }) is Next
            &&& d.spec_reply_by(flag, replies.1) == Step::<PairSetup, (ScopedFd, ScopedFd)>::Done(
                Ok((ScopedFd(first), ScopedFd(second))),
            )
            &&& start.spec_call() == FlagCall::Read { fd: first }
            &&& b.spec_call() == FlagCall::Write { fd: first, flags: flags.0 | flag }
            &&& c.spec_call() == FlagCall::Read { fd: second }
            &&& d.spec_call() == FlagCall::Write { fd: second, flags: flags.1 | flag }
        }),
{
}

/// A channel of packets. `S` is a socket that an event loop watches.
#[derive(Debug)]
pub struct MessageChannel<S> {
    pub socket: S,
    pub cmsg: Cmsg,
    /// No descriptors can be sent over the channel. Bytes can be, and descriptors can be received.
    pub sealed: bool,
}

/// What a child process needs to know to take part in a channel: the descriptor that it inherits.
#[derive(Clone, Copy, PartialEq, Eq, Structural, Debug)]
pub struct ChildMessageChannel {
    pub fd: i32,
}

/// One end of a channel that no event loop watches yet.
#[derive(PartialEq, Eq, Structural, Debug)]
pub struct PreMessageChannel {
    pub fd: ScopedFd,
}

/// Stands for a process. Nothing needs to be known about it here.
#[derive(PartialEq, Eq, Structural, Debug)]
pub struct ProcessHandle {}

/// The flags of a descriptor were changed for it to stay open across a launch, and, if that went well, changed back
/// afterwards.
pub open spec fn kept_open<C: Fn(FlagChange) -> Result<(), Error>>(fd: i32, change_flags: C) -> bool {
    exists|cleared: Result<(), Error>| #[trigger]
        change_flags.ensures((FlagChange::Read { fd, close_on_exec: false },), cleared) && (cleared is Ok ==> exists|
            restored: Result<(), Error>,
        | #[trigger] change_flags.ensures((FlagChange::Read { fd, close_on_exec: true },), restored))
}

/// Gives up the guard of a descriptor, if there is one. That the flags could not be changed back is left
/// unnoticed.
pub(crate) fn restore<C: Fn(FlagChange) -> Result<(), Error>>(guard: Result<CloexecGuard, Error>, change_flags: C)
    requires
        guard matches Ok(g) ==> change_flags.requires((FlagChange::Read { fd: g.0, close_on_exec: true },)),
    ensures
        guard matches Ok(g) ==> exists|restored: Result<(), Error>| #[trigger]
            change_flags.ensures((FlagChange::Read { fd: g.0, close_on_exec: true },), restored),
{
    match guard {
        Ok(guard) => {
            let _restored = change_flags(guard.release());
        },
        Err(_) => {},
    }
}

impl<S> MessageChannel<S> {
    /// The control message has room for as many descriptors as a message carries.
    pub open spec fn valid(&self) -> bool {
        &&& self.cmsg.valid()
        &&& self.cmsg.capacity() == MAX_MSG_FDS
    }

    /// A channel over a socket that an event loop was asked to watch.
    pub fn with_socket(socket: Result<S, Error>) -> (channel: Result<MessageChannel<S>, Error>)
        ensures
            match socket {
                Ok(s) => channel matches Ok(c) && c.socket == s && !c.sealed && c.valid() && c.cmsg.count()
                    == MAX_MSG_FDS,
                Err(e) => channel == Err::<MessageChannel<S>, Error>(e),
            },
    {
        match socket {
            Ok(socket) => Ok(MessageChannel { socket, cmsg: Cmsg::new(MAX_MSG_FDS), sealed: false }),
            Err(e) => Err(e),
        }
    }

    /// Both ends of a channel over a pair of sockets. `register` has an event loop watch a socket.
    pub fn pair<R: Fn(ScopedFd) -> Result<S, Error>>(
        sockets: Result<(ScopedFd, ScopedFd), Error>,
        register: R,
    ) -> (pair: Result<(MessageChannel<S>, MessageChannel<S>), Error>)
        requires
            sockets matches Ok((a, b)) ==> {
                &&& register.requires((a,))
                &&& forall|socket: S| #[trigger] register.ensures((a,), Ok(socket)) ==> register.requires((b,))
            },
        ensures
            match (sockets, pair) {
                (Err(e), _) => pair == Err::<(MessageChannel<S>, MessageChannel<S>), Error>(e),
                (Ok((a, b)), Ok((left, right))) => {
                    &&& register.ensures((a,), Ok(left.socket))
                    &&& register.ensures((b,), Ok(right.socket))
                    &&& left.valid() && !left.sealed
                    &&& right.valid() && !right.sealed
                },
                (Ok((a, b)), Err(e)) => register.ensures((a,), Err(e)) || register.ensures((b,), Err(e)),
            },
    {
        let (a, b) = match sockets {
            Ok(sockets) => sockets,
            Err(e) => return Err(e),
        };
        let left = match Self::with_socket(register(a)) {
            Ok(channel) => channel,
            Err(e) => return Err(e),
        };
        let right = match Self::with_socket(register(b)) {
            Ok(channel) => channel,
            Err(e) => return Err(e),
        };
        Ok((left, right))
    }

    /// Establishes a channel with a child process. The child inherits the second of a pair of sockets,
    /// which stays open across the launch.
    ///
    /// `change_flags` carries out a change of flags, `transmit_and_launch` launches the child and has it
    /// told about its end of the channel, and `register` has an event loop watch a socket. That the
    /// flags of the second socket could not be changed does not stop the launch.
    pub fn establish_with_child_custom<T, C, L, R>(
        sockets: Result<(ScopedFd, ScopedFd), Error>,
        change_flags: C,
        transmit_and_launch: L,
        register: R,
    ) -> (established: Result<(MessageChannel<S>, T), Error>) where
        C: Fn(FlagChange) -> Result<(), Error>,
        L: FnOnce(ChildMessageChannel) -> Result<(ProcessHandle, T), Error>,
        R: FnOnce(ScopedFd) -> Result<S, Error>,

        requires
            sockets matches Ok((a, b)) ==> {
                &&& change_flags.requires((FlagChange::Read { fd: b.0, close_on_exec: false },))
                &&& forall|cleared: Result<(), Error>| #[trigger]
                    change_flags.ensures((FlagChange::Read { fd: b.0, close_on_exec: false },), cleared)
                        ==> transmit_and_launch.requires((ChildMessageChannel { fd: b.0 },))
                &&& forall|launched: Result<(ProcessHandle, T), Error>| #[trigger]
                    transmit_and_launch.ensures((ChildMessageChannel { fd: b.0 },), launched) ==> {
                        &&& change_flags.requires((FlagChange::Read { fd: b.0, close_on_exec: true },))
                        &&& launched is Ok ==> register.requires((a,))
                    }
            },
        ensures
            match sockets {
                Err(e) => established == Err::<(MessageChannel<S>, T), Error>(e),
                Ok((a, b)) => kept_open(b.0, change_flags) && exists|
                    launched: Result<(ProcessHandle, T), Error>,
                | #[trigger]
                    transmit_and_launch.ensures((ChildMessageChannel { fd: b.0 },), launched) && match (
                        launched,
                        established,
                    ) {
                        (Err(e), _) => established == Err::<(MessageChannel<S>, T), Error>(e),
                        (Ok((_, t)), Ok((channel, returned))) => returned == t && register.ensures(
                            (a,),
                            Ok(channel.socket),
                        ) && channel.valid() && !channel.sealed,
                        (Ok(_), Err(e)) => register.ensures((a,), Err(e)),
                    },
            },
    {
        let (a, b) = match sockets {
            Ok(sockets) => sockets,
            Err(e) => return Err(e),
        };
        let cleared = change_flags(clear_cloexec(b.0));
        assert(change_flags.ensures((FlagChange::Read { fd: b.0, close_on_exec: false },), cleared));
        let guard = CloexecGuard::new(&b.0, cleared);
        let launched = transmit_and_launch(ChildMessageChannel { fd: b.0 });
        assert(transmit_and_launch.ensures((ChildMessageChannel { fd: b.0 },), launched));
        let established = match launched {
            Ok((_process, t)) => match Self::with_socket(register(a)) {
                Ok(channel) => Ok((channel, t)),
                Err(e) => Err(e),
            },
            Err(e) => Err(e),
        };
        restore(guard, change_flags);
        established
    }
}

/// The reply to a request to send or receive a packet: the number of bytes, which is negative if it
/// failed, the error number that belongs to a failure, and whether that is the one which says that the
/// request would have had to wait.
#[derive(Clone, Copy, PartialEq, Eq, Structural, Debug)]
pub struct TransferReply {
    pub result: isize,
    pub errno: i32,
    pub would_block: bool,
}

/// What a transfer comes to, on the reply to it.
pub open spec fn spec_transferred(reply: TransferReply) -> Result<usize, Error> {
    if reply.result >= 0 {
        Ok(reply.result as usize)
    } else {
        Err(Error::Os(reply.errno))
    }
}

/// What a transfer comes to, on whether the socket was ready for it, on the reply to it, and on what came of having
/// the event loop wait for the socket again, which is asked for if the transfer would have had to wait.
pub open spec fn spec_attempted(
    ready: Result<Async<()>, Error>,
    reply: TransferReply,
    waiting: Result<(), Error>,
) -> Result<usize, Error> {
    match ready {
        Err(e) => Err(e),
        Ok(Async::NotReady) => Err(Error::Fault(Fault::NotReady)),
        Ok(Async::Ready(_)) => if reply.result < 0 && reply.would_block && waiting is Err {
            Err(waiting->Err_0)
        } else {
            spec_transferred(reply)
        },
    }
}

impl<S> MessageChannel<S> {
    /// These are the replies to the calls that send a packet with the descriptors in this control message, as far as
    /// they were made. It is the control message of the channel, and one without descriptors if the channel is
    /// sealed.
    pub open spec fn written_by<P, T, W>(
        &self,
        bytes: &[u8],
        poll_write: P,
        transmit: T,
        need_write: W,
        cmsg: &Cmsg,
        ready: Result<Async<()>, Error>,
        reply: TransferReply,
        waiting: Result<(), Error>,
    ) -> bool where
        P: FnOnce(&S) -> Result<Async<()>, Error>,
        T: FnOnce(&S, &Cmsg, &[u8]) -> TransferReply,
        W: FnOnce(&S) -> Result<(), Error>,
     {
        &&& poll_write.ensures((&self.socket,), ready)
        &&& ready matches Ok(Async::Ready(_)) ==> {
            &&& if self.sealed {
                cmsg.carried() == Seq::<i32>::empty()
            } else {
                *cmsg == self.cmsg
            }
            &&& transmit.ensures((&self.socket, cmsg, bytes), reply)
            &&& reply.result < 0 && reply.would_block ==> need_write.ensures((&self.socket,), waiting)
        }
    }

    /// Sends a packet, with the descriptors in the control message unless the channel is sealed.
    ///
    /// `poll_write` says whether the socket is ready to send, `transmit` sends bytes and a control message without
    /// waiting, and `need_write` has the event loop wait for the socket again.
    pub fn write<P, T, W>(&self, bytes: &[u8], poll_write: P, transmit: T, need_write: W) -> (written: Result<
        usize,
        Error,
    >) where
        P: FnOnce(&S) -> Result<Async<()>, Error>,
        T: FnOnce(&S, &Cmsg, &[u8]) -> TransferReply,
        W: FnOnce(&S) -> Result<(), Error>,

        requires
            self.valid(),
            poll_write.requires((&self.socket,)),
            forall|ready: Result<Async<()>, Error>, cmsg: &Cmsg|
                #![trigger poll_write.ensures((&self.socket,), ready), transmit.requires((&self.socket, cmsg, bytes))]
                poll_write.ensures((&self.socket,), ready) && ready is Ok && ready->Ok_0 is Ready
                    && cmsg.valid() ==> transmit.requires((&self.socket, cmsg, bytes)),
            forall|cmsg: &Cmsg, reply: TransferReply| #[trigger]
                transmit.ensures((&self.socket, cmsg, bytes), reply) && reply.result < 0 && reply.would_block
                    ==> need_write.requires((&self.socket,)),
        ensures
            exists|cmsg: &Cmsg, ready: Result<Async<()>, Error>, reply: TransferReply, waiting: Result<(), Error>|
                #[trigger]
                self.written_by(bytes, poll_write, transmit, need_write, cmsg, ready, reply, waiting) && written
                    == spec_attempted(ready, reply, waiting),
    {
        let ghost no_reply = TransferReply { result: 0, errno: 0, would_block: false };
        let ghost no_wait = Ok::<(), Error>(());
        let ready = poll_write(&self.socket);
        match ready {
            Ok(Async::Ready(_)) => {
                let without_descriptors = Cmsg::new(0);
                assert(without_descriptors.carried() =~= Seq::<i32>::empty());
                let cmsg = if self.sealed {
                    &without_descriptors
                } else {
                    &self.cmsg
                };
                let reply = transmit(&self.socket, cmsg, bytes);
                if reply.result < 0 && reply.would_block {
                    let waiting = need_write(&self.socket);
                    assert(self.written_by(bytes, poll_write, transmit, need_write, cmsg, ready, reply, waiting));
                    if let Err(e) = waiting {
                        return Err(e);
                    }
                }
                assert(reply.result >= 0 || !reply.would_block ==> self.written_by(
                    bytes,
                    poll_write,
                    transmit,
                    need_write,
                    cmsg,
                    ready,
                    reply,
                    no_wait,
                ));
                transferred(reply)
            },
            Ok(Async::NotReady) => {
                assert(self.written_by(
                    bytes, poll_write, transmit, need_write, &self.cmsg, ready, no_reply, no_wait,
                ));
                Err(Error::Fault(Fault::NotReady))
            },
            Err(e) => {
                assert(self.written_by(
                    bytes, poll_write, transmit, need_write, &self.cmsg, ready, no_reply, no_wait,
                ));
                Err(e)
            },
        }
    }

    /// Receives a packet into a buffer, with up to as many descriptors as a message carries.
    ///
    /// `poll_read` says whether there is something to receive, `receive` receives bytes and a control message
    /// without waiting, and `need_read` has the event loop wait for the socket again.
    pub fn read<P, T, W>(&mut self, buffer: &mut [u8], poll_read: P, receive: T, need_read: W) -> (read: Result<
        usize,
        Error,
    >) where
        P: FnOnce(&S) -> Result<Async<()>, Error>,
        T: FnOnce(&S, &mut Cmsg, &mut [u8]) -> TransferReply,
        W: FnOnce(&S) -> Result<(), Error>,

        requires
            old(self).valid(),
            poll_read.requires((&old(self).socket,)),
            forall|ready: Result<Async<()>, Error>, cmsg: &mut Cmsg, room: &mut [u8]|
                #![trigger
                    poll_read.ensures((&old(self).socket,), ready),
                    receive.requires((&old(self).socket, cmsg, room))
                ]
                poll_read.ensures((&old(self).socket,), ready) && ready is Ok && ready->Ok_0 is Ready
                    && cmsg.valid() && cmsg.capacity() == MAX_MSG_FDS ==> receive.requires(
                    (&old(self).socket, cmsg, room),
                ),
            forall|cmsg: &mut Cmsg, room: &mut [u8], reply: TransferReply| #[trigger]
                receive.ensures((&old(self).socket, cmsg, room), reply) && cmsg.valid() && cmsg.capacity()
                    == MAX_MSG_FDS ==> final(cmsg).valid() && final(cmsg).capacity() == MAX_MSG_FDS,
            forall|cmsg: &mut Cmsg, room: &mut [u8], reply: TransferReply| #[trigger]
                receive.ensures((&old(self).socket, cmsg, room), reply) && reply.result < 0 && reply.would_block
                    ==> need_read.requires((&old(self).socket,)),
        ensures
            final(self).valid(),
            final(self).socket == old(self).socket,
            final(self).sealed == old(self).sealed,
            exists|ready: Result<Async<()>, Error>| #[trigger]
                poll_read.ensures((&old(self).socket,), ready) && match ready {
                    Ok(Async::Ready(_)) => exists|cmsg: &mut Cmsg, room: &mut [u8], reply: TransferReply| #[trigger]
                        receive.ensures((&old(self).socket, cmsg, room), reply) && cmsg.count() == MAX_MSG_FDS
                            && cmsg.valid() && cmsg.spec_slots() == old(self).cmsg.spec_slots()
                            && cmsg.spec_header_size() == old(self).cmsg.spec_header_size() && *final(cmsg)
                            == final(self).cmsg && room@ == old(buffer)@ && final(room)@ == final(buffer)@ && (
                        if reply.result < 0 && reply.would_block {
                            exists|waiting: Result<(), Error>| #[trigger]
                                need_read.ensures((&old(self).socket,), waiting) && read == spec_attempted(
                                    ready,
                                    reply,
                                    waiting,
                                )
                        } else {
                            read == spec_transferred(reply)
                        }),
                    Ok(Async::NotReady) => {
                        &&& read == Err::<usize, Error>(Error::Fault(Fault::NotReady))
                        &&& final(self).cmsg == old(self).cmsg
                        &&& final(buffer)@ == old(buffer)@
                    },
                    Err(e) => {
                        &&& read == Err::<usize, Error>(e)
                        &&& final(self).cmsg == old(self).cmsg
                        &&& final(buffer)@ == old(buffer)@
                    },
                },
    {
        let ready = poll_read(&self.socket);
        match ready {
            Ok(Async::Ready(_)) => {
                self.cmsg.reset_fd_count();
                let reply = receive(&self.socket, &mut self.cmsg, buffer);
                if reply.result < 0 && reply.would_block {
                    if let Err(e) = need_read(&self.socket) {
                        return Err(e);
                    }
                }
                transferred(reply)
            },
            Ok(Async::NotReady) => Err(Error::Fault(Fault::NotReady)),
            Err(e) => Err(e),
        }
    }

    /// What shutting down the channel comes to.
    pub fn shutdown(&self, reply: Reply) -> (result: Result<(), Error>)
        ensures
            result == (if reply.value < 0 {
                Err::<(), Error>(Error::Os(reply.errno))
            } else {
                Ok(())
            }),
    {
        if reply.value < 0 {
            return Err(Error::Os(reply.errno));
        }
        Ok(())
    }
}

/// What a transfer comes to, on the reply to it.
fn transferred(reply: TransferReply) -> (outcome: Result<usize, Error>)
    ensures
        outcome == spec_transferred(reply),
{
    if reply.result >= 0 {
        Ok(reply.result as usize)
    } else {
        Err(Error::Os(reply.errno))
    }
}

impl ChildMessageChannel {
    /// The child's end of the channel. `register` has an event loop watch a socket.
    pub fn into_channel<S, R: FnOnce(ScopedFd) -> Result<S, Error>>(self, register: R) -> (channel: Result<
        MessageChannel<S>,
        Error,
    >)
        requires
            register.requires((ScopedFd(self.fd),)),
        ensures
            match channel {
                Ok(c) => register.ensures((ScopedFd(self.fd),), Ok(c.socket)) && c.valid() && !c.sealed,
                Err(e) => register.ensures((ScopedFd(self.fd),), Err(e)),
            },
    {
        MessageChannel::with_socket(register(ScopedFd(self.fd)))
    }
}

impl PreMessageChannel {
    /// Both ends of a channel over a pair of sockets.
    pub fn pair(sockets: Result<(ScopedFd, ScopedFd), Error>) -> (pair: Result<
        (PreMessageChannel, PreMessageChannel),
        Error,
    >)
        ensures
            pair == match sockets {
                Ok((a, b)) => Ok::<(PreMessageChannel, PreMessageChannel), Error>(
                    (PreMessageChannel { fd: a }, PreMessageChannel { fd: b }),
                ),
                Err(e) => Err(e),
            },
    {
        match sockets {
            Ok((a, b)) => Ok((PreMessageChannel { fd: a }, PreMessageChannel { fd: b })),
            Err(e) => Err(e),
        }
    }

    /// The end of the channel that goes on with the process that holds the other end.
    pub fn into_channel<S, R: FnOnce(ScopedFd) -> Result<S, Error>>(
        self,
        _remote_process: ProcessHandle,
        register: R,
    ) -> (channel: Result<MessageChannel<S>, Error>)
        requires
            register.requires((self.fd,)),
        ensures
            match channel {
                Ok(c) => register.ensures((self.fd,), Ok(c.socket)) && c.valid() && !c.sealed,
                Err(e) => register.ensures((self.fd,), Err(e)),
            },
    {
        MessageChannel::with_socket(register(self.fd))
    }

    /// The end of the channel, to be used without knowing the process that holds the other end. It is sealed: it
    /// cannot send descriptors, but can still send bytes, and may receive descriptors if the other end is not sealed.
    pub fn into_sealed_channel<S, R: FnOnce(ScopedFd) -> Result<S, Error>>(self, register: R) -> (channel: Result<
        MessageChannel<S>,
        Error,
    >)
        requires
            register.requires((self.fd,)),
        ensures
            match channel {
                Ok(c) => register.ensures((self.fd,), Ok(c.socket)) && c.valid() && c.sealed,
                Err(e) => register.ensures((self.fd,), Err(e)),
            },
    {
        match MessageChannel::with_socket(register(self.fd)) {
            Ok(channel) => Ok(MessageChannel { sealed: true, ..channel }),
            Err(e) => Err(e),
        }
    }
}

/// A sealed channel sends no descriptors. The sender of a message on it refuses every one of them, so that the
/// message has none, and no packet that is sent over it carries one. It sends bytes as an unsealed channel does that
/// has no descriptors to send, and the descriptors that came with a packet can be received.
pub proof fn sealed_channel_sends_no_descriptors<S, P, T, W>(
    channel: MessageChannel<S>,
    sender: HandleSender,
    fd: i32,
    receiver: HandleReceiver,
    index: usize,
    bytes: &[u8],
    poll_write: P,
    transmit: T,
    need_write: W,
    cmsg: &Cmsg,
    ready: Result<Async<()>, Error>,
    reply: TransferReply,
    waiting: Result<(), Error>,
) where
    P: FnOnce(&S) -> Result<Async<()>, Error>,
    T: FnOnce(&S, &Cmsg, &[u8]) -> TransferReply,
    W: FnOnce(&S) -> Result<(), Error>,

    requires
        channel.sealed,
        sender.sealed == channel.sealed,
        sender.valid(),
        receiver.fds@ == channel.cmsg.carried(),
    ensures
        sender.spec_send(fd) == Err::<Sending, Error>(Error::Fault(Fault::ChannelSealed)),
        sender.fds@ == Seq::<i32>::empty(),
        channel.written_by(bytes, poll_write, transmit, need_write, cmsg, ready, reply, waiting) && ready is Ok
            && ready->Ok_0 is Ready ==> cmsg.carried() == Seq::<i32>::empty(),
        cmsg.carried() == Seq::<i32>::empty() ==> (channel.written_by(
            bytes,
            poll_write,
            transmit,
            need_write,
            cmsg,
            ready,
            reply,
            waiting,
        ) <==> (MessageChannel { sealed: false, cmsg: *cmsg, ..channel }).written_by(
            bytes,
            poll_write,
            transmit,
            need_write,
            cmsg,
            ready,
            reply,
            waiting,
        )),
        index < channel.cmsg.carried().len() ==> receiver.spec_recv(index) == Ok::<Receiving, Error>(
            Receiving::Check { fd: channel.cmsg.carried()[index as int] },
        ),
{
}

impl ProcessHandle {
    /// The handle of this process.
    pub fn current() -> (handle: Result<ProcessHandle, Error>)
        ensures
            handle == Ok::<ProcessHandle, Error>(ProcessHandle {  }),
    {
        Ok(ProcessHandle {  })
    }

    /// A copy of the handle.
    pub fn clone(&self) -> (handle: Result<ProcessHandle, Error>)
        ensures
            handle == Ok::<ProcessHandle, Error>(*self),
    {
        Ok(ProcessHandle {  })
    }
}

/// A socket with a name that another process can connect to.
#[derive(Debug)]
pub struct NamedMessageChannel {
    pub socket: ScopedFd,
    pub name: Vec<u8>,
}

/// Why a socket with a name, or a connection to one, could not be made. The socket, if there is one here, is to be
/// closed.
#[derive(PartialEq, Eq, Structural, Debug)]
pub struct NamingFailure {
    pub error: Error,
    pub close: Option<ScopedFd>,
}

/// The number of connections that can be kept waiting for a socket with a name.
pub const LISTEN_BACKLOG: i32 = 1;

/// What becomes of a socket, on the replies to the calls that make it one with a name. The first failure
/// decides, and has the socket closed.
pub open spec fn listening(
    socket: i32,
    changed: Result<(), Error>,
    bound: Reply,
    listened: Reply,
) -> Result<ScopedFd, NamingFailure> {
    if changed is Err {
        Err(NamingFailure { error: changed->Err_0, close: Some(ScopedFd(socket)) })
    } else if bound.value < 0 {
        Err(NamingFailure { error: Error::Os(bound.errno), close: Some(ScopedFd(socket)) })
    } else if listened.value < 0 {
        Err(NamingFailure { error: Error::Os(listened.errno), close: Some(ScopedFd(socket)) })
    } else {
        Ok(ScopedFd(socket))
    }
}

/// What becomes of a socket, on the replies to the calls that connect it to one with a name. The first failure
/// decides, and leaves the socket open.
pub open spec fn connected(socket: i32, changed: Result<(), Error>, connected: Reply) -> Result<
    ScopedFd,
    NamingFailure,
> {
    if changed is Err {
        Err(NamingFailure { error: changed->Err_0, close: None })
    } else if connected.value < 0 {
        Err(NamingFailure { error: Error::Os(connected.errno), close: None })
    } else {
        Ok(ScopedFd(socket))
    }
}

impl NamedMessageChannel {
    /// Makes a socket with a fresh name and has it wait for a connection. That no socket could be opened is noticed
    /// when its flags are changed.
    ///
    /// `locate` gives the path of a file name in the directory for temporary files, `open` opens a socket,
    /// `change_flags` carries out a change of flags, `bind` gives a socket an address, whose path fills a field of
    /// `path_capacity` bytes, and `listen` has it wait for so many connections.
    pub fn new<P, O, C, B, L>(
        locate: P,
        path_capacity: usize,
        open: O,
        change_flags: C,
        bind: B,
        listen: L,
    ) -> (channel: Result<NamedMessageChannel, NamingFailure>) where
        P: FnOnce(&String) -> Vec<u8>,
        O: FnOnce() -> i32,
        C: FnOnce(FlagChange) -> Result<(), Error>,
        B: FnOnce(i32, &Vec<u8>) -> Reply,
        L: FnOnce(i32, i32) -> Reply,

        requires
            forall|file: &String| locate.requires((file,)),
            forall|file: &String, path: Vec<u8>| #[trigger]
                locate.ensures((file,), path) ==> path@.len() < path_capacity,
            open.requires(()),
            forall|socket: i32| #[trigger]
                open.ensures((), socket) ==> change_flags.requires(
                    (FlagChange::Read { fd: socket, close_on_exec: true },),
                ),
            forall|socket: i32, changed: Result<(), Error>, path: &Vec<u8>|
                #![trigger
                    change_flags.ensures((FlagChange::Read { fd: socket, close_on_exec: true },), changed),
                    bind.requires((socket, path))
                ]
                change_flags.ensures((FlagChange::Read { fd: socket, close_on_exec: true },), changed) && changed is Ok
                    ==> bind.requires((socket, path)),
            forall|socket: i32, path: &Vec<u8>, bound: Reply| #[trigger]
                bind.ensures((socket, path), bound) && bound.value >= 0 ==> listen.requires(
                    (socket, LISTEN_BACKLOG),
                ),
        ensures
            made_under_name(locate, path_capacity, open, change_flags, bind, listen, channel),
    {
        let file = new_socket_name();
        let name = locate(&file);
        assert(locate.ensures((&file,), name));
        assert(located_by(locate, name));
        let socket: i32 = open();
        let ghost unused = Reply { value: 0, errno: 0 };
        let changed = change_flags(set_cloexec(socket));
        match changed {
            Ok(_) => {},
            Err(error) => {
                assert(named_by(
                    open, change_flags, bind, listen, name@, path_capacity, socket, changed, unused, unused,
                ));
                return Err(NamingFailure { error, close: Some(ScopedFd(socket)) });
            },
        }
        let path = sockaddr_un(name.as_slice(), path_capacity);
        let bound = bind(socket, &path);
        assert(bind.ensures((socket, &path), bound));
        if bound.value < 0 {
            assert(named_by(open, change_flags, bind, listen, name@, path_capacity, socket, changed, bound, unused));
            return Err(NamingFailure { error: Error::Os(bound.errno), close: Some(ScopedFd(socket)) });
        }
        let listened = listen(socket, LISTEN_BACKLOG);
        assert(named_by(open, change_flags, bind, listen, name@, path_capacity, socket, changed, bound, listened));
        if listened.value < 0 {
            return Err(NamingFailure { error: Error::Os(listened.errno), close: Some(ScopedFd(socket)) });
        }
        Ok(NamedMessageChannel { socket: ScopedFd(socket), name })
    }

    /// The name, which another process connects to.
    pub fn name(&self) -> (name: &Vec<u8>)
        ensures
            *name == self.name,
    {
        &self.name
    }

    /// The channel with the process that connected, on the reply to the request for its socket.
    /// `register` has an event loop watch a socket.
    pub fn accept<S, R: FnOnce(ScopedFd) -> Result<S, Error>>(self, reply: Reply, register: R) -> (channel: Result<
        MessageChannel<S>,
        Error,
    >)
        requires
            reply.value >= 0 ==> register.requires((ScopedFd(reply.value),)),
        ensures
            reply.value < 0 ==> channel == Err::<MessageChannel<S>, Error>(Error::Os(reply.errno)),
            reply.value >= 0 ==> match channel {
                Ok(c) => register.ensures((ScopedFd(reply.value),), Ok(c.socket)) && c.valid() && !c.sealed,
                Err(e) => register.ensures((ScopedFd(reply.value),), Err(e)),
            },
    {
        if reply.value < 0 {
            return Err(Error::Os(reply.errno));
        }
        MessageChannel::with_socket(register(ScopedFd(reply.value)))
    }

    /// The channel with the process that waits under a name. That no socket could be opened is noticed when its flags
    /// are changed.
    ///
    /// `open` opens a socket, `change_flags` carries out a change of flags, `connect` connects a socket to an
    /// address, whose path fills a field of `path_capacity` bytes, and `register` has an event loop watch a socket.
    pub fn connect<S, O, C, N, R>(
        name: &[u8],
        path_capacity: usize,
        open: O,
        change_flags: C,
        connect: N,
        register: R,
    ) -> (channel: Result<MessageChannel<S>, NamingFailure>) where
        O: FnOnce() -> i32,
        C: FnOnce(FlagChange) -> Result<(), Error>,
        N: FnOnce(i32, &Vec<u8>) -> Reply,
        R: FnOnce(ScopedFd) -> Result<S, Error>,

        requires
            name@.len() < path_capacity,
            open.requires(()),
            forall|socket: i32| #[trigger]
                open.ensures((), socket) ==> change_flags.requires(
                    (FlagChange::Read { fd: socket, close_on_exec: true },),
                ),
            forall|socket: i32, changed: Result<(), Error>, path: &Vec<u8>|
                #![trigger
                    change_flags.ensures((FlagChange::Read { fd: socket, close_on_exec: true },), changed),
                    connect.requires((socket, path))
                ]
                change_flags.ensures((FlagChange::Read { fd: socket, close_on_exec: true },), changed) && changed is Ok
                    ==> connect.requires((socket, path)),
            forall|socket: i32, path: &Vec<u8>, reply: Reply| #[trigger]
                connect.ensures((socket, path), reply) && reply.value >= 0 ==> register.requires((ScopedFd(socket),)),
        ensures
            made_by_name(name@, path_capacity, open, change_flags, connect, register, channel),
    {
        let opened: i32 = open();
        let ghost unused = Reply { value: 0, errno: 0 };
        let changed = change_flags(set_cloexec(opened));
        match changed {
            Ok(_) => {},
            Err(error) => {
                assert(connected_by(open, change_flags, connect, name@, path_capacity, opened, changed, unused));
                return Err(NamingFailure { error, close: None });
            },
        }
        let path = sockaddr_un(name, path_capacity);
        let reply = connect(opened, &path);
        assert(connect.ensures((opened, &path), reply));
        assert(connected_by(open, change_flags, connect, name@, path_capacity, opened, changed, reply));
        if reply.value < 0 {
            return Err(NamingFailure { error: Error::Os(reply.errno), close: None });
        }
        match MessageChannel::with_socket(register(ScopedFd(opened))) {
            Ok(channel) => Ok(channel),
            Err(error) => Err(NamingFailure { error, close: None }),
        }
    }
}

/// This is the path of a fresh file name.
pub open spec fn located_by<P: FnOnce(&String) -> Vec<u8>>(locate: P, path: Vec<u8>) -> bool {
    exists|file: &String| #[trigger]
        locate.ensures((file,), path) && exists|id: u128| is_random_uuid(id) && file@ == #[trigger] hyphenated(id)
}

/// These are the replies to the calls that make a socket one with a name, as far as they were made.
pub open spec fn named_by<O, C, B, L>(
    open: O,
    change_flags: C,
    bind: B,
    listen: L,
    name: Seq<u8>,
    path_capacity: usize,
    socket: i32,
    changed: Result<(), Error>,
    bound: Reply,
    listened: Reply,
) -> bool where
    O: FnOnce() -> i32,
    C: FnOnce(FlagChange) -> Result<(), Error>,
    B: FnOnce(i32, &Vec<u8>) -> Reply,
    L: FnOnce(i32, i32) -> Reply,
 {
    &&& open.ensures((), socket)
    &&& change_flags.ensures((FlagChange::Read { fd: socket, close_on_exec: true },), changed)
    &&& changed is Ok ==> exists|path: &Vec<u8>| #[trigger]
        bind.ensures((socket, path), bound) && path@ == spec_sun_path(name, path_capacity as nat)
    &&& changed is Ok && bound.value >= 0 ==> listen.ensures((socket, LISTEN_BACKLOG), listened)
}

/// This is what came of making a socket with a fresh name.
pub open spec fn made_under_name<P, O, C, B, L>(
    locate: P,
    path_capacity: usize,
    open: O,
    change_flags: C,
    bind: B,
    listen: L,
    channel: Result<NamedMessageChannel, NamingFailure>,
) -> bool where
    P: FnOnce(&String) -> Vec<u8>,
    O: FnOnce() -> i32,
    C: FnOnce(FlagChange) -> Result<(), Error>,
    B: FnOnce(i32, &Vec<u8>) -> Reply,
    L: FnOnce(i32, i32) -> Reply,
 {
    exists|name: Vec<u8>, socket: i32, changed: Result<(), Error>, bound: Reply, listened: Reply|
        {
            &&& #[trigger] named_by(
                open,
                change_flags,
                bind,
                listen,
                name@,
                path_capacity,
                socket,
                changed,
                bound,
                listened,
            )
            &&& located_by(locate, name)
            &&& match channel {
                Ok(c) => listening(socket, changed, bound, listened) == Ok::<ScopedFd, NamingFailure>(c.socket)
                    && c.name == name,
                Err(failure) => listening(socket, changed, bound, listened) == Err::<ScopedFd, NamingFailure>(failure),
            }
        }
}

/// These are the replies to the calls that connect a socket to one with a name, as far as they were made.
pub open spec fn connected_by<O, C, N>(
    open: O,
    change_flags: C,
    connect: N,
    name: Seq<u8>,
    path_capacity: usize,
    socket: i32,
    changed: Result<(), Error>,
    reply: Reply,
) -> bool where
    O: FnOnce() -> i32,
    C: FnOnce(FlagChange) -> Result<(), Error>,
    N: FnOnce(i32, &Vec<u8>) -> Reply,
 {
    &&& open.ensures((), socket)
    &&& change_flags.ensures((FlagChange::Read { fd: socket, close_on_exec: true },), changed)
    &&& changed is Ok ==> exists|path: &Vec<u8>| #[trigger]
        connect.ensures((socket, path), reply) && path@ == spec_sun_path(name, path_capacity as nat)
}

/// This is what came of making a channel with the process that waits under a name.
pub open spec fn made_by_name<S, O, C, N, R>(
    name: Seq<u8>,
    path_capacity: usize,
    open: O,
    change_flags: C,
    connect: N,
    register: R,
    channel: Result<MessageChannel<S>, NamingFailure>,
) -> bool where
    O: FnOnce() -> i32,
    C: FnOnce(FlagChange) -> Result<(), Error>,
    N: FnOnce(i32, &Vec<u8>) -> Reply,
    R: FnOnce(ScopedFd) -> Result<S, Error>,
 {
    exists|opened: i32, changed: Result<(), Error>, reply: Reply|
        {
            &&& #[trigger] connected_by(open, change_flags, connect, name, path_capacity, opened, changed, reply)
            &&& match connected(opened, changed, reply) {
                Ok(fd) => match channel {
                    Ok(c) => register.ensures((fd,), Ok(c.socket)) && c.valid() && !c.sealed,
                    Err(failure) => register.ensures((fd,), Err(failure.error)) && failure.close is None,
                },
                Err(failure) => channel == Err::<MessageChannel<S>, NamingFailure>(failure),
            }
        }
}

} // verus!
