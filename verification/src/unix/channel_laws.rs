//! What channels over sockets do for their users, in terms of what they hand over and what they get.

use crate::error::{Error, Fault};
use crate::ser::Async;
use crate::step::{Reply, Step};
use crate::unix::channel::{
    connected_by, located_by, named_by, raw_socketpair, socket_type, ChildMessageChannel, MessageChannel,
    NamedMessageChannel, NamingFailure, PairSetup, PreMessageChannel, ProcessHandle, SocketType, TransferReply,
};
use crate::unix::cmsg::Cmsg;
use crate::unix::fd::{FlagCall, FlagChange, ScopedFd};
use vstd::prelude::*;

verus! {

/// The setup of a pair of sockets goes through the flags of the first one and then through those of the second one. It
/// gives the two sockets that it started with, in their order, and fails just where a change of flags does.
pub proof fn pair_consists_of_its_sockets(
    flag: i32,
    first: i32,
    second: i32,
    change: FlagChange,
    reply: Reply,
    setup: Result<PairSetup, Error>,
    step: Step<PairSetup, (ScopedFd, ScopedFd)>,
    call: FlagCall,
    due: FlagCall,
    changed: Step<FlagChange, ()>,
    refused: Error,
)
    ensures
        call_ensures(raw_socketpair, (Ok((first, second)),), setup) ==> setup == Ok::<PairSetup, Error>(
            PairSetup::First { first, second, change: FlagChange::Read { fd: first, close_on_exec: true } },
        ),
        call_ensures(raw_socketpair, (Err(refused),), setup) ==> setup == Err::<PairSetup, Error>(refused),
        call_ensures(FlagChange::call, (&change,), due) && (call_ensures(
            PairSetup::call,
            (&PairSetup::First { first, second, change },),
            call,
        ) || call_ensures(PairSetup::call, (&PairSetup::Second { first, second, change },), call)) ==> call == due,
        call_ensures(FlagChange::reply_by, (change, flag, reply), changed) && call_ensures(
            PairSetup::reply_by,
            (PairSetup::First { first, second, change }, flag, reply),
            step,
        ) ==> match changed {
            Step::Next(next) => step == Step::<PairSetup, (ScopedFd, ScopedFd)>::Next(
                PairSetup::First { first, second, change: next },
            ),
            Step::Done(Ok(_)) => step == Step::<PairSetup, (ScopedFd, ScopedFd)>::Next(
                PairSetup::Second { first, second, change: FlagChange::Read { fd: second, close_on_exec: true } },
            ),
            Step::Done(Err(e)) => step == Step::<PairSetup, (ScopedFd, ScopedFd)>::Done(Err(e)),
        },
        call_ensures(FlagChange::reply_by, (change, flag, reply), changed) && call_ensures(
            PairSetup::reply_by,
            (PairSetup::Second { first, second, change }, flag, reply),
            step,
        ) ==> match changed {
            Step::Next(next) => step == Step::<PairSetup, (ScopedFd, ScopedFd)>::Next(
                PairSetup::Second { first, second, change: next },
            ),
            Step::Done(Ok(_)) => step == Step::<PairSetup, (ScopedFd, ScopedFd)>::Done(
                Ok((ScopedFd(first), ScopedFd(second))),
            ),
            Step::Done(Err(e)) => step == Step::<PairSetup, (ScopedFd, ScopedFd)>::Done(Err(e)),
        },
        call_ensures(PairSetup::reply, (PairSetup::Second { first, second, change }, reply), step) && change is Write
            ==> (if reply.value == -1 {
            step == Step::<PairSetup, (ScopedFd, ScopedFd)>::Done(Err(Error::Os(reply.errno)))
        } else {
            step == Step::<PairSetup, (ScopedFd, ScopedFd)>::Done(Ok((ScopedFd(first), ScopedFd(second))))
        }),
{
}

/// Channels are carried by sockets that keep packets apart, but for the one platform that has none.
pub proof fn packets_are_kept_apart(macos: bool, kind: SocketType)
    ensures
        call_ensures(socket_type, (macos,), kind) ==> (kind == SocketType::Stream <==> macos),
{
}

/// Once the socket is ready, the very bytes that are written are handed to it, with the control message of the channel,
/// or with none of its descriptors if the channel is sealed. The result is the number of bytes that the socket took,
/// whatever that is, and the event loop waits for the socket again just where the socket would have had to.
pub proof fn packet_is_handed_to_the_socket<S, P, T, W>(
    channel: MessageChannel<S>,
    bytes: &[u8],
    poll_write: P,
    transmit: T,
    need_write: W,
    written: Result<usize, Error>,
) where
    P: FnOnce(&S) -> Result<Async<()>, Error>,
    T: FnOnce(&S, &Cmsg, &[u8]) -> TransferReply,
    W: FnOnce(&S) -> Result<(), Error>,

    requires
        call_ensures(
            MessageChannel::<S>::write::<P, T, W>,
            (&channel, bytes, poll_write, transmit, need_write),
            written,
        ),
    ensures
        exists|ready: Result<Async<()>, Error>| #[trigger]
            poll_write.ensures((&channel.socket,), ready) && match ready {
                Err(e) => written == Err::<usize, Error>(e),
                Ok(Async::NotReady) => written == Err::<usize, Error>(Error::Fault(Fault::NotReady)),
                Ok(Async::Ready(_)) => exists|cmsg: &Cmsg, reply: TransferReply| #[trigger]
                    transmit.ensures((&channel.socket, cmsg, bytes), reply) && (if channel.sealed {
                        cmsg.carried().len() == 0
                    } else {
                        *cmsg == channel.cmsg
                    }) && (if reply.result >= 0 {
                        written == Ok::<usize, Error>(reply.result as usize)
                    } else if !reply.would_block {
                        written == Err::<usize, Error>(Error::Os(reply.errno))
                    } else {
                        exists|waiting: Result<(), Error>| #[trigger]
                            need_write.ensures((&channel.socket,), waiting) && written == (match waiting {
                                Ok(_) => Err::<usize, Error>(Error::Os(reply.errno)),
                                Err(e) => Err(e),
                            })
                    }),
            },
{
    let (cmsg, ready, reply, waiting) = choose|
        cmsg: &Cmsg,
        ready: Result<Async<()>, Error>,
        reply: TransferReply,
        waiting: Result<(), Error>,
    | #[trigger]
        channel.written_by(bytes, poll_write, transmit, need_write, cmsg, ready, reply, waiting) && written
            == crate::unix::channel::spec_attempted(ready, reply, waiting);
    assert(poll_write.ensures((&channel.socket,), ready));
    if ready is Ok && ready->Ok_0 is Ready {
        assert(transmit.ensures((&channel.socket, cmsg, bytes), reply));
        if reply.result < 0 && reply.would_block {
            assert(need_write.ensures((&channel.socket,), waiting));
        }
    }
}

/// Once the socket is ready, a packet is received into the very buffer, and a control message that has room for all
/// descriptors of a message. The result is the number of bytes that the socket gave, whatever that is, and what it left
/// in the buffer and in the control message is what they hold afterwards. While it is not ready, nothing changes.
pub proof fn packet_is_taken_from_the_socket<S, P, T, W>(
    poll_read: P,
    receive: T,
    need_read: W,
    read: Result<usize, Error>,
) where
    P: FnOnce(&S) -> Result<Async<()>, Error>,
    T: FnOnce(&S, &mut Cmsg, &mut [u8]) -> TransferReply,
    W: FnOnce(&S) -> Result<(), Error>,

    ensures
        forall|channel: &mut MessageChannel<S>, buffer: &mut [u8]| #[trigger]
            call_ensures(
                MessageChannel::<S>::read::<P, T, W>,
                (channel, buffer, poll_read, receive, need_read),
                read,
            ) ==> final(channel).socket == channel.socket && final(channel).sealed == channel.sealed && exists|
                ready: Result<Async<()>, Error>,
            | #[trigger]
                poll_read.ensures((&channel.socket,), ready) && match ready {
                    Err(e) => read == Err::<usize, Error>(e) && final(channel).cmsg == channel.cmsg && final(buffer)@
                        == buffer@,
                    Ok(Async::NotReady) => read == Err::<usize, Error>(Error::Fault(Fault::NotReady))
                        && final(channel).cmsg == channel.cmsg && final(buffer)@ == buffer@,
                    Ok(Async::Ready(_)) => exists|cmsg: &mut Cmsg, room: &mut [u8], reply: TransferReply| #[trigger]
                        receive.ensures((&channel.socket, cmsg, room), reply) && room@ == buffer@ && final(room)@
                            == final(buffer)@ && *final(cmsg) == final(channel).cmsg && cmsg.count() == 32 && (
                        if reply.result >= 0 {
                            read == Ok::<usize, Error>(reply.result as usize)
                        } else if !reply.would_block {
                            read == Err::<usize, Error>(Error::Os(reply.errno))
                        } else {
                            exists|waiting: Result<(), Error>| #[trigger]
                                need_read.ensures((&channel.socket,), waiting) && read == (match waiting {
                                    Ok(_) => Err::<usize, Error>(Error::Os(reply.errno)),
                                    Err(e) => Err(e),
                                })
                        }),
                },
{
}

/// Whatever way a channel is made of a socket, it is over what watching that socket gave, can send descriptors unless
/// it is made sealed, and has room for as many descriptors as a message carries.
pub proof fn channel_is_over_its_socket<S, R, F>(
    fd: ScopedFd,
    other: ScopedFd,
    register: R,
    register_once: F,
    socket: Result<S, Error>,
    over: Result<MessageChannel<S>, Error>,
    pair: Result<(MessageChannel<S>, MessageChannel<S>), Error>,
    pre: Result<(PreMessageChannel, PreMessageChannel), Error>,
    process: ProcessHandle,
    reply: Reply,
    result: Result<(), Error>,
    channel: MessageChannel<S>,
) where R: Fn(ScopedFd) -> Result<S, Error>, F: FnOnce(ScopedFd) -> Result<S, Error>
    ensures
        call_ensures(MessageChannel::<S>::with_socket, (socket,), over) ==> (over is Ok <==> socket is Ok) && (
        over matches Ok(c) ==> c.socket == socket->Ok_0 && !c.sealed && c.cmsg.capacity() == 32) && (over matches Err(e)
            ==> e == socket->Err_0),
        call_ensures(MessageChannel::<S>::pair::<R>, (Ok((fd, other)), register), pair) ==> match pair {
            Ok((left, right)) => {
                &&& register.ensures((fd,), Ok(left.socket)) && !left.sealed && left.cmsg.capacity() == 32
                &&& register.ensures((other,), Ok(right.socket)) && !right.sealed && right.cmsg.capacity() == 32
            },
            Err(e) => register.ensures((fd,), Err(e)) || register.ensures((other,), Err(e)),
        },
        call_ensures(PreMessageChannel::pair, (Ok((fd, other)),), pre) ==> (pre matches Ok((left, right)) && left.fd
            == fd && right.fd == other),
        call_ensures(
            PreMessageChannel::into_channel::<S, F>,
            (PreMessageChannel { fd }, process, register_once),
            over,
        ) ==> match over {
            Ok(c) => register_once.ensures((fd,), Ok(c.socket)) && !c.sealed && c.cmsg.capacity() == 32,
            Err(e) => register_once.ensures((fd,), Err(e)),
        },
        call_ensures(PreMessageChannel::into_sealed_channel::<S, F>, (PreMessageChannel { fd }, register_once), over)
            ==> match over {
            Ok(c) => register_once.ensures((fd,), Ok(c.socket)) && c.sealed && c.cmsg.capacity() == 32,
            Err(e) => register_once.ensures((fd,), Err(e)),
        },
        call_ensures(ChildMessageChannel::into_channel::<S, F>, (ChildMessageChannel { fd: fd.0 }, register_once), over)
            ==> match over {
            Ok(c) => register_once.ensures((fd,), Ok(c.socket)) && !c.sealed && c.cmsg.capacity() == 32,
            Err(e) => register_once.ensures((fd,), Err(e)),
        },
        call_ensures(MessageChannel::<S>::shutdown, (&channel, reply), result) ==> (result is Ok <==> reply.value >= 0)
            && (result matches Err(e) ==> e == Error::Os(reply.errno)),
{
}

/// The child is told of the second socket, which is set to stay open before and to be closed again afterwards, and the
/// parent goes on with the first one. What launching the child gave is handed back.
pub proof fn child_inherits_the_second_socket<S, T, C, L, R>(
    first: ScopedFd,
    second: ScopedFd,
    change_flags: C,
    transmit_and_launch: L,
    register: R,
    established: Result<(MessageChannel<S>, T), Error>,
) where
    C: Fn(FlagChange) -> Result<(), Error>,
    L: FnOnce(ChildMessageChannel) -> Result<(ProcessHandle, T), Error>,
    R: FnOnce(ScopedFd) -> Result<S, Error>,

    requires
        call_ensures(
            MessageChannel::<S>::establish_with_child_custom::<T, C, L, R>,
            (Ok((first, second)), change_flags, transmit_and_launch, register),
            established,
        ),
    ensures
        exists|cleared: Result<(), Error>| #[trigger]
            change_flags.ensures((FlagChange::Read { fd: second.0, close_on_exec: false },), cleared) && (cleared is Ok
                ==> exists|restored: Result<(), Error>| #[trigger]
                change_flags.ensures((FlagChange::Read { fd: second.0, close_on_exec: true },), restored)),
        exists|launched: Result<(ProcessHandle, T), Error>| #[trigger]
            transmit_and_launch.ensures((ChildMessageChannel { fd: second.0 },), launched) && match established {
                Ok((channel, t)) => (launched matches Ok((_, given)) && given == t) && register.ensures(
                    (first,),
                    Ok(channel.socket),
                ) && !channel.sealed,
                Err(e) => launched == Err::<(ProcessHandle, T), Error>(e) || (launched is Ok && register.ensures(
                    (first,),
                    Err(e),
                )),
            },
{
}

/// A socket with a name was opened, set to be closed, given the path of its name with zeros behind it, and made to wait
/// for one connection, all of which went well. Where one of these fails, the socket is closed.
pub proof fn named_socket_waits_under_its_name<P, O, C, B, L>(
    locate: P,
    capacity: usize,
    open: O,
    change_flags: C,
    bind: B,
    listen: L,
    channel: Result<NamedMessageChannel, NamingFailure>,
) where
    P: FnOnce(&String) -> Vec<u8>,
    O: FnOnce() -> i32,
    C: FnOnce(FlagChange) -> Result<(), Error>,
    B: FnOnce(i32, &Vec<u8>) -> Reply,
    L: FnOnce(i32, i32) -> Reply,

    requires
        call_ensures(
            NamedMessageChannel::new::<P, O, C, B, L>,
            (locate, capacity, open, change_flags, bind, listen),
            channel,
        ),
    ensures
        channel matches Ok(c) ==> {
            &&& open.ensures((), c.socket.0)
            &&& exists|file: &String| #[trigger] locate.ensures((file,), c.name)
            &&& exists|changed: Result<(), Error>| #[trigger]
                change_flags.ensures((FlagChange::Read { fd: c.socket.0, close_on_exec: true },), changed) && changed is Ok
            &&& exists|path: &Vec<u8>, bound: Reply| #[trigger]
                bind.ensures((c.socket.0, path), bound) && bound.value >= 0 && (c.name@.len() < capacity ==> path@.len()
                    == capacity && (forall|k: int| 0 <= k < c.name@.len() ==> path@[k] == c.name@[k]) && (forall|k: int|
                    c.name@.len() <= k < capacity ==> path@[k] == 0))
            &&& exists|listened: Reply| #[trigger] listen.ensures((c.socket.0, 1), listened) && listened.value >= 0
        },
        channel matches Err(failure) ==> (failure.close matches Some(socket) && open.ensures((), socket.0) && (
        change_flags.ensures((FlagChange::Read { fd: socket.0, close_on_exec: true },), Err(failure.error)) || exists|
            path: &Vec<u8>,
            bound: Reply,
        | #[trigger]
            bind.ensures((socket.0, path), bound) && (if bound.value < 0 {
                failure.error == Error::Os(bound.errno)
            } else {
                exists|listened: Reply| #[trigger]
                    listen.ensures((socket.0, 1), listened) && listened.value < 0 && failure.error == Error::Os(
                        listened.errno,
                    )
            }))),
{
    let (name, socket, changed, bound, listened) = choose|
        name: Vec<u8>,
        socket: i32,
        changed: Result<(), Error>,
        bound: Reply,
        listened: Reply,
    |
        {
            &&& #[trigger] named_by(
                open,
                change_flags,
                bind,
                listen,
                name@,
                capacity,
                socket,
                changed,
                bound,
                listened,
            )
            &&& located_by(locate, name)
            &&& match channel {
                Ok(c) => crate::unix::channel::listening(socket, changed, bound, listened) == Ok::<
                    ScopedFd,
                    NamingFailure,
                >(c.socket) && c.name == name,
                Err(failure) => crate::unix::channel::listening(socket, changed, bound, listened) == Err::<
                    ScopedFd,
                    NamingFailure,
                >(failure),
            }
        };
    assert(open.ensures((), socket));
    if changed is Ok {
        let path = choose|path: &Vec<u8>| #[trigger]
            bind.ensures((socket, path), bound) && path@ == crate::unix::cmsg::spec_sun_path(name@, capacity as nat);
        assert(bind.ensures((socket, path), bound));
        if bound.value >= 0 {
            assert(listen.ensures((socket, 1), listened));
        }
    }
}

/// A channel that is connected to a name is over a socket that was opened, set to be closed, and connected to the path
/// of that name with zeros behind it: the very address that a socket which waits under that name was given.
pub proof fn connection_goes_to_the_name<S, O, C, N, R>(
    name: &[u8],
    capacity: usize,
    open: O,
    change_flags: C,
    connect: N,
    register: R,
    channel: Result<MessageChannel<S>, NamingFailure>,
) where
    O: FnOnce() -> i32,
    C: FnOnce(FlagChange) -> Result<(), Error>,
    N: FnOnce(i32, &Vec<u8>) -> Reply,
    R: FnOnce(ScopedFd) -> Result<S, Error>,

    requires
        name@.len() < capacity,
        call_ensures(
            NamedMessageChannel::connect::<S, O, C, N, R>,
            (name, capacity, open, change_flags, connect, register),
            channel,
        ),
    ensures
        exists|socket: i32| #[trigger]
            open.ensures((), socket) && (match channel {
                Ok(c) => {
                    &&& exists|changed: Result<(), Error>| #[trigger]
                        change_flags.ensures((FlagChange::Read { fd: socket, close_on_exec: true },), changed)
                            && changed is Ok
                    &&& exists|path: &Vec<u8>, reply: Reply| #[trigger]
                        connect.ensures((socket, path), reply) && reply.value >= 0 && path@.len() == capacity && (
                        forall|k: int| 0 <= k < name@.len() ==> path@[k] == name@[k]) && (forall|k: int|
                            name@.len() <= k < capacity ==> path@[k] == 0)
                    &&& register.ensures((ScopedFd(socket),), Ok(c.socket))
                    &&& !c.sealed
                },
                Err(failure) => {
                    &&& failure.close is None
                    &&& {
                        ||| change_flags.ensures(
                            (FlagChange::Read { fd: socket, close_on_exec: true },),
                            Err(failure.error),
                        )
                        ||| register.ensures((ScopedFd(socket),), Err(failure.error))
                        ||| exists|path: &Vec<u8>, reply: Reply| #[trigger]
                            connect.ensures((socket, path), reply) && reply.value < 0 && failure.error == Error::Os(
                                reply.errno,
                            )
                    }
                },
            }),
{
    let (socket, changed, reply) = choose|opened: i32, changed: Result<(), Error>, reply: Reply|
        {
            &&& #[trigger] connected_by(open, change_flags, connect, name@, capacity, opened, changed, reply)
            &&& match crate::unix::channel::connected(opened, changed, reply) {
                Ok(fd) => match channel {
                    Ok(c) => register.ensures((fd,), Ok(c.socket)) && c.valid() && !c.sealed,
                    Err(failure) => register.ensures((fd,), Err(failure.error)) && failure.close is None,
                },
                Err(failure) => channel == Err::<MessageChannel<S>, NamingFailure>(failure),
            }
        };
    assert(open.ensures((), socket));
    if changed is Ok {
        let path = choose|path: &Vec<u8>| #[trigger]
            connect.ensures((socket, path), reply) && path@ == crate::unix::cmsg::spec_sun_path(name@, capacity as nat);
        assert(connect.ensures((socket, path), reply));
    }
}

/// A socket with a name tells the name that it was given, and makes a channel of the socket of the process that
/// connected.
pub proof fn named_socket_accepts_a_connection<S, R>(
    named: NamedMessageChannel,
    name: &Vec<u8>,
    reply: Reply,
    register: R,
    channel: Result<MessageChannel<S>, Error>,
) where R: FnOnce(ScopedFd) -> Result<S, Error>
    ensures
        call_ensures(NamedMessageChannel::name, (&named,), name) ==> *name == named.name,
        call_ensures(NamedMessageChannel::accept::<S, R>, (named, reply, register), channel) ==> (if reply.value < 0 {
            channel == Err::<MessageChannel<S>, Error>(Error::Os(reply.errno))
        } else {
            match channel {
                Ok(c) => register.ensures((ScopedFd(reply.value),), Ok(c.socket)) && !c.sealed,
                Err(e) => register.ensures((ScopedFd(reply.value),), Err(e)),
            }
        }),
{
}

} // verus!
