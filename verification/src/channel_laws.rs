//! What channels of messages and of packets do for the processes at their ends, in terms of what is handed over.

use crate::channel::{
    ChildMessageChannel, ChildRawMessageChannel, MessageChannel, NamedMessageChannel, PreMessageChannel,
    PreRawMessageChannel, ProcessHandle, ProcessToken, RawMessageChannel,
};
use crate::error::Error;
use crate::step::Reply;
use crate::unix::channel as platform;
use crate::unix::fd::{FlagChange, ScopedFd};
use vstd::prelude::*;

verus! {

/// Both ends of a channel are over the sockets of the pair, in their order. Each takes messages of the size that was
/// asked for, both ways, has nothing to send yet, and can send descriptors.
pub proof fn ends_of_a_channel_take_the_same_messages<S, R>(
    first: ScopedFd,
    second: ScopedFd,
    register: R,
    size: usize,
    pair: Result<(MessageChannel<S>, MessageChannel<S>), Error>,
    raw: Result<(RawMessageChannel<S>, RawMessageChannel<S>), Error>,
    refused: Error,
) where R: Fn(ScopedFd) -> Result<S, Error>
    ensures
        call_ensures(MessageChannel::<S>::pair::<R>, (Ok((first, second)), register, size), pair) ==> match pair {
            Ok((left, right)) => {
                &&& register.ensures((first,), Ok(left.inner.io.socket))
                &&& register.ensures((second,), Ok(right.inner.io.socket))
                &&& left.max_message_size == right.max_message_size == size
                &&& left.inner.tx_buffer@.len() == size && right.inner.rx_buffer@.len() == size
                &&& right.inner.tx_buffer@.len() == size && left.inner.rx_buffer@.len() == size
                &&& left.inner.buffered_send is None && right.inner.buffered_send is None
                &&& !left.inner.io.sealed && !right.inner.io.sealed
            },
            Err(e) => register.ensures((first,), Err(e)) || register.ensures((second,), Err(e)),
        },
        call_ensures(MessageChannel::<S>::pair::<R>, (Err(refused), register, size), pair) ==> pair == Err::<
            (MessageChannel<S>, MessageChannel<S>),
            Error,
        >(refused),
        call_ensures(RawMessageChannel::<S>::pair::<R>, (Ok((first, second)), register), raw) ==> match raw {
            Ok((left, right)) => register.ensures((first,), Ok(left.inner.socket)) && register.ensures(
                (second,),
                Ok(right.inner.socket),
            ) && !left.inner.sealed && !right.inner.sealed,
            Err(e) => register.ensures((first,), Err(e)) || register.ensures((second,), Err(e)),
        },
        call_ensures(RawMessageChannel::<S>::pair::<R>, (Err(refused), register), raw) ==> raw == Err::<
            (RawMessageChannel<S>, RawMessageChannel<S>),
            Error,
        >(refused),
{
}

/// A channel of messages over a channel of packets keeps that channel, sealed or not, and takes messages of the size
/// that was asked for.
pub proof fn message_channel_keeps_the_raw_one<S>(
    raw: RawMessageChannel<S>,
    size: usize,
    channel: Result<MessageChannel<S>, Error>,
)
    ensures
        call_ensures(MessageChannel::<S>::from_raw, (raw, size), channel) ==> (channel matches Ok(c) && {
            &&& c.inner.io == raw.inner
            &&& c.max_message_size == size
            &&& c.inner.tx_buffer@.len() == size
            &&& c.inner.rx_buffer@.len() == size
            &&& c.inner.buffered_send is None
        }),
{
}

/// Parent and child take messages of the same size: the child is told of the second socket and of that size, and what
/// it makes of this is an end of the channel over that socket for messages of that size. The parent has the first
/// socket.
pub proof fn child_takes_the_same_messages<S, T, C, L, R, F>(
    first: ScopedFd,
    second: ScopedFd,
    size: usize,
    change_flags: C,
    launch: L,
    register: R,
    established: Result<(MessageChannel<S>, T), Error>,
    child: ChildMessageChannel,
    register_child: F,
    there: Result<MessageChannel<S>, Error>,
) where
    C: Fn(FlagChange) -> Result<(), Error>,
    L: FnOnce(&ChildMessageChannel) -> Result<T, Error>,
    R: FnOnce(ScopedFd) -> Result<S, Error>,
    F: FnOnce(ScopedFd) -> Result<S, Error>,

    ensures
        call_ensures(
            MessageChannel::<S>::establish_with_child::<T, C, L, R>,
            (Ok((first, second)), size, change_flags, launch, register),
            established,
        ) ==> exists|told: &ChildMessageChannel, launched: Result<T, Error>| #[trigger]
            launch.ensures((told,), launched) && told.inner.fd == second.0 && told.max_message_size == size && (
            match established {
                Ok((channel, t)) => {
                    &&& launched == Ok::<T, Error>(t)
                    &&& register.ensures((first,), Ok(channel.inner.io.socket))
                    &&& channel.max_message_size == size
                    &&& channel.inner.tx_buffer@.len() == size && channel.inner.rx_buffer@.len() == size
                    &&& channel.inner.buffered_send is None && !channel.inner.io.sealed
                },
                Err(e) => launched == Err::<T, Error>(e) || register.ensures((first,), Err(e)),
            }),
        call_ensures(ChildMessageChannel::into_channel::<S, F>, (child, register_child), there) ==> match there {
            Ok(channel) => {
                &&& register_child.ensures((ScopedFd(child.inner.fd),), Ok(channel.inner.io.socket))
                &&& channel.max_message_size == child.max_message_size
                &&& channel.inner.tx_buffer@.len() == child.max_message_size
                &&& channel.inner.rx_buffer@.len() == child.max_message_size
                &&& channel.inner.buffered_send is None && !channel.inner.io.sealed
            },
            Err(e) => register_child.ensures((ScopedFd(child.inner.fd),), Err(e)),
        },
{
    if call_ensures(
        MessageChannel::<S>::establish_with_child::<T, C, L, R>,
        (Ok((first, second)), size, change_flags, launch, register),
        established,
    ) {
        let told = ChildMessageChannel { inner: platform::ChildMessageChannel { fd: second.0 }, max_message_size: size };
        let launched = choose|launched: Result<T, Error>| #[trigger]
            launch.ensures((&told,), launched) && match (launched, established) {
                (Err(e), _) => established == Err::<(MessageChannel<S>, T), Error>(e),
                (Ok(t), Ok((channel, returned))) => {
                    &&& returned == t
                    &&& register.ensures((first,), Ok(channel.inner.io.socket))
                    &&& channel.unused(channel.inner.io.socket, size, false)
                },
                (Ok(_), Err(e)) => register.ensures((first,), Err(e)),
            };
        assert(launch.ensures((&told,), launched));
    }
}

/// An end of a channel that is handed to a child is told to it by the descriptor of its socket and by the size of its
/// messages. What launching the child gave is handed back.
pub proof fn child_takes_over_an_end<S, T, D, C, L, M>(
    channel: MessageChannel<S>,
    raw: RawMessageChannel<S>,
    descriptor: D,
    change_flags: C,
    launch: L,
    launch_raw: M,
    child: Result<T, Error>,
) where
    D: FnOnce(&S) -> i32,
    C: Fn(FlagChange) -> Result<(), Error>,
    L: FnOnce(&ChildMessageChannel) -> Result<T, Error>,
    M: FnOnce(ChildRawMessageChannel) -> Result<(ProcessToken, T), Error>,

    ensures
        call_ensures(
            MessageChannel::<S>::send_to_child::<T, D, C, L>,
            (channel, descriptor, change_flags, launch),
            child,
        ) ==> exists|told: &ChildMessageChannel| #[trigger]
            launch.ensures((told,), child) && descriptor.ensures((&channel.inner.io.socket,), told.inner.fd)
                && told.max_message_size == channel.max_message_size && exists|cleared: Result<(), Error>| #[trigger]
                change_flags.ensures((FlagChange::Read { fd: told.inner.fd, close_on_exec: false },), cleared) && (
                cleared is Ok ==> exists|restored: Result<(), Error>| #[trigger]
                    change_flags.ensures((FlagChange::Read { fd: told.inner.fd, close_on_exec: true },), restored)),
        call_ensures(
            RawMessageChannel::<S>::send_to_child_custom::<T, D, C, M>,
            (raw, descriptor, change_flags, launch_raw),
            child,
        ) ==> exists|told: ChildRawMessageChannel, launched: Result<(ProcessToken, T), Error>| #[trigger]
            launch_raw.ensures((told,), launched) && descriptor.ensures((&raw.inner.socket,), told.0.fd) && (
            match launched {
                Ok((_, t)) => child == Ok::<T, Error>(t),
                Err(e) => child == Err::<T, Error>(e),
            }) && exists|cleared: Result<(), Error>| #[trigger]
                change_flags.ensures((FlagChange::Read { fd: told.0.fd, close_on_exec: false },), cleared) && (
                cleared is Ok ==> exists|restored: Result<(), Error>| #[trigger]
                    change_flags.ensures((FlagChange::Read { fd: told.0.fd, close_on_exec: true },), restored)),
{
    if call_ensures(
        MessageChannel::<S>::send_to_child::<T, D, C, L>,
        (channel, descriptor, change_flags, launch),
        child,
    ) {
        let fd = choose|fd: i32| #[trigger]
            descriptor.ensures((&channel.inner.io.socket,), fd) && platform::kept_open(fd, change_flags)
                && launch.ensures((&channel.child_end(fd),), child);
        assert(launch.ensures((&channel.child_end(fd),), child));
    }
    if call_ensures(
        RawMessageChannel::<S>::send_to_child_custom::<T, D, C, M>,
        (raw, descriptor, change_flags, launch_raw),
        child,
    ) {
        let (fd, launched) = choose|fd: i32, launched: Result<(ProcessToken, T), Error>|
            #![trigger
                launch_raw.ensures((ChildRawMessageChannel(platform::ChildMessageChannel { fd }),), launched)
            ]
            descriptor.ensures((&raw.inner.socket,), fd) && platform::kept_open(fd, change_flags)
                && launch_raw.ensures((ChildRawMessageChannel(platform::ChildMessageChannel { fd }),), launched)
                && child == (match launched {
                Ok((_, t)) => Ok::<T, Error>(t),
                Err(e) => Err(e),
            });
        assert(launch_raw.ensures((ChildRawMessageChannel(platform::ChildMessageChannel { fd }),), launched));
    }
}

/// The child of a process that establishes a channel of packets with it is told of the second socket, and makes an end
/// over that socket of this. The parent has the first socket.
pub proof fn child_has_the_other_end<S, T, C, L, R, F>(
    first: ScopedFd,
    second: ScopedFd,
    change_flags: C,
    launch: L,
    register: R,
    established: Result<(RawMessageChannel<S>, T), Error>,
    child: ChildRawMessageChannel,
    register_child: F,
    there: Result<RawMessageChannel<S>, Error>,
) where
    C: Fn(FlagChange) -> Result<(), Error>,
    L: FnOnce(ChildRawMessageChannel) -> Result<(ProcessHandle, T), Error>,
    R: FnOnce(ScopedFd) -> Result<S, Error>,
    F: FnOnce(ScopedFd) -> Result<S, Error>,

    ensures
        call_ensures(
            RawMessageChannel::<S>::establish_with_child_custom::<T, C, L, R>,
            (Ok((first, second)), change_flags, launch, register),
            established,
        ) ==> exists|told: ChildRawMessageChannel, launched: Result<(ProcessHandle, T), Error>| #[trigger]
            launch.ensures((told,), launched) && told.0.fd == second.0 && (match established {
                Ok((channel, t)) => (launched matches Ok((_, given)) && given == t) && register.ensures(
                    (first,),
                    Ok(channel.inner.socket),
                ) && !channel.inner.sealed,
                Err(e) => launched == Err::<(ProcessHandle, T), Error>(e) || register.ensures((first,), Err(e)),
            }),
        call_ensures(ChildRawMessageChannel::into_channel::<S, F>, (child, register_child), there) ==> match there {
            Ok(channel) => register_child.ensures((ScopedFd(child.0.fd),), Ok(channel.inner.socket))
                && !channel.inner.sealed,
            Err(e) => register_child.ensures((ScopedFd(child.0.fd),), Err(e)),
        },
{
    if call_ensures(
        RawMessageChannel::<S>::establish_with_child_custom::<T, C, L, R>,
        (Ok((first, second)), change_flags, launch, register),
        established,
    ) {
        let told = ChildRawMessageChannel(platform::ChildMessageChannel { fd: second.0 });
        let launched = choose|launched: Result<(ProcessHandle, T), Error>| #[trigger]
            launch.ensures((told,), launched) && match (launched, established) {
                (Err(e), _) => established == Err::<(RawMessageChannel<S>, T), Error>(e),
                (Ok((_, t)), Ok((channel, returned))) => {
                    &&& returned == t
                    &&& register.ensures((first,), Ok(channel.inner.socket))
                    &&& channel.inner.valid() && !channel.inner.sealed
                },
                (Ok(_), Err(e)) => register.ensures((first,), Err(e)),
            };
        assert(launch.ensures((told,), launched));
    }
}

/// Ends of a channel that are sent on before they are used keep their socket and the size of their messages, and are
/// sealed just where they are made so.
pub proof fn ends_can_be_sent_on<S, R>(
    first: ScopedFd,
    second: ScopedFd,
    size: usize,
    pair: Result<(PreMessageChannel, PreMessageChannel), Error>,
    raw_pair: Result<(PreRawMessageChannel, PreRawMessageChannel), Error>,
    end: PreMessageChannel,
    raw_end: PreRawMessageChannel,
    process: ProcessHandle,
    token: ProcessToken,
    register: R,
    channel: Result<MessageChannel<S>, Error>,
    raw: Result<RawMessageChannel<S>, Error>,
) where R: FnOnce(ScopedFd) -> Result<S, Error>
    ensures
        call_ensures(PreMessageChannel::pair, (Ok((first, second)), size), pair) ==> (pair matches Ok((left, right))
            && left.inner.fd == first && right.inner.fd == second && left.max_message_size == size
            && right.max_message_size == size),
        call_ensures(PreRawMessageChannel::pair, (Ok((first, second)),), raw_pair) ==> (raw_pair matches Ok(
            (left, right),
        ) && left.0.fd == first && right.0.fd == second),
        call_ensures(PreMessageChannel::into_channel::<S, R>, (end, process, register), channel) ==> match channel {
            Ok(c) => register.ensures((end.inner.fd,), Ok(c.inner.io.socket)) && c.max_message_size
                == end.max_message_size && c.inner.tx_buffer@.len() == end.max_message_size && c.inner.rx_buffer@.len()
                == end.max_message_size && c.inner.buffered_send is None && !c.inner.io.sealed,
            Err(e) => register.ensures((end.inner.fd,), Err(e)),
        },
        call_ensures(PreMessageChannel::into_sealed_channel::<S, R>, (end, register), channel) ==> match channel {
            Ok(c) => register.ensures((end.inner.fd,), Ok(c.inner.io.socket)) && c.max_message_size
                == end.max_message_size && c.inner.tx_buffer@.len() == end.max_message_size && c.inner.rx_buffer@.len()
                == end.max_message_size && c.inner.buffered_send is None && c.inner.io.sealed,
            Err(e) => register.ensures((end.inner.fd,), Err(e)),
        },
        call_ensures(PreRawMessageChannel::into_channel::<S, R>, (raw_end, token, register), raw) || call_ensures(
            PreRawMessageChannel::into_raw_channel::<S, R>,
            (raw_end, process, register),
            raw,
        ) ==> match raw {
            Ok(c) => register.ensures((raw_end.0.fd,), Ok(c.inner.socket)) && !c.inner.sealed,
            Err(e) => register.ensures((raw_end.0.fd,), Err(e)),
        },
        call_ensures(PreRawMessageChannel::into_sealed_raw_channel::<S, R>, (raw_end, register), raw) ==> match raw {
            Ok(c) => register.ensures((raw_end.0.fd,), Ok(c.inner.socket)) && c.inner.sealed,
            Err(e) => register.ensures((raw_end.0.fd,), Err(e)),
        },
{
}

/// Processes that meet under a name take messages of the size that each of them asks for, over the socket that was
/// accepted and over the one that was connected.
pub proof fn processes_meet_under_a_name<S, P, O, C, B, L, N, R>(
    locate: P,
    capacity: usize,
    open: O,
    change_flags: C,
    bind: B,
    listen: L,
    connect: N,
    register: R,
    size: usize,
    waiting: Result<NamedMessageChannel, platform::NamingFailure>,
    named: NamedMessageChannel,
    name: &Vec<u8>,
    reply: Reply,
    accepted: Result<MessageChannel<S>, Error>,
    path: &[u8],
    connected: Result<MessageChannel<S>, platform::NamingFailure>,
) where
    P: FnOnce(&String) -> Vec<u8>,
    O: FnOnce() -> i32,
    C: FnOnce(FlagChange) -> Result<(), Error>,
    B: FnOnce(i32, &Vec<u8>) -> Reply,
    L: FnOnce(i32, i32) -> Reply,
    N: FnOnce(i32, &Vec<u8>) -> Reply,
    R: FnOnce(ScopedFd) -> Result<S, Error>,

    ensures
        call_ensures(
            NamedMessageChannel::new::<P, O, C, B, L>,
            (locate, capacity, open, change_flags, bind, listen, size),
            waiting,
        ) ==> (waiting matches Ok(n) ==> n.max_message_size == size && open.ensures((), n.inner.socket.0) && exists|
            file: &String,
        | #[trigger] locate.ensures((file,), n.inner.name)),
        call_ensures(NamedMessageChannel::name, (&named,), name) ==> *name == named.inner.name,
        call_ensures(NamedMessageChannel::accept::<S, R>, (named, reply, register), accepted) ==> (if reply.value < 0 {
            accepted == Err::<MessageChannel<S>, Error>(Error::Os(reply.errno))
        } else {
            match accepted {
                Ok(c) => register.ensures((ScopedFd(reply.value),), Ok(c.inner.io.socket)) && c.max_message_size
                    == named.max_message_size && c.inner.tx_buffer@.len() == named.max_message_size
                    && c.inner.rx_buffer@.len() == named.max_message_size && c.inner.buffered_send is None
                    && !c.inner.io.sealed,
                Err(e) => register.ensures((ScopedFd(reply.value),), Err(e)),
            }
        }),
        call_ensures(
            NamedMessageChannel::connect::<S, O, C, N, R>,
            (path, capacity, open, change_flags, connect, register, size),
            connected,
        ) ==> (connected matches Ok(c) ==> c.max_message_size == size && c.inner.tx_buffer@.len() == size
            && c.inner.rx_buffer@.len() == size && c.inner.buffered_send is None && !c.inner.io.sealed && exists|
            socket: i32,
        | #[trigger] open.ensures((), socket) && register.ensures((ScopedFd(socket),), Ok(c.inner.io.socket))),
{
}

/// The process that a token or a handle stands for is the one that its copy stands for, and both can always be had.
pub proof fn copies_stand_for_the_same_process(
    token: ProcessToken,
    token_copy: Result<ProcessToken, Error>,
    handle: ProcessHandle,
    handle_copy: Result<ProcessHandle, Error>,
)
    ensures
        call_ensures(ProcessToken::clone, (&token,), token_copy) ==> token_copy == Ok::<ProcessToken, Error>(token),
        call_ensures(ProcessHandle::clone, (&handle,), handle_copy) ==> handle_copy == Ok::<ProcessHandle, Error>(handle),
        call_ensures(ProcessToken::current, (), token_copy) ==> token_copy is Ok,
        call_ensures(ProcessHandle::current, (), handle_copy) ==> handle_copy is Ok,
{
}

/// A channel under a name is had where every call that it takes goes well. Where one fails, a socket that was to wait
/// is closed, and one that was to be connected is not.
pub proof fn named_channel_is_had_unless_a_call_fails<S, P, O, C, B, L, N, R>(
    locate: P,
    capacity: usize,
    open: O,
    change_flags: C,
    bind: B,
    listen: L,
    connect: N,
    register: R,
    size: usize,
    waiting: Result<NamedMessageChannel, platform::NamingFailure>,
    path: &[u8],
    connected: Result<MessageChannel<S>, platform::NamingFailure>,
) where
    P: FnOnce(&String) -> Vec<u8>,
    O: FnOnce() -> i32,
    C: FnOnce(FlagChange) -> Result<(), Error>,
    B: FnOnce(i32, &Vec<u8>) -> Reply,
    L: FnOnce(i32, i32) -> Reply,
    N: FnOnce(i32, &Vec<u8>) -> Reply,
    R: FnOnce(ScopedFd) -> Result<S, Error>,

    requires
        call_ensures(
            NamedMessageChannel::new::<P, O, C, B, L>,
            (locate, capacity, open, change_flags, bind, listen, size),
            waiting,
        ),
        call_ensures(
            NamedMessageChannel::connect::<S, O, C, N, R>,
            (path, capacity, open, change_flags, connect, register, size),
            connected,
        ),
    ensures
        waiting matches Err(failure) ==> (failure.close matches Some(socket) && open.ensures((), socket.0)),
        connected matches Err(failure) ==> failure.close is None,
        (forall|change: FlagChange, r: Result<(), Error>| #[trigger] change_flags.ensures((change,), r) ==> r is Ok) && (
        forall|socket: i32, address: &Vec<u8>, r: Reply| #[trigger]
            bind.ensures((socket, address), r) ==> r.value >= 0) && (forall|socket: i32, backlog: i32, r: Reply| #[trigger]
            listen.ensures((socket, backlog), r) ==> r.value >= 0) ==> waiting is Ok,
        (forall|change: FlagChange, r: Result<(), Error>| #[trigger] change_flags.ensures((change,), r) ==> r is Ok) && (
        forall|socket: i32, address: &Vec<u8>, r: Reply| #[trigger]
            connect.ensures((socket, address), r) ==> r.value >= 0) && (forall|socket: ScopedFd, r: Result<S, Error>|
            #[trigger]
            register.ensures((socket,), r) ==> r is Ok) ==> connected is Ok,
{
}

} // verus!
