//! What arrives at the other end of a channel.
//!
//! A channel adds nothing to a packet and takes nothing away from it. So the laws here say that what one end of a
//! channel writes is what the other end reads, over sockets that hand on what is given to them: the packet that comes
//! out of a socket is, in its turn, the one that went into the socket at the other end.

use crate::channel::{ChildRawMessageChannel, PreRawMessageChannel, ProcessHandle, ProcessToken, RawMessageChannel};
use crate::error::Error;
use crate::ser::Async;
use crate::unix::channel as platform;
use crate::unix::channel::{MessageChannel, TransferReply};
use crate::unix::cmsg::Cmsg;
use crate::unix::fd::{FlagChange, ScopedFd};
use vstd::prelude::*;

verus! {

/// A packet that went into a socket whole came out of the socket at the other end, if there was room for it: its bytes,
/// and a descriptor for each one that went with it. `sent` is the reply to the request to send it, `left` is what the
/// request to receive it left in a buffer of `room` bytes, `came` are the descriptors that came with it, and `got` is
/// the reply to that request.
pub open spec fn handed_on(
    bytes: Seq<u8>,
    descriptors: Seq<i32>,
    sent: TransferReply,
    room: int,
    left: Seq<u8>,
    came: Seq<i32>,
    got: TransferReply,
) -> bool {
    sent.result == bytes.len() && got.result >= 0 && bytes.len() <= room ==> {
        &&& got.result == bytes.len()
        &&& left.take(bytes.len() as int) == bytes
        &&& came.len() == descriptors.len()
    }
}

/// Packets go from one of these sockets to the other: an event loop watches them for the descriptors `a` and `b`, and
/// `forward` says which way.
pub open spec fn joined<S, G, H>(
    a: ScopedFd,
    b: ScopedFd,
    register: G,
    other_register: H,
    forward: bool,
    from: S,
    to: S,
) -> bool where G: FnOnce(ScopedFd) -> Result<S, Error>, H: FnOnce(ScopedFd) -> Result<S, Error> {
    if forward {
        register.ensures((a,), Ok(from)) && other_register.ensures((b,), Ok(to))
    } else {
        register.ensures((a,), Ok(to)) && other_register.ensures((b,), Ok(from))
    }
}

/// The calls by which packets are written, one after the other: the end of the channel as it is at each of them, and
/// what it is handed.
pub struct Writes<S, PW, T, NW> {
    pub channel: Seq<MessageChannel<S>>,
    pub poll_write: Seq<PW>,
    pub transmit: Seq<T>,
    pub need_write: Seq<NW>,
}

/// The calls by which packets are read, one after the other, those left out that had to wait or failed.
pub struct Reads<PR, R, NR> {
    pub poll_read: Seq<PR>,
    pub receive: Seq<R>,
    pub need_read: Seq<NR>,
}

impl<S> MessageChannel<S> {
    /// The descriptors that go with a packet that is written now.
    pub open spec fn sendable(self) -> Seq<i32> {
        if self.sealed {
            Seq::empty()
        } else {
            self.cmsg.carried()
        }
    }
}

impl<S, PW, T, NW> Writes<S, PW, T, NW> where
    PW: FnOnce(&S) -> Result<Async<()>, Error>,
    T: FnOnce(&S, &Cmsg, &[u8]) -> TransferReply,
    NW: FnOnce(&S) -> Result<(), Error>,
 {
    /// A packet was written whole, to the end of a channel over this socket.
    pub open spec fn went_well(self, i: int, socket: S, packet: &[u8]) -> bool {
        &&& self.channel[i].socket == socket
        &&& call_ensures(
            MessageChannel::<S>::write::<PW, T, NW>,
            (&self.channel[i], packet, self.poll_write[i], self.transmit[i], self.need_write[i]),
            Ok(packet.len()),
        )
    }
}

/// Packets that are written at one end of a connection are read at the other end, unchanged, in order and with their
/// bounds kept, and a descriptor comes with them for each one that went with them.
pub proof fn packets_arrive_as_they_were_sent<S, PW, T, NW, PR, R, NR>(
    from: S,
    to: S,
    packets: Seq<&[u8]>,
    writes: Writes<S, PW, T, NW>,
    reads: Reads<PR, R, NR>,
) where
    PW: FnOnce(&S) -> Result<Async<()>, Error>,
    T: FnOnce(&S, &Cmsg, &[u8]) -> TransferReply,
    NW: FnOnce(&S) -> Result<(), Error>,
    PR: FnOnce(&S) -> Result<Async<()>, Error>,
    R: FnOnce(&S, &mut Cmsg, &mut [u8]) -> TransferReply,
    NR: FnOnce(&S) -> Result<(), Error>,

    requires
        forall|i: int| 0 <= i < packets.len() ==> #[trigger] writes.went_well(i, from, packets[i]),
        forall|
            i: int,
            cmsg: &Cmsg,
            bytes: &[u8],
            sent: TransferReply,
            there: &mut Cmsg,
            room: &mut [u8],
            got: TransferReply,
        |
            #![trigger
                writes.transmit[i].ensures((&from, cmsg, bytes), sent),
                reads.receive[i].ensures((&to, there, room), got)
            ]
            0 <= i < packets.len()
                && writes.transmit[i].ensures((&from, cmsg, bytes), sent)
                && reads.receive[i].ensures((&to, there, room), got) ==> handed_on(
                bytes@,
                cmsg.carried(),
                sent,
                room@.len() as int,
                final(room)@,
                final(there).carried(),
                got,
            ),
    ensures
        forall|i: int, receiver: &mut MessageChannel<S>, buffer: &mut [u8], read: Result<usize, Error>| #[trigger]
            call_ensures(
                MessageChannel::<S>::read::<PR, R, NR>,
                (receiver, buffer, reads.poll_read[i], reads.receive[i], reads.need_read[i]),
                read,
            ) && 0 <= i < packets.len() && receiver.socket == to && read is Ok && packets[i]@.len()
                <= buffer@.len() ==> {
                &&& read->Ok_0 == packets[i]@.len()
                &&& final(buffer)@.take(packets[i]@.len() as int) == packets[i]@
                &&& final(receiver).cmsg.carried().len() == writes.channel[i].sendable().len()
            },
{
    assert forall|i: int, receiver: &mut MessageChannel<S>, buffer: &mut [u8], read: Result<usize, Error>| #[trigger]
        call_ensures(
            MessageChannel::<S>::read::<PR, R, NR>,
            (receiver, buffer, reads.poll_read[i], reads.receive[i], reads.need_read[i]),
            read,
        ) && 0 <= i < packets.len() && receiver.socket == to && read is Ok && packets[i]@.len()
            <= buffer@.len() implies read->Ok_0 == packets[i]@.len() && final(buffer)@.take(packets[i]@.len() as int)
        == packets[i]@ && final(receiver).cmsg.carried().len() == writes.channel[i].sendable().len() by {
        assert(writes.went_well(i, from, packets[i]));
    }
}

/// What one end of a pair of channels writes, the other end reads: unchanged, in order and with the bounds of messages
/// kept. `forward` says which way.
pub proof fn ends_of_a_pair_read_what_the_other_writes<S, G, PW, T, NW, PR, R, NR>(
    a: ScopedFd,
    b: ScopedFd,
    register: G,
    left: RawMessageChannel<S>,
    right: RawMessageChannel<S>,
    forward: bool,
    from: S,
    to: S,
    packets: Seq<&[u8]>,
    writes: Writes<S, PW, T, NW>,
    reads: Reads<PR, R, NR>,
) where
    G: Fn(ScopedFd) -> Result<S, Error>,
    PW: FnOnce(&S) -> Result<Async<()>, Error>,
    T: FnOnce(&S, &Cmsg, &[u8]) -> TransferReply,
    NW: FnOnce(&S) -> Result<(), Error>,
    PR: FnOnce(&S) -> Result<Async<()>, Error>,
    R: FnOnce(&S, &mut Cmsg, &mut [u8]) -> TransferReply,
    NR: FnOnce(&S) -> Result<(), Error>,

    requires
        call_ensures(RawMessageChannel::<S>::pair::<G>, (Ok((a, b)), register), Ok((left, right))),
        forward ==> from == left.inner.socket && to == right.inner.socket,
        !forward ==> from == right.inner.socket && to == left.inner.socket,
        forall|i: int| 0 <= i < packets.len() ==> #[trigger] writes.went_well(i, from, packets[i]),
        forall|
            i: int,
            source: S,
            target: S,
            cmsg: &Cmsg,
            bytes: &[u8],
            sent: TransferReply,
            there: &mut Cmsg,
            room: &mut [u8],
            got: TransferReply,
        |
            #![trigger
                writes.transmit[i].ensures((&source, cmsg, bytes), sent),
                reads.receive[i].ensures((&target, there, room), got)
            ]
            0 <= i < packets.len() && joined(a, b, register, register, forward, source, target)
                && writes.transmit[i].ensures((&source, cmsg, bytes), sent)
                && reads.receive[i].ensures((&target, there, room), got) ==> handed_on(
                bytes@,
                cmsg.carried(),
                sent,
                room@.len() as int,
                final(room)@,
                final(there).carried(),
                got,
            ),
    ensures
        forall|i: int, receiver: &mut MessageChannel<S>, buffer: &mut [u8], read: Result<usize, Error>| #[trigger]
            call_ensures(
                MessageChannel::<S>::read::<PR, R, NR>,
                (receiver, buffer, reads.poll_read[i], reads.receive[i], reads.need_read[i]),
                read,
            ) && 0 <= i < packets.len() && receiver.socket == to && read is Ok && packets[i]@.len()
                <= buffer@.len() ==> {
                &&& read->Ok_0 == packets[i]@.len()
                &&& final(buffer)@.take(packets[i]@.len() as int) == packets[i]@
                &&& final(receiver).cmsg.carried().len() == writes.channel[i].sendable().len()
            },
{
    packets_arrive_as_they_were_sent(from, to, packets, writes, reads);
}

/// What a process writes to the channel that it established with its child, the child reads from its end, and the
/// other way round: unchanged, in order and with the bounds of messages kept. The child's end is the one that it was
/// told about. `forward` says which way.
pub proof fn parent_and_child_read_what_the_other_writes<S, U, C, L, G, H, PW, T, NW, PR, R, NR>(
    a: ScopedFd,
    b: ScopedFd,
    change_flags: C,
    transmit_and_launch: L,
    register: G,
    child_register: H,
    parent: RawMessageChannel<S>,
    launched: U,
    told: ChildRawMessageChannel,
    child: RawMessageChannel<S>,
    forward: bool,
    from: S,
    to: S,
    packets: Seq<&[u8]>,
    writes: Writes<S, PW, T, NW>,
    reads: Reads<PR, R, NR>,
) where
    C: Fn(FlagChange) -> Result<(), Error>,
    L: FnOnce(ChildRawMessageChannel) -> Result<(ProcessHandle, U), Error>,
    G: FnOnce(ScopedFd) -> Result<S, Error>,
    H: FnOnce(ScopedFd) -> Result<S, Error>,
    PW: FnOnce(&S) -> Result<Async<()>, Error>,
    T: FnOnce(&S, &Cmsg, &[u8]) -> TransferReply,
    NW: FnOnce(&S) -> Result<(), Error>,
    PR: FnOnce(&S) -> Result<Async<()>, Error>,
    R: FnOnce(&S, &mut Cmsg, &mut [u8]) -> TransferReply,
    NR: FnOnce(&S) -> Result<(), Error>,

    requires
        call_ensures(
            RawMessageChannel::<S>::establish_with_child_custom::<U, C, L, G>,
            (Ok((a, b)), change_flags, transmit_and_launch, register),
            Ok((parent, launched)),
        ),
        told == ChildRawMessageChannel(platform::ChildMessageChannel { fd: b.0 }),
        call_ensures(ChildRawMessageChannel::into_channel::<S, H>, (told, child_register), Ok(child)),
        forward ==> from == parent.inner.socket && to == child.inner.socket,
        !forward ==> from == child.inner.socket && to == parent.inner.socket,
        forall|i: int| 0 <= i < packets.len() ==> #[trigger] writes.went_well(i, from, packets[i]),
        forall|
            i: int,
            source: S,
            target: S,
            cmsg: &Cmsg,
            bytes: &[u8],
            sent: TransferReply,
            there: &mut Cmsg,
            room: &mut [u8],
            got: TransferReply,
        |
            #![trigger
                writes.transmit[i].ensures((&source, cmsg, bytes), sent),
                reads.receive[i].ensures((&target, there, room), got)
            ]
            0 <= i < packets.len() && joined(a, b, register, child_register, forward, source, target)
                && writes.transmit[i].ensures((&source, cmsg, bytes), sent)
                && reads.receive[i].ensures((&target, there, room), got) ==> handed_on(
                bytes@,
                cmsg.carried(),
                sent,
                room@.len() as int,
                final(room)@,
                final(there).carried(),
                got,
            ),
    ensures
        exists|outcome: Result<(ProcessHandle, U), Error>| #[trigger] transmit_and_launch.ensures((told,), outcome),
        forall|i: int, receiver: &mut MessageChannel<S>, buffer: &mut [u8], read: Result<usize, Error>| #[trigger]
            call_ensures(
                MessageChannel::<S>::read::<PR, R, NR>,
                (receiver, buffer, reads.poll_read[i], reads.receive[i], reads.need_read[i]),
                read,
            ) && 0 <= i < packets.len() && receiver.socket == to && read is Ok && packets[i]@.len()
                <= buffer@.len() ==> {
                &&& read->Ok_0 == packets[i]@.len()
                &&& final(buffer)@.take(packets[i]@.len() as int) == packets[i]@
                &&& final(receiver).cmsg.carried().len() == writes.channel[i].sendable().len()
            },
{
    assert(b == ScopedFd(b.0));
    packets_arrive_as_they_were_sent(from, to, packets, writes, reads);
}

/// The end of a channel was made into this channel, sealed or not.
pub open spec fn made_into<S, G: FnOnce(ScopedFd) -> Result<S, Error>>(
    end: PreRawMessageChannel,
    register: G,
    channel: RawMessageChannel<S>,
) -> bool {
    ||| exists|process: ProcessToken| #[trigger]
        call_ensures(PreRawMessageChannel::into_channel::<S, G>, (end, process, register), Ok(channel))
    ||| exists|process: ProcessHandle| #[trigger]
        call_ensures(PreRawMessageChannel::into_raw_channel::<S, G>, (end, process, register), Ok(channel))
    ||| call_ensures(PreRawMessageChannel::into_sealed_raw_channel::<S, G>, (end, register), Ok(channel))
}

/// The ends of a pair that become channels, perhaps in other processes, are the ends of one connection: what one of
/// them writes, the other one reads, unchanged, in order and with the bounds of messages kept.
///
/// An end that goes to another process has another descriptor there. `same` says of two descriptors, the first of them
/// where the pair was made, that they are of one socket. `forward` says which way.
pub proof fn ends_that_became_channels_read_what_the_other_writes<S, G, H, PW, T, NW, PR, R, NR>(
    pair: (PreRawMessageChannel, PreRawMessageChannel),
    a: ScopedFd,
    b: ScopedFd,
    same: spec_fn(ScopedFd, ScopedFd) -> bool,
    arrived: (PreRawMessageChannel, PreRawMessageChannel),
    register: G,
    other_register: H,
    left: RawMessageChannel<S>,
    right: RawMessageChannel<S>,
    forward: bool,
    from: S,
    to: S,
    packets: Seq<&[u8]>,
    writes: Writes<S, PW, T, NW>,
    reads: Reads<PR, R, NR>,
) where
    G: FnOnce(ScopedFd) -> Result<S, Error>,
    H: FnOnce(ScopedFd) -> Result<S, Error>,
    PW: FnOnce(&S) -> Result<Async<()>, Error>,
    T: FnOnce(&S, &Cmsg, &[u8]) -> TransferReply,
    NW: FnOnce(&S) -> Result<(), Error>,
    PR: FnOnce(&S) -> Result<Async<()>, Error>,
    R: FnOnce(&S, &mut Cmsg, &mut [u8]) -> TransferReply,
    NR: FnOnce(&S) -> Result<(), Error>,

    requires
        call_ensures(PreRawMessageChannel::pair, (Ok((a, b)),), Ok(pair)),
        same(pair.0.0.fd, arrived.0.0.fd),
        same(pair.1.0.fd, arrived.1.0.fd),
        made_into(arrived.0, register, left),
        made_into(arrived.1, other_register, right),
        forward ==> from == left.inner.socket && to == right.inner.socket,
        !forward ==> from == right.inner.socket && to == left.inner.socket,
        forall|i: int| 0 <= i < packets.len() ==> #[trigger] writes.went_well(i, from, packets[i]),
        forall|
            i: int,
            source: S,
            target: S,
            x: ScopedFd,
            y: ScopedFd,
            cmsg: &Cmsg,
            bytes: &[u8],
            sent: TransferReply,
            there: &mut Cmsg,
            room: &mut [u8],
            got: TransferReply,
        |
            #![trigger
                writes.transmit[i].ensures((&source, cmsg, bytes), sent),
                reads.receive[i].ensures((&target, there, room), got),
                joined(x, y, register, other_register, forward, source, target)
            ]
            0 <= i < packets.len() && same(a, x) && same(b, y)
                && joined(x, y, register, other_register, forward, source, target)
                && writes.transmit[i].ensures((&source, cmsg, bytes), sent)
                && reads.receive[i].ensures((&target, there, room), got) ==> handed_on(
                bytes@,
                cmsg.carried(),
                sent,
                room@.len() as int,
                final(room)@,
                final(there).carried(),
                got,
            ),
    ensures
        forall|i: int, receiver: &mut MessageChannel<S>, buffer: &mut [u8], read: Result<usize, Error>| #[trigger]
            call_ensures(
                MessageChannel::<S>::read::<PR, R, NR>,
                (receiver, buffer, reads.poll_read[i], reads.receive[i], reads.need_read[i]),
                read,
            ) && 0 <= i < packets.len() && receiver.socket == to && read is Ok && packets[i]@.len()
                <= buffer@.len() ==> {
                &&& read->Ok_0 == packets[i]@.len()
                &&& final(buffer)@.take(packets[i]@.len() as int) == packets[i]@
                &&& final(receiver).cmsg.carried().len() == writes.channel[i].sendable().len()
            },
{
    assert(joined(arrived.0.0.fd, arrived.1.0.fd, register, other_register, forward, from, to));
    packets_arrive_as_they_were_sent(from, to, packets, writes, reads);
}

} // verus!
