//! File descriptors that travel with a message.
//!
//! While a message is serialized, the current thread has a sender that collects the descriptors in the
//! message; what stands for a descriptor in the bytes of the message is its place among them. While a
//! message is deserialized, the current thread has a receiver that hands them out again.

use crate::error::{Error, Fault};
use crate::step::{Reply, Step};
use crate::unix::cmsg::Cmsg;
use crate::unix::fd::{fd_cloexec, is_cloexec_flag, set_cloexec, FlagCall, FlagChange};
use vstd::prelude::*;

verus! {

/// The greatest number of descriptors that a message carries.
pub const MAX_MSG_FDS: usize = 32;

/// A descriptor that can be sent over a channel.
#[derive(PartialEq, Eq, Structural, Debug)]
pub struct SendableFd<B>(pub B);

/// Collects the descriptors of a message that is serialized.
#[derive(Debug)]
pub struct HandleSender {
    pub fds: Vec<i32>,
    /// The channel of the message is sealed: the message cannot carry descriptors.
    pub sealed: bool,
}

/// Hands out the descriptors of a message that is deserialized.
#[derive(Debug)]
pub struct HandleReceiver {
    pub fds: Vec<i32>,
}

/// The sending of a descriptor: it is duplicated, in case it is closed before the message is sent, and
/// the duplicate is set to be closed when this process runs another program.
#[derive(Clone, Copy, PartialEq, Eq, Structural, Debug)]
pub enum Sending {
    Duplicate { fd: i32 },
    Flags { duplicate: i32, change: FlagChange },
}

/// A call that the sending or the receiving of a descriptor makes.
#[derive(Clone, Copy, PartialEq, Eq, Structural, Debug)]
pub enum HandleCall {
    Duplicate { fd: i32 },
    Flags(FlagCall),
}

impl HandleSender {
    /// There are no more descriptors than a message can carry, and none on a sealed channel.
    pub open spec fn valid(&self) -> bool {
        &&& self.fds@.len() <= MAX_MSG_FDS
        &&& self.sealed ==> self.fds@.len() == 0
    }

    /// How the sending of a descriptor starts, or why it does not.
    pub open spec fn spec_send(&self, fd: i32) -> Result<Sending, Error> {
        if self.sealed {
            Err(Error::Fault(Fault::ChannelSealed))
        } else if self.fds@.len() >= MAX_MSG_FDS {
            Err(Error::Fault(Fault::TooManyDescriptors))
        } else {
            Ok(Sending::Duplicate { fd })
        }
    }

    /// Starts to send a descriptor.
    pub fn send(&self, fd: i32) -> (sending: Result<Sending, Error>)
        ensures
            sending == self.spec_send(fd),
    {
        if self.sealed {
            return Err(Error::Fault(Fault::ChannelSealed));
        }
        if self.fds.len() >= MAX_MSG_FDS {
            return Err(Error::Fault(Fault::TooManyDescriptors));
        }
        Ok(Sending::Duplicate { fd })
    }
}

impl Sending {
    /// The call that is due.
    pub open spec fn spec_call(self) -> HandleCall {
        match self {
            Sending::Duplicate { fd } => HandleCall::Duplicate { fd },
            Sending::Flags { change, .. } => HandleCall::Flags(change.spec_call()),
        }
    }

    /// The call that is due.
    pub fn call(&self) -> (call: HandleCall)
        ensures
            call == self.spec_call(),
    {
        match self {
            Sending::Duplicate { fd } => HandleCall::Duplicate { fd: *fd },
            Sending::Flags { change, .. } => HandleCall::Flags(change.call()),
        }
    }

    /// What comes of the sending after a reply, and what becomes of the descriptors of the sender, where `flag` is
    /// the flag of descriptors that are closed. In the end the duplicate is among the descriptors of the sender, and
    /// the result is its place.
    pub open spec fn spec_reply_by(self, flag: i32, fds: Seq<i32>, reply: Reply) -> (Step<Sending, usize>, Seq<i32>) {
        match self {
            Sending::Duplicate { fd } => (
                if reply.value < 0 {
                    Step::Done(Err(Error::Os(reply.errno)))
                } else {
                    Step::Next(
                        Sending::Flags {
                            duplicate: reply.value,
                            change: FlagChange::Read { fd: reply.value, close_on_exec: true },
                        },
                    )
                },
                fds,
            ),
            Sending::Flags { duplicate, change } => match change.spec_reply_by(flag, reply) {
                Step::Next(change) => (Step::Next(Sending::Flags { duplicate, change }), fds),
                Step::Done(Err(e)) => (Step::Done(Err(e)), fds),
                Step::Done(Ok(_)) => (Step::Done(Ok(fds.len() as usize)), fds.push(duplicate)),
            },
        }
    }

    /// Moves on with the reply to the call that was due. In the end the duplicate is among the
    /// descriptors of the sender, and the result is its place.
    pub fn reply(self, sender: &mut HandleSender, reply: Reply) -> (step: Step<Sending, usize>)
        requires
            old(sender).fds@.len() < MAX_MSG_FDS,
            !old(sender).sealed,
        ensures
            final(sender).valid(),
            final(sender).sealed == old(sender).sealed,
            exists|flag: i32|
                is_cloexec_flag(flag) && (step, final(sender).fds@) == #[trigger] self.spec_reply_by(
                    flag,
                    old(sender).fds@,
                    reply,
                ),
    {
        self.reply_by(fd_cloexec(), sender, reply)
    }

    /// Moves on with the reply to the call that was due, where `flag` is the flag of descriptors that are closed.
    pub fn reply_by(self, flag: i32, sender: &mut HandleSender, reply: Reply) -> (step: Step<Sending, usize>)
        requires
            old(sender).fds@.len() < MAX_MSG_FDS,
            !old(sender).sealed,
        ensures
            final(sender).valid(),
            final(sender).sealed == old(sender).sealed,
            (step, final(sender).fds@) == self.spec_reply_by(flag, old(sender).fds@, reply),
    {
        match self {
            Sending::Duplicate { fd: _ } => {
                if reply.value < 0 {
                    return Step::Done(Err(Error::Os(reply.errno)));
                }
                Step::Next(Sending::Flags { duplicate: reply.value, change: set_cloexec(reply.value) })
            },
            Sending::Flags { duplicate, change } => match change.reply_by(flag, reply) {
                Step::Next(change) => Step::Next(Sending::Flags { duplicate, change }),
                Step::Done(Err(e)) => Step::Done(Err(e)),
                Step::Done(Ok(_)) => {
                    let index: usize = sender.fds.len();
                    sender.fds.push(duplicate);
                    Step::Done(Ok(index))
                },
            },
        }
    }
}

/// The receiving of a descriptor: it is looked at, and set to be closed when this process runs another
/// program.
#[derive(Clone, Copy, PartialEq, Eq, Structural, Debug)]
pub enum Receiving {
    Check { fd: i32 },
    Flags { fd: i32, change: FlagChange },
}

impl HandleReceiver {
    /// How the handing out of the descriptor at a place starts, or why it does not.
    pub open spec fn spec_recv(&self, index: usize) -> Result<Receiving, Error> {
        if index >= self.fds@.len() {
            Err(Error::Fault(Fault::DescriptorIndex))
        } else {
            Ok(Receiving::Check { fd: self.fds@[index as int] })
        }
    }

    /// Starts to hand out the descriptor at a place.
    pub fn recv(&self, index: usize) -> (receiving: Result<Receiving, Error>)
        ensures
            receiving == self.spec_recv(index),
    {
        if index >= self.fds.len() {
            return Err(Error::Fault(Fault::DescriptorIndex));
        }
        Ok(Receiving::Check { fd: self.fds[index] })
    }
}

impl Receiving {
    /// The call that is due.
    pub open spec fn spec_call(self) -> FlagCall {
        match self {
            Receiving::Check { fd } => FlagCall::Read { fd },
            Receiving::Flags { change, .. } => change.spec_call(),
        }
    }

    /// What comes of the receiving after a reply, where `flag` is the flag of descriptors that are closed.
    pub open spec fn spec_reply_by(self, flag: i32, reply: Reply) -> Step<Receiving, i32> {
        match self {
            Receiving::Check { fd } => if reply.value < 0 {
                Step::Done(Err(Error::Fault(Fault::InvalidDescriptor)))
            } else {
                Step::Next(Receiving::Flags { fd, change: FlagChange::Read { fd, close_on_exec: true } })
            },
            Receiving::Flags { fd, change } => match change.spec_reply_by(flag, reply) {
                Step::Next(change) => Step::Next(Receiving::Flags { fd, change }),
                Step::Done(Err(e)) => Step::Done(Err(e)),
                Step::Done(Ok(_)) => Step::Done(Ok(fd)),
            },
        }
    }

    /// The call that is due.
    pub fn call(&self) -> (call: FlagCall)
        ensures
            call == self.spec_call(),
    {
        match self {
            Receiving::Check { fd } => FlagCall::Read { fd: *fd },
            Receiving::Flags { change, .. } => change.call(),
        }
    }

    /// Moves on with the reply to the call that was due. In the end the result is the descriptor.
    pub fn reply(self, reply: Reply) -> (step: Step<Receiving, i32>)
        ensures
            exists|flag: i32| is_cloexec_flag(flag) && step == #[trigger] self.spec_reply_by(flag, reply),
    {
        self.reply_by(fd_cloexec(), reply)
    }

    /// Moves on with the reply to the call that was due, where `flag` is the flag of descriptors that are closed.
    pub fn reply_by(self, flag: i32, reply: Reply) -> (step: Step<Receiving, i32>)
        ensures
            step == self.spec_reply_by(flag, reply),
    {
        match self {
            Receiving::Check { fd } => {
                if reply.value < 0 {
                    return Step::Done(Err(Error::Fault(Fault::InvalidDescriptor)));
                }
                Step::Next(Receiving::Flags { fd, change: set_cloexec(fd) })
            },
            Receiving::Flags { fd, change } => match change.reply_by(flag, reply) {
                Step::Next(change) => Step::Next(Receiving::Flags { fd, change }),
                Step::Done(Err(e)) => Step::Done(Err(e)),
                Step::Done(Ok(_)) => Step::Done(Ok(fd)),
            },
        }
    }
}

impl SendableFd<i32> {
    /// Starts to serialize the descriptor, with the sender of the current thread.
    pub fn serialize(&self, sender: &Option<HandleSender>) -> (sending: Result<Sending, Error>)
        ensures
            sending == match *sender {
                None => Err::<Sending, Error>(Error::Fault(Fault::SerializeOutsideChannel)),
                Some(s) => s.spec_send(self.0),
            },
    {
        match sender {
            None => Err(Error::Fault(Fault::SerializeOutsideChannel)),
            Some(sender) => sender.send(self.0),
        }
    }

    /// Starts to deserialize the descriptor at a place, with the receiver of the current thread.
    pub fn deserialize(receiver: &Option<HandleReceiver>, index: usize) -> (receiving: Result<Receiving, Error>)
        ensures
            receiving == match *receiver {
                None => Err::<Receiving, Error>(Error::Fault(Fault::DeserializeOutsideChannel)),
                Some(r) => r.spec_recv(index),
            },
    {
        match receiver {
            None => Err(Error::Fault(Fault::DeserializeOutsideChannel)),
            Some(receiver) => receiver.recv(index),
        }
    }
}

/// Sets up the sender and the receiver of the current thread around the serialization and the
/// deserialization of a message.
#[derive(Clone, Copy, PartialEq, Eq, Structural, Debug)]
pub struct ChannelSerializeWrapper;

/// Lives while a message is serialized, and holds the sender that the thread had before.
#[derive(Debug)]
pub struct ChannelSerializeGuard(pub Option<HandleSender>);

/// Lives while a message is deserialized, and holds the receiver that the thread had before.
#[derive(Debug)]
pub struct ChannelDeserializeGuard(pub Option<HandleReceiver>);

impl ChannelSerializeWrapper {
    /// Gives the thread a sender without descriptors. It takes none if the channel is sealed.
    pub fn before_serialize(slot: &mut Option<HandleSender>, sealed: bool) -> (guard: ChannelSerializeGuard)
        ensures
            guard.0 == *old(slot),
            *final(slot) matches Some(sender) && sender.fds@ == Seq::<i32>::empty() && sender.sealed == sealed
                && sender.valid(),
    {
        let previous = slot.take();
        *slot = Some(HandleSender { fds: Vec::new(), sealed });
        ChannelSerializeGuard(previous)
    }

    /// Gives the thread a receiver with the descriptors of the control message of a channel.
    pub fn before_deserialize(slot: &mut Option<HandleReceiver>, cmsg: &Cmsg) -> (guard: ChannelDeserializeGuard)
        requires
            cmsg.valid(),
        ensures
            guard.0 == *old(slot),
            *final(slot) matches Some(receiver) && receiver.fds@ == cmsg.carried(),
    {
        let carried = cmsg.fds();
        let mut fds: Vec<i32> = Vec::new();
        let mut i: usize = 0;
        while i < carried.len()
            invariant
                i <= carried@.len(),
                fds@ == carried@.take(i as int),
            decreases carried@.len() - i,
        {
            fds.push(carried[i]);
            i = i + 1;
            assert(fds@ =~= carried@.take(i as int));
        }
        assert(carried@.take(carried@.len() as int) =~= carried@);
        let previous = slot.take();
        *slot = Some(HandleReceiver { fds });
        ChannelDeserializeGuard(previous)
    }
}

impl ChannelSerializeGuard {
    /// Puts the descriptors that were collected into the control message of the channel, and gives the
    /// thread back the sender that it had before.
    pub fn commit(self, slot: &mut Option<HandleSender>, cmsg: &mut Cmsg)
        requires
            old(cmsg).valid(),
            *old(slot) matches Some(sender) && sender.fds@.len() <= old(cmsg).capacity(),
        ensures
            *final(slot) == self.0,
            final(cmsg).valid(),
            final(cmsg).carried() == (*old(slot))->0.fds@,
            final(cmsg).capacity() == old(cmsg).capacity(),
            final(cmsg).spec_header_size() == old(cmsg).spec_header_size(),
            final(cmsg).spec_controllen() == final(cmsg).spec_declared_len(),
    {
        match slot {
            Some(sender) => cmsg.set_fds(sender.fds.as_slice()),
            None => {},
        }
        *slot = self.0;
    }

    /// Gives the thread back the sender that it had before.
    pub fn release(self, slot: &mut Option<HandleSender>)
        ensures
            *final(slot) == self.0,
    {
        *slot = self.0;
    }
}

impl ChannelDeserializeGuard {
    /// Gives the thread back the receiver that it had before.
    pub fn release(self, slot: &mut Option<HandleReceiver>)
        ensures
            *final(slot) == self.0,
    {
        *slot = self.0;
    }
}

/// A descriptor that was sent comes out at its place: the sender of a message with the descriptors
/// `fds` was told `index` when it sent another one, and if the control message arrives as it was sent,
/// the receiver hands that one out for `index`.
pub proof fn descriptor_is_received_where_it_was_sent(
    before: Seq<i32>,
    fd: i32,
    after: Seq<i32>,
    cmsg: Cmsg,
    receiver: HandleReceiver,
)
    requires
        before.len() + 1 + after.len() <= MAX_MSG_FDS,
        cmsg.carried() == before.push(fd) + after,
        receiver.fds@ == cmsg.carried(),
    ensures
        before.len() < receiver.fds@.len(),
        receiver.fds@[before.len() as int] == fd,
{
}

} // verus!
