//! What descriptors and shared memory objects do for their users, in terms of what they hand over and what they get.

use crate::error::{Error, Fault};
use crate::shm;
use crate::shm::{Access, Bound, RangeArgument, Region};
use crate::step::{Reply, Step};
use crate::layout::{lemma_round_up, USIZE_SIZE};
use crate::unix::cmsg::{cmsg_align, cmsg_len, cmsg_space, sockaddr_un, Cmsg};
use crate::unix::fd::{clear_cloexec, set_cloexec, CloexecGuard, FlagCall, FlagChange, ScopedFd};
use crate::unix::handles::{
    ChannelDeserializeGuard, ChannelSerializeGuard, ChannelSerializeWrapper, HandleCall, HandleReceiver, HandleSender,
    Receiving, SendableFd, Sending,
};
use crate::unix::sync::{
    CountChange, CountUpdate, Initialization, InitializationCall, Mutex, MutexGuard, MutexHandle,
};
use crate::unix::sharedmem::{Cloning, CreationFailure, MapRequest, OpenMode, SharedMem, SharedMemMap};
use vstd::prelude::*;

verus! {

/// A change of flags reads the flags of its descriptor and sets them on the same descriptor, with the one flag set or
/// cleared and all others as they were read. It fails just where setting them does.
pub proof fn flag_change_changes_one_flag(
    flag: i32,
    fd: i32,
    close: bool,
    read: Reply,
    written: Reply,
    start: FlagChange,
    first: FlagCall,
    next: Step<FlagChange, ()>,
)
    requires
        if close {
            call_ensures(set_cloexec, (fd,), start)
        } else {
            call_ensures(clear_cloexec, (fd,), start)
        },
        call_ensures(FlagChange::call, (&start,), first),
        call_ensures(FlagChange::reply_by, (start, flag, read), next),
    ensures
        first == (FlagCall::Read { fd }),
        next matches Step::Next(change) && {
            &&& forall|call: FlagCall| #[trigger]
                call_ensures(FlagChange::call, (&change,), call) ==> (call matches FlagCall::Write { fd: target, flags }
                    && target == fd && flags & !flag == read.value & !flag && flags & flag == (if close {
                    flag
                } else {
                    0i32
                }))
            &&& forall|end: Step<FlagChange, ()>| #[trigger]
                call_ensures(FlagChange::reply_by, (change, flag, written), end) ==> end == (if written.value == -1 {
                    Step::<FlagChange, ()>::Done(Err(Error::Os(written.errno)))
                } else {
                    Step::Done(Ok(()))
                })
        },
{
    crate::unix::fd::flag_changes_are_independent(flag, read.value, close);
}

/// The guard of a descriptor that stays open is of that descriptor, and has it closed again when it is given up.
pub proof fn guard_closes_its_descriptor_again(
    fd: i32,
    cleared: Result<(), Error>,
    guard: Result<CloexecGuard, Error>,
    change: FlagChange,
)
    requires
        call_ensures(CloexecGuard::new, (&fd, cleared), guard),
    ensures
        guard is Ok <==> cleared is Ok,
        cleared matches Err(e) ==> guard == Err::<CloexecGuard, Error>(e),
        guard matches Ok(g) ==> g.0 == fd && (call_ensures(CloexecGuard::release, (g,), change) ==> change == (
        FlagChange::Read { fd, close_on_exec: true })),
{
}

/// A descriptor can be sent with a message just where the channel is not sealed and the message carries fewer
/// descriptors than it can. Then it is duplicated first.
pub proof fn descriptor_is_sent_while_there_is_room(
    fd: i32,
    sender: HandleSender,
    sending: Result<Sending, Error>,
    serialized: Result<Sending, Error>,
    call: HandleCall,
)
    requires
        call_ensures(HandleSender::send, (&sender, fd), sending),
        call_ensures(SendableFd::<i32>::serialize, (&SendableFd(fd), &Some(sender)), serialized),
    ensures
        serialized == sending,
        sending is Ok <==> !sender.sealed && sender.fds@.len() < 32,
        sender.sealed ==> sending == Err::<Sending, Error>(Error::Fault(Fault::ChannelSealed)),
        !sender.sealed && sending is Err ==> sending == Err::<Sending, Error>(Error::Fault(Fault::TooManyDescriptors)),
        sending matches Ok(s) ==> (call_ensures(Sending::call, (&s,), call) ==> call == HandleCall::Duplicate { fd }),
        call_ensures(SendableFd::<i32>::serialize, (&SendableFd(fd), &None), sending) ==> sending == Err::<
            Sending,
            Error,
        >(Error::Fault(Fault::SerializeOutsideChannel)),
{
}

/// The duplicate of a descriptor is what is sent: its flags are read and set, and once they are set it lies at the
/// place that the sender is told, behind all descriptors that were collected before, which stay where they were. Where
/// a call fails, nothing is added.
pub proof fn duplicate_lies_at_the_place_told(flag: i32, fd: i32, reply: Reply, step: Step<Sending, usize>)
    ensures
        forall|sender: &mut HandleSender| #[trigger]
            call_ensures(Sending::reply_by, (Sending::Duplicate { fd }, flag, sender, reply), step) ==> {
                &&& final(sender).fds@ == sender.fds@
                &&& reply.value < 0 ==> step == Step::<Sending, usize>::Done(Err(Error::Os(reply.errno)))
                &&& reply.value >= 0 ==> (step matches Step::Next(Sending::Flags { duplicate, change }) && duplicate
                    == reply.value && change == (FlagChange::Read { fd: reply.value, close_on_exec: true }))
            },
        forall|sender: &mut HandleSender, duplicate: i32, change: FlagChange| #[trigger]
            call_ensures(Sending::reply_by, (Sending::Flags { duplicate, change }, flag, sender, reply), step) ==> {
                &&& step matches Step::Done(Ok(place)) ==> {
                    &&& place < final(sender).fds@.len()
                    &&& final(sender).fds@[place as int] == duplicate
                    &&& place == sender.fds@.len()
                    &&& final(sender).fds@.len() == sender.fds@.len() + 1
                    &&& forall|k: int| 0 <= k < sender.fds@.len() ==> final(sender).fds@[k] == sender.fds@[k]
                    &&& change is Write && reply.value != -1
                }
                &&& !(step matches Step::Done(Ok(_))) ==> final(sender).fds@ == sender.fds@
                &&& step matches Step::Next(next) ==> change is Read && next is Flags && next->duplicate
                    == duplicate
                &&& change is Write ==> (step is Done && (reply.value == -1 <==> (step matches Step::Done(Err(_)))))
            },
        forall|sender: &mut HandleSender, duplicate: i32, change: FlagChange| #[trigger]
            call_ensures(Sending::reply, (Sending::Flags { duplicate, change }, sender, reply), step) ==> {
                &&& step matches Step::Done(Ok(place)) ==> {
                    &&& place == sender.fds@.len()
                    &&& final(sender).fds@ == sender.fds@.push(duplicate)
                    &&& change is Write && reply.value != -1
                }
                &&& !(step matches Step::Done(Ok(_))) ==> final(sender).fds@ == sender.fds@
            },
{
}

/// A receiver that has the descriptors of a sender hands out, for the place that the sender was told, the duplicate
/// that was sent: it is looked at, set to be closed, and given as it is.
pub proof fn duplicate_comes_out_at_its_place(
    flag: i32,
    duplicate: i32,
    change: FlagChange,
    sent: Reply,
    place: usize,
    receiver: HandleReceiver,
    receiving: Result<Receiving, Error>,
    looked_at: Reply,
    next: Step<Receiving, i32>,
)
    ensures
        forall|sender: &mut HandleSender|
            #![trigger
                call_ensures(
                    Sending::reply_by,
                    (Sending::Flags { duplicate, change }, flag, sender, sent),
                    Step::Done(Ok(place)),
                )
            ]
            call_ensures(
                Sending::reply_by,
                (Sending::Flags { duplicate, change }, flag, sender, sent),
                Step::Done(Ok(place)),
            ) && receiver.fds@ == final(sender).fds@ && call_ensures(HandleReceiver::recv, (&receiver, place), receiving)
                ==> (receiving matches Ok(r) && {
                &&& r == Receiving::Check { fd: duplicate }
                &&& call_ensures(Receiving::reply_by, (r, flag, looked_at), next) ==> (if looked_at.value < 0 {
                    next == Step::<Receiving, i32>::Done(Err(Error::Fault(Fault::InvalidDescriptor)))
                } else {
                    next == Step::<Receiving, i32>::Next(
                        Receiving::Flags {
                            fd: duplicate,
                            change: FlagChange::Read { fd: duplicate, close_on_exec: true },
                        },
                    )
                })
            }),
{
}

/// The receiving of a descriptor asks for the flags of that descriptor, and sets them on it. It gives that descriptor,
/// just where the flags could be set.
pub proof fn receiving_gives_the_descriptor(
    flag: i32,
    fd: i32,
    change: FlagChange,
    reply: Reply,
    next: Step<Receiving, i32>,
    call: FlagCall,
    due: FlagCall,
    receiver: HandleReceiver,
    index: usize,
    receiving: Result<Receiving, Error>,
    deserialized: Result<Receiving, Error>,
)
    ensures
        call_ensures(Receiving::call, (&Receiving::Check { fd },), call) ==> call == (FlagCall::Read { fd }),
        call_ensures(Receiving::call, (&Receiving::Flags { fd, change },), call) && call_ensures(
            FlagChange::call,
            (&change,),
            due,
        ) ==> call == due,
        call_ensures(Receiving::reply_by, (Receiving::Flags { fd, change }, flag, reply), next) ==> {
            &&& next matches Step::Done(Ok(given)) ==> given == fd && change is Write && reply.value != -1
            &&& next matches Step::Next(Receiving::Flags { fd: kept, change: _ }) ==> kept == fd && change is Read
            &&& change is Write ==> (next == if reply.value == -1 {
                Step::<Receiving, i32>::Done(Err(Error::Os(reply.errno)))
            } else {
                Step::Done(Ok(fd))
            })
        },
        call_ensures(Receiving::reply, (Receiving::Flags { fd, change }, reply), next) && change is Write ==> (next
            == if reply.value == -1 {
            Step::<Receiving, i32>::Done(Err(Error::Os(reply.errno)))
        } else {
            Step::Done(Ok(fd))
        }),
        call_ensures(HandleReceiver::recv, (&receiver, index), receiving) ==> {
            &&& receiving is Ok <==> index < receiver.fds@.len()
            &&& receiving matches Ok(r) ==> r == Receiving::Check { fd: receiver.fds@[index as int] }
            &&& receiving is Err ==> receiving == Err::<Receiving, Error>(Error::Fault(Fault::DescriptorIndex))
            &&& call_ensures(SendableFd::<i32>::deserialize, (&Some(receiver), index), deserialized) ==> deserialized
                == receiving
        },
        call_ensures(SendableFd::<i32>::deserialize, (&None, index), deserialized) ==> deserialized == Err::<
            Receiving,
            Error,
        >(Error::Fault(Fault::DeserializeOutsideChannel)),
{
}

/// While a message is serialized the thread has a sender without descriptors, and afterwards the one that it had
/// before. What was collected goes into the control message, from which the receiver of a message gets it in the same
/// order.
pub proof fn collected_descriptors_reach_the_receiver(
    sealed: bool,
    guard: ChannelSerializeGuard,
    received: ChannelDeserializeGuard,
    arrived: Cmsg,
)
    ensures
        forall|slot: &mut Option<HandleSender>| #[trigger]
            call_ensures(ChannelSerializeWrapper::before_serialize, (slot, sealed), guard) ==> {
                &&& guard.0 == *slot
                &&& *final(slot) matches Some(sender) && sender.fds@.len() == 0 && sender.sealed == sealed
            },
        forall|slot: &mut Option<HandleSender>| #[trigger]
            call_ensures(ChannelSerializeGuard::release, (guard, slot), ()) ==> *final(slot) == guard.0,
        forall|slot: &mut Option<HandleReceiver>| #[trigger]
            call_ensures(ChannelDeserializeGuard::release, (received, slot), ()) ==> *final(slot) == received.0,
        forall|slot: &mut Option<HandleSender>, cmsg: &mut Cmsg, there: &mut Option<HandleReceiver>|
            #![trigger
                call_ensures(ChannelSerializeGuard::commit, (guard, slot, cmsg), ()),
                call_ensures(ChannelSerializeWrapper::before_deserialize, (there, &arrived), received)
            ]
            call_ensures(ChannelSerializeGuard::commit, (guard, slot, cmsg), ()) && call_ensures(
                ChannelSerializeWrapper::before_deserialize,
                (there, &arrived),
                received,
            ) && arrived == *final(cmsg) && *slot is Some ==> {
                &&& *final(slot) == guard.0
                &&& received.0 == *there
                &&& *final(there) matches Some(receiver) && receiver.fds@ == (*slot)->0.fds@
            },
{
}

/// A second handle to an object has the size of the one it is made from. One for reading and writing has the duplicate
/// of the descriptor for writing for writing, and that of the descriptor for reading for reading, whichever size the
/// object has; one for reading has none for writing.
pub proof fn second_handle_is_of_the_same_object(
    memory: SharedMem,
    cloning: Cloning,
    read_write: Reply,
    read_only: Reply,
    next: Cloning,
    end: Step<Cloning, SharedMem>,
    first: i32,
    second: i32,
)
    requires
        call_ensures(Cloning::call, (&cloning,), first),
        read_write.value >= 0,
        read_only.value >= 0,
    ensures
        call_ensures(SharedMem::clone, (&memory, Access::ReadWrite), Ok(cloning)) && call_ensures(
            Cloning::reply,
            (cloning, read_write),
            Step::Next(next),
        ) && call_ensures(Cloning::call, (&next,), second) && call_ensures(Cloning::reply, (next, read_only), end) ==> {
            &&& memory.rw_fd == Some(ScopedFd(first))
            &&& memory.ro_fd == ScopedFd(second)
            &&& end matches Step::Done(Ok(copy)) && copy.size == memory.size && copy.rw_fd == Some(
                ScopedFd(read_write.value),
            ) && copy.ro_fd == ScopedFd(read_only.value)
        },
        call_ensures(SharedMem::clone, (&memory, Access::Read), Ok(cloning)) && call_ensures(
            Cloning::reply,
            (cloning, read_only),
            end,
        ) ==> {
            &&& memory.ro_fd == ScopedFd(first)
            &&& end matches Step::Done(Ok(copy)) && copy.size == memory.size && copy.rw_fd is None && copy.ro_fd
                == ScopedFd(read_only.value)
        },
{
}

/// A second handle for reading can be made from every handle, and one for reading and writing just from one that can
/// write. It takes two duplicates and one duplicate, and fails just where one of them does.
pub proof fn second_handle_can_be_made(
    memory: SharedMem,
    access: Access,
    started: Result<Cloning, Error>,
    cloning: Cloning,
    reply: Reply,
    step: Step<Cloning, SharedMem>,
)
    ensures
        call_ensures(SharedMem::clone, (&memory, access), started) ==> {
            &&& started is Err <==> access == Access::ReadWrite && memory.rw_fd is None
            &&& started is Err ==> started == Err::<Cloning, Error>(Error::Fault(Fault::MemoryReadOnly))
            &&& access == Access::Read ==> started->Ok_0 is DuplicateReadOnly
            &&& access == Access::ReadWrite && memory.rw_fd is Some ==> started->Ok_0 is DuplicateReadWrite
        },
        call_ensures(Cloning::reply, (cloning, reply), step) ==> {
            &&& reply.value < 0 <==> (step matches Step::Done(Err(_)))
            &&& reply.value < 0 ==> step == Step::<Cloning, SharedMem>::Done(Err(Error::Os(reply.errno)))
            &&& reply.value >= 0 ==> (step is Next <==> cloning is DuplicateReadWrite)
        },
{
}

/// An object that could be created has the size that was asked for, and the descriptors that opening its name gave. One
/// that could not has every descriptor closed that was opened for it, and no other.
pub proof fn created_object_has_its_descriptors<O, U, T>(
    size: usize,
    open: O,
    unlink: U,
    truncate: T,
    memory: Result<SharedMem, CreationFailure>,
) where O: Fn(&String, OpenMode) -> Reply, U: FnOnce(&String) -> Reply, T: FnOnce(i32, usize) -> Reply
    requires
        call_ensures(SharedMem::new::<O, U, T>, (size, open, unlink, truncate), memory),
    ensures
        memory matches Ok(m) ==> m.size == size && (m.rw_fd matches Some(fd) && fd.0 >= 0 && m.ro_fd.0 >= 0 && exists|
            name: String,
            written: Reply,
            read: Reply,
            unlinked: Reply,
            truncated: Reply,
        |
            #![trigger
                open.ensures((&name, OpenMode::CreateReadWrite), written),
                open.ensures((&name, OpenMode::ReadOnly), read),
                unlink.ensures((&name,), unlinked),
                truncate.ensures((fd.0, size), truncated)
            ]
            open.ensures((&name, OpenMode::CreateReadWrite), written) && written.value == fd.0 && open.ensures(
                (&name, OpenMode::ReadOnly),
                read,
            ) && read.value == m.ro_fd.0 && unlink.ensures((&name,), unlinked) && unlinked.value >= 0
                && truncate.ensures((fd.0, size), truncated) && truncated.value >= 0),
        memory matches Err(failure) ==> exists|name: String, written: Reply| #[trigger]
            open.ensures((&name, OpenMode::CreateReadWrite), written) && (if written.value < 0 {
                failure.close@.len() == 0 && failure.error == Error::Os(written.errno)
            } else {
                failure.close@[0] == ScopedFd(written.value) && exists|read: Reply| #[trigger]
                    open.ensures((&name, OpenMode::ReadOnly), read) && (if read.value < 0 {
                        failure.close@.len() == 1 && failure.error == Error::Os(read.errno)
                    } else {
                        failure.close@.len() == 2 && failure.close@[1] == ScopedFd(read.value)
                    })
            }),
{
    let (name, replies) = choose|name: String, replies: crate::unix::sharedmem::CreationReplies| #[trigger]
        crate::unix::sharedmem::created_by(open, unlink, truncate, size, name, replies) && match memory {
            Ok(m) => replies.outcome(size) == Ok::<SharedMem, (Error, Seq<ScopedFd>)>(m),
            Err(failure) => replies.outcome(size) == Err::<SharedMem, (Error, Seq<ScopedFd>)>(
                (failure.error, failure.close@),
            ),
        };
    let written = replies.read_write;
    let read = replies.read_only;
    assert(open.ensures((&name, OpenMode::CreateReadWrite), written));
    match memory {
        Ok(m) => {
            let unlinked = replies.unlink;
            let truncated = replies.truncate;
            assert(truncate.ensures((written.value, size), truncated));
        },
        Err(_) => {
            assert(written.value >= 0 ==> open.ensures((&name, OpenMode::ReadOnly), read));
        },
    }
}

/// A request to map a part of an object names the descriptor for its access, asks for whole pages that hold the part,
/// and no page more than that takes. It is made just where the handle has that access and the part is of the object:
/// the one byte that the range starts with, or the whole object for a range without a start.
pub proof fn request_covers_the_part_in_whole_pages<R: RangeArgument<usize>>(
    memory: SharedMem,
    range: R,
    access: Access,
    page: usize,
    request: Result<MapRequest, Error>,
)
    requires
        0 < page,
        call_ensures(SharedMem::map::<R>, (&memory, range, access, page), request),
    ensures
        access == Access::ReadWrite && memory.rw_fd is None ==> request == Err::<MapRequest, Error>(
            Error::Fault(Fault::MemoryReadOnly),
        ),
        access == Access::Read || memory.rw_fd is Some ==> match range.start_bound() {
            Bound::Included(i) => (request is Ok <==> i < memory.size) && (request matches Ok(r) ==> r.user_offset == i
                && r.user_len == 1),
            Bound::Excluded(_) => request is Err,
            Bound::Unbounded => request matches Ok(r) && r.user_offset == 0 && r.user_len == memory.size,
        },
        (access == Access::Read || memory.rw_fd is Some) && request is Err ==> request == Err::<MapRequest, Error>(
            Error::Fault(Fault::MapRange),
        ),
        request matches Ok(r) ==> {
            &&& r.access == access
            &&& access == Access::Read ==> memory.ro_fd == ScopedFd(r.fd)
            &&& access == Access::ReadWrite ==> memory.rw_fd == Some(ScopedFd(r.fd))
            &&& r.mapping_offset as int % page as int == 0
            &&& (r.mapping_offset + r.mapping_len) % page as int == 0
            &&& r.mapping_offset <= r.user_offset < r.mapping_offset + page
            &&& r.user_offset + r.user_len <= r.mapping_offset + r.mapping_len
            &&& r.mapping_offset + r.mapping_len < r.user_offset + r.user_len + page
        },
{
}

/// A request without regard to pages starts where the range starts, and asks for as many bytes as lie up to there.
pub proof fn request_with_an_address_is_unchecked<R: RangeArgument<usize>>(
    memory: SharedMem,
    range: R,
    access: Access,
    request: Result<MapRequest, Error>,
)
    requires
        call_ensures(SharedMem::map_with::<R>, (&memory, range, access), request),
        range.start_bound() matches Bound::Included(i) ==> i < usize::MAX,
        range.start_bound() matches Bound::Excluded(i) ==> i < usize::MAX,
    ensures
        request is Err <==> access == Access::ReadWrite && memory.rw_fd is None,
        request matches Ok(r) ==> {
            &&& r.access == access
            &&& access == Access::Read ==> memory.ro_fd == ScopedFd(r.fd)
            &&& access == Access::ReadWrite ==> memory.rw_fd == Some(ScopedFd(r.fd))
            &&& r.mapping_offset == r.user_offset
            &&& r.mapping_len == r.user_len
            &&& match range.start_bound() {
                Bound::Included(i) => r.user_offset == i && r.user_len == i + 1,
                Bound::Excluded(i) => r.user_offset == i + 1 && r.user_len == i,
                Bound::Unbounded => r.user_offset == 0 && r.user_len == memory.size,
            }
        },
{
}

/// What is mapped is what was asked for: each byte of the part is as far into the mapping as it is into what was mapped
/// of the object, and the part has the length and the access that was asked for.
pub proof fn mapped_part_is_what_was_asked_for(
    request: MapRequest,
    pointer: Result<usize, Error>,
    map: Result<SharedMemMap, Error>,
    region: Region,
    reply: Reply,
    unmapped: Result<(), Error>,
)
    requires
        request.mapping_offset <= request.user_offset,
        request.user_offset + request.user_len <= request.mapping_offset + request.mapping_len,
        pointer matches Ok(p) ==> p + request.mapping_len <= usize::MAX,
        call_ensures(MapRequest::mapped, (request, pointer), map),
    ensures
        map is Ok <==> pointer is Ok,
        pointer matches Err(e) ==> map == Err::<SharedMemMap, Error>(e),
        map matches Ok(m) ==> {
            &&& m.mapping_pointer == pointer->Ok_0
            &&& m.mapping_len == request.mapping_len
            &&& m.mapping_offset == request.mapping_offset
            &&& call_ensures(SharedMemMap::region, (&m,), region) ==> {
                &&& region.pointer - pointer->Ok_0 == request.user_offset - request.mapping_offset
                &&& region.offset == request.user_offset
                &&& region.len == request.user_len
                &&& region.access == request.access
                &&& region.pointer + region.len <= pointer->Ok_0 + request.mapping_len
            }
            &&& call_ensures(SharedMemMap::unmap, (m, reply), unmapped) ==> (unmapped is Ok <==> reply.value >= 0) && (
            unmapped matches Err(e) ==> e == Error::Os(reply.errno))
        },
{
}

/// Padding gives whole words, and less than a word more than there was. A control message has a padded header and its
/// bytes behind it, and takes the room of both once they are padded.
pub proof fn control_messages_are_made_of_words(
    header: usize,
    length: usize,
    aligned: usize,
    padded: usize,
    len: usize,
    space: usize,
)
    requires
        call_ensures(cmsg_align, (header,), aligned),
        call_ensures(cmsg_align, (length,), padded),
        call_ensures(cmsg_len, (header, length), len),
        call_ensures(cmsg_space, (header, length), space),
    ensures
        aligned % USIZE_SIZE == 0,
        header <= aligned < header + USIZE_SIZE,
        len == aligned + length,
        space == aligned + padded,
{
    lemma_round_up(header as int, USIZE_SIZE as int);
}

/// A control message carries just the descriptors that were put into it, in their order, and declares the length of its
/// padded header and of four bytes for each of them.
pub proof fn control_message_carries_its_descriptors(
    fds: &[i32],
    after: Cmsg,
    carried: &[i32],
    count: usize,
    declared_len: usize,
    controllen: usize,
    aligned: usize,
)
    ensures
        forall|cmsg: &mut Cmsg| #[trigger]
            call_ensures(Cmsg::set_fds, (cmsg, fds), ()) && *final(cmsg) == after ==> {
                &&& after.capacity() == cmsg.capacity()
                &&& after.spec_header_size() == cmsg.spec_header_size()
                &&& call_ensures(Cmsg::fds, (&after,), carried) ==> carried@ == fds@
                &&& call_ensures(Cmsg::current_fd_count, (&after,), count) ==> count == fds@.len()
                &&& call_ensures(Cmsg::controllen, (&after,), controllen) && call_ensures(
                    Cmsg::declared_len,
                    (&after,),
                    declared_len,
                ) && call_ensures(cmsg_align, (cmsg.spec_header_size(),), aligned) ==> controllen == declared_len
                    && declared_len == aligned + 4 * fds@.len()
            },
{
}

/// A control message that arrives with the length that its sender declared, and with the sender's descriptors, carries
/// what the sender put into it, whatever it carried before.
pub proof fn control_message_arrives_as_it_was_sent(
    fds: &[i32],
    sent: Cmsg,
    declared_len: usize,
    controllen: usize,
    slots: Vec<i32>,
    arrived: Cmsg,
    carried: &[i32],
)
    requires
        call_ensures(Cmsg::declared_len, (&sent,), declared_len),
        call_ensures(Cmsg::fds, (&arrived,), carried),
        fds@.len() <= slots@.len(),
        forall|k: int| 0 <= k < fds@.len() ==> slots@[k] == fds@[k],
    ensures
        forall|sender: &mut Cmsg, receiver: &mut Cmsg|
            #![trigger
                call_ensures(Cmsg::set_fds, (sender, fds), ()),
                call_ensures(Cmsg::received, (receiver, declared_len, controllen, slots), ())
            ]
            call_ensures(Cmsg::set_fds, (sender, fds), ()) && *final(sender) == sent && call_ensures(
                Cmsg::received,
                (receiver, declared_len, controllen, slots),
                (),
            ) && *final(receiver) == arrived && sender.spec_header_size() == receiver.spec_header_size() ==> carried@
                == fds@,
{
    assert forall|sender: &mut Cmsg, receiver: &mut Cmsg|
        #![trigger
            call_ensures(Cmsg::set_fds, (sender, fds), ()),
            call_ensures(Cmsg::received, (receiver, declared_len, controllen, slots), ())
        ]
        call_ensures(Cmsg::set_fds, (sender, fds), ()) && *final(sender) == sent && call_ensures(
            Cmsg::received,
            (receiver, declared_len, controllen, slots),
            (),
        ) && *final(receiver) == arrived && sender.spec_header_size() == receiver.spec_header_size() implies carried@
        == fds@ by {
        assert(arrived.count() == fds@.len());
        assert(carried@ =~= fds@);
    }
}

/// A control message that was just made, or that is made ready to receive, declares as many descriptors as it has room
/// for. The room that the operating system is given holds all of what can be declared.
pub proof fn control_message_is_ready_to_receive(
    fd_count: usize,
    header: usize,
    made: Cmsg,
    after: Cmsg,
    count: usize,
    declared_len: usize,
    space: usize,
)
    requires
        call_ensures(Cmsg::current_fd_count, (&after,), count),
        call_ensures(Cmsg::declared_len, (&after,), declared_len),
        call_ensures(Cmsg::space, (&after,), space),
    ensures
        call_ensures(Cmsg::with_header_size, (fd_count, header), made) ==> made.capacity() == fd_count
            && made.spec_header_size() == header && made.spec_slots().len() == fd_count && forall|k: int|
            0 <= k < fd_count ==> made.spec_slots()[k] == 0,
        call_ensures(Cmsg::new, (fd_count,), made) ==> made.capacity() == fd_count && made.spec_slots().len()
            == fd_count,
        after == made && (call_ensures(Cmsg::with_header_size, (fd_count, header), made) || call_ensures(
            Cmsg::new,
            (fd_count,),
            made,
        )) ==> count == fd_count && declared_len <= space,
        forall|cmsg: &mut Cmsg| #[trigger]
            call_ensures(Cmsg::reset_fd_count, (cmsg,), ()) && *final(cmsg) == after ==> {
                &&& count == cmsg.capacity()
                &&& after.capacity() == cmsg.capacity()
                &&& after.spec_slots() == cmsg.spec_slots()
                &&& after.spec_controllen() == declared_len
                &&& declared_len <= space
            },
{
    lemma_round_up(4 * after.capacity(), USIZE_SIZE as int);
}

/// The address of a socket is its path, with zeros behind it up to the end of the field.
pub proof fn address_is_the_path_and_zeros(path: &[u8], capacity: usize, sun_path: Vec<u8>)
    requires
        path@.len() < capacity,
        call_ensures(sockaddr_un, (path, capacity), sun_path),
    ensures
        sun_path@.len() == capacity,
        forall|k: int| 0 <= k < path@.len() ==> sun_path@[k] == path@[k],
        forall|k: int| path@.len() <= k < capacity ==> sun_path@[k] == 0,
{
}

/// A lock that is made at a place in mapped memory has its count at that place and the mutex of the operating system
/// right behind it. Making it stores a count of one there first, and it is the same lock in the end.
pub proof fn lock_is_made_at_its_place(
    memory: shm::SharedMemMap,
    offset: usize,
    pthread_size: usize,
    made: Initialization,
    first: InitializationCall,
)
    requires
        memory.valid(),
        offset + 128 <= memory.region.len,
        call_ensures(Mutex::new_with_memory, (memory, offset, pthread_size), made),
        call_ensures(Initialization::call, (&made,), first),
    ensures
        made matches Initialization::Count(mutex) && {
            &&& mutex.mem == memory
            &&& mutex.raw_offset == memory.region.offset + offset
            &&& mutex.refcount == memory.region.pointer + offset
            &&& mutex.pthread_mutex == memory.region.pointer + offset + USIZE_SIZE
            &&& first == (InitializationCall::StoreCount { address: mutex.refcount, count: 1 })
        },
{
}

/// The making of a lock makes its attributes, shares them, makes the mutex of the operating system behind the count,
/// and destroys the attributes. It gives the lock that it started with just where no call fails, and the number of the
/// first failure else.
pub proof fn making_a_lock_ends_with_it(
    mutex: Mutex,
    code: i32,
    stored: Step<Initialization, Mutex>,
    attributes: Step<Initialization, Mutex>,
    shared: Step<Initialization, Mutex>,
    initialized: Step<Initialization, Mutex>,
    cleaned: Step<Initialization, Mutex>,
    call: InitializationCall,
)
    ensures
        call_ensures(Initialization::reply, (Initialization::Count(mutex), code), stored) ==> stored == Step::<
            Initialization,
            Mutex,
        >::Next(Initialization::Attributes(mutex)),
        call_ensures(Initialization::reply, (Initialization::Attributes(mutex), code), attributes) ==> {
            &&& code == 0 ==> attributes == Step::<Initialization, Mutex>::Next(Initialization::Share(mutex))
            &&& code != 0 ==> attributes == Step::<Initialization, Mutex>::Done(Err(Error::Os(code)))
        },
        call_ensures(Initialization::reply, (Initialization::Share(mutex), code), shared) ==> {
            &&& code == 0 ==> shared == Step::<Initialization, Mutex>::Next(Initialization::Mutex(mutex))
            &&& code != 0 ==> shared == Step::<Initialization, Mutex>::Done(Err(Error::Os(code)))
        },
        call_ensures(Initialization::reply, (Initialization::Mutex(mutex), code), initialized) ==> {
            &&& code == 0 ==> initialized == Step::<Initialization, Mutex>::Next(Initialization::Cleanup(mutex))
            &&& code != 0 ==> initialized == Step::<Initialization, Mutex>::Done(Err(Error::Os(code)))
        },
        call_ensures(Initialization::reply, (Initialization::Cleanup(mutex), code), cleaned) ==> cleaned == Step::<
            Initialization,
            Mutex,
        >::Done(Ok(mutex)),
        call_ensures(Initialization::call, (&Initialization::Attributes(mutex),), call) ==> call
            == InitializationCall::InitAttributes,
        call_ensures(Initialization::call, (&Initialization::Share(mutex),), call) ==> call
            == InitializationCall::ShareAttributes,
        call_ensures(Initialization::call, (&Initialization::Mutex(mutex),), call) ==> call
            == (InitializationCall::InitMutex { address: mutex.pthread_mutex }),
        call_ensures(Initialization::call, (&Initialization::Cleanup(mutex),), call) ==> call
            == InitializationCall::DestroyAttributes,
{
}

/// A lock that a handle leads to, at the place of another mapping of its object that is told, has the place in the
/// object that the handle names, and takes part in the count of references at that place: one more when it is taken,
/// one less when it is given up. Who gives up the only reference that is left destroys the lock, and nobody else.
pub proof fn lock_is_counted_where_it_lies(
    mutex: Mutex,
    handle: Result<MutexHandle, Error>,
    memory: shm::SharedMemMap,
    offset: usize,
    pthread_size: usize,
    opened: (Mutex, CountUpdate),
    given_up: CountUpdate,
    previous: usize,
    destroy: bool,
)
    requires
        memory.valid(),
        offset + 128 <= memory.region.len,
        call_ensures(Mutex::handle, (&mutex,), handle),
    ensures
        handle is Ok,
        call_ensures(Mutex::from_handle, (handle->Ok_0, memory, offset, pthread_size), opened) ==> {
            &&& opened.0.mem == memory
            &&& opened.0.raw_offset == mutex.raw_offset
            &&& opened.0.refcount == memory.region.pointer + offset
            &&& opened.0.pthread_mutex == memory.region.pointer + offset + USIZE_SIZE
            &&& opened.1 == (CountUpdate { address: opened.0.refcount, change: CountChange::Acquire })
            &&& call_ensures(Mutex::give_up, (&opened.0,), given_up) ==> given_up == (CountUpdate {
                address: opened.1.address,
                change: CountChange::Release,
            })
        },
        call_ensures(Mutex::release, (mutex, previous), destroy) ==> (destroy <==> previous == 1),
{
}

/// The guard of a lock is of that lock, and says of unlocking just that it failed, where it did.
pub proof fn guard_is_of_its_lock<'a>(
    mutex: &'a Mutex,
    guard: MutexGuard<'a>,
    code: i32,
    panicking: bool,
    reported: Option<i32>,
)
    ensures
        call_ensures(Mutex::lock, (mutex, 0), guard) ==> guard.mutex == mutex,
        call_ensures(MutexGuard::release, (guard, code, panicking), reported) ==> (reported is Some <==> code != 0) && (
        reported matches Some(number) ==> number == code),
{
}

/// Whichever flag has descriptors closed on this platform, the sending and the receiving of a descriptor start as they
/// do for every flag: with the flags of the duplicate, and with those of the descriptor.
pub proof fn operations_start_alike_on_every_platform(
    fd: i32,
    close: bool,
    reply: Reply,
    sending: Step<Sending, usize>,
    receiving: Step<Receiving, i32>,
    change: Step<FlagChange, ()>,
    flags: i32,
)
    ensures
        forall|sender: &mut HandleSender| #[trigger]
            call_ensures(Sending::reply, (Sending::Duplicate { fd }, sender, reply), sending) ==> {
                &&& final(sender).fds@ == sender.fds@
                &&& reply.value < 0 ==> sending == Step::<Sending, usize>::Done(Err(Error::Os(reply.errno)))
                &&& reply.value >= 0 ==> sending == Step::<Sending, usize>::Next(
                    Sending::Flags {
                        duplicate: reply.value,
                        change: FlagChange::Read { fd: reply.value, close_on_exec: true },
                    },
                )
            },
        call_ensures(Receiving::reply, (Receiving::Check { fd }, reply), receiving) ==> {
            &&& reply.value < 0 ==> receiving == Step::<Receiving, i32>::Done(
                Err(Error::Fault(Fault::InvalidDescriptor)),
            )
            &&& reply.value >= 0 ==> receiving == Step::<Receiving, i32>::Next(
                Receiving::Flags { fd, change: FlagChange::Read { fd, close_on_exec: true } },
            )
        },
        call_ensures(FlagChange::reply, (FlagChange::Read { fd, close_on_exec: close }, reply), change) ==> (
        change matches Step::Next(FlagChange::Write { fd: target, flags: _ }) && target == fd),
        call_ensures(FlagChange::reply, (FlagChange::Write { fd, flags }, reply), change) ==> (if reply.value == -1 {
            change == Step::<FlagChange, ()>::Done(Err(Error::Os(reply.errno)))
        } else {
            change matches Step::Done(Ok(_))
        }),
{
}

/// An object that could not be created failed for the first of its calls that did.
pub proof fn creation_fails_with_its_first_failure<O, U, T>(
    size: usize,
    open: O,
    unlink: U,
    truncate: T,
    memory: Result<SharedMem, CreationFailure>,
) where O: Fn(&String, OpenMode) -> Reply, U: FnOnce(&String) -> Reply, T: FnOnce(i32, usize) -> Reply
    requires
        call_ensures(SharedMem::new::<O, U, T>, (size, open, unlink, truncate), memory),
        forall|name: &String, mode: OpenMode, reply: Reply| #[trigger]
            open.ensures((name, mode), reply) ==> reply.value >= 0,
    ensures
        memory matches Err(failure) ==> {
            ||| exists|name: &String, reply: Reply| #[trigger]
                unlink.ensures((name,), reply) && reply.value < 0 && failure.error == Error::Os(reply.errno)
            ||| exists|fd: i32, reply: Reply| #[trigger]
                truncate.ensures((fd, size), reply) && reply.value < 0 && failure.error == Error::Os(reply.errno)
        },
{
    let (name, replies) = choose|name: String, replies: crate::unix::sharedmem::CreationReplies| #[trigger]
        crate::unix::sharedmem::created_by(open, unlink, truncate, size, name, replies) && match memory {
            Ok(m) => replies.outcome(size) == Ok::<SharedMem, (Error, Seq<ScopedFd>)>(m),
            Err(failure) => replies.outcome(size) == Err::<SharedMem, (Error, Seq<ScopedFd>)>(
                (failure.error, failure.close@),
            ),
        };
    let written = replies.read_write;
    let read = replies.read_only;
    assert(open.ensures((&name, OpenMode::CreateReadWrite), written));
    assert(written.value >= 0);
    assert(open.ensures((&name, OpenMode::ReadOnly), read));
    assert(read.value >= 0);
    let unlinked = replies.unlink;
    assert(unlink.ensures((&name,), unlinked));
    if unlinked.value >= 0 {
        let truncated = replies.truncate;
        assert(truncate.ensures((written.value, size), truncated));
    }
}

} // verus!
