//! What a queue in shared memory does for its users, in terms of what they hand over and what they get.

use crate::error::{Error, Fault};
use crate::layout::{lemma_round_up, round_up, CACHE_LINE, USIZE_SIZE};
use crate::shm::attempt::{Counter, Operation, Outcome, Popping, Progress, Pushing, Releasing};
use crate::shm::queue::{
    guarded, queue_lies_in_its_mapping, slots_are_apart, Check, Exchange, Handle, PoisonError, PopAttempt, PopGuard,
    PushAttempt, PushGuard, Queue, SharedMemQueueCtrl, CONTROL_SIZE,
};
use crate::shm::SharedMemMap;
use vstd::prelude::*;

verus! {

/// What is written for an index is what is read for that index: the consumer of an index gets the very slot that the
/// producer of the index got, and both get it whole and from its start.
pub proof fn item_is_read_where_it_was_written(queue: Queue, index: usize, last_recvd: usize, last_sent: usize)
    ensures
        forall|push: PushGuard, pop: PopGuard|
            #![trigger
                call_ensures(
                    Queue::check_push,
                    (&queue, PushAttempt { send_index: index }, last_recvd),
                    Check::Clear(push),
                ),
                call_ensures(
                    Queue::check_pop,
                    (&queue, PopAttempt { recv_index: index }, last_sent),
                    Check::Clear(pop),
                )
            ]
            call_ensures(Queue::check_push, (&queue, PushAttempt { send_index: index }, last_recvd), Check::Clear(push))
                && call_ensures(
                Queue::check_pop,
                (&queue, PopAttempt { recv_index: index }, last_sent),
                Check::Clear(pop),
            ) ==> {
                &&& push.slot == pop.slot
                &&& push.item_size == pop.item_size == queue.spec_item_size()
                &&& push.send_index == pop.recv_index == index
                &&& push.write_offset == 0
                &&& pop.read_offset == 0
            },
{
}

/// Slots follow each other in the order of indices, whole cache lines apart, and start anew behind the last one. Each
/// has room for an item, none reaches into another one or into the control block, and all of them lie in the mapping.
pub proof fn slots_follow_each_other(queue: Queue, i: usize, j: usize, last_recvd: usize, control: usize)
    requires
        queue.valid(),
    ensures
        forall|a: PushGuard, b: PushGuard|
            #![trigger
                call_ensures(Queue::check_push, (&queue, PushAttempt { send_index: i }, last_recvd), Check::Clear(a)),
                call_ensures(Queue::check_push, (&queue, PushAttempt { send_index: j }, last_recvd), Check::Clear(b))
            ]
            call_ensures(Queue::check_push, (&queue, PushAttempt { send_index: i }, last_recvd), Check::Clear(a))
                && call_ensures(
                Queue::check_push,
                (&queue, PushAttempt { send_index: j }, last_recvd),
                Check::Clear(b),
            ) && call_ensures(Queue::control, (&queue,), control) ==> {
                let stride = round_up(queue.spec_item_size() as int, CACHE_LINE as int);
                let n = queue.spec_item_count() as int;
                &&& stride % 64 == 0
                &&& queue.spec_item_size() <= stride < queue.spec_item_size() + 64
                &&& a.slot == queue.spec_items_base() + (i as int % n) * stride
                &&& i as int % n == j as int % n ==> a.slot == b.slot
                &&& i as int % n < j as int % n ==> a.slot + queue.spec_item_size() <= b.slot
                &&& queue.spec_mem().region.pointer <= a.slot
                &&& a.slot + queue.spec_item_size() <= control
                &&& control == queue.spec_items_base() + n * stride
                &&& control + CONTROL_SIZE <= queue.spec_mem().region.pointer + queue.spec_mem().region.len
            },
{
    lemma_round_up(queue.spec_item_size() as int, CACHE_LINE as int);
    queue_lies_in_its_mapping(queue);
    slots_are_apart(queue, i, j);
    slots_are_apart(queue, j, i);
}

/// A claimed send index gets its slot just where it lies within one round of the queue behind the last received index,
/// and else is put back as it was claimed: by one.
pub proof fn send_index_is_clear_within_one_round(queue: Queue, send_index: usize, last_recvd: usize)
    requires
        queue.valid(),
        last_recvd == usize::MAX ==> send_index <= isize::MAX,
        last_recvd != usize::MAX ==> last_recvd < send_index && send_index - last_recvd <= isize::MAX,
        send_index != usize::MAX,
    ensures
        forall|check: Check<PushGuard>| #[trigger]
            call_ensures(Queue::check_push, (&queue, PushAttempt { send_index }, last_recvd), check) ==> {
                let received = if last_recvd == usize::MAX {
                    -1int
                } else {
                    last_recvd as int
                };
                match check {
                    Check::Clear(guard) => send_index - received <= queue.spec_item_count() && guard.send_index
                        == send_index,
                    Check::PutBack(exchange) => send_index - received > queue.spec_item_count() && exchange.expected
                        == send_index + 1 && exchange.replacement == send_index,
                }
            },
{
}

/// A claimed receive index gets its item just where it is not behind the last sent index, and else is put back as it
/// was claimed: by one.
pub proof fn receive_index_is_clear_up_to_the_last_sent(queue: Queue, recv_index: usize, last_sent: usize)
    requires
        last_sent == usize::MAX ==> recv_index < isize::MAX,
        last_sent != usize::MAX ==> -isize::MAX <= last_sent - recv_index <= isize::MAX,
        recv_index != usize::MAX,
    ensures
        forall|check: Check<PopGuard>| #[trigger]
            call_ensures(Queue::check_pop, (&queue, PopAttempt { recv_index }, last_sent), check) ==> match check {
                Check::Clear(guard) => last_sent != usize::MAX && recv_index <= last_sent && guard.recv_index
                    == recv_index,
                Check::PutBack(exchange) => (last_sent == usize::MAX || recv_index > last_sent) && exchange.expected
                    == recv_index + 1 && exchange.replacement == recv_index,
            },
{
}

/// A queue that nobody else uses: `try_push` claims the next send index if fewer items wait than there are slots, and
/// else leaves everything as it was. What it hands out is what the check of that index hands out.
pub proof fn try_push_claims_the_next_slot(queue: Queue, sent: usize, received: usize, guard: Option<PushGuard>)
    requires
        queue.valid(),
        received <= sent < usize::MAX,
        sent - received <= queue.spec_item_count(),
    ensures
        forall|control: &mut SharedMemQueueCtrl| #[trigger]
            call_ensures(Queue::try_push, (&queue, control), guard) && control.next_send_index == sent && (received == 0
                ==> control.last_recvd_index == usize::MAX) && (received > 0 ==> control.last_recvd_index == received - 1)
                ==> {
                &&& guard is Some <==> sent - received < queue.spec_item_count()
                &&& final(control).next_send_index == (if guard is Some {
                    sent + 1
                } else {
                    sent as int
                })
                &&& final(control).last_sent_index == control.last_sent_index
                &&& final(control).next_recv_index == control.next_recv_index
                &&& final(control).last_recvd_index == control.last_recvd_index
                &&& final(control).poison == control.poison
                &&& guard matches Some(g) ==> g.send_index == sent && forall|check: Check<PushGuard>| #[trigger]
                    call_ensures(
                        Queue::check_push,
                        (&queue, PushAttempt { send_index: sent }, control.last_recvd_index),
                        check,
                    ) ==> check == Check::Clear(g)
            },
{
    queue_lies_in_its_mapping(queue);
}

/// A queue that nobody else uses: `try_pop` claims the next receive index if an item waits, and else leaves everything
/// as it was. The guard comes as an error just where the queue is poisoned.
pub proof fn try_pop_claims_the_next_item(
    queue: Queue,
    sent: usize,
    received: usize,
    guard: Result<Option<PopGuard>, PoisonError<Option<PopGuard>>>,
)
    requires
        queue.valid(),
        received <= sent < usize::MAX,
        sent - received <= queue.spec_item_count(),
    ensures
        forall|control: &mut SharedMemQueueCtrl| #[trigger]
            call_ensures(Queue::try_pop, (&queue, control), guard) && control.next_recv_index == received && (sent == 0
                ==> control.last_sent_index == usize::MAX) && (sent > 0 ==> control.last_sent_index == sent - 1) ==> {
                let item = match guard {
                    Ok(item) => item,
                    Err(poisoned) => poisoned.guard,
                };
                &&& item is Some <==> received < sent
                &&& guard is Err <==> item is Some && control.poison
                &&& final(control).next_recv_index == (if item is Some {
                    received + 1
                } else {
                    received as int
                })
                &&& final(control).next_send_index == control.next_send_index
                &&& final(control).last_sent_index == control.last_sent_index
                &&& final(control).last_recvd_index == control.last_recvd_index
                &&& final(control).poison == control.poison
                &&& item matches Some(g) ==> g.recv_index == received && forall|check: Check<PopGuard>| #[trigger]
                    call_ensures(
                        Queue::check_pop,
                        (&queue, PopAttempt { recv_index: received }, control.last_sent_index),
                        check,
                    ) ==> check == Check::Clear(g)
            },
{
    queue_lies_in_its_mapping(queue);
}

/// Guards are given up in the order of their indices: a guard moves the counter on from the index before its own to
/// its own, which is where the guard of the next index finds it. A new control block is where the first guard finds it.
pub proof fn guards_are_given_up_one_after_the_other(
    push: PushGuard,
    next_push: PushGuard,
    pop: PopGuard,
    next_pop: PopGuard,
    first: Exchange,
    second: Exchange,
    new: SharedMemQueueCtrl,
)
    requires
        next_push.send_index == push.send_index + 1,
        next_pop.recv_index == pop.recv_index + 1,
    ensures
        call_ensures(PushGuard::publish, (&push,), first) && call_ensures(PushGuard::publish, (&next_push,), second) ==> {
            &&& first.replacement == push.send_index
            &&& second.expected == first.replacement
            &&& second.replacement == next_push.send_index
        },
        call_ensures(PopGuard::give_back, (&pop,), first) && call_ensures(PopGuard::give_back, (&next_pop,), second)
            ==> {
            &&& first.replacement == pop.recv_index
            &&& second.expected == first.replacement
            &&& second.replacement == next_pop.recv_index
        },
        call_ensures(SharedMemQueueCtrl::new, (), new) ==> {
            &&& push.send_index == 0 && call_ensures(PushGuard::publish, (&push,), first) ==> first.expected
                == new.last_sent_index
            &&& pop.recv_index == 0 && call_ensures(PopGuard::give_back, (&pop,), first) ==> first.expected
                == new.last_recvd_index
            &&& new.next_send_index == 0
            &&& new.next_recv_index == 0
            &&& !new.poison
        },
{
}

/// Giving up a guard moves its own counter to its index and changes no other one. The queue is poisoned afterwards
/// just where it was before or the holder panics.
pub proof fn giving_up_a_guard_moves_its_counter(push: PushGuard, pop: PopGuard, panicking: bool)
    ensures
        forall|control: &mut SharedMemQueueCtrl| #[trigger]
            call_ensures(PushGuard::release, (push, control, panicking), ()) ==> {
                &&& final(control).last_sent_index == push.send_index
                &&& final(control).next_send_index == control.next_send_index
                &&& final(control).next_recv_index == control.next_recv_index
                &&& final(control).last_recvd_index == control.last_recvd_index
                &&& final(control).poison <==> control.poison || panicking
            },
        forall|control: &mut SharedMemQueueCtrl| #[trigger]
            call_ensures(PopGuard::release, (pop, control, panicking), ()) ==> {
                &&& final(control).last_recvd_index == pop.recv_index
                &&& final(control).next_send_index == control.next_send_index
                &&& final(control).next_recv_index == control.next_recv_index
                &&& final(control).last_sent_index == control.last_sent_index
                &&& final(control).poison <==> control.poison || panicking
            },
        forall|result: Result<Option<PopGuard>, PoisonError<Option<PopGuard>>>| #[trigger]
            call_ensures(guarded, (pop, panicking), result) ==> match result {
                Ok(item) => !panicking && item == Some(pop),
                Err(poisoned) => panicking && poisoned.guard == Some(pop),
            },
{
}

/// A write puts the first bytes behind those that were written before, as many as there is room for, and leaves the
/// rest of the slot as it is. The next write goes on behind them.
pub proof fn write_goes_on_where_the_last_one_ended(bytes: &[u8], count: usize)
    ensures
        forall|guard: &mut PushGuard, slot: &mut [u8]| #[trigger]
            call_ensures(PushGuard::write, (guard, slot, bytes), count) && guard.write_offset <= guard.item_size
                && slot@.len() == guard.item_size ==> {
                let room = guard.item_size - guard.write_offset;
                &&& count <= bytes@.len() && count <= room
                &&& count == bytes@.len() || count == room
                &&& final(slot)@.len() == slot@.len()
                &&& forall|k: int|
                    0 <= k < slot@.len() ==> #[trigger] final(slot)@[k] == (if guard.write_offset <= k
                        < guard.write_offset + count {
                        bytes@[k - guard.write_offset]
                    } else {
                        slot@[k]
                    })
                &&& final(guard).write_offset == guard.write_offset + count
                &&& final(guard).send_index == guard.send_index
                &&& final(guard).slot == guard.slot
                &&& final(guard).item_size == guard.item_size
            },
{
}

/// A read gives the next bytes of the slot behind those that were read before, as many as there are and the buffer
/// takes, and leaves the rest of the buffer as it is. The next read goes on behind them.
pub proof fn read_goes_on_where_the_last_one_ended(slot: &[u8], count: usize)
    ensures
        forall|guard: &mut PopGuard, buffer: &mut [u8]| #[trigger]
            call_ensures(PopGuard::read, (guard, slot, buffer), count) && guard.read_offset <= guard.item_size
                && slot@.len() == guard.item_size ==> {
                let left = guard.item_size - guard.read_offset;
                &&& count <= buffer@.len() && count <= left
                &&& count == buffer@.len() || count == left
                &&& final(buffer)@.len() == buffer@.len()
                &&& forall|k: int|
                    0 <= k < buffer@.len() ==> #[trigger] final(buffer)@[k] == (if k < count {
                        slot@[guard.read_offset + k]
                    } else {
                        buffer@[k]
                    })
                &&& final(guard).read_offset == guard.read_offset + count
                &&& final(guard).recv_index == guard.recv_index
                &&& final(guard).slot == guard.slot
                &&& final(guard).item_size == guard.item_size
            },
{
}

/// What is written to a fresh guard of a slot is read from a fresh guard of the slot: as many bytes as the item, the
/// message and the buffer have in common, from the first one on.
pub proof fn fresh_read_gives_back_fresh_write(bytes: &[u8], item: &[u8], written: usize, read: usize)
    ensures
        forall|push: &mut PushGuard, slot: &mut [u8], pop: &mut PopGuard, buffer: &mut [u8]|
            #![trigger
                call_ensures(PushGuard::write, (push, slot, bytes), written),
                call_ensures(PopGuard::read, (pop, item, buffer), read)
            ]
            call_ensures(PushGuard::write, (push, slot, bytes), written) && call_ensures(
                PopGuard::read,
                (pop, item, buffer),
                read,
            ) && push.write_offset == 0 && pop.read_offset == 0 && push.item_size == pop.item_size && slot@.len()
                == push.item_size && item@ == final(slot)@ && bytes@.len() <= push.item_size && bytes@.len()
                <= buffer@.len() ==> {
                &&& written == bytes@.len()
                &&& written <= read
                &&& final(buffer)@.take(written as int) == bytes@
            },
{
}

/// The size of a queue is that of its slots, each of whole cache lines and with room for an item, and of the control
/// block. A queue can be made just where there is room for it and its place is aligned, and it is made at that place.
pub proof fn queue_is_made_where_it_fits(
    item_size: usize,
    item_count: usize,
    memory: SharedMemMap,
    offset: usize,
    size: usize,
    made: Result<(Queue, SharedMemQueueCtrl), Error>,
)
    requires
        call_ensures(Queue::required_size, (item_size, item_count), size),
        call_ensures(Queue::new_with_memory, (item_size, item_count, memory, offset), made),
    ensures
        ({
            let stride = round_up(item_size as int, CACHE_LINE as int);
            &&& size == stride * item_count + 4 * 64 + USIZE_SIZE
            &&& item_size <= stride < item_size + 64
            &&& stride % 64 == 0
        }),
        made is Ok <==> offset + size <= memory.region.len && (memory.region.pointer + offset) % USIZE_SIZE as int == 0,
        match made {
            Ok((queue, control)) => {
                &&& queue.valid()
                &&& queue.spec_mem() == memory
                &&& queue.spec_item_size() == item_size
                &&& queue.spec_item_count() == item_count
                &&& queue.spec_items_base() == memory.region.pointer + offset
                &&& queue.spec_raw_offset() == memory.region.offset + offset
                &&& control.next_send_index == 0 && control.next_recv_index == 0 && !control.poison
            },
            Err(e) => if offset + size > memory.region.len {
                e == Error::Fault(Fault::QueueSpace)
            } else {
                e == Error::Fault(Fault::QueueUnaligned)
            },
        },
{
    lemma_round_up(item_size as int, CACHE_LINE as int);
}

/// A handle leads to its queue in every mapping of the same object that starts with the queue and has room for it: the
/// slots and the control block are at the same places of the object, and the items are of the same size and number.
pub proof fn handle_leads_to_the_same_slots(
    queue: Queue,
    handle: Handle,
    memory: SharedMemMap,
    size: usize,
    found: Result<Queue, Error>,
    i: usize,
    last_recvd: usize,
    here: PushGuard,
)
    requires
        queue.valid(),
        memory.valid(),
        call_ensures(Queue::handle, (&queue,), Ok(handle)),
        call_ensures(Queue::required_size, (queue.spec_item_size(), queue.spec_item_count()), size),
        call_ensures(Queue::from_handle, (handle, memory), found),
        call_ensures(Queue::check_push, (&queue, PushAttempt { send_index: i }, last_recvd), Check::Clear(here)),
    ensures
        handle.shm_token == queue.spec_mem().token,
        memory.token == queue.spec_mem().token && memory.region.offset == queue.spec_raw_offset() && size
            <= memory.region.len ==> found is Ok,
        memory.token != queue.spec_mem().token ==> found == Err::<Queue, Error>(Error::Fault(Fault::QueueForeignMemory)),
        found matches Ok(there) ==> {
            &&& there.spec_item_size() == queue.spec_item_size()
            &&& there.spec_item_count() == queue.spec_item_count()
            &&& there.spec_mem() == memory
            &&& there.spec_raw_offset() == queue.spec_raw_offset()
            &&& forall|guard: PushGuard| #[trigger]
                call_ensures(
                    Queue::check_push,
                    (&there, PushAttempt { send_index: i }, last_recvd),
                    Check::Clear(guard),
                ) ==> guard.slot - memory.region.pointer + memory.region.offset
                    == here.slot - queue.spec_mem().region.pointer + queue.spec_mem().region.offset
        },
{
    if let Ok(there) = found {
        queue_lies_in_its_mapping(queue);
        queue_lies_in_its_mapping(there);
        slots_are_apart(queue, i, i);
        slots_are_apart(there, i, i);
    }
}

/// A producer among others claims the next send index, looks at the last received index, and gets the slot or puts the
/// index back. It gets just what the check of its index gives.
pub proof fn producer_gets_what_its_check_gives(
    queue: Queue,
    attempt: PushAttempt,
    value: usize,
    exchanged: bool,
    operation: Operation,
    progress: Progress<Pushing, Option<PushGuard>>,
    check: Check<PushGuard>,
)
    requires
        attempt.send_index != usize::MAX,
    ensures
        call_ensures(Pushing::operation, (&Pushing::Claim,), operation) ==> operation == Operation::Increment(
            Counter::NextSend,
        ),
        call_ensures(Pushing::operation, (&Pushing::Check(attempt),), operation) ==> operation == Operation::Load(
            Counter::LastRecvd,
        ),
        call_ensures(Pushing::operation, (&Pushing::PutBack(attempt),), operation) ==> (
        operation matches Operation::CompareExchange(counter, e) && counter == Counter::NextSend && e.expected
            == attempt.send_index + 1 && e.replacement == attempt.send_index),
        call_ensures(Pushing::after, (Pushing::Claim, &queue, Outcome::Value(value)), progress) ==> progress
            == Progress::<Pushing, Option<PushGuard>>::Next(Pushing::Check(PushAttempt { send_index: value })),
        call_ensures(Pushing::after, (Pushing::Check(attempt), &queue, Outcome::Value(value)), progress)
            && call_ensures(Queue::check_push, (&queue, attempt, value), check) ==> match check {
            Check::Clear(guard) => progress == Progress::<Pushing, Option<PushGuard>>::Done(Some(guard)),
            Check::PutBack(_) => progress == Progress::<Pushing, Option<PushGuard>>::Next(Pushing::PutBack(attempt)),
        },
        call_ensures(Pushing::after, (Pushing::PutBack(attempt), &queue, Outcome::Exchanged(exchanged)), progress)
            ==> progress == (if exchanged {
            Progress::<Pushing, Option<PushGuard>>::Done(None)
        } else {
            Progress::Yield(Pushing::Check(attempt))
        }),
{
}

/// A consumer among others claims the next receive index, looks at the last sent index, and gets the item or puts the
/// index back. It gets just what the check of its index gives, as an error where the queue is poisoned.
pub proof fn consumer_gets_what_its_check_gives(
    queue: Queue,
    attempt: PopAttempt,
    value: usize,
    exchanged: bool,
    guard: PopGuard,
    poisoned: bool,
    operation: Operation,
    progress: Progress<Popping, Result<Option<PopGuard>, PoisonError<Option<PopGuard>>>>,
    check: Check<PopGuard>,
)
    requires
        attempt.recv_index != usize::MAX,
    ensures
        call_ensures(Popping::operation, (&Popping::Claim,), operation) ==> operation == Operation::Increment(
            Counter::NextRecv,
        ),
        call_ensures(Popping::operation, (&Popping::Check(attempt),), operation) ==> operation == Operation::Load(
            Counter::LastSent,
        ),
        call_ensures(Popping::operation, (&Popping::PutBack(attempt),), operation) ==> (
        operation matches Operation::CompareExchange(counter, e) && counter == Counter::NextRecv && e.expected
            == attempt.recv_index + 1 && e.replacement == attempt.recv_index),
        call_ensures(Popping::operation, (&Popping::CheckPoison(guard),), operation) ==> operation
            == Operation::LoadPoison,
        call_ensures(Popping::after, (Popping::Claim, &queue, Outcome::Value(value)), progress) ==> (
        progress matches Progress::Next(Popping::Check(claimed)) && claimed.recv_index == value),
        call_ensures(Popping::after, (Popping::Check(attempt), &queue, Outcome::Value(value)), progress)
            && call_ensures(Queue::check_pop, (&queue, attempt, value), check) ==> match check {
            Check::Clear(held) => progress matches Progress::Next(Popping::CheckPoison(next)) && next == held,
            Check::PutBack(_) => progress matches Progress::Next(Popping::PutBack(next)) && next == attempt,
        },
        call_ensures(Popping::after, (Popping::PutBack(attempt), &queue, Outcome::Exchanged(exchanged)), progress)
            ==> (if exchanged {
            progress matches Progress::Done(Ok(item)) && item is None
        } else {
            progress matches Progress::Yield(Popping::Check(next)) && next == attempt
        }),
        call_ensures(Popping::after, (Popping::CheckPoison(guard), &queue, Outcome::Poisoned(poisoned)), progress)
            ==> (if poisoned {
            progress matches Progress::Done(Err(e)) && e.guard == Some(guard)
        } else {
            progress matches Progress::Done(Ok(item)) && item == Some(guard)
        }),
{
}

/// A guard that is given up among others poisons the queue first if its holder panics, and then tries the very
/// exchange that the guard names, on its own counter, until that succeeds.
pub proof fn guard_is_given_up_by_its_own_exchange(
    push: PushGuard,
    pop: PopGuard,
    panicking: bool,
    exchanged: bool,
    counter: Counter,
    exchange: Exchange,
    releasing: Releasing,
    operation: Operation,
    progress: Progress<Releasing, ()>,
)
    ensures
        call_ensures(PushGuard::publish, (&push,), exchange) && call_ensures(
            Releasing::push,
            (&push, panicking),
            releasing,
        ) ==> releasing == (if panicking {
            Releasing::Poison(Counter::LastSent, exchange)
        } else {
            Releasing::MoveOn(Counter::LastSent, exchange)
        }),
        call_ensures(PopGuard::give_back, (&pop,), exchange) && call_ensures(
            Releasing::pop,
            (&pop, panicking),
            releasing,
        ) ==> releasing == (if panicking {
            Releasing::Poison(Counter::LastRecvd, exchange)
        } else {
            Releasing::MoveOn(Counter::LastRecvd, exchange)
        }),
        call_ensures(Releasing::operation, (&Releasing::Poison(counter, exchange),), operation) ==> operation
            == Operation::StorePoison,
        call_ensures(Releasing::operation, (&Releasing::MoveOn(counter, exchange),), operation) ==> operation
            == Operation::CompareExchange(counter, exchange),
        call_ensures(Releasing::after, (Releasing::Poison(counter, exchange), Outcome::Stored), progress) ==> progress
            == Progress::<Releasing, ()>::Next(Releasing::MoveOn(counter, exchange)),
        call_ensures(
            Releasing::after,
            (Releasing::MoveOn(counter, exchange), Outcome::Exchanged(exchanged)),
            progress,
        ) ==> progress == (if exchanged {
            Progress::<Releasing, ()>::Done(())
        } else {
            Progress::Yield(Releasing::MoveOn(counter, exchange))
        }),
{
}

/// Every queue has a handle. It is refused in a mapping of another object, and in one that does not hold the whole
/// queue from its start on, and leads to the queue in every other mapping that starts with it.
pub proof fn handle_is_refused_elsewhere(
    queue: Queue,
    made: Result<Handle, Error>,
    handle: Handle,
    memory: SharedMemMap,
    size: usize,
    found: Result<Queue, Error>,
)
    requires
        call_ensures(Queue::required_size, (handle.item_size, handle.item_count), size),
        call_ensures(Queue::from_handle, (handle, memory), found),
    ensures
        call_ensures(Queue::handle, (&queue,), made) ==> (made matches Ok(h) && h.item_size == queue.spec_item_size()
            && h.item_count == queue.spec_item_count() && h.raw_offset == queue.spec_raw_offset() && h.shm_token
            == queue.spec_mem().token),
        memory.token != handle.shm_token ==> found == Err::<Queue, Error>(Error::Fault(Fault::QueueForeignMemory)),
        memory.token == handle.shm_token && (handle.raw_offset > memory.region.offset || handle.raw_offset + size
            > memory.region.offset + memory.region.len) ==> found == Err::<Queue, Error>(
            Error::Fault(Fault::QueueOutsideMapping),
        ),
        memory.token == handle.shm_token && handle.raw_offset == memory.region.offset && size <= memory.region.len
            ==> found is Ok,
        found matches Ok(q) ==> q.spec_mem() == memory && q.spec_item_size() == handle.item_size && q.spec_item_count()
            == handle.item_count && q.spec_items_base() == memory.region.pointer && q.spec_raw_offset()
            == handle.raw_offset,
{
}

} // verus!
