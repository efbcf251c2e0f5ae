//! A bounded queue of fixed-size items in shared memory, for any number of producers and consumers.
//!
//! The slots come first, each on cache lines of its own, and behind them the control block with the
//! counters. Producers and consumers claim an index by an atomic addition, look whether the slot of
//! that index is ready for them, and put the index back if it is not. Each of these decisions is a
//! function here; whoever has the memory performs the atomic operation and hands back what it read.

use crate::bytes::{copy, overwritten};
use crate::error::{Error, Fault};
use crate::layout::{align, lemma_round_up, round_up, CACHE_LINE, USIZE_SIZE};
use crate::shm::protocol::{pop_clear, push_clear, ring, signed_gap, QueueState, QueueStep};
use crate::shm::SharedMemMap;
use vstd::prelude::*;

verus! {

/// The number of bytes of the control block: four counters, each on a cache line of its own, and
/// the poison flag, filled up to the alignment of a counter.
pub const CONTROL_SIZE: usize = 4 * CACHE_LINE + USIZE_SIZE;

/// A queue in mapped memory.
#[derive(Clone, Copy, PartialEq, Eq, Structural, Debug)]
pub struct Queue {
    mem: SharedMemMap,
    raw_offset: usize,
    control: usize,
    items_base: usize,
    item_size: usize,
    item_offset: usize,
    item_count: usize,
}

/// What another process needs to find a queue in a shared memory object.
#[derive(Clone, Copy, PartialEq, Eq, Structural, Debug)]
pub struct Handle {
    pub raw_offset: usize,
    pub item_size: usize,
    pub item_count: usize,
    pub shm_token: u128,
}

/// What the control block of a queue holds.
#[derive(Clone, Copy, PartialEq, Eq, Structural, Debug)]
pub struct SharedMemQueueCtrl {
    pub next_send_index: usize,
    pub last_sent_index: usize,
    pub next_recv_index: usize,
    pub last_recvd_index: usize,
    pub poison: bool,
}

/// An atomic replacement of one counter value by another, if the counter still has the first.
#[derive(Clone, Copy, PartialEq, Eq, Structural, Debug)]
pub struct Exchange {
    pub expected: usize,
    pub replacement: usize,
}

/// A send index that was claimed, before it is known whether its slot is free.
#[derive(Clone, Copy, PartialEq, Eq, Structural, Debug)]
pub struct PushAttempt {
    pub send_index: usize,
}

/// A receive index that was claimed, before it is known whether its item is there.
#[derive(Clone, Copy, PartialEq, Eq, Structural, Debug)]
pub struct PopAttempt {
    pub recv_index: usize,
}

/// What a claimed index comes to.
#[derive(PartialEq, Eq, Structural, Debug)]
pub enum Check<G> {
    /// The slot is ready.
    Clear(G),
    /// The slot is not ready: the index is to be put back by this exchange of the counter that it
    /// was claimed from. If that succeeds the attempt is over, and if not it is checked again.
    PutBack(Exchange),
}

/// Holds a slot to write an item to.
#[derive(Clone, Copy, PartialEq, Eq, Structural, Debug)]
pub struct PushGuard {
    pub send_index: usize,
    /// The address of the slot.
    pub slot: usize,
    /// The number of bytes of an item.
    pub item_size: usize,
    /// The number of bytes that were written so far.
    pub write_offset: usize,
}

/// Holds a slot to read an item from.
#[derive(Clone, Copy, PartialEq, Eq, Structural, Debug)]
pub struct PopGuard {
    pub recv_index: usize,
    /// The address of the slot.
    pub slot: usize,
    /// The number of bytes of an item.
    pub item_size: usize,
    /// The number of bytes that were read so far.
    pub read_offset: usize,
}

/// What a lock gives back when somebody panicked while holding it.
#[derive(PartialEq, Eq, Structural, Debug)]
pub struct PoisonError<G> {
    pub guard: G,
}

/// The number of bytes that a queue takes.
pub open spec fn spec_required_size(item_size: int, item_count: int) -> int {
    round_up(item_size, CACHE_LINE as int) * item_count + CONTROL_SIZE
}

/// Items and their number are such that a queue can be made for them.
pub open spec fn queue_fits(item_size: usize, item_count: usize) -> bool {
    &&& 0 < item_size
    &&& 0 < item_count < isize::MAX
    &&& spec_required_size(item_size as int, item_count as int) <= usize::MAX
}

impl Handle {
    /// The number of bytes of the queue that the handle speaks of.
    pub open spec fn size(self) -> int {
        spec_required_size(self.item_size as int, self.item_count as int)
    }
}

impl SharedMemQueueCtrl {
    /// What the control block of a queue that nobody has used yet holds.
    pub open spec fn initial() -> SharedMemQueueCtrl {
        SharedMemQueueCtrl {
            next_send_index: 0,
            last_sent_index: usize::MAX,
            next_recv_index: 0,
            last_recvd_index: usize::MAX,
            poison: false,
        }
    }

    /// What the control block of a queue that nobody has used yet holds.
    pub fn new() -> (control: SharedMemQueueCtrl)
        ensures
            control == SharedMemQueueCtrl::initial(),
    {
        SharedMemQueueCtrl {
            next_send_index: 0,
            last_sent_index: usize::MAX,
            next_recv_index: 0,
            last_recvd_index: usize::MAX,
            poison: false,
        }
    }
}

impl PushAttempt {
    /// The exchange of the next send index that puts the claimed index back.
    pub open spec fn put_back(self) -> Exchange {
        Exchange { expected: ring(self.send_index + 1), replacement: self.send_index }
    }
}

impl PopAttempt {
    /// The exchange of the next receive index that puts the claimed index back.
    pub open spec fn put_back(self) -> Exchange {
        Exchange { expected: ring(self.recv_index + 1), replacement: self.recv_index }
    }
}

impl Queue {
    /// The mapping that the queue is in.
    pub closed spec fn spec_mem(self) -> SharedMemMap {
        self.mem
    }

    /// The place of the queue in the shared memory object.
    pub closed spec fn spec_raw_offset(self) -> usize {
        self.raw_offset
    }

    /// The address of the first slot.
    pub closed spec fn spec_items_base(self) -> usize {
        self.items_base
    }

    /// The number of bytes of an item.
    pub closed spec fn spec_item_size(self) -> usize {
        self.item_size
    }

    /// The number of slots.
    pub closed spec fn spec_item_count(self) -> usize {
        self.item_count
    }

    /// The distance of two slots.
    pub open spec fn spec_item_offset(self) -> int {
        round_up(self.spec_item_size() as int, CACHE_LINE as int)
    }

    /// The address of the control block.
    pub open spec fn spec_control(self) -> int {
        self.spec_items_base() + self.spec_item_count() * self.spec_item_offset()
    }

    /// The address of the slot of an index.
    pub open spec fn slot_address(self, index: usize) -> int {
        self.spec_items_base() + (index % self.spec_item_count()) * self.spec_item_offset()
    }

    /// The queue lies in its mapping, with the control block behind the slots.
    pub closed spec fn valid(self) -> bool {
        &&& self.mem.valid()
        &&& queue_fits(self.item_size, self.item_count)
        &&& self.item_offset == self.spec_item_offset()
        &&& self.control == self.spec_control()
        &&& self.mem.region.pointer <= self.items_base
        &&& self.items_base + spec_required_size(self.item_size as int, self.item_count as int)
            <= self.mem.region.pointer + self.mem.region.len
        &&& self.raw_offset - self.mem.region.offset == self.items_base - self.mem.region.pointer
    }

    /// The number of bytes that a queue for these items takes.
    pub fn required_size(item_size: usize, item_count: usize) -> (size: usize)
        requires
            queue_fits(item_size, item_count),
        ensures
            size == spec_required_size(item_size as int, item_count as int),
    {
        proof {
            lemma_queue_sizes(item_size, item_count);
        }
        let item_offset = Self::item_offset(item_size);
        item_offset * item_count + CONTROL_SIZE
    }

    /// The distance of two slots for items of this size.
    fn item_offset(item_size: usize) -> (offset: usize)
        requires
            item_size + CACHE_LINE <= usize::MAX + 1,
        ensures
            offset == round_up(item_size as int, CACHE_LINE as int),
    {
        proof {
            vstd::arithmetic::power2::lemma2_to64();
            assert(vstd::arithmetic::power2::pow2(6) == CACHE_LINE);
        }
        align(item_size, CACHE_LINE)
    }
}

/// The parts of a queue whose whole size fits do fit.
proof fn lemma_queue_sizes(item_size: usize, item_count: usize)
    requires
        queue_fits(item_size, item_count),
    ensures
        item_size + CACHE_LINE <= usize::MAX + 1,
        item_size <= round_up(item_size as int, CACHE_LINE as int),
        0 <= round_up(item_size as int, CACHE_LINE as int) * item_count <= usize::MAX - CONTROL_SIZE,
        round_up(item_size as int, CACHE_LINE as int) * item_count == item_count * round_up(
            item_size as int,
            CACHE_LINE as int,
        ),
        round_up(item_size as int, CACHE_LINE as int) <= round_up(item_size as int, CACHE_LINE as int) * item_count,
{
    let o = round_up(item_size as int, CACHE_LINE as int);
    lemma_round_up(item_size as int, CACHE_LINE as int);
    assert(o <= o * item_count && o * item_count == item_count * o) by (nonlinear_arith)
        requires
            0 < o,
            0 < item_count,
    ;
}

impl Queue {
    /// Makes a new queue at a place in mapped memory, together with what its control block is to
    /// hold at first.
    ///
    /// The memory from `offset` on has to be long enough and aligned for a counter.
    pub fn new_with_memory(
        item_size: usize,
        item_count: usize,
        memory: SharedMemMap,
        offset: usize,
    ) -> (queue: Result<(Queue, SharedMemQueueCtrl), Error>)
        requires
            queue_fits(item_size, item_count),
            memory.valid(),
            offset + spec_required_size(item_size as int, item_count as int) <= usize::MAX,
        ensures
            queue == Err::<(Queue, SharedMemQueueCtrl), Error>(Error::Fault(Fault::QueueSpace)) <==>
                memory.region.len < offset + spec_required_size(item_size as int, item_count as int),
            queue == Err::<(Queue, SharedMemQueueCtrl), Error>(Error::Fault(Fault::QueueUnaligned)) <==>
                memory.region.len >= offset + spec_required_size(item_size as int, item_count as int)
                && (memory.region.pointer + offset) % USIZE_SIZE as int != 0,
            queue matches Err(e) ==> e == Error::Fault(Fault::QueueSpace) || e == Error::Fault(Fault::QueueUnaligned),
            queue matches Ok((q, c)) ==> {
                &&& q.valid()
                &&& q.spec_mem() == memory
                &&& q.spec_raw_offset() == memory.region.offset + offset
                &&& q.spec_items_base() == memory.region.pointer + offset
                &&& q.spec_item_size() == item_size
                &&& q.spec_item_count() == item_count
                &&& c == SharedMemQueueCtrl::initial()
            },
    {
        let required_size = Queue::required_size(item_size, item_count);
        if memory.len() < offset + required_size {
            return Err(Error::Fault(Fault::QueueSpace));
        }
        if (memory.pointer() + offset) % USIZE_SIZE != 0 {
            return Err(Error::Fault(Fault::QueueUnaligned));
        }
        let raw_offset = memory.offset() + offset;
        proof {
            lemma_queue_sizes(item_size, item_count);
        }
        let item_offset = Self::item_offset(item_size);
        let items_base = memory.pointer() + offset;
        let control = items_base + item_count * item_offset;
        Ok((
            Queue { mem: memory, raw_offset, control, items_base, item_size, item_offset, item_count },
            SharedMemQueueCtrl::new(),
        ))
    }

    /// Finds the queue that a handle speaks of in mapped memory.
    ///
    /// The memory has to be of the object that the queue was made in. A queue that starts behind
    /// the first byte of the mapping is not found in it.
    pub fn from_handle(handle: Handle, memory: SharedMemMap) -> (queue: Result<Queue, Error>)
        requires
            memory.valid(),
            handle.shm_token == memory.token && handle.raw_offset <= memory.region.offset ==> {
                &&& queue_fits(handle.item_size, handle.item_count)
                &&& handle.raw_offset + handle.size() <= usize::MAX
                &&& handle.raw_offset == memory.region.offset || handle.raw_offset + handle.size()
                    > memory.region.offset + memory.region.len
            },
        ensures
            queue == Err::<Queue, Error>(Error::Fault(Fault::QueueForeignMemory)) <==> handle.shm_token != memory.token,
            queue == Err::<Queue, Error>(Error::Fault(Fault::QueueOutsideMapping)) <==> handle.shm_token
                == memory.token && (handle.raw_offset > memory.region.offset || handle.raw_offset + handle.size()
                > memory.region.offset + memory.region.len),
            queue matches Err(e) ==> e == Error::Fault(Fault::QueueForeignMemory) || e == Error::Fault(
                Fault::QueueOutsideMapping,
            ),
            queue matches Ok(q) ==> {
                &&& q.valid()
                &&& q.spec_mem() == memory
                &&& q.spec_raw_offset() == handle.raw_offset
                &&& q.spec_items_base() == memory.region.pointer
                &&& q.spec_item_size() == handle.item_size
                &&& q.spec_item_count() == handle.item_count
            },
    {
        if handle.shm_token != memory.token() {
            return Err(Error::Fault(Fault::QueueForeignMemory));
        }
        if !(handle.raw_offset <= memory.offset() && handle.raw_offset + Queue::required_size(
            handle.item_size,
            handle.item_count,
        ) <= memory.offset() + memory.len()) {
            return Err(Error::Fault(Fault::QueueOutsideMapping));
        }
        let local_offset = handle.raw_offset - memory.offset();
        proof {
            lemma_queue_sizes(handle.item_size, handle.item_count);
        }
        let item_offset = Self::item_offset(handle.item_size);
        let items_base = memory.pointer() + local_offset;
        let control = items_base + handle.item_count * item_offset;
        Ok(
            Queue {
                mem: memory,
                raw_offset: handle.raw_offset,
                control,
                items_base,
                item_size: handle.item_size,
                item_offset,
                item_count: handle.item_count,
            },
        )
    }

    /// A handle by which another process can find the queue.
    pub fn handle(&self) -> (handle: Result<Handle, Error>)
        ensures
            handle == Ok::<Handle, Error>(self.spec_handle()),
    {
        Ok(
            Handle {
                raw_offset: self.raw_offset,
                item_size: self.item_size,
                item_count: self.item_count,
                shm_token: self.mem.token(),
            },
        )
    }

    /// A handle by which another process can find the queue.
    pub open spec fn spec_handle(self) -> Handle {
        Handle {
            raw_offset: self.spec_raw_offset(),
            item_size: self.spec_item_size(),
            item_count: self.spec_item_count(),
            shm_token: self.spec_mem().token,
        }
    }

    /// The address of the control block.
    pub fn control(&self) -> (control: usize)
        requires
            self.valid(),
        ensures
            control == self.spec_control(),
            control + CONTROL_SIZE <= self.spec_mem().region.pointer + self.spec_mem().region.len,
    {
        proof {
            lemma_queue_sizes(self.item_size, self.item_count);
        }
        self.control
    }

    /// The address of the slot of an index.
    fn slot(&self, index: usize) -> (slot: usize)
        requires
            self.valid(),
        ensures
            slot == self.slot_address(index),
    {
        proof {
            lemma_slot_in_queue(*self, index);
        }
        self.items_base + (index % self.item_count) * self.item_offset
    }

    /// Decides whether the slot of a claimed send index is free, on the last received index that was
    /// read from the control block.
    pub fn check_push(&self, attempt: PushAttempt, last_recvd_index: usize) -> (check: Check<PushGuard>)
        requires
            self.valid(),
            attempt.send_index != usize::MAX,
        ensures
            check == if push_clear(attempt.send_index, last_recvd_index, self.spec_item_count()) {
                Check::Clear(self.push_guard(attempt.send_index))
            } else {
                Check::PutBack(attempt.put_back())
            },
    {
        if (wrapping_gap(attempt.send_index, last_recvd_index.wrapping_add(1))) < (self.item_count as isize) {
            Check::Clear(
                PushGuard {
                    send_index: attempt.send_index,
                    slot: self.slot(attempt.send_index),
                    item_size: self.item_size,
                    write_offset: 0,
                },
            )
        } else {
            Check::PutBack(
                Exchange { expected: attempt.send_index.wrapping_add(1), replacement: attempt.send_index },
            )
        }
    }

    /// Decides whether the item of a claimed receive index is there, on the last sent index that was
    /// read from the control block.
    pub fn check_pop(&self, attempt: PopAttempt, last_sent_index: usize) -> (check: Check<PopGuard>)
        requires
            self.valid(),
            attempt.recv_index != usize::MAX,
        ensures
            check == if pop_clear(attempt.recv_index, last_sent_index) {
                Check::Clear(self.pop_guard(attempt.recv_index))
            } else {
                Check::PutBack(attempt.put_back())
            },
    {
        if wrapping_gap(last_sent_index, attempt.recv_index) >= 0 {
            Check::Clear(
                PopGuard {
                    recv_index: attempt.recv_index,
                    slot: self.slot(attempt.recv_index),
                    item_size: self.item_size,
                    read_offset: 0,
                },
            )
        } else {
            Check::PutBack(
                Exchange { expected: attempt.recv_index.wrapping_add(1), replacement: attempt.recv_index },
            )
        }
    }

    /// A fresh guard of the slot of a send index.
    pub open spec fn push_guard(self, send_index: usize) -> PushGuard {
        PushGuard {
            send_index,
            slot: self.slot_address(send_index) as usize,
            item_size: self.spec_item_size(),
            write_offset: 0,
        }
    }

    /// A fresh guard of the slot of a receive index.
    pub open spec fn pop_guard(self, recv_index: usize) -> PopGuard {
        PopGuard {
            recv_index,
            slot: self.slot_address(recv_index) as usize,
            item_size: self.spec_item_size(),
            read_offset: 0,
        }
    }

    /// Claims a free slot of a queue that nobody else uses meanwhile.
    ///
    /// Gives nothing, and leaves the control block as it was, if all slots are taken.
    pub fn try_push(&self, control: &mut SharedMemQueueCtrl) -> (guard: Option<PushGuard>)
        requires
            self.valid(),
            old(control).next_send_index != usize::MAX,
        ensures
            guard is Some <==> push_clear(
                old(control).next_send_index,
                old(control).last_recvd_index,
                self.spec_item_count(),
            ),
            guard matches Some(g) ==> {
                &&& g == self.push_guard(old(control).next_send_index)
                &&& *final(control) == (SharedMemQueueCtrl {
                    next_send_index: (old(control).next_send_index + 1) as usize,
                    ..*old(control)
                })
            },
            guard is None ==> *final(control) == *old(control),
    {
        let send_index = control.next_send_index;
        control.next_send_index = send_index + 1;
        match self.check_push(PushAttempt { send_index }, control.last_recvd_index) {
            Check::Clear(guard) => Some(guard),
            Check::PutBack(exchange) => {
                control.next_send_index = exchange.replacement;
                None
            },
        }
    }

    /// Claims the next item of a queue that nobody else uses meanwhile.
    ///
    /// Gives nothing, and leaves the control block as it was, if there is none. The guard of an item
    /// comes as an error once somebody panicked while holding a slot.
    pub fn try_pop(&self, control: &mut SharedMemQueueCtrl) -> (guard: Result<
        Option<PopGuard>,
        PoisonError<Option<PopGuard>>,
    >)
        requires
            self.valid(),
            old(control).next_recv_index != usize::MAX,
        ensures
            ({
                let clear = pop_clear(old(control).next_recv_index, old(control).last_sent_index);
                let item = Some(self.pop_guard(old(control).next_recv_index));
                &&& !clear ==> guard == Ok::<_, PoisonError<Option<PopGuard>>>(None::<PopGuard>)
                &&& clear && !old(control).poison ==> guard == Ok::<_, PoisonError<Option<PopGuard>>>(item)
                &&& clear && old(control).poison ==> guard == Err::<Option<PopGuard>, _>(PoisonError { guard: item })
                &&& *final(control) == if clear {
                    SharedMemQueueCtrl {
                        next_recv_index: (old(control).next_recv_index + 1) as usize,
                        ..*old(control)
                    }
                } else {
                    *old(control)
                }
            }),
    {
        let recv_index = control.next_recv_index;
        control.next_recv_index = recv_index + 1;
        match self.check_pop(PopAttempt { recv_index }, control.last_sent_index) {
            Check::Clear(guard) => guarded(guard, control.poison),
            Check::PutBack(exchange) => {
                control.next_recv_index = exchange.replacement;
                Ok(None)
            },
        }
    }
}

/// Hands out the guard of an item, as an error where the queue is poisoned.
pub fn guarded(guard: PopGuard, poison: bool) -> (result: Result<Option<PopGuard>, PoisonError<Option<PopGuard>>>)
    ensures
        result == if poison {
            Err::<Option<PopGuard>, _>(PoisonError { guard: Some(guard) })
        } else {
            Ok(Some(guard))
        },
{
    if poison {
        Err(PoisonError { guard: Some(guard) })
    } else {
        Ok(Some(guard))
    }
}

/// How far `a` is ahead of `b`, read as a signed distance.
fn wrapping_gap(a: usize, b: usize) -> (gap: isize)
    ensures
        gap == signed_gap(a, b),
{
    let d: usize = a.wrapping_sub(b);
    if d <= isize::MAX as usize {
        d as isize
    } else {
        -((usize::MAX - d) as isize) - 1
    }
}

/// The slot of every index lies in the queue.
proof fn lemma_slot_in_queue(queue: Queue, index: usize)
    requires
        queue.valid(),
    ensures
        queue.item_offset * (index % queue.item_count) <= usize::MAX,
        (index % queue.item_count) * queue.item_offset == queue.slot_address(index) - queue.items_base,
        queue.items_base <= queue.slot_address(index),
        queue.slot_address(index) + queue.item_offset <= queue.control,
{
    let o = queue.item_offset as int;
    let n = queue.item_count as int;
    let k = index as int % n;
    lemma_queue_sizes(queue.item_size, queue.item_count);
    assert(0 <= k * o && k * o + o <= n * o && o * k == k * o) by (nonlinear_arith)
        requires
            0 <= k < n,
            0 < o,
    ;
}

/// The lesser of two lengths.
pub open spec fn lesser(a: int, b: int) -> int {
    if a <= b {
        a
    } else {
        b
    }
}

impl PushGuard {
    /// No more was written than an item holds.
    pub open spec fn valid(self) -> bool {
        self.write_offset <= self.item_size
    }

    /// Writes bytes to the slot, behind those that were written before, as far as there is room.
    /// Gives the number of bytes that were written.
    pub fn write(&mut self, slot: &mut [u8], bytes: &[u8]) -> (count: usize)
        requires
            old(self).valid(),
            old(slot)@.len() == old(self).item_size,
        ensures
            count == lesser(old(self).item_size - old(self).write_offset, bytes@.len() as int),
            final(slot)@ == overwritten(old(slot)@, old(self).write_offset as int, bytes@.take(count as int)),
            *final(self) == (PushGuard { write_offset: (old(self).write_offset + count) as usize, ..*old(self) }),
            final(self).valid(),
    {
        let room: usize = slot.len() - self.write_offset;
        let bytes_to_write: usize = if room <= bytes.len() {
            room
        } else {
            bytes.len()
        };
        copy(slot, self.write_offset, bytes, 0, bytes_to_write);
        proof {
            assert(bytes@.subrange(0, bytes_to_write as int) =~= bytes@.take(bytes_to_write as int));
        }
        self.write_offset = self.write_offset + bytes_to_write;
        bytes_to_write
    }

    /// The exchange of the last sent index that publishes the item. It is tried until it succeeds,
    /// which it does once every item before this one is published.
    pub fn publish(&self) -> (exchange: Exchange)
        ensures
            exchange == self.spec_publish(),
    {
        Exchange { expected: self.send_index.wrapping_sub(1), replacement: self.send_index }
    }

    /// The exchange of the last sent index that publishes the item.
    pub open spec fn spec_publish(self) -> Exchange {
        Exchange { expected: ring(self.send_index - 1), replacement: self.send_index }
    }

    /// Gives up the guard, in a queue where every item before this one is published: publishes the
    /// item, and poisons the queue if its holder panics.
    pub fn release(self, control: &mut SharedMemQueueCtrl, panicking: bool)
        requires
            old(control).last_sent_index == self.spec_publish().expected,
        ensures
            *final(control) == (SharedMemQueueCtrl {
                last_sent_index: self.send_index,
                poison: old(control).poison || panicking,
                ..*old(control)
            }),
    {
        if panicking {
            control.poison = true;
        }
        let exchange = self.publish();
        control.last_sent_index = exchange.replacement;
    }
}

impl PopGuard {
    /// No more was read than an item holds.
    pub open spec fn valid(self) -> bool {
        self.read_offset <= self.item_size
    }

    /// Reads bytes from the slot, behind those that were read before, as many as there are and as
    /// the buffer takes. Gives the number of bytes that were read.
    pub fn read(&mut self, slot: &[u8], buffer: &mut [u8]) -> (count: usize)
        requires
            old(self).valid(),
            slot@.len() == old(self).item_size,
        ensures
            count == lesser(old(self).item_size - old(self).read_offset, old(buffer)@.len() as int),
            final(buffer)@ == overwritten(
                old(buffer)@,
                0,
                slot@.subrange(old(self).read_offset as int, old(self).read_offset + count),
            ),
            *final(self) == (PopGuard { read_offset: (old(self).read_offset + count) as usize, ..*old(self) }),
            final(self).valid(),
    {
        let rest: usize = slot.len() - self.read_offset;
        let bytes_to_read: usize = if rest <= buffer.len() {
            rest
        } else {
            buffer.len()
        };
        copy(buffer, 0, slot, self.read_offset, bytes_to_read);
        self.read_offset = self.read_offset + bytes_to_read;
        bytes_to_read
    }

    /// The exchange of the last received index that gives the slot back. It is tried until it
    /// succeeds, which it does once every slot before this one is given back.
    pub fn give_back(&self) -> (exchange: Exchange)
        ensures
            exchange == self.spec_give_back(),
    {
        Exchange { expected: self.recv_index.wrapping_sub(1), replacement: self.recv_index }
    }

    /// The exchange of the last received index that gives the slot back.
    pub open spec fn spec_give_back(self) -> Exchange {
        Exchange { expected: ring(self.recv_index - 1), replacement: self.recv_index }
    }

    /// Gives up the guard, in a queue where every slot before this one is given back: gives the slot
    /// back, and poisons the queue if its holder panics.
    pub fn release(self, control: &mut SharedMemQueueCtrl, panicking: bool)
        requires
            old(control).last_recvd_index == self.spec_give_back().expected,
        ensures
            *final(control) == (SharedMemQueueCtrl {
                last_recvd_index: self.recv_index,
                poison: old(control).poison || panicking,
                ..*old(control)
            }),
    {
        if panicking {
            control.poison = true;
        }
        let exchange = self.give_back();
        control.last_recvd_index = exchange.replacement;
    }
}

/// The control block holds the counters of the state.
pub open spec fn represents<V>(control: SharedMemQueueCtrl, state: QueueState<V>) -> bool {
    &&& control.next_send_index == ring(state.next_send)
    &&& control.last_sent_index == ring(state.last_sent)
    &&& control.next_recv_index == ring(state.next_recv)
    &&& control.last_recvd_index == ring(state.last_recvd)
}

/// The first contents of a control block are those of a queue that nobody has used yet.
pub proof fn new_control_is_unused_queue<V>(item_count: usize, slots: Seq<V>)
    ensures
        represents(SharedMemQueueCtrl::initial(), QueueState::initial(item_count, slots)),
{
}

/// A handle leads back to the queue that it was taken from, in the mapping that the queue was made
/// in, if the queue starts with the mapping: `from_handle` refuses neither the memory nor the range,
/// and all that it fixes of its result is what the queue has.
pub proof fn handle_leads_back_to_queue(queue: Queue)
    requires
        queue.valid(),
        queue.spec_raw_offset() == queue.spec_mem().region.offset,
    ensures
        queue.spec_handle().shm_token == queue.spec_mem().token,
        queue_fits(queue.spec_handle().item_size, queue.spec_handle().item_count),
        queue.spec_handle().raw_offset == queue.spec_mem().region.offset,
        queue.spec_handle().raw_offset + queue.spec_handle().size() <= queue.spec_mem().region.offset
            + queue.spec_mem().region.len,
        queue.spec_items_base() == queue.spec_mem().region.pointer,
        forall|other: Queue|
            #![trigger other.valid()]
            other.valid() && other.spec_mem() == queue.spec_mem() && other.spec_raw_offset()
                == queue.spec_handle().raw_offset && other.spec_items_base() == queue.spec_mem().region.pointer
                && other.spec_item_size() == queue.spec_handle().item_size && other.spec_item_count()
                == queue.spec_handle().item_count ==> other == queue,
{
}

/// Slots of different places do not overlap, and none overlaps the control block.
pub proof fn slots_are_apart(queue: Queue, i: usize, j: usize)
    requires
        queue.valid(),
    ensures
        queue.spec_mem().region.pointer <= queue.slot_address(i),
        queue.slot_address(i) + queue.spec_item_size() <= queue.spec_control(),
        i % queue.spec_item_count() < j % queue.spec_item_count() ==> queue.slot_address(i)
            + queue.spec_item_size() <= queue.slot_address(j),
{
    lemma_queue_sizes(queue.item_size, queue.item_count);
    lemma_slot_in_queue(queue, i);
    lemma_slot_in_queue(queue, j);
    let o = queue.item_offset as int;
    let a = (i % queue.item_count) as int;
    let b = (j % queue.item_count) as int;
    if a < b {
        assert(a * o + o <= b * o) by (nonlinear_arith)
            requires
                a < b,
                0 < o,
        ;
    }
}

/// A queue lies in its mapping, with the control block at its end, and its place in the object is that of its first
/// slot.
pub proof fn queue_lies_in_its_mapping(queue: Queue)
    requires
        queue.valid(),
    ensures
        queue.spec_mem().valid(),
        queue_fits(queue.spec_item_size(), queue.spec_item_count()),
        queue.spec_mem().region.pointer <= queue.spec_items_base() <= queue.spec_control(),
        queue.spec_control() + CONTROL_SIZE <= queue.spec_mem().region.pointer + queue.spec_mem().region.len,
        queue.spec_raw_offset() - queue.spec_mem().region.offset == queue.spec_items_base()
            - queue.spec_mem().region.pointer,
{
    lemma_queue_sizes(queue.item_size, queue.item_count);
}

/// A claim of a slot by `try_push` is a claim of the next send index and the finding that its slot
/// is free, in the protocol; and where the protocol does not find the slot free, `try_push` gives
/// nothing.
pub proof fn try_push_follows_protocol<V>(control: SharedMemQueueCtrl, state: QueueState<V>, a: int)
    requires
        state.valid(),
        represents(control, state),
        state.enabled(QueueStep::PushClaim(a)),
    ensures
        control.next_send_index != usize::MAX,
        push_clear(control.next_send_index, control.last_recvd_index, state.item_count) <==> state.after(
            QueueStep::PushClaim(a),
        ).enabled(QueueStep::PushClear(a)),
        represents(
            SharedMemQueueCtrl { next_send_index: (control.next_send_index + 1) as usize, ..control },
            state.after(QueueStep::PushClaim(a)).after(QueueStep::PushClear(a)),
        ),
{
}

/// A claim of an item by `try_pop` is a claim of the next receive index and the finding that its
/// item is there, in the protocol; and where the protocol does not find the item, `try_pop` gives
/// nothing.
pub proof fn try_pop_follows_protocol<V>(control: SharedMemQueueCtrl, state: QueueState<V>, a: int)
    requires
        state.valid(),
        represents(control, state),
        state.enabled(QueueStep::PopClaim(a)),
    ensures
        control.next_recv_index != usize::MAX,
        pop_clear(control.next_recv_index, control.last_sent_index) <==> state.after(
            QueueStep::PopClaim(a),
        ).enabled(QueueStep::PopClear(a)),
        represents(
            SharedMemQueueCtrl { next_recv_index: (control.next_recv_index + 1) as usize, ..control },
            state.after(QueueStep::PopClaim(a)).after(QueueStep::PopClear(a)),
        ),
{
}

/// Giving up a guard is the last step of an attempt, in the protocol.
pub proof fn release_follows_protocol<V>(
    control: SharedMemQueueCtrl,
    state: QueueState<V>,
    a: int,
    push: PushGuard,
    pop: PopGuard,
)
    requires
        state.valid(),
        represents(control, state),
    ensures
        state.producers.contains_key(a) && state.producers[a] is Holding && push.send_index == ring(
            state.producers[a].index(),
        ) ==> {
            &&& state.enabled(QueueStep::PushDone(a)) <==> control.last_sent_index == push.spec_publish().expected
            &&& represents(
                SharedMemQueueCtrl { last_sent_index: push.spec_publish().replacement, ..control },
                state.after(QueueStep::PushDone(a)),
            )
        },
        state.consumers.contains_key(a) && state.consumers[a] is Holding && pop.recv_index == ring(
            state.consumers[a].index(),
        ) ==> {
            &&& state.enabled(QueueStep::PopDone(a)) <==> control.last_recvd_index == pop.spec_give_back().expected
            &&& represents(
                SharedMemQueueCtrl { last_recvd_index: pop.spec_give_back().replacement, ..control },
                state.after(QueueStep::PopDone(a)),
            )
        },
{
}

/// While nobody holds a slot, `try_push` finds a queue full exactly when as many items wait as it
/// has slots, and `try_pop` finds it empty exactly when none waits.
pub proof fn quiet_queue_is_full_at_capacity<V>(state: QueueState<V>, a: int)
    requires
        state.valid(),
        state.next_send == state.last_sent + 1,
        state.next_recv == state.last_recvd + 1,
        state.enabled(QueueStep::PushClaim(a)),
        state.enabled(QueueStep::PopClaim(a)),
    ensures
        push_clear(ring(state.next_send), ring(state.last_recvd), state.item_count) <==> state.last_sent
            - state.last_recvd < state.item_count,
        pop_clear(ring(state.next_recv), ring(state.last_sent)) <==> state.last_sent - state.last_recvd > 0,
{
    crate::shm::protocol::step_keeps_state_valid(state, QueueStep::PushClaim(a));
    crate::shm::protocol::lemma_push_clear_is_room(state.after(QueueStep::PushClaim(a)), state.next_send);
    crate::shm::protocol::step_keeps_state_valid(state, QueueStep::PopClaim(a));
    crate::shm::protocol::lemma_pop_clear_is_item(state.after(QueueStep::PopClaim(a)), state.next_recv);
}

/// What a producer writes to its slot, a consumer of that slot reads: after a write of `bytes` to a
/// fresh guard, a read with a buffer of as many bytes gives them.
pub proof fn read_gives_back_what_was_written(slot: Seq<u8>, bytes: Seq<u8>, item_size: int)
    requires
        slot.len() == item_size,
    ensures
        ({
            let count = lesser(item_size, bytes.len() as int);
            overwritten(slot, 0, bytes.take(count)).subrange(0, count) == bytes.take(count)
        }),
{
    let count = lesser(item_size, bytes.len() as int);
    crate::bytes::overwritten_reads_back(slot, 0, bytes.take(count));
}

} // verus!
