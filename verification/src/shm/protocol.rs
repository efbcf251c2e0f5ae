//! The index protocol of a shared memory queue, under every interleaving of its users.
//!
//! A queue is driven by four counters that producers and consumers advance with atomic operations.
//! This module describes the whole system as a transition system: each transition is one atomic
//! operation of one user, and its guard is the decision that the user takes on what it read. It
//! proves what every reachable state keeps: nobody shares a slot, nothing is lost or reordered, and
//! somebody can always move on.

use vstd::prelude::*;
use vstd::set_lib::set_int_range;

verus! {

/// The number of values of a pointer-sized counter.
pub open spec fn ring_size() -> int {
    usize::MAX + 1
}

/// The counter value that stands for the index `i`: counters wrap around, so the index before the
/// first is stored as the greatest counter value.
pub open spec fn ring(i: int) -> usize
    recommends
        -1 <= i <= ring_size(),
{
    if i < 0 {
        (i + ring_size()) as usize
    } else if i > usize::MAX {
        (i - ring_size()) as usize
    } else {
        i as usize
    }
}

/// How far the counter value `a` is ahead of `b` on the ring, read as a signed distance.
pub open spec fn signed_gap(a: usize, b: usize) -> int {
    let d = if a >= b {
        a - b
    } else {
        a - b + ring_size()
    };
    if d <= isize::MAX {
        d
    } else {
        d - ring_size()
    }
}

/// Whether the slot of a claimed send index is free, judged by the last received index.
pub open spec fn push_clear(send_index: usize, last_recvd_index: usize, item_count: usize) -> bool {
    signed_gap(send_index, ring(last_recvd_index + 1)) < item_count
}

/// Whether the item of a claimed receive index is there, judged by the last sent index.
pub open spec fn pop_clear(recv_index: usize, last_sent_index: usize) -> bool {
    signed_gap(last_sent_index, recv_index) >= 0
}

/// How far one attempt to push or to pop has come.
pub enum Phase {
    /// It has claimed an index and does not know yet whether it may go on.
    Checking(int),
    /// It holds the slot of its index.
    Holding(int),
}

impl Phase {
    /// The index that the attempt has claimed.
    pub open spec fn index(self) -> int {
        match self {
            Phase::Checking(i) => i,
            Phase::Holding(i) => i,
        }
    }
}

/// A queue with all attempts that are under way.
pub struct QueueState<V> {
    /// The number of slots.
    pub item_count: usize,
    /// The next index that a producer will claim.
    pub next_send: int,
    /// The last index whose item is published.
    pub last_sent: int,
    /// The next index that a consumer will claim.
    pub next_recv: int,
    /// The last index whose slot is given back.
    pub last_recvd: int,
    /// The attempts to push that are under way.
    pub producers: Map<int, Phase>,
    /// The attempts to pop that are under way.
    pub consumers: Map<int, Phase>,
    /// What the slots hold.
    pub slots: Seq<V>,
    /// The items that were published, by their index.
    pub sent: Seq<V>,
}

/// One atomic operation of one attempt.
pub enum QueueStep<V> {
    /// A producer adds one to the next send index and claims the index that was there.
    PushClaim(int),
    /// A producer reads the last received index and finds its slot free.
    PushClear(int),
    /// A producer gives its index back by taking one from the next send index.
    PushPutBack(int),
    /// A producer writes to its slot.
    Write(int, V),
    /// A producer publishes its item by moving the last sent index from its predecessor to its own.
    PushDone(int),
    /// A consumer adds one to the next receive index and claims the index that was there.
    PopClaim(int),
    /// A consumer reads the last sent index and finds its item there.
    PopClear(int),
    /// A consumer gives its index back by taking one from the next receive index.
    PopPutBack(int),
    /// A consumer gives its slot back by moving the last received index.
    PopDone(int),
}

/// Attempts hold distinct indices, and together exactly those of `low + 1` up to `high`.
pub open spec fn partition(attempts: Map<int, Phase>, low: int, high: int) -> bool {
    &&& attempts.dom().finite()
    &&& forall|a: int| #[trigger] attempts.contains_key(a) ==> low < attempts[a].index() < high
    &&& forall|a: int, b: int|
        attempts.contains_key(a) && attempts.contains_key(b) && a != b ==> (
        #[trigger] attempts[a]).index() != (#[trigger] attempts[b]).index()
    &&& forall|i: int| low < i < high ==> #[trigger] owned(attempts, i)
}

/// Some attempt holds the index `i`.
pub open spec fn owned(attempts: Map<int, Phase>, i: int) -> bool {
    exists|a: int| #[trigger] attempts.contains_key(a) && attempts[a].index() == i
}

impl<V> QueueState<V> {
    /// A queue that nobody has used yet, over memory that holds `slots`.
    pub open spec fn initial(item_count: usize, slots: Seq<V>) -> Self {
        QueueState {
            item_count,
            next_send: 0,
            last_sent: -1,
            next_recv: 0,
            last_recvd: -1,
            producers: Map::empty(),
            consumers: Map::empty(),
            slots,
            sent: Seq::empty(),
        }
    }

    /// What every reachable state keeps.
    pub open spec fn valid(self) -> bool {
        &&& 0 < self.item_count <= isize::MAX
        &&& self.slots.len() == self.item_count
        &&& self.sent.len() == self.last_sent + 1
        &&& -1 <= self.last_recvd <= self.last_sent < self.next_send
        &&& self.last_recvd < self.next_recv
        &&& self.last_sent <= self.last_recvd + self.item_count
        &&& self.next_send <= usize::MAX
        &&& self.next_recv <= usize::MAX
        &&& partition(self.producers, self.last_sent, self.next_send)
        &&& partition(self.consumers, self.last_recvd, self.next_recv)
        &&& forall|a: int|
            self.producers.contains_key(a) ==> match #[trigger] self.producers[a] {
                Phase::Checking(_) => true,
                Phase::Holding(i) => i <= self.last_recvd + self.item_count,
            }
        &&& forall|a: int|
            self.consumers.contains_key(a) ==> match #[trigger] self.consumers[a] {
                Phase::Checking(_) => true,
                Phase::Holding(i) => i <= self.last_sent,
            }
        &&& forall|i: int|
            self.last_recvd < i <= self.last_sent ==> self.slots[self.slot(i)] == #[trigger] self.sent[i]
        &&& self.producers.dom().len() + self.item_count <= isize::MAX
        &&& self.consumers.dom().len() + self.item_count <= isize::MAX
    }

    /// The slot that an index stands for.
    pub open spec fn slot(self, i: int) -> int {
        i % self.item_count as int
    }

    /// Whether a step can be taken.
    ///
    /// A claim is bounded twice by the machine: the counter does not wrap around, and there are
    /// fewer attempts at a time than a signed counter can tell apart.
    pub open spec fn enabled(self, step: QueueStep<V>) -> bool {
        match step {
            QueueStep::PushClaim(a) => {
                &&& !self.producers.contains_key(a)
                &&& ring(self.next_send) != usize::MAX
                &&& self.producers.dom().len() + self.item_count < isize::MAX
            },
            QueueStep::PushClear(a) => {
                &&& self.producers.contains_key(a)
                &&& self.producers[a] is Checking
                &&& push_clear(ring(self.producers[a].index()), ring(self.last_recvd), self.item_count)
            },
            QueueStep::PushPutBack(a) => {
                &&& self.producers.contains_key(a)
                &&& self.producers[a] is Checking
                &&& ring(self.next_send) == ring(self.producers[a].index() + 1)
            },
            QueueStep::Write(a, _) => {
                &&& self.producers.contains_key(a)
                &&& self.producers[a] is Holding
            },
            QueueStep::PushDone(a) => {
                &&& self.producers.contains_key(a)
                &&& self.producers[a] is Holding
                &&& ring(self.last_sent) == ring(self.producers[a].index() - 1)
            },
            QueueStep::PopClaim(a) => {
                &&& !self.consumers.contains_key(a)
                &&& ring(self.next_recv) != usize::MAX
                &&& self.consumers.dom().len() + self.item_count < isize::MAX
            },
            QueueStep::PopClear(a) => {
                &&& self.consumers.contains_key(a)
                &&& self.consumers[a] is Checking
                &&& pop_clear(ring(self.consumers[a].index()), ring(self.last_sent))
            },
            QueueStep::PopPutBack(a) => {
                &&& self.consumers.contains_key(a)
                &&& self.consumers[a] is Checking
                &&& ring(self.next_recv) == ring(self.consumers[a].index() + 1)
            },
            QueueStep::PopDone(a) => {
                &&& self.consumers.contains_key(a)
                &&& self.consumers[a] is Holding
                &&& ring(self.last_recvd) == ring(self.consumers[a].index() - 1)
            },
        }
    }

    /// The state after a step.
    pub open spec fn after(self, step: QueueStep<V>) -> Self {
        match step {
            QueueStep::PushClaim(a) => QueueState {
                next_send: self.next_send + 1,
                producers: self.producers.insert(a, Phase::Checking(self.next_send)),
                ..self
            },
            QueueStep::PushClear(a) => QueueState {
                producers: self.producers.insert(a, Phase::Holding(self.producers[a].index())),
                ..self
            },
            QueueStep::PushPutBack(a) => QueueState {
                next_send: self.producers[a].index(),
                producers: self.producers.remove(a),
                ..self
            },
            QueueStep::Write(a, v) => QueueState {
                slots: self.slots.update(self.slot(self.producers[a].index()), v),
                ..self
            },
            QueueStep::PushDone(a) => QueueState {
                last_sent: self.producers[a].index(),
                producers: self.producers.remove(a),
                sent: self.sent.push(self.slots[self.slot(self.producers[a].index())]),
                ..self
            },
            QueueStep::PopClaim(a) => QueueState {
                next_recv: self.next_recv + 1,
                consumers: self.consumers.insert(a, Phase::Checking(self.next_recv)),
                ..self
            },
            QueueStep::PopClear(a) => QueueState {
                consumers: self.consumers.insert(a, Phase::Holding(self.consumers[a].index())),
                ..self
            },
            QueueStep::PopPutBack(a) => QueueState {
                next_recv: self.consumers[a].index(),
                consumers: self.consumers.remove(a),
                ..self
            },
            QueueStep::PopDone(a) => QueueState {
                last_recvd: self.consumers[a].index(),
                consumers: self.consumers.remove(a),
                ..self
            },
        }
    }

    /// A step of the producer `a`, other than a write, can be taken.
    pub open spec fn producer_can_move_on(self, a: int) -> bool {
        ||| self.enabled(QueueStep::PushDone(a))
        ||| self.enabled(QueueStep::PushClear(a))
        ||| self.enabled(QueueStep::PushPutBack(a))
    }

    /// A step of the consumer `a` can be taken.
    pub open spec fn consumer_can_move_on(self, a: int) -> bool {
        ||| self.enabled(QueueStep::PopDone(a))
        ||| self.enabled(QueueStep::PopClear(a))
        ||| self.enabled(QueueStep::PopPutBack(a))
    }

    /// The state after a whole run of steps, or nothing where a step of it cannot be taken.
    pub open spec fn run(self, steps: Seq<QueueStep<V>>) -> Option<Self>
        decreases steps.len(),
    {
        if steps.len() == 0 {
            Some(self)
        } else {
            match self.run(steps.drop_last()) {
                Some(s) => if s.enabled(steps.last()) {
                    Some(s.after(steps.last()))
                } else {
                    None
                },
                None => None,
            }
        }
    }
}

/// Counter values tell indices of `-1` up to the greatest counter value apart.
proof fn lemma_ring_injective(i: int, j: int)
    requires
        -1 <= i < usize::MAX,
        -1 <= j < usize::MAX,
    ensures
        ring(i) == ring(j) <==> i == j,
        0 <= i ==> ring(i) == i,
        i == -1 ==> ring(i) == usize::MAX,
{
}

/// The signed distance of two counter values is the distance of their indices, where that fits.
proof fn lemma_gap(i: int, j: int)
    requires
        -1 <= i <= usize::MAX,
        -1 <= j <= usize::MAX,
        -isize::MAX <= i - j <= isize::MAX,
    ensures
        signed_gap(ring(i), ring(j)) == i - j,
{
}

/// Indices less than a full turn apart have different slots.
proof fn lemma_slots_differ(i: int, j: int, n: int)
    requires
        0 < i - j < n,
    ensures
        i % n != j % n,
{
    if i % n == j % n {
        vstd::arithmetic::div_mod::lemma_mod_equivalence(i, j, n);
        vstd::arithmetic::div_mod::lemma_small_mod((i - j) as nat, n as nat);
    }
}

/// As many attempts are under way as there are indices between the two counters.
proof fn lemma_partition_size(attempts: Map<int, Phase>, low: int, high: int)
    requires
        partition(attempts, low, high),
        low < high,
    ensures
        attempts.dom().len() == high - low - 1,
{
    let f = |a: int| attempts[a].index();
    let image = attempts.dom().map(f);
    assert(image =~= set_int_range(low + 1, high)) by {
        assert forall|i: int| image.contains(i) == set_int_range(low + 1, high).contains(i) by {
            if low < i < high {
                assert(owned(attempts, i));
                let a = choose|a: int| #[trigger] attempts.contains_key(a) && attempts[a].index() == i;
                assert(attempts.dom().contains(a) && f(a) == i);
            }
            if image.contains(i) {
                let a = choose|a: int| attempts.dom().contains(a) && f(a) == i;
                assert(attempts.contains_key(a));
            }
        }
    }
    vstd::set_lib::lemma_int_range(low + 1, high);
    vstd::set_lib::lemma_map_size(attempts.dom(), image, f);
}

/// Giving a fresh attempt the index at the upper counter keeps the partition.
proof fn lemma_partition_claim(attempts: Map<int, Phase>, low: int, high: int, a: int)
    requires
        partition(attempts, low, high),
        low < high,
        !attempts.contains_key(a),
    ensures
        partition(attempts.insert(a, Phase::Checking(high)), low, high + 1),
{
    let new = attempts.insert(a, Phase::Checking(high));
    assert forall|i: int| low < i < high + 1 implies #[trigger] owned(new, i) by {
        if i == high {
            assert(new.contains_key(a) && new[a].index() == i);
        } else {
            assert(owned(attempts, i));
            let b = choose|b: int| #[trigger] attempts.contains_key(b) && attempts[b].index() == i;
            assert(new.contains_key(b) && new[b].index() == i);
        }
    }
}

/// An attempt that goes on to hold its index keeps the partition.
proof fn lemma_partition_hold(attempts: Map<int, Phase>, low: int, high: int, a: int)
    requires
        partition(attempts, low, high),
        attempts.contains_key(a),
    ensures
        partition(attempts.insert(a, Phase::Holding(attempts[a].index())), low, high),
        attempts.insert(a, Phase::Holding(attempts[a].index())).dom() == attempts.dom(),
{
    let new = attempts.insert(a, Phase::Holding(attempts[a].index()));
    assert(new.dom() =~= attempts.dom());
    assert forall|i: int| low < i < high implies #[trigger] owned(new, i) by {
        assert(owned(attempts, i));
        let b = choose|b: int| #[trigger] attempts.contains_key(b) && attempts[b].index() == i;
        assert(new.contains_key(b) && new[b].index() == i);
    }
}

/// Dropping the attempt with the highest index lowers the upper counter by one.
proof fn lemma_partition_drop_high(attempts: Map<int, Phase>, low: int, high: int, a: int)
    requires
        partition(attempts, low, high),
        attempts.contains_key(a),
        attempts[a].index() == high - 1,
    ensures
        partition(attempts.remove(a), low, high - 1),
{
    let new = attempts.remove(a);
    assert forall|b: int| #[trigger] new.contains_key(b) implies low < new[b].index() < high - 1 by {
        assert(attempts.contains_key(b));
        assert(attempts[a].index() != attempts[b].index());
    }
    assert forall|i: int| low < i < high - 1 implies #[trigger] owned(new, i) by {
        assert(owned(attempts, i));
        let b = choose|b: int| #[trigger] attempts.contains_key(b) && attempts[b].index() == i;
        assert(new.contains_key(b) && new[b].index() == i);
    }
}

/// Dropping the attempt with the lowest index raises the lower counter by one.
proof fn lemma_partition_drop_low(attempts: Map<int, Phase>, low: int, high: int, a: int)
    requires
        partition(attempts, low, high),
        attempts.contains_key(a),
        attempts[a].index() == low + 1,
    ensures
        partition(attempts.remove(a), low + 1, high),
{
    let new = attempts.remove(a);
    assert forall|b: int| #[trigger] new.contains_key(b) implies low + 1 < new[b].index() < high by {
        assert(attempts.contains_key(b));
        assert(attempts[a].index() != attempts[b].index());
    }
    assert forall|i: int| low + 1 < i < high implies #[trigger] owned(new, i) by {
        assert(owned(attempts, i));
        let b = choose|b: int| #[trigger] attempts.contains_key(b) && attempts[b].index() == i;
        assert(new.contains_key(b) && new[b].index() == i);
    }
}

/// In a valid state the decision of a producer is the comparison of indices that it stands for.
pub proof fn lemma_push_clear_is_room<V>(s: QueueState<V>, i: int)
    requires
        s.valid(),
        s.last_sent < i < s.next_send,
    ensures
        push_clear(ring(i), ring(s.last_recvd), s.item_count) <==> i <= s.last_recvd + s.item_count,
{
    lemma_partition_size(s.producers, s.last_sent, s.next_send);
    lemma_gap(i, s.last_recvd + 1);
    assert(ring(ring(s.last_recvd) + 1) == ring(s.last_recvd + 1));
}

/// In a valid state the decision of a consumer is the comparison of indices that it stands for.
pub proof fn lemma_pop_clear_is_item<V>(s: QueueState<V>, i: int)
    requires
        s.valid(),
        s.last_recvd < i < s.next_recv,
    ensures
        pop_clear(ring(i), ring(s.last_sent)) <==> i <= s.last_sent,
{
    lemma_partition_size(s.consumers, s.last_recvd, s.next_recv);
    lemma_gap(s.last_sent, i);
}

/// A queue that nobody has used yet is in a valid state.
pub proof fn initial_state_is_valid<V>(item_count: usize, slots: Seq<V>)
    requires
        0 < item_count <= isize::MAX,
        slots.len() == item_count,
    ensures
        QueueState::initial(item_count, slots).valid(),
{
    let s = QueueState::initial(item_count, slots);
    assert(s.producers.dom().len() == 0);
}

/// Every atomic operation of every user keeps the queue in a valid state.
pub proof fn step_keeps_state_valid<V>(s: QueueState<V>, step: QueueStep<V>)
    requires
        s.valid(),
        s.enabled(step),
    ensures
        s.after(step).valid(),
{
    let n = s.after(step);
    match step {
        QueueStep::PushClaim(a) => {
            lemma_partition_claim(s.producers, s.last_sent, s.next_send, a);
        },
        QueueStep::PushClear(a) => {
            lemma_push_clear_is_room(s, s.producers[a].index());
            lemma_partition_hold(s.producers, s.last_sent, s.next_send, a);
        },
        QueueStep::PushPutBack(a) => {
            lemma_ring_injective(s.next_send - 1, s.producers[a].index());
            lemma_partition_drop_high(s.producers, s.last_sent, s.next_send, a);
        },
        QueueStep::Write(a, v) => {
            let w = s.producers[a].index();
            assert forall|i: int| n.last_recvd < i <= n.last_sent implies n.slots[n.slot(i)]
                == #[trigger] n.sent[i] by {
                lemma_slots_differ(w, i, s.item_count as int);
            }
        },
        QueueStep::PushDone(a) => {
            lemma_ring_injective(s.last_sent, s.producers[a].index() - 1);
            lemma_partition_drop_low(s.producers, s.last_sent, s.next_send, a);
        },
        QueueStep::PopClaim(a) => {
            lemma_partition_claim(s.consumers, s.last_recvd, s.next_recv, a);
        },
        QueueStep::PopClear(a) => {
            lemma_pop_clear_is_item(s, s.consumers[a].index());
            lemma_partition_hold(s.consumers, s.last_recvd, s.next_recv, a);
        },
        QueueStep::PopPutBack(a) => {
            lemma_ring_injective(s.next_recv - 1, s.consumers[a].index());
            lemma_partition_drop_high(s.consumers, s.last_recvd, s.next_recv, a);
        },
        QueueStep::PopDone(a) => {
            lemma_ring_injective(s.last_recvd, s.consumers[a].index() - 1);
            lemma_partition_drop_low(s.consumers, s.last_recvd, s.next_recv, a);
        },
    }
}

/// Whatever the users of a new queue do, in whatever order, the queue stays in a valid state.
pub proof fn every_reachable_state_is_valid<V>(item_count: usize, slots: Seq<V>, steps: Seq<QueueStep<V>>)
    requires
        0 < item_count <= isize::MAX,
        slots.len() == item_count,
        QueueState::initial(item_count, slots).run(steps) is Some,
    ensures
        QueueState::initial(item_count, slots).run(steps)->0.valid(),
    decreases steps.len(),
{
    if steps.len() == 0 {
        initial_state_is_valid(item_count, slots);
    } else {
        every_reachable_state_is_valid(item_count, slots, steps.drop_last());
        let s = QueueState::initial(item_count, slots).run(steps.drop_last())->0;
        step_keeps_state_valid(s, steps.last());
    }
}

/// No two producers hold the same slot.
pub proof fn producers_hold_distinct_slots<V>(s: QueueState<V>, a: int, b: int)
    requires
        s.valid(),
        a != b,
        s.producers.contains_key(a) && s.producers[a] is Holding,
        s.producers.contains_key(b) && s.producers[b] is Holding,
    ensures
        s.slot(s.producers[a].index()) != s.slot(s.producers[b].index()),
{
    let i = s.producers[a].index();
    let j = s.producers[b].index();
    if i < j {
        lemma_slots_differ(j, i, s.item_count as int);
    } else {
        lemma_slots_differ(i, j, s.item_count as int);
    }
}

/// No two consumers hold the same slot.
pub proof fn consumers_hold_distinct_slots<V>(s: QueueState<V>, a: int, b: int)
    requires
        s.valid(),
        a != b,
        s.consumers.contains_key(a) && s.consumers[a] is Holding,
        s.consumers.contains_key(b) && s.consumers[b] is Holding,
    ensures
        s.slot(s.consumers[a].index()) != s.slot(s.consumers[b].index()),
{
    let i = s.consumers[a].index();
    let j = s.consumers[b].index();
    if i < j {
        lemma_slots_differ(j, i, s.item_count as int);
    } else {
        lemma_slots_differ(i, j, s.item_count as int);
    }
}

/// A slot that a consumer reads is never one that a producer writes.
pub proof fn producers_and_consumers_hold_distinct_slots<V>(s: QueueState<V>, a: int, b: int)
    requires
        s.valid(),
        s.producers.contains_key(a) && s.producers[a] is Holding,
        s.consumers.contains_key(b) && s.consumers[b] is Holding,
    ensures
        s.slot(s.producers[a].index()) != s.slot(s.consumers[b].index()),
{
    lemma_slots_differ(s.producers[a].index(), s.consumers[b].index(), s.item_count as int);
}

/// A consumer that holds an index finds in its slot the item that was published under that index.
pub proof fn consumer_reads_what_was_sent<V>(s: QueueState<V>, a: int)
    requires
        s.valid(),
        s.consumers.contains_key(a) && s.consumers[a] is Holding,
    ensures
        0 <= s.consumers[a].index() < s.sent.len(),
        s.slots[s.slot(s.consumers[a].index())] == s.sent[s.consumers[a].index()],
{
}

/// Published items keep their index and their contents for good, and a step publishes at most the
/// next one: items are received in the order in which they were sent.
pub proof fn sent_items_are_kept<V>(s: QueueState<V>, step: QueueStep<V>)
    requires
        s.valid(),
        s.enabled(step),
    ensures
        s.after(step).sent == s.sent || s.after(step).sent == s.sent.push(s.after(step).sent.last()),
        s.after(step).last_recvd == s.last_recvd || s.after(step).last_recvd == s.last_recvd + 1,
{
    match step {
        QueueStep::PopDone(a) => {
            lemma_ring_injective(s.last_recvd, s.consumers[a].index() - 1);
        },
        _ => {},
    }
}

/// No more items wait in the queue than it has slots.
pub proof fn queue_is_bounded<V>(s: QueueState<V>)
    requires
        s.valid(),
    ensures
        0 <= s.last_sent - s.last_recvd <= s.item_count,
{
}

/// A producer that gives its index back right after claiming it leaves no trace.
pub proof fn put_back_undoes_claim<V>(s: QueueState<V>, a: int)
    requires
        s.valid(),
        s.enabled(QueueStep::PushClaim(a)),
    ensures
        s.after(QueueStep::PushClaim(a)).enabled(QueueStep::PushPutBack(a)),
        s.after(QueueStep::PushClaim(a)).after(QueueStep::PushPutBack(a)) == s,
{
    let n = s.after(QueueStep::PushClaim(a)).after(QueueStep::PushPutBack(a));
    assert(n.producers =~= s.producers);
}

/// A consumer that gives its index back right after claiming it leaves no trace.
pub proof fn pop_put_back_undoes_claim<V>(s: QueueState<V>, a: int)
    requires
        s.valid(),
        s.enabled(QueueStep::PopClaim(a)),
    ensures
        s.after(QueueStep::PopClaim(a)).enabled(QueueStep::PopPutBack(a)),
        s.after(QueueStep::PopClaim(a)).after(QueueStep::PopPutBack(a)) == s,
{
    let n = s.after(QueueStep::PopClaim(a)).after(QueueStep::PopPutBack(a));
    assert(n.consumers =~= s.consumers);
}

/// While attempts to push are under way, at least one of them can move on: publish its item, learn
/// that its slot is free, or give its index back.
pub proof fn some_producer_can_move_on<V>(s: QueueState<V>)
    requires
        s.valid(),
        s.next_send > s.last_sent + 1,
    ensures
        exists|a: int| #[trigger] s.producer_can_move_on(a),
{
    assert(owned(s.producers, s.last_sent + 1));
    assert(owned(s.producers, s.next_send - 1));
    let low = choose|a: int|
        #[trigger] s.producers.contains_key(a) && s.producers[a].index() == s.last_sent + 1;
    let high = choose|a: int|
        #[trigger] s.producers.contains_key(a) && s.producers[a].index() == s.next_send - 1;
    if s.producers[high] is Checking {
        assert(s.producer_can_move_on(high));
    } else if s.producers[low] is Checking {
        lemma_push_clear_is_room(s, s.last_sent + 1);
        assert(s.producer_can_move_on(low));
    } else {
        assert(s.producer_can_move_on(low));
    }
}

/// While attempts to pop are under way, at least one of them can move on: give its slot back, learn
/// that its item is there, or give its index back.
pub proof fn some_consumer_can_move_on<V>(s: QueueState<V>)
    requires
        s.valid(),
        s.next_recv > s.last_recvd + 1,
    ensures
        exists|a: int| #[trigger] s.consumer_can_move_on(a),
{
    assert(owned(s.consumers, s.last_recvd + 1));
    assert(owned(s.consumers, s.next_recv - 1));
    let low = choose|a: int|
        #[trigger] s.consumers.contains_key(a) && s.consumers[a].index() == s.last_recvd + 1;
    let high = choose|a: int|
        #[trigger] s.consumers.contains_key(a) && s.consumers[a].index() == s.next_recv - 1;
    if s.consumers[high] is Checking {
        assert(s.consumer_can_move_on(high));
    } else if s.consumers[low] is Checking {
        lemma_pop_clear_is_item(s, s.last_recvd + 1);
        assert(s.consumer_can_move_on(low));
    } else {
        assert(s.consumer_can_move_on(low));
    }
}

} // verus!
