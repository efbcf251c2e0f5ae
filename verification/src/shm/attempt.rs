//! Attempts to push to a queue and to pop from one, while others do the same, and the giving up of guards.
//!
//! An attempt says which atomic operation on the control block is due, and moves on when it is told what the
//! operation read. It ends with a guard of a slot, or without one where the queue is full or empty. A guard is given
//! up in the same way, once everybody before is done.

use crate::shm::protocol::{pop_clear, push_clear, ring, QueueState, QueueStep};
use crate::shm::queue::{
    guarded, represents, Check, Exchange, PoisonError, PopAttempt, PopGuard, PushAttempt, PushGuard, Queue,
    SharedMemQueueCtrl,
};
use vstd::prelude::*;

verus! {

/// A counter in the control block.
#[derive(Clone, Copy, PartialEq, Eq, Structural, Debug)]
pub enum Counter {
    NextSend,
    LastSent,
    NextRecv,
    LastRecvd,
}

/// An atomic operation on the control block.
#[derive(Clone, Copy, PartialEq, Eq, Structural, Debug)]
pub enum Operation {
    /// Add one to a counter, and read what it was.
    Increment(Counter),
    /// Read a counter.
    Load(Counter),
    /// Replace a counter's value, if it still has the one that is expected. This may fail for no reason.
    CompareExchange(Counter, Exchange),
    /// Read the poison flag.
    LoadPoison,
    /// Set the poison flag.
    StorePoison,
}

/// What an atomic operation gave.
#[derive(Clone, Copy, PartialEq, Eq, Structural, Debug)]
pub enum Outcome {
    /// The value that was read.
    Value(usize),
    /// Whether a value was replaced.
    Exchanged(bool),
    /// Whether the queue is poisoned.
    Poisoned(bool),
    /// The poison flag is set.
    Stored,
}

/// An attempt to push to a queue.
#[derive(Clone, Copy, PartialEq, Eq, Structural, Debug)]
pub enum Pushing {
    /// An index is to be claimed.
    Claim,
    /// It is to be found out whether the slot of the index is free.
    Check(PushAttempt),
    /// The slot was not free, and the index is to be put back.
    PutBack(PushAttempt),
}

/// An attempt to pop from a queue.
#[derive(Clone, Copy, PartialEq, Eq, Structural, Debug)]
pub enum Popping {
    /// An index is to be claimed.
    Claim,
    /// It is to be found out whether the item of the index is there.
    Check(PopAttempt),
    /// The item was not there, and the index is to be put back.
    PutBack(PopAttempt),
    /// The item is there, and it is to be found out whether the queue is poisoned.
    CheckPoison(PopGuard),
}

/// The giving up of a guard: a counter is to be moved on to the index of the guard.
#[derive(Clone, Copy, PartialEq, Eq, Structural, Debug)]
pub enum Releasing {
    /// The holder panics, and the queue is to be poisoned before the counter is moved on.
    Poison(Counter, Exchange),
    /// The counter is to be moved on. This succeeds once everybody before is done.
    MoveOn(Counter, Exchange),
}

/// What an attempt comes to.
#[derive(PartialEq, Eq, Debug)]
pub enum Progress<S, T> {
    /// There is another operation to perform.
    Next(S),
    /// There is another operation to perform, but others should have a chance to do something first.
    Yield(S),
    /// The attempt is over.
    Done(T),
}

impl Pushing {
    /// The operation that is due.
    pub open spec fn spec_operation(self) -> Operation {
        match self {
            Pushing::Claim => Operation::Increment(Counter::NextSend),
            Pushing::Check(_) => Operation::Load(Counter::LastRecvd),
            Pushing::PutBack(attempt) => Operation::CompareExchange(Counter::NextSend, attempt.put_back()),
        }
    }

    /// The outcome is one of the operation that is due. Counters do not get as far as their greatest value.
    pub open spec fn accepts(self, outcome: Outcome) -> bool {
        match self {
            Pushing::Claim => outcome matches Outcome::Value(index) && index != usize::MAX,
            Pushing::Check(attempt) => outcome is Value && attempt.send_index != usize::MAX,
            Pushing::PutBack(_) => outcome is Exchanged,
        }
    }

    /// What the attempt comes to after an operation.
    pub open spec fn spec_after(self, queue: Queue, outcome: Outcome) -> Progress<Pushing, Option<PushGuard>> {
        match self {
            Pushing::Claim => Progress::Next(Pushing::Check(PushAttempt { send_index: outcome->Value_0 })),
            Pushing::Check(attempt) => if push_clear(
                attempt.send_index,
                outcome->Value_0,
                queue.spec_item_count(),
            ) {
                Progress::Done(Some(queue.push_guard(attempt.send_index)))
            } else {
                Progress::Next(Pushing::PutBack(attempt))
            },
            Pushing::PutBack(attempt) => if outcome->Exchanged_0 {
                Progress::Done(None)
            } else {
                Progress::Yield(Pushing::Check(attempt))
            },
        }
    }

    /// The operation that is due.
    pub fn operation(&self) -> (operation: Operation)
        requires
            self matches Pushing::PutBack(attempt) ==> attempt.send_index != usize::MAX,
        ensures
            operation == self.spec_operation(),
    {
        match self {
            Pushing::Claim => Operation::Increment(Counter::NextSend),
            Pushing::Check(_) => Operation::Load(Counter::LastRecvd),
            Pushing::PutBack(attempt) => Operation::CompareExchange(
                Counter::NextSend,
                Exchange { expected: attempt.send_index + 1, replacement: attempt.send_index },
            ),
        }
    }

    /// Moves on with what the operation that was due gave.
    pub fn after(self, queue: &Queue, outcome: Outcome) -> (progress: Progress<Pushing, Option<PushGuard>>)
        requires
            queue.valid(),
            self.accepts(outcome),
        ensures
            progress == self.spec_after(*queue, outcome),
    {
        match (self, outcome) {
            (Pushing::Claim, Outcome::Value(send_index)) => Progress::Next(Pushing::Check(PushAttempt { send_index })),
            (Pushing::Check(attempt), Outcome::Value(last_recvd_index)) => match queue.check_push(
                attempt,
                last_recvd_index,
            ) {
                Check::Clear(guard) => Progress::Done(Some(guard)),
                Check::PutBack(_) => Progress::Next(Pushing::PutBack(attempt)),
            },
            (Pushing::PutBack(attempt), Outcome::Exchanged(exchanged)) => if exchanged {
                Progress::Done(None)
            } else {
                Progress::Yield(Pushing::Check(attempt))
            },
            (attempt, _) => Progress::Next(attempt),
        }
    }
}

impl Popping {
    /// The operation that is due.
    pub open spec fn spec_operation(self) -> Operation {
        match self {
            Popping::Claim => Operation::Increment(Counter::NextRecv),
            Popping::Check(_) => Operation::Load(Counter::LastSent),
            Popping::PutBack(attempt) => Operation::CompareExchange(Counter::NextRecv, attempt.put_back()),
            Popping::CheckPoison(_) => Operation::LoadPoison,
        }
    }

    /// The outcome is one of the operation that is due. Counters do not get as far as their greatest value.
    pub open spec fn accepts(self, outcome: Outcome) -> bool {
        match self {
            Popping::Claim => outcome matches Outcome::Value(index) && index != usize::MAX,
            Popping::Check(attempt) => outcome is Value && attempt.recv_index != usize::MAX,
            Popping::PutBack(_) => outcome is Exchanged,
            Popping::CheckPoison(_) => outcome is Poisoned,
        }
    }

    /// What the attempt comes to after an operation.
    pub open spec fn spec_after(self, queue: Queue, outcome: Outcome) -> Progress<
        Popping,
        Result<Option<PopGuard>, PoisonError<Option<PopGuard>>>,
    > {
        match self {
            Popping::Claim => Progress::Next(Popping::Check(PopAttempt { recv_index: outcome->Value_0 })),
            Popping::Check(attempt) => if pop_clear(attempt.recv_index, outcome->Value_0) {
                Progress::Next(Popping::CheckPoison(queue.pop_guard(attempt.recv_index)))
            } else {
                Progress::Next(Popping::PutBack(attempt))
            },
            Popping::PutBack(attempt) => if outcome->Exchanged_0 {
                Progress::Done(Ok(None))
            } else {
                Progress::Yield(Popping::Check(attempt))
            },
            Popping::CheckPoison(guard) => if outcome->Poisoned_0 {
                Progress::Done(Err(PoisonError { guard: Some(guard) }))
            } else {
                Progress::Done(Ok(Some(guard)))
            },
        }
    }

    /// The operation that is due.
    pub fn operation(&self) -> (operation: Operation)
        requires
            self matches Popping::PutBack(attempt) ==> attempt.recv_index != usize::MAX,
        ensures
            operation == self.spec_operation(),
    {
        match self {
            Popping::Claim => Operation::Increment(Counter::NextRecv),
            Popping::Check(_) => Operation::Load(Counter::LastSent),
            Popping::PutBack(attempt) => Operation::CompareExchange(
                Counter::NextRecv,
                Exchange { expected: attempt.recv_index + 1, replacement: attempt.recv_index },
            ),
            Popping::CheckPoison(_) => Operation::LoadPoison,
        }
    }

    /// Moves on with what the operation that was due gave.
    pub fn after(self, queue: &Queue, outcome: Outcome) -> (progress: Progress<
        Popping,
        Result<Option<PopGuard>, PoisonError<Option<PopGuard>>>,
    >)
        requires
            queue.valid(),
            self.accepts(outcome),
        ensures
            progress == self.spec_after(*queue, outcome),
    {
        match (self, outcome) {
            (Popping::Claim, Outcome::Value(recv_index)) => Progress::Next(Popping::Check(PopAttempt { recv_index })),
            (Popping::Check(attempt), Outcome::Value(last_sent_index)) => match queue.check_pop(
                attempt,
                last_sent_index,
            ) {
                Check::Clear(guard) => Progress::Next(Popping::CheckPoison(guard)),
                Check::PutBack(_) => Progress::Next(Popping::PutBack(attempt)),
            },
            (Popping::PutBack(attempt), Outcome::Exchanged(exchanged)) => if exchanged {
                Progress::Done(Ok(None))
            } else {
                Progress::Yield(Popping::Check(attempt))
            },
            (Popping::CheckPoison(guard), Outcome::Poisoned(poison)) => Progress::Done(guarded(guard, poison)),
            (attempt, _) => Progress::Next(attempt),
        }
    }
}

impl Releasing {
    /// The giving up of a guard of a slot that was written to: the item is to be published.
    pub open spec fn spec_push(guard: PushGuard, panicking: bool) -> Releasing {
        if panicking {
            Releasing::Poison(Counter::LastSent, guard.spec_publish())
        } else {
            Releasing::MoveOn(Counter::LastSent, guard.spec_publish())
        }
    }

    /// The giving up of a guard of a slot that was read from: the slot is to be given back.
    pub open spec fn spec_pop(guard: PopGuard, panicking: bool) -> Releasing {
        if panicking {
            Releasing::Poison(Counter::LastRecvd, guard.spec_give_back())
        } else {
            Releasing::MoveOn(Counter::LastRecvd, guard.spec_give_back())
        }
    }

    /// The operation that is due.
    pub open spec fn spec_operation(self) -> Operation {
        match self {
            Releasing::Poison(_, _) => Operation::StorePoison,
            Releasing::MoveOn(counter, exchange) => Operation::CompareExchange(counter, exchange),
        }
    }

    /// The outcome is one of the operation that is due.
    pub open spec fn accepts(self, outcome: Outcome) -> bool {
        match self {
            Releasing::Poison(_, _) => outcome is Stored,
            Releasing::MoveOn(_, _) => outcome is Exchanged,
        }
    }

    /// What the giving up comes to after an operation.
    pub open spec fn spec_after(self, outcome: Outcome) -> Progress<Releasing, ()> {
        match self {
            Releasing::Poison(counter, exchange) => Progress::Next(Releasing::MoveOn(counter, exchange)),
            Releasing::MoveOn(_, _) => if outcome->Exchanged_0 {
                Progress::Done(())
            } else {
                Progress::Yield(self)
            },
        }
    }

    /// Starts to give up a guard of a slot that was written to.
    pub fn push(guard: &PushGuard, panicking: bool) -> (releasing: Releasing)
        ensures
            releasing == Releasing::spec_push(*guard, panicking),
    {
        if panicking {
            Releasing::Poison(Counter::LastSent, guard.publish())
        } else {
            Releasing::MoveOn(Counter::LastSent, guard.publish())
        }
    }

    /// Starts to give up a guard of a slot that was read from.
    pub fn pop(guard: &PopGuard, panicking: bool) -> (releasing: Releasing)
        ensures
            releasing == Releasing::spec_pop(*guard, panicking),
    {
        if panicking {
            Releasing::Poison(Counter::LastRecvd, guard.give_back())
        } else {
            Releasing::MoveOn(Counter::LastRecvd, guard.give_back())
        }
    }

    /// The operation that is due.
    pub fn operation(&self) -> (operation: Operation)
        ensures
            operation == self.spec_operation(),
    {
        match self {
            Releasing::Poison(_, _) => Operation::StorePoison,
            Releasing::MoveOn(counter, exchange) => Operation::CompareExchange(*counter, *exchange),
        }
    }

    /// Moves on with what the operation that was due gave.
    pub fn after(self, outcome: Outcome) -> (progress: Progress<Releasing, ()>)
        requires
            self.accepts(outcome),
        ensures
            progress == self.spec_after(outcome),
    {
        match (self, outcome) {
            (Releasing::Poison(counter, exchange), _) => Progress::Next(Releasing::MoveOn(counter, exchange)),
            (Releasing::MoveOn(_, _), Outcome::Exchanged(true)) => Progress::Done(()),
            (releasing, _) => Progress::Yield(releasing),
        }
    }
}

impl Counter {
    /// The counter's value.
    pub open spec fn value(self, control: SharedMemQueueCtrl) -> usize {
        match self {
            Counter::NextSend => control.next_send_index,
            Counter::LastSent => control.last_sent_index,
            Counter::NextRecv => control.next_recv_index,
            Counter::LastRecvd => control.last_recvd_index,
        }
    }

    /// The control block with another value in the counter.
    pub open spec fn changed(self, control: SharedMemQueueCtrl, value: usize) -> SharedMemQueueCtrl {
        match self {
            Counter::NextSend => SharedMemQueueCtrl { next_send_index: value, ..control },
            Counter::LastSent => SharedMemQueueCtrl { last_sent_index: value, ..control },
            Counter::NextRecv => SharedMemQueueCtrl { next_recv_index: value, ..control },
            Counter::LastRecvd => SharedMemQueueCtrl { last_recvd_index: value, ..control },
        }
    }
}

impl Operation {
    /// What the operation, performed on a control block, leaves there, and its outcome, where it does not fail for no
    /// reason.
    pub open spec fn performed(self, control: SharedMemQueueCtrl) -> (SharedMemQueueCtrl, Outcome) {
        match self {
            Operation::Increment(counter) => (
                counter.changed(control, ring(counter.value(control) + 1)),
                Outcome::Value(counter.value(control)),
            ),
            Operation::Load(counter) => (control, Outcome::Value(counter.value(control))),
            Operation::CompareExchange(counter, exchange) => if counter.value(control) == exchange.expected {
                (counter.changed(control, exchange.replacement), Outcome::Exchanged(true))
            } else {
                (control, Outcome::Exchanged(false))
            },
            Operation::LoadPoison => (control, Outcome::Poisoned(control.poison)),
            Operation::StorePoison => (SharedMemQueueCtrl { poison: true, ..control }, Outcome::Stored),
        }
    }
}

/// A holder that panics poisons the queue before anything else, and only such a one does. Behind that, giving up a
/// guard is the same either way.
pub proof fn panicking_holder_poisons_first(
    control: SharedMemQueueCtrl,
    push: PushGuard,
    pop: PopGuard,
    panicking: bool,
)
    ensures
        ({
            let releasing = Releasing::spec_push(push, panicking);
            let (left, outcome) = releasing.spec_operation().performed(control);
            &&& panicking ==> left == (SharedMemQueueCtrl { poison: true, ..control }) && releasing.spec_after(outcome)
                == Progress::<Releasing, ()>::Next(Releasing::spec_push(push, false))
            &&& !panicking ==> left.poison == control.poison
        }),
        ({
            let releasing = Releasing::spec_pop(pop, panicking);
            let (left, outcome) = releasing.spec_operation().performed(control);
            &&& panicking ==> left == (SharedMemQueueCtrl { poison: true, ..control }) && releasing.spec_after(outcome)
                == Progress::<Releasing, ()>::Next(Releasing::spec_pop(pop, false))
            &&& !panicking ==> left.poison == control.poison
        }),
{
}

/// The giving up of a guard takes the last step of a producer or a consumer in the protocol, just where the protocol
/// lets it: then it is over. Before that nothing changes, and the guard waits for its turn.
pub proof fn releasing_follows_protocol<V>(
    control: SharedMemQueueCtrl,
    state: QueueState<V>,
    a: int,
    push: PushGuard,
    pop: PopGuard,
)
    requires
        state.valid(),
        represents(control, state),
    ensures
        state.producers.contains_key(a) && state.producers[a] is Holding && push.send_index == ring(
            state.producers[a].index(),
        ) ==> {
            let releasing = Releasing::spec_push(push, false);
            let (left, outcome) = releasing.spec_operation().performed(control);
            if state.enabled(QueueStep::PushDone(a)) {
                &&& releasing.spec_after(outcome) == Progress::<Releasing, ()>::Done(())
                &&& represents(left, state.after(QueueStep::PushDone(a)))
            } else {
                &&& releasing.spec_after(outcome) == Progress::<Releasing, ()>::Yield(releasing)
                &&& left == control
            }
        },
        state.consumers.contains_key(a) && state.consumers[a] is Holding && pop.recv_index == ring(
            state.consumers[a].index(),
        ) ==> {
            let releasing = Releasing::spec_pop(pop, false);
            let (left, outcome) = releasing.spec_operation().performed(control);
            if state.enabled(QueueStep::PopDone(a)) {
                &&& releasing.spec_after(outcome) == Progress::<Releasing, ()>::Done(())
                &&& represents(left, state.after(QueueStep::PopDone(a)))
            } else {
                &&& releasing.spec_after(outcome) == Progress::<Releasing, ()>::Yield(releasing)
                &&& left == control
            }
        },
{
}

/// An attempt to push takes the steps of a producer in the protocol: it claims the next send index, it gets a
/// guard just where the protocol lets the producer have the slot, and what it tries to exchange is exchanged
/// just where the protocol lets the producer put its index back.
pub proof fn pushing_follows_protocol<V>(queue: Queue, state: QueueState<V>, a: int)
    requires
        state.valid(),
        queue.spec_item_count() == state.item_count,
    ensures
        state.enabled(QueueStep::PushClaim(a)) ==> {
            let outcome = Outcome::Value(ring(state.next_send));
            let after = state.after(QueueStep::PushClaim(a));
            &&& Pushing::Claim.accepts(outcome)
            &&& Pushing::Claim.spec_after(queue, outcome) == Progress::<Pushing, Option<PushGuard>>::Next(
                Pushing::Check(PushAttempt { send_index: ring(after.producers[a].index()) }),
            )
            &&& after.producers[a] is Checking
        },
        state.producers.contains_key(a) && state.producers[a] is Checking ==> {
            let attempt = PushAttempt { send_index: ring(state.producers[a].index()) };
            let outcome = Outcome::Value(ring(state.last_recvd));
            &&& state.enabled(QueueStep::PushClear(a)) <==> Pushing::Check(attempt).spec_after(
                queue,
                outcome,
            ) is Done
            &&& state.enabled(QueueStep::PushPutBack(a)) <==> attempt.put_back().expected == ring(state.next_send)
            &&& state.enabled(QueueStep::PushPutBack(a)) ==> attempt.put_back().replacement == ring(
                state.after(QueueStep::PushPutBack(a)).next_send,
            )
        },
{
}

/// An attempt to pop takes the steps of a consumer in the protocol: it claims the next receive index, it gets a
/// guard just where the protocol lets the consumer have the item, and what it tries to exchange is exchanged
/// just where the protocol lets the consumer put its index back.
pub proof fn popping_follows_protocol<V>(queue: Queue, state: QueueState<V>, a: int)
    requires
        state.valid(),
    ensures
        state.enabled(QueueStep::PopClaim(a)) ==> {
            let outcome = Outcome::Value(ring(state.next_recv));
            let after = state.after(QueueStep::PopClaim(a));
            &&& Popping::Claim.accepts(outcome)
            &&& Popping::Claim.spec_after(queue, outcome) == Progress::<
                Popping,
                Result<Option<PopGuard>, PoisonError<Option<PopGuard>>>,
            >::Next(Popping::Check(PopAttempt { recv_index: ring(after.consumers[a].index()) }))
            &&& after.consumers[a] is Checking
        },
        state.consumers.contains_key(a) && state.consumers[a] is Checking ==> {
            let attempt = PopAttempt { recv_index: ring(state.consumers[a].index()) };
            let outcome = Outcome::Value(ring(state.last_sent));
            &&& state.enabled(QueueStep::PopClear(a)) <==> (Popping::Check(attempt).spec_after(
                queue,
                outcome,
            ) matches Progress::Next(next) && next is CheckPoison)
            &&& state.enabled(QueueStep::PopPutBack(a)) <==> attempt.put_back().expected == ring(state.next_recv)
            &&& state.enabled(QueueStep::PopPutBack(a)) ==> attempt.put_back().replacement == ring(
                state.after(QueueStep::PopPutBack(a)).next_recv,
            )
        },
{
}

} // verus!
