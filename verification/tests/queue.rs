use sandbox_ipc::error::{Error, Fault};
use sandbox_ipc::shm::attempt::{Counter, Operation, Outcome, Popping, Progress, Pushing, Releasing};
use sandbox_ipc::shm::queue::{
    guarded, Check, Exchange, Handle, PoisonError, PopAttempt, PopGuard, PushAttempt, PushGuard,
    SharedMemQueueCtrl, CONTROL_SIZE,
};
use sandbox_ipc::shm::{Access, Queue, Region, SharedMemMap};

fn mapping(pointer: usize, len: usize, offset: usize) -> SharedMemMap {
    SharedMemMap { region: Region { pointer, len, offset, access: Access::ReadWrite }, token: 99 }
}

fn make_queue(item_size: usize, item_count: usize) -> (Queue, SharedMemQueueCtrl) {
    let size = Queue::required_size(item_size, item_count);
    Queue::new_with_memory(item_size, item_count, mapping(0x1_0000, size, 0), 0).unwrap()
}

#[test]
fn empty_queue_try_pop() {
    let (queue, mut control) = make_queue(32, 8);
    assert!(queue.try_pop(&mut control).unwrap().is_none());
}

#[test]
fn full_queue_try_push() {
    let (queue, mut control) = make_queue(32, 8);
    for _ in 0..8 {
        let guard = queue.try_push(&mut control).expect("queue unexpectedly full");
        guard.release(&mut control, false);
    }
    assert!(queue.try_push(&mut control).is_none());
}

#[test]
fn full_queue_emptied_try_pop() {
    let (queue, mut control) = make_queue(32, 8);
    for _ in 0..8 {
        let guard = queue.try_push(&mut control).expect("queue unexpectedly full");
        guard.release(&mut control, false);
    }
    for _ in 0..8 {
        let guard = queue.try_pop(&mut control).expect("queue unexpectedly empty").unwrap();
        guard.release(&mut control, false);
    }
    assert!(queue.try_pop(&mut control).unwrap().is_none());
}

#[test]
fn queue_takes_slots_and_control_block() {
    let word = core::mem::size_of::<usize>();
    assert_eq!(CONTROL_SIZE, 4 * 64 + word);
    assert_eq!(Queue::required_size(32, 8), 8 * 64 + 256 + word);
    assert_eq!(Queue::required_size(65, 3), 3 * 128 + 256 + word);
    let (queue, control) = make_queue(65, 3);
    assert_eq!(queue.control(), 0x1_0000 + 3 * 128);
    assert_eq!(control.next_send_index, 0);
    assert_eq!(control.last_sent_index, usize::MAX);
    assert_eq!(control.next_recv_index, 0);
    assert_eq!(control.last_recvd_index, usize::MAX);
    assert!(!control.poison);
}

#[test]
fn queue_has_to_fit_and_be_aligned() {
    let size = Queue::required_size(32, 8);
    let word = core::mem::size_of::<usize>();
    let refused = |memory, offset| Queue::new_with_memory(32, 8, memory, offset).err();
    assert_eq!(refused(mapping(0x1_0000, size - 1, 0), 0), Some(Error::Fault(Fault::QueueSpace)));
    assert_eq!(refused(mapping(0x1_0000, size, 0), word), Some(Error::Fault(Fault::QueueSpace)));
    assert_eq!(refused(mapping(0x1_0001, size, 0), 0), Some(Error::Fault(Fault::QueueUnaligned)));
    assert_eq!(refused(mapping(0x1_0000, size + 1, 0), 1), Some(Error::Fault(Fault::QueueUnaligned)));
    assert_eq!(refused(mapping(0x1_0000, size + word, 0), word), None);
}

#[test]
fn handle_leads_back_to_the_queue() {
    let size = Queue::required_size(16, 4);
    let memory = mapping(0x2_0000, size, 4096);
    let (queue, _) = Queue::new_with_memory(16, 4, memory, 0).unwrap();
    let handle = queue.handle().unwrap();
    assert_eq!(handle, Handle { raw_offset: 4096, item_size: 16, item_count: 4, shm_token: 99 });
    assert_eq!(Queue::from_handle(handle, memory), Ok(queue));
}

#[test]
fn handle_of_other_memory_is_refused() {
    let size = Queue::required_size(16, 4);
    let memory = mapping(0x2_0000, size, 4096);
    let (queue, _) = Queue::new_with_memory(16, 4, memory, 0).unwrap();
    let mut handle = queue.handle().unwrap();
    handle.shm_token = 98;
    assert_eq!(Queue::from_handle(handle, memory), Err(Error::Fault(Fault::QueueForeignMemory)));
    let short = mapping(0x2_0000, size - 1, 4096);
    let handle = queue.handle().unwrap();
    assert_eq!(Queue::from_handle(handle, short), Err(Error::Fault(Fault::QueueOutsideMapping)));
    let whole = mapping(0x2_0000, 4096 + size, 0);
    assert_eq!(Queue::from_handle(handle, whole), Err(Error::Fault(Fault::QueueOutsideMapping)));
    let broken = Handle { raw_offset: usize::MAX, item_size: 0, item_count: 0, shm_token: 99 };
    assert_eq!(Queue::from_handle(broken, memory), Err(Error::Fault(Fault::QueueOutsideMapping)));
}

#[test]
fn items_come_out_in_the_order_they_went_in() {
    let (queue, mut control) = make_queue(4, 3);
    let mut memory = vec![vec![0u8; 4]; 3];
    let slot_of = |slot: usize| (slot - 0x1_0000) / 64;
    for round in 0..10u8 {
        let mut guard = queue.try_push(&mut control).unwrap();
        assert_eq!(slot_of(guard.slot), round as usize % 3);
        let slot = slot_of(guard.slot);
        assert_eq!(guard.write(&mut memory[slot], &[round, 1]), 2);
        assert_eq!(guard.write(&mut memory[slot], &[2, 3, 4]), 2);
        assert_eq!(guard.write(&mut memory[slot], &[5]), 0);
        guard.release(&mut control, false);

        let mut guard = queue.try_pop(&mut control).unwrap().unwrap();
        let mut buffer = [9u8; 3];
        let slot = slot_of(guard.slot);
        assert_eq!(guard.read(&memory[slot], &mut buffer), 3);
        assert_eq!(buffer, [round, 1, 2]);
        assert_eq!(guard.read(&memory[slot], &mut buffer), 1);
        assert_eq!(buffer, [3, 1, 2]);
        assert_eq!(guard.read(&memory[slot], &mut buffer), 0);
        guard.release(&mut control, false);
    }
}

#[test]
fn queue_is_poisoned_by_a_panic() {
    let (queue, mut control) = make_queue(4, 2);
    queue.try_push(&mut control).unwrap().release(&mut control, true);
    assert!(control.poison);
    let poisoned = queue.try_pop(&mut control);
    let guard = match poisoned {
        Err(PoisonError { guard }) => guard.unwrap(),
        Ok(_) => panic!("not poisoned"),
    };
    guard.release(&mut control, false);
    assert!(control.poison);
    assert_eq!(queue.try_pop(&mut control), Ok(None));
    assert_eq!(guarded(guard, false), Ok(Some(guard)));
    assert_eq!(guarded(guard, true), Err(PoisonError { guard: Some(guard) }));
}

#[test]
fn slot_is_not_free_before_it_is_given_back() {
    let (queue, mut control) = make_queue(4, 1);
    queue.try_push(&mut control).unwrap().release(&mut control, false);
    let guard = queue.try_pop(&mut control).unwrap().unwrap();
    assert!(queue.try_push(&mut control).is_none());
    guard.release(&mut control, false);
    assert!(queue.try_push(&mut control).is_some());
}

#[test]
fn indices_are_compared_around_the_ring() {
    let (queue, _) = make_queue(4, 2);
    let attempt = PushAttempt { send_index: 5 };
    let put_back = Check::PutBack(Exchange { expected: 6, replacement: 5 });
    assert_eq!(queue.check_push(attempt, 2), put_back);
    assert!(matches!(queue.check_push(attempt, 3), Check::Clear(_)));
    assert!(matches!(queue.check_push(PushAttempt { send_index: 1 }, usize::MAX), Check::Clear(_)));
    assert!(matches!(queue.check_push(PushAttempt { send_index: 2 }, usize::MAX), Check::PutBack(_)));
    let attempt = PopAttempt { recv_index: 0 };
    assert!(matches!(queue.check_pop(attempt, usize::MAX), Check::PutBack(_)));
    assert!(matches!(queue.check_pop(attempt, 0), Check::Clear(_)));
    assert!(matches!(queue.check_pop(attempt, 3), Check::Clear(_)));
}

#[test]
fn guards_exchange_the_counters() {
    let push = PushGuard { send_index: 0, slot: 0, item_size: 1, write_offset: 0 };
    assert_eq!(push.publish(), Exchange { expected: usize::MAX, replacement: 0 });
    let pop = PopGuard { recv_index: 7, slot: 0, item_size: 1, read_offset: 0 };
    assert_eq!(pop.give_back(), Exchange { expected: 6, replacement: 7 });
}

/// Performs an operation on a control block that several attempts share.
fn perform(control: &mut SharedMemQueueCtrl, operation: Operation) -> Outcome {
    let (counter, exchange) = match operation {
        Operation::Increment(counter) | Operation::Load(counter) => (counter, None),
        Operation::CompareExchange(counter, exchange) => (counter, Some(exchange)),
        Operation::LoadPoison => return Outcome::Poisoned(control.poison),
        Operation::StorePoison => {
            control.poison = true;
            return Outcome::Stored;
        }
    };
    let value = match counter {
        Counter::NextSend => &mut control.next_send_index,
        Counter::LastSent => &mut control.last_sent_index,
        Counter::NextRecv => &mut control.next_recv_index,
        Counter::LastRecvd => &mut control.last_recvd_index,
    };
    match exchange {
        Some(exchange) => {
            let exchanged = *value == exchange.expected;
            if exchanged {
                *value = exchange.replacement;
            }
            Outcome::Exchanged(exchanged)
        }
        None => {
            let read = *value;
            if let Operation::Increment(_) = operation {
                *value += 1;
            }
            Outcome::Value(read)
        }
    }
}

fn push_on(queue: &Queue, control: &mut SharedMemQueueCtrl) -> Option<PushGuard> {
    let mut attempt = Pushing::Claim;
    loop {
        let outcome = perform(control, attempt.operation());
        match attempt.after(queue, outcome) {
            Progress::Next(next) | Progress::Yield(next) => attempt = next,
            Progress::Done(guard) => return guard,
        }
    }
}

#[test]
fn attempts_agree_with_a_queue_of_ones_own() {
    let (queue, mut shared) = make_queue(4, 2);
    let mut own = shared;
    for _ in 0..3 {
        let a = push_on(&queue, &mut shared);
        let b = queue.try_push(&mut own);
        assert_eq!(a, b);
        if let Some(guard) = a {
            guard.release(&mut shared, false);
            guard.release(&mut own, false);
        }
        assert_eq!(shared, own);
    }
}

#[test]
fn blocked_producer_goes_on_once_there_is_room() {
    let (queue, mut control) = make_queue(4, 1);
    queue.try_push(&mut control).unwrap().release(&mut control, false);

    // Two producers claim an index each.
    let first = Pushing::Claim;
    let second = Pushing::Claim;
    let first = match first.after(&queue, perform(&mut control, first.operation())) {
        Progress::Next(next) => next,
        _ => panic!("over"),
    };
    let second = match second.after(&queue, perform(&mut control, second.operation())) {
        Progress::Next(next) => next,
        _ => panic!("over"),
    };
    assert_eq!(first, Pushing::Check(PushAttempt { send_index: 1 }));
    assert_eq!(second, Pushing::Check(PushAttempt { send_index: 2 }));

    // The first cannot put its index back, since the second has the one after it.
    let first = match first.after(&queue, perform(&mut control, first.operation())) {
        Progress::Next(next) => next,
        _ => panic!("over"),
    };
    assert_eq!(
        first.operation(),
        Operation::CompareExchange(Counter::NextSend, Exchange { expected: 2, replacement: 1 })
    );
    let first = match first.after(&queue, perform(&mut control, first.operation())) {
        Progress::Yield(next) => next,
        _ => panic!("did not yield"),
    };

    // The second can.
    let second = match second.after(&queue, perform(&mut control, second.operation())) {
        Progress::Next(next) => next,
        _ => panic!("over"),
    };
    assert_eq!(second.after(&queue, perform(&mut control, second.operation())), Progress::Done(None));

    // A consumer makes room for the first.
    queue.try_pop(&mut control).unwrap().unwrap().release(&mut control, false);
    match first.after(&queue, perform(&mut control, first.operation())) {
        Progress::Done(Some(guard)) => assert_eq!(guard.send_index, 1),
        _ => panic!("no room"),
    }
}

#[test]
fn guards_are_given_up_in_turn() {
    let (queue, mut control) = make_queue(4, 2);
    let first = queue.try_push(&mut control).unwrap();
    let second = queue.try_push(&mut control).unwrap();

    // The second has to wait for the first.
    let waiting = Releasing::push(&second, false);
    assert_eq!(waiting.operation(), Operation::CompareExchange(Counter::LastSent, second.publish()));
    assert_eq!(waiting.after(perform(&mut control, waiting.operation())), Progress::Yield(waiting));
    assert_eq!(control.last_sent_index, usize::MAX);

    // The first panics: it poisons the queue before it publishes its item.
    let releasing = Releasing::push(&first, true);
    assert_eq!(releasing.operation(), Operation::StorePoison);
    let releasing = match releasing.after(perform(&mut control, releasing.operation())) {
        Progress::Next(next) => next,
        _ => panic!("over"),
    };
    assert!(control.poison);
    assert_eq!(control.last_sent_index, usize::MAX);
    assert_eq!(releasing, Releasing::push(&first, false));
    assert_eq!(releasing.after(perform(&mut control, releasing.operation())), Progress::Done(()));
    assert_eq!(control.last_sent_index, 0);

    assert_eq!(waiting.after(perform(&mut control, waiting.operation())), Progress::Done(()));
    assert_eq!(control.last_sent_index, 1);
}

#[test]
fn slot_is_given_back_after_the_one_before_it() {
    let (queue, mut control) = make_queue(4, 2);
    queue.try_push(&mut control).unwrap().release(&mut control, false);
    queue.try_push(&mut control).unwrap().release(&mut control, false);
    let first = queue.try_pop(&mut control).unwrap().unwrap();
    let second = queue.try_pop(&mut control).unwrap().unwrap();
    let waiting = Releasing::pop(&second, false);
    assert_eq!(waiting.operation(), Operation::CompareExchange(Counter::LastRecvd, second.give_back()));
    assert_eq!(waiting.after(perform(&mut control, waiting.operation())), Progress::Yield(waiting));
    assert_eq!(Releasing::pop(&first, true).operation(), Operation::StorePoison);
    let releasing = Releasing::pop(&first, false);
    assert_eq!(releasing.after(perform(&mut control, releasing.operation())), Progress::Done(()));
    assert_eq!(waiting.after(perform(&mut control, waiting.operation())), Progress::Done(()));
    assert_eq!((control.last_recvd_index, control.poison), (1, false));
}

#[test]
fn consumer_looks_at_the_poison_flag_last() {
    let (queue, mut control) = make_queue(4, 1);
    queue.try_push(&mut control).unwrap().release(&mut control, true);
    let mut attempt = Popping::Claim;
    let mut operations = Vec::new();
    let result = loop {
        operations.push(attempt.operation());
        let outcome = perform(&mut control, attempt.operation());
        match attempt.after(&queue, outcome) {
            Progress::Next(next) | Progress::Yield(next) => attempt = next,
            Progress::Done(result) => break result,
        }
    };
    assert_eq!(
        operations,
        vec![
            Operation::Increment(Counter::NextRecv),
            Operation::Load(Counter::LastSent),
            Operation::LoadPoison
        ]
    );
    assert!(matches!(result, Err(PoisonError { guard: Some(guard) }) if guard.recv_index == 0));

    let mut attempt = Popping::Claim;
    let result = loop {
        let outcome = perform(&mut control, attempt.operation());
        match attempt.after(&queue, outcome) {
            Progress::Next(next) | Progress::Yield(next) => attempt = next,
            Progress::Done(result) => break result,
        }
    };
    assert_eq!(result, Ok(None));
    assert_eq!(control.next_recv_index, 1);
}
