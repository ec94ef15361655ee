use druid_shell::idle::{DeferredOp, IdleKind, IdleQueue, IdleToken};
use std::sync::{Arc, Mutex};

#[test]
fn a_new_queue_is_empty() {
    let queue: IdleQueue<u32> = IdleQueue::new();
    assert!(queue.is_empty());
    assert_eq!(queue.len(), 0);
}

#[test]
fn only_the_first_push_wakes() {
    let mut queue = IdleQueue::new();
    assert!(queue.push(1));
    assert!(!queue.push(2));
    assert!(!queue.push(3));
    assert_eq!(queue.len(), 3);
    assert!(!queue.is_empty());
}

#[test]
fn drain_hands_out_in_push_order_and_empties() {
    let mut queue = IdleQueue::new();
    for n in [5, 3, 9, 3] {
        queue.push(n);
    }
    assert_eq!(queue.drain(), vec![5, 3, 9, 3]);
    assert!(queue.is_empty());
    assert_eq!(queue.drain(), Vec::<i32>::new());
}

#[test]
fn a_push_after_a_drain_wakes_again_and_lands_in_the_next_drain() {
    let mut queue = IdleQueue::new();
    queue.push("a");
    queue.push("b");
    let first = queue.drain();
    assert!(queue.push("c"));
    assert!(!queue.push("d"));
    assert_eq!(first, vec!["a", "b"]);
    assert_eq!(queue.drain(), vec!["c", "d"]);
}

#[test]
fn many_producers_wake_once_and_keep_their_order() {
    let producers: usize = 4;
    let each: usize = 250;
    let queue = Arc::new(Mutex::new(IdleQueue::new()));
    let handles: Vec<Arc<Mutex<IdleQueue<(usize, usize)>>>> =
        (0..producers).map(|_| Arc::clone(&queue)).collect();
    let mut wakes = 0;
    let mut sent = vec![0usize; producers];
    // The producers take the lock in an uneven turn: 0, 1, 0, 2, 0, 1, 0, 3, ...
    let mut turn: usize = 1;
    while sent.iter().any(|n| *n < each) {
        let producer = (turn.trailing_zeros() as usize) % producers;
        turn += 1;
        if sent[producer] == each {
            continue;
        }
        if handles[producer].lock().unwrap().push((producer, sent[producer])) {
            wakes += 1;
        }
        sent[producer] += 1;
    }
    assert_eq!(wakes, 1);
    let drained = queue.lock().unwrap().drain();
    assert_eq!(drained.len(), producers * each);
    for producer in 0..producers {
        let own: Vec<usize> =
            drained.iter().filter(|item| item.0 == producer).map(|item| item.1).collect();
        assert_eq!(own, (0..each).collect::<Vec<usize>>());
    }
    assert!(queue.lock().unwrap().is_empty());
}

#[test]
fn interleaved_producers_keep_their_order() {
    let mut queue = IdleQueue::new();
    let mut wakes = 0;
    for (producer, n) in [(0, 0), (1, 0), (1, 1), (0, 1), (2, 0), (0, 2)] {
        if queue.push((producer, n)) {
            wakes += 1;
        }
    }
    assert_eq!(wakes, 1);
    assert_eq!(queue.drain(), vec![(0, 0), (1, 0), (1, 1), (0, 1), (2, 0), (0, 2)]);
}

#[test]
fn idle_items_carry_their_payload() {
    let mut queue: IdleQueue<IdleKind<&str, (u32, u32), (i32, i32)>> = IdleQueue::new();
    queue.push(IdleKind::Callback("call"));
    queue.push(IdleKind::Token(IdleToken::new(7)));
    queue.push(IdleKind::DeferredOp(DeferredOp::SetSize((640, 480))));
    queue.push(IdleKind::DeferredOp(DeferredOp::SetPosition((-10, 20))));
    let items = queue.drain();
    assert!(matches!(items[0], IdleKind::Callback("call")));
    assert!(matches!(items[1], IdleKind::Token(IdleToken(7))));
    assert!(matches!(items[2], IdleKind::DeferredOp(DeferredOp::SetSize((640, 480)))));
    assert!(matches!(items[3], IdleKind::DeferredOp(DeferredOp::SetPosition((-10, 20)))));
}
