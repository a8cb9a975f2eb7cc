use std::collections::VecDeque;
use two_stack_queue::Queue;

#[test]
fn new_queue_is_empty() {
    let mut q = Queue::<u8>::new();
    assert_eq!(q.len(), 0);
    assert_eq!(q.pop(), None);
    assert_eq!(q.len(), 0);
}

#[test]
fn insert_then_pop_returns_the_value() {
    let mut q = Queue::<i64>::new();
    q.insert(-42);
    assert_eq!(q.len(), 1);
    assert_eq!(q.pop(), Some(-42));
    assert_eq!(q.len(), 0);
    assert_eq!(q.pop(), None);
}

#[test]
fn pops_come_in_insertion_order() {
    let mut q = Queue::<u32>::new();
    for v in 0..1000u32 {
        q.insert(v * 3 + 1);
    }
    assert_eq!(q.len(), 1000);
    for v in 0..1000u32 {
        assert_eq!(q.pop(), Some(v * 3 + 1));
        assert_eq!(q.len(), (999 - v) as usize);
    }
    assert_eq!(q.pop(), None);
}

#[test]
fn equal_values_are_kept_apart() {
    let mut q = Queue::<(u8, char)>::new();
    q.insert((1, 'a'));
    q.insert((1, 'a'));
    q.insert((1, 'b'));
    assert_eq!(q.len(), 3);
    assert_eq!(q.pop(), Some((1, 'a')));
    assert_eq!(q.pop(), Some((1, 'a')));
    assert_eq!(q.pop(), Some((1, 'b')));
    assert_eq!(q.pop(), None);
}

#[test]
fn oldest_left_comes_next() {
    let mut q = Queue::<u16>::new();
    q.insert(1);
    q.insert(2);
    q.insert(3);
    assert_eq!(q.pop(), Some(1));
    assert_eq!(q.pop(), Some(2));
    q.insert(4);
    q.insert(5);
    assert_eq!(q.pop(), Some(3));
    assert_eq!(q.len(), 2);
    assert_eq!(q.pop(), Some(4));
    assert_eq!(q.pop(), Some(5));
    assert_eq!(q.pop(), None);
}

#[test]
fn len_counts_both_stacks() {
    let mut q = Queue::<u8>::new();
    q.insert(10);
    q.insert(20);
    q.insert(30);
    // The pop turns the inbound stack over; two values stay outbound.
    assert_eq!(q.pop(), Some(10));
    assert_eq!(q.len(), 2);
    // These two wait on the inbound stack.
    q.insert(40);
    q.insert(50);
    assert_eq!(q.len(), 4);
    assert_eq!(q.pop(), Some(20));
    assert_eq!(q.len(), 3);
    assert_eq!(q.pop(), Some(30));
    assert_eq!(q.len(), 2);
    // The outbound stack is empty again: the next pop refills it.
    assert_eq!(q.pop(), Some(40));
    assert_eq!(q.len(), 1);
    assert_eq!(q.pop(), Some(50));
    assert_eq!(q.len(), 0);
}

#[test]
fn len_is_inserts_less_served_pops() {
    let mut q = Queue::<usize>::new();
    let mut inserted = 0usize;
    let mut served = 0usize;
    for round in 0..200usize {
        // Two pops for every third round, so that some find the queue empty.
        if round % 3 == 0 {
            for _ in 0..2 {
                if q.pop().is_some() {
                    served += 1;
                }
                assert_eq!(q.len(), inserted - served);
            }
        } else if round % 7 == 0 {
            for _ in 0..5 {
                if q.pop().is_some() {
                    served += 1;
                }
                assert_eq!(q.len(), inserted - served);
            }
        } else {
            q.insert(round);
            inserted += 1;
            assert_eq!(q.len(), inserted - served);
        }
    }
    assert_eq!(inserted, 114);
    assert_eq!(served, 113);
    assert_eq!(q.len(), 1);
    assert_eq!(q.pop(), Some(199));
}

#[test]
fn popping_an_empty_queue_changes_nothing() {
    let mut q = Queue::<i8>::new();
    for _ in 0..100 {
        assert_eq!(q.pop(), None);
        assert_eq!(q.len(), 0);
    }
    q.insert(5);
    assert_eq!(q.pop(), Some(5));
    for _ in 0..100 {
        assert_eq!(q.pop(), None);
        assert_eq!(q.len(), 0);
    }
    // The queue still works afterwards.
    q.insert(6);
    q.insert(7);
    assert_eq!(q.len(), 2);
    assert_eq!(q.pop(), Some(6));
    assert_eq!(q.pop(), Some(7));
}

#[test]
fn agrees_with_a_deque_on_mixed_runs() {
    for seed in 1..=20u64 {
        let mut state = seed.wrapping_mul(0x9E37_79B9_7F4A_7C15);
        let mut q = Queue::<u64>::new();
        let mut deque = VecDeque::<u64>::new();
        for _ in 0..2000 {
            // A linear congruential generator: the runs are the same every time.
            state = state.wrapping_mul(6364136223846793005).wrapping_add(1442695040888963407);
            let draw = state >> 33;
            if draw % 5 < 3 {
                q.insert(draw);
                deque.push_back(draw);
            } else {
                assert_eq!(q.pop(), deque.pop_front());
            }
            assert_eq!(q.len(), deque.len());
        }
        while let Some(expected) = deque.pop_front() {
            assert_eq!(q.pop(), Some(expected));
        }
        assert_eq!(q.pop(), None);
        assert_eq!(q.len(), 0);
    }
}

#[test]
fn holds_values_that_cannot_be_copied() {
    let mut q = Queue::<String>::new();
    q.insert(String::from("first"));
    q.insert(String::from("second"));
    assert_eq!(q.pop(), Some(String::from("first")));
    q.insert(String::from("third"));
    assert_eq!(q.len(), 2);
    assert_eq!(q.pop(), Some(String::from("second")));
    assert_eq!(q.pop(), Some(String::from("third")));
    assert_eq!(q.pop(), None);
}

#[test]
fn holds_values_of_no_size() {
    let mut q = Queue::<()>::new();
    for _ in 0..10 {
        q.insert(());
    }
    assert_eq!(q.len(), 10);
    assert_eq!(q.pop(), Some(()));
    assert_eq!(q.len(), 9);
}
