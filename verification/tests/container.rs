//! The hybrid container and the FIFO queue: storage modes, capacities,
//! indexed access, removal shifts, demotion, and the error paths.

use mik::fifo::Fifo;
use mik::smallvec::ContainerError;
use mik::smallvec::SmallVec;

#[test]
fn test_empty() {
    let v = SmallVec::<usize, 0>::new();
    assert!(!v.is_heap_mode());
    assert!(v.capacity() == 0);
    assert!(v.is_empty());
}

#[test]
fn test_from_array() {
    let v = SmallVec::from_array([1, 2, 3]);
    assert!(!v.is_heap_mode());
    assert!(v.capacity() == 3);
    assert!(!v.is_empty());
    assert!(v.get(0) == 1);
    assert!(v.get(1) == 2);
    assert!(v.get(2) == 3);
}

#[test]
fn test_move_to_heap() {
    let mut v = SmallVec::from_array([1, 2, 3]);
    assert!(!v.is_heap_mode());
    v.push(4).unwrap();
    assert!(v.is_heap_mode());
    assert!(v.capacity() == 6);
    assert!(v.len() == 4);
    assert!(!v.is_empty());
    assert!(v.get(0) == 1);
    assert!(v.get(1) == 2);
    assert!(v.get(2) == 3);
    assert!(v.get(3) == 4);
}

#[test]
fn inline_while_at_most_inline_capacity() {
    let mut v: SmallVec<u32, 3> = SmallVec::new();
    for x in 0..3u32 {
        v.push(x).unwrap();
        assert!(!v.is_heap_mode());
        assert_eq!(v.capacity(), 3);
    }
    assert_eq!(v.len(), 3);
}

#[test]
fn indexing_follows_push_order_across_removals() {
    let mut v: SmallVec<u32, 2> = SmallVec::new();
    v.push(10).unwrap();
    v.push(20).unwrap();
    v.push(30).unwrap();
    v.push(40).unwrap();
    assert_eq!(v.remove(1), 20);
    v.set(0, 11);
    assert_eq!(v.get(0), 11);
    assert_eq!(v.get(1), 30);
    assert_eq!(v.get(2), 40);
}

#[test]
fn remove_shifts_later_elements_forward() {
    let mut v: SmallVec<u32, 8> = SmallVec::new();
    for x in [5, 6, 7, 8, 9] {
        v.push(x).unwrap();
    }
    let removed = v.remove(2);
    assert_eq!(removed, 7);
    assert_eq!(v.len(), 4);
    assert_eq!(v.get(0), 5);
    assert_eq!(v.get(1), 6);
    assert_eq!(v.get(2), 8);
    assert_eq!(v.get(3), 9);
}

#[test]
fn demotion_round_trip() {
    let mut v: SmallVec<u32, 3> = SmallVec::new();
    for x in [1, 2, 3, 4] {
        v.push(x).unwrap();
    }
    assert!(v.is_heap_mode());
    let removed = v.remove(1);
    assert_eq!(removed, 2);
    assert!(!v.is_heap_mode());
    assert_eq!(v.capacity(), 3);
    assert_eq!(v.len(), 3);
    assert_eq!(v.get(0), 1);
    assert_eq!(v.get(1), 3);
    assert_eq!(v.get(2), 4);
}

#[test]
fn is_empty_tracks_length() {
    let mut v: SmallVec<u8, 2> = SmallVec::new();
    assert!(v.is_empty());
    v.push(9).unwrap();
    assert!(!v.is_empty());
    let _ = v.remove(0);
    assert!(v.is_empty());
}

#[test]
fn no_value_lost_or_duplicated() {
    let mut v: SmallVec<u32, 2> = SmallVec::new();
    let mut model: Vec<u32> = Vec::new();
    let ops: [(bool, u32); 9] = [
        (true, 1),
        (true, 2),
        (true, 3),
        (false, 1),
        (true, 4),
        (true, 5),
        (false, 0),
        (true, 6),
        (false, 2),
    ];
    for (is_push, x) in ops {
        if is_push {
            v.push(x).unwrap();
            model.push(x);
        } else {
            let got = v.remove(x as usize);
            let expected = model.remove(x as usize);
            assert_eq!(got, expected);
        }
        assert_eq!(v.len(), model.len());
        for i in 0..model.len() {
            assert_eq!(v.get(i), model[i]);
        }
    }
}

#[test]
fn zero_inline_capacity_promotes_to_one_slot() {
    let mut v: SmallVec<usize, 0> = SmallVec::new();
    v.push(7).unwrap();
    assert!(v.is_heap_mode());
    assert_eq!(v.capacity(), 1);
    assert_eq!(v.get(0), 7);
    assert_eq!(v.push(8), Err(ContainerError::CapacityExceeded));
    assert_eq!(v.remove(0), 7);
    assert!(!v.is_heap_mode());
    assert_eq!(v.capacity(), 0);
    assert!(v.is_empty());
}

#[test]
fn push_rejected_once_heap_buffer_is_full() {
    let mut v: SmallVec<u32, 2> = SmallVec::new();
    for x in 0..4u32 {
        v.push(x).unwrap();
    }
    assert!(v.is_heap_mode());
    assert_eq!(v.capacity(), 4);
    assert_eq!(v.push(99), Err(ContainerError::CapacityExceeded));
    assert_eq!(v.len(), 4);
    assert_eq!(v.get(3), 3);
}

#[test]
fn concrete_promotion_demotion_example() {
    let mut v: SmallVec<u32, 3> = SmallVec::new();
    v.push(1).unwrap();
    v.push(2).unwrap();
    v.push(3).unwrap();
    assert!(!v.is_heap_mode());
    assert_eq!(v.capacity(), 3);
    assert_eq!(v.get(0), 1);
    assert_eq!(v.get(1), 2);
    assert_eq!(v.get(2), 3);
    v.push(4).unwrap();
    assert!(v.is_heap_mode());
    assert_eq!(v.capacity(), 6);
    assert_eq!(v.get(0), 1);
    assert_eq!(v.get(1), 2);
    assert_eq!(v.get(2), 3);
    assert_eq!(v.get(3), 4);
    assert_eq!(v.remove(0), 1);
    assert_eq!(v.len(), 3);
    assert_eq!(v.get(0), 2);
    assert_eq!(v.get(1), 3);
    assert_eq!(v.get(2), 4);
    assert!(!v.is_heap_mode());
    assert_eq!(v.capacity(), 3);
}

#[test]
fn fifo_orders_first_in_first_out() {
    let mut q: Fifo<u8> = Fifo::new();
    assert!(q.is_empty());
    q.push(b'a').unwrap();
    q.push(b'b').unwrap();
    q.push(b'c').unwrap();
    assert!(!q.is_empty());
    assert_eq!(q.pop(), Ok(b'a'));
    assert_eq!(q.pop(), Ok(b'b'));
    assert_eq!(q.pop(), Ok(b'c'));
    assert_eq!(q.pop(), Err(ContainerError::EmptyQueue));
    assert!(q.is_empty());
}

#[test]
fn fifo_rejects_push_past_its_bound() {
    let mut q: Fifo<u32> = Fifo::new();
    for x in 0..40u32 {
        q.push(x).unwrap();
    }
    assert_eq!(q.push(40), Err(ContainerError::CapacityExceeded));
    for x in 0..40u32 {
        assert_eq!(q.pop(), Ok(x));
    }
    assert_eq!(q.pop(), Err(ContainerError::EmptyQueue));
}
