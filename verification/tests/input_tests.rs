use sam_shader_engine::engine::input::{RippleQueue, MAX_RIPPLES};

#[test]
fn queue_caps_at_capacity_and_drops_the_oldest() {
    let mut q: RippleQueue<u32> = RippleQueue::new(MAX_RIPPLES);
    assert_eq!(q.len(), 0);
    assert_eq!(q.capacity(), 5);
    q.push(0);
    assert_eq!(q.len(), 1);
    for i in 1..11 {
        q.push(i);
        assert!(q.len() <= 5);
    }
    assert_eq!(q.len(), 5);
    assert_eq!(q.items(), &vec![6, 7, 8, 9, 10]);
    assert_eq!(*q.get(0), 6);
}

#[test]
fn queue_below_capacity_keeps_everything() {
    let mut q: RippleQueue<u32> = RippleQueue::new(3);
    q.push(1);
    q.push(2);
    assert_eq!(q.items(), &vec![1, 2]);
    q.push(3);
    assert_eq!(q.items(), &vec![1, 2, 3]);
    q.push(4);
    assert_eq!(q.items(), &vec![2, 3, 4]);
}

#[test]
fn retain_keeps_flagged_items_in_order() {
    let mut q: RippleQueue<u32> = RippleQueue::new(5);
    for i in 0..5 {
        q.push(i);
    }
    q.retain_alive(&vec![true, false, true, false, true]);
    assert_eq!(q.items(), &vec![0, 2, 4]);
    q.set(1, 7);
    assert_eq!(q.items(), &vec![0, 7, 4]);
}

#[test]
fn retain_with_all_expired_empties_the_queue() {
    let mut q: RippleQueue<u32> = RippleQueue::new(5);
    for i in 0..4 {
        q.push(i);
    }
    q.retain_alive(&vec![false; 4]);
    assert_eq!(q.len(), 0);
    q.retain_alive(&vec![]);
    assert_eq!(q.len(), 0);
}

#[test]
fn retain_with_all_alive_keeps_the_queue() {
    let mut q: RippleQueue<u32> = RippleQueue::new(5);
    for i in 0..3 {
        q.push(i);
    }
    q.retain_alive(&vec![true; 3]);
    assert_eq!(q.items(), &vec![0, 1, 2]);
}
