//! The deque's asymmetric access: the owner works the bottom, thieves the
//! top.

use workqueue::deque::{Deque, Steal};

#[test]
fn owner_pops_lifo() {
    let mut d: Deque<u32> = Deque::new();
    d.push(1);
    d.push(2);
    d.push(3);
    assert_eq!(d.len(), 3);
    assert_eq!(d.pop(), Some(3));
    assert_eq!(d.pop(), Some(2));
    assert_eq!(d.pop(), Some(1));
    assert_eq!(d.pop(), None);
    assert!(d.is_empty());
}

#[test]
fn thief_steals_fifo() {
    let mut d: Deque<u32> = Deque::new();
    d.push(1);
    d.push(2);
    d.push(3);
    assert_eq!(d.steal(), Steal::Data(1));
    assert_eq!(d.steal(), Steal::Data(2));
    assert_eq!(d.steal(), Steal::Data(3));
    assert_eq!(d.steal(), Steal::Empty);
}

#[test]
fn owner_and_thief_take_opposite_ends() {
    let mut d: Deque<u32> = Deque::new();
    d.push(10);
    d.push(20);
    d.push(30);
    assert_eq!(d.steal(), Steal::Data(10));
    assert_eq!(d.pop(), Some(30));
    assert_eq!(d.steal(), Steal::Data(20));
    assert_eq!(d.steal(), Steal::Empty);
    assert_eq!(d.pop(), None);
}

#[test]
fn push_after_drain() {
    let mut d: Deque<u32> = Deque::new();
    d.push(5);
    assert_eq!(d.pop(), Some(5));
    d.push(6);
    assert_eq!(d.steal(), Steal::Data(6));
    assert!(d.is_empty());
}
