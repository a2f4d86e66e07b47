//! Behavior of the append-only arena.

use lustre::utils::arena::Arena;

#[test]
fn new_arena_is_empty() {
    let arena: Arena<u32> = Arena::new();
    assert_eq!(arena.len(), 0);
    assert!(arena.get(0).is_none());
}

#[test]
fn with_capacity_is_empty() {
    let arena: Arena<u32> = Arena::with_capacity(16);
    assert_eq!(arena.len(), 0);
}

#[test]
fn add_returns_dense_indices() {
    let mut arena = Arena::new();
    assert_eq!(arena.add(10), 0);
    assert_eq!(arena.add(20), 1);
    assert_eq!(arena.add(30), 2);
    assert_eq!(arena.len(), 3);
}

#[test]
fn indices_stay_valid_after_growth() {
    let mut arena = Arena::new();
    let first = arena.add("a");
    for _ in 0..100 {
        arena.add("filler");
    }
    assert_eq!(*arena.get(first).unwrap(), "a");
}

#[test]
fn get_out_of_bounds_is_none() {
    let mut arena = Arena::new();
    arena.add(1u8);
    assert!(arena.get(1).is_none());
    assert!(arena.get(usize::MAX).is_none());
}

#[test]
fn index_reads_what_add_stored() {
    let mut arena = Arena::new();
    arena.add(5i64);
    arena.add(-7i64);
    assert_eq!(*arena.index(0), 5);
    assert_eq!(*arena.index(1), -7);
}

#[test]
fn set_replaces_only_one_slot() {
    let mut arena = Arena::new();
    arena.add(1u32);
    arena.add(2u32);
    arena.add(3u32);
    arena.set(1, 20);
    assert_eq!(*arena.index(0), 1);
    assert_eq!(*arena.index(1), 20);
    assert_eq!(*arena.index(2), 3);
}

#[test]
fn shrink_to_fit_keeps_items() {
    let mut arena = Arena::with_capacity(64);
    arena.add(4u16);
    arena.add(8u16);
    arena.shrink_to_fit();
    assert_eq!(arena.len(), 2);
    assert_eq!(*arena.index(0), 4);
    assert_eq!(*arena.index(1), 8);
}
