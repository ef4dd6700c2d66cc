use weaver::arena::Arena;
use weaver::arena::Handle;

#[test]
fn test_basic_arena_operations() {
    let mut arena = Arena::new();

    let handle1 = arena.insert("hello");
    let handle2 = arena.insert("world");

    assert_eq!(arena.get(handle1), Some(&"hello"));
    assert_eq!(arena.get(handle2), Some(&"world"));

    assert_eq!(arena.len(), 2);
    assert!(!arena.is_empty());
}

#[test]
fn test_handle_invalidation() {
    let mut arena = Arena::new();

    let handle = arena.insert(42);
    assert_eq!(arena.get(handle), Some(&42));
    assert!(arena.is_valid(handle));

    let removed = arena.remove(handle);
    assert_eq!(removed, Some(42));

    assert_eq!(arena.get(handle), None);
    assert!(!arena.is_valid(handle));
}

#[test]
fn test_slot_reuse() {
    let mut arena = Arena::new();

    let handle1 = arena.insert("first");
    assert_eq!(handle1.index(), 0);
    arena.remove(handle1);

    let handle2 = arena.insert("second");
    assert_eq!(handle2.index(), 0);
    assert_ne!(handle2.generation(), handle1.generation());

    assert!(!arena.is_valid(handle1));
    assert!(arena.is_valid(handle2));
    assert_eq!(arena.get(handle2), Some(&"second"));
}

#[test]
fn test_handle_serialization() {
    let mut arena = Arena::new();
    let handle = arena.insert(123);

    let packed = handle.to_u64();
    let unpacked = Handle::from_u64(packed);

    assert_eq!(handle, unpacked);
    assert_eq!(arena.get(unpacked), Some(&123));
}

#[test]
fn test_iterator() {
    let mut arena = Arena::new();

    let _h1 = arena.insert("a");
    let h2 = arena.insert("b");
    let _h3 = arena.insert("c");

    arena.remove(h2);

    let mut it = arena.iter();
    let mut items: Vec<(Handle, &str)> = Vec::new();
    while let Some((h, v)) = arena.iter_next(&mut it) {
        items.push((h, *v));
    }
    items.sort_by_key(|(h, _)| h.index());

    assert_eq!(items.len(), 2);
    assert_eq!(items[0].1, "a");
    assert_eq!(items[1].1, "c");
}

#[test]
fn test_clear() {
    let mut arena = Arena::new();

    let h1 = arena.insert(1);
    let h2 = arena.insert(2);

    assert_eq!(arena.len(), 2);

    arena.clear();

    assert_eq!(arena.len(), 0);
    assert!(arena.is_empty());
    assert!(!arena.is_valid(h1));
    assert!(!arena.is_valid(h2));
}
