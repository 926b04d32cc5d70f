use clay_core::provider::slab::Slab;

#[test]
fn slab_hands_out_distinct_handles() {
    let mut s: Slab<String> = Slab::new();
    let a = s.insert("a".to_string());
    let b = s.insert("b".to_string());
    let c = s.insert("c".to_string());
    assert!(a != b && b != c && a != c);
    assert_eq!(s.get(a), "a");
    assert_eq!(s.get(b), "b");
    assert_eq!(s.get(c), "c");
    assert!(s.contains(a) && s.contains(b) && s.contains(c));
}

#[test]
fn slab_uses_a_freed_slot_again() {
    let mut s: Slab<u32> = Slab::new();
    let a = s.insert(1);
    let b = s.insert(2);
    assert_eq!(s.take(a), 1);
    assert!(!s.contains(a));
    assert!(s.contains(b));
    let c = s.insert(3);
    assert_eq!(c, a);
    assert_eq!(*s.get(c), 3);
    assert_eq!(*s.get(b), 2);
    assert_eq!(s.take(b), 2);
    assert_eq!(s.take(c), 3);
    assert!(!s.contains(b));
    assert!(!s.contains(c));
    assert!(!s.contains(1000));
}
