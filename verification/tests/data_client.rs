use clay_core::provider::data_client::{ClientError, Completion, DataClient, ValueOption};
use clay_core::provider::provider::{reconcile_capacity, DEFAULT_STORAGE_MAX_SIZE};

type Client = DataClient<u64, u64>;

fn client(capacity: usize) -> Client {
    match Client::new(capacity) {
        Ok(client) => client,
        Err(_) => panic!("a positive capacity was turned down"),
    }
}

#[test]
fn new_client_is_empty() {
    let mut c = client(3);
    assert_eq!(c.max_size(), 3);
    assert_eq!(c.len(), 0);
    assert_eq!(c.read("a"), None);
    assert!(!c.is_fetching("a"));
    assert_eq!(c.get_cursor("a"), None);
}

#[test]
fn new_rejects_zero_capacity() {
    assert_eq!(Client::new(0).err(), Some(ClientError::InvalidCapacity));
    assert_eq!(
        DataClient::<String, ()>::new(0).err(),
        Some(ClientError::InvalidCapacity)
    );
}

#[test]
fn new_accepts_the_largest_capacity() {
    let mut c = client(usize::MAX);
    assert_eq!(c.max_size(), usize::MAX);
    c.put("a", 1);
    assert_eq!(c.read("a"), Some(&1));
}

#[test]
fn resize_rejects_zero_and_changes_nothing() {
    let mut c = client(2);
    c.put("a", 1);
    c.put("b", 2);
    assert_eq!(c.resize(0), Err(ClientError::InvalidCapacity));
    assert_eq!(c.max_size(), 2);
    assert_eq!(c.len(), 2);
    assert_eq!(c.read("a"), Some(&1));
    assert_eq!(c.read("b"), Some(&2));
}

#[test]
fn store_never_exceeds_capacity() {
    let keys = ["a", "b", "c", "d", "e", "f", "g", "h"];
    let mut c = client(3);
    let mut round: u64 = 0;
    while round < 4 {
        let mut i = 0;
        while i < keys.len() {
            c.put(keys[i], round * 10 + i as u64);
            assert!(c.len() <= 3);
            c.read(keys[(i * 3) % keys.len()]);
            assert!(c.len() <= 3);
            i += 1;
        }
        round += 1;
    }
    assert_eq!(c.len(), 3);
    assert_eq!(c.max_size(), 3);
}

#[test]
fn read_after_put_returns_the_value() {
    let mut c = client(1);
    c.put("k", 7);
    assert_eq!(c.read("k"), Some(&7));
    c.put("k", 8);
    assert_eq!(c.read("k"), Some(&8));
    assert_eq!(c.len(), 1);
    c.put("other", 9);
    assert_eq!(c.read("other"), Some(&9));
    assert_eq!(c.read("k"), None);
}

#[test]
fn overwrite_keeps_one_entry_and_refreshes_it() {
    let mut c = client(2);
    c.put("a", 1);
    c.put("b", 2);
    c.put("a", 10);
    assert_eq!(c.len(), 2);
    c.put("c", 3);
    assert_eq!(c.read("b"), None);
    assert_eq!(c.read("a"), Some(&10));
    assert_eq!(c.read("c"), Some(&3));
}

#[test]
fn eviction_follows_insertion_order() {
    let mut c = client(2);
    c.put("a", 1);
    c.put("b", 2);
    c.put("c", 3);
    assert_eq!(c.read("a"), None);
    assert_eq!(c.read("b"), Some(&2));
    assert_eq!(c.read("c"), Some(&3));
}

#[test]
fn read_refreshes_recency() {
    let mut c = client(2);
    c.put("a", 1);
    c.put("b", 2);
    assert_eq!(c.read("a"), Some(&1));
    c.put("c", 3);
    assert_eq!(c.read("b"), None);
    assert_eq!(c.read("a"), Some(&1));
    assert_eq!(c.read("c"), Some(&3));
}

#[test]
fn missed_read_changes_nothing() {
    let mut c = client(2);
    c.put("a", 1);
    c.put("b", 2);
    assert_eq!(c.read("zzz"), None);
    c.put("c", 3);
    assert_eq!(c.read("a"), None);
    assert_eq!(c.read("b"), Some(&2));
}

#[test]
fn fetch_lifecycle() {
    let mut c = client(4);
    assert!(!c.is_fetching("x"));
    assert_eq!(c.begin("x", 500), None);
    assert!(c.is_fetching("x"));
    assert_eq!(c.read("x"), None);
    assert_eq!(c.complete("x", 42), Completion { task: Some(500), gone: None });
    assert!(!c.is_fetching("x"));
    assert_eq!(c.read("x"), Some(&42));
}

#[test]
fn second_begin_keeps_the_first_fetch() {
    let mut c = client(4);
    assert_eq!(c.begin("x", 1), None);
    assert_eq!(c.begin("x", 2), Some(2));
    assert!(c.is_fetching("x"));
    assert_eq!(c.fetch_of("x"), Some(&1));
    assert_eq!(c.begin("y", 3), None);
    assert_eq!(c.complete("x", 42).task, Some(1));
    assert!(!c.is_fetching("x"));
    assert!(c.is_fetching("y"));
    assert_eq!(c.begin("x", 4), None);
    assert_eq!(c.fetch_of("x"), Some(&4));
}

#[test]
fn completion_overwrites_a_newer_write() {
    let mut c = client(2);
    c.begin("x", 1);
    assert_eq!(c.put("x", 10), None);
    assert_eq!(c.complete("x", 20), Completion { task: Some(1), gone: Some(10) });
    assert_eq!(c.read("x"), Some(&20));
    assert_eq!(c.len(), 1);
}

#[test]
fn completion_without_a_fetch_is_a_write() {
    let mut c = client(2);
    assert_eq!(c.complete("x", 5), Completion { task: None, gone: None });
    assert!(!c.is_fetching("x"));
    assert_eq!(c.read("x"), Some(&5));
}

#[test]
fn update_with_a_value_writes_and_keeps_the_fetch() {
    let mut c = client(2);
    c.update("x", ValueOption::FutureValue(9));
    assert!(c.is_fetching("x"));
    assert_eq!(c.read("x"), None);
    c.update("x", ValueOption::Value(42));
    assert_eq!(c.read("x"), Some(&42));
    assert!(c.is_fetching("x"));
    c.update("x", ValueOption::FutureValue(10));
    assert_eq!(c.fetch_of("x"), Some(&9));
}

#[test]
fn cursors_are_independent_of_the_store() {
    let mut c = client(1);
    assert_eq!(c.set_cursor("list", "page2".to_string()), None);
    assert_eq!(c.get_cursor("list"), Some(&"page2".to_string()));
    assert_eq!(c.set_cursor("list", "page3".to_string()), Some("page2".to_string()));
    assert_eq!(c.get_cursor("list"), Some(&"page3".to_string()));
    assert_eq!(c.read("list"), None);
    assert_eq!(c.len(), 0);
    c.put("list", 1);
    c.put("other", 2);
    assert_eq!(c.read("list"), None);
    assert_eq!(c.get_cursor("list"), Some(&"page3".to_string()));
    assert_eq!(c.get_cursor("other"), None);
}

#[test]
fn cursors_of_different_keys_do_not_mix() {
    let mut c = client(1);
    c.set_cursor("a", "1".to_string());
    c.set_cursor("b", "2".to_string());
    c.set_cursor("c", "3".to_string());
    assert_eq!(c.set_cursor("b", "4".to_string()), Some("2".to_string()));
    assert_eq!(c.get_cursor("a"), Some(&"1".to_string()));
    assert_eq!(c.get_cursor("b"), Some(&"4".to_string()));
    assert_eq!(c.get_cursor("c"), Some(&"3".to_string()));
}

#[test]
fn shrinking_evicts_the_oldest() {
    let mut c = client(5);
    c.put("a", 1);
    c.put("b", 2);
    c.put("c", 3);
    c.put("d", 4);
    c.put("e", 5);
    assert_eq!(c.resize(2), Ok(vec![1, 2, 3]));
    assert_eq!(c.max_size(), 2);
    assert_eq!(c.len(), 2);
    assert_eq!(c.read("a"), None);
    assert_eq!(c.read("b"), None);
    assert_eq!(c.read("c"), None);
    assert_eq!(c.read("d"), Some(&4));
    assert_eq!(c.read("e"), Some(&5));
}

#[test]
fn shrinking_honours_reads() {
    let mut c = client(4);
    c.put("a", 1);
    c.put("b", 2);
    c.put("c", 3);
    c.put("d", 4);
    c.read("a");
    assert_eq!(c.resize(2), Ok(vec![2, 3]));
    assert_eq!(c.len(), 2);
    assert_eq!(c.read("d"), Some(&4));
    assert_eq!(c.read("a"), Some(&1));
    assert_eq!(c.read("b"), None);
    assert_eq!(c.read("c"), None);
}

#[test]
fn growing_evicts_nothing() {
    let mut c = client(2);
    c.put("a", 1);
    c.put("b", 2);
    assert_eq!(c.resize(2), Ok(vec![]));
    assert_eq!(c.len(), 2);
    assert_eq!(c.resize(4), Ok(vec![]));
    assert_eq!(c.max_size(), 4);
    assert_eq!(c.len(), 2);
    c.put("c", 3);
    c.put("d", 4);
    assert_eq!(c.len(), 4);
    assert_eq!(c.read("a"), Some(&1));
    assert_eq!(c.read("b"), Some(&2));
    assert_eq!(c.read("c"), Some(&3));
    assert_eq!(c.read("d"), Some(&4));
}

#[test]
fn resize_leaves_fetches_and_cursors() {
    let mut c = client(3);
    c.begin("x", 1);
    c.set_cursor("x", "next".to_string());
    c.put("x", 5);
    c.put("y", 6);
    assert_eq!(c.resize(1), Ok(vec![5]));
    assert!(c.is_fetching("x"));
    assert_eq!(c.get_cursor("x"), Some(&"next".to_string()));
    assert_eq!(c.read("x"), None);
    assert_eq!(c.read("y"), Some(&6));
}

#[test]
fn reconcile_resizes_once_per_change() {
    let mut c = client(DEFAULT_STORAGE_MAX_SIZE);
    assert_eq!(DEFAULT_STORAGE_MAX_SIZE, 20);
    c.put("a", 1);
    c.put("b", 2);
    c.put("c", 3);
    assert_eq!(reconcile_capacity(&mut c, 20), Ok(None));
    assert_eq!(c.len(), 3);
    assert_eq!(reconcile_capacity(&mut c, 2), Ok(Some(vec![1])));
    assert_eq!(c.max_size(), 2);
    assert_eq!(c.len(), 2);
    assert_eq!(reconcile_capacity(&mut c, 2), Ok(None));
    assert_eq!(c.max_size(), 2);
    assert_eq!(c.read("a"), None);
    assert_eq!(c.read("b"), Some(&2));
    assert_eq!(c.read("c"), Some(&3));
}

#[test]
fn reconcile_rejects_zero() {
    let mut c = client(2);
    c.put("a", 1);
    assert_eq!(reconcile_capacity(&mut c, 0), Err(ClientError::InvalidCapacity));
    assert_eq!(c.max_size(), 2);
    assert_eq!(c.read("a"), Some(&1));
}

#[test]
fn put_hands_back_what_left() {
    let mut c = client(2);
    assert_eq!(c.put("a", 1), None);
    assert_eq!(c.put("b", 2), None);
    assert_eq!(c.put("a", 10), Some(1));
    assert_eq!(c.put("c", 3), Some(2));
    assert_eq!(c.read("a"), Some(&10));
    assert_eq!(c.put("d", 4), Some(3));
    assert_eq!(c.len(), 2);
}

#[test]
fn growing_an_empty_store_evicts_nothing() {
    let mut c = client(1);
    assert_eq!(c.resize(usize::MAX), Ok(vec![]));
    assert_eq!(c.max_size(), usize::MAX);
    assert_eq!(c.resize(1), Ok(vec![]));
    assert_eq!(c.max_size(), 1);
}

#[test]
fn shrinking_to_the_size_evicts_nothing() {
    let mut c = client(5);
    c.put("a", 1);
    c.put("b", 2);
    assert_eq!(c.resize(2), Ok(vec![]));
    assert_eq!(c.read("a"), Some(&1));
    assert_eq!(c.read("b"), Some(&2));
    assert_eq!(c.put("c", 3), Some(1));
}

#[test]
fn fetch_of_names_the_fetch_in_flight() {
    let mut c = client(2);
    assert_eq!(c.fetch_of("x"), None);
    c.begin("x", 7);
    c.begin("y", 8);
    assert_eq!(c.fetch_of("x"), Some(&7));
    assert_eq!(c.fetch_of("y"), Some(&8));
    c.begin("x", 9);
    assert_eq!(c.fetch_of("x"), Some(&7));
    c.complete("x", 1);
    assert_eq!(c.fetch_of("x"), None);
    assert_eq!(c.fetch_of("y"), Some(&8));
}

#[test]
fn payloads_of_any_type_are_stored() {
    let mut c: DataClient<String, Vec<u8>> = match DataClient::new(2) {
        Ok(c) => c,
        Err(_) => panic!("a positive capacity was turned down"),
    };
    assert_eq!(c.put("a", "alpha".to_string()), None);
    assert_eq!(c.put("b", "beta".to_string()), None);
    assert_eq!(c.read("a"), Some(&"alpha".to_string()));
    assert_eq!(c.put("c", "gamma".to_string()), Some("beta".to_string()));
    assert_eq!(c.put("a", "again".to_string()), Some("alpha".to_string()));
    assert_eq!(c.begin("d", vec![1, 2]), None);
    assert_eq!(c.begin("d", vec![3]), Some(vec![3]));
    assert_eq!(c.fetch_of("d"), Some(&vec![1, 2]));
    assert_eq!(
        c.complete("d", "delta".to_string()),
        Completion { task: Some(vec![1, 2]), gone: Some("gamma".to_string()) }
    );
    assert_eq!(c.resize(1), Ok(vec!["again".to_string()]));
    assert_eq!(c.read("d"), Some(&"delta".to_string()));
    assert_eq!(c.read("a"), None);
}

#[test]
fn slots_are_used_again_after_evictions() {
    let keys = ["a", "b", "c", "d", "e", "f"];
    let mut c = client(4);
    let mut round: u64 = 0;
    while round < 50 {
        let mut i = 0;
        while i < keys.len() {
            c.put(keys[i], round * 100 + i as u64);
            assert_eq!(c.read(keys[i]), Some(&(round * 100 + i as u64)));
            i += 1;
        }
        assert_eq!(c.resize(2), Ok(vec![round * 100 + 2, round * 100 + 3]));
        assert_eq!(c.read("e"), Some(&(round * 100 + 4)));
        assert_eq!(c.read("f"), Some(&(round * 100 + 5)));
        assert_eq!(c.resize(4), Ok(vec![]));
        round += 1;
    }
    assert_eq!(c.len(), 2);
}
