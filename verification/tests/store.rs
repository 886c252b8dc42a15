use keyvalue::StoreError;
use keyvalue::keyvalue;

#[test]
fn causal_replay_after_full_drain() {
    let (mut w, mut r) = keyvalue::<u64, u64>();
    assert_eq!(w.insert(1, 10), Ok(None));
    assert_eq!(w.insert(2, 20), Ok(None));
    assert_eq!(w.remove(1), Ok(Some(10)));
    assert_eq!(w.insert(3, 30), Ok(None));
    assert_eq!(r.get(&1), Ok(None));
    assert_eq!(r.get(&2), Ok(Some(20)));
    assert_eq!(r.get(&3), Ok(Some(30)));
    assert_eq!(w.get(&2), Some(&20));
    assert_eq!(w.get(&3), Some(&30));
    assert_eq!(w.get(&1), None);
}

#[test]
fn drain_after_prefix_reflects_exactly_that_prefix() {
    let (mut w, mut r) = keyvalue::<u64, u64>();
    assert_eq!(w.insert(1, 10), Ok(None));
    assert_eq!(w.insert(2, 20), Ok(None));
    assert_eq!(r.get(&1), Ok(Some(10)));
    assert_eq!(r.contains_key(&3), Ok(false));
    assert_eq!(w.insert(3, 30), Ok(None));
    assert_eq!(w.insert(1, 11), Ok(Some(10)));
    assert_eq!(r.get(&3), Ok(Some(30)));
    assert_eq!(r.get(&1), Ok(Some(11)));
}

#[test]
fn clear_of_empty_map_is_idempotent() {
    let (mut w, mut r) = keyvalue::<u64, u64>();
    assert_eq!(w.clear(), Ok(()));
    assert_eq!(w.clear(), Ok(()));
    assert!(!w.contains_key(&1));
    assert_eq!(r.contains_key(&1), Ok(false));
    assert_eq!(w.insert(1, 10), Ok(None));
    assert_eq!(w.clear(), Ok(()));
    assert_eq!(r.get(&1), Ok(None));
}

#[test]
fn remove_of_absent_key() {
    let (mut w, mut r) = keyvalue::<u64, u64>();
    assert_eq!(w.insert(1, 10), Ok(None));
    assert_eq!(r.get(&1), Ok(Some(10)));
    assert_eq!(w.remove(2), Ok(None));
    assert_eq!(r.get(&1), Ok(Some(10)));
    assert_eq!(r.contains_key(&2), Ok(false));
}

#[test]
fn writer_side_disconnection_commits_locally() {
    let (mut w, r) = keyvalue::<u64, u64>();
    drop(r);
    assert_eq!(w.insert(1, 10), Err(StoreError::Disconnected));
    assert_eq!(w.get(&1), Some(&10));
    assert!(w.contains_key(&1));
    assert_eq!(w.remove(1), Err(StoreError::Disconnected));
    assert_eq!(w.get(&1), None);
    assert_eq!(w.clear(), Err(StoreError::Disconnected));
}

#[test]
fn reader_side_disconnection() {
    let (mut w, mut r) = keyvalue::<u64, u64>();
    assert_eq!(w.insert(1, 10), Ok(None));
    drop(w);
    assert_eq!(r.get(&1), Err(StoreError::Disconnected));
    assert_eq!(r.contains_key(&1), Err(StoreError::Disconnected));
}

#[test]
fn query_drains_before_answering() {
    let (mut w, mut r) = keyvalue::<String, i32>();
    assert_eq!(w.insert("a".to_string(), 1), Ok(None));
    assert_eq!(w.insert("b".to_string(), 2), Ok(None));
    assert_eq!(r.get(&"a".to_string()), Ok(Some(1)));
    assert_eq!(r.get(&"b".to_string()), Ok(Some(2)));
}

#[test]
fn insert_then_remove_is_absent_after_drain() {
    let (mut w, mut r) = keyvalue::<String, i32>();
    assert_eq!(w.insert("a".to_string(), 1), Ok(None));
    assert_eq!(w.remove("a".to_string()), Ok(Some(1)));
    assert_eq!(r.contains_key(&"a".to_string()), Ok(false));
}

#[test]
fn insert_returns_previous_value() {
    let (mut w, _r) = keyvalue::<u64, u64>();
    assert_eq!(w.insert(1, 10), Ok(None));
    assert_eq!(w.insert(1, 11), Ok(Some(10)));
    assert_eq!(w.remove(1), Ok(Some(11)));
    assert_eq!(w.remove(1), Ok(None));
}

#[test]
fn writer_local_reads_never_touch_the_channel() {
    let (mut w, mut r) = keyvalue::<u64, u64>();
    assert_eq!(w.insert(1, 10), Ok(None));
    assert_eq!(w.get(&1), Some(&10));
    assert_eq!(w.get(&2), None);
    assert!(w.contains_key(&1));
    assert!(!w.contains_key(&2));
    assert_eq!(r.get(&1), Ok(Some(10)));
}

#[test]
fn fresh_pair_is_empty_on_both_sides() {
    let (w, mut r) = keyvalue::<u64, u64>();
    assert_eq!(w.get(&1), None);
    assert!(!w.contains_key(&1));
    assert_eq!(r.get(&1), Ok(None));
    assert_eq!(r.contains_key(&1), Ok(false));
}
