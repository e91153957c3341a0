use krsi_ebpf::error::ProbeError;
use krsi_ebpf::shared_state::op_info::{OpInfo, OpInfoStore, RenameatData};

fn rename() -> OpInfo {
    OpInfo::Renameat(RenameatData {})
}

#[test]
fn new_store_is_empty() {
    let store = OpInfoStore::new(4);
    assert_eq!(store.get(0), None);
    assert_eq!(store.get(1234), None);
}

#[test]
fn insert_then_get_then_remove() {
    let mut store = OpInfoStore::new(4);
    assert_eq!(store.insert(42, &rename()), Ok(0));
    assert_eq!(store.get(42), Some(&rename()));
    assert_eq!(store.get(43), None);
    // Reading leaves the entry where it is.
    assert_eq!(store.get(42), Some(&rename()));
    assert_eq!(store.remove(42), Some(rename()));
    assert_eq!(store.get(42), None);
}

#[test]
fn second_insert_overwrites() {
    let mut store = OpInfoStore::new(1);
    assert_eq!(store.insert(42, &rename()), Ok(0));
    assert_eq!(store.insert(42, &rename()), Ok(0));
    assert_eq!(store.remove(42), Some(rename()));
    assert_eq!(store.remove(42), None);
}

#[test]
fn full_store_rejects_a_new_thread() {
    let mut store = OpInfoStore::new(2);
    assert_eq!(store.insert(1, &rename()), Ok(0));
    assert_eq!(store.insert(2, &rename()), Ok(0));
    assert_eq!(store.insert(3, &rename()), Err(ProbeError::ResourceExhausted));
    assert_eq!(store.get(3), None);
    assert_eq!(store.get(1), Some(&rename()));
    assert_eq!(store.get(2), Some(&rename()));
    // A thread that has an entry can still overwrite it.
    assert_eq!(store.insert(2, &rename()), Ok(0));
    // Room comes back when an entry leaves.
    assert_eq!(store.remove(1), Some(rename()));
    assert_eq!(store.insert(3, &rename()), Ok(0));
}

#[test]
fn store_without_room_takes_nothing() {
    let mut store = OpInfoStore::new(0);
    assert_eq!(store.insert(1, &rename()), Err(ProbeError::ResourceExhausted));
    assert_eq!(store.get(1), None);
}

#[test]
fn removing_an_absent_thread_is_no_error() {
    let mut store = OpInfoStore::new(2);
    assert_eq!(store.insert(1, &rename()), Ok(0));
    assert_eq!(store.remove(7), None);
    assert_eq!(store.remove(7), None);
    assert_eq!(store.get(1), Some(&rename()));
}
