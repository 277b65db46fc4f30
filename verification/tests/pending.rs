use std::collections::HashMap;

use ferrobus::tcp::pending::{
    allocate_transaction_id, pending_map_poisoned, transaction_ids, PendingGuard, MAX_TID_PROBES,
};
use ferrobus::ModbusError;

#[test]
fn allocate_pending_transaction_id_inserts_atomically() {
    let mut transaction_id: u16 = 0;
    let mut pending = HashMap::new();

    let tid = allocate_transaction_id(&mut transaction_id, &mut pending, 1).unwrap();

    assert_eq!(tid, 0);
    assert!(pending.contains_key(&0));
}

#[test]
fn allocate_pending_transaction_id_reports_no_free_tid_after_probe_limit() {
    let mut transaction_id: u16 = 0;
    let mut pending = HashMap::new();
    for tid in 0..u16::try_from(MAX_TID_PROBES).unwrap() {
        pending.insert(tid, u64::from(tid));
    }

    let error = allocate_transaction_id(&mut transaction_id, &mut pending, 999).unwrap_err();

    assert!(matches!(error, ModbusError::NoFreeTransactionId));
    assert_eq!(transaction_id, 256);
    assert_eq!(pending.len(), 256);
}

#[test]
fn allocate_pending_transaction_id_wraps_around_u16_max() {
    let mut transaction_id: u16 = u16::MAX;
    let mut pending = HashMap::new();

    let first_tid = allocate_transaction_id(&mut transaction_id, &mut pending, 1).unwrap();
    let second_tid = allocate_transaction_id(&mut transaction_id, &mut pending, 2).unwrap();

    assert_eq!(first_tid, u16::MAX);
    assert_eq!(second_tid, 0);
    assert!(pending.contains_key(&u16::MAX));
    assert!(pending.contains_key(&0));
}

#[test]
fn pending_guard_removes_cancelled_request_entry() {
    let mut pending = HashMap::new();
    pending.insert(7u16, 1u64);

    let guard = PendingGuard {
        tid: 7,
        armed: true,
    };
    guard.release(&mut pending);

    assert!(pending.is_empty());
}

#[test]
fn disarmed_guard_leaves_the_map_alone() {
    let mut pending = HashMap::new();
    pending.insert(7u16, 1u64);

    let mut guard = PendingGuard::new(7);
    assert!(guard.armed);
    guard.disarm();
    guard.release(&mut pending);

    assert_eq!(pending.get(&7), Some(&1));
}

#[test]
fn taken_ids_are_skipped() {
    let mut transaction_id: u16 = 10;
    let mut pending = HashMap::new();
    pending.insert(10u16, 1u64);
    pending.insert(11u16, 2u64);

    let tid = allocate_transaction_id(&mut transaction_id, &mut pending, 3).unwrap();

    assert_eq!(tid, 12);
    assert_eq!(transaction_id, 13);
    assert_eq!(pending.get(&12), Some(&3));
}

#[test]
fn transaction_ids_are_listed_once_each() {
    let mut pending = HashMap::new();
    for tid in [3u16, 1, 2] {
        pending.insert(tid, 0u64);
    }

    let mut tids = transaction_ids(&pending);
    tids.sort_unstable();

    assert_eq!(tids, vec![1, 2, 3]);
}

#[test]
fn poisoned_map_is_a_read_error() {
    match pending_map_poisoned() {
        ModbusError::ReadError(error) => assert_eq!(error.to_string(), "pending map poisoned"),
        other => panic!("expected ReadError, got {other:?}"),
    }
}
