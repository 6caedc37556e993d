//! The transactional state handle alone: checkpoint, commit and revert
//! semantics over the key-value space.

use sov_app_template::state::{StateHandle, StateKey};

const K1: StateKey = StateKey::AccountBalance(1);
const K2: StateKey = StateKey::AccountBalance(2);

#[test]
fn read_of_absent_key_is_none() {
    let ws = StateHandle::new();
    assert_eq!(ws.read(K1), None);
}

#[test]
fn last_write_wins() {
    let mut ws = StateHandle::new();
    ws.write(K1, 10);
    ws.write(K1, 20);
    assert_eq!(ws.read(K1), Some(20));
}

#[test]
fn revert_discards_writes_since_checkpoint() {
    let mut ws = StateHandle::new();
    ws.write(K1, 10);
    let cp = ws.checkpoint();
    ws.write(K1, 99);
    ws.write(K2, 5);
    ws.revert_to(cp);
    assert_eq!(ws.read(K1), Some(10));
    assert_eq!(ws.read(K2), None);
    assert_eq!(ws.open_checkpoints(), 0);
}

#[test]
fn commit_makes_writes_visible_and_closes_checkpoint() {
    let mut ws = StateHandle::new();
    let cp = ws.checkpoint();
    ws.write(K1, 10);
    ws.commit(cp);
    assert_eq!(ws.read(K1), Some(10));
    assert_eq!(ws.open_checkpoints(), 0);
}

#[test]
fn outer_revert_discards_inner_committed_checkpoint() {
    // An inner checkpoint resolves before the outer one; its committed writes
    // still vanish when the outer checkpoint reverts.
    let mut ws = StateHandle::new();
    ws.write(K1, 1);
    let outer = ws.checkpoint();
    ws.write(K1, 2);
    let inner = ws.checkpoint();
    ws.write(K2, 7);
    ws.commit(inner);
    assert_eq!(ws.read(K2), Some(7));
    ws.revert_to(outer);
    assert_eq!(ws.read(K1), Some(1));
    assert_eq!(ws.read(K2), None);
}

#[test]
fn revert_to_outer_discards_nested_open_checkpoints() {
    let mut ws = StateHandle::new();
    let outer = ws.checkpoint();
    ws.write(K1, 2);
    let _inner = ws.checkpoint();
    ws.write(K1, 3);
    ws.revert_to(outer);
    assert_eq!(ws.read(K1), None);
    assert_eq!(ws.open_checkpoints(), 0);
}

#[test]
fn checkpoint_identifiers_count_depth() {
    let mut ws = StateHandle::new();
    let a = ws.checkpoint();
    let b = ws.checkpoint();
    assert_eq!(a, 0);
    assert_eq!(b, 1);
    assert_eq!(ws.open_checkpoints(), 2);
}
