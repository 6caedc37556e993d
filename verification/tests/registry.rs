//! Sequencer registry: admission, reward, slash, deregistration.

use sov_app_template::config::KernelConfig;
use sov_app_template::registry::{
    check_admission, deregister_sequencer, register_sequencer, reward, slash, AdmissionError,
    StakeError,
};
use sov_app_template::state::{StateHandle, StateKey};

fn cfg(min_stake: u64) -> KernelConfig {
    KernelConfig { min_stake, batch_reward: 0, tx_fee: 0 }
}

#[test]
fn admission_at_exact_minimum_passes() {
    let mut ws = StateHandle::new();
    register_sequencer(&mut ws, 5, 50, 100, false);
    assert!(check_admission(&ws, &cfg(100), 5).is_ok());
}

#[test]
fn admission_below_minimum_fails() {
    let mut ws = StateHandle::new();
    register_sequencer(&mut ws, 5, 50, 99, false);
    assert_eq!(check_admission(&ws, &cfg(100), 5).unwrap_err(), AdmissionError::InsufficientStake);
}

#[test]
fn admission_of_unregistered_fails() {
    let ws = StateHandle::new();
    assert_eq!(check_admission(&ws, &cfg(0), 5).unwrap_err(), AdmissionError::Unregistered);
}

#[test]
fn admission_after_deregistration_fails() {
    let mut ws = StateHandle::new();
    register_sequencer(&mut ws, 5, 50, 100, true);
    deregister_sequencer(&mut ws, 5);
    assert_eq!(check_admission(&ws, &cfg(0), 5).unwrap_err(), AdmissionError::Unregistered);
}

#[test]
fn registration_records_all_attributes() {
    let mut ws = StateHandle::new();
    register_sequencer(&mut ws, 5, 50, 100, true);
    assert_eq!(ws.read(StateKey::SequencerRegistered(5)), Some(1));
    assert_eq!(ws.read(StateKey::SequencerStake(5)), Some(100));
    assert_eq!(ws.read(StateKey::SequencerDa(5)), Some(50));
    assert_eq!(ws.read(StateKey::SequencerPreferred(5)), Some(1));
}

#[test]
fn record_accessors_report_the_record() {
    let mut ws = StateHandle::new();
    register_sequencer(&mut ws, 5, 50, 100, true);
    assert_eq!(sov_app_template::registry::locked_stake(&ws, 5), 100);
    assert_eq!(sov_app_template::registry::da_address(&ws, 5), Some(50));
    assert!(sov_app_template::registry::is_preferred(&ws, 5));
    assert_eq!(sov_app_template::registry::locked_stake(&ws, 6), 0);
    assert_eq!(sov_app_template::registry::da_address(&ws, 6), None);
    assert!(!sov_app_template::registry::is_preferred(&ws, 6));
}

#[test]
fn reward_credits_stake() {
    let mut ws = StateHandle::new();
    register_sequencer(&mut ws, 5, 50, 100, false);
    reward(&mut ws, 5, 25).unwrap();
    assert_eq!(ws.read(StateKey::SequencerStake(5)), Some(125));
}

#[test]
fn reward_of_unregistered_fails() {
    let mut ws = StateHandle::new();
    assert_eq!(reward(&mut ws, 5, 25).unwrap_err(), StakeError::Unregistered);
}

#[test]
fn reward_overflow_fails_and_changes_nothing() {
    let mut ws = StateHandle::new();
    register_sequencer(&mut ws, 5, 50, u64::MAX - 10, false);
    assert_eq!(reward(&mut ws, 5, 11).unwrap_err(), StakeError::Overflow);
    assert_eq!(ws.read(StateKey::SequencerStake(5)), Some(u64::MAX - 10));
}

#[test]
fn slash_debits_stake() {
    let mut ws = StateHandle::new();
    register_sequencer(&mut ws, 5, 50, 100, false);
    slash(&mut ws, 5, 30).unwrap();
    assert_eq!(ws.read(StateKey::SequencerStake(5)), Some(70));
}

#[test]
fn slash_saturates_at_zero() {
    let mut ws = StateHandle::new();
    register_sequencer(&mut ws, 5, 50, 100, false);
    slash(&mut ws, 5, 130).unwrap();
    assert_eq!(ws.read(StateKey::SequencerStake(5)), Some(0));
}

#[test]
fn slash_of_unregistered_fails() {
    let mut ws = StateHandle::new();
    assert_eq!(slash(&mut ws, 5, 1).unwrap_err(), StakeError::Unregistered);
}
