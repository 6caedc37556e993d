//! Sequencer registry and admission control. The registry's records live in
//! the transactional key-value space itself, so stake changes made while a
//! batch is open are part of the same state diff as the batch's other effects
//! and revert with it.

use vstd::prelude::*;
use crate::config::KernelConfig;
use crate::state::{map_get, StateHandle, StateKey};

verus! {

/// Why a sequencer was refused admission.
#[derive(Clone, Copy, PartialEq, Eq, Structural, Debug)]
pub enum AdmissionError {
    /// No registration record exists for the sequencer.
    Unregistered,
    /// The sequencer's locked stake is below the configured minimum.
    InsufficientStake,
}

/// Why a stake adjustment was refused.
#[derive(Clone, Copy, PartialEq, Eq, Structural, Debug)]
pub enum StakeError {
    /// No registration record exists for the sequencer.
    Unregistered,
    /// Crediting the amount would overflow the stake counter.
    Overflow,
}

/// Whether `sequencer` is registered in snapshot `st`.
pub open spec fn registered(st: Map<StateKey, u64>, sequencer: u64) -> bool {
    map_get(st, StateKey::SequencerRegistered(sequencer)) == Some(1u64)
}

/// The locked stake of `sequencer` in snapshot `st` (zero when absent).
pub open spec fn stake_of(st: Map<StateKey, u64>, sequencer: u64) -> u64 {
    match map_get(st, StateKey::SequencerStake(sequencer)) {
        Some(v) => v,
        None => 0u64,
    }
}

/// Whether `sequencer` may propose a batch: registered, with locked stake at
/// least the configured minimum.
pub open spec fn admissible(cfg: KernelConfig, st: Map<StateKey, u64>, sequencer: u64) -> bool {
    registered(st, sequencer) && stake_of(st, sequencer) >= cfg.min_stake
}

/// Records a sequencer: rollup address, DA address, initial locked stake and
/// preferred status. Used at genesis or by a registration transaction.
pub fn register_sequencer(
    ws: &mut StateHandle,
    sequencer: u64,
    da_address: u64,
    stake: u64,
    preferred: bool,
)
    requires
        old(ws).wf(),
    ensures
        final(ws).wf(),
        final(ws).depth() == old(ws).depth(),
        forall|d: int| 0 <= d < old(ws).depth() ==> final(ws).view_at(d) == old(ws).view_at(d),
        final(ws).view() == old(ws).view().insert(StateKey::SequencerRegistered(sequencer), 1u64)
            .insert(StateKey::SequencerStake(sequencer), stake)
            .insert(StateKey::SequencerDa(sequencer), da_address)
            .insert(
            StateKey::SequencerPreferred(sequencer),
            if preferred {
                1u64
            } else {
                0u64
            },
        ),
{
    ws.write(StateKey::SequencerRegistered(sequencer), 1);
    ws.write(StateKey::SequencerStake(sequencer), stake);
    ws.write(StateKey::SequencerDa(sequencer), da_address);
    ws.write(StateKey::SequencerPreferred(sequencer), if preferred { 1 } else { 0 });
}

/// Clears a sequencer's registration record. Deregistration is always
/// explicit; records are never silently deleted.
pub fn deregister_sequencer(ws: &mut StateHandle, sequencer: u64)
    requires
        old(ws).wf(),
    ensures
        final(ws).wf(),
        final(ws).depth() == old(ws).depth(),
        forall|d: int| 0 <= d < old(ws).depth() ==> final(ws).view_at(d) == old(ws).view_at(d),
        final(ws).view() == old(ws).view().insert(StateKey::SequencerRegistered(sequencer), 0u64),
        !registered(final(ws).view(), sequencer),
{
    ws.write(StateKey::SequencerRegistered(sequencer), 0);
}

/// The locked stake of `sequencer` (zero when no record exists).
pub fn locked_stake(ws: &StateHandle, sequencer: u64) -> (r: u64)
    requires
        ws.wf(),
    ensures
        r == stake_of(ws.view(), sequencer),
{
    match ws.read(StateKey::SequencerStake(sequencer)) {
        Some(v) => v,
        None => 0,
    }
}

/// The DA address bound to `sequencer`, if a record exists.
pub fn da_address(ws: &StateHandle, sequencer: u64) -> (r: Option<u64>)
    requires
        ws.wf(),
    ensures
        r == map_get(ws.view(), StateKey::SequencerDa(sequencer)),
{
    ws.read(StateKey::SequencerDa(sequencer))
}

/// Whether `sequencer` holds preferred (first-priority) status. The flag is
/// an admission attribute for the surrounding scheduler; it has no effect
/// inside the pipeline.
pub fn is_preferred(ws: &StateHandle, sequencer: u64) -> (r: bool)
    requires
        ws.wf(),
    ensures
        r == (map_get(ws.view(), StateKey::SequencerPreferred(sequencer)) == Some(1u64)),
{
    match ws.read(StateKey::SequencerPreferred(sequencer)) {
        Some(v) => v == 1,
        None => false,
    }
}

/// Admission check: `Ok` exactly when the sequencer is registered with locked
/// stake at least `cfg.min_stake`. Reads state, never writes it.
pub fn check_admission(ws: &StateHandle, cfg: &KernelConfig, sequencer: u64) -> (r: Result<
    (),
    AdmissionError,
>)
    requires
        ws.wf(),
    ensures
        r is Ok <==> admissible(*cfg, ws.view(), sequencer),
        r == Err::<(), AdmissionError>(AdmissionError::Unregistered) <==> !registered(
            ws.view(),
            sequencer,
        ),
        r == Err::<(), AdmissionError>(AdmissionError::InsufficientStake) <==> registered(
            ws.view(),
            sequencer,
        ) && stake_of(ws.view(), sequencer) < cfg.min_stake,
{
    let reg = ws.read(StateKey::SequencerRegistered(sequencer));
    match reg {
        Some(1u64) => {
            let stake = match ws.read(StateKey::SequencerStake(sequencer)) {
                Some(v) => v,
                None => 0,
            };
            if stake >= cfg.min_stake {
                Ok(())
            } else {
                Err(AdmissionError::InsufficientStake)
            }
        },
        _ => Err(AdmissionError::Unregistered),
    }
}

/// Credits `amount` to the sequencer's locked stake. `Ok` exactly when the
/// sequencer is registered and the credit fits the stake counter; on any
/// failure the state is untouched.
pub fn reward(ws: &mut StateHandle, sequencer: u64, amount: u64) -> (r: Result<(), StakeError>)
    requires
        old(ws).wf(),
    ensures
        final(ws).wf(),
        final(ws).depth() == old(ws).depth(),
        forall|d: int| 0 <= d < old(ws).depth() ==> final(ws).view_at(d) == old(ws).view_at(d),
        r == Err::<(), StakeError>(StakeError::Unregistered) <==> !registered(
            old(ws).view(),
            sequencer,
        ),
        r == Err::<(), StakeError>(StakeError::Overflow) <==> registered(old(ws).view(), sequencer)
            && stake_of(old(ws).view(), sequencer) + amount > u64::MAX,
        r is Ok <==> registered(old(ws).view(), sequencer) && stake_of(old(ws).view(), sequencer)
            + amount <= u64::MAX,
        r is Ok ==> final(ws).view() == old(ws).view().insert(
            StateKey::SequencerStake(sequencer),
            (stake_of(old(ws).view(), sequencer) + amount) as u64,
        ),
        r is Err ==> *final(ws) == *old(ws),
{
    let reg = ws.read(StateKey::SequencerRegistered(sequencer));
    if reg != Some(1u64) {
        return Err(StakeError::Unregistered);
    }
    let stake = match ws.read(StateKey::SequencerStake(sequencer)) {
        Some(v) => v,
        None => 0,
    };
    if amount > u64::MAX - stake {
        return Err(StakeError::Overflow);
    }
    ws.write(StateKey::SequencerStake(sequencer), stake + amount);
    Ok(())
}

/// Debits `amount` from the sequencer's locked stake, saturating at zero.
/// `Ok` exactly when the sequencer is registered; on failure the state is
/// untouched.
pub fn slash(ws: &mut StateHandle, sequencer: u64, amount: u64) -> (r: Result<(), StakeError>)
    requires
        old(ws).wf(),
    ensures
        final(ws).wf(),
        final(ws).depth() == old(ws).depth(),
        forall|d: int| 0 <= d < old(ws).depth() ==> final(ws).view_at(d) == old(ws).view_at(d),
        r is Ok <==> registered(old(ws).view(), sequencer),
        r is Err ==> *final(ws) == *old(ws) && r == Err::<(), StakeError>(StakeError::Unregistered),
        r is Ok ==> final(ws).view() == old(ws).view().insert(
            StateKey::SequencerStake(sequencer),
            if stake_of(old(ws).view(), sequencer) >= amount {
                (stake_of(old(ws).view(), sequencer) - amount) as u64
            } else {
                0u64
            },
        ),
{
    let reg = ws.read(StateKey::SequencerRegistered(sequencer));
    if reg != Some(1u64) {
        return Err(StakeError::Unregistered);
    }
    let stake = match ws.read(StateKey::SequencerStake(sequencer)) {
        Some(v) => v,
        None => 0,
    };
    let debited = if stake >= amount {
        stake - amount
    } else {
        0
    };
    ws.write(StateKey::SequencerStake(sequencer), debited);
    Ok(())
}

} // verus!
