//! The hook lifecycle around batch and transaction processing: admission when
//! a batch enters, fee accounting around each dispatch, reward crediting when
//! a batch exits, and the after-revert step. These are the concrete hooks the
//! batch controller is composed with; every one of them is deterministic in
//! the state snapshot and its arguments.

use vstd::prelude::*;
use crate::auth::{AuthenticatedTx, VerifiedTx};
use crate::bank::bal_of;
use crate::config::KernelConfig;
use crate::registry::{admissible, check_admission, registered, reward, stake_of, AdmissionError, StakeError};
use crate::state::{StateHandle, StateKey};

verus! {

/// Why a transaction hook failed.
#[derive(Clone, Copy, PartialEq, Eq, Structural, Debug)]
pub enum HookError {
    /// The sender's balance cannot settle the configured transaction fee.
    InsufficientFeeBalance,
}

/// Whether the pre-dispatch hook lets a transaction from `sender` through:
/// the sender must be able to cover the configured fee.
pub open spec fn pre_hook_ok(cfg: KernelConfig, st: Map<StateKey, u64>, sender: u64) -> bool {
    bal_of(st, sender) >= cfg.tx_fee
}

/// What the post-dispatch hook does on snapshot `st`: settles the fee from
/// the sender's balance, or fails if dispatch left the sender unable to pay.
pub open spec fn post_hook_result(cfg: KernelConfig, st: Map<StateKey, u64>, sender: u64) -> Result<
    Map<StateKey, u64>,
    HookError,
> {
    if bal_of(st, sender) >= cfg.tx_fee {
        Ok(
            st.insert(
                StateKey::AccountBalance(sender),
                (bal_of(st, sender) - cfg.tx_fee) as u64,
            ),
        )
    } else {
        Err(HookError::InsufficientFeeBalance)
    }
}

/// What the batch-exit step does on snapshot `st`: credits the configured
/// reward to the sequencer's locked stake, or fails if the sequencer is no
/// longer registered or the credit would overflow.
pub open spec fn exit_result(cfg: KernelConfig, st: Map<StateKey, u64>, sequencer: u64) -> Result<
    Map<StateKey, u64>,
    StakeError,
> {
    if !registered(st, sequencer) {
        Err(StakeError::Unregistered)
    } else if stake_of(st, sequencer) + cfg.batch_reward > u64::MAX {
        Err(StakeError::Overflow)
    } else {
        Ok(
            st.insert(
                StateKey::SequencerStake(sequencer),
                (stake_of(st, sequencer) + cfg.batch_reward) as u64,
            ),
        )
    }
}

/// Runs at the beginning of batch application: validates the sequencer
/// against the registry. Writes nothing; on failure the batch is rejected
/// before any state mutation.
pub fn enter_apply_batch(cfg: &KernelConfig, ws: &mut StateHandle, sequencer: u64) -> (r: Result<
    (),
    AdmissionError,
>)
    requires
        old(ws).wf(),
    ensures
        *final(ws) == *old(ws),
        r is Ok <==> admissible(*cfg, old(ws).view(), sequencer),
        r == Err::<(), AdmissionError>(AdmissionError::Unregistered) <==> !registered(
            old(ws).view(),
            sequencer,
        ),
        r == Err::<(), AdmissionError>(AdmissionError::InsufficientStake) <==> registered(
            old(ws).view(),
            sequencer,
        ) && stake_of(old(ws).view(), sequencer) < cfg.min_stake,
{
    check_admission(ws, cfg, sequencer)
}

/// Runs just before a verified transaction is dispatched: checks that the
/// sender can cover the configured fee. Never writes state, so a pre-dispatch
/// rejection needs no rollback.
pub fn pre_dispatch_tx_hook(cfg: &KernelConfig, ws: &mut StateHandle, tx: &AuthenticatedTx) -> (r:
    Result<(), HookError>)
    requires
        old(ws).wf(),
    ensures
        *final(ws) == *old(ws),
        r is Ok <==> pre_hook_ok(*cfg, old(ws).view(), tx.sender_spec()),
        r is Err ==> r == Err::<(), HookError>(HookError::InsufficientFeeBalance),
{
    let sender = *tx.sender();
    let bal = match ws.read(StateKey::AccountBalance(sender)) {
        Some(v) => v,
        None => 0,
    };
    if bal >= cfg.tx_fee {
        Ok(())
    } else {
        Err(HookError::InsufficientFeeBalance)
    }
}

/// Runs exactly once after a successful dispatch: settles the fee from the
/// sender's balance. Its failure is fatal to the batch, since bookkeeping
/// failing after a module mutated state breaks the atomicity contract.
pub fn post_dispatch_tx_hook(cfg: &KernelConfig, ws: &mut StateHandle, tx: &AuthenticatedTx) -> (r:
    Result<(), HookError>)
    requires
        old(ws).wf(),
    ensures
        final(ws).wf(),
        final(ws).depth() == old(ws).depth(),
        forall|d: int| 0 <= d < old(ws).depth() ==> final(ws).view_at(d) == old(ws).view_at(d),
        r is Ok <==> post_hook_result(*cfg, old(ws).view(), tx.sender_spec()) is Ok,
        r is Ok ==> final(ws).view() == post_hook_result(
            *cfg,
            old(ws).view(),
            tx.sender_spec(),
        ).unwrap(),
        r is Err ==> *final(ws) == *old(ws) && r == Err::<(), HookError>(
            HookError::InsufficientFeeBalance,
        ),
{
    let sender = *tx.sender();
    let bal = match ws.read(StateKey::AccountBalance(sender)) {
        Some(v) => v,
        None => 0,
    };
    if bal >= cfg.tx_fee {
        ws.write(StateKey::AccountBalance(sender), bal - cfg.tx_fee);
        Ok(())
    } else {
        Err(HookError::InsufficientFeeBalance)
    }
}

/// Runs after a batch has reverted. The standing policy forfeits the reward
/// and leaves state untouched; a slashing policy on this path would be a
/// separate, explicit registry operation.
pub fn post_revert_apply_batch(ws: &mut StateHandle) -> (r: Result<(), HookError>)
    requires
        old(ws).wf(),
    ensures
        *final(ws) == *old(ws),
        r is Ok,
{
    Ok(())
}

/// Runs at the end of a successfully processed batch, inside the batch's
/// checkpoint: credits the configured reward to the sequencer's stake so that
/// the credit commits atomically with the batch's other effects.
pub fn exit_apply_batch(cfg: &KernelConfig, ws: &mut StateHandle, sequencer: u64) -> (r: Result<
    (),
    StakeError,
>)
    requires
        old(ws).wf(),
    ensures
        final(ws).wf(),
        final(ws).depth() == old(ws).depth(),
        forall|d: int| 0 <= d < old(ws).depth() ==> final(ws).view_at(d) == old(ws).view_at(d),
        r is Ok <==> exit_result(*cfg, old(ws).view(), sequencer) is Ok,
        r is Ok ==> final(ws).view() == exit_result(*cfg, old(ws).view(), sequencer).unwrap(),
        r is Err ==> *final(ws) == *old(ws) && exit_result(*cfg, old(ws).view(), sequencer)
            == Err::<Map<StateKey, u64>, StakeError>(r.unwrap_err()),
{
    reward(ws, sequencer, cfg.batch_reward)
}

} // verus!
