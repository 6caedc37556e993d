//! The batch controller: the state machine that admits a batch, verifies and
//! dispatches each transaction in order through the hook lifecycle, and
//! atomically commits or fully reverts the batch's effects.
//!
//! The controller's contract is stated against a specification-level
//! interpreter (`tx_step`, `batch_run`) that replays the pipeline over
//! snapshots: given the pre-batch state and the ordered raw transactions, the
//! interpreter determines every per-transaction outcome, the dispatch trace
//! and the final snapshot, so any two executions from the same inputs are
//! byte-identical.

use vstd::prelude::*;
use crate::auth::{tx_message, tx_sender, tx_wf, verify, RlpEvmTransaction, VerifiedTx};
use crate::bank::{dispatch, dispatch_result, DispatchError, Runtime};
use crate::config::KernelConfig;
use crate::hooks::{
    enter_apply_batch, exit_apply_batch, exit_result, post_dispatch_tx_hook, post_hook_result,
    post_revert_apply_batch, pre_dispatch_tx_hook, pre_hook_ok,
};
use crate::registry::{admissible, registered, stake_of, AdmissionError};
use crate::state::{map_get, StateHandle, StateKey};

verus! {

/// Per-transaction outcome reported in the batch receipt.
#[derive(Clone, Copy, PartialEq, Eq, Structural, Debug)]
pub enum TxOutcome {
    /// Verified, dispatched and fee-settled.
    Applied,
    /// Dropped by the verification layer; the batch continued.
    VerificationRejected,
    /// Dropped by the pre-dispatch hook; the batch continued.
    HookRejected,
    /// Dropped by the owning module; the batch continued.
    DispatchRejected,
}

/// How a batch was resolved.
#[derive(Clone, Copy, PartialEq, Eq, Structural, Debug)]
pub enum BatchStatus {
    /// All effects since the batch checkpoint became durable.
    Committed,
    /// All effects since the batch checkpoint were discarded.
    Reverted,
}

/// An ordered batch of raw transactions proposed by one sequencer.
pub struct Batch {
    /// Rollup address of the proposing sequencer.
    pub sequencer: u64,
    /// Data-availability address of the proposing sequencer.
    pub sequencer_da: u64,
    /// The transactions, in the exact order they must be applied.
    pub txs: Vec<RlpEvmTransaction>,
}

/// What the caller learns from a resolved batch.
#[derive(Debug)]
pub struct BatchReceipt {
    /// Whether the batch committed or reverted.
    pub status: BatchStatus,
    /// Per-transaction outcomes, in batch order, up to the point processing
    /// stopped.
    pub outcomes: Vec<TxOutcome>,
    /// The reward credited to the sequencer: the configured amount on commit,
    /// zero on revert.
    pub reward: u64,
}

/// The raw byte strings of a transaction list.
pub open spec fn raws(txs: Seq<RlpEvmTransaction>) -> Seq<Seq<u8>> {
    txs.map_values(|t: RlpEvmTransaction| t.rlp@)
}

/// Specification-level result of processing one transaction.
pub struct TxStep {
    /// The outcome recorded for this transaction (meaningful when not fatal).
    pub outcome: TxOutcome,
    /// The snapshot after this transaction (unchanged when skipped or fatal).
    pub st: Map<StateKey, u64>,
    /// Whether processing this transaction raised an unrecoverable condition.
    pub fatal: bool,
    /// The dispatch call this transaction caused to be observed, if any.
    pub dispatched: Option<(u64, Seq<u8>)>,
}

/// Replays one transaction of the pipeline on snapshot `st`: verification,
/// pre-dispatch hook, dispatch, post-dispatch hook. A verification, pre-hook
/// or module rejection skips the transaction; an abort signal or a post-hook
/// failure is fatal to the batch.
pub open spec fn tx_step(cfg: KernelConfig, rt: Runtime, st: Map<StateKey, u64>, raw: Seq<u8>) -> TxStep {
    if !tx_wf(raw) {
        TxStep { outcome: TxOutcome::VerificationRejected, st, fatal: false, dispatched: None }
    } else {
        let sender = tx_sender(raw);
        let m = tx_message(raw);
        if !pre_hook_ok(cfg, st, sender) {
            TxStep { outcome: TxOutcome::HookRejected, st, fatal: false, dispatched: None }
        } else {
            match dispatch_result(rt, st, sender, m) {
                Err(DispatchError::ModuleFailure) => TxStep {
                    outcome: TxOutcome::DispatchRejected,
                    st,
                    fatal: false,
                    dispatched: Some((sender, m)),
                },
                Err(DispatchError::Abort) => TxStep {
                    outcome: TxOutcome::DispatchRejected,
                    st,
                    fatal: true,
                    dispatched: Some((sender, m)),
                },
                Ok(st1) => match post_hook_result(cfg, st1, sender) {
                    Err(_) => TxStep {
                        outcome: TxOutcome::Applied,
                        st,
                        fatal: true,
                        dispatched: Some((sender, m)),
                    },
                    Ok(st2) => TxStep {
                        outcome: TxOutcome::Applied,
                        st: st2,
                        fatal: false,
                        dispatched: Some((sender, m)),
                    },
                },
            }
        }
    }
}

/// Specification-level result of processing a whole transaction list.
pub struct BatchRun {
    /// Outcomes recorded, in order, up to where processing stopped.
    pub outcomes: Seq<TxOutcome>,
    /// The snapshot after the processed transactions.
    pub st: Map<StateKey, u64>,
    /// Whether an unrecoverable condition was raised.
    pub fatal: bool,
    /// The dispatch calls observed, in order: sender and runtime message.
    pub trace: Seq<(u64, Seq<u8>)>,
}

/// Replays the per-transaction phase of the pipeline over `txs` in order,
/// starting from snapshot `st0`. Processing stops at the first fatal step.
pub open spec fn batch_run(
    cfg: KernelConfig,
    rt: Runtime,
    st0: Map<StateKey, u64>,
    txs: Seq<Seq<u8>>,
) -> BatchRun
    decreases txs.len(),
{
    if txs.len() == 0 {
        BatchRun { outcomes: Seq::empty(), st: st0, fatal: false, trace: Seq::empty() }
    } else {
        let prev = batch_run(cfg, rt, st0, txs.drop_last());
        if prev.fatal {
            prev
        } else {
            let s = tx_step(cfg, rt, prev.st, txs.last());
            let trace = if s.dispatched is Some {
                prev.trace.push(s.dispatched.unwrap())
            } else {
                prev.trace
            };
            if s.fatal {
                BatchRun { outcomes: prev.outcomes, st: prev.st, fatal: true, trace }
            } else {
                BatchRun { outcomes: prev.outcomes.push(s.outcome), st: s.st, fatal: false, trace }
            }
        }
    }
}

/// Once a run turns fatal, processing has stopped: any extension of the
/// transaction list leaves the run exactly as it was.
pub proof fn lemma_fatal_stops_run(
    cfg: KernelConfig,
    rt: Runtime,
    st0: Map<StateKey, u64>,
    txs: Seq<Seq<u8>>,
    i: int,
)
    requires
        0 <= i <= txs.len(),
        batch_run(cfg, rt, st0, txs.take(i)).fatal,
    ensures
        batch_run(cfg, rt, st0, txs) == batch_run(cfg, rt, st0, txs.take(i)),
    decreases txs.len() - i,
{
    if i == txs.len() {
        assert(txs.take(i) =~= txs);
    } else {
        assert(txs.take(i + 1).drop_last() =~= txs.take(i));
        assert(batch_run(cfg, rt, st0, txs.take(i + 1)) == batch_run(cfg, rt, st0, txs.take(i)));
        lemma_fatal_stops_run(cfg, rt, st0, txs, i + 1);
    }
}

/// The per-transaction phase touches only module-owned account balances:
/// every registry-owned key — registration, stake, DA address, preferred
/// status — is exactly as it was before the batch. Stake moves only in the
/// explicit reward step, never mid-batch.
pub proof fn lemma_run_preserves_registry(
    cfg: KernelConfig,
    rt: Runtime,
    st0: Map<StateKey, u64>,
    txs: Seq<Seq<u8>>,
)
    ensures
        forall|k: StateKey|
            !(k is AccountBalance) ==> #[trigger] map_get(batch_run(cfg, rt, st0, txs).st, k)
                == map_get(st0, k),
    decreases txs.len(),
{
    if txs.len() == 0 {
    } else {
        lemma_run_preserves_registry(cfg, rt, st0, txs.drop_last());
        let prev = batch_run(cfg, rt, st0, txs.drop_last());
        if !prev.fatal {
            let s = tx_step(cfg, rt, prev.st, txs.last());
            assert forall|k: StateKey| !(k is AccountBalance) implies #[trigger] map_get(s.st, k)
                == map_get(prev.st, k) by {}
        }
    }
}

/// Applies one batch: admission, the per-transaction loop, and atomic
/// commit-with-reward or full revert.
///
/// The contract pins the whole observable behaviour to the specification
/// interpreter:
/// - admission failure returns the exact error and leaves the handle
///   untouched — no checkpoint is ever created;
/// - a reverted batch leaves the effective state exactly as it was before
///   the batch, key for key;
/// - a committed batch yields the interpreter's snapshot with the configured
///   reward credited to the sequencer's stake atomically with it, and the
///   sequencer's stake grows by exactly the reward and by nothing otherwise;
/// - the receipt's outcome list is the interpreter's, in batch order.
pub fn apply_batch(cfg: &KernelConfig, rt: &Runtime, ws: &mut StateHandle, batch: &Batch) -> (r:
    Result<BatchReceipt, AdmissionError>)
    requires
        old(ws).wf(),
        old(ws).depth() == 0,
    ensures
        final(ws).wf(),
        final(ws).depth() == 0,
        r is Err ==> *final(ws) == *old(ws),
        r == Err::<BatchReceipt, AdmissionError>(AdmissionError::Unregistered) <==> !registered(
            old(ws).view(),
            batch.sequencer,
        ),
        r == Err::<BatchReceipt, AdmissionError>(AdmissionError::InsufficientStake) <==> registered(
            old(ws).view(),
            batch.sequencer,
        ) && stake_of(old(ws).view(), batch.sequencer) < cfg.min_stake,
        r is Ok <==> admissible(*cfg, old(ws).view(), batch.sequencer),
        r is Ok ==> ({
            let run = batch_run(*cfg, *rt, old(ws).view(), raws(batch.txs@));
            let rec = r.unwrap();
            &&& rec.outcomes@ == run.outcomes
            &&& if !run.fatal && exit_result(*cfg, run.st, batch.sequencer) is Ok {
                &&& rec.status == BatchStatus::Committed
                &&& rec.reward == cfg.batch_reward
                &&& final(ws).view() == exit_result(*cfg, run.st, batch.sequencer).unwrap()
                &&& stake_of(final(ws).view(), batch.sequencer) == stake_of(
                    old(ws).view(),
                    batch.sequencer,
                ) + cfg.batch_reward
            } else {
                &&& rec.status == BatchStatus::Reverted
                &&& rec.reward == 0
                &&& final(ws).view() == old(ws).view()
            }
        }),
{
    match enter_apply_batch(cfg, ws, batch.sequencer) {
        Err(e) => {
            return Err(e);
        },
        Ok(()) => {},
    }
    let batch_cp = ws.checkpoint();
    let ghost st0 = ws.view();
    let ghost all = raws(batch.txs@);
    let mut outcomes: Vec<TxOutcome> = Vec::new();
    let mut fatal = false;
    let mut i: usize = 0;
    let n = batch.txs.len();
    proof {
        assert(all.take(0) =~= Seq::<Seq<u8>>::empty());
    }
    while i < n && !fatal
        invariant
            ws.wf(),
            ws.depth() == 1,
            batch_cp == 0,
            i <= n,
            n == batch.txs@.len(),
            all == raws(batch.txs@),
            ws.view_at(0) == st0,
            ({
                let run = batch_run(*cfg, *rt, st0, all.take(i as int));
                &&& run.fatal == fatal
                &&& outcomes@ == run.outcomes
                &&& ws.view() == run.st
            }),
        decreases n - i,
    {
        let ghost run_i = batch_run(*cfg, *rt, st0, all.take(i as int));
        proof {
            assert(all[i as int] == batch.txs@[i as int].rlp@);
            assert(all.take(i as int + 1).drop_last() =~= all.take(i as int));
            assert(all.take(i as int + 1).last() == all[i as int]);
        }
        let tx = &batch.txs[i];
        match verify(tx) {
            Err(_) => {
                outcomes.push(TxOutcome::VerificationRejected);
            },
            Ok(vtx) => {
                match pre_dispatch_tx_hook(cfg, ws, &vtx) {
                    Err(_) => {
                        outcomes.push(TxOutcome::HookRejected);
                    },
                    Ok(()) => {
                        let tx_cp = ws.checkpoint();
                        let sender = *vtx.sender();
                        match dispatch(rt, sender, vtx.runtime_message(), ws) {
                            Err(DispatchError::ModuleFailure) => {
                                ws.revert_to(tx_cp);
                                outcomes.push(TxOutcome::DispatchRejected);
                            },
                            Err(DispatchError::Abort) => {
                                ws.revert_to(tx_cp);
                                fatal = true;
                            },
                            Ok(()) => {
                                match post_dispatch_tx_hook(cfg, ws, &vtx) {
                                    Err(_) => {
                                        ws.revert_to(tx_cp);
                                        fatal = true;
                                    },
                                    Ok(()) => {
                                        ws.commit(tx_cp);
                                        outcomes.push(TxOutcome::Applied);
                                    },
                                }
                            },
                        }
                    },
                }
            },
        }
        i = i + 1;
    }
    if fatal {
        proof {
            lemma_fatal_stops_run(*cfg, *rt, st0, all, i as int);
        }
        ws.revert_to(batch_cp);
        match post_revert_apply_batch(ws) {
            Ok(()) => {},
            Err(_) => {},
        }
        return Ok(BatchReceipt { status: BatchStatus::Reverted, outcomes, reward: 0 });
    }
    proof {
        assert(all.take(i as int) =~= all);
    }
    match exit_apply_batch(cfg, ws, batch.sequencer) {
        Ok(()) => {
            ws.commit(batch_cp);
            proof {
                lemma_run_preserves_registry(*cfg, *rt, st0, all);
            }
            Ok(BatchReceipt { status: BatchStatus::Committed, outcomes, reward: cfg.batch_reward })
        },
        Err(_) => {
            ws.revert_to(batch_cp);
            match post_revert_apply_batch(ws) {
                Ok(()) => {},
                Err(_) => {},
            }
            Ok(BatchReceipt { status: BatchStatus::Reverted, outcomes, reward: 0 })
        },
    }
}

} // verus!
