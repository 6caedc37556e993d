//! Pipeline-wide laws, proved once and for all against the specification
//! interpreter that `apply_batch`'s contract is stated over. Atomicity of a
//! reverted batch, admission gating and reward exclusivity are stated
//! directly in `apply_batch`'s `ensures`; the laws here pin down dispatch
//! order and the skip-not-abort treatment of verification failures.

use vstd::prelude::*;
use crate::auth::{tx_message, tx_sender, tx_wf};
use crate::bank::Runtime;
use crate::config::KernelConfig;
use crate::controller::{batch_run, tx_step, TxOutcome};
use crate::state::StateKey;

verus! {

/// Order preservation, step form: while the run is not fatal, processing the
/// next transaction observes its dispatch — if it reaches dispatch at all —
/// strictly after every dispatch of the earlier transactions, and the earlier
/// trace is untouched. Transactions are never reordered.
pub proof fn lemma_dispatch_order(
    cfg: KernelConfig,
    rt: Runtime,
    st0: Map<StateKey, u64>,
    txs: Seq<Seq<u8>>,
    i: int,
)
    requires
        0 <= i < txs.len(),
        !batch_run(cfg, rt, st0, txs.take(i)).fatal,
    ensures
        ({
            let prev = batch_run(cfg, rt, st0, txs.take(i));
            let s = tx_step(cfg, rt, prev.st, txs[i]);
            batch_run(cfg, rt, st0, txs.take(i + 1)).trace == if s.dispatched is Some {
                prev.trace.push(s.dispatched.unwrap())
            } else {
                prev.trace
            }
        }),
{
    assert(txs.take(i + 1).drop_last() =~= txs.take(i));
    assert(txs.take(i + 1).last() == txs[i]);
}

/// Order preservation, prefix form: the dispatch trace only ever grows at
/// its end — what was observed for the first `i` transactions stands
/// unchanged, in the same order, in the trace of the whole batch.
pub proof fn lemma_trace_prefix(
    cfg: KernelConfig,
    rt: Runtime,
    st0: Map<StateKey, u64>,
    txs: Seq<Seq<u8>>,
    i: int,
)
    requires
        0 <= i <= txs.len(),
    ensures
        batch_run(cfg, rt, st0, txs.take(i)).trace.is_prefix_of(
            batch_run(cfg, rt, st0, txs).trace,
        ),
    decreases txs.len() - i,
{
    if i == txs.len() {
        assert(txs.take(i) =~= txs);
    } else {
        assert(txs.take(i + 1).drop_last() =~= txs.take(i));
        lemma_trace_prefix(cfg, rt, st0, txs, i + 1);
    }
}

/// Verification failure skips, never aborts: a transaction the verification
/// layer rejects contributes exactly one `VerificationRejected` outcome, does
/// not change the snapshot, dispatches nothing, and leaves the batch running.
pub proof fn lemma_verification_skip(
    cfg: KernelConfig,
    rt: Runtime,
    st0: Map<StateKey, u64>,
    txs: Seq<Seq<u8>>,
    i: int,
)
    requires
        0 <= i < txs.len(),
        !batch_run(cfg, rt, st0, txs.take(i)).fatal,
        !tx_wf(txs[i]),
    ensures
        ({
            let prev = batch_run(cfg, rt, st0, txs.take(i));
            let next = batch_run(cfg, rt, st0, txs.take(i + 1));
            &&& !next.fatal
            &&& next.outcomes == prev.outcomes.push(TxOutcome::VerificationRejected)
            &&& next.st == prev.st
            &&& next.trace == prev.trace
        }),
{
    assert(txs.take(i + 1).drop_last() =~= txs.take(i));
    assert(txs.take(i + 1).last() == txs[i]);
}

/// A run without a fatal condition records one outcome per transaction.
pub proof fn lemma_complete_run_length(
    cfg: KernelConfig,
    rt: Runtime,
    st0: Map<StateKey, u64>,
    txs: Seq<Seq<u8>>,
)
    requires
        !batch_run(cfg, rt, st0, txs).fatal,
    ensures
        batch_run(cfg, rt, st0, txs).outcomes.len() == txs.len(),
    decreases txs.len(),
{
    if txs.len() > 0 {
        lemma_complete_run_length(cfg, rt, st0, txs.drop_last());
    }
}

/// Order preservation, outcome form: in a batch without a fatal condition,
/// the outcome at position `i` is exactly the result of processing the `i`-th
/// transaction on the state left behind by the first `i` transactions — each
/// transaction is judged in its supplied position, never another.
pub proof fn lemma_outcomes_positional(
    cfg: KernelConfig,
    rt: Runtime,
    st0: Map<StateKey, u64>,
    txs: Seq<Seq<u8>>,
    i: int,
)
    requires
        0 <= i < txs.len(),
        !batch_run(cfg, rt, st0, txs).fatal,
    ensures
        batch_run(cfg, rt, st0, txs).outcomes[i] == tx_step(
            cfg,
            rt,
            batch_run(cfg, rt, st0, txs.take(i)).st,
            txs[i],
        ).outcome,
    decreases txs.len(),
{
    let prev = batch_run(cfg, rt, st0, txs.drop_last());
    lemma_complete_run_length(cfg, rt, st0, txs.drop_last());
    if i == txs.len() - 1 {
        assert(txs.take(i) =~= txs.drop_last());
    } else {
        lemma_outcomes_positional(cfg, rt, st0, txs.drop_last(), i);
        assert(txs.drop_last().take(i) =~= txs.take(i));
        assert(txs.drop_last()[i] == txs[i]);
    }
}

/// A dispatched transaction is dispatched as itself: the sender and message
/// observed by the module are exactly the ones verification extracted from
/// that raw transaction, not those of any other transaction in the batch.
pub proof fn lemma_dispatch_faithful(
    cfg: KernelConfig,
    rt: Runtime,
    st0: Map<StateKey, u64>,
    txs: Seq<Seq<u8>>,
    i: int,
)
    requires
        0 <= i < txs.len(),
        !batch_run(cfg, rt, st0, txs.take(i)).fatal,
    ensures
        ({
            let prev = batch_run(cfg, rt, st0, txs.take(i));
            let s = tx_step(cfg, rt, prev.st, txs[i]);
            s.dispatched is Some ==> s.dispatched.unwrap() == (
                tx_sender(txs[i]),
                tx_message(txs[i]),
            )
        }),
{
}

} // verus!
