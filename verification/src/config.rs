//! Economic parameters of the kernel. They are handed to the batch controller
//! at construction so the kernel stays reusable under varied policies; none of
//! them is a compiled-in constant of the pipeline.

use vstd::prelude::*;

verus! {

/// Configuration of the batch pipeline's admission and incentive policy.
#[derive(Clone, Copy, PartialEq, Eq, Structural, Debug)]
pub struct KernelConfig {
    /// Minimum locked stake a sequencer must hold to be admitted.
    pub min_stake: u64,
    /// Stake credited to the sequencer when its batch commits.
    pub batch_reward: u64,
    /// Fee settled from the sender's balance after each applied transaction.
    pub tx_fee: u64,
}

} // verus!
