//! The shared result and configuration records of the algorithm contract.

use vstd::prelude::*;
use crate::block::Block;
use crate::kvmap::KvMap;

verus! {

/// Immutable snapshot of a finalized block: the block, the proof metadata,
/// the wall-clock duration in milliseconds, and the modeled energy cost in
/// millionths of a unit.
pub struct ConsensusResult {
    pub block: Block,
    pub proof_data: KvMap,
    pub execution_time_ms: u64,
    pub energy_cost_micro: Option<u64>,
}

/// Additional textual parameters handed to an algorithm's `configure`.
pub struct ConsensusConfig {
    pub additional_params: KvMap,
}

impl Default for ConsensusConfig {
    fn default() -> (r: Self)
        ensures
            r.additional_params@ == Map::<Seq<char>, Seq<char>>::empty(),
            r.additional_params.wf(),
    {
        ConsensusConfig { additional_params: KvMap::new() }
    }
}

} // verus!
