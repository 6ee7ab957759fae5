//! A block-finalization engine: a family of interchangeable consensus
//! algorithms that stamp a candidate block with a proof and re-verify it,
//! together with the chain, factory and engine that orchestrate them.

pub mod block;
pub mod blockchain;
pub mod clock;
pub mod consensus;
pub mod encode;
pub mod entropy;
pub mod hashing;
pub mod kvmap;
pub mod pow;

pub use block::Block;
pub use blockchain::{Blockchain, BlockchainStats};
pub use consensus::{
    Authority, BurnTransaction, ConsensusConfig, ConsensusFactory, ConsensusInstance,
    ConsensusResult, ConsensusType, MessageType, PbftMessage, PbftNode,
    PracticalByzantineFaultTolerance, ProofOfAuthority, ProofOfBurn, ProofOfCapacity,
    ProofOfElapsedTime, ProofOfHistory, ProofOfStake, ProofOfWork, StoragePlot, Validator,
};
pub use kvmap::KvMap;

use vstd::prelude::*;

verus! {

/// A fresh engine under the default work-proof configuration.
pub fn new_blockchain() -> (r: Blockchain)
    ensures
        r.wf(),
        r.blocks@.len() == 1,
        r.blocks@[0].index == 0,
        r.blocks@[0].data@ == "Genesis Block"@,
        r.blocks@[0].previous_hash@ == "0"@,
        r.consensus_stats.total_blocks == 1,
        r.consensus_stats.consensus_failures == 0,
        consensus::fresh_instance_of(
            ConsensusType::ProofOfWork { difficulty: 4usize },
            r.algorithm_spec(),
        ),
{
    Blockchain::new()
}

/// A fresh engine under the given configuration.
pub fn new_blockchain_with_consensus(consensus_type: ConsensusType) -> (r: Result<
    Blockchain,
    String,
>)
    ensures
        r is Ok,
        r->Ok_0.wf(),
        r->Ok_0.blocks@.len() == 1,
        r->Ok_0.blocks@[0].index == 0,
        r->Ok_0.blocks@[0].data@ == "Genesis Block"@,
        r->Ok_0.blocks@[0].previous_hash@ == "0"@,
        r->Ok_0.consensus_stats.total_blocks == 1,
        r->Ok_0.consensus_stats.consensus_failures == 0,
        r->Ok_0.consensus_type == consensus_type,
        consensus::fresh_instance_of(consensus_type, r->Ok_0.algorithm_spec()),
{
    Blockchain::new_with_consensus(consensus_type)
}

/// Every available algorithm with its one-line description, in a fixed
/// order.
pub fn list_consensus_algorithms() -> (r: Vec<(String, String)>)
    ensures
        r@.len() == 8,
        r@[0].0@ == "Proof of Work"@,
        r@[0].1@ == "Computational proof requiring miners to solve cryptographic puzzles"@,
        r@[1].0@ == "Proof of Stake"@,
        r@[1].1@ == "Stake-based selection where validators are chosen based on their holdings"@,
        r@[2].0@ == "Proof of Authority"@,
        r@[2].1@ == "Identity-based consensus with pre-approved validators"@,
        r@[3].0@ == "Proof of History"@,
        r@[3].1@ == "Cryptographic clock creating verifiable passage of time"@,
        r@[4].0@ == "Proof of Elapsed Time"@,
        r@[4].1@ == "Random lottery system using trusted execution environments"@,
        r@[5].0@ == "Proof of Burn"@,
        r@[5].1@ == "Proof of destroyed coins to gain mining rights"@,
        r@[6].0@ == "Proof of Capacity"@,
        r@[6].1@ == "Storage-based proof using pre-computed hash tables"@,
        r@[7].0@ == "Practical Byzantine Fault Tolerance"@,
        r@[7].1@ == "Byzantine fault tolerant consensus for permissioned networks"@,
{
    let mut out: Vec<(String, String)> = Vec::new();
    out.push(
        (
            String::from_str("Proof of Work"),
            String::from_str(
                "Computational proof requiring miners to solve cryptographic puzzles",
            ),
        ),
    );
    out.push(
        (
            String::from_str("Proof of Stake"),
            String::from_str(
                "Stake-based selection where validators are chosen based on their holdings",
            ),
        ),
    );
    out.push(
        (
            String::from_str("Proof of Authority"),
            String::from_str("Identity-based consensus with pre-approved validators"),
        ),
    );
    out.push(
        (
            String::from_str("Proof of History"),
            String::from_str("Cryptographic clock creating verifiable passage of time"),
        ),
    );
    out.push(
        (
            String::from_str("Proof of Elapsed Time"),
            String::from_str("Random lottery system using trusted execution environments"),
        ),
    );
    out.push(
        (
            String::from_str("Proof of Burn"),
            String::from_str("Proof of destroyed coins to gain mining rights"),
        ),
    );
    out.push(
        (
            String::from_str("Proof of Capacity"),
            String::from_str("Storage-based proof using pre-computed hash tables"),
        ),
    );
    out.push(
        (
            String::from_str("Practical Byzantine Fault Tolerance"),
            String::from_str("Byzantine fault tolerant consensus for permissioned networks"),
        ),
    );
    out
}

} // verus!
