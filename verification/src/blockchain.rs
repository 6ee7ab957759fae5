//! The engine: the append-only block list, the active algorithm instance,
//! and the running statistics, with chain-wide validation and cross-
//! algorithm benchmarking.

use vstd::prelude::*;
use crate::block::Block;
use crate::clock::{elapsed_ms, now_timestamp_millis};
use crate::consensus::{
    fresh_instance_of, instance_name, ConsensusFactory, ConsensusInstance, ConsensusResult,
    ConsensusType,
};
use crate::encode::u64_to_dec;
use crate::kvmap::KvMap;

verus! {

#[derive(Clone, Copy, Debug)]
pub struct BlockchainStats {
    pub total_blocks: u64,
    /// Cumulative mining time, in milliseconds.
    pub total_mining_time: u64,
    /// Derived average per block, in milliseconds.
    pub average_block_time_ms: u64,
    /// Cumulative modeled energy, in millionths of a unit.
    pub energy_consumption_micro: u64,
    pub consensus_failures: u64,
}

impl Default for BlockchainStats {
    fn default() -> (r: Self)
        ensures
            r.total_blocks == 0,
            r.total_mining_time == 0,
            r.average_block_time_ms == 0,
            r.energy_consumption_micro == 0,
            r.consensus_failures == 0,
    {
        BlockchainStats {
            total_blocks: 0,
            total_mining_time: 0,
            average_block_time_ms: 0,
            energy_consumption_micro: 0,
            consensus_failures: 0,
        }
    }
}

/// Energy accrued by `count` rounds of `per` millionths each, saturating.
pub open spec fn sat_units(per: u64, count: nat) -> u64
    decreases count,
{
    if count == 0 {
        0
    } else {
        sat_add_u64(sat_units(per, (count - 1) as nat), per)
    }
}

/// Saturating 64-bit addition, as the running statistics accumulate.
pub open spec fn sat_add_u64(a: u64, b: u64) -> u64 {
    if a + b > u64::MAX {
        u64::MAX
    } else {
        (a + b) as u64
    }
}

pub struct Blockchain {
    pub blocks: Vec<Block>,
    pub consensus_type: ConsensusType,
    pub consensus_stats: BlockchainStats,
    pub difficulty: usize,
    pub consensus_algorithm: Option<ConsensusInstance>,
}

/// Smallest declared difficulty among the first `i` blocks.
pub open spec fn min_difficulty(blocks: Seq<Block>, i: int) -> int
    decreases i,
{
    if i <= 0 {
        usize::MAX as int
    } else if blocks[i - 1].difficulty < min_difficulty(blocks, i - 1) {
        blocks[i - 1].difficulty as int
    } else {
        min_difficulty(blocks, i - 1)
    }
}

/// Largest declared difficulty among the first `i` blocks.
pub open spec fn max_difficulty(blocks: Seq<Block>, i: int) -> int
    decreases i,
{
    if i <= 0 {
        0
    } else if blocks[i - 1].difficulty > max_difficulty(blocks, i - 1) {
        blocks[i - 1].difficulty as int
    } else {
        max_difficulty(blocks, i - 1)
    }
}

/// The chain-link invariant: every block names its position, and each block
/// past the first carries the previous block's stored digest.
pub open spec fn chain_linked(blocks: Seq<Block>) -> bool {
    &&& forall|i: int| 0 <= i < blocks.len() ==> (#[trigger] blocks[i]).index == i
    &&& forall|i: int|
        1 <= i < blocks.len() ==> (#[trigger] blocks[i]).previous_hash@ == blocks[i - 1].hash@
}

impl Blockchain {
    pub open spec fn wf(self) -> bool {
        &&& self.blocks@.len() >= 1
        &&& chain_linked(self.blocks@)
        &&& forall|i: int| 0 <= i < self.blocks@.len() ==> (#[trigger] self.blocks@[i]).wf()
        &&& self.consensus_algorithm is Some
        &&& self.consensus_algorithm->Some_0.wf()
    }

    /// The active algorithm instance.
    pub open spec fn algorithm_spec(self) -> ConsensusInstance {
        self.consensus_algorithm->Some_0
    }

    /// Whether the whole chain passes: links intact and every block past
    /// the genesis valid under the *current* algorithm — blocks created
    /// under a replaced algorithm will generally fail after a switch.
    pub open spec fn chain_valid(self) -> bool {
        &&& self.consensus_algorithm is Some
        &&& forall|i: int|
            1 <= i < self.blocks@.len() ==> (#[trigger] self.blocks@[i]).previous_hash@
                == self.blocks@[i - 1].hash@ && self.algorithm_spec().validates(self.blocks@[i])
    }

    /// Builds the engine: a genesis block is stamped by a disposable
    /// instance of the same kind, and its proof failure is tolerated.
    fn build_with_consensus(consensus_type: ConsensusType) -> (r: Blockchain)
        ensures
            r.wf(),
            r.blocks@.len() == 1,
            r.blocks@[0].index == 0,
            r.blocks@[0].data@ == "Genesis Block"@,
            r.blocks@[0].previous_hash@ == "0"@,
            r.consensus_stats.total_blocks == 1,
            r.consensus_stats.consensus_failures == 0,
            r.consensus_stats.total_mining_time == 0,
            r.consensus_stats.average_block_time_ms == 0,
            r.consensus_stats.energy_consumption_micro == 0,
            r.difficulty == 1,
            r.consensus_type == consensus_type,
            fresh_instance_of(consensus_type, r.algorithm_spec()),
    {
        let consensus_algorithm = match ConsensusFactory::create_consensus(&consensus_type) {
            Ok(instance) => instance,
            Err(_) => {
                proof {
                    assert(false);
                }
                ConsensusInstance::Work(crate::consensus::ProofOfWork::new(1))
            },
        };
        let mut genesis_block = Block::new(
            0,
            String::from_str("Genesis Block"),
            String::from_str("0"),
        );
        let mut genesis_consensus = match ConsensusFactory::create_consensus(&consensus_type) {
            Ok(instance) => instance,
            Err(_) => {
                proof {
                    assert(false);
                }
                ConsensusInstance::Work(crate::consensus::ProofOfWork::new(1))
            },
        };
        match genesis_consensus.execute_consensus(&mut genesis_block) {
            Ok(result) => {
                genesis_block.set_consensus_data(result.proof_data);
            },
            Err(_) => {
                // the genesis proof may fail; the chain is still created
            },
        }
        let mut blocks: Vec<Block> = Vec::new();
        blocks.push(genesis_block);
        let mut stats = BlockchainStats::default();
        stats.total_blocks = 1;
        Blockchain {
            blocks,
            consensus_type,
            consensus_stats: stats,
            difficulty: 1,
            consensus_algorithm: Some(consensus_algorithm),
        }
    }

    /// A new engine for the given kind; the result is always delivered,
    /// genesis-proof failure included.
    pub fn new_with_consensus(consensus_type: ConsensusType) -> (r: Result<Blockchain, String>)
        ensures
            r is Ok,
            r->Ok_0.wf(),
            r->Ok_0.blocks@.len() == 1,
            r->Ok_0.blocks@[0].index == 0,
            r->Ok_0.blocks@[0].data@ == "Genesis Block"@,
            r->Ok_0.blocks@[0].previous_hash@ == "0"@,
            r->Ok_0.consensus_stats.total_blocks == 1,
            r->Ok_0.consensus_stats.consensus_failures == 0,
            r->Ok_0.consensus_stats.total_mining_time == 0,
            r->Ok_0.consensus_stats.average_block_time_ms == 0,
            r->Ok_0.consensus_stats.energy_consumption_micro == 0,
            r->Ok_0.difficulty == 1,
            r->Ok_0.consensus_type == consensus_type,
            fresh_instance_of(consensus_type, r->Ok_0.algorithm_spec()),
    {
        Ok(Blockchain::build_with_consensus(consensus_type))
    }

    /// The default engine: work proofs at difficulty four.
    pub fn new() -> (r: Blockchain)
        ensures
            r.wf(),
            r.blocks@.len() == 1,
            r.blocks@[0].index == 0,
            r.blocks@[0].data@ == "Genesis Block"@,
            r.blocks@[0].previous_hash@ == "0"@,
            r.consensus_stats.total_blocks == 1,
            r.consensus_stats.consensus_failures == 0,
            r.consensus_stats.total_mining_time == 0,
            r.consensus_stats.average_block_time_ms == 0,
            r.consensus_stats.energy_consumption_micro == 0,
            r.difficulty == 1,
            fresh_instance_of(
                ConsensusType::ProofOfWork { difficulty: 4usize },
                r.algorithm_spec(),
            ),
    {
        Blockchain::build_with_consensus(ConsensusType::default())
    }

    /// Replaces the active algorithm; the chain and statistics stay, and
    /// historical blocks are not re-tagged.
    pub fn switch_consensus(&mut self, new_consensus_type: ConsensusType) -> (r: Result<
        (),
        String,
    >)
        requires
            old(self).wf(),
        ensures
            final(self).wf(),
            r is Ok,
            final(self).blocks == old(self).blocks,
            final(self).consensus_stats == old(self).consensus_stats,
            final(self).difficulty == old(self).difficulty,
            final(self).consensus_type == new_consensus_type,
            fresh_instance_of(new_consensus_type, final(self).algorithm_spec()),
    {
        let new_algorithm = match ConsensusFactory::create_consensus(&new_consensus_type) {
            Ok(instance) => instance,
            Err(e) => {
                return Err(e);
            },
        };
        self.consensus_type = new_consensus_type;
        self.consensus_algorithm = Some(new_algorithm);
        Ok(())
    }

    /// Builds the next block on the chain tail and hands it to the active
    /// algorithm; appended only on success, counted as a failure otherwise.
    pub fn add_block(&mut self, data: String) -> (r: Result<ConsensusResult, String>)
        requires
            old(self).wf(),
        ensures
            final(self).wf(),
            final(self).consensus_type == old(self).consensus_type,
            final(self).difficulty == old(self).difficulty,
            match r {
                Ok(res) => {
                    &&& final(self).blocks@.len() == old(self).blocks@.len() + 1
                    &&& forall|i: int|
                        0 <= i < old(self).blocks@.len() ==> final(self).blocks@[i] == old(
                            self,
                        ).blocks@[i]
                    &&& final(self).blocks@.last().data == data
                    &&& final(self).blocks@.last().previous_hash@ == old(
                        self,
                    ).blocks@.last().hash@
                    &&& final(self).blocks@.last().index == old(self).blocks@.len()
                    &&& res.block.index == final(self).blocks@.last().index
                    &&& res.block.data == final(self).blocks@.last().data
                    &&& res.block.previous_hash == final(self).blocks@.last().previous_hash
                    &&& res.block.hash == final(self).blocks@.last().hash
                    &&& res.block.nonce == final(self).blocks@.last().nonce
                    &&& final(self).blocks@.last().consensus_data@ == res.proof_data@
                    &&& final(self).consensus_stats.total_blocks == sat_add_u64(
                        old(self).consensus_stats.total_blocks,
                        1,
                    )
                    &&& (exists|d: u64|
                        final(self).consensus_stats.total_mining_time == sat_add_u64(
                            old(self).consensus_stats.total_mining_time,
                            d,
                        ))
                    &&& final(self).consensus_stats.average_block_time_ms == final(self).consensus_stats.total_mining_time / final(self).consensus_stats.total_blocks
                    &&& final(self).consensus_stats.energy_consumption_micro == (
                    match res.energy_cost_micro {
                        Some(energy) => sat_add_u64(
                            old(self).consensus_stats.energy_consumption_micro,
                            energy,
                        ),
                        None => old(self).consensus_stats.energy_consumption_micro,
                    })
                    &&& final(self).consensus_stats.consensus_failures == old(
                        self,
                    ).consensus_stats.consensus_failures
                },
                Err(_) => {
                    &&& final(self).blocks == old(self).blocks
                    &&& final(self).consensus_stats.consensus_failures == sat_add_u64(
                        old(self).consensus_stats.consensus_failures,
                        1,
                    )
                    &&& final(self).consensus_stats.total_blocks == old(
                        self,
                    ).consensus_stats.total_blocks
                    &&& final(self).consensus_stats.total_mining_time == old(
                        self,
                    ).consensus_stats.total_mining_time
                    &&& final(self).consensus_stats.average_block_time_ms == old(
                        self,
                    ).consensus_stats.average_block_time_ms
                    &&& final(self).consensus_stats.energy_consumption_micro == old(
                        self,
                    ).consensus_stats.energy_consumption_micro
                },
            },
    {
        let previous_hash = self.blocks[self.blocks.len() - 1].hash.clone();
        let index = self.blocks.len() as u64;
        let mut new_block = Block::new(index, data, previous_hash);
        let started = now_timestamp_millis();
        let algorithm = match &mut self.consensus_algorithm {
            Some(instance) => instance,
            None => {
                proof {
                    assert(false);
                }
                return Err(String::from_str("No consensus algorithm configured"));
            },
        };
        match algorithm.execute_consensus(&mut new_block) {
            Ok(result) => {
                let duration = elapsed_ms(started, now_timestamp_millis());
                self.update_stats(&result, duration);
                new_block.set_consensus_data(result.proof_data.clone());
                self.blocks.push(new_block);
                proof {
                    assert(self.blocks@.last().index == old(self).blocks@.len());
                    assert(self.consensus_stats.total_mining_time == sat_add_u64(
                        old(self).consensus_stats.total_mining_time,
                        duration,
                    ));
                }
                Ok(result)
            },
            Err(e) => {
                self.consensus_stats.consensus_failures = match self
                    .consensus_stats
                    .consensus_failures
                    .checked_add(1) {
                    Some(v) => v,
                    None => u64::MAX,
                };
                let mut message = String::from_str("Consensus failed: ");
                message.append(e.as_str());
                Err(message)
            },
        }
    }

    /// Folds one successful round into the running statistics, saturating
    /// at the type bounds.
    fn update_stats(&mut self, result: &ConsensusResult, duration_ms: u64)
        ensures
            final(self).blocks == old(self).blocks,
            final(self).consensus_type == old(self).consensus_type,
            final(self).difficulty == old(self).difficulty,
            final(self).consensus_algorithm == old(self).consensus_algorithm,
            final(self).consensus_stats.total_blocks == sat_add_u64(
                old(self).consensus_stats.total_blocks,
                1,
            ),
            final(self).consensus_stats.total_mining_time == sat_add_u64(
                old(self).consensus_stats.total_mining_time,
                duration_ms,
            ),
            final(self).consensus_stats.average_block_time_ms == final(self).consensus_stats.total_mining_time / final(self).consensus_stats.total_blocks,
            final(self).consensus_stats.energy_consumption_micro == (
            match result.energy_cost_micro {
                Some(energy) => sat_add_u64(
                    old(self).consensus_stats.energy_consumption_micro,
                    energy,
                ),
                None => old(self).consensus_stats.energy_consumption_micro,
            }),
            final(self).consensus_stats.consensus_failures == old(
                self,
            ).consensus_stats.consensus_failures,
    {
        self.consensus_stats.total_blocks = match self.consensus_stats.total_blocks.checked_add(
            1,
        ) {
            Some(v) => v,
            None => u64::MAX,
        };
        self.consensus_stats.total_mining_time = match self
            .consensus_stats
            .total_mining_time
            .checked_add(duration_ms) {
            Some(v) => v,
            None => u64::MAX,
        };
        if self.consensus_stats.total_blocks > 0 {
            self.consensus_stats.average_block_time_ms = self.consensus_stats.total_mining_time
                / self.consensus_stats.total_blocks;
        }
        match result.energy_cost_micro {
            Some(energy) => {
                self.consensus_stats.energy_consumption_micro = match self
                    .consensus_stats
                    .energy_consumption_micro
                    .checked_add(energy) {
                    Some(v) => v,
                    None => u64::MAX,
                };
            },
            None => {},
        }
    }

    /// Walks the whole chain: link integrity, and every block past the
    /// genesis re-validated under the *current* algorithm.
    pub fn is_valid(&self) -> (r: bool)
        requires
            self.wf(),
        ensures
            r == self.chain_valid(),
    {
        let algorithm = match &self.consensus_algorithm {
            Some(instance) => instance,
            None => {
                proof {
                    assert(false);
                }
                return false;
            },
        };
        let n = self.blocks.len();
        let mut i: usize = 1;
        while i < n
            invariant
                self.wf(),
                n == self.blocks@.len(),
                1 <= i <= n,
                algorithm == self.consensus_algorithm->Some_0,
                forall|j: int|
                    1 <= j < i ==> (#[trigger] self.blocks@[j]).previous_hash@ == self.blocks@[j
                        - 1].hash@ && self.algorithm_spec().validates(self.blocks@[j]),
            decreases n - i,
        {
            let current = &self.blocks[i];
            let previous = &self.blocks[i - 1];
            if !crate::encode::str_eq(current.previous_hash.as_str(), previous.hash.as_str()) {
                return false;
            }
            if !algorithm.validate_block(current) {
                return false;
            }
            i = i + 1;
        }
        true
    }

    /// The current algorithm's statistics with the engine's own counters
    /// folded in.
    pub fn get_consensus_info(&self) -> (r: Result<KvMap, String>)
        requires
            self.wf(),
        ensures
            r is Ok,
            r->Ok_0.wf(),
            r->Ok_0@.contains_key("algorithm_name"@),
            r->Ok_0@["algorithm_name"@] == instance_name(self.algorithm_spec()),
    {
        let algorithm = match &self.consensus_algorithm {
            Some(instance) => instance,
            None => {
                proof {
                    assert(false);
                }
                return Err(String::from_str("No consensus algorithm configured"));
            },
        };
        let mut info = algorithm.get_statistics();
        info.insert(
            String::from_str("total_blocks"),
            u64_to_dec(self.consensus_stats.total_blocks),
        );
        info.insert(
            String::from_str("average_block_time_ms"),
            u64_to_dec(self.consensus_stats.average_block_time_ms),
        );
        info.insert(
            String::from_str("total_energy_consumption"),
            u64_to_dec(self.consensus_stats.energy_consumption_micro),
        );
        info.insert(
            String::from_str("consensus_failures"),
            u64_to_dec(self.consensus_stats.consensus_failures),
        );
        match algorithm.get_energy_efficiency() {
            Some(efficiency) => {
                info.insert(String::from_str("energy_efficiency"), u64_to_dec(efficiency));
            },
            None => {},
        }
        let name = algorithm.get_algorithm_name();
        info.insert(String::from_str("algorithm_name"), String::from_str(name));
        Ok(info)
    }

    /// The difficulty the active algorithm would pick next, when it adapts
    /// difficulty at all.
    pub fn calculate_adaptive_difficulty(&self) -> (r: Option<usize>)
        requires
            self.wf(),
        ensures
            r == (match self.algorithm_spec() {
                ConsensusInstance::Work(w) => Some(w.next_difficulty_spec(self.blocks@)),
                _ => None::<usize>,
            }),
    {
        let algorithm = match &self.consensus_algorithm {
            Some(instance) => instance,
            None => {
                proof {
                    assert(false);
                }
                return None;
            },
        };
        algorithm.calculate_next_difficulty(&self.blocks)
    }

    /// Smallest and largest declared difficulty on the chain, and the
    /// average in thousandths.
    pub fn get_difficulty_stats(&self) -> (r: (usize, usize, u64))
        requires
            self.wf(),
        ensures
            r.0 == min_difficulty(self.blocks@, self.blocks@.len() as int),
            r.1 == max_difficulty(self.blocks@, self.blocks@.len() as int),
    {
        let n = self.blocks.len();
        let mut min_diff: usize = usize::MAX;
        let mut max_diff: usize = 0;
        let mut total: u64 = 0;
        let mut i: usize = 0;
        while i < n
            invariant
                self.wf(),
                n == self.blocks@.len(),
                i <= n,
                min_diff == min_difficulty(self.blocks@, i as int),
                max_diff == max_difficulty(self.blocks@, i as int),
            decreases n - i,
        {
            let d = self.blocks[i].difficulty;
            if d < min_diff {
                min_diff = d;
            }
            if d > max_diff {
                max_diff = d;
            }
            let wide: u64 = d as u64;
            total = match total.checked_add(wide) {
                Some(v) => v,
                None => u64::MAX,
            };
            i = i + 1;
        }
        let avg_milli: u64 = if n > 0 {
            let scaled = (total as u128) * 1000 / (n as u128);
            if scaled > (u64::MAX as u128) {
                u64::MAX
            } else {
                scaled as u64
            }
        } else {
            0
        };
        (min_diff, max_diff, avg_milli)
    }

    pub fn get_blockchain_stats(&self) -> (r: &BlockchainStats)
        ensures
            r == &self.consensus_stats,
    {
        &self.consensus_stats
    }

    /// Like `get_consensus_info`, empty on failure.
    pub fn get_consensus_statistics(&self) -> (r: KvMap)
        requires
            self.wf(),
        ensures
            r.wf(),
    {
        match self.get_consensus_info() {
            Ok(info) => info,
            Err(_) => KvMap::new(),
        }
    }

    /// Runs a fixed battery of algorithm kinds over the given payloads with
    /// disposable instances, without touching engine state; yields name,
    /// total duration in milliseconds, and total modeled energy in
    /// millionths.
    pub fn benchmark_consensus_algorithms(&self, test_data: Vec<String>) -> (r: Result<
        Vec<(String, u64, u64)>,
        String,
    >)
        ensures
            r is Ok,
            r->Ok_0@.len() == 4,
            r->Ok_0@[0].0@ == "Proof of Work"@,
            r->Ok_0@[1].0@ == "Proof of Stake"@,
            r->Ok_0@[2].0@ == "Proof of Authority"@,
            r->Ok_0@[3].0@ == "Proof of History"@,
            r->Ok_0@[1].1 == 0,
            r->Ok_0@[1].2 == 0,
            r->Ok_0@[2].2 == sat_units(100, test_data@.len()),
            r->Ok_0@[3].2 == sat_units(10000, test_data@.len()),
    {
        let mut kinds: Vec<ConsensusType> = Vec::new();
        kinds.push(ConsensusType::ProofOfWork { difficulty: 2 });
        kinds.push(ConsensusType::ProofOfStake { minimum_stake: 1000 });
        let mut validators: Vec<String> = Vec::new();
        validators.push(String::from_str("validator1"));
        validators.push(String::from_str("validator2"));
        kinds.push(ConsensusType::ProofOfAuthority { validators });
        kinds.push(ConsensusType::ProofOfHistory { vdf_iterations: 1000 });
        let mut results: Vec<(String, u64, u64)> = Vec::new();
        let kind_count = kinds.len();
        let mut k: usize = 0;
        while k < kind_count
            invariant
                kind_count == kinds@.len(),
                kind_count == 4,
                k <= kind_count,
                results@.len() == k,
                kinds@[0] matches ConsensusType::ProofOfWork { .. },
                kinds@[1] matches ConsensusType::ProofOfStake { .. },
                kinds@[2] matches ConsensusType::ProofOfAuthority { .. },
                kinds@[3] matches ConsensusType::ProofOfHistory { .. },
                kinds@[2] matches ConsensusType::ProofOfAuthority { validators } && validators@.len()
                    == 2,
                k >= 1 ==> results@[0].0@ == "Proof of Work"@,
                k >= 2 ==> results@[1].0@ == "Proof of Stake"@ && results@[1].1 == 0
                    && results@[1].2 == 0,
                k >= 3 ==> results@[2].0@ == "Proof of Authority"@ && results@[2].2 == sat_units(
                    100,
                    test_data@.len(),
                ),
                k >= 4 ==> results@[3].0@ == "Proof of History"@ && results@[3].2 == sat_units(
                    10000,
                    test_data@.len(),
                ),
            decreases kind_count - k,
        {
            let mut test_algorithm = match ConsensusFactory::create_consensus(&kinds[k]) {
                Ok(instance) => instance,
                Err(e) => {
                    return Err(e);
                },
            };
            let name = String::from_str(test_algorithm.get_algorithm_name());
            let mut total_time: u64 = 0;
            let mut total_energy: u64 = 0;
            let payload_count = test_data.len();
            let mut p: usize = 0;
            while p < payload_count
                invariant
                    payload_count == test_data@.len(),
                    p <= payload_count,
                    test_algorithm.wf(),
                    k == 1 ==> (test_algorithm matches ConsensusInstance::Stake(s)
                        && s.validators@.len() == 0) && total_time == 0 && total_energy == 0,
                    k == 2 ==> (test_algorithm matches ConsensusInstance::Authority(a) && {
                        &&& a.authorities@.len() > 0
                        &&& a.current_authority_index < a.authorities@.len()
                        &&& forall|i: int|
                            0 <= i < a.authorities@.len() ==> (
                            #[trigger] a.authorities@[i]).is_active
                    }) && total_energy == sat_units(100, p as nat),
                    k == 3 ==> (test_algorithm matches ConsensusInstance::History(_))
                        && total_energy == sat_units(10000, p as nat),
                decreases payload_count - p,
            {
                let mut test_block = Block::new(
                    p as u64,
                    test_data[p].clone(),
                    String::from_str("test_hash"),
                );
                let started = now_timestamp_millis();
                match test_algorithm.execute_consensus(&mut test_block) {
                    Ok(result) => {
                        let duration = elapsed_ms(started, now_timestamp_millis());
                        total_time = match total_time.checked_add(duration) {
                            Some(v) => v,
                            None => u64::MAX,
                        };
                        match result.energy_cost_micro {
                            Some(energy) => {
                                total_energy = match total_energy.checked_add(energy) {
                                    Some(v) => v,
                                    None => u64::MAX,
                                };
                            },
                            None => {},
                        }
                    },
                    Err(_) => {
                        // a failing round is skipped, as the benchmark compares what succeeds
                    },
                }
                p = p + 1;
            }
            results.push((name, total_time, total_energy));
            k = k + 1;
        }
        Ok(results)
    }
}

/// Every block past the genesis names the digest of the block before it —
/// the chain-link invariant, directly from well-formedness.
pub proof fn lemma_chain_links(bc: Blockchain)
    requires
        bc.wf(),
    ensures
        forall|i: int|
            1 <= i < bc.blocks@.len() ==> (#[trigger] bc.blocks@[i]).previous_hash@ == bc.blocks@[i
                - 1].hash@,
{
}

/// After a switch to a stake instance with no validators, a chain with any
/// non-genesis block can no longer pass validation: the empty validator
/// list rejects every block.
pub proof fn lemma_switch_invalidates(bc: Blockchain)
    requires
        bc.wf(),
        bc.blocks@.len() >= 2,
        bc.algorithm_spec() matches ConsensusInstance::Stake(s) && s.validators@.len() == 0,
    ensures
        !bc.chain_valid(),
{
    let b = bc.blocks@[1];
    match bc.algorithm_spec() {
        ConsensusInstance::Stake(s) => {
            assert(crate::consensus::pos::first_with_stake(s.validators@, b.nonce, 0) == -1);
            assert(!bc.algorithm_spec().validates(b));
        },
        _ => {},
    }
}

} // verus!
