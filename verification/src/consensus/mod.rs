//! The consensus algorithms, the configuration that selects one, the
//! factory that builds an instance, and the closed dispatch over the eight
//! implementations.

pub mod pbft;
pub mod poa;
pub mod pob;
pub mod poc;
pub mod poet;
pub mod poh;
pub mod pos;
pub mod pow;
pub mod traits;

pub use pbft::{MessageType, PbftMessage, PbftNode, PracticalByzantineFaultTolerance};
pub use poa::{Authority, ProofOfAuthority};
pub use pob::{BurnTransaction, ProofOfBurn};
pub use poc::{ProofOfCapacity, StoragePlot};
pub use poet::ProofOfElapsedTime;
pub use poh::ProofOfHistory;
pub use pos::{ProofOfStake, Validator};
pub use pow::ProofOfWork;
pub use traits::{ConsensusConfig, ConsensusResult};

use vstd::prelude::*;
use crate::block::Block;
use crate::encode::{u64_to_dec, usize_to_dec};
use crate::kvmap::KvMap;

verus! {

/// Immutable description of a chosen algorithm and its tunable parameters.
pub enum ConsensusType {
    ProofOfWork { difficulty: usize },
    ProofOfStake { minimum_stake: u64 },
    ProofOfHistory { vdf_iterations: u64 },
    ProofOfAuthority { validators: Vec<String> },
    ProofOfElapsedTime { wait_time_config: u64 },
    ProofOfBurn { burn_amount: u64 },
    ProofOfCapacity { storage_requirement: u64 },
    PracticalByzantineFaultTolerance { node_count: usize, fault_tolerance_millis: u64 },
}

/// The name each kind goes by.
pub open spec fn kind_name(t: ConsensusType) -> Seq<char> {
    match t {
        ConsensusType::ProofOfWork { .. } => "Proof of Work"@,
        ConsensusType::ProofOfStake { .. } => "Proof of Stake"@,
        ConsensusType::ProofOfHistory { .. } => "Proof of History"@,
        ConsensusType::ProofOfAuthority { .. } => "Proof of Authority"@,
        ConsensusType::ProofOfElapsedTime { .. } => "Proof of Elapsed Time"@,
        ConsensusType::ProofOfBurn { .. } => "Proof of Burn"@,
        ConsensusType::ProofOfCapacity { .. } => "Proof of Capacity"@,
        ConsensusType::PracticalByzantineFaultTolerance { .. } => "Practical Byzantine Fault Tolerance"@,
    }
}

/// Two configurations that name the same algorithm with the same
/// parameters.
pub open spec fn same_kind(a: ConsensusType, b: ConsensusType) -> bool {
    match (a, b) {
        (
            ConsensusType::ProofOfWork { difficulty: x },
            ConsensusType::ProofOfWork { difficulty: y },
        ) => x == y,
        (
            ConsensusType::ProofOfStake { minimum_stake: x },
            ConsensusType::ProofOfStake { minimum_stake: y },
        ) => x == y,
        (
            ConsensusType::ProofOfHistory { vdf_iterations: x },
            ConsensusType::ProofOfHistory { vdf_iterations: y },
        ) => x == y,
        (
            ConsensusType::ProofOfAuthority { validators: x },
            ConsensusType::ProofOfAuthority { validators: y },
        ) => x@.len() == y@.len() && (forall|i: int| 0 <= i < x@.len() ==> #[trigger] x@[i]@
            == y@[i]@),
        (
            ConsensusType::ProofOfElapsedTime { wait_time_config: x },
            ConsensusType::ProofOfElapsedTime { wait_time_config: y },
        ) => x == y,
        (
            ConsensusType::ProofOfBurn { burn_amount: x },
            ConsensusType::ProofOfBurn { burn_amount: y },
        ) => x == y,
        (
            ConsensusType::ProofOfCapacity { storage_requirement: x },
            ConsensusType::ProofOfCapacity { storage_requirement: y },
        ) => x == y,
        (
            ConsensusType::PracticalByzantineFaultTolerance {
                node_count: x,
                fault_tolerance_millis: fx,
            },
            ConsensusType::PracticalByzantineFaultTolerance {
                node_count: y,
                fault_tolerance_millis: fy,
            },
        ) => x == y && fx == fy,
        _ => false,
    }
}

impl Clone for ConsensusType {
    fn clone(&self) -> (r: Self)
        ensures
            same_kind(r, *self),
    {
        match self {
            ConsensusType::ProofOfWork { difficulty } => ConsensusType::ProofOfWork {
                difficulty: *difficulty,
            },
            ConsensusType::ProofOfStake { minimum_stake } => ConsensusType::ProofOfStake {
                minimum_stake: *minimum_stake,
            },
            ConsensusType::ProofOfHistory { vdf_iterations } => ConsensusType::ProofOfHistory {
                vdf_iterations: *vdf_iterations,
            },
            ConsensusType::ProofOfAuthority { validators } => {
                let n = validators.len();
                let mut copied: Vec<String> = Vec::new();
                let mut i: usize = 0;
                while i < n
                    invariant
                        n == validators@.len(),
                        i <= n,
                        copied@.len() == i,
                        forall|j: int| 0 <= j < i ==> #[trigger] copied@[j] == validators@[j],
                    decreases n - i,
                {
                    copied.push(validators[i].clone());
                    i = i + 1;
                }
                ConsensusType::ProofOfAuthority { validators: copied }
            },
            ConsensusType::ProofOfElapsedTime { wait_time_config } => {
                ConsensusType::ProofOfElapsedTime { wait_time_config: *wait_time_config }
            },
            ConsensusType::ProofOfBurn { burn_amount } => ConsensusType::ProofOfBurn {
                burn_amount: *burn_amount,
            },
            ConsensusType::ProofOfCapacity { storage_requirement } => {
                ConsensusType::ProofOfCapacity { storage_requirement: *storage_requirement }
            },
            ConsensusType::PracticalByzantineFaultTolerance {
                node_count,
                fault_tolerance_millis,
            } => {
                ConsensusType::PracticalByzantineFaultTolerance {
                    node_count: *node_count,
                    fault_tolerance_millis: *fault_tolerance_millis,
                }
            },
        }
    }
}

impl Default for ConsensusType {
    /// Work at difficulty four.
    fn default() -> (r: Self)
        ensures
            r == (ConsensusType::ProofOfWork { difficulty: 4usize }),
    {
        ConsensusType::ProofOfWork { difficulty: 4 }
    }
}

/// The description each kind goes by.
pub open spec fn kind_description(t: ConsensusType) -> Seq<char> {
    match t {
        ConsensusType::ProofOfWork { .. } => "Computational proof requiring miners to solve cryptographic puzzles"@,
        ConsensusType::ProofOfStake { .. } => "Stake-based selection where validators are chosen based on their holdings"@,
        ConsensusType::ProofOfHistory { .. } => "Cryptographic clock creating verifiable passage of time"@,
        ConsensusType::ProofOfAuthority { .. } => "Identity-based consensus with pre-approved validators"@,
        ConsensusType::ProofOfElapsedTime { .. } => "Random lottery system using trusted execution environments"@,
        ConsensusType::ProofOfBurn { .. } => "Proof of destroyed coins to gain mining rights"@,
        ConsensusType::ProofOfCapacity { .. } => "Storage-based proof using pre-computed hash tables"@,
        ConsensusType::PracticalByzantineFaultTolerance { .. } => "Byzantine fault tolerant consensus for permissioned networks"@,
    }
}

impl ConsensusType {
    pub fn name(&self) -> (r: &'static str)
        ensures
            r@ == kind_name(*self),
    {
        match self {
            ConsensusType::ProofOfWork { .. } => "Proof of Work",
            ConsensusType::ProofOfStake { .. } => "Proof of Stake",
            ConsensusType::ProofOfHistory { .. } => "Proof of History",
            ConsensusType::ProofOfAuthority { .. } => "Proof of Authority",
            ConsensusType::ProofOfElapsedTime { .. } => "Proof of Elapsed Time",
            ConsensusType::ProofOfBurn { .. } => "Proof of Burn",
            ConsensusType::ProofOfCapacity { .. } => "Proof of Capacity",
            ConsensusType::PracticalByzantineFaultTolerance { .. } => {
                "Practical Byzantine Fault Tolerance"
            },
        }
    }

    pub fn description(&self) -> (r: &'static str)
        ensures
            r@ == kind_description(*self),
    {
        match self {
            ConsensusType::ProofOfWork { .. } => {
                "Computational proof requiring miners to solve cryptographic puzzles"
            },
            ConsensusType::ProofOfStake { .. } => {
                "Stake-based selection where validators are chosen based on their holdings"
            },
            ConsensusType::ProofOfHistory { .. } => {
                "Cryptographic clock creating verifiable passage of time"
            },
            ConsensusType::ProofOfAuthority { .. } => {
                "Identity-based consensus with pre-approved validators"
            },
            ConsensusType::ProofOfElapsedTime { .. } => {
                "Random lottery system using trusted execution environments"
            },
            ConsensusType::ProofOfBurn { .. } => "Proof of destroyed coins to gain mining rights",
            ConsensusType::ProofOfCapacity { .. } => {
                "Storage-based proof using pre-computed hash tables"
            },
            ConsensusType::PracticalByzantineFaultTolerance { .. } => {
                "Byzantine fault tolerant consensus for permissioned networks"
            },
        }
    }

    /// The headline ratings and the kind's own tunable parameter.
    pub fn characteristics(&self) -> (r: KvMap)
        ensures
            r.wf(),
            r@.contains_key("energy_efficiency"@),
            r@.contains_key("security"@),
            r@.contains_key("decentralization"@),
    {
        let mut chars = KvMap::new();
        match self {
            ConsensusType::ProofOfWork { difficulty } => {
                chars.insert(String::from_str("energy_efficiency"), String::from_str("Low"));
                chars.insert(String::from_str("security"), String::from_str("High"));
                chars.insert(String::from_str("decentralization"), String::from_str("High"));
                chars.insert(String::from_str("difficulty"), usize_to_dec(*difficulty));
            },
            ConsensusType::ProofOfStake { minimum_stake } => {
                chars.insert(String::from_str("energy_efficiency"), String::from_str("High"));
                chars.insert(String::from_str("security"), String::from_str("High"));
                chars.insert(String::from_str("decentralization"), String::from_str("Medium"));
                chars.insert(String::from_str("minimum_stake"), u64_to_dec(*minimum_stake));
            },
            ConsensusType::ProofOfHistory { vdf_iterations } => {
                chars.insert(String::from_str("energy_efficiency"), String::from_str("Medium"));
                chars.insert(String::from_str("security"), String::from_str("High"));
                chars.insert(String::from_str("decentralization"), String::from_str("Medium"));
                chars.insert(String::from_str("vdf_iterations"), u64_to_dec(*vdf_iterations));
            },
            ConsensusType::ProofOfAuthority { validators } => {
                chars.insert(
                    String::from_str("energy_efficiency"),
                    String::from_str("Very High"),
                );
                chars.insert(String::from_str("security"), String::from_str("Medium"));
                chars.insert(String::from_str("decentralization"), String::from_str("Low"));
                chars.insert(String::from_str("validator_count"), usize_to_dec(validators.len()));
            },
            ConsensusType::ProofOfElapsedTime { wait_time_config } => {
                chars.insert(String::from_str("energy_efficiency"), String::from_str("High"));
                chars.insert(String::from_str("security"), String::from_str("High"));
                chars.insert(String::from_str("decentralization"), String::from_str("Medium"));
                chars.insert(String::from_str("wait_time_ms"), u64_to_dec(*wait_time_config));
            },
            ConsensusType::ProofOfBurn { burn_amount } => {
                chars.insert(String::from_str("energy_efficiency"), String::from_str("High"));
                chars.insert(String::from_str("security"), String::from_str("Medium"));
                chars.insert(String::from_str("decentralization"), String::from_str("High"));
                chars.insert(String::from_str("burn_amount"), u64_to_dec(*burn_amount));
            },
            ConsensusType::ProofOfCapacity { storage_requirement } => {
                chars.insert(String::from_str("energy_efficiency"), String::from_str("High"));
                chars.insert(String::from_str("security"), String::from_str("Medium"));
                chars.insert(String::from_str("decentralization"), String::from_str("High"));
                chars.insert(String::from_str("storage_gb"), u64_to_dec(*storage_requirement));
            },
            ConsensusType::PracticalByzantineFaultTolerance {
                node_count,
                fault_tolerance_millis,
            } => {
                chars.insert(String::from_str("energy_efficiency"), String::from_str("Medium"));
                chars.insert(String::from_str("security"), String::from_str("Very High"));
                chars.insert(String::from_str("decentralization"), String::from_str("Low"));
                chars.insert(String::from_str("node_count"), usize_to_dec(*node_count));
                chars.insert(
                    String::from_str("fault_tolerance"),
                    u64_to_dec(*fault_tolerance_millis / 10),
                );
            },
        }
        proof {
            reveal_strlit("energy_efficiency");
            reveal_strlit("security");
            reveal_strlit("decentralization");
            reveal_strlit("difficulty");
            reveal_strlit("minimum_stake");
            reveal_strlit("vdf_iterations");
            reveal_strlit("validator_count");
            reveal_strlit("wait_time_ms");
            reveal_strlit("burn_amount");
            reveal_strlit("storage_gb");
            reveal_strlit("node_count");
            reveal_strlit("fault_tolerance");
        }
        chars
    }
}

/// One live algorithm instance: the closed dispatch over the eight
/// implementations.
pub enum ConsensusInstance {
    Work(ProofOfWork),
    Stake(ProofOfStake),
    History(ProofOfHistory),
    Authority(ProofOfAuthority),
    ElapsedTime(ProofOfElapsedTime),
    Burn(ProofOfBurn),
    Capacity(ProofOfCapacity),
    Byzantine(PracticalByzantineFaultTolerance),
}

impl ConsensusInstance {
    pub open spec fn wf(self) -> bool {
        match self {
            ConsensusInstance::Stake(s) => s.wf(),
            ConsensusInstance::Burn(p) => p.wf(),
            ConsensusInstance::Capacity(c) => c.wf(),
            ConsensusInstance::Byzantine(z) => z.wf(),
            _ => true,
        }
    }

    /// Whether a block carries a valid proof under this instance's current
    /// state.
    pub open spec fn validates(self, b: Block) -> bool {
        match self {
            ConsensusInstance::Work(w) => w.validates(b),
            ConsensusInstance::Stake(s) => s.validates(b),
            ConsensusInstance::History(h) => h.validates(b),
            ConsensusInstance::Authority(a) => a.validates(b),
            ConsensusInstance::ElapsedTime(e) => e.validates(b),
            ConsensusInstance::Burn(p) => p.validates(b),
            ConsensusInstance::Capacity(c) => c.validates(b),
            ConsensusInstance::Byzantine(z) => z.validates(b),
        }
    }

    /// The structural preconditions under which `execute_consensus`
    /// succeeds for a given unfinalized block.
    pub open spec fn can_execute(self, b: Block) -> bool {
        match self {
            ConsensusInstance::Work(w) => exists|m: u64|
                pow::zero_prefixed(
                    #[trigger] pow::pow_hash_of(b, m, w.difficulty),
                    w.difficulty as nat,
                ),
            ConsensusInstance::Stake(s) => s.validators@.len() > 0 && pos::total_weight(
                s.validators@,
                s.validators@.len() as int,
            ) > 0,
            ConsensusInstance::History(_) => true,
            ConsensusInstance::Authority(a) => a.current_authority_spec() is Some,
            ConsensusInstance::ElapsedTime(e) => e.trusted_execution,
            ConsensusInstance::Burn(p) => p.burn_transactions@.len() > 0 && pob::total_power(
                p.burn_transactions@,
                p.decay_millis,
                b.index,
                p.burn_transactions@.len() as int,
            ) > 0,
            ConsensusInstance::Capacity(c) => {
                &&& c.plots@.len() > 0
                &&& poc::sum_capacity(c.plots@, c.plots@.len() as int) >= c.storage_requirement
                &&& exists|j: int|
                    0 <= j < c.plots@.len() && poc::plot_deadline(
                        #[trigger] c.plots@[j],
                        b,
                    ) is Some
            },
            ConsensusInstance::Byzantine(z) => {
                &&& z.nodes@.len() > 0
                &&& pbft::honest_count(z.nodes@, z.nodes@.len() as int) >= 2 * z.node_count / 3 + 1
                &&& pbft::first_honest_primary(z.nodes@, 0) != -1
            },
        }
    }

    /// The inputs on which a freshly finalized block is not promised to
    /// re-validate: duplicate stakes, colliding burn digest prefixes, an
    /// undersized plot, or an agreement round that rotated the view.
    pub open spec fn revalidation_exempt(self, b: Block) -> bool {
        match self {
            ConsensusInstance::Stake(s) => !(forall|i: int, j: int|
                0 <= i < j < s.validators@.len() ==> (#[trigger] s.validators@[i]).stake != (
                #[trigger] s.validators@[j]).stake),
            ConsensusInstance::Burn(p) => !(forall|i: int, j: int|
                0 <= i < j < p.burn_transactions@.len() ==> (
                #[trigger] p.burn_transactions@[i]).tx_hash@.take(16) != (
                #[trigger] p.burn_transactions@[j]).tx_hash@.take(16)),
            ConsensusInstance::Capacity(c) => !(forall|j: int|
                0 <= j < c.plots@.len() ==> (#[trigger] c.plots@[j]).size_gb
                    >= c.storage_requirement),
            ConsensusInstance::Byzantine(z) => (if z.current_sequence < u64::MAX {
                z.current_sequence + 1
            } else {
                u64::MAX as int
            }) % 10 == 0,
            _ => false,
        }
    }

    /// Delegates to the active algorithm. A block it finalizes satisfies
    /// this same instance's validation, outside the named exempt inputs.
    pub fn execute_consensus(&mut self, block: &mut Block) -> (r: Result<ConsensusResult, String>)
        requires
            old(block).wf(),
            old(self).wf(),
        ensures
            final(self).wf(),
            same_variant(*old(self), *final(self)),
            final(block).index == old(block).index,
            final(block).timestamp == old(block).timestamp,
            final(block).data == old(block).data,
            final(block).previous_hash == old(block).previous_hash,
            final(block).consensus_data@ == old(block).consensus_data@,
            final(block).wf(),
            (r is Ok) <==> old(self).can_execute(*old(block)),
            match r {
                Ok(res) => {
                    &&& (!old(self).revalidation_exempt(*old(block)) ==> final(self).validates(
                        *final(block),
                    ))
                    &&& crate::block::same_block(res.block, *final(block))
                    &&& res.proof_data.wf()
                    &&& res.energy_cost_micro == (match *old(self) {
                        ConsensusInstance::Work(_) => Some(
                            pow::pow_energy_micro(final(block).nonce),
                        ),
                        ConsensusInstance::Stake(_) => Some(1000u64),
                        ConsensusInstance::History(_) => Some(10000u64),
                        ConsensusInstance::Authority(_) => Some(100u64),
                        ConsensusInstance::ElapsedTime(_) => Some(1000u64),
                        ConsensusInstance::Burn(_) => Some(5000u64),
                        ConsensusInstance::Capacity(_) => Some(10000u64),
                        ConsensusInstance::Byzantine(_) => Some(20000u64),
                    })
                    &&& ((*old(self)) matches ConsensusInstance::Authority(a)
                        ==> (*final(self)) matches ConsensusInstance::Authority(a2)
                        && a2.authorities == a.authorities
                        && a2.current_authority_index == poa::rotate_spec(
                        a.authorities@,
                        a.current_authority_index as int,
                    ) && a2.current_authority_index < a.authorities@.len())
                },
                Err(_) => {
                    &&& *final(block) == *old(block)
                    &&& *final(self) == *old(self)
                },
            },
    {
        match self {
            ConsensusInstance::Work(w) => w.execute_consensus(block),
            ConsensusInstance::Stake(s) => s.execute_consensus(block),
            ConsensusInstance::History(h) => h.execute_consensus(block),
            ConsensusInstance::Authority(a) => a.execute_consensus(block),
            ConsensusInstance::ElapsedTime(e) => e.execute_consensus(block),
            ConsensusInstance::Burn(p) => p.execute_consensus(block),
            ConsensusInstance::Capacity(c) => c.execute_consensus(block),
            ConsensusInstance::Byzantine(z) => z.execute_consensus(block),
        }
    }

    /// Pure re-validation of a block against the current state.
    pub fn validate_block(&self, block: &Block) -> (r: bool)
        requires
            self.wf(),
        ensures
            r == self.validates(*block),
    {
        match self {
            ConsensusInstance::Work(w) => w.validate_block(block),
            ConsensusInstance::Stake(s) => s.validate_block(block),
            ConsensusInstance::History(h) => h.validate_block(block),
            ConsensusInstance::Authority(a) => a.validate_block(block),
            ConsensusInstance::ElapsedTime(e) => e.validate_block(block),
            ConsensusInstance::Burn(p) => p.validate_block(block),
            ConsensusInstance::Capacity(c) => c.validate_block(block),
            ConsensusInstance::Byzantine(z) => z.validate_block(block),
        }
    }

    pub fn get_algorithm_name(&self) -> (r: &'static str)
        ensures
            r@ == instance_name(*self),
    {
        match self {
            ConsensusInstance::Work(w) => w.get_algorithm_name(),
            ConsensusInstance::Stake(s) => s.get_algorithm_name(),
            ConsensusInstance::History(h) => h.get_algorithm_name(),
            ConsensusInstance::Authority(a) => a.get_algorithm_name(),
            ConsensusInstance::ElapsedTime(e) => e.get_algorithm_name(),
            ConsensusInstance::Burn(p) => p.get_algorithm_name(),
            ConsensusInstance::Capacity(c) => c.get_algorithm_name(),
            ConsensusInstance::Byzantine(z) => z.get_algorithm_name(),
        }
    }

    /// Difficulty adaptation applies to work proofs alone.
    pub fn calculate_next_difficulty(&self, blocks: &Vec<Block>) -> (r: Option<usize>)
        ensures
            r == (match *self {
                ConsensusInstance::Work(w) => Some(w.next_difficulty_spec(blocks@)),
                _ => None::<usize>,
            }),
    {
        match self {
            ConsensusInstance::Work(w) => w.calculate_next_difficulty(blocks),
            _ => None,
        }
    }

    /// Energy efficiency in thousandths.
    pub fn get_energy_efficiency(&self) -> (r: Option<u64>)
        ensures
            r is Some,
    {
        match self {
            ConsensusInstance::Work(w) => w.get_energy_efficiency(),
            ConsensusInstance::Stake(s) => s.get_energy_efficiency(),
            ConsensusInstance::History(h) => h.get_energy_efficiency(),
            ConsensusInstance::Authority(a) => a.get_energy_efficiency(),
            ConsensusInstance::ElapsedTime(e) => e.get_energy_efficiency(),
            ConsensusInstance::Burn(p) => p.get_energy_efficiency(),
            ConsensusInstance::Capacity(c) => c.get_energy_efficiency(),
            ConsensusInstance::Byzantine(z) => z.get_energy_efficiency(),
        }
    }

    pub fn get_statistics(&self) -> (r: KvMap)
        requires
            self.wf(),
        ensures
            r.wf(),
    {
        match self {
            ConsensusInstance::Work(w) => w.get_statistics(),
            ConsensusInstance::Stake(s) => s.get_statistics(),
            ConsensusInstance::History(h) => h.get_statistics(),
            ConsensusInstance::Authority(a) => a.get_statistics(),
            ConsensusInstance::ElapsedTime(e) => e.get_statistics(),
            ConsensusInstance::Burn(p) => p.get_statistics(),
            ConsensusInstance::Capacity(c) => c.get_statistics(),
            ConsensusInstance::Byzantine(z) => z.get_statistics(),
        }
    }

    /// Delegated parameter update; each variant's exact outcome is carried
    /// through, and the instance stays well-formed.
    pub fn configure(&mut self, config: ConsensusConfig) -> (r: Result<(), String>)
        requires
            old(self).wf(),
            config.additional_params.wf(),
        ensures
            final(self).wf(),
            same_variant(*old(self), *final(self)),
            match (*old(self), *final(self)) {
                (ConsensusInstance::Work(a), ConsensusInstance::Work(b)) => pow::configure_post(
                    a,
                    b,
                    config.additional_params@,
                    r is Ok,
                ),
                (ConsensusInstance::Stake(a), ConsensusInstance::Stake(b)) => pos::configure_post(
                    a,
                    b,
                    config.additional_params@,
                    r is Ok,
                ),
                (
                    ConsensusInstance::History(a),
                    ConsensusInstance::History(b),
                ) => poh::configure_post(a, b, config.additional_params@, r is Ok),
                (
                    ConsensusInstance::Authority(a),
                    ConsensusInstance::Authority(b),
                ) => poa::configure_post(a, b, config.additional_params@, r is Ok),
                (
                    ConsensusInstance::ElapsedTime(a),
                    ConsensusInstance::ElapsedTime(b),
                ) => poet::configure_post(a, b, config.additional_params@, r is Ok),
                (ConsensusInstance::Burn(a), ConsensusInstance::Burn(b)) => pob::configure_post(
                    a,
                    b,
                    config.additional_params@,
                    r is Ok,
                ),
                (
                    ConsensusInstance::Capacity(a),
                    ConsensusInstance::Capacity(b),
                ) => poc::configure_post(a, b, config.additional_params@, r is Ok),
                (
                    ConsensusInstance::Byzantine(a),
                    ConsensusInstance::Byzantine(b),
                ) => pbft::configure_post(a, b, config.additional_params@, r is Ok),
                _ => false,
            },
    {
        match self {
            ConsensusInstance::Work(w) => w.configure(config),
            ConsensusInstance::Stake(s) => s.configure(config),
            ConsensusInstance::History(h) => h.configure(config),
            ConsensusInstance::Authority(a) => a.configure(config),
            ConsensusInstance::ElapsedTime(e) => e.configure(config),
            ConsensusInstance::Burn(p) => p.configure(config),
            ConsensusInstance::Capacity(c) => c.configure(config),
            ConsensusInstance::Byzantine(z) => z.configure(config),
        }
    }
}

/// Two instances of the same algorithm, whatever their state.
pub open spec fn same_variant(a: ConsensusInstance, b: ConsensusInstance) -> bool {
    match (a, b) {
        (ConsensusInstance::Work(_), ConsensusInstance::Work(_)) => true,
        (ConsensusInstance::Stake(_), ConsensusInstance::Stake(_)) => true,
        (ConsensusInstance::History(_), ConsensusInstance::History(_)) => true,
        (ConsensusInstance::Authority(_), ConsensusInstance::Authority(_)) => true,
        (ConsensusInstance::ElapsedTime(_), ConsensusInstance::ElapsedTime(_)) => true,
        (ConsensusInstance::Burn(_), ConsensusInstance::Burn(_)) => true,
        (ConsensusInstance::Capacity(_), ConsensusInstance::Capacity(_)) => true,
        (ConsensusInstance::Byzantine(_), ConsensusInstance::Byzantine(_)) => true,
        _ => false,
    }
}

pub open spec fn instance_name(i: ConsensusInstance) -> Seq<char> {
    match i {
        ConsensusInstance::Work(_) => "Proof of Work"@,
        ConsensusInstance::Stake(_) => "Proof of Stake"@,
        ConsensusInstance::History(_) => "Proof of History"@,
        ConsensusInstance::Authority(_) => "Proof of Authority"@,
        ConsensusInstance::ElapsedTime(_) => "Proof of Elapsed Time"@,
        ConsensusInstance::Burn(_) => "Proof of Burn"@,
        ConsensusInstance::Capacity(_) => "Proof of Capacity"@,
        ConsensusInstance::Byzantine(_) => "Practical Byzantine Fault Tolerance"@,
    }
}

/// What a freshly built instance of a configuration looks like.
pub open spec fn fresh_instance_of(t: ConsensusType, i: ConsensusInstance) -> bool {
    match t {
        ConsensusType::ProofOfWork { difficulty } => i matches ConsensusInstance::Work(w)
            && w.difficulty == difficulty && w.target_time_secs == 60,
        ConsensusType::ProofOfStake { minimum_stake } => i matches ConsensusInstance::Stake(s)
            && s.minimum_stake == minimum_stake && s.validators@.len() == 0,
        ConsensusType::ProofOfHistory { vdf_iterations } => i matches ConsensusInstance::History(
            h,
        ) && h.vdf_iterations == vdf_iterations && h.sequence_number == 0,
        ConsensusType::ProofOfAuthority { validators } => i matches ConsensusInstance::Authority(
            a,
        ) && a.authorities@.len() == validators@.len() && a.current_authority_index == 0 && (
        forall|k: int|
            0 <= k < validators@.len() ==> (#[trigger] a.authorities@[k]).is_active
                && a.authorities@[k].address@ == validators@[k]@),
        ConsensusType::ProofOfElapsedTime { wait_time_config } => i matches
            ConsensusInstance::ElapsedTime(e) && e.wait_time_config == wait_time_config
            && e.trusted_execution,
        ConsensusType::ProofOfBurn { burn_amount } => i matches ConsensusInstance::Burn(p)
            && p.burn_amount == burn_amount && p.burn_transactions@.len() == 0,
        ConsensusType::ProofOfCapacity { storage_requirement } => i matches
            ConsensusInstance::Capacity(c) && c.storage_requirement == storage_requirement
            && c.plots@.len() == 0,
        ConsensusType::PracticalByzantineFaultTolerance { node_count, fault_tolerance_millis } => i
             matches ConsensusInstance::Byzantine(z) && z.node_count == node_count
            && z.fault_tolerance_millis == fault_tolerance_millis && z.current_sequence == 0
            && z.current_view == 0 && (forall|k: int|
            0 <= k < node_count ==> !(#[trigger] z.nodes@[k]).is_faulty),
    }
}

/// Builds an algorithm instance from a configuration.
pub struct ConsensusFactory;

impl ConsensusFactory {
    /// A fresh, well-formed instance of the configured kind; elapsed-time
    /// nodes get a name drawn from machine entropy.
    pub fn create_consensus(consensus_type: &ConsensusType) -> (r: Result<
        ConsensusInstance,
        String,
    >)
        ensures
            r is Ok,
            r->Ok_0.wf(),
            fresh_instance_of(*consensus_type, r->Ok_0),
    {
        match consensus_type {
            ConsensusType::ProofOfWork { difficulty } => {
                Ok(ConsensusInstance::Work(ProofOfWork::new(*difficulty)))
            },
            ConsensusType::ProofOfStake { minimum_stake } => {
                Ok(ConsensusInstance::Stake(ProofOfStake::new(*minimum_stake)))
            },
            ConsensusType::ProofOfHistory { vdf_iterations } => {
                Ok(ConsensusInstance::History(ProofOfHistory::new(*vdf_iterations)))
            },
            ConsensusType::ProofOfAuthority { validators } => {
                let n = validators.len();
                let mut copied: Vec<String> = Vec::new();
                let mut i: usize = 0;
                while i < n
                    invariant
                        n == validators@.len(),
                        i <= n,
                        copied@.len() == i,
                        forall|j: int| 0 <= j < i ==> #[trigger] copied@[j]@ == validators@[j]@,
                    decreases n - i,
                {
                    copied.push(validators[i].clone());
                    i = i + 1;
                }
                Ok(ConsensusInstance::Authority(ProofOfAuthority::new(copied)))
            },
            ConsensusType::ProofOfElapsedTime { wait_time_config } => {
                let word = crate::entropy::random_u64();
                let tag: u64 = word % 0x100000000;
                let mut node_id = String::new();
                node_id.append("node_");
                let tag_text = u64_to_dec(tag);
                node_id.append(tag_text.as_str());
                Ok(
                    ConsensusInstance::ElapsedTime(
                        ProofOfElapsedTime::new(*wait_time_config, node_id),
                    ),
                )
            },
            ConsensusType::ProofOfBurn { burn_amount } => {
                Ok(ConsensusInstance::Burn(ProofOfBurn::new(*burn_amount)))
            },
            ConsensusType::ProofOfCapacity { storage_requirement } => {
                Ok(ConsensusInstance::Capacity(ProofOfCapacity::new(*storage_requirement)))
            },
            ConsensusType::PracticalByzantineFaultTolerance {
                node_count,
                fault_tolerance_millis,
            } => {
                Ok(
                    ConsensusInstance::Byzantine(
                        PracticalByzantineFaultTolerance::new(
                            *node_count,
                            *fault_tolerance_millis,
                        ),
                    ),
                )
            },
        }
    }
}

} // verus!
