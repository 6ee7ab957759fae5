//! Proof of Stake: a deterministic weighted lottery over validators, seeded
//! from the previous block's digest; the winner signs the block and its
//! stake becomes the nonce.

use vstd::prelude::*;
use crate::block::{core_msg, same_block, Block};
use crate::consensus::traits::{ConsensusConfig, ConsensusResult};
use crate::encode::{
    dec_of, dec_parse_u64, lemma_mul_le, parse_dec_u64, str_eq, u128_to_dec, u64_to_dec,
    usize_to_dec,
};
use crate::entropy::{seeded_draw_of, seeded_u64};
use crate::clock::{elapsed_ms, now_timestamp_millis};
use crate::hashing::{digest32, sha256_bytes, sha256_hex, sha256_hex_of};
use crate::kvmap::KvMap;

verus! {

pub struct Validator {
    pub address: String,
    pub stake: u64,
    /// Reputation in thousandths; a fresh validator starts at 1000.
    pub reputation_millis: u64,
}

impl Clone for Validator {
    fn clone(&self) -> (r: Self)
        ensures
            r == *self,
    {
        Validator {
            address: self.address.clone(),
            stake: self.stake,
            reputation_millis: self.reputation_millis,
        }
    }
}

pub struct ProofOfStake {
    pub validators: Vec<Validator>,
    pub minimum_stake: u64,
    /// Share of stake lost on misbehaviour, in thousandths.
    pub slashing_rate_millis: u64,
}

/// A validator's lottery weight: stake scaled by reputation.
pub open spec fn weight(v: Validator) -> int {
    v.stake * v.reputation_millis / 1000
}

/// Total weight of the first `i` validators.
pub open spec fn total_weight(vs: Seq<Validator>, i: int) -> int
    decreases i,
{
    if i <= 0 {
        0
    } else {
        total_weight(vs, i - 1) + weight(vs[i - 1])
    }
}

pub open spec fn sum_stakes(vs: Seq<Validator>, i: int) -> int
    decreases i,
{
    if i <= 0 {
        0
    } else {
        sum_stakes(vs, i - 1) + vs[i - 1].stake
    }
}

/// The index the lottery walk lands on: the first validator whose
/// cumulative weight covers the draw, the last one as fallback.
pub open spec fn select_from(vs: Seq<Validator>, i: int, acc: int, draw: int) -> int
    decreases vs.len() - i,
{
    if i < 0 || i >= vs.len() {
        vs.len() - 1
    } else if acc + weight(vs[i]) >= draw {
        i
    } else {
        select_from(vs, i + 1, acc + weight(vs[i]), draw)
    }
}

/// The winning validator's position for a given previous-hash seed.
pub open spec fn selected_index(vs: Seq<Validator>, previous_hash: Seq<char>) -> int {
    let total = total_weight(vs, vs.len() as int);
    let draw = seeded_draw_of(digest32(previous_hash)) as int % total;
    select_from(vs, 0, 0, draw)
}

/// The message a validator signs: identity fields, address, stake.
pub open spec fn pos_msg(b: Block, v: Validator) -> Seq<char> {
    core_msg(b) + v.address@ + dec_of(v.stake as nat)
}

pub open spec fn pos_sig_of(b: Block, v: Validator) -> Seq<char> {
    sha256_hex_of(pos_msg(b, v))
}

/// The first position holding the given stake, or -1.
pub open spec fn first_with_stake(vs: Seq<Validator>, st: u64, i: int) -> int
    decreases vs.len() - i,
{
    if i < 0 || i >= vs.len() {
        -1
    } else if vs[i].stake == st {
        i
    } else {
        first_with_stake(vs, st, i + 1)
    }
}

/// The base reward of a validator: a thousandth of the stake, at least one,
/// scaled by reputation.
pub open spec fn reward_spec(v: Validator) -> int {
    let base: int = if v.stake / 1000 >= 1 {
        v.stake as int / 1000
    } else {
        1int
    };
    base * v.reputation_millis / 1000
}

impl ProofOfStake {
    /// Reputations never exceed unity, which keeps every weight within the
    /// stake itself.
    pub open spec fn wf(self) -> bool {
        forall|i: int|
            0 <= i < self.validators@.len() ==> (
            #[trigger] self.validators@[i]).reputation_millis <= 1000
    }

    /// A block carries a valid stake proof when the first validator whose
    /// stake equals the nonce signs to the stored hash — two validators of
    /// equal stake are indistinguishable here, a documented limitation.
    pub open spec fn validates(self, b: Block) -> bool {
        let i = first_with_stake(self.validators@, b.nonce, 0);
        &&& i >= 0
        &&& b.hash@ == pos_sig_of(b, self.validators@[i])
    }

    pub fn new(minimum_stake: u64) -> (r: ProofOfStake)
        ensures
            r.validators@.len() == 0,
            r.minimum_stake == minimum_stake,
            r.slashing_rate_millis == 100,
            r.wf(),
    {
        ProofOfStake { validators: Vec::new(), minimum_stake, slashing_rate_millis: 100 }
    }

    /// Registers a validator with full reputation; rejected below the
    /// minimum stake.
    pub fn add_validator(&mut self, address: String, stake: u64) -> (r: Result<(), String>)
        requires
            old(self).wf(),
        ensures
            final(self).wf(),
            final(self).minimum_stake == old(self).minimum_stake,
            final(self).slashing_rate_millis == old(self).slashing_rate_millis,
            (r is Err) <==> stake < old(self).minimum_stake,
            r is Err ==> *final(self) == *old(self),
            r is Ok ==> {
                &&& final(self).validators@.len() == old(self).validators@.len() + 1
                &&& forall|i: int|
                    0 <= i < old(self).validators@.len() ==> final(self).validators@[i] == old(
                        self,
                    ).validators@[i]
                &&& final(self).validators@.last().address@ == address@
                &&& final(self).validators@.last().stake == stake
                &&& final(self).validators@.last().reputation_millis == 1000
            },
    {
        if stake < self.minimum_stake {
            return Err(String::from_str("Stake is below minimum"));
        }
        self.validators.push(Validator { address, stake, reputation_millis: 1000 });
        Ok(())
    }

    /// The lottery walk over cumulative weights; yields the winner's
    /// position, or nothing when the list is empty or weightless.
    fn select_validator(&self, block: &Block) -> (r: Option<usize>)
        requires
            self.wf(),
        ensures
            match r {
                Some(i) => {
                    &&& self.validators@.len() > 0
                    &&& total_weight(self.validators@, self.validators@.len() as int) > 0
                    &&& i < self.validators@.len()
                    &&& i == selected_index(self.validators@, block.previous_hash@)
                },
                None => self.validators@.len() == 0 || total_weight(
                    self.validators@,
                    self.validators@.len() as int,
                ) == 0,
            },
    {
        let n = self.validators.len();
        if n == 0 {
            return None;
        }
        let mut total: u128 = 0;
        let mut i: usize = 0;
        while i < n
            invariant
                self.wf(),
                n == self.validators@.len(),
                i <= n,
                total == total_weight(self.validators@, i as int),
                total <= (i as int) * (u64::MAX as int),
            decreases n - i,
        {
            let v = &self.validators[i];
            proof {
                lemma_mul_le(v.stake as int, v.reputation_millis as int, u64::MAX as int, 1000);
            }
            let w: u128 = (v.stake as u128) * (v.reputation_millis as u128) / 1000;
            proof {
                assert(w <= u64::MAX);
            }
            total = total + w;
            i = i + 1;
        }
        if total == 0 {
            return None;
        }
        let seed = self.create_seed_from_hash(block.previous_hash.as_str());
        let word = seeded_u64(&seed);
        let draw: u128 = (word as u128) % total;
        let mut acc: u128 = 0;
        let mut i: usize = 0;
        while i < n
            invariant
                self.wf(),
                n == self.validators@.len(),
                n > 0,
                i <= n,
                acc == total_weight(self.validators@, i as int),
                acc <= (i as int) * (u64::MAX as int),
                total_weight(self.validators@, n as int) > 0,
                draw == seeded_draw_of(digest32(block.previous_hash@)) as int % total_weight(
                    self.validators@,
                    n as int,
                ),
                select_from(self.validators@, 0, 0, draw as int) == select_from(
                    self.validators@,
                    i as int,
                    acc as int,
                    draw as int,
                ),
            decreases n - i,
        {
            let v = &self.validators[i];
            proof {
                lemma_mul_le(v.stake as int, v.reputation_millis as int, u64::MAX as int, 1000);
            }
            let w: u128 = (v.stake as u128) * (v.reputation_millis as u128) / 1000;
            proof {
                assert(w <= u64::MAX);
            }
            if acc + w >= draw {
                return Some(i);
            }
            acc = acc + w;
            i = i + 1;
        }
        proof {
            assert(select_from(self.validators@, n as int, acc as int, draw as int) == n - 1);
        }
        Some(n - 1)
    }

    /// The 32-byte lottery seed: the digest of the previous block's hash
    /// text.
    fn create_seed_from_hash(&self, hash: &str) -> (r: Vec<u8>)
        ensures
            r@ == digest32(hash@),
            r@.len() == 32,
    {
        sha256_bytes(hash)
    }

    /// The winning validator's signature over the block.
    fn create_block_signature(&self, block: &Block, validator: &Validator) -> (r: String)
        ensures
            r@ == pos_sig_of(*block, *validator),
    {
        let mut msg = block.core_message();
        msg.append(validator.address.as_str());
        let stake_text = u64_to_dec(validator.stake);
        msg.append(stake_text.as_str());
        sha256_hex(msg.as_str())
    }

    /// The reward owed to a validator: a thousandth of the stake, at least
    /// one, scaled by reputation.
    fn calculate_rewards(&self, validator: &Validator) -> (r: u64)
        requires
            validator.reputation_millis <= 1000,
        ensures
            r == reward_spec(*validator),
    {
        let base: u64 = if validator.stake / 1000 >= 1 {
            validator.stake / 1000
        } else {
            1u64
        };
        proof {
            lemma_mul_le(base as int, validator.reputation_millis as int, u64::MAX as int, 1000);
        }
        let wide: u128 = (base as u128) * (validator.reputation_millis as u128) / 1000;
        wide as u64
    }

    /// Runs the lottery, signs the block with the winner and stores its
    /// stake as the nonce; fails exactly when no validator holds weight.
    /// With pairwise-distinct stakes the finalized block validates against
    /// this same state.
    pub fn execute_consensus(&mut self, block: &mut Block) -> (r: Result<ConsensusResult, String>)
        requires
            old(block).wf(),
            old(self).wf(),
        ensures
            *final(self) == *old(self),
            final(block).index == old(block).index,
            final(block).timestamp == old(block).timestamp,
            final(block).data == old(block).data,
            final(block).previous_hash == old(block).previous_hash,
            final(block).consensus_data@ == old(block).consensus_data@,
            final(block).difficulty == old(block).difficulty,
            final(block).wf(),
            (r is Ok) <==> (old(self).validators@.len() > 0 && total_weight(
                old(self).validators@,
                old(self).validators@.len() as int,
            ) > 0),
            match r {
                Ok(res) => {
                    let vs = old(self).validators@;
                    let win = vs[selected_index(vs, old(block).previous_hash@)];
                    &&& final(block).nonce == win.stake
                    &&& final(block).hash@ == pos_sig_of(*final(block), win)
                    &&& (forall|i: int, j: int|
                        0 <= i < j < vs.len() ==> (#[trigger] vs[i]).stake != (
                        #[trigger] vs[j]).stake) ==> final(self).validates(*final(block))
                    &&& same_block(res.block, *final(block))
                    &&& res.proof_data.wf()
                    &&& res.proof_data@ == Map::<Seq<char>, Seq<char>>::empty().insert(
                        "validator_address"@,
                        win.address@,
                    ).insert("validator_stake"@, dec_of(win.stake as nat)).insert(
                        "validator_reputation"@,
                        dec_of(win.reputation_millis as nat),
                    ).insert("signature"@, final(block).hash@).insert(
                        "reward"@,
                        dec_of(reward_spec(win) as nat),
                    )
                    &&& res.energy_cost_micro == Some(1000u64)
                },
                Err(_) => *final(block) == *old(block),
            },
    {
        let exec_started = now_timestamp_millis();
        let idx = match self.select_validator(block) {
            Some(i) => i,
            None => {
                return Err(String::from_str("No validators available"));
            },
        };
        let validator = self.validators[idx].clone();
        let signature = self.create_block_signature(block, &validator);
        block.hash = signature.clone();
        block.nonce = validator.stake;
        let reward = self.calculate_rewards(&validator);
        let mut proof_data = KvMap::new();
        proof_data.insert(String::from_str("validator_address"), validator.address.clone());
        proof_data.insert(String::from_str("validator_stake"), u64_to_dec(validator.stake));
        proof_data.insert(
            String::from_str("validator_reputation"),
            u64_to_dec(validator.reputation_millis),
        );
        proof_data.insert(String::from_str("signature"), signature);
        proof_data.insert(String::from_str("reward"), u64_to_dec(reward));
        let res = ConsensusResult {
            block: block.clone(),
            proof_data,
            execution_time_ms: elapsed_ms(exec_started, now_timestamp_millis()),
            energy_cost_micro: Some(1000),
        };
        proof {
            let vs = self.validators@;
            let win = vs[idx as int];
            assert(pos_msg(*block, win) == pos_msg(*old(block), win));
            if forall|i: int, j: int|
                0 <= i < j < vs.len() ==> (#[trigger] vs[i]).stake != (#[trigger] vs[j]).stake {
                lemma_first_with_stake_unique(vs, idx as int);
            }
        }
        Ok(res)
    }

    /// Looks the nonce up as a stake and re-derives that validator's
    /// signature; pure.
    pub fn validate_block(&self, block: &Block) -> (r: bool)
        ensures
            r == self.validates(*block),
    {
        let n = self.validators.len();
        let mut i: usize = 0;
        while i < n
            invariant
                n == self.validators@.len(),
                i <= n,
                first_with_stake(self.validators@, block.nonce, 0) == first_with_stake(
                    self.validators@,
                    block.nonce,
                    i as int,
                ),
                forall|j: int| 0 <= j < i ==> (#[trigger] self.validators@[j]).stake != block.nonce,
            decreases n - i,
        {
            if self.validators[i].stake == block.nonce {
                let expected = self.create_block_signature(block, &self.validators[i]);
                return str_eq(expected.as_str(), block.hash.as_str());
            }
            i = i + 1;
        }
        false
    }

    pub fn get_algorithm_name(&self) -> (r: &'static str)
        ensures
            r@ == "Proof of Stake"@,
    {
        "Proof of Stake"
    }

    /// Energy efficiency in thousandths.
    pub fn get_energy_efficiency(&self) -> (r: Option<u64>)
        ensures
            r == Some(990u64),
    {
        Some(990)
    }

    pub fn get_statistics(&self) -> (r: KvMap)
        ensures
            r.wf(),
            r@ == Map::<Seq<char>, Seq<char>>::empty().insert(
                "validator_count"@,
                dec_of(self.validators@.len()),
            ).insert("minimum_stake"@, dec_of(self.minimum_stake as nat)).insert(
                "total_stake"@,
                dec_of(sum_stakes(self.validators@, self.validators@.len() as int) as nat),
            ).insert("slashing_rate"@, dec_of(self.slashing_rate_millis as nat)),
    {
        let n = self.validators.len();
        let mut total: u128 = 0;
        let mut i: usize = 0;
        while i < n
            invariant
                n == self.validators@.len(),
                i <= n,
                total == sum_stakes(self.validators@, i as int),
                total <= (i as int) * (u64::MAX as int),
            decreases n - i,
        {
            total = total + (self.validators[i].stake as u128);
            i = i + 1;
        }
        let mut stats = KvMap::new();
        stats.insert(String::from_str("validator_count"), usize_to_dec(n));
        stats.insert(String::from_str("minimum_stake"), u64_to_dec(self.minimum_stake));
        stats.insert(String::from_str("total_stake"), u128_to_dec(total));
        stats.insert(String::from_str("slashing_rate"), u64_to_dec(self.slashing_rate_millis));
        stats
    }

    /// Reads `minimum_stake` and `slashing_rate_millis`; fails on the first
    /// value that does not parse.
    pub fn configure(&mut self, config: ConsensusConfig) -> (r: Result<(), String>)
        requires
            config.additional_params.wf(),
        ensures
            configure_post(*old(self), *final(self), config.additional_params@, r is Ok),
    {
        match config.additional_params.get("minimum_stake") {
            Some(text) => {
                match parse_dec_u64(text.as_str()) {
                    Some(v) => {
                        self.minimum_stake = v;
                    },
                    None => {
                        return Err(String::from_str("Invalid minimum_stake parameter"));
                    },
                }
            },
            None => {},
        }
        match config.additional_params.get("slashing_rate_millis") {
            Some(text) => {
                match parse_dec_u64(text.as_str()) {
                    Some(v) => {
                        self.slashing_rate_millis = v;
                    },
                    None => {
                        return Err(String::from_str("Invalid slashing_rate parameter"));
                    },
                }
            },
            None => {},
        }
        Ok(())
    }
}

/// With pairwise-distinct stakes, the first validator holding the winner's
/// stake is the winner itself.
pub proof fn lemma_first_with_stake_unique(vs: Seq<Validator>, idx: int)
    requires
        0 <= idx < vs.len(),
        forall|i: int, j: int|
            0 <= i < j < vs.len() ==> (#[trigger] vs[i]).stake != (#[trigger] vs[j]).stake,
    ensures
        first_with_stake(vs, vs[idx].stake, 0) == idx,
{
    lemma_first_with_stake_from(vs, idx, 0);
}

proof fn lemma_first_with_stake_from(vs: Seq<Validator>, idx: int, i: int)
    requires
        0 <= i <= idx < vs.len(),
        forall|j: int, k: int|
            0 <= j < k < vs.len() ==> (#[trigger] vs[j]).stake != (#[trigger] vs[k]).stake,
    ensures
        first_with_stake(vs, vs[idx].stake, i) == idx,
    decreases vs.len() - i,
{
    if vs[i].stake == vs[idx].stake {
        assert(i == idx);
    } else {
        lemma_first_with_stake_from(vs, idx, i + 1);
    }
}


/// What `configure` leaves behind, for a parameter map `m`: values applied
/// left to right, stopping at the first one that does not parse; `ok` says
/// whether the call returned without error.
pub open spec fn configure_post(
    pre: ProofOfStake,
    post: ProofOfStake,
    m: Map<Seq<char>, Seq<char>>,
    ok: bool,
) -> bool {
    &&& post.validators == pre.validators
    &&& (if m.contains_key("minimum_stake"@) && dec_parse_u64(m["minimum_stake"@]) is None {
            &&& !ok
            &&& post == pre
        } else {
            let min = if m.contains_key("minimum_stake"@) {
                dec_parse_u64(m["minimum_stake"@])->Some_0
            } else {
                pre.minimum_stake
            };
            if m.contains_key("slashing_rate_millis"@) && dec_parse_u64(
                m["slashing_rate_millis"@],
            ) is None {
                &&& !ok
                &&& post.minimum_stake == min
                &&& post.slashing_rate_millis == pre.slashing_rate_millis
            } else {
                &&& ok
                &&& post.minimum_stake == min
                &&& post.slashing_rate_millis == (if m.contains_key(
                    "slashing_rate_millis"@,
                ) {
                    dec_parse_u64(m["slashing_rate_millis"@])->Some_0
                } else {
                    pre.slashing_rate_millis
                })
            }
        }
    )
}

} // verus!
