//! Proof of Work: exhaustive search for the smallest nonce whose digest
//! opens with a run of zero digits, and difficulty adaptation from recent
//! block spacing.

use vstd::prelude::*;
use crate::block::{core_msg, same_block, Block};
use crate::consensus::traits::{ConsensusConfig, ConsensusResult};
use crate::encode::{
    char_repeat, dec_of, dec_parse_u64, dec_parse_usize, parse_dec_u64, parse_dec_usize,
    u64_to_dec, usize_to_dec, zeros_string,
};
use crate::clock::{elapsed_ms, now_timestamp_millis};
use crate::hashing::{sha256_hex, sha256_hex_of};
use crate::kvmap::KvMap;

verus! {

pub struct ProofOfWork {
    pub difficulty: usize,
    /// Target spacing between blocks, in whole seconds.
    pub target_time_secs: u64,
}

/// The message a work proof digests: identity fields, candidate nonce,
/// declared difficulty.
pub open spec fn pow_msg(b: Block, nonce: u64, difficulty: usize) -> Seq<char> {
    core_msg(b) + dec_of(nonce as nat) + dec_of(difficulty as nat)
}

pub open spec fn pow_hash_of(b: Block, nonce: u64, difficulty: usize) -> Seq<char> {
    sha256_hex_of(pow_msg(b, nonce, difficulty))
}

/// The work target: the first `d` characters exist and are `'0'`.
pub open spec fn zero_prefixed(s: Seq<char>, d: nat) -> bool {
    d <= s.len() && forall|i: int| 0 <= i < d ==> s[i] == '0'
}

/// Truncating integer division, as the machine division of signed values.
pub open spec fn div_trunc(a: int, b: int) -> int {
    if a >= 0 {
        a / b
    } else {
        -((-a) / b)
    }
}

/// Sum of the timestamp deltas of consecutive blocks in `s[lo..hi]`.
pub open spec fn sum_deltas(s: Seq<Block>, lo: int, hi: int) -> int
    decreases hi - lo,
{
    if hi <= lo + 1 {
        0
    } else {
        sum_deltas(s, lo, hi - 1) + (s[hi - 1].timestamp - s[hi - 2].timestamp)
    }
}

/// The modeled energy cost of a work search, in millionths: one hundred per
/// attempted nonce, saturating.
pub open spec fn pow_energy_micro(nonce: u64) -> u64 {
    if nonce * 100 <= u64::MAX {
        (nonce * 100) as u64
    } else {
        u64::MAX
    }
}

impl ProofOfWork {
    /// A block carries a valid work proof for the current difficulty when
    /// its digest at the stored nonce meets the target and equals the
    /// stored hash.
    pub open spec fn validates(self, b: Block) -> bool {
        &&& zero_prefixed(pow_hash_of(b, b.nonce, self.difficulty), self.difficulty as nat)
        &&& b.hash@ == pow_hash_of(b, b.nonce, self.difficulty)
    }

    /// The difficulty the adaptation rule picks from a chain's recent
    /// spacing: raise by one when blocks come in under half the target,
    /// lower by one (to a floor of zero) when they take over twice the
    /// target, else keep.
    pub open spec fn next_difficulty_spec(self, blocks: Seq<Block>) -> usize {
        if blocks.len() < 2 {
            self.difficulty
        } else {
            let lo = if blocks.len() >= 10 {
                blocks.len() - 10
            } else {
                0int
            };
            let count = blocks.len() - lo - 1;
            let avg = div_trunc(sum_deltas(blocks, lo, blocks.len() as int), count);
            let target = self.target_time_secs as int;
            if avg < div_trunc(target, 2) {
                if self.difficulty < usize::MAX {
                    (self.difficulty + 1) as usize
                } else {
                    usize::MAX
                }
            } else if avg > target * 2 {
                if self.difficulty > 0 {
                    (self.difficulty - 1) as usize
                } else {
                    0
                }
            } else {
                self.difficulty
            }
        }
    }

    pub fn new(difficulty: usize) -> (r: ProofOfWork)
        ensures
            r.difficulty == difficulty,
            r.target_time_secs == 60,
    {
        ProofOfWork { difficulty, target_time_secs: 60 }
    }

    pub fn with_target_time(difficulty: usize, target_time_secs: u64) -> (r: ProofOfWork)
        ensures
            r.difficulty == difficulty,
            r.target_time_secs == target_time_secs,
    {
        ProofOfWork { difficulty, target_time_secs }
    }

    /// The digest of the block's fields at a candidate nonce and the
    /// currently configured difficulty.
    fn calculate_hash(&self, block: &Block, nonce: u64) -> (r: String)
        ensures
            r@ == pow_hash_of(*block, nonce, self.difficulty),
    {
        let mut msg = block.core_message();
        let nonce_text = u64_to_dec(nonce);
        msg.append(nonce_text.as_str());
        let difficulty_text = usize_to_dec(self.difficulty);
        msg.append(difficulty_text.as_str());
        sha256_hex(msg.as_str())
    }

    /// The exhaustive search from nonce zero; yields the least satisfying
    /// nonce with its digest, or nothing when no 64-bit nonce satisfies the
    /// target.
    fn mine_block(&self, block: &Block) -> (r: Option<(u64, String)>)
        ensures
            match r {
                Some(found) => {
                    &&& found.1@ == pow_hash_of(*block, found.0, self.difficulty)
                    &&& zero_prefixed(found.1@, self.difficulty as nat)
                    &&& forall|m: u64|
                        m < found.0 ==> !zero_prefixed(
                            pow_hash_of(*block, m, self.difficulty),
                            self.difficulty as nat,
                        )
                },
                None => forall|m: u64|
                    !zero_prefixed(pow_hash_of(*block, m, self.difficulty), self.difficulty as nat),
            },
    {
        let mut nonce: u64 = 0;
        loop
            invariant
                forall|m: u64|
                    m < nonce ==> !zero_prefixed(
                        pow_hash_of(*block, m, self.difficulty),
                        self.difficulty as nat,
                    ),
            decreases u64::MAX - nonce,
        {
            let hash = self.calculate_hash(block, nonce);
            if check_zero_prefix(hash.as_str(), self.difficulty) {
                return Some((nonce, hash));
            }
            if nonce == u64::MAX {
                return None;
            }
            nonce = nonce + 1;
        }
    }

    /// Finalizes the block with the least satisfying nonce; fails exactly
    /// when no 64-bit nonce can meet the target.
    pub fn execute_consensus(&mut self, block: &mut Block) -> (r: Result<ConsensusResult, String>)
        requires
            old(block).wf(),
        ensures
            *final(self) == *old(self),
            final(block).index == old(block).index,
            final(block).timestamp == old(block).timestamp,
            final(block).data == old(block).data,
            final(block).previous_hash == old(block).previous_hash,
            final(block).consensus_data@ == old(block).consensus_data@,
            final(block).wf(),
            (r is Ok) <==> (exists|m: u64|
                zero_prefixed(
                    #[trigger] pow_hash_of(*old(block), m, old(self).difficulty),
                    old(self).difficulty as nat,
                )),
            match r {
                Ok(res) => {
                    &&& final(block).difficulty == final(self).difficulty
                    &&& final(block).hash@ == pow_hash_of(
                        *final(block),
                        final(block).nonce,
                        final(self).difficulty,
                    )
                    &&& zero_prefixed(final(block).hash@, final(self).difficulty as nat)
                    &&& forall|m: u64|
                        m < final(block).nonce ==> !zero_prefixed(
                            pow_hash_of(*final(block), m, final(self).difficulty),
                            final(self).difficulty as nat,
                        )
                    &&& final(self).validates(*final(block))
                    &&& same_block(res.block, *final(block))
                    &&& res.proof_data.wf()
                    &&& res.proof_data@ == Map::<Seq<char>, Seq<char>>::empty().insert(
                        "nonce"@,
                        dec_of(final(block).nonce as nat),
                    ).insert("difficulty"@, dec_of(final(self).difficulty as nat)).insert(
                        "target"@,
                        char_repeat('0', final(self).difficulty as nat),
                    )
                    &&& res.energy_cost_micro == Some(pow_energy_micro(final(block).nonce))
                },
                Err(_) => *final(block) == *old(block),
            },
    {
        let exec_started = now_timestamp_millis();
        match self.mine_block(block) {
            Some(found) => {
                let (nonce, hash) = found;
                block.nonce = nonce;
                block.hash = hash;
                block.difficulty = self.difficulty;
                let mut proof_data = KvMap::new();
                proof_data.insert(String::from_str("nonce"), u64_to_dec(nonce));
                proof_data.insert(String::from_str("difficulty"), usize_to_dec(self.difficulty));
                proof_data.insert(String::from_str("target"), zeros_string(self.difficulty));
                let energy: u64 = match nonce.checked_mul(100) {
                    Some(v) => v,
                    None => u64::MAX,
                };
                let res = ConsensusResult {
                    block: block.clone(),
                    proof_data,
                    execution_time_ms: elapsed_ms(exec_started, now_timestamp_millis()),
                    energy_cost_micro: Some(energy),
                };
                proof {
                    assert forall|m: u64| m < block.nonce implies !zero_prefixed(
                        pow_hash_of(*block, m, self.difficulty),
                        self.difficulty as nat,
                    ) by {
                        assert(pow_msg(*block, m, self.difficulty) == pow_msg(
                            *old(block),
                            m,
                            old(self).difficulty,
                        ));
                        assert(!zero_prefixed(
                            pow_hash_of(*old(block), m, old(self).difficulty),
                            old(self).difficulty as nat,
                        ));
                    }
                }
                Ok(res)
            },
            None => Err(String::from_str("Mining failed: no nonce meets the difficulty target")),
        }
    }

    /// Re-derives the digest at the stored nonce and checks target and
    /// stored hash; pure.
    pub fn validate_block(&self, block: &Block) -> (r: bool)
        ensures
            r == self.validates(*block),
    {
        let hash = self.calculate_hash(block, block.nonce);
        let prefix_ok = check_zero_prefix(hash.as_str(), self.difficulty);
        let stored_ok = crate::encode::str_eq(hash.as_str(), block.hash.as_str());
        prefix_ok && stored_ok
    }

    pub fn get_algorithm_name(&self) -> (r: &'static str)
        ensures
            r@ == "Proof of Work"@,
    {
        "Proof of Work"
    }

    /// The adaptation rule over the chain's recent spacing.
    pub fn calculate_next_difficulty(&self, blocks: &Vec<Block>) -> (r: Option<usize>)
        ensures
            r == Some(self.next_difficulty_spec(blocks@)),
    {
        if blocks.len() < 2 {
            return Some(self.difficulty);
        }
        let lo: usize = if blocks.len() >= 10 {
            blocks.len() - 10
        } else {
            0
        };
        let mut total: i128 = 0;
        let mut i: usize = lo + 1;
        while i < blocks.len()
            invariant
                lo + 1 <= i <= blocks@.len(),
                total == sum_deltas(blocks@, lo as int, i as int),
                -(i - lo - 1) * 0x10000000000000000 <= total <= (i - lo - 1) * 0x10000000000000000,
                blocks@.len() - lo <= 10,
            decreases blocks@.len() - i,
        {
            let delta: i128 = (blocks[i].timestamp as i128) - (blocks[i - 1].timestamp as i128);
            total = total + delta;
            i = i + 1;
        }
        let count: i128 = (blocks.len() - lo - 1) as i128;
        let avg: i128 = total / count;
        let target: i128 = self.target_time_secs as i128;
        proof {
            assert(avg == div_trunc(
                sum_deltas(blocks@, lo as int, blocks@.len() as int),
                blocks@.len() - lo - 1,
            ));
            assert(target / 2 == div_trunc(self.target_time_secs as int, 2));
        }
        if avg < target / 2 {
            if self.difficulty < usize::MAX {
                Some(self.difficulty + 1)
            } else {
                Some(usize::MAX)
            }
        } else if avg > target * 2 {
            if self.difficulty > 0 {
                Some(self.difficulty - 1)
            } else {
                Some(0)
            }
        } else {
            Some(self.difficulty)
        }
    }

    /// Energy efficiency in thousandths: unity at difficulty zero, falling
    /// with the square of the difficulty.
    pub fn get_energy_efficiency(&self) -> (r: Option<u64>)
        ensures
            r == Some(
                (if self.difficulty == 0 {
                    1000u64
                } else {
                    (1000int / (self.difficulty * self.difficulty)) as u64
                }),
            ),
    {
        if self.difficulty == 0 {
            Some(1000)
        } else {
            let d = self.difficulty as u128;
            proof {
                assert(1 <= d as int * (d as int) <= (u64::MAX as int) * (u64::MAX as int))
                    by (nonlinear_arith)
                    requires
                        1 <= d as int <= u64::MAX as int,
                ;
            }
            Some((1000u128 / (d * d)) as u64)
        }
    }

    pub fn get_statistics(&self) -> (r: KvMap)
        ensures
            r.wf(),
            r@ == Map::<Seq<char>, Seq<char>>::empty().insert(
                "difficulty"@,
                dec_of(self.difficulty as nat),
            ).insert("target_time_seconds"@, dec_of(self.target_time_secs as nat)).insert(
                "algorithm_type"@,
                "computational_proof"@,
            ),
    {
        let mut stats = KvMap::new();
        stats.insert(String::from_str("difficulty"), usize_to_dec(self.difficulty));
        stats.insert(String::from_str("target_time_seconds"), u64_to_dec(self.target_time_secs));
        stats.insert(String::from_str("algorithm_type"), String::from_str("computational_proof"));
        stats
    }

    /// Reads `difficulty` and `target_time_seconds` from the parameters;
    /// fails on the first value that does not parse, leaving the state as it
    /// was up to that point.
    pub fn configure(&mut self, config: ConsensusConfig) -> (r: Result<(), String>)
        requires
            config.additional_params.wf(),
        ensures
            configure_post(*old(self), *final(self), config.additional_params@, r is Ok),
    {
        match config.additional_params.get("difficulty") {
            Some(text) => {
                match parse_dec_usize(text.as_str()) {
                    Some(v) => {
                        self.difficulty = v;
                    },
                    None => {
                        return Err(String::from_str("Invalid difficulty parameter"));
                    },
                }
            },
            None => {},
        }
        match config.additional_params.get("target_time_seconds") {
            Some(text) => {
                match parse_dec_u64(text.as_str()) {
                    Some(v) => {
                        self.target_time_secs = v;
                    },
                    None => {
                        return Err(String::from_str("Invalid target_time parameter"));
                    },
                }
            },
            None => {},
        }
        Ok(())
    }
}

/// Whether the first `d` characters of `s` exist and are `'0'`.
pub fn check_zero_prefix(s: &str, d: usize) -> (r: bool)
    ensures
        r == zero_prefixed(s@, d as nat),
{
    let n = s.unicode_len();
    if d > n {
        return false;
    }
    let mut i: usize = 0;
    while i < d
        invariant
            n == s@.len(),
            d <= n,
            i <= d,
            forall|j: int| 0 <= j < i ==> s@[j] == '0',
        decreases d - i,
    {
        if s.get_char(i) != '0' {
            return false;
        }
        i = i + 1;
    }
    true
}


/// What `configure` leaves behind, for a parameter map `m`: values applied
/// left to right, stopping at the first one that does not parse; `ok` says
/// whether the call returned without error.
pub open spec fn configure_post(
    pre: ProofOfWork,
    post: ProofOfWork,
    m: Map<Seq<char>, Seq<char>>,
    ok: bool,
) -> bool {
    &&& (if m.contains_key("difficulty"@) && dec_parse_usize(m["difficulty"@]) is None {
            &&& !ok
            &&& post == pre
        } else {
            let d = if m.contains_key("difficulty"@) {
                dec_parse_usize(m["difficulty"@])->Some_0
            } else {
                pre.difficulty
            };
            if m.contains_key("target_time_seconds"@) && dec_parse_u64(
                m["target_time_seconds"@],
            ) is None {
                &&& !ok
                &&& post.difficulty == d
                &&& post.target_time_secs == pre.target_time_secs
            } else {
                &&& ok
                &&& post.difficulty == d
                &&& post.target_time_secs == (if m.contains_key(
                    "target_time_seconds"@,
                ) {
                    dec_parse_u64(m["target_time_seconds"@])->Some_0
                } else {
                    pre.target_time_secs
                })
            }
        }
    )
}

} // verus!
