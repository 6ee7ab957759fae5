//! The standalone miner: owns one block and a difficulty, searches for the
//! smallest satisfying nonce and re-checks the stored proof.

use vstd::prelude::*;
use crate::block::Block;
use crate::consensus::pow::{check_zero_prefix, pow_hash_of, zero_prefixed};
use crate::encode::{str_eq, u64_to_dec, usize_to_dec};
use crate::hashing::sha256_hex;

verus! {

pub struct ProofOfWork {
    pub block: Block,
    pub difficulty: usize,
}

impl ProofOfWork {
    pub fn new(block: Block, difficulty: usize) -> (r: ProofOfWork)
        ensures
            r.block == block,
            r.difficulty == difficulty,
    {
        ProofOfWork { block, difficulty }
    }

    /// The digest of the owned block's fields at a candidate nonce; the
    /// block's own declared difficulty enters the message, while the
    /// miner's difficulty sets the target length.
    fn calculate_hash(&self, nonce: u64) -> (r: String)
        ensures
            r@ == pow_hash_of(self.block, nonce, self.block.difficulty),
    {
        let mut msg = self.block.core_message();
        let nonce_text = u64_to_dec(nonce);
        msg.append(nonce_text.as_str());
        let difficulty_text = usize_to_dec(self.block.difficulty);
        msg.append(difficulty_text.as_str());
        sha256_hex(msg.as_str())
    }

    /// The exhaustive search from nonce zero; on success the owned block is
    /// stamped with the least satisfying nonce and its digest. When no
    /// 64-bit nonce meets the target, the final candidate is returned with
    /// the block left unstamped.
    pub fn mine_block(&mut self) -> (r: (u64, String))
        ensures
            r.1@ == pow_hash_of(old(self).block, r.0, old(self).block.difficulty),
            zero_prefixed(r.1@, old(self).difficulty as nat) ==> {
                &&& final(self).difficulty == old(self).difficulty
                &&& final(self).block.index == old(self).block.index
                &&& final(self).block.timestamp == old(self).block.timestamp
                &&& final(self).block.data == old(self).block.data
                &&& final(self).block.previous_hash == old(self).block.previous_hash
                &&& final(self).block.difficulty == old(self).block.difficulty
                &&& final(self).block.consensus_data == old(self).block.consensus_data
                &&& final(self).block.nonce == r.0
                &&& final(self).block.hash@ == r.1@
            },
            !zero_prefixed(r.1@, old(self).difficulty as nat) ==> *final(self) == *old(self)
                && (forall|m: u64|
                !zero_prefixed(
                    pow_hash_of(old(self).block, m, old(self).block.difficulty),
                    old(self).difficulty as nat,
                )),
            forall|m: u64|
                m < r.0 ==> !zero_prefixed(
                    pow_hash_of(old(self).block, m, old(self).block.difficulty),
                    old(self).difficulty as nat,
                ),
    {
        let mut nonce: u64 = 0;
        loop
            invariant
                *self == *old(self),
                forall|m: u64|
                    m < nonce ==> !zero_prefixed(
                        pow_hash_of(self.block, m, self.block.difficulty),
                        self.difficulty as nat,
                    ),
            decreases u64::MAX - nonce,
        {
            let hash = self.calculate_hash(nonce);
            if check_zero_prefix(hash.as_str(), self.difficulty) {
                self.block.nonce = nonce;
                self.block.hash = hash.clone();
                return (nonce, hash);
            }
            if nonce == u64::MAX {
                return (nonce, hash);
            }
            nonce = nonce + 1;
        }
    }

    /// Re-derives the digest at the stored nonce and checks target and
    /// stored hash.
    pub fn validate(&self) -> (r: bool)
        ensures
            r == (zero_prefixed(
                pow_hash_of(self.block, self.block.nonce, self.block.difficulty),
                self.difficulty as nat,
            ) && self.block.hash@ == pow_hash_of(
                self.block,
                self.block.nonce,
                self.block.difficulty,
            )),
    {
        let hash = self.calculate_hash(self.block.nonce);
        let prefix_ok = check_zero_prefix(hash.as_str(), self.difficulty);
        let stored_ok = str_eq(hash.as_str(), self.block.hash.as_str());
        prefix_ok && stored_ok
    }
}

} // verus!
