//! The block record every algorithm stamps: identity fields, the proof
//! fields an algorithm fills, and the proof-metadata map.

use vstd::prelude::*;
use crate::encode::{char_repeat, dec_of, dec_of_int, i64_to_dec, u64_to_dec, usize_to_dec};
use crate::hashing::{sha256_hex, sha256_hex_of};
use crate::kvmap::KvMap;
use crate::clock::now_timestamp;

verus! {

pub struct Block {
    pub index: u64,
    pub timestamp: i64,
    pub data: String,
    pub previous_hash: String,
    pub hash: String,
    pub nonce: u64,
    pub difficulty: usize,
    pub consensus_data: KvMap,
}

/// The identity fields of a block, as every proof message opens with them:
/// index, timestamp, payload, previous digest.
pub open spec fn core_msg(b: Block) -> Seq<char> {
    dec_of(b.index as nat) + dec_of_int(b.timestamp as int) + b.data@ + b.previous_hash@
}

/// The message whose digest is the block's basic hash.
pub open spec fn basic_msg(b: Block) -> Seq<char> {
    core_msg(b) + dec_of(b.nonce as nat) + dec_of(b.difficulty as nat)
}

/// The basic digest of a block: identity fields, nonce and difficulty.
pub open spec fn basic_hash_of(b: Block) -> Seq<char> {
    sha256_hex_of(basic_msg(b))
}

/// Two blocks that agree on every field, the metadata compared as a map.
pub open spec fn same_block(a: Block, b: Block) -> bool {
    &&& a.index == b.index
    &&& a.timestamp == b.timestamp
    &&& a.data == b.data
    &&& a.previous_hash == b.previous_hash
    &&& a.hash == b.hash
    &&& a.nonce == b.nonce
    &&& a.difficulty == b.difficulty
    &&& a.consensus_data@ == b.consensus_data@
}

impl Block {
    pub open spec fn wf(&self) -> bool {
        self.consensus_data.wf()
    }

    /// A fresh unfinalized block: empty hash, zero nonce, default difficulty;
    /// the timestamp is read from the wall clock.
    pub fn new(index: u64, data: String, previous_hash: String) -> (b: Block)
        ensures
            b.index == index,
            b.data == data,
            b.previous_hash == previous_hash,
            b.hash@ == Seq::<char>::empty(),
            b.nonce == 0,
            b.difficulty == 4,
            b.consensus_data@ == Map::<Seq<char>, Seq<char>>::empty(),
            b.wf(),
    {
        let timestamp = now_timestamp();
        Block {
            index,
            timestamp,
            data,
            previous_hash,
            hash: String::new(),
            nonce: 0,
            difficulty: 4,
            consensus_data: KvMap::new(),
        }
    }

    /// A fresh unfinalized block with an explicit difficulty.
    pub fn new_with_difficulty(index: u64, data: String, previous_hash: String, difficulty: usize) -> (b:
        Block)
        ensures
            b.index == index,
            b.data == data,
            b.previous_hash == previous_hash,
            b.hash@ == Seq::<char>::empty(),
            b.nonce == 0,
            b.difficulty == difficulty,
            b.consensus_data@ == Map::<Seq<char>, Seq<char>>::empty(),
            b.wf(),
    {
        let timestamp = now_timestamp();
        Block {
            index,
            timestamp,
            data,
            previous_hash,
            hash: String::new(),
            nonce: 0,
            difficulty,
            consensus_data: KvMap::new(),
        }
    }

    /// The block's identity fields as one message text.
    pub fn core_message(&self) -> (s: String)
        ensures
            s@ == core_msg(*self),
    {
        let mut s = u64_to_dec(self.index);
        let ts = i64_to_dec(self.timestamp);
        s.append(ts.as_str());
        s.append(self.data.as_str());
        s.append(self.previous_hash.as_str());
        s
    }

    /// The basic digest over the block's fields at its stored nonce.
    pub fn calculate_basic_hash(&self) -> (r: String)
        ensures
            r@ == basic_hash_of(*self),
            r@.len() == 64,
    {
        let mut msg = self.core_message();
        let nonce_text = u64_to_dec(self.nonce);
        msg.append(nonce_text.as_str());
        let difficulty_text = usize_to_dec(self.difficulty);
        msg.append(difficulty_text.as_str());
        sha256_hex(msg.as_str())
    }

    /// Alias kept for callers of the older name.
    pub fn calculate_hash(&self) -> (r: String)
        ensures
            r@ == basic_hash_of(*self),
            r@.len() == 64,
    {
        self.calculate_basic_hash()
    }

    /// Stamps this block with a work proof at its own declared difficulty;
    /// on the (practically impossible) exhaustion of the nonce space the
    /// block is left as it was.
    pub fn mine_block(&mut self)
        requires
            old(self).wf(),
        ensures
            final(self).wf(),
            final(self).index == old(self).index,
            final(self).timestamp == old(self).timestamp,
            final(self).data == old(self).data,
            final(self).previous_hash == old(self).previous_hash,
            final(self).difficulty == old(self).difficulty,
            (exists|m: u64|
                crate::consensus::pow::zero_prefixed(
                    #[trigger] crate::consensus::pow::pow_hash_of(
                        *old(self),
                        m,
                        old(self).difficulty,
                    ),
                    old(self).difficulty as nat,
                )) ==> {
                &&& final(self).hash@ == crate::consensus::pow::pow_hash_of(
                    *final(self),
                    final(self).nonce,
                    final(self).difficulty,
                )
                &&& crate::consensus::pow::zero_prefixed(
                    final(self).hash@,
                    final(self).difficulty as nat,
                )
                &&& forall|m: u64|
                    m < final(self).nonce ==> !crate::consensus::pow::zero_prefixed(
                        crate::consensus::pow::pow_hash_of(*final(self), m, final(self).difficulty),
                        final(self).difficulty as nat,
                    )
                &&& final(self).consensus_data@ == Map::<Seq<char>, Seq<char>>::empty().insert(
                    "nonce"@,
                    dec_of(final(self).nonce as nat),
                ).insert("difficulty"@, dec_of(final(self).difficulty as nat)).insert(
                    "target"@,
                    char_repeat('0', final(self).difficulty as nat),
                )
            },
            !(exists|m: u64|
                crate::consensus::pow::zero_prefixed(
                    #[trigger] crate::consensus::pow::pow_hash_of(
                        *old(self),
                        m,
                        old(self).difficulty,
                    ),
                    old(self).difficulty as nat,
                )) ==> *final(self) == *old(self),
    {
        let mut pow = crate::consensus::pow::ProofOfWork::new(self.difficulty);
        match pow.execute_consensus(self) {
            Ok(result) => {
                let ghost stamped = *self;
                self.set_consensus_data(result.proof_data);
                proof {
                    assert(crate::consensus::pow::pow_msg(*self, self.nonce, self.difficulty)
                        == crate::consensus::pow::pow_msg(stamped, stamped.nonce, self.difficulty));
                    assert forall|m: u64|
                        m < self.nonce implies !crate::consensus::pow::zero_prefixed(
                        crate::consensus::pow::pow_hash_of(*self, m, self.difficulty),
                        self.difficulty as nat,
                    ) by {
                        assert(crate::consensus::pow::pow_msg(*self, m, self.difficulty)
                            == crate::consensus::pow::pow_msg(stamped, m, self.difficulty));
                        assert(!crate::consensus::pow::zero_prefixed(
                            crate::consensus::pow::pow_hash_of(stamped, m, self.difficulty),
                            self.difficulty as nat,
                        ));
                    }
                }
            },
            Err(_) => {
                // no 64-bit nonce meets the target; the block stays unstamped
            },
        }
    }

    /// Replaces the proof-metadata map.
    pub fn set_consensus_data(&mut self, data: KvMap)
        requires
            data.wf(),
        ensures
            final(self).consensus_data@ == data@,
            final(self).wf(),
            final(self).index == old(self).index,
            final(self).timestamp == old(self).timestamp,
            final(self).data == old(self).data,
            final(self).previous_hash == old(self).previous_hash,
            final(self).hash == old(self).hash,
            final(self).nonce == old(self).nonce,
            final(self).difficulty == old(self).difficulty,
    {
        self.consensus_data = data;
    }

    /// One proof-metadata value, if present.
    pub fn get_consensus_data(&self, key: &str) -> (r: Option<&String>)
        requires
            self.wf(),
        ensures
            match r {
                Some(v) => self.consensus_data@.contains_key(key@) && v@
                    == self.consensus_data@[key@],
                None => !self.consensus_data@.contains_key(key@),
            },
    {
        self.consensus_data.get(key)
    }

    /// Whether the block's metadata names the given algorithm.
    pub fn has_consensus_type(&self, consensus_type: &str) -> (r: bool)
        requires
            self.wf(),
        ensures
            r == (self.consensus_data@.contains_key("algorithm_name"@)
                && self.consensus_data@["algorithm_name"@] == consensus_type@),
    {
        match self.consensus_data.get("algorithm_name") {
            Some(v) => crate::encode::str_eq(v.as_str(), consensus_type),
            None => false,
        }
    }
}

impl Clone for Block {
    fn clone(&self) -> (r: Self)
        ensures
            same_block(r, *self),
            r.wf() <==> self.wf(),
    {
        Block {
            index: self.index,
            timestamp: self.timestamp,
            data: self.data.clone(),
            previous_hash: self.previous_hash.clone(),
            hash: self.hash.clone(),
            nonce: self.nonce,
            difficulty: self.difficulty,
            consensus_data: self.consensus_data.clone(),
        }
    }
}

} // verus!
