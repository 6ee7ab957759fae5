//! Proof of Authority: a fixed list of identities signs blocks in rotation,
//! skipping inactive entries, with runtime addition and removal.

use vstd::prelude::*;
use crate::block::{core_msg, same_block, Block};
use crate::consensus::traits::{ConsensusConfig, ConsensusResult};
use crate::encode::{
    dec_of, dec_parse_u64, dec_parse_usize, parse_dec_u64, parse_dec_usize, str_eq, u64_to_dec,
    usize_to_dec,
};
use crate::clock::{elapsed_ms, now_timestamp_millis};
use crate::hashing::{sha256_hex, sha256_hex_of};
use crate::kvmap::KvMap;

verus! {

pub struct Authority {
    pub address: String,
    pub public_key: String,
    pub reputation_score: u64,
    pub is_active: bool,
}

impl Clone for Authority {
    fn clone(&self) -> (r: Self)
        ensures
            r == *self,
    {
        Authority {
            address: self.address.clone(),
            public_key: self.public_key.clone(),
            reputation_score: self.reputation_score,
            is_active: self.is_active,
        }
    }
}

pub struct ProofOfAuthority {
    pub authorities: Vec<Authority>,
    pub current_authority_index: usize,
    /// Target spacing between blocks, in whole seconds.
    pub block_interval_secs: u64,
    pub required_confirmations: usize,
}

/// The message an authority signs: identity fields, address, public key.
pub open spec fn poa_msg(b: Block, a: Authority) -> Seq<char> {
    core_msg(b) + a.address@ + a.public_key@
}

pub open spec fn poa_sig_of(b: Block, a: Authority) -> Seq<char> {
    sha256_hex_of(poa_msg(b, a))
}

/// The position rotation lands on when it starts scanning at `start` with
/// `k` probes left: the first active entry, or `start + k (mod n)` — the
/// scan's own end — when none of the probed entries is active.
pub open spec fn first_active_from(auths: Seq<Authority>, start: int, k: nat) -> int
    decreases k,
{
    if k == 0 {
        start
    } else if 0 <= start < auths.len() && auths[start].is_active {
        start
    } else {
        first_active_from(
            auths,
            if start + 1 >= auths.len() {
                0int
            } else {
                start + 1
            },
            (k - 1) as nat,
        )
    }
}

/// Where one rotation step moves the index: the first active entry at or
/// after the next position, wrapping, and back to the next position itself
/// when a full cycle finds none.
pub open spec fn rotate_spec(auths: Seq<Authority>, idx: int) -> int {
    let n = auths.len() as int;
    let start = if idx + 1 >= n {
        0int
    } else {
        idx + 1
    };
    first_active_from(auths, start, n as nat)
}

pub open spec fn count_active(auths: Seq<Authority>) -> nat
    decreases auths.len(),
{
    if auths.len() == 0 {
        0
    } else {
        count_active(auths.drop_last()) + if auths.last().is_active {
            1nat
        } else {
            0nat
        }
    }
}

impl ProofOfAuthority {
    /// A block carries a valid authority proof when its nonce names an
    /// existing, active authority whose signature equals the stored hash.
    pub open spec fn validates(self, b: Block) -> bool {
        &&& b.nonce < self.authorities@.len()
        &&& self.authorities@[b.nonce as int].is_active
        &&& b.hash@ == poa_sig_of(b, self.authorities@[b.nonce as int])
    }

    /// The authority the rotation currently rests on, when it exists and is
    /// active.
    pub open spec fn current_authority_spec(self) -> Option<Authority> {
        if self.current_authority_index < self.authorities@.len()
            && self.authorities@[self.current_authority_index as int].is_active {
            Some(self.authorities@[self.current_authority_index as int])
        } else {
            None
        }
    }

    /// Builds the list from addresses: each entry active, reputation 100,
    /// with a generated public-key stub.
    pub fn new(validators: Vec<String>) -> (r: ProofOfAuthority)
        ensures
            r.authorities@.len() == validators@.len(),
            forall|i: int|
                0 <= i < validators@.len() ==> {
                    &&& (#[trigger] r.authorities@[i]).address@ == validators@[i]@
                    &&& r.authorities@[i].public_key@ == "pubkey_"@ + dec_of(i as nat)
                    &&& r.authorities@[i].reputation_score == 100
                    &&& r.authorities@[i].is_active
                },
            r.current_authority_index == 0,
            r.block_interval_secs == 15,
            r.required_confirmations == 2,
    {
        let mut auth_list: Vec<Authority> = Vec::new();
        let n = validators.len();
        let mut i: usize = 0;
        while i < n
            invariant
                n == validators@.len(),
                i <= n,
                auth_list@.len() == i,
                forall|j: int|
                    0 <= j < i ==> {
                        &&& (#[trigger] auth_list@[j]).address@ == validators@[j]@
                        &&& auth_list@[j].public_key@ == "pubkey_"@ + dec_of(j as nat)
                        &&& auth_list@[j].reputation_score == 100
                        &&& auth_list@[j].is_active
                    },
            decreases n - i,
        {
            let mut key = String::new();
            key.append("pubkey_");
            let num = usize_to_dec(i);
            key.append(num.as_str());
            let addr = validators[i].clone();
            auth_list.push(
                Authority {
                    address: addr,
                    public_key: key,
                    reputation_score: 100,
                    is_active: true,
                },
            );
            i = i + 1;
        }
        ProofOfAuthority {
            authorities: auth_list,
            current_authority_index: 0,
            block_interval_secs: 15,
            required_confirmations: 2,
        }
    }

    /// Adds an authority; rejected when the address is already present.
    pub fn add_authority(&mut self, address: String, public_key: String) -> (r: Result<
        (),
        String,
    >)
        ensures
            (r is Err) <==> (exists|i: int|
                0 <= i < old(self).authorities@.len() && (
                #[trigger] old(self).authorities@[i]).address@ == address@),
            r is Err ==> *final(self) == *old(self),
            r is Ok ==> {
                &&& final(self).authorities@.len() == old(self).authorities@.len() + 1
                &&& forall|i: int|
                    0 <= i < old(self).authorities@.len() ==> final(self).authorities@[i] == old(
                        self,
                    ).authorities@[i]
                &&& final(self).authorities@.last().address@ == address@
                &&& final(self).authorities@.last().public_key@ == public_key@
                &&& final(self).authorities@.last().reputation_score == 100
                &&& final(self).authorities@.last().is_active
                &&& final(self).current_authority_index == old(self).current_authority_index
                &&& final(self).block_interval_secs == old(self).block_interval_secs
                &&& final(self).required_confirmations == old(self).required_confirmations
            },
    {
        let n = self.authorities.len();
        let mut i: usize = 0;
        while i < n
            invariant
                n == self.authorities@.len(),
                i <= n,
                *self == *old(self),
                forall|j: int|
                    0 <= j < i ==> (#[trigger] self.authorities@[j]).address@ != address@,
            decreases n - i,
        {
            if str_eq(self.authorities[i].address.as_str(), address.as_str()) {
                return Err(String::from_str("Authority already exists"));
            }
            i = i + 1;
        }
        self.authorities.push(
            Authority { address, public_key, reputation_score: 100, is_active: true },
        );
        Ok(())
    }

    /// Removes the authority with the given address; rejected when the
    /// address is unknown or it is the last authority left. The rotation
    /// index is reset to zero when it falls off the end.
    pub fn remove_authority(&mut self, address: &str) -> (r: Result<(), String>)
        ensures
            ({
                let found = exists|i: int|
                    0 <= i < old(self).authorities@.len() && (
                    #[trigger] old(self).authorities@[i]).address@ == address@;
                &&& (r is Ok) <==> (found && old(self).authorities@.len() > 1)
                &&& (r is Err) ==> *final(self) == *old(self)
            }),
            r is Ok ==> ({
                let pos = choose|i: int|
                    0 <= i < old(self).authorities@.len() && (
                    #[trigger] old(self).authorities@[i]).address@ == address@;
                let first = choose|i: int|
                    {
                        &&& 0 <= i < old(self).authorities@.len()
                        &&& (#[trigger] old(self).authorities@[i]).address@ == address@
                        &&& forall|j: int|
                            0 <= j < i ==> (#[trigger] old(self).authorities@[j]).address@
                                != address@
                    };
                &&& final(self).authorities@ == old(self).authorities@.remove(first)
                &&& final(self).current_authority_index == (
                if old(self).current_authority_index >= final(self).authorities@.len() {
                    0
                } else {
                    old(self).current_authority_index
                })
                &&& final(self).block_interval_secs == old(self).block_interval_secs
                &&& final(self).required_confirmations == old(self).required_confirmations
            }),
    {
        let pos = match self.find_authority(address) {
            Some(p) => p,
            None => {
                return Err(String::from_str("Authority not found"));
            },
        };
        if self.authorities.len() <= 1 {
            return Err(String::from_str("Cannot remove last authority"));
        }
        proof {
            let first = choose|i: int|
                {
                    &&& 0 <= i < old(self).authorities@.len()
                    &&& (#[trigger] old(self).authorities@[i]).address@ == address@
                    &&& forall|j: int|
                        0 <= j < i ==> (#[trigger] old(self).authorities@[j]).address@ != address@
                };
            assert(first == pos as int);
        }
        let _ = self.authorities.remove(pos);
        if self.current_authority_index >= self.authorities.len() {
            self.current_authority_index = 0;
        }
        Ok(())
    }

    /// The first position holding the given address, scanning from the
    /// front.
    fn find_authority(&self, address: &str) -> (r: Option<usize>)
        ensures
            match r {
                Some(p) => {
                    &&& p < self.authorities@.len()
                    &&& self.authorities@[p as int].address@ == address@
                    &&& forall|j: int|
                        0 <= j < p ==> (#[trigger] self.authorities@[j]).address@ != address@
                },
                None => forall|j: int|
                    0 <= j < self.authorities@.len() ==> (
                    #[trigger] self.authorities@[j]).address@ != address@,
            },
    {
        let n = self.authorities.len();
        let mut pos: usize = 0;
        while pos < n
            invariant
                n == self.authorities@.len(),
                pos <= n,
                forall|j: int|
                    0 <= j < pos ==> (#[trigger] self.authorities@[j]).address@ != address@,
            decreases n - pos,
        {
            if str_eq(self.authorities[pos].address.as_str(), address) {
                return Some(pos);
            }
            pos = pos + 1;
        }
        None
    }

    /// The authority whose turn it is, when the index rests on an active
    /// entry.
    fn get_current_authority(&self) -> (r: Option<&Authority>)
        ensures
            match r {
                Some(a) => self.current_authority_spec() == Some(*a),
                None => self.current_authority_spec() is None,
            },
    {
        if self.current_authority_index < self.authorities.len() {
            let a = &self.authorities[self.current_authority_index];
            if a.is_active {
                Some(a)
            } else {
                None
            }
        } else {
            None
        }
    }

    /// One rotation step: advance to the next position, then scan forward
    /// (wrapping) to the first active authority; a full fruitless cycle
    /// leaves the index at the next position.
    fn rotate_authority(&mut self)
        requires
            old(self).authorities@.len() > 0,
        ensures
            final(self).authorities == old(self).authorities,
            final(self).block_interval_secs == old(self).block_interval_secs,
            final(self).required_confirmations == old(self).required_confirmations,
            final(self).current_authority_index == rotate_spec(
                old(self).authorities@,
                old(self).current_authority_index as int,
            ),
            final(self).current_authority_index < old(self).authorities@.len(),
    {
        let n = self.authorities.len();
        let start: usize = if self.current_authority_index >= n - 1 {
            0
        } else {
            self.current_authority_index + 1
        };
        let mut idx = start;
        let mut steps: usize = 0;
        while steps < n
            invariant
                n == self.authorities@.len(),
                n > 0,
                start < n,
                idx < n,
                steps <= n,
                *self == *old(self),
                start == (if old(self).current_authority_index + 1 >= n {
                    0int
                } else {
                    old(self).current_authority_index + 1
                }),
                idx as int == wrap_index(start as int, steps as int, n as int),
                first_active_from(self.authorities@, start as int, n as nat) == first_active_from(
                    self.authorities@,
                    idx as int,
                    (n - steps) as nat,
                ),
            decreases n - steps,
        {
            if self.authorities[idx].is_active {
                self.current_authority_index = idx;
                return ;
            }
            idx = if idx + 1 >= n {
                0
            } else {
                idx + 1
            };
            steps = steps + 1;
        }
        proof {
            assert(idx as int == start as int);
            assert(first_active_from(self.authorities@, idx as int, 0) == idx as int);
        }
        self.current_authority_index = start;
    }

    /// The signature of an authority over a block's identity fields.
    fn create_authority_signature(&self, block: &Block, authority: &Authority) -> (r: String)
        ensures
            r@ == poa_sig_of(*block, *authority),
    {
        let mut msg = block.core_message();
        msg.append(authority.address.as_str());
        msg.append(authority.public_key.as_str());
        sha256_hex(msg.as_str())
    }

    /// Whether any active authority's signature over the block equals the
    /// given text.
    pub fn validate_authority_signature(&self, block: &Block, signature: &str) -> (r: bool)
        ensures
            r == (exists|i: int|
                {
                    &&& 0 <= i < self.authorities@.len()
                    &&& (#[trigger] self.authorities@[i]).is_active
                    &&& poa_sig_of(*block, self.authorities@[i]) == signature@
                }),
    {
        let n = self.authorities.len();
        let mut i: usize = 0;
        while i < n
            invariant
                n == self.authorities@.len(),
                i <= n,
                forall|j: int|
                    0 <= j < i ==> !((#[trigger] self.authorities@[j]).is_active && poa_sig_of(
                        *block,
                        self.authorities@[j],
                    ) == signature@),
            decreases n - i,
        {
            if self.authorities[i].is_active {
                let expected = self.create_authority_signature(block, &self.authorities[i]);
                if str_eq(expected.as_str(), signature) {
                    return true;
                }
            }
            i = i + 1;
        }
        false
    }

    /// Signs the block with the current authority, stores its position as
    /// the nonce, and rotates; fails exactly when no active authority is at
    /// the current position.
    pub fn execute_consensus(&mut self, block: &mut Block) -> (r: Result<ConsensusResult, String>)
        requires
            old(block).wf(),
        ensures
            final(self).authorities == old(self).authorities,
            final(self).block_interval_secs == old(self).block_interval_secs,
            final(self).required_confirmations == old(self).required_confirmations,
            final(block).index == old(block).index,
            final(block).timestamp == old(block).timestamp,
            final(block).data == old(block).data,
            final(block).previous_hash == old(block).previous_hash,
            final(block).consensus_data@ == old(block).consensus_data@,
            final(block).wf(),
            (r is Ok) <==> (old(self).current_authority_spec() is Some),
            match r {
                Ok(res) => {
                    let auth = old(self).current_authority_spec()->Some_0;
                    &&& final(block).nonce == old(self).current_authority_index
                    &&& final(block).difficulty == old(block).difficulty
                    &&& final(block).hash@ == poa_sig_of(*final(block), auth)
                    &&& final(self).validates(*final(block))
                    &&& final(self).current_authority_index == rotate_spec(
                        old(self).authorities@,
                        old(self).current_authority_index as int,
                    )
                    &&& final(self).current_authority_index < old(self).authorities@.len()
                    &&& same_block(res.block, *final(block))
                    &&& res.proof_data.wf()
                    &&& res.proof_data@ == Map::<Seq<char>, Seq<char>>::empty().insert(
                        "authority_address"@,
                        auth.address@,
                    ).insert("authority_index"@, dec_of(final(block).nonce as nat)).insert(
                        "authority_reputation"@,
                        dec_of(auth.reputation_score as nat),
                    ).insert("signature"@, final(block).hash@).insert(
                        "block_interval_seconds"@,
                        dec_of(old(self).block_interval_secs as nat),
                    )
                    &&& res.energy_cost_micro == Some(100u64)
                },
                Err(_) => {
                    &&& *final(block) == *old(block)
                    &&& *final(self) == *old(self)
                },
            },
    {
        let exec_started = now_timestamp_millis();
        let authority = match self.get_current_authority() {
            Some(a) => a.clone(),
            None => {
                return Err(String::from_str("No active authorities available"));
            },
        };
        let signature = self.create_authority_signature(block, &authority);
        block.hash = signature.clone();
        block.nonce = self.current_authority_index as u64;
        let ghost old_index = self.current_authority_index;
        self.rotate_authority();
        let mut proof_data = KvMap::new();
        proof_data.insert(String::from_str("authority_address"), authority.address.clone());
        proof_data.insert(String::from_str("authority_index"), u64_to_dec(block.nonce));
        proof_data.insert(
            String::from_str("authority_reputation"),
            u64_to_dec(authority.reputation_score),
        );
        proof_data.insert(String::from_str("signature"), signature);
        proof_data.insert(
            String::from_str("block_interval_seconds"),
            u64_to_dec(self.block_interval_secs),
        );
        let res = ConsensusResult {
            block: block.clone(),
            proof_data,
            execution_time_ms: elapsed_ms(exec_started, now_timestamp_millis()),
            energy_cost_micro: Some(100),
        };
        proof {
            assert(poa_msg(*block, old(self).current_authority_spec()->Some_0) == poa_msg(
                *old(block),
                old(self).current_authority_spec()->Some_0,
            ));
        }
        Ok(res)
    }

    /// Re-derives the named authority's signature and compares; pure.
    pub fn validate_block(&self, block: &Block) -> (r: bool)
        ensures
            r == self.validates(*block),
    {
        if block.nonce >= self.authorities.len() as u64 {
            return false;
        }
        let authority = &self.authorities[block.nonce as usize];
        if !authority.is_active {
            return false;
        }
        let expected = self.create_authority_signature(block, authority);
        str_eq(expected.as_str(), block.hash.as_str())
    }

    pub fn get_algorithm_name(&self) -> (r: &'static str)
        ensures
            r@ == "Proof of Authority"@,
    {
        "Proof of Authority"
    }

    /// Energy efficiency in thousandths.
    pub fn get_energy_efficiency(&self) -> (r: Option<u64>)
        ensures
            r == Some(995u64),
    {
        Some(995)
    }

    pub fn get_statistics(&self) -> (r: KvMap)
        ensures
            r.wf(),
            r@ == ({
                let base = Map::<Seq<char>, Seq<char>>::empty().insert(
                    "total_authorities"@,
                    dec_of(self.authorities@.len()),
                ).insert("active_authorities"@, dec_of(count_active(self.authorities@))).insert(
                    "current_authority_index"@,
                    dec_of(self.current_authority_index as nat),
                ).insert("block_interval_seconds"@, dec_of(self.block_interval_secs as nat)).insert(
                    "required_confirmations"@,
                    dec_of(self.required_confirmations as nat),
                );
                match self.current_authority_spec() {
                    Some(a) => base.insert("current_authority"@, a.address@).insert(
                        "current_authority_reputation"@,
                        dec_of(a.reputation_score as nat),
                    ),
                    None => base,
                }
            }),
    {
        let n = self.authorities.len();
        let mut active: usize = 0;
        let mut i: usize = 0;
        while i < n
            invariant
                n == self.authorities@.len(),
                i <= n,
                active <= i,
                active == count_active(self.authorities@.take(i as int)),
            decreases n - i,
        {
            if self.authorities[i].is_active {
                active = active + 1;
            }
            proof {
                assert(self.authorities@.take(i + 1).drop_last() =~= self.authorities@.take(
                    i as int,
                ));
            }
            i = i + 1;
        }
        proof {
            assert(self.authorities@.take(n as int) =~= self.authorities@);
        }
        let mut stats = KvMap::new();
        stats.insert(String::from_str("total_authorities"), usize_to_dec(self.authorities.len()));
        stats.insert(String::from_str("active_authorities"), usize_to_dec(active));
        stats.insert(
            String::from_str("current_authority_index"),
            usize_to_dec(self.current_authority_index),
        );
        stats.insert(
            String::from_str("block_interval_seconds"),
            u64_to_dec(self.block_interval_secs),
        );
        stats.insert(
            String::from_str("required_confirmations"),
            usize_to_dec(self.required_confirmations),
        );
        match self.get_current_authority() {
            Some(a) => {
                let addr = a.address.clone();
                let rep = u64_to_dec(a.reputation_score);
                stats.insert(String::from_str("current_authority"), addr);
                stats.insert(String::from_str("current_authority_reputation"), rep);
            },
            None => {},
        }
        stats
    }

    /// Reads `block_interval_seconds` and `required_confirmations`; fails on
    /// the first value that does not parse.
    pub fn configure(&mut self, config: ConsensusConfig) -> (r: Result<(), String>)
        requires
            config.additional_params.wf(),
        ensures
            configure_post(*old(self), *final(self), config.additional_params@, r is Ok),
    {
        match config.additional_params.get("block_interval_seconds") {
            Some(text) => {
                match parse_dec_u64(text.as_str()) {
                    Some(v) => {
                        self.block_interval_secs = v;
                    },
                    None => {
                        return Err(
                            String::from_str("Invalid block_interval_seconds parameter"),
                        );
                    },
                }
            },
            None => {},
        }
        match config.additional_params.get("required_confirmations") {
            Some(text) => {
                match parse_dec_usize(text.as_str()) {
                    Some(v) => {
                        self.required_confirmations = v;
                    },
                    None => {
                        return Err(
                            String::from_str("Invalid required_confirmations parameter"),
                        );
                    },
                }
            },
            None => {},
        }
        Ok(())
    }
}

/// The position `k` steps after `start` in a cycle of length `n`.
pub open spec fn wrap_index(start: int, k: int, n: int) -> int {
    if start + k < n {
        start + k
    } else {
        start + k - n
    }
}

/// When every authority is active, rotation is plain cyclic succession.
pub proof fn lemma_rotate_all_active(auths: Seq<Authority>, idx: int)
    requires
        auths.len() > 0,
        0 <= idx < auths.len(),
        forall|i: int| 0 <= i < auths.len() ==> (#[trigger] auths[i]).is_active,
    ensures
        rotate_spec(auths, idx) == if idx + 1 == auths.len() {
            0int
        } else {
            idx + 1
        },
{
    let n = auths.len() as int;
    let start = if idx + 1 >= n {
        0int
    } else {
        idx + 1
    };
    assert(auths[start].is_active);
    assert(first_active_from(auths, start, n as nat) == start);
}


/// What `configure` leaves behind, for a parameter map `m`: values applied
/// left to right, stopping at the first one that does not parse; `ok` says
/// whether the call returned without error.
pub open spec fn configure_post(
    pre: ProofOfAuthority,
    post: ProofOfAuthority,
    m: Map<Seq<char>, Seq<char>>,
    ok: bool,
) -> bool {
    &&& post.authorities == pre.authorities
    &&& post.current_authority_index == pre.current_authority_index
    &&& (if m.contains_key("block_interval_seconds"@) && dec_parse_u64(
            m["block_interval_seconds"@],
        ) is None {
            &&& !ok
            &&& post == pre
        } else {
            let interval = if m.contains_key("block_interval_seconds"@) {
                dec_parse_u64(m["block_interval_seconds"@])->Some_0
            } else {
                pre.block_interval_secs
            };
            if m.contains_key("required_confirmations"@) && dec_parse_usize(
                m["required_confirmations"@],
            ) is None {
                &&& !ok
                &&& post.block_interval_secs == interval
                &&& post.required_confirmations == pre.required_confirmations
            } else {
                &&& ok
                &&& post.block_interval_secs == interval
                &&& post.required_confirmations == (if m.contains_key(
                    "required_confirmations"@,
                ) {
                    dec_parse_usize(m["required_confirmations"@])->Some_0
                } else {
                    pre.required_confirmations
                })
            }
        }
    )
}

} // verus!
