//! Proof of Elapsed Time: a wait duration derived deterministically from
//! the previous block and node name, mapped into half to twice the
//! configured base, with an attestation digest standing in for a trusted
//! enclave's certificate.

use vstd::prelude::*;
use crate::block::{same_block, Block};
use crate::clock::{elapsed_ms, now_timestamp, now_timestamp_millis};
use crate::consensus::traits::{ConsensusConfig, ConsensusResult};
use crate::encode::{dec_of, dec_parse_u64, i64_to_dec, parse_dec_u64, str_eq, u64_to_dec};
use crate::entropy::{seeded_draw_of, seeded_u64};
use crate::hashing::{digest32, sha256_bytes, sha256_hex, sha256_hex_of};
use crate::kvmap::KvMap;

verus! {

pub struct ProofOfElapsedTime {
    /// Base wait in milliseconds.
    pub wait_time_config: u64,
    pub node_id: String,
    pub trusted_execution: bool,
}

/// The seed text for the wait lottery: previous digest, node name, index.
pub open spec fn poet_seed_msg(b: Block, node_id: Seq<char>) -> Seq<char> {
    b.previous_hash@ + node_id + dec_of(b.index as nat)
}

/// The wait certificate: the hex digest of the seed text.
pub open spec fn poet_certificate_of(b: Block, node_id: Seq<char>) -> Seq<char> {
    sha256_hex_of(poet_seed_msg(b, node_id))
}

/// Clamp into the 64-bit range.
pub open spec fn sat_u64(x: int) -> int {
    if x > u64::MAX {
        u64::MAX as int
    } else if x < 0 {
        0
    } else {
        x
    }
}

/// The derived wait in milliseconds: half the base plus a seeded draw over
/// the span up to twice the base, clamped to the type's range.
pub open spec fn poet_wait_of(b: Block, node_id: Seq<char>, base: u64) -> int {
    let lo = base / 2;
    let hi = 2 * (base as int);
    let span = hi - lo + 1;
    let draw = seeded_draw_of(digest32(poet_seed_msg(b, node_id))) as int % span;
    sat_u64(lo + draw)
}

impl ProofOfElapsedTime {
    /// A block carries an accepted elapsed-time proof when its nonce lies
    /// within the configured wait bounds and its hash has digest length —
    /// deliberately weak, as the attestation itself is not reproduced.
    pub open spec fn validates(self, b: Block) -> bool {
        &&& self.wait_time_config / 2 <= b.nonce
        &&& b.nonce as int <= sat_u64(2 * (self.wait_time_config as int))
        &&& b.hash@.len() == 64
    }

    pub fn new(wait_time_config: u64, node_id: String) -> (r: ProofOfElapsedTime)
        ensures
            r.wait_time_config == wait_time_config,
            r.node_id == node_id,
            r.trusted_execution,
    {
        ProofOfElapsedTime { wait_time_config, node_id, trusted_execution: true }
    }

    /// The deterministic wait and its certificate for a block.
    fn generate_wait_time(&self, block: &Block) -> (r: (u64, String))
        ensures
            r.0 as int == poet_wait_of(*block, self.node_id@, self.wait_time_config),
            r.1@ == poet_certificate_of(*block, self.node_id@),
    {
        let mut msg = block.previous_hash.clone();
        msg.append(self.node_id.as_str());
        let idx_text = u64_to_dec(block.index);
        msg.append(idx_text.as_str());
        let seed = sha256_bytes(msg.as_str());
        let certificate = sha256_hex(msg.as_str());
        let word = seeded_u64(&seed);
        let lo: u64 = self.wait_time_config / 2;
        let hi: u128 = 2 * (self.wait_time_config as u128);
        let span: u128 = hi - (lo as u128) + 1;
        let draw: u128 = (word as u128) % span;
        let wide: u128 = (lo as u128) + draw;
        let wait: u64 = if wide > (u64::MAX as u128) {
            u64::MAX
        } else {
            wide as u64
        };
        (wait, certificate)
    }

    /// The attestation a trusted environment would emit after the wait: a
    /// digest over the node name, the wait and the current time. The value
    /// depends on the clock, so nothing more is promised of it. The wait is
    /// simulated rather than slept.
    fn trusted_wait(&self, wait_ms: u64) -> (r: Result<String, String>)
        ensures
            (r is Err) <==> !self.trusted_execution,
            r is Ok ==> r->Ok_0@.len() == 64,
    {
        if !self.trusted_execution {
            return Err(String::from_str("Trusted execution environment not available"));
        }
        let mut msg = self.node_id.clone();
        let wait_text = u64_to_dec(wait_ms);
        msg.append(wait_text.as_str());
        let now_text = i64_to_dec(now_timestamp());
        msg.append(now_text.as_str());
        Ok(sha256_hex(msg.as_str()))
    }

    /// The wait, its certificate and the attestation for one block.
    fn create_poet_proof(&self, block: &Block) -> (r: Result<(u64, String, String), String>)
        ensures
            (r is Err) <==> !self.trusted_execution,
            r is Ok ==> ({
                let triple = r->Ok_0;
                &&& triple.0 as int == poet_wait_of(*block, self.node_id@, self.wait_time_config)
                &&& triple.1@ == poet_certificate_of(*block, self.node_id@)
                &&& triple.2@.len() == 64
            }),
    {
        let pair = self.generate_wait_time(block);
        let (wait_ms, certificate) = pair;
        match self.trusted_wait(wait_ms) {
            Ok(elapsed_proof) => Ok((wait_ms, certificate, elapsed_proof)),
            Err(e) => Err(e),
        }
    }

    /// Whether a certificate re-derives from the block and node name, and
    /// the attestation has digest length.
    pub fn verify_poet_proof(&self, block: &Block, certificate: &str, elapsed_proof: &str) -> (r:
        bool)
        ensures
            r == (certificate@ == poet_certificate_of(*block, self.node_id@)
                && elapsed_proof@.len() == 64),
    {
        let mut msg = block.previous_hash.clone();
        msg.append(self.node_id.as_str());
        let idx_text = u64_to_dec(block.index);
        msg.append(idx_text.as_str());
        let expected = sha256_hex(msg.as_str());
        let cert_ok = str_eq(expected.as_str(), certificate);
        cert_ok && elapsed_proof.unicode_len() == 64
    }

    /// Derives and simulates the wait, stamps the block with a digest over
    /// certificate and attestation, and stores the wait as the nonce; fails
    /// exactly when trusted execution is off. The finalized block validates
    /// against this same state.
    pub fn execute_consensus(&mut self, block: &mut Block) -> (r: Result<ConsensusResult, String>)
        requires
            old(block).wf(),
        ensures
            *final(self) == *old(self),
            final(block).index == old(block).index,
            final(block).timestamp == old(block).timestamp,
            final(block).data == old(block).data,
            final(block).previous_hash == old(block).previous_hash,
            final(block).consensus_data@ == old(block).consensus_data@,
            final(block).difficulty == old(block).difficulty,
            final(block).wf(),
            (r is Ok) <==> old(self).trusted_execution,
            match r {
                Ok(res) => {
                    &&& final(block).nonce as int == poet_wait_of(
                        *old(block),
                        old(self).node_id@,
                        old(self).wait_time_config,
                    )
                    &&& final(block).hash@.len() == 64
                    &&& final(self).validates(*final(block))
                    &&& same_block(res.block, *final(block))
                    &&& res.proof_data.wf()
                    &&& (exists|attestation: Seq<char>|
                        #[trigger] res.proof_data@.contains_key("elapsed_proof"@)
                            && res.proof_data@ == Map::<Seq<char>, Seq<char>>::empty().insert(
                            "node_id"@,
                            old(self).node_id@,
                        ).insert("wait_time_ms"@, dec_of(final(block).nonce as nat)).insert(
                            "wait_certificate"@,
                            poet_certificate_of(*old(block), old(self).node_id@),
                        ).insert("elapsed_proof"@, attestation).insert(
                            "trusted_execution"@,
                            "true"@,
                        ) && attestation.len() == 64)
                    &&& res.energy_cost_micro == Some(1000u64)
                },
                Err(_) => *final(block) == *old(block),
            },
    {
        let exec_started = now_timestamp_millis();
        if !self.trusted_execution {
            return Err(String::from_str("Trusted execution environment required for PoET"));
        }
        let triple = match self.create_poet_proof(block) {
            Ok(t) => t,
            Err(e) => {
                return Err(e);
            },
        };
        let (wait_ms, certificate, elapsed_proof) = triple;
        let mut msg = block.core_message();
        msg.append(certificate.as_str());
        msg.append(elapsed_proof.as_str());
        msg.append(self.node_id.as_str());
        let new_hash = sha256_hex(msg.as_str());
        block.hash = new_hash;
        block.nonce = wait_ms;
        let mut proof_data = KvMap::new();
        proof_data.insert(String::from_str("node_id"), self.node_id.clone());
        proof_data.insert(String::from_str("wait_time_ms"), u64_to_dec(wait_ms));
        proof_data.insert(String::from_str("wait_certificate"), certificate);
        proof_data.insert(String::from_str("elapsed_proof"), elapsed_proof);
        proof_data.insert(
            String::from_str("trusted_execution"),
            String::from_str("true"),
        );
        let res = ConsensusResult {
            block: block.clone(),
            proof_data,
            execution_time_ms: elapsed_ms(exec_started, now_timestamp_millis()),
            energy_cost_micro: Some(1000),
        };
        proof {
            let attestation = elapsed_proof@;
            assert(res.proof_data@.contains_key("elapsed_proof"@) && res.proof_data@ == Map::<
                Seq<char>,
                Seq<char>,
            >::empty().insert("node_id"@, old(self).node_id@).insert(
                "wait_time_ms"@,
                dec_of(block.nonce as nat),
            ).insert(
                "wait_certificate"@,
                poet_certificate_of(*old(block), old(self).node_id@),
            ).insert("elapsed_proof"@, attestation).insert("trusted_execution"@, "true"@)
                && attestation.len() == 64);
        }
        Ok(res)
    }

    /// Checks the nonce against the configured wait bounds and the hash's
    /// digest length; deliberately weak, pure.
    pub fn validate_block(&self, block: &Block) -> (r: bool)
        ensures
            r == self.validates(*block),
    {
        let min_wait: u64 = self.wait_time_config / 2;
        let hi: u128 = 2 * (self.wait_time_config as u128);
        let max_wait: u64 = if hi > (u64::MAX as u128) {
            u64::MAX
        } else {
            hi as u64
        };
        if block.nonce < min_wait || block.nonce > max_wait {
            return false;
        }
        block.hash.as_str().unicode_len() == 64
    }

    pub fn get_algorithm_name(&self) -> (r: &'static str)
        ensures
            r@ == "Proof of Elapsed Time"@,
    {
        "Proof of Elapsed Time"
    }

    /// Energy efficiency in thousandths.
    pub fn get_energy_efficiency(&self) -> (r: Option<u64>)
        ensures
            r == Some(980u64),
    {
        Some(980)
    }

    pub fn get_statistics(&self) -> (r: KvMap)
        ensures
            r.wf(),
            r@ == Map::<Seq<char>, Seq<char>>::empty().insert("node_id"@, self.node_id@).insert(
                "wait_time_config_ms"@,
                dec_of(self.wait_time_config as nat),
            ).insert(
                "trusted_execution"@,
                (if self.trusted_execution {
                    "true"@
                } else {
                    "false"@
                }),
            ).insert("algorithm_type"@, "lottery_system"@).insert(
                "min_wait_time_ms"@,
                dec_of((self.wait_time_config / 2) as nat),
            ).insert(
                "max_wait_time_ms"@,
                dec_of(sat_u64(2 * (self.wait_time_config as int)) as nat),
            ),
    {
        let mut stats = KvMap::new();
        stats.insert(String::from_str("node_id"), self.node_id.clone());
        stats.insert(String::from_str("wait_time_config_ms"), u64_to_dec(self.wait_time_config));
        stats.insert(
            String::from_str("trusted_execution"),
            if self.trusted_execution {
                String::from_str("true")
            } else {
                String::from_str("false")
            },
        );
        stats.insert(String::from_str("algorithm_type"), String::from_str("lottery_system"));
        stats.insert(String::from_str("min_wait_time_ms"), u64_to_dec(self.wait_time_config / 2));
        let hi: u128 = 2 * (self.wait_time_config as u128);
        let max_wait: u64 = if hi > (u64::MAX as u128) {
            u64::MAX
        } else {
            hi as u64
        };
        stats.insert(String::from_str("max_wait_time_ms"), u64_to_dec(max_wait));
        stats
    }

    /// Reads `wait_time_config`, `node_id` and `trusted_execution`; fails
    /// on the first value that does not parse.
    pub fn configure(&mut self, config: ConsensusConfig) -> (r: Result<(), String>)
        requires
            config.additional_params.wf(),
        ensures
            configure_post(*old(self), *final(self), config.additional_params@, r is Ok),
    {
        match config.additional_params.get("wait_time_config") {
            Some(text) => {
                match parse_dec_u64(text.as_str()) {
                    Some(v) => {
                        self.wait_time_config = v;
                    },
                    None => {
                        return Err(String::from_str("Invalid wait_time_config parameter"));
                    },
                }
            },
            None => {},
        }
        match config.additional_params.get("node_id") {
            Some(text) => {
                let id = text.clone();
                self.node_id = id;
            },
            None => {},
        }
        match config.additional_params.get("trusted_execution") {
            Some(text) => {
                if str_eq(text.as_str(), "true") {
                    self.trusted_execution = true;
                } else if str_eq(text.as_str(), "false") {
                    self.trusted_execution = false;
                } else {
                    return Err(String::from_str("Invalid trusted_execution parameter"));
                }
            },
            None => {},
        }
        Ok(())
    }
}


/// What `configure` leaves behind, for a parameter map `m`: values applied
/// left to right, stopping at the first one that does not parse; `ok` says
/// whether the call returned without error.
pub open spec fn configure_post(
    pre: ProofOfElapsedTime,
    post: ProofOfElapsedTime,
    m: Map<Seq<char>, Seq<char>>,
    ok: bool,
) -> bool {
    &&& (if m.contains_key("wait_time_config"@) && dec_parse_u64(
            m["wait_time_config"@],
        ) is None {
            &&& !ok
            &&& post == pre
        } else {
            let wait = if m.contains_key("wait_time_config"@) {
                dec_parse_u64(m["wait_time_config"@])->Some_0
            } else {
                pre.wait_time_config
            };
            let node = if m.contains_key("node_id"@) {
                m["node_id"@]
            } else {
                pre.node_id@
            };
            if m.contains_key("trusted_execution"@) && !(m["trusted_execution"@]
                == "true"@) && !(m["trusted_execution"@] == "false"@) {
                &&& !ok
                &&& post.wait_time_config == wait
                &&& post.node_id@ == node
                &&& post.trusted_execution == pre.trusted_execution
            } else {
                &&& ok
                &&& post.wait_time_config == wait
                &&& post.node_id@ == node
                &&& post.trusted_execution == (if m.contains_key(
                    "trusted_execution"@,
                ) {
                    m["trusted_execution"@] == "true"@
                } else {
                    pre.trusted_execution
                })
            }
        }
    )
}

} // verus!
