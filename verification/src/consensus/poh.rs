//! Proof of History: a sequential hash chain — a simplified verifiable
//! delay function — whose running output and sequence counter carry across
//! blocks within one instance.

use vstd::prelude::*;
use crate::block::{core_msg, same_block, Block};
use crate::consensus::traits::{ConsensusConfig, ConsensusResult};
use crate::encode::{dec_of, dec_parse_u64, parse_dec_u64, str_eq, u64_to_dec};
use crate::clock::{elapsed_ms, now_timestamp_millis};
use crate::hashing::{sha256_hex, sha256_hex_of};
use crate::kvmap::KvMap;

verus! {

pub struct ProofOfHistory {
    pub vdf_iterations: u64,
    pub sequence_number: u64,
    pub previous_output: String,
}

/// The delay function: the digest text applied `iters` times over, strictly
/// sequentially.
pub open spec fn vdf_of(input: Seq<char>, iters: nat) -> Seq<char>
    decreases iters,
{
    if iters == 0 {
        input
    } else {
        sha256_hex_of(vdf_of(input, (iters - 1) as nat))
    }
}

/// The delay input: the previous chain output followed by the block's
/// identity fields.
pub open spec fn poh_input(prev_output: Seq<char>, b: Block) -> Seq<char> {
    prev_output + core_msg(b)
}

/// The message a finalized block digests: identity fields, chain output,
/// sequence number.
pub open spec fn poh_msg(b: Block, output: Seq<char>, seqno: u64) -> Seq<char> {
    core_msg(b) + output + dec_of(seqno as nat)
}

pub open spec fn poh_hash_of(b: Block, output: Seq<char>, seqno: u64) -> Seq<char> {
    sha256_hex_of(poh_msg(b, output, seqno))
}

impl ProofOfHistory {
    /// A block carries a valid history proof when its nonce is a live
    /// sequence number and the digest over the chain's current output
    /// equals the stored hash; only the block just finalized can match,
    /// since each call advances the chain.
    pub open spec fn validates(self, b: Block) -> bool {
        &&& b.nonce != 0
        &&& b.hash@ == poh_hash_of(b, self.previous_output@, b.nonce)
    }

    pub fn new(vdf_iterations: u64) -> (r: ProofOfHistory)
        ensures
            r.vdf_iterations == vdf_iterations,
            r.sequence_number == 0,
            r.previous_output@ == "genesis"@,
    {
        ProofOfHistory {
            vdf_iterations,
            sequence_number: 0,
            previous_output: String::from_str("genesis"),
        }
    }

    /// Applies the digest `iterations` times; sequential by construction.
    fn compute_vdf(&self, input: &str, iterations: u64) -> (r: String)
        ensures
            r@ == vdf_of(input@, iterations as nat),
    {
        let mut current = String::from_str(input);
        let mut k: u64 = 0;
        while k < iterations
            invariant
                k <= iterations,
                current@ == vdf_of(input@, k as nat),
            decreases iterations - k,
        {
            current = sha256_hex(current.as_str());
            k = k + 1;
        }
        current
    }

    /// Runs the delay function over the previous output and the block's
    /// fields, advancing the chain state; yields the new output and the
    /// advanced sequence number.
    fn create_history_proof(&mut self, block: &Block) -> (r: (String, u64))
        ensures
            final(self).vdf_iterations == old(self).vdf_iterations,
            final(self).sequence_number == (if old(self).sequence_number < u64::MAX {
                old(self).sequence_number + 1
            } else {
                u64::MAX as int
            }),
            final(self).sequence_number >= 1,
            r.0@ == vdf_of(
                poh_input(old(self).previous_output@, *block),
                old(self).vdf_iterations as nat,
            ),
            final(self).previous_output@ == r.0@,
            r.1 == final(self).sequence_number,
    {
        let mut input = self.previous_output.clone();
        let core = block.core_message();
        input.append(core.as_str());
        let output = self.compute_vdf(input.as_str(), self.vdf_iterations);
        if self.sequence_number < u64::MAX {
            self.sequence_number = self.sequence_number + 1;
        }
        self.previous_output = output.clone();
        (output, self.sequence_number)
    }

    /// Whether a claimed output re-derives from itself and the block's
    /// fields under the delay function — the self-referential check the
    /// running chain allows without stored history.
    pub fn verify_history_proof(&self, block: &Block, claimed_output: &str, sequence: u64) -> (r:
        bool)
        ensures
            r == (vdf_of(poh_input(claimed_output@, *block), self.vdf_iterations as nat)
                == claimed_output@ && sequence > 0),
    {
        let mut input = String::from_str(claimed_output);
        let core = block.core_message();
        input.append(core.as_str());
        let expected = self.compute_vdf(input.as_str(), self.vdf_iterations);
        let same = str_eq(expected.as_str(), claimed_output);
        same && sequence > 0
    }

    /// Runs the delay function, stamps the block with the chain output and
    /// sequence number, and advances the chain; the finalized block
    /// validates against this same advanced state.
    pub fn execute_consensus(&mut self, block: &mut Block) -> (r: Result<ConsensusResult, String>)
        requires
            old(block).wf(),
        ensures
            final(self).vdf_iterations == old(self).vdf_iterations,
            final(block).index == old(block).index,
            final(block).timestamp == old(block).timestamp,
            final(block).data == old(block).data,
            final(block).previous_hash == old(block).previous_hash,
            final(block).consensus_data@ == old(block).consensus_data@,
            final(block).difficulty == old(block).difficulty,
            final(block).wf(),
            r is Ok,
            match r {
                Ok(res) => {
                    let output = vdf_of(
                        poh_input(old(self).previous_output@, *old(block)),
                        old(self).vdf_iterations as nat,
                    );
                    &&& final(self).sequence_number == (if old(self).sequence_number < u64::MAX {
                        old(self).sequence_number + 1
                    } else {
                        u64::MAX as int
                    })
                    &&& final(self).previous_output@ == output
                    &&& final(block).nonce == final(self).sequence_number
                    &&& final(block).hash@ == poh_hash_of(
                        *final(block),
                        output,
                        final(block).nonce,
                    )
                    &&& final(self).validates(*final(block))
                    &&& same_block(res.block, *final(block))
                    &&& res.proof_data.wf()
                    &&& res.proof_data@ == Map::<Seq<char>, Seq<char>>::empty().insert(
                        "history_output"@,
                        output,
                    ).insert("sequence_number"@, dec_of(final(block).nonce as nat)).insert(
                        "vdf_iterations"@,
                        dec_of(old(self).vdf_iterations as nat),
                    )
                    &&& res.energy_cost_micro == Some(10000u64)
                },
                Err(_) => false,
            },
    {
        let exec_started = now_timestamp_millis();
        let proof_pair = self.create_history_proof(block);
        let (history_output, sequence) = proof_pair;
        let mut msg = block.core_message();
        msg.append(history_output.as_str());
        let seq_text = u64_to_dec(sequence);
        msg.append(seq_text.as_str());
        let new_hash = sha256_hex(msg.as_str());
        block.hash = new_hash;
        block.nonce = sequence;
        let mut proof_data = KvMap::new();
        proof_data.insert(String::from_str("history_output"), history_output.clone());
        proof_data.insert(String::from_str("sequence_number"), u64_to_dec(sequence));
        proof_data.insert(String::from_str("vdf_iterations"), u64_to_dec(self.vdf_iterations));
        let res = ConsensusResult {
            block: block.clone(),
            proof_data,
            execution_time_ms: elapsed_ms(exec_started, now_timestamp_millis()),
            energy_cost_micro: Some(10000),
        };
        proof {
            assert(core_msg(*block) == core_msg(*old(block)));
        }
        Ok(res)
    }

    /// Re-derives the digest over the chain's current output at the stored
    /// sequence nonce; pure.
    pub fn validate_block(&self, block: &Block) -> (r: bool)
        ensures
            r == self.validates(*block),
    {
        if block.nonce == 0 {
            return false;
        }
        let mut msg = block.core_message();
        msg.append(self.previous_output.as_str());
        let seq_text = u64_to_dec(block.nonce);
        msg.append(seq_text.as_str());
        let expected = sha256_hex(msg.as_str());
        str_eq(expected.as_str(), block.hash.as_str())
    }

    pub fn get_algorithm_name(&self) -> (r: &'static str)
        ensures
            r@ == "Proof of History"@,
    {
        "Proof of History"
    }

    /// Energy efficiency in thousandths.
    pub fn get_energy_efficiency(&self) -> (r: Option<u64>)
        ensures
            r == Some(850u64),
    {
        Some(850)
    }

    pub fn get_statistics(&self) -> (r: KvMap)
        ensures
            r.wf(),
            r@ == Map::<Seq<char>, Seq<char>>::empty().insert(
                "vdf_iterations"@,
                dec_of(self.vdf_iterations as nat),
            ).insert("current_sequence"@, dec_of(self.sequence_number as nat)).insert(
                "algorithm_type"@,
                "cryptographic_clock"@,
            ),
    {
        let mut stats = KvMap::new();
        stats.insert(String::from_str("vdf_iterations"), u64_to_dec(self.vdf_iterations));
        stats.insert(String::from_str("current_sequence"), u64_to_dec(self.sequence_number));
        stats.insert(
            String::from_str("algorithm_type"),
            String::from_str("cryptographic_clock"),
        );
        stats
    }

    /// Reads `vdf_iterations`, and `reset_sequence` which restarts the
    /// chain at its genesis output; fails when `vdf_iterations` does not
    /// parse.
    pub fn configure(&mut self, config: ConsensusConfig) -> (r: Result<(), String>)
        requires
            config.additional_params.wf(),
        ensures
            configure_post(*old(self), *final(self), config.additional_params@, r is Ok),
    {
        match config.additional_params.get("vdf_iterations") {
            Some(text) => {
                match parse_dec_u64(text.as_str()) {
                    Some(v) => {
                        self.vdf_iterations = v;
                    },
                    None => {
                        return Err(String::from_str("Invalid vdf_iterations parameter"));
                    },
                }
            },
            None => {},
        }
        match config.additional_params.get("reset_sequence") {
            Some(text) => {
                if str_eq(text.as_str(), "true") {
                    self.sequence_number = 0;
                    self.previous_output = String::from_str("genesis");
                }
            },
            None => {},
        }
        Ok(())
    }
}


/// What `configure` leaves behind, for a parameter map `m`: values applied
/// left to right, stopping at the first one that does not parse; `ok` says
/// whether the call returned without error.
pub open spec fn configure_post(
    pre: ProofOfHistory,
    post: ProofOfHistory,
    m: Map<Seq<char>, Seq<char>>,
    ok: bool,
) -> bool {
    &&& (if m.contains_key("vdf_iterations"@) && dec_parse_u64(
            m["vdf_iterations"@],
        ) is None {
            &&& !ok
            &&& post == pre
        } else {
            let iters = if m.contains_key("vdf_iterations"@) {
                dec_parse_u64(m["vdf_iterations"@])->Some_0
            } else {
                pre.vdf_iterations
            };
            let reset = m.contains_key("reset_sequence"@) && m["reset_sequence"@]
                == "true"@;
            &&& ok
            &&& post.vdf_iterations == iters
            &&& post.sequence_number == (if reset {
                0int
            } else {
                pre.sequence_number as int
            })
            &&& post.previous_output@ == (if reset {
                "genesis"@
            } else {
                pre.previous_output@
            })
        }
    )
}

} // verus!
