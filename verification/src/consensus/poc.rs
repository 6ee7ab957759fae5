//! Proof of Capacity: plots of pre-computed hash pairs race on deadlines; a
//! generation signature per plot picks a matching pair, and the smallest
//! deadline across all plots wins the block.

use vstd::prelude::*;
use crate::block::{core_msg, same_block, Block};
use crate::clock::{elapsed_ms, now_timestamp, now_timestamp_millis};
use crate::consensus::traits::{ConsensusConfig, ConsensusResult};
use crate::encode::{
    dec_of, dec_parse_u64, dec_parse_usize, hex_parse, is_hex_seq, parse_dec_u64, parse_dec_usize,
    parse_hex_prefix, str_eq, str_starts_with, u64_to_dec, usize_to_dec,
};
use crate::entropy::{random_below, random_u64};
use crate::hashing::{sha256_hex, sha256_hex_of};
use crate::kvmap::KvMap;

verus! {

pub struct StoragePlot {
    pub plot_id: String,
    pub size_gb: u64,
    pub nonce_count: u64,
    pub creation_timestamp: i64,
    pub hash_pairs: Vec<(String, String)>,
}

pub struct ProofOfCapacity {
    pub plots: Vec<StoragePlot>,
    /// Minimum gigabytes a plot (and the farm) must hold.
    pub storage_requirement: u64,
    pub plot_verification_samples: usize,
}

/// The generation signature of a plot for a block: digest of previous hash,
/// index and plot name.
pub open spec fn gen_sig_of(b: Block, plot_id: Seq<char>) -> Seq<char> {
    sha256_hex_of(b.previous_hash@ + dec_of(b.index as nat) + plot_id)
}

/// Whether a pair answers the target: either of its digests opens with the
/// target's eight characters.
pub open spec fn pair_matches(pair: (String, String), target: Seq<char>) -> bool {
    pair.0@.take(8) == target || pair.1@.take(8) == target
}

/// The first matching pair position, or -1.
pub open spec fn first_match(pairs: Seq<(String, String)>, target: Seq<char>, i: int) -> int
    decreases pairs.len() - i,
{
    if i < 0 || i >= pairs.len() {
        -1
    } else if pair_matches(pairs[i], target) {
        i
    } else {
        first_match(pairs, target, i + 1)
    }
}

/// A plot's deadline and winning digest for a block: from the first
/// matching pair, or from the first pair as fallback, or nothing when the
/// table is empty.
pub open spec fn plot_deadline(plot: StoragePlot, b: Block) -> Option<(int, Seq<char>)> {
    let target = gen_sig_of(b, plot.plot_id@).take(8);
    let m = first_match(plot.hash_pairs@, target, 0);
    if m >= 0 {
        Some(
            ((m + 1) * 1000 + hex_parse(plot.hash_pairs@[m].0@.take(8)) as int % 10000, plot.hash_pairs@[m].0@),
        )
    } else if plot.hash_pairs@.len() > 0 {
        Some((hex_parse(plot.hash_pairs@[0].0@.take(8)) as int % 100000, plot.hash_pairs@[0].0@))
    } else {
        None
    }
}

/// The message a capacity proof digests: identity fields, winning plot
/// name, winning digest.
pub open spec fn poc_msg(b: Block, plot_id: Seq<char>, winning_hash: Seq<char>) -> Seq<char> {
    core_msg(b) + plot_id + winning_hash
}

pub open spec fn poc_hash_of(b: Block, plot_id: Seq<char>, winning_hash: Seq<char>) -> Seq<char> {
    sha256_hex_of(poc_msg(b, plot_id, winning_hash))
}

pub open spec fn sum_capacity(plots: Seq<StoragePlot>, i: int) -> int
    decreases i,
{
    if i <= 0 {
        0
    } else {
        sum_capacity(plots, i - 1) + plots[i - 1].size_gb
    }
}

pub open spec fn sum_pairs(plots: Seq<StoragePlot>, i: int) -> int
    decreases i,
{
    if i <= 0 {
        0
    } else {
        sum_pairs(plots, i - 1) + plots[i - 1].hash_pairs@.len()
    }
}

/// The first plot that passes the capacity check and whose deadline equals
/// the nonce, or -1 — the plot validation settles on.
pub open spec fn first_valid_deadline(
    plots: Seq<StoragePlot>,
    b: Block,
    requirement: u64,
    i: int,
) -> int
    decreases plots.len() - i,
{
    if i < 0 || i >= plots.len() {
        -1
    } else if plots[i].size_gb >= requirement && plots[i].hash_pairs@.len() > 0 && plot_deadline(
        plots[i],
        b,
    ) == Some((b.nonce as int, plot_deadline(plots[i], b)->Some_0.1)) {
        i
    } else {
        first_valid_deadline(plots, b, requirement, i + 1)
    }
}

impl StoragePlot {
    /// Every pair's first digest is 64 hexadecimal characters and its
    /// second digest derives from the first and the pair's position; the
    /// table is capped at a thousand entries.
    pub open spec fn wf(self) -> bool {
        &&& self.hash_pairs@.len() <= 1000
        &&& forall|i: int|
            0 <= i < self.hash_pairs@.len() ==> {
                &&& (#[trigger] self.hash_pairs@[i]).0@.len() == 64
                &&& is_hex_seq(self.hash_pairs@[i].0@)
                &&& self.hash_pairs@[i].1@ == sha256_hex_of(
                    self.hash_pairs@[i].0@ + dec_of(i as nat),
                )
            }
    }
}

impl Clone for StoragePlot {
    fn clone(&self) -> (r: Self)
        ensures
            r.plot_id == self.plot_id,
            r.size_gb == self.size_gb,
            r.nonce_count == self.nonce_count,
            r.creation_timestamp == self.creation_timestamp,
            r.hash_pairs@ == self.hash_pairs@,
    {
        let n = self.hash_pairs.len();
        let mut pairs: Vec<(String, String)> = Vec::new();
        let mut i: usize = 0;
        while i < n
            invariant
                n == self.hash_pairs@.len(),
                i <= n,
                pairs@.len() == i,
                forall|j: int| 0 <= j < i ==> #[trigger] pairs@[j] == self.hash_pairs@[j],
            decreases n - i,
        {
            let a = self.hash_pairs[i].0.clone();
            let b = self.hash_pairs[i].1.clone();
            pairs.push((a, b));
            i = i + 1;
        }
        proof {
            assert(pairs@ =~= self.hash_pairs@);
        }
        StoragePlot {
            plot_id: self.plot_id.clone(),
            size_gb: self.size_gb,
            nonce_count: self.nonce_count,
            creation_timestamp: self.creation_timestamp,
            hash_pairs: pairs,
        }
    }
}

impl ProofOfCapacity {
    pub open spec fn wf(self) -> bool {
        forall|i: int| 0 <= i < self.plots@.len() ==> (#[trigger] self.plots@[i]).wf()
    }

    /// A block carries a valid capacity proof when the first
    /// capacity-passing plot whose deadline equals the nonce re-derives the
    /// stored hash.
    pub open spec fn validates(self, b: Block) -> bool {
        let i = first_valid_deadline(self.plots@, b, self.storage_requirement, 0);
        &&& i >= 0
        &&& b.hash@ == poc_hash_of(
            b,
            self.plots@[i].plot_id@,
            plot_deadline(self.plots@[i], b)->Some_0.1,
        )
    }

    pub fn new(storage_requirement: u64) -> (r: ProofOfCapacity)
        ensures
            r.plots@.len() == 0,
            r.storage_requirement == storage_requirement,
            r.plot_verification_samples == 10,
            r.wf(),
    {
        ProofOfCapacity { plots: Vec::new(), storage_requirement, plot_verification_samples: 10 }
    }

    /// Creates a plot of pre-computed pairs (at most a thousand, from
    /// machine entropy); rejected below the storage requirement. Returns
    /// the plot name.
    pub fn create_plot(&mut self, size_gb: u64, nonce_count: u64) -> (r: Result<String, String>)
        requires
            old(self).wf(),
        ensures
            final(self).wf(),
            final(self).storage_requirement == old(self).storage_requirement,
            final(self).plot_verification_samples == old(self).plot_verification_samples,
            (r is Err) <==> size_gb < old(self).storage_requirement,
            r is Err ==> *final(self) == *old(self),
            r is Ok ==> ({
                let plot = final(self).plots@.last();
                &&& final(self).plots@.len() == old(self).plots@.len() + 1
                &&& forall|i: int|
                    0 <= i < old(self).plots@.len() ==> final(self).plots@[i] == old(
                        self,
                    ).plots@[i]
                &&& plot.plot_id@ == "plot_"@ + dec_of(old(self).plots@.len())
                &&& plot.size_gb == size_gb
                &&& plot.nonce_count == nonce_count
                &&& plot.hash_pairs@.len() == (if nonce_count < 1000 {
                    nonce_count as int
                } else {
                    1000
                })
                &&& r->Ok_0@ == plot.plot_id@
            }),
    {
        if size_gb < self.storage_requirement {
            return Err(String::from_str("Plot size is below minimum"));
        }
        let mut plot_id = String::new();
        plot_id.append("plot_");
        let count_text = usize_to_dec(self.plots.len());
        plot_id.append(count_text.as_str());
        let creation_timestamp = now_timestamp();
        let limit: u64 = if nonce_count < 1000 {
            nonce_count
        } else {
            1000
        };
        let mut hash_pairs: Vec<(String, String)> = Vec::new();
        let mut i: u64 = 0;
        while i < limit
            invariant
                limit <= 1000,
                i <= limit,
                hash_pairs@.len() == i,
                forall|j: int|
                    0 <= j < i ==> {
                        &&& (#[trigger] hash_pairs@[j]).0@.len() == 64
                        &&& is_hex_seq(hash_pairs@[j].0@)
                        &&& hash_pairs@[j].1@ == sha256_hex_of(
                            hash_pairs@[j].0@ + dec_of(j as nat),
                        )
                    },
            decreases limit - i,
        {
            let nonce = random_u64();
            let mut seed = plot_id.clone();
            let i_text = u64_to_dec(i);
            seed.append(i_text.as_str());
            let nonce_text = u64_to_dec(nonce);
            seed.append(nonce_text.as_str());
            let hash1 = sha256_hex(seed.as_str());
            let mut second_input = hash1.clone();
            second_input.append(i_text.as_str());
            let hash2 = sha256_hex(second_input.as_str());
            hash_pairs.push((hash1, hash2));
            i = i + 1;
        }
        let plot = StoragePlot {
            plot_id: plot_id.clone(),
            size_gb,
            nonce_count,
            creation_timestamp,
            hash_pairs,
        };
        self.plots.push(plot);
        Ok(plot_id)
    }

    /// The digest of a text, as plots and signatures use it.
    fn compute_hash(&self, input: &str) -> (r: String)
        ensures
            r@ == sha256_hex_of(input@),
            r@.len() == 64,
    {
        sha256_hex(input)
    }

    /// A plot's deadline for a block: scan the table for a pair matching
    /// the generation signature's eight-character target; fall back to the
    /// first pair.
    fn calculate_deadline_for_plot(&self, plot: &StoragePlot, block: &Block) -> (r: Option<
        (u64, String),
    >)
        requires
            plot.wf(),
        ensures
            match r {
                Some(found) => {
                    &&& plot_deadline(*plot, *block) == Some((found.0 as int, found.1@))
                    &&& found.0 < 1100000
                },
                None => plot_deadline(*plot, *block) is None,
            },
    {
        let mut sig_input = block.previous_hash.clone();
        let idx_text = u64_to_dec(block.index);
        sig_input.append(idx_text.as_str());
        sig_input.append(plot.plot_id.as_str());
        let generation_signature = self.compute_hash(sig_input.as_str());
        proof {
            crate::encode::lemma_hex_seq_ascii(generation_signature@);
        }
        let target = generation_signature.as_str().substring_ascii(0, 8);
        let ghost target_seq = gen_sig_of(*block, plot.plot_id@).take(8);
        proof {
            assert(target@ =~= target_seq);
        }
        let n = plot.hash_pairs.len();
        let mut i: usize = 0;
        while i < n
            invariant
                plot.wf(),
                n == plot.hash_pairs@.len(),
                i <= n,
                target@ == target_seq,
                target_seq == gen_sig_of(*block, plot.plot_id@).take(8),
                target@.len() == 8,
                first_match(plot.hash_pairs@, target_seq, 0) == first_match(
                    plot.hash_pairs@,
                    target_seq,
                    i as int,
                ),
            decreases n - i,
        {
            let pair = &plot.hash_pairs[i];
            let m1 = str_starts_with(pair.0.as_str(), target);
            let m2 = str_starts_with(pair.1.as_str(), target);
            if m1 || m2 {
                let base_time: u64 = ((i + 1) as u64) * 1000;
                proof {
                    assert forall|j: int| 0 <= j < 8 implies crate::encode::char_hex_val(
                        #[trigger] pair.0@.take(8)[j],
                    ) < 16 by {
                        assert(pair.0@.take(8)[j] == pair.0@[j]);
                    }
                }
                let hash_modifier = parse_hex_prefix(pair.0.as_str(), 8) % 10000;
                let deadline = base_time + hash_modifier;
                proof {
                    assert(pair_matches(plot.hash_pairs@[i as int], target_seq));
                    assert(first_match(plot.hash_pairs@, target_seq, i as int) == i as int);
                    assert(first_match(
                        plot.hash_pairs@,
                        gen_sig_of(*block, plot.plot_id@).take(8),
                        0,
                    ) == i as int);
                }
                return Some((deadline, pair.0.clone()));
            }
            i = i + 1;
        }
        if plot.hash_pairs.len() > 0 {
            let first = &plot.hash_pairs[0];
            proof {
                assert forall|j: int| 0 <= j < 8 implies crate::encode::char_hex_val(
                    #[trigger] first.0@.take(8)[j],
                ) < 16 by {
                    assert(first.0@.take(8)[j] == first.0@[j]);
                }
            }
            let deadline = parse_hex_prefix(first.0.as_str(), 8) % 100000;
            Some((deadline, first.0.clone()))
        } else {
            None
        }
    }

    /// The smallest deadline across all plots: the winning plot's position,
    /// its deadline and winning digest. The walk keeps the first plot of a
    /// strictly smallest deadline, so every earlier plot's deadline is
    /// strictly larger.
    fn find_best_deadline(&self, block: &Block) -> (r: Option<(usize, u64, String)>)
        requires
            self.wf(),
        ensures
            match r {
                Some(found) => {
                    &&& found.0 < self.plots@.len()
                    &&& plot_deadline(self.plots@[found.0 as int], *block) == Some(
                        (found.1 as int, found.2@),
                    )
                    &&& forall|j: int|
                        0 <= j < self.plots@.len() && j != found.0 ==> (plot_deadline(
                            #[trigger] self.plots@[j],
                            *block,
                        ) is Some ==> plot_deadline(self.plots@[j], *block)->Some_0.0 >= found.1 as int)
                    &&& forall|j: int|
                        0 <= j < found.0 ==> (plot_deadline(
                            #[trigger] self.plots@[j],
                            *block,
                        ) is Some ==> plot_deadline(self.plots@[j], *block)->Some_0.0 > found.1 as int)
                },
                None => forall|j: int|
                    0 <= j < self.plots@.len() ==> plot_deadline(
                        #[trigger] self.plots@[j],
                        *block,
                    ) is None,
            },
    {
        let n = self.plots.len();
        let mut best: Option<(usize, u64, String)> = None;
        let mut i: usize = 0;
        while i < n
            invariant
                self.wf(),
                n == self.plots@.len(),
                i <= n,
                match best {
                    Some(found) => {
                        &&& found.0 < i
                        &&& plot_deadline(self.plots@[found.0 as int], *block) == Some(
                            (found.1 as int, found.2@),
                        )
                        &&& forall|j: int|
                            0 <= j < i && j != found.0 ==> (plot_deadline(
                                #[trigger] self.plots@[j],
                                *block,
                            ) is Some ==> plot_deadline(self.plots@[j], *block)->Some_0.0
                                >= found.1 as int)
                        &&& forall|j: int|
                            0 <= j < found.0 ==> (plot_deadline(
                                #[trigger] self.plots@[j],
                                *block,
                            ) is Some ==> plot_deadline(self.plots@[j], *block)->Some_0.0
                                > found.1 as int)
                    },
                    None => forall|j: int|
                        0 <= j < i ==> plot_deadline(#[trigger] self.plots@[j], *block) is None,
                },
            decreases n - i,
        {
            match self.calculate_deadline_for_plot(&self.plots[i], block) {
                Some(found) => {
                    let (deadline, hash) = found;
                    let replace = match &best {
                        Some(b) => deadline < b.1,
                        None => true,
                    };
                    if replace {
                        best = Some((i, deadline, hash));
                    }
                },
                None => {},
            }
            i = i + 1;
        }
        best
    }

    /// Samples pair positions from machine entropy and re-derives each
    /// second digest; with a well-formed plot this passes for every sample,
    /// so the check reduces to size and a non-empty table.
    fn verify_plot_capacity(&self, plot: &StoragePlot) -> (r: bool)
        requires
            plot.wf(),
        ensures
            r == (plot.size_gb >= self.storage_requirement && plot.hash_pairs@.len() > 0),
    {
        if plot.size_gb < self.storage_requirement {
            return false;
        }
        if plot.hash_pairs.len() == 0 {
            return false;
        }
        let sample_size = if self.plot_verification_samples < plot.hash_pairs.len() {
            self.plot_verification_samples
        } else {
            plot.hash_pairs.len()
        };
        let mut s: usize = 0;
        while s < sample_size
            invariant
                plot.wf(),
                plot.hash_pairs@.len() > 0,
            decreases sample_size - s,
        {
            let index = random_below(plot.hash_pairs.len());
            let pair = &plot.hash_pairs[index];
            let len1 = pair.0.as_str().unicode_len();
            let len2 = pair.1.as_str().unicode_len();
            if len1 != 64 || len2 != 64 {
                proof {
                    crate::hashing::lemma_sha256_hex_wf(
                        plot.hash_pairs@[index as int].0@ + dec_of(index as nat),
                    );
                }
                return false;
            }
            let mut expected_input = pair.0.clone();
            let idx_text = usize_to_dec(index);
            expected_input.append(idx_text.as_str());
            let expected = self.compute_hash(expected_input.as_str());
            if !str_eq(expected.as_str(), pair.1.as_str()) {
                return false;
            }
            s = s + 1;
        }
        true
    }

    /// Total declared capacity across plots, in gigabytes.
    fn get_total_capacity(&self) -> (r: u128)
        ensures
            r == sum_capacity(self.plots@, self.plots@.len() as int),
            r <= self.plots@.len() * (u64::MAX as int),
    {
        let n = self.plots.len();
        let mut total: u128 = 0;
        let mut i: usize = 0;
        while i < n
            invariant
                n == self.plots@.len(),
                i <= n,
                total == sum_capacity(self.plots@, i as int),
                total <= (i as int) * (u64::MAX as int),
            decreases n - i,
        {
            total = total + (self.plots[i].size_gb as u128);
            i = i + 1;
        }
        total
    }

    /// Races the plots, stamps the proof and stores the winning deadline as
    /// the nonce; fails exactly when there are no plots, the farm is below
    /// the requirement, or every plot's table is empty. When every plot
    /// meets the per-plot requirement, the finalized block validates
    /// against this same state.
    pub fn execute_consensus(&mut self, block: &mut Block) -> (r: Result<ConsensusResult, String>)
        requires
            old(block).wf(),
            old(self).wf(),
        ensures
            *final(self) == *old(self),
            final(block).index == old(block).index,
            final(block).timestamp == old(block).timestamp,
            final(block).data == old(block).data,
            final(block).previous_hash == old(block).previous_hash,
            final(block).consensus_data@ == old(block).consensus_data@,
            final(block).difficulty == old(block).difficulty,
            final(block).wf(),
            (r is Ok) <==> ({
                let ps = old(self).plots@;
                &&& ps.len() > 0
                &&& sum_capacity(ps, ps.len() as int) >= old(self).storage_requirement
                &&& exists|j: int|
                    0 <= j < ps.len() && plot_deadline(#[trigger] ps[j], *old(block)) is Some
            }),
            match r {
                Ok(res) => {
                    let ps = old(self).plots@;
                    &&& exists|w: int|
                        {
                            &&& 0 <= w < ps.len()
                            &&& plot_deadline(#[trigger] ps[w], *final(block)) == Some(
                                (
                                final(block).nonce as int,
                                plot_deadline(ps[w], *final(block))->Some_0.1,
                                ),
                            )
                            &&& final(block).hash@ == poc_hash_of(
                                *final(block),
                                ps[w].plot_id@,
                                plot_deadline(ps[w], *final(block))->Some_0.1,
                            )
                            &&& res.proof_data@ == Map::<Seq<char>, Seq<char>>::empty().insert(
                                "winning_plot"@,
                                ps[w].plot_id@,
                            ).insert("deadline"@, dec_of(final(block).nonce as nat)).insert(
                                "winning_hash"@,
                                plot_deadline(ps[w], *final(block))->Some_0.1,
                            ).insert(
                                "total_capacity_gb"@,
                                dec_of(sum_capacity(ps, ps.len() as int) as nat),
                            ).insert("total_plots"@, dec_of(ps.len())).insert(
                                "plot_size_gb"@,
                                dec_of(ps[w].size_gb as nat),
                            ).insert("plot_nonce_count"@, dec_of(ps[w].nonce_count as nat))
                        }
                    &&& (forall|j: int|
                        0 <= j < ps.len() ==> (plot_deadline(
                            #[trigger] ps[j],
                            *final(block),
                        ) is Some ==> plot_deadline(ps[j], *final(block))->Some_0.0
                            >= final(block).nonce as int))
                    &&& ((forall|j: int|
                        0 <= j < ps.len() ==> (#[trigger] ps[j]).size_gb >= old(
                            self,
                        ).storage_requirement) ==> final(self).validates(*final(block)))
                    &&& same_block(res.block, *final(block))
                    &&& res.proof_data.wf()
                    &&& res.energy_cost_micro == Some(10000u64)
                },
                Err(_) => *final(block) == *old(block),
            },
    {
        let exec_started = now_timestamp_millis();
        if self.plots.len() == 0 {
            return Err(String::from_str("No storage plots available for mining"));
        }
        let total_capacity = self.get_total_capacity();
        if total_capacity < (self.storage_requirement as u128) {
            return Err(String::from_str("Total capacity is below requirement"));
        }
        let found = match self.find_best_deadline(block) {
            Some(f) => f,
            None => {
                proof {
                    assert forall|j: int|
                        0 <= j < self.plots@.len() implies plot_deadline(
                        #[trigger] self.plots@[j],
                        *old(block),
                    ) is None by {}
                }
                return Err(String::from_str("Unable to find valid deadline in any plot"));
            },
        };
        let (best_idx, deadline, winning_hash) = found;
        let best_plot_id = self.plots[best_idx].plot_id.clone();
        let mut msg = block.core_message();
        msg.append(best_plot_id.as_str());
        msg.append(winning_hash.as_str());
        let new_hash = sha256_hex(msg.as_str());
        block.hash = new_hash;
        block.nonce = deadline;
        let mut proof_data = KvMap::new();
        proof_data.insert(String::from_str("winning_plot"), best_plot_id.clone());
        proof_data.insert(String::from_str("deadline"), u64_to_dec(deadline));
        proof_data.insert(String::from_str("winning_hash"), winning_hash.clone());
        proof_data.insert(String::from_str("total_capacity_gb"), crate::encode::u128_to_dec(total_capacity));
        proof_data.insert(String::from_str("total_plots"), usize_to_dec(self.plots.len()));
        proof_data.insert(
            String::from_str("plot_size_gb"),
            u64_to_dec(self.plots[best_idx].size_gb),
        );
        proof_data.insert(
            String::from_str("plot_nonce_count"),
            u64_to_dec(self.plots[best_idx].nonce_count),
        );
        let res = ConsensusResult {
            block: block.clone(),
            proof_data,
            execution_time_ms: elapsed_ms(exec_started, now_timestamp_millis()),
            energy_cost_micro: Some(10000),
        };
        proof {
            let ps = self.plots@;
            assert(core_msg(*block) == core_msg(*old(block)));
            assert(plot_deadline(ps[best_idx as int], *block) == plot_deadline(
                ps[best_idx as int],
                *old(block),
            ));
            assert forall|j: int| 0 <= j < ps.len() implies plot_deadline(
                #[trigger] ps[j],
                *block,
            ) == plot_deadline(ps[j], *old(block)) by {}
            if forall|j: int|
                0 <= j < ps.len() ==> (#[trigger] ps[j]).size_gb >= self.storage_requirement {
                lemma_first_valid_is_best(
                    ps,
                    *block,
                    self.storage_requirement,
                    best_idx as int,
                    deadline as int,
                    0,
                );
            }
        }
        Ok(res)
    }

    /// Finds the first capacity-passing plot whose deadline equals the
    /// nonce and re-derives the stored hash from it.
    pub fn validate_block(&self, block: &Block) -> (r: bool)
        requires
            self.wf(),
        ensures
            r == self.validates(*block),
    {
        let n = self.plots.len();
        let mut i: usize = 0;
        while i < n
            invariant
                self.wf(),
                n == self.plots@.len(),
                i <= n,
                first_valid_deadline(self.plots@, *block, self.storage_requirement, 0)
                    == first_valid_deadline(
                    self.plots@,
                    *block,
                    self.storage_requirement,
                    i as int,
                ),
            decreases n - i,
        {
            let plot = &self.plots[i];
            if !self.verify_plot_capacity(plot) {
                i = i + 1;
                continue ;
            }
            match self.calculate_deadline_for_plot(plot, block) {
                Some(found) => {
                    let (calculated_deadline, winning_hash) = found;
                    if calculated_deadline == block.nonce {
                        let mut msg = block.core_message();
                        msg.append(plot.plot_id.as_str());
                        msg.append(winning_hash.as_str());
                        let expected = sha256_hex(msg.as_str());
                        return str_eq(expected.as_str(), block.hash.as_str());
                    }
                },
                None => {},
            }
            i = i + 1;
        }
        false
    }

    pub fn get_algorithm_name(&self) -> (r: &'static str)
        ensures
            r@ == "Proof of Capacity"@,
    {
        "Proof of Capacity"
    }

    /// Energy efficiency in thousandths.
    pub fn get_energy_efficiency(&self) -> (r: Option<u64>)
        ensures
            r == Some(950u64),
    {
        Some(950)
    }

    pub fn get_statistics(&self) -> (r: KvMap)
        ensures
            r.wf(),
            r@ == ({
                let ps = self.plots@;
                let n = ps.len() as int;
                let total = sum_capacity(ps, n);
                let base = Map::<Seq<char>, Seq<char>>::empty().insert(
                    "total_plots"@,
                    dec_of(ps.len()),
                ).insert("total_capacity_gb"@, dec_of(total as nat)).insert(
                    "storage_requirement_gb"@,
                    dec_of(self.storage_requirement as nat),
                ).insert(
                    "verification_samples"@,
                    dec_of(self.plot_verification_samples as nat),
                );
                if n > 0 {
                    base.insert("average_plot_size_gb"@, dec_of((total / n) as nat)).insert(
                        "total_hash_pairs"@,
                        dec_of(sum_pairs(ps, n) as nat),
                    )
                } else {
                    base
                }
            }),
    {
        let n = self.plots.len();
        let total = self.get_total_capacity();
        let mut total_pairs: u128 = 0;
        let mut i: usize = 0;
        while i < n
            invariant
                n == self.plots@.len(),
                i <= n,
                total == sum_capacity(self.plots@, n as int),
                total <= (n as int) * (u64::MAX as int),
                total_pairs == sum_pairs(self.plots@, i as int),
                total_pairs <= (i as int) * (u64::MAX as int),
            decreases n - i,
        {
            total_pairs = total_pairs + (self.plots[i].hash_pairs.len() as u128);
            i = i + 1;
        }
        let mut stats = KvMap::new();
        stats.insert(String::from_str("total_plots"), usize_to_dec(n));
        stats.insert(String::from_str("total_capacity_gb"), crate::encode::u128_to_dec(total));
        stats.insert(
            String::from_str("storage_requirement_gb"),
            u64_to_dec(self.storage_requirement),
        );
        stats.insert(
            String::from_str("verification_samples"),
            usize_to_dec(self.plot_verification_samples),
        );
        if n > 0 {
            let avg = total / (n as u128);
            stats.insert(String::from_str("average_plot_size_gb"), crate::encode::u128_to_dec(avg));
            stats.insert(
                String::from_str("total_hash_pairs"),
                crate::encode::u128_to_dec(total_pairs),
            );
        }
        stats
    }

    /// Reads `storage_requirement` and `verification_samples`; fails on the
    /// first value that does not parse.
    pub fn configure(&mut self, config: ConsensusConfig) -> (r: Result<(), String>)
        requires
            config.additional_params.wf(),
            old(self).wf(),
        ensures
            configure_post(*old(self), *final(self), config.additional_params@, r is Ok),
    {
        match config.additional_params.get("storage_requirement") {
            Some(text) => {
                match parse_dec_u64(text.as_str()) {
                    Some(v) => {
                        self.storage_requirement = v;
                    },
                    None => {
                        return Err(String::from_str("Invalid storage_requirement parameter"));
                    },
                }
            },
            None => {},
        }
        match config.additional_params.get("verification_samples") {
            Some(text) => {
                match parse_dec_usize(text.as_str()) {
                    Some(v) => {
                        self.plot_verification_samples = v;
                    },
                    None => {
                        return Err(String::from_str("Invalid verification_samples parameter"));
                    },
                }
            },
            None => {},
        }
        Ok(())
    }
}

/// When every plot meets the per-plot requirement, the validation scan
/// settles exactly on the race winner: earlier plots either have no
/// deadline or a strictly larger one.
proof fn lemma_first_valid_is_best(
    plots: Seq<StoragePlot>,
    b: Block,
    requirement: u64,
    w: int,
    d: int,
    i: int,
)
    requires
        0 <= i <= w < plots.len(),
        b.nonce as int == d,
        plot_deadline(plots[w], b) == Some((d, plot_deadline(plots[w], b)->Some_0.1)),
        forall|j: int| 0 <= j < plots.len() ==> (#[trigger] plots[j]).size_gb >= requirement,
        forall|j: int|
            0 <= j < w ==> (plot_deadline(#[trigger] plots[j], b) is Some ==> plot_deadline(
                plots[j],
                b,
            )->Some_0.0 > d),
    ensures
        first_valid_deadline(plots, b, requirement, i) == w,
    decreases plots.len() - i,
{
    if i < w {
        if plots[i].hash_pairs@.len() > 0 {
            assert(plot_deadline(plots[i], b) is Some);
            assert(plot_deadline(plots[i], b)->Some_0.0 > d);
        }
        lemma_first_valid_is_best(plots, b, requirement, w, d, i + 1);
    } else {
        assert(plots[w].hash_pairs@.len() > 0) by {
            if plots[w].hash_pairs@.len() == 0 {
                assert(plot_deadline(plots[w], b) is None);
            }
        }
    }
}


/// What `configure` leaves behind, for a parameter map `m`: values applied
/// left to right, stopping at the first one that does not parse; `ok` says
/// whether the call returned without error.
pub open spec fn configure_post(
    pre: ProofOfCapacity,
    post: ProofOfCapacity,
    m: Map<Seq<char>, Seq<char>>,
    ok: bool,
) -> bool {
    &&& post.wf()
    &&& post.plots == pre.plots
    &&& (if m.contains_key("storage_requirement"@) && dec_parse_u64(
            m["storage_requirement"@],
        ) is None {
            &&& !ok
            &&& post == pre
        } else {
            let req = if m.contains_key("storage_requirement"@) {
                dec_parse_u64(m["storage_requirement"@])->Some_0
            } else {
                pre.storage_requirement
            };
            if m.contains_key("verification_samples"@) && dec_parse_usize(
                m["verification_samples"@],
            ) is None {
                &&& !ok
                &&& post.storage_requirement == req
                &&& post.plot_verification_samples == pre.plot_verification_samples
            } else {
                &&& ok
                &&& post.storage_requirement == req
                &&& post.plot_verification_samples == (if m.contains_key(
                    "verification_samples"@,
                ) {
                    dec_parse_usize(m["verification_samples"@])->Some_0
                } else {
                    pre.plot_verification_samples
                })
            }
        }
    )
}

} // verus!
