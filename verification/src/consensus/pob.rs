//! Proof of Burn: an append-only ledger of burned coins; mining power
//! decays with age and a seeded lottery over decayed power picks the
//! winning record, whose digest prefix becomes the nonce.

use vstd::prelude::*;
use crate::block::{core_msg, same_block, Block};
use crate::consensus::traits::{ConsensusConfig, ConsensusResult};
use crate::encode::{
    dec_of, dec_of_int, dec_parse_u64, hex_pad, hex_parse, i64_to_dec, is_hex_seq,
    lemma_hex_pad_parse_id, lemma_mul_le, parse_dec_u64, parse_hex_prefix, str_eq,
    str_starts_with, u128_to_dec, u64_to_dec, u64_to_hex16, usize_to_dec,
};
use crate::entropy::{seeded_draw_of, seeded_u64};
use crate::clock::{elapsed_ms, now_timestamp_millis};
use crate::hashing::{digest32, sha256_bytes, sha256_hex, sha256_hex_of};
use crate::kvmap::KvMap;

verus! {

pub struct BurnTransaction {
    pub amount: u64,
    pub burn_address: String,
    pub timestamp: i64,
    pub tx_hash: String,
}

impl Clone for BurnTransaction {
    fn clone(&self) -> (r: Self)
        ensures
            r == *self,
    {
        BurnTransaction {
            amount: self.amount,
            burn_address: self.burn_address.clone(),
            timestamp: self.timestamp,
            tx_hash: self.tx_hash.clone(),
        }
    }
}

pub struct ProofOfBurn {
    pub burn_transactions: Vec<BurnTransaction>,
    /// Minimum amount a burn must destroy.
    pub burn_amount: u64,
    /// Power kept per block of age, in thousandths.
    pub decay_millis: u64,
    pub burn_address: String,
}

/// The message a burn record digests: amount, unspendable address,
/// timestamp.
pub open spec fn burn_tx_msg(amount: u64, addr: Seq<char>, ts: i64) -> Seq<char> {
    dec_of(amount as nat) + addr + dec_of_int(ts as int)
}

pub open spec fn burn_tx_hash_of(amount: u64, addr: Seq<char>, ts: i64) -> Seq<char> {
    sha256_hex_of(burn_tx_msg(amount, addr, ts))
}

/// A record's age at a block index, in block units, never negative.
pub open spec fn age_of(idx: u64, ts: i64) -> nat {
    if ts >= 0 && idx as int >= ts as int {
        (idx as int - ts as int) as nat
    } else {
        0
    }
}

/// Mining power after `age` blocks of exponential decay, in integer
/// thousandth steps.
pub open spec fn decayed(amount: u64, decay: u64, age: nat) -> int
    decreases age,
{
    if age == 0 {
        amount as int
    } else {
        decayed(amount, decay, (age - 1) as nat) * decay / 1000
    }
}

pub open spec fn tx_power(tx: BurnTransaction, decay: u64, idx: u64) -> int {
    decayed(tx.amount, decay, age_of(idx, tx.timestamp))
}

/// Total decayed power of the first `i` records at a block index.
pub open spec fn total_power(txs: Seq<BurnTransaction>, decay: u64, idx: u64, i: int) -> int
    decreases i,
{
    if i <= 0 {
        0
    } else {
        total_power(txs, decay, idx, i - 1) + tx_power(txs[i - 1], decay, idx)
    }
}

/// The record the lottery walk lands on: the first whose cumulative power
/// covers the draw, the last one as fallback.
pub open spec fn select_burn_from(
    txs: Seq<BurnTransaction>,
    decay: u64,
    idx: u64,
    i: int,
    acc: int,
    draw: int,
) -> int
    decreases txs.len() - i,
{
    if i < 0 || i >= txs.len() {
        txs.len() - 1
    } else if acc + tx_power(txs[i], decay, idx) >= draw {
        i
    } else {
        select_burn_from(txs, decay, idx, i + 1, acc + tx_power(txs[i], decay, idx), draw)
    }
}

/// The winning record's position for a given previous-hash seed.
pub open spec fn selected_burn_index(
    txs: Seq<BurnTransaction>,
    decay: u64,
    idx: u64,
    previous_hash: Seq<char>,
) -> int {
    let total = total_power(txs, decay, idx, txs.len() as int);
    let draw = seeded_draw_of(digest32(previous_hash)) as int % total;
    select_burn_from(txs, decay, idx, 0, 0, draw)
}

/// The message a burn proof digests: identity fields, winning record's
/// digest, its decayed power.
pub open spec fn burn_proof_msg(b: Block, tx_hash: Seq<char>, power: int) -> Seq<char> {
    core_msg(b) + tx_hash + dec_of(power as nat)
}

pub open spec fn burn_proof_of(b: Block, tx_hash: Seq<char>, power: int) -> Seq<char> {
    sha256_hex_of(burn_proof_msg(b, tx_hash, power))
}

/// The first record whose digest opens with the given sixteen characters,
/// or -1.
pub open spec fn first_with_prefix(txs: Seq<BurnTransaction>, p: Seq<char>, i: int) -> int
    decreases txs.len() - i,
{
    if i < 0 || i >= txs.len() {
        -1
    } else if txs[i].tx_hash@.take(16) == p {
        i
    } else {
        first_with_prefix(txs, p, i + 1)
    }
}

pub open spec fn sum_amounts(txs: Seq<BurnTransaction>, i: int) -> int
    decreases i,
{
    if i <= 0 {
        0
    } else {
        sum_amounts(txs, i - 1) + txs[i - 1].amount
    }
}

pub open spec fn max_amount(txs: Seq<BurnTransaction>, i: int) -> int
    decreases i,
{
    if i <= 0 {
        0
    } else if txs[i - 1].amount >= max_amount(txs, i - 1) {
        txs[i - 1].amount as int
    } else {
        max_amount(txs, i - 1)
    }
}

pub open spec fn min_amount(txs: Seq<BurnTransaction>, i: int) -> int
    decreases i,
{
    if i <= 0 {
        u64::MAX as int
    } else if txs[i - 1].amount <= min_amount(txs, i - 1) {
        txs[i - 1].amount as int
    } else {
        min_amount(txs, i - 1)
    }
}

/// Power that has reached zero stays zero.
proof fn lemma_decayed_zero(amount: u64, decay: u64, k: nat, age: nat)
    requires
        decayed(amount, decay, k) == 0,
        k <= age,
    ensures
        decayed(amount, decay, age) == 0,
    decreases age - k,
{
    if k < age {
        lemma_decayed_zero(amount, decay, k, (age - 1) as nat);
    }
}

/// Undecayed power stays at the full amount.
proof fn lemma_decayed_full(amount: u64, age: nat)
    ensures
        decayed(amount, 1000, age) == amount,
    decreases age,
{
    if age > 0 {
        lemma_decayed_full(amount, (age - 1) as nat);
    }
}

/// With pairwise-distinct digest prefixes, the first record holding the
/// winner's prefix is the winner itself.
pub proof fn lemma_first_prefix_unique(txs: Seq<BurnTransaction>, idx: int)
    requires
        0 <= idx < txs.len(),
        forall|i: int, j: int|
            0 <= i < j < txs.len() ==> (#[trigger] txs[i]).tx_hash@.take(16) != (
            #[trigger] txs[j]).tx_hash@.take(16),
    ensures
        first_with_prefix(txs, txs[idx].tx_hash@.take(16), 0) == idx,
{
    lemma_first_prefix_from(txs, idx, 0);
}

proof fn lemma_first_prefix_from(txs: Seq<BurnTransaction>, idx: int, i: int)
    requires
        0 <= i <= idx < txs.len(),
        forall|j: int, k: int|
            0 <= j < k < txs.len() ==> (#[trigger] txs[j]).tx_hash@.take(16) != (
            #[trigger] txs[k]).tx_hash@.take(16),
    ensures
        first_with_prefix(txs, txs[idx].tx_hash@.take(16), i) == idx,
    decreases txs.len() - i,
{
    if txs[i].tx_hash@.take(16) == txs[idx].tx_hash@.take(16) {
        assert(i == idx);
    } else {
        lemma_first_prefix_from(txs, idx, i + 1);
    }
}

impl ProofOfBurn {
    /// The decay never exceeds unity, timestamps are non-negative, and
    /// every record carries a 64-digit hexadecimal digest.
    pub open spec fn wf(self) -> bool {
        &&& self.decay_millis <= 1000
        &&& forall|i: int|
            0 <= i < self.burn_transactions@.len() ==> {
                &&& (#[trigger] self.burn_transactions@[i]).timestamp >= 0
                &&& self.burn_transactions@[i].tx_hash@.len() == 64
                &&& is_hex_seq(self.burn_transactions@[i].tx_hash@)
            }
    }

    /// A block carries a valid burn proof when the first record whose
    /// digest opens with the nonce's sixteen hex digits re-derives the
    /// stored hash from its own decayed power.
    pub open spec fn validates(self, b: Block) -> bool {
        let p = hex_pad(b.nonce as nat, 16);
        let i = first_with_prefix(self.burn_transactions@, p, 0);
        &&& i >= 0
        &&& b.hash@ == burn_proof_of(
            b,
            self.burn_transactions@[i].tx_hash@,
            tx_power(self.burn_transactions@[i], self.decay_millis, b.index),
        )
    }

    pub fn new(burn_amount: u64) -> (r: ProofOfBurn)
        ensures
            r.burn_transactions@.len() == 0,
            r.burn_amount == burn_amount,
            r.decay_millis == 950,
            r.burn_address@ == "1111111111111111111114oLvT2"@,
            r.wf(),
    {
        ProofOfBurn {
            burn_transactions: Vec::new(),
            burn_amount,
            decay_millis: 950,
            burn_address: String::from_str("1111111111111111111114oLvT2"),
        }
    }

    /// Records a burn; rejected below the minimum amount. Returns the new
    /// record's digest.
    pub fn add_burn_transaction(&mut self, amount: u64, timestamp: i64) -> (r: Result<
        String,
        String,
    >)
        requires
            old(self).wf(),
            timestamp >= 0,
        ensures
            final(self).wf(),
            final(self).burn_amount == old(self).burn_amount,
            final(self).decay_millis == old(self).decay_millis,
            final(self).burn_address == old(self).burn_address,
            (r is Err) <==> amount < old(self).burn_amount,
            r is Err ==> *final(self) == *old(self),
            match r {
                Ok(tx_hash) => ({
                    let tx = final(self).burn_transactions@.last();
                    &&& final(self).burn_transactions@.len() == old(self).burn_transactions@.len()
                        + 1
                    &&& forall|i: int|
                        0 <= i < old(self).burn_transactions@.len()
                            ==> final(self).burn_transactions@[i] == old(
                            self,
                        ).burn_transactions@[i]
                    &&& tx.amount == amount
                    &&& tx.timestamp == timestamp
                    &&& tx.burn_address == old(self).burn_address
                    &&& tx.tx_hash@ == burn_tx_hash_of(
                        amount,
                        old(self).burn_address@,
                        timestamp,
                    )
                    &&& tx_hash@ == tx.tx_hash@
                }),
                Err(_) => true,
            },
    {
        if amount < self.burn_amount {
            return Err(String::from_str("Burn amount is below minimum"));
        }
        let mut msg = u64_to_dec(amount);
        msg.append(self.burn_address.as_str());
        let ts_text = i64_to_dec(timestamp);
        msg.append(ts_text.as_str());
        let tx_hash = sha256_hex(msg.as_str());
        let tx = BurnTransaction {
            amount,
            burn_address: self.burn_address.clone(),
            timestamp,
            tx_hash: tx_hash.clone(),
        };
        self.burn_transactions.push(tx);
        Ok(tx_hash)
    }

    /// The decayed power of one amount after `age` blocks.
    fn decayed_power(&self, amount: u64, age: u64) -> (r: u64)
        requires
            self.decay_millis <= 1000,
        ensures
            r == decayed(amount, self.decay_millis, age as nat),
    {
        if self.decay_millis == 1000 {
            proof {
                lemma_decayed_full(amount, age as nat);
            }
            return amount;
        }
        let mut p: u128 = amount as u128;
        let mut k: u64 = 0;
        while k < age
            invariant
                self.decay_millis < 1000,
                k <= age,
                p == decayed(amount, self.decay_millis, k as nat),
                0 <= p <= amount,
            decreases age - k,
        {
            if p == 0 {
                proof {
                    lemma_decayed_zero(amount, self.decay_millis, k as nat, age as nat);
                }
                return 0;
            }
            proof {
                lemma_mul_le(p as int, self.decay_millis as int, u64::MAX as int, 1000);
                lemma_mul_le(p as int, self.decay_millis as int, p as int, 1000);
                vstd::arithmetic::div_mod::lemma_div_is_ordered(
                    p as int * self.decay_millis as int,
                    p as int * 1000,
                    1000,
                );
                assert(p as int * 1000 / 1000 == p as int) by (nonlinear_arith);
            }
            p = p * (self.decay_millis as u128) / 1000;
            k = k + 1;
        }
        p as u64
    }

    /// Total decayed power of the ledger at a block index.
    fn calculate_mining_power(&self, current_block_index: u64) -> (r: u128)
        requires
            self.wf(),
        ensures
            r == total_power(
                self.burn_transactions@,
                self.decay_millis,
                current_block_index,
                self.burn_transactions@.len() as int,
            ),
    {
        let n = self.burn_transactions.len();
        let mut total: u128 = 0;
        let mut i: usize = 0;
        while i < n
            invariant
                self.wf(),
                n == self.burn_transactions@.len(),
                i <= n,
                total == total_power(
                    self.burn_transactions@,
                    self.decay_millis,
                    current_block_index,
                    i as int,
                ),
                total <= (i as int) * (u64::MAX as int),
            decreases n - i,
        {
            let tx = &self.burn_transactions[i];
            let age: u64 = if tx.timestamp >= 0 && current_block_index >= (tx.timestamp as u64) {
                current_block_index - (tx.timestamp as u64)
            } else {
                0
            };
            proof {
                assert(age as nat == age_of(current_block_index, tx.timestamp));
            }
            let power = self.decayed_power(tx.amount, age);
            total = total + (power as u128);
            i = i + 1;
        }
        total
    }

    /// The 32-byte lottery seed: the digest of the previous block's hash
    /// text.
    fn create_seed_from_hash(&self, hash: &str) -> (r: Vec<u8>)
        ensures
            r@ == digest32(hash@),
            r@.len() == 32,
    {
        sha256_bytes(hash)
    }

    /// The lottery walk over cumulative decayed power; yields the winner's
    /// position, or nothing when the ledger is empty or powerless.
    fn select_miner(&self, block: &Block) -> (r: Option<usize>)
        requires
            self.wf(),
        ensures
            match r {
                Some(i) => {
                    &&& self.burn_transactions@.len() > 0
                    &&& total_power(
                        self.burn_transactions@,
                        self.decay_millis,
                        block.index,
                        self.burn_transactions@.len() as int,
                    ) > 0
                    &&& i < self.burn_transactions@.len()
                    &&& i == selected_burn_index(
                        self.burn_transactions@,
                        self.decay_millis,
                        block.index,
                        block.previous_hash@,
                    )
                },
                None => self.burn_transactions@.len() == 0 || total_power(
                    self.burn_transactions@,
                    self.decay_millis,
                    block.index,
                    self.burn_transactions@.len() as int,
                ) == 0,
            },
    {
        let n = self.burn_transactions.len();
        if n == 0 {
            return None;
        }
        let total = self.calculate_mining_power(block.index);
        if total == 0 {
            return None;
        }
        let seed = self.create_seed_from_hash(block.previous_hash.as_str());
        let word = seeded_u64(&seed);
        let draw: u128 = (word as u128) % total;
        let mut acc: u128 = 0;
        let mut i: usize = 0;
        while i < n
            invariant
                self.wf(),
                n == self.burn_transactions@.len(),
                n > 0,
                i <= n,
                acc == total_power(self.burn_transactions@, self.decay_millis, block.index, i as int),
                acc <= (i as int) * (u64::MAX as int),
                total_power(
                    self.burn_transactions@,
                    self.decay_millis,
                    block.index,
                    n as int,
                ) > 0,
                draw == seeded_draw_of(digest32(block.previous_hash@)) as int % total_power(
                    self.burn_transactions@,
                    self.decay_millis,
                    block.index,
                    n as int,
                ),
                select_burn_from(
                    self.burn_transactions@,
                    self.decay_millis,
                    block.index,
                    0,
                    0,
                    draw as int,
                ) == select_burn_from(
                    self.burn_transactions@,
                    self.decay_millis,
                    block.index,
                    i as int,
                    acc as int,
                    draw as int,
                ),
            decreases n - i,
        {
            let tx = &self.burn_transactions[i];
            let age: u64 = if tx.timestamp >= 0 && block.index >= (tx.timestamp as u64) {
                block.index - (tx.timestamp as u64)
            } else {
                0
            };
            proof {
                assert(age as nat == age_of(block.index, tx.timestamp));
            }
            let power = self.decayed_power(tx.amount, age);
            if acc + (power as u128) >= draw {
                return Some(i);
            }
            acc = acc + (power as u128);
            i = i + 1;
        }
        proof {
            assert(select_burn_from(
                self.burn_transactions@,
                self.decay_millis,
                block.index,
                n as int,
                acc as int,
                draw as int,
            ) == n - 1);
        }
        Some(n - 1)
    }

    /// The burn proof digest over a record and its power.
    fn create_burn_proof(&self, block: &Block, selected_tx_hash: &str, mining_power: u64) -> (r:
        String)
        ensures
            r@ == burn_proof_of(*block, selected_tx_hash@, mining_power as int),
    {
        let mut msg = block.core_message();
        msg.append(selected_tx_hash);
        let power_text = u64_to_dec(mining_power);
        msg.append(power_text.as_str());
        sha256_hex(msg.as_str())
    }

    /// Whether the ledger holds a record with the given digest.
    pub fn verify_burn_transaction(&self, tx_hash: &str) -> (r: bool)
        ensures
            r == (exists|i: int|
                0 <= i < self.burn_transactions@.len() && (
                #[trigger] self.burn_transactions@[i]).tx_hash@ == tx_hash@),
    {
        let n = self.burn_transactions.len();
        let mut i: usize = 0;
        while i < n
            invariant
                n == self.burn_transactions@.len(),
                i <= n,
                forall|j: int|
                    0 <= j < i ==> (#[trigger] self.burn_transactions@[j]).tx_hash@ != tx_hash@,
            decreases n - i,
        {
            if str_eq(self.burn_transactions[i].tx_hash.as_str(), tx_hash) {
                return true;
            }
            i = i + 1;
        }
        false
    }

    /// Runs the lottery over decayed power, stamps the proof and stores the
    /// winner's digest prefix as the nonce; fails exactly when the ledger
    /// is empty or holds no power. With pairwise-distinct digest prefixes
    /// the finalized block validates against this same state.
    pub fn execute_consensus(&mut self, block: &mut Block) -> (r: Result<ConsensusResult, String>)
        requires
            old(block).wf(),
            old(self).wf(),
        ensures
            *final(self) == *old(self),
            final(block).index == old(block).index,
            final(block).timestamp == old(block).timestamp,
            final(block).data == old(block).data,
            final(block).previous_hash == old(block).previous_hash,
            final(block).consensus_data@ == old(block).consensus_data@,
            final(block).difficulty == old(block).difficulty,
            final(block).wf(),
            (r is Ok) <==> (old(self).burn_transactions@.len() > 0 && total_power(
                old(self).burn_transactions@,
                old(self).decay_millis,
                old(block).index,
                old(self).burn_transactions@.len() as int,
            ) > 0),
            match r {
                Ok(res) => {
                    let txs = old(self).burn_transactions@;
                    let win = txs[selected_burn_index(
                        txs,
                        old(self).decay_millis,
                        old(block).index,
                        old(block).previous_hash@,
                    )];
                    let power = tx_power(win, old(self).decay_millis, old(block).index);
                    &&& final(block).nonce == hex_parse(win.tx_hash@.take(16))
                    &&& final(block).hash@ == burn_proof_of(*final(block), win.tx_hash@, power)
                    &&& (forall|i: int, j: int|
                        0 <= i < j < txs.len() ==> (#[trigger] txs[i]).tx_hash@.take(16) != (
                        #[trigger] txs[j]).tx_hash@.take(16)) ==> final(self).validates(
                        *final(block),
                    )
                    &&& same_block(res.block, *final(block))
                    &&& res.proof_data.wf()
                    &&& res.proof_data@ == Map::<Seq<char>, Seq<char>>::empty().insert(
                        "selected_burn_tx"@,
                        win.tx_hash@,
                    ).insert("mining_power"@, dec_of(power as nat)).insert(
                        "total_burns"@,
                        dec_of(txs.len()),
                    ).insert("decay_factor"@, dec_of(old(self).decay_millis as nat)).insert(
                        "burn_address"@,
                        old(self).burn_address@,
                    ).insert(
                        "total_burned"@,
                        dec_of(sum_amounts(txs, txs.len() as int) as nat),
                    )
                    &&& res.energy_cost_micro == Some(5000u64)
                },
                Err(_) => *final(block) == *old(block),
            },
    {
        let exec_started = now_timestamp_millis();
        if self.burn_transactions.len() == 0 {
            return Err(String::from_str("No burn transactions available for mining"));
        }
        let idx = match self.select_miner(block) {
            Some(i) => i,
            None => {
                return Err(String::from_str("Unable to select miner"));
            },
        };
        let winner = self.burn_transactions[idx].clone();
        let age: u64 = if winner.timestamp >= 0 && block.index >= (winner.timestamp as u64) {
            block.index - (winner.timestamp as u64)
        } else {
            0
        };
        proof {
            assert(age as nat == age_of(block.index, winner.timestamp));
        }
        let power = self.decayed_power(winner.amount, age);
        let burn_proof = self.create_burn_proof(block, winner.tx_hash.as_str(), power);
        block.hash = burn_proof.clone();
        proof {
            assert(winner.tx_hash@.take(16) =~= winner.tx_hash@.subrange(0, 16));
            assert forall|j: int| 0 <= j < 16 implies crate::encode::char_hex_val(
                #[trigger] winner.tx_hash@.take(16)[j],
            ) < 16 by {
                assert(winner.tx_hash@.take(16)[j] == winner.tx_hash@[j]);
            }
        }
        block.nonce = parse_hex_prefix(winner.tx_hash.as_str(), 16);
        let n = self.burn_transactions.len();
        let mut total_burned: u128 = 0;
        let mut i: usize = 0;
        while i < n
            invariant
                n == self.burn_transactions@.len(),
                i <= n,
                total_burned == sum_amounts(self.burn_transactions@, i as int),
                total_burned <= (i as int) * (u64::MAX as int),
            decreases n - i,
        {
            total_burned = total_burned + (self.burn_transactions[i].amount as u128);
            i = i + 1;
        }
        let mut proof_data = KvMap::new();
        proof_data.insert(String::from_str("selected_burn_tx"), winner.tx_hash.clone());
        proof_data.insert(String::from_str("mining_power"), u64_to_dec(power));
        proof_data.insert(String::from_str("total_burns"), usize_to_dec(n));
        proof_data.insert(String::from_str("decay_factor"), u64_to_dec(self.decay_millis));
        proof_data.insert(String::from_str("burn_address"), self.burn_address.clone());
        proof_data.insert(String::from_str("total_burned"), u128_to_dec(total_burned));
        let res = ConsensusResult {
            block: block.clone(),
            proof_data,
            execution_time_ms: elapsed_ms(exec_started, now_timestamp_millis()),
            energy_cost_micro: Some(5000),
        };
        proof {
            let txs = self.burn_transactions@;
            assert(burn_proof_msg(*block, winner.tx_hash@, power as int) == burn_proof_msg(
                *old(block),
                winner.tx_hash@,
                power as int,
            ));
            if forall|i: int, j: int|
                0 <= i < j < txs.len() ==> (#[trigger] txs[i]).tx_hash@.take(16) != (
                #[trigger] txs[j]).tx_hash@.take(16) {
                lemma_hex_pad_parse_id(winner.tx_hash@.take(16));
                lemma_first_prefix_unique(txs, idx as int);
            }
        }
        Ok(res)
    }

    /// Finds the record whose digest opens with the nonce's hex form and
    /// re-derives the proof from its decayed power; pure.
    pub fn validate_block(&self, block: &Block) -> (r: bool)
        requires
            self.wf(),
        ensures
            r == self.validates(*block),
    {
        let nonce_hex = u64_to_hex16(block.nonce);
        proof {
            crate::encode::lemma_hex_pad_len(block.nonce as nat, 16);
        }
        let n = self.burn_transactions.len();
        let mut i: usize = 0;
        while i < n
            invariant
                self.wf(),
                n == self.burn_transactions@.len(),
                i <= n,
                nonce_hex@ == hex_pad(block.nonce as nat, 16),
                nonce_hex@.len() == 16,
                first_with_prefix(self.burn_transactions@, nonce_hex@, 0) == first_with_prefix(
                    self.burn_transactions@,
                    nonce_hex@,
                    i as int,
                ),
            decreases n - i,
        {
            let tx = &self.burn_transactions[i];
            if str_starts_with(tx.tx_hash.as_str(), nonce_hex.as_str()) {
                let age: u64 = if tx.timestamp >= 0 && block.index >= (tx.timestamp as u64) {
                    block.index - (tx.timestamp as u64)
                } else {
                    0
                };
                proof {
                    assert(age as nat == age_of(block.index, tx.timestamp));
                }
                let power = self.decayed_power(tx.amount, age);
                let expected = self.create_burn_proof(block, tx.tx_hash.as_str(), power);
                return str_eq(expected.as_str(), block.hash.as_str());
            }
            i = i + 1;
        }
        false
    }

    pub fn get_algorithm_name(&self) -> (r: &'static str)
        ensures
            r@ == "Proof of Burn"@,
    {
        "Proof of Burn"
    }

    /// Energy efficiency in thousandths.
    pub fn get_energy_efficiency(&self) -> (r: Option<u64>)
        ensures
            r == Some(900u64),
    {
        Some(900)
    }

    pub fn get_statistics(&self) -> (r: KvMap)
        ensures
            r.wf(),
            r@ == ({
                let txs = self.burn_transactions@;
                let base = Map::<Seq<char>, Seq<char>>::empty().insert(
                    "total_burn_transactions"@,
                    dec_of(txs.len()),
                ).insert("minimum_burn_amount"@, dec_of(self.burn_amount as nat)).insert(
                    "decay_factor"@,
                    dec_of(self.decay_millis as nat),
                ).insert("burn_address"@, self.burn_address@);
                if txs.len() > 0 {
                    base.insert(
                        "total_burned"@,
                        dec_of(sum_amounts(txs, txs.len() as int) as nat),
                    ).insert(
                        "average_burn"@,
                        dec_of((sum_amounts(txs, txs.len() as int) / txs.len() as int) as nat),
                    ).insert("max_burn"@, dec_of(max_amount(txs, txs.len() as int) as nat)).insert(
                        "min_burn"@,
                        dec_of(min_amount(txs, txs.len() as int) as nat),
                    )
                } else {
                    base
                }
            }),
    {
        let n = self.burn_transactions.len();
        let mut total: u128 = 0;
        let mut max_burn: u64 = 0;
        let mut min_burn: u64 = u64::MAX;
        let mut i: usize = 0;
        while i < n
            invariant
                n == self.burn_transactions@.len(),
                i <= n,
                total == sum_amounts(self.burn_transactions@, i as int),
                total <= (i as int) * (u64::MAX as int),
                max_burn == max_amount(self.burn_transactions@, i as int),
                min_burn == min_amount(self.burn_transactions@, i as int),
            decreases n - i,
        {
            let a = self.burn_transactions[i].amount;
            total = total + (a as u128);
            if a >= max_burn {
                max_burn = a;
            }
            if a <= min_burn {
                min_burn = a;
            }
            i = i + 1;
        }
        let mut stats = KvMap::new();
        stats.insert(String::from_str("total_burn_transactions"), usize_to_dec(n));
        stats.insert(String::from_str("minimum_burn_amount"), u64_to_dec(self.burn_amount));
        stats.insert(String::from_str("decay_factor"), u64_to_dec(self.decay_millis));
        stats.insert(String::from_str("burn_address"), self.burn_address.clone());
        if n > 0 {
            stats.insert(String::from_str("total_burned"), u128_to_dec(total));
            stats.insert(String::from_str("average_burn"), u128_to_dec(total / (n as u128)));
            stats.insert(String::from_str("max_burn"), u64_to_dec(max_burn));
            stats.insert(String::from_str("min_burn"), u64_to_dec(min_burn));
        }
        stats
    }

    /// Reads `burn_amount`, `decay_factor_millis` (at most 1000) and
    /// `burn_address`; fails on the first value that does not parse.
    pub fn configure(&mut self, config: ConsensusConfig) -> (r: Result<(), String>)
        requires
            config.additional_params.wf(),
            old(self).wf(),
        ensures
            configure_post(*old(self), *final(self), config.additional_params@, r is Ok),
    {
        match config.additional_params.get("burn_amount") {
            Some(text) => {
                match parse_dec_u64(text.as_str()) {
                    Some(v) => {
                        self.burn_amount = v;
                    },
                    None => {
                        return Err(String::from_str("Invalid burn_amount parameter"));
                    },
                }
            },
            None => {},
        }
        match config.additional_params.get("decay_factor_millis") {
            Some(text) => {
                match parse_dec_u64(text.as_str()) {
                    Some(v) => {
                        if v > 1000 {
                            return Err(String::from_str("Invalid decay_factor parameter"));
                        }
                        self.decay_millis = v;
                    },
                    None => {
                        return Err(String::from_str("Invalid decay_factor parameter"));
                    },
                }
            },
            None => {},
        }
        match config.additional_params.get("burn_address") {
            Some(text) => {
                let addr = text.clone();
                self.burn_address = addr;
            },
            None => {},
        }
        Ok(())
    }
}


/// What `configure` leaves behind, for a parameter map `m`: values applied
/// left to right, stopping at the first one that does not parse; `ok` says
/// whether the call returned without error.
pub open spec fn configure_post(
    pre: ProofOfBurn,
    post: ProofOfBurn,
    m: Map<Seq<char>, Seq<char>>,
    ok: bool,
) -> bool {
    &&& post.wf()
    &&& post.burn_transactions == pre.burn_transactions
    &&& (if m.contains_key("burn_amount"@) && dec_parse_u64(m["burn_amount"@]) is None {
            &&& !ok
            &&& post == pre
        } else {
            let amount = if m.contains_key("burn_amount"@) {
                dec_parse_u64(m["burn_amount"@])->Some_0
            } else {
                pre.burn_amount
            };
            if m.contains_key("decay_factor_millis"@) && (dec_parse_u64(
                m["decay_factor_millis"@],
            ) is None || dec_parse_u64(m["decay_factor_millis"@])->Some_0 > 1000) {
                &&& !ok
                &&& post.burn_amount == amount
                &&& post.decay_millis == pre.decay_millis
                &&& post.burn_address == pre.burn_address
            } else {
                &&& ok
                &&& post.burn_amount == amount
                &&& post.decay_millis == (if m.contains_key(
                    "decay_factor_millis"@,
                ) {
                    dec_parse_u64(m["decay_factor_millis"@])->Some_0
                } else {
                    pre.decay_millis
                })
                &&& post.burn_address@ == (if m.contains_key("burn_address"@) {
                    m["burn_address"@]
                } else {
                    pre.burn_address@
                })
            }
        }
    )
}

} // verus!
