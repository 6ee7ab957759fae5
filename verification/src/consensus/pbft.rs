//! Practical Byzantine Fault Tolerance: a three-phase vote simulation over
//! an in-process node list, with view and sequence counters, a message log
//! and primary rotation every ten sequences.

use vstd::prelude::*;
use crate::block::{core_msg, same_block, Block};
use crate::consensus::traits::{ConsensusConfig, ConsensusResult};
use crate::encode::{
    dec_of, dec_of_int, dec_parse_u64, dec_parse_usize, i64_to_dec, parse_dec_u64,
    parse_dec_usize, str_eq, u64_to_dec, usize_to_dec,
};
use crate::clock::{elapsed_ms, now_timestamp_millis};
use crate::hashing::{sha256_hex, sha256_hex_of};
use crate::kvmap::KvMap;

verus! {

#[derive(Clone, Copy, PartialEq, Eq, Structural)]
pub enum MessageType {
    PrePrepare,
    Prepare,
    Commit,
}

pub struct PbftMessage {
    pub message_type: MessageType,
    pub view: u64,
    pub sequence: u64,
    pub block_hash: String,
    pub node_id: String,
    pub signature: String,
}

pub struct PbftNode {
    pub node_id: String,
    pub is_primary: bool,
    pub is_faulty: bool,
    /// Reputation in thousandths; honest nodes hold 1000, injected faults
    /// drop to 100.
    pub reputation_millis: u64,
}

impl Clone for PbftNode {
    fn clone(&self) -> (r: Self)
        ensures
            r == *self,
    {
        PbftNode {
            node_id: self.node_id.clone(),
            is_primary: self.is_primary,
            is_faulty: self.is_faulty,
            reputation_millis: self.reputation_millis,
        }
    }
}

pub struct PracticalByzantineFaultTolerance {
    pub nodes: Vec<PbftNode>,
    pub node_count: usize,
    /// Tolerated share of faulty nodes, in thousandths.
    pub fault_tolerance_millis: u64,
    pub current_view: u64,
    pub current_sequence: u64,
    pub message_log: Vec<PbftMessage>,
}

pub open spec fn msg_label(t: MessageType) -> Seq<char> {
    match t {
        MessageType::PrePrepare => "PrePrepare"@,
        MessageType::Prepare => "Prepare"@,
        MessageType::Commit => "Commit"@,
    }
}

/// The text a node signs: phase, view, sequence, block hash, node name,
/// block timestamp.
pub open spec fn pbft_sign_msg(
    t: MessageType,
    view: u64,
    seq: u64,
    block_hash: Seq<char>,
    node_id: Seq<char>,
    ts: i64,
) -> Seq<char> {
    msg_label(t) + dec_of(view as nat) + dec_of(seq as nat) + block_hash + node_id + dec_of_int(
        ts as int,
    )
}

pub open spec fn pbft_sig_of(
    t: MessageType,
    view: u64,
    seq: u64,
    block_hash: Seq<char>,
    node_id: Seq<char>,
    ts: i64,
) -> Seq<char> {
    sha256_hex_of(pbft_sign_msg(t, view, seq, block_hash, node_id, ts))
}

/// The digest a finalized block carries: identity fields, view, sequence,
/// honest-node count.
pub open spec fn pbft_hash_of(b: Block, view: u64, seq: u64, honest: int) -> Seq<char> {
    sha256_hex_of(core_msg(b) + dec_of(view as nat) + dec_of(seq as nat) + dec_of(honest as nat))
}

/// Honest nodes among the first `i`.
pub open spec fn honest_count(ns: Seq<PbftNode>, i: int) -> nat
    decreases i,
{
    if i <= 0 {
        0
    } else {
        honest_count(ns, i - 1) + if ns[i - 1].is_faulty {
            0nat
        } else {
            1nat
        }
    }
}

/// Nodes marked primary among the first `i`.
pub open spec fn primary_count(ns: Seq<PbftNode>, i: int) -> nat
    decreases i,
{
    if i <= 0 {
        0
    } else {
        primary_count(ns, i - 1) + if ns[i - 1].is_primary {
            1nat
        } else {
            0nat
        }
    }
}

/// Honest non-primary nodes among the first `i`: the prepare voters.
pub open spec fn honest_nonprimary_count(ns: Seq<PbftNode>, i: int) -> nat
    decreases i,
{
    if i <= 0 {
        0
    } else {
        honest_nonprimary_count(ns, i - 1) + if !ns[i - 1].is_faulty && !ns[i - 1].is_primary {
            1nat
        } else {
            0nat
        }
    }
}

/// The first honest node marked primary, or -1.
pub open spec fn first_honest_primary(ns: Seq<PbftNode>, i: int) -> int
    decreases ns.len() - i,
{
    if i < 0 || i >= ns.len() {
        -1
    } else if ns[i].is_primary && !ns[i].is_faulty {
        i
    } else {
        first_honest_primary(ns, i + 1)
    }
}

/// The first node marked primary, or -1.
pub open spec fn first_primary(ns: Seq<PbftNode>, i: int) -> int
    decreases ns.len() - i,
{
    if i < 0 || i >= ns.len() {
        -1
    } else if ns[i].is_primary {
        i
    } else {
        first_primary(ns, i + 1)
    }
}

/// The position rotation hands the primary role to: the first honest node
/// after `idx` (wrapping, probing `len` positions), or -1 when every probe
/// is faulty.
pub open spec fn next_honest_probe(ns: Seq<PbftNode>, idx: int, k: int) -> int
    decreases ns.len() - k + 1,
{
    let n = ns.len() as int;
    if k > n {
        -1
    } else {
        let cand = if idx + k >= n {
            idx + k - n
        } else {
            idx + k
        };
        if 0 <= cand < n && !ns[cand].is_faulty {
            cand
        } else {
            next_honest_probe(ns, idx, k + 1)
        }
    }
}

pub open spec fn sum_reputation(ns: Seq<PbftNode>, i: int) -> int
    decreases i,
{
    if i <= 0 {
        0
    } else {
        sum_reputation(ns, i - 1) + ns[i - 1].reputation_millis
    }
}

impl PracticalByzantineFaultTolerance {
    /// The node list matches the declared count and at most one node is
    /// marked primary.
    pub open spec fn wf(self) -> bool {
        &&& self.nodes@.len() == self.node_count
        &&& primary_count(self.nodes@, self.nodes@.len() as int) <= 1
    }

    /// A block carries a valid agreement proof when its nonce is a live
    /// sequence number and the digest at the current view and honest count
    /// equals the stored hash; an old block re-checked after a view or
    /// fault-set change diverges by design.
    pub open spec fn validates(self, b: Block) -> bool {
        &&& !(b.nonce == 0 && self.current_sequence > 1)
        &&& b.hash@ == pbft_hash_of(
            b,
            self.current_view,
            b.nonce,
            honest_count(self.nodes@, self.nodes@.len() as int) as int,
        )
    }

    /// Builds `node_count` honest nodes, the first one primary.
    pub fn new(node_count: usize, fault_tolerance_millis: u64) -> (r:
        PracticalByzantineFaultTolerance)
        ensures
            r.wf(),
            r.nodes@.len() == node_count,
            r.node_count == node_count,
            r.fault_tolerance_millis == fault_tolerance_millis,
            r.current_view == 0,
            r.current_sequence == 0,
            r.message_log@.len() == 0,
            forall|i: int|
                0 <= i < node_count ==> {
                    &&& (#[trigger] r.nodes@[i]).node_id@ == "node_"@ + dec_of(i as nat)
                    &&& r.nodes@[i].is_primary == (i == 0)
                    &&& !r.nodes@[i].is_faulty
                    &&& r.nodes@[i].reputation_millis == 1000
                },
    {
        let mut nodes: Vec<PbftNode> = Vec::new();
        let mut i: usize = 0;
        while i < node_count
            invariant
                i <= node_count,
                nodes@.len() == i,
                forall|j: int|
                    0 <= j < i ==> {
                        &&& (#[trigger] nodes@[j]).node_id@ == "node_"@ + dec_of(j as nat)
                        &&& nodes@[j].is_primary == (j == 0)
                        &&& !nodes@[j].is_faulty
                        &&& nodes@[j].reputation_millis == 1000
                    },
            decreases node_count - i,
        {
            let mut id = String::new();
            id.append("node_");
            let num = usize_to_dec(i);
            id.append(num.as_str());
            nodes.push(
                PbftNode {
                    node_id: id,
                    is_primary: i == 0,
                    is_faulty: false,
                    reputation_millis: 1000,
                },
            );
            i = i + 1;
        }
        proof {
            if node_count > 0 {
                lemma_primary_count_single(nodes@, 0, node_count as int);
            }
        }
        PracticalByzantineFaultTolerance {
            nodes,
            node_count,
            fault_tolerance_millis,
            current_view: 0,
            current_sequence: 0,
            message_log: Vec::new(),
        }
    }

    /// Atomically replaces the fault set: rejected when it exceeds the
    /// tolerated maximum, leaving every node as it was; otherwise exactly
    /// the listed positions become faulty, at lowered reputation.
    #[verifier::rlimit(30)]
    pub fn set_faulty_nodes(&mut self, faulty_node_indices: Vec<usize>) -> (r: Result<(), String>)
        requires
            old(self).wf(),
        ensures
            final(self).wf(),
            final(self).node_count == old(self).node_count,
            final(self).fault_tolerance_millis == old(self).fault_tolerance_millis,
            final(self).current_view == old(self).current_view,
            final(self).current_sequence == old(self).current_sequence,
            final(self).message_log == old(self).message_log,
            (r is Err) <==> faulty_node_indices@.len() > old(self).node_count
                * old(self).fault_tolerance_millis / 1000,
            r is Err ==> *final(self) == *old(self),
            r is Ok ==> {
                &&& final(self).nodes@.len() == old(self).nodes@.len()
                &&& forall|i: int|
                    0 <= i < old(self).nodes@.len() ==> {
                        let marked = exists|j: int|
                            0 <= j < faulty_node_indices@.len() && (
                            #[trigger] faulty_node_indices@[j]) as int == i;
                        &&& (#[trigger] final(self).nodes@[i]).node_id == old(self).nodes@[i].node_id
                        &&& final(self).nodes@[i].is_primary == old(self).nodes@[i].is_primary
                        &&& final(self).nodes@[i].is_faulty == marked
                        &&& final(self).nodes@[i].reputation_millis == (if marked {
                            100int
                        } else {
                            old(self).nodes@[i].reputation_millis as int
                        })
                    }
            },
    {
        proof {
            crate::encode::lemma_mul_le(
                self.node_count as int,
                self.fault_tolerance_millis as int,
                u64::MAX as int,
                u64::MAX as int,
            );
        }
        let max_faulty_wide: u128 = (self.node_count as u128) * (
        self.fault_tolerance_millis as u128) / 1000;
        let requested = faulty_node_indices.len();
        let over = if max_faulty_wide > (usize::MAX as u128) {
            proof {
                assert(requested <= usize::MAX);
            }
            false
        } else {
            requested > (max_faulty_wide as usize)
        };
        if over {
            return Err(String::from_str("Too many faulty nodes"));
        }
        proof {
            assert(faulty_node_indices@.len() <= old(self).node_count
                * old(self).fault_tolerance_millis / 1000);
        }
        let n = self.nodes.len();
        let mut i: usize = 0;
        while i < n
            invariant
                old(self).wf(),
                n == self.nodes@.len(),
                n == old(self).nodes@.len(),
                i <= n,
                faulty_node_indices@.len() <= old(self).node_count
                    * old(self).fault_tolerance_millis / 1000,
                self.node_count == old(self).node_count,
                self.fault_tolerance_millis == old(self).fault_tolerance_millis,
                self.current_view == old(self).current_view,
                self.current_sequence == old(self).current_sequence,
                self.message_log == old(self).message_log,
                forall|j: int|
                    0 <= j < n ==> {
                        let marked = exists|k: int|
                            0 <= k < faulty_node_indices@.len() && (
                            #[trigger] faulty_node_indices@[k]) as int == j;
                        &&& (#[trigger] self.nodes@[j]).node_id == old(self).nodes@[j].node_id
                        &&& self.nodes@[j].is_primary == old(self).nodes@[j].is_primary
                        &&& (j < i ==> self.nodes@[j].is_faulty == marked
                            && self.nodes@[j].reputation_millis == (if marked {
                            100int
                        } else {
                            old(self).nodes@[j].reputation_millis as int
                        }))
                        &&& (j >= i ==> self.nodes@[j] == old(self).nodes@[j])
                    },
            decreases n - i,
        {
            let mut marked = false;
            let m = faulty_node_indices.len();
            let mut k: usize = 0;
            while k < m
                invariant
                    m == faulty_node_indices@.len(),
                    k <= m,
                    marked == exists|t: int|
                        0 <= t < k && (#[trigger] faulty_node_indices@[t]) as int == i as int,
                decreases m - k,
            {
                if faulty_node_indices[k] == i {
                    proof {
                        assert(faulty_node_indices@[k as int] as int == i as int);
                    }
                    marked = true;
                }
                k = k + 1;
            }
            let node = &self.nodes[i];
            let replacement = PbftNode {
                node_id: node.node_id.clone(),
                is_primary: node.is_primary,
                is_faulty: marked,
                reputation_millis: if marked {
                    100
                } else {
                    node.reputation_millis
                },
            };
            let ghost prev = self.nodes@;
            let _ = self.nodes.remove(i);
            self.nodes.insert(i, replacement);
            proof {
                assert(self.nodes@ =~= prev.update(i as int, self.nodes@[i as int]));
            }
            i = i + 1;
        }
        proof {
            lemma_primary_count_congruent(self.nodes@, old(self).nodes@, n as int);
        }
        Ok(())
    }

    /// The first honest node marked primary.
    fn get_primary_node(&self) -> (r: Option<usize>)
        ensures
            match r {
                Some(i) => {
                    &&& i == first_honest_primary(self.nodes@, 0)
                    &&& i < self.nodes@.len()
                    &&& self.nodes@[i as int].is_primary
                    &&& !self.nodes@[i as int].is_faulty
                },
                None => first_honest_primary(self.nodes@, 0) == -1,
            },
    {
        let n = self.nodes.len();
        let mut i: usize = 0;
        while i < n
            invariant
                n == self.nodes@.len(),
                i <= n,
                first_honest_primary(self.nodes@, 0) == first_honest_primary(
                    self.nodes@,
                    i as int,
                ),
            decreases n - i,
        {
            if self.nodes[i].is_primary && !self.nodes[i].is_faulty {
                return Some(i);
            }
            i = i + 1;
        }
        None
    }

    /// A node's signature over one protocol message.
    fn sign_message(&self, msg_type: MessageType, block: &Block, node_id: &str) -> (r: String)
        ensures
            r@ == pbft_sig_of(
                msg_type,
                self.current_view,
                self.current_sequence,
                block.hash@,
                node_id@,
                block.timestamp,
            ),
    {
        let mut msg = match msg_type {
            MessageType::PrePrepare => String::from_str("PrePrepare"),
            MessageType::Prepare => String::from_str("Prepare"),
            MessageType::Commit => String::from_str("Commit"),
        };
        let view_text = u64_to_dec(self.current_view);
        msg.append(view_text.as_str());
        let seq_text = u64_to_dec(self.current_sequence);
        msg.append(seq_text.as_str());
        msg.append(block.hash.as_str());
        msg.append(node_id);
        let ts_text = i64_to_dec(block.timestamp);
        msg.append(ts_text.as_str());
        sha256_hex(msg.as_str())
    }

    /// A signed protocol message at the current view and sequence.
    fn create_message(&self, msg_type: MessageType, block: &Block, node_id: &str) -> (r:
        PbftMessage)
        ensures
            r.message_type == msg_type,
            r.view == self.current_view,
            r.sequence == self.current_sequence,
            r.block_hash@ == block.hash@,
            r.node_id@ == node_id@,
            r.signature@ == pbft_sig_of(
                msg_type,
                self.current_view,
                self.current_sequence,
                block.hash@,
                node_id@,
                block.timestamp,
            ),
    {
        let signature = self.sign_message(msg_type, block, node_id);
        PbftMessage {
            message_type: msg_type,
            view: self.current_view,
            sequence: self.current_sequence,
            block_hash: block.hash.clone(),
            node_id: String::from_str(node_id),
            signature,
        }
    }

    /// A message is valid when its signature re-derives and its view and
    /// sequence match the current counters.
    fn verify_message(&self, message: &PbftMessage, block: &Block) -> (r: bool)
        ensures
            r == (message.signature@ == pbft_sig_of(
                message.message_type,
                self.current_view,
                self.current_sequence,
                block.hash@,
                message.node_id@,
                block.timestamp,
            ) && message.view == self.current_view && message.sequence == self.current_sequence),
    {
        let expected = self.sign_message(message.message_type, block, message.node_id.as_str());
        let sig_ok = str_eq(expected.as_str(), message.signature.as_str());
        sig_ok && message.view == self.current_view && message.sequence == self.current_sequence
    }
}

impl PracticalByzantineFaultTolerance {
    /// The three phases over the honest nodes: one pre-prepare from the
    /// primary, prepares from every honest non-primary, commits from every
    /// honest node, each checked and logged. Fails exactly when no honest
    /// primary exists; with one, the vote thresholds are always met.
    fn execute_pbft_consensus(&mut self, block: &Block) -> (r: Result<bool, String>)
        requires
            old(self).wf(),
        ensures
            final(self).wf(),
            final(self).nodes == old(self).nodes,
            final(self).node_count == old(self).node_count,
            final(self).fault_tolerance_millis == old(self).fault_tolerance_millis,
            final(self).current_view == old(self).current_view,
            final(self).current_sequence == old(self).current_sequence,
            (r is Err) <==> first_honest_primary(old(self).nodes@, 0) == -1,
            r is Err ==> final(self).message_log == old(self).message_log,
            match r {
                Ok(reached) => {
                    &&& reached
                    &&& final(self).message_log@.len() == old(self).message_log@.len() + 2
                        * honest_count(old(self).nodes@, old(self).nodes@.len() as int)
                },
                Err(_) => true,
            },
    {
        let primary_idx = match self.get_primary_node() {
            Some(i) => i,
            None => {
                return Err(String::from_str("No primary node available"));
            },
        };
        let n = self.nodes.len();
        let ghost ns = self.nodes@;
        proof {
            lemma_chp_lower(ns, primary_idx as int, n as int);
            lemma_chp_le_primary(ns, n as int);
            lemma_count_split(ns, n as int);
            lemma_honest_ge_chp(ns, n as int);
        }
        let primary_id = self.nodes[primary_idx].node_id.clone();
        let pre_prepare = self.create_message(MessageType::PrePrepare, block, primary_id.as_str());
        self.message_log.push(pre_prepare);
        let mut prepare_votes: usize = 0;
        let mut i: usize = 0;
        while i < n
            invariant
                old(self).wf(),
                ns == self.nodes@,
                n == ns.len(),
                i <= n,
                primary_idx < n,
                ns[primary_idx as int].is_primary,
                !ns[primary_idx as int].is_faulty,
                self.nodes == old(self).nodes,
                self.node_count == old(self).node_count,
                self.fault_tolerance_millis == old(self).fault_tolerance_millis,
                self.current_view == old(self).current_view,
                self.current_sequence == old(self).current_sequence,
                prepare_votes == honest_nonprimary_count(ns, i as int),
                prepare_votes <= i,
                self.message_log@.len() == old(self).message_log@.len() + 1 + prepare_votes,
            decreases n - i,
        {
            let is_faulty = self.nodes[i].is_faulty;
            let is_primary = self.nodes[i].is_primary;
            if !is_faulty && !is_primary {
                let node_id = self.nodes[i].node_id.clone();
                let prepare_msg = self.create_message(MessageType::Prepare, block, node_id.as_str());
                if self.verify_message(&prepare_msg, block) {
                    prepare_votes = prepare_votes + 1;
                    self.message_log.push(prepare_msg);
                }
            }
            i = i + 1;
        }
        let honest = count_honest(&self.nodes);
        proof {
            lemma_count_split(ns, n as int);
            lemma_chp_le_primary(ns, n as int);
            lemma_chp_lower(ns, primary_idx as int, n as int);
            lemma_honest_ge_chp(ns, n as int);
            assert(honest_primary_count(ns, n as int) == 1);
            assert(honest_nonprimary_count(ns, n as int) == honest_count(ns, n as int) - 1);
        }
        let required_votes: u128 = (honest as u128) * 2 / 3 + 1;
        if ((prepare_votes as u128) + 1) < required_votes {
            proof {
                assert(false);
            }
            return Ok(false);
        }
        let mut commit_votes: usize = 0;
        let mut i: usize = 0;
        while i < n
            invariant
                old(self).wf(),
                ns == self.nodes@,
                n == ns.len(),
                i <= n,
                primary_idx < n,
                ns[primary_idx as int].is_primary,
                !ns[primary_idx as int].is_faulty,
                honest == honest_count(ns, n as int),
                required_votes == 2 * honest_count(ns, n as int) / 3 + 1,
                self.nodes == old(self).nodes,
                self.node_count == old(self).node_count,
                self.fault_tolerance_millis == old(self).fault_tolerance_millis,
                self.current_view == old(self).current_view,
                self.current_sequence == old(self).current_sequence,
                commit_votes == honest_count(ns, i as int),
                commit_votes <= i,
                self.message_log@.len() == old(self).message_log@.len() + 1 + honest_nonprimary_count(
                    ns,
                    n as int,
                ) + commit_votes,
            decreases n - i,
        {
            let is_faulty = self.nodes[i].is_faulty;
            if !is_faulty {
                let node_id = self.nodes[i].node_id.clone();
                let commit_msg = self.create_message(MessageType::Commit, block, node_id.as_str());
                if self.verify_message(&commit_msg, block) {
                    commit_votes = commit_votes + 1;
                    self.message_log.push(commit_msg);
                }
            }
            i = i + 1;
        }
        proof {
            lemma_count_split(ns, n as int);
            lemma_chp_le_primary(ns, n as int);
            lemma_chp_lower(ns, primary_idx as int, n as int);
            lemma_honest_ge_chp(ns, n as int);
            assert(honest_count(ns, n as int) >= 2 * honest_count(ns, n as int) / 3 + 1);
        }
        Ok((commit_votes as u128) >= required_votes)
    }

    /// Hands the primary role to the next honest node in list order,
    /// wrapping; a full fruitless cycle leaves no primary. The view
    /// advances, saturating at its bound.
    fn rotate_primary(&mut self)
        requires
            old(self).wf(),
        ensures
            final(self).wf(),
            final(self).node_count == old(self).node_count,
            final(self).fault_tolerance_millis == old(self).fault_tolerance_millis,
            final(self).current_sequence == old(self).current_sequence,
            final(self).message_log == old(self).message_log,
            final(self).current_view == (if old(self).current_view < u64::MAX {
                old(self).current_view + 1
            } else {
                u64::MAX as int
            }),
            ({
                let ns = old(self).nodes@;
                let pidx = if first_primary(ns, 0) >= 0 {
                    first_primary(ns, 0)
                } else {
                    0int
                };
                let next = next_honest_probe(ns, pidx, 1);
                &&& final(self).nodes@.len() == ns.len()
                &&& forall|i: int|
                    0 <= i < ns.len() ==> {
                        &&& (#[trigger] final(self).nodes@[i]).node_id == ns[i].node_id
                        &&& final(self).nodes@[i].is_faulty == ns[i].is_faulty
                        &&& final(self).nodes@[i].reputation_millis == ns[i].reputation_millis
                        &&& final(self).nodes@[i].is_primary == (next >= 0 && i == next)
                    }
            }),
    {
        let n = self.nodes.len();
        if n == 0 {
            if self.current_view < u64::MAX {
                self.current_view = self.current_view + 1;
            }
            return ;
        }
        let current_primary_idx = match self.find_first_primary() {
            Some(i) => i,
            None => 0,
        };
        proof {
            if first_primary(old(self).nodes@, 0) >= 0 {
                lemma_primary_unique(old(self).nodes@, current_primary_idx as int);
            } else {
                lemma_no_primary(old(self).nodes@, 0);
            }
        }
        let node = &self.nodes[current_primary_idx];
        let unmarked = PbftNode {
            node_id: node.node_id.clone(),
            is_primary: false,
            is_faulty: node.is_faulty,
            reputation_millis: node.reputation_millis,
        };
        let ghost ns0 = self.nodes@;
        let _ = self.nodes.remove(current_primary_idx);
        self.nodes.insert(current_primary_idx, unmarked);
        proof {
            assert(self.nodes@ =~= ns0.update(
                current_primary_idx as int,
                self.nodes@[current_primary_idx as int],
            ));
        }
        let ghost ns = old(self).nodes@;
        let mut probes: usize = 0;
        while probes < n
            invariant
                ns == old(self).nodes@,
                n == self.nodes@.len(),
                n == ns.len(),
                n > 0,
                probes <= n,
                n == self.node_count,
                current_primary_idx < n,
                current_primary_idx as int == (if first_primary(ns, 0) >= 0 {
                    first_primary(ns, 0)
                } else {
                    0int
                }),
                next_honest_probe(ns, current_primary_idx as int, 1) == next_honest_probe(
                    ns,
                    current_primary_idx as int,
                    probes + 1,
                ),
                self.node_count == old(self).node_count,
                self.fault_tolerance_millis == old(self).fault_tolerance_millis,
                self.current_view == old(self).current_view,
                self.current_sequence == old(self).current_sequence,
                self.message_log == old(self).message_log,
                forall|i: int|
                    0 <= i < n ==> {
                        &&& (#[trigger] self.nodes@[i]).node_id == ns[i].node_id
                        &&& self.nodes@[i].is_faulty == ns[i].is_faulty
                        &&& self.nodes@[i].reputation_millis == ns[i].reputation_millis
                        &&& !self.nodes@[i].is_primary
                    },
            decreases n - probes,
        {
            let k = probes + 1;
            let next_idx = if current_primary_idx >= n - k {
                current_primary_idx - (n - k)
            } else {
                current_primary_idx + k
            };
            if !self.nodes[next_idx].is_faulty {
                let node = &self.nodes[next_idx];
                let marked = PbftNode {
                    node_id: node.node_id.clone(),
                    is_primary: true,
                    is_faulty: node.is_faulty,
                    reputation_millis: node.reputation_millis,
                };
                let ghost ns1 = self.nodes@;
                let _ = self.nodes.remove(next_idx);
                self.nodes.insert(next_idx, marked);
                proof {
                    assert(self.nodes@ =~= ns1.update(
                        next_idx as int,
                        self.nodes@[next_idx as int],
                    ));
                    assert forall|j: int| 0 <= j < n implies (#[trigger] self.nodes@[j]).is_primary
                        == (j == next_idx as int) by {
                        if j != next_idx as int {
                            assert(self.nodes@[j] == ns1[j]);
                        }
                    }
                    lemma_primary_count_single(self.nodes@, next_idx as int, n as int);
                    assert(next_honest_probe(ns, current_primary_idx as int, probes + 1)
                        == next_idx as int);
                    assert forall|j: int| 0 <= j < n implies {
                        &&& (#[trigger] self.nodes@[j]).node_id == ns[j].node_id
                        &&& self.nodes@[j].is_faulty == ns[j].is_faulty
                        &&& self.nodes@[j].reputation_millis == ns[j].reputation_millis
                    } by {
                        if j != next_idx as int {
                            assert(self.nodes@[j] == ns1[j]);
                        }
                    }
                }
                if self.current_view < u64::MAX {
                    self.current_view = self.current_view + 1;
                }
                return ;
            }
            probes = probes + 1;
        }
        proof {
            lemma_primary_count_none(self.nodes@, n as int);
        }
        if self.current_view < u64::MAX {
            self.current_view = self.current_view + 1;
        }
    }

    /// The first node marked primary, honest or not.
    fn find_first_primary(&self) -> (r: Option<usize>)
        ensures
            match r {
                Some(i) => i == first_primary(self.nodes@, 0) && i < self.nodes@.len()
                    && self.nodes@[i as int].is_primary,
                None => first_primary(self.nodes@, 0) == -1,
            },
    {
        let n = self.nodes.len();
        let mut i: usize = 0;
        while i < n
            invariant
                n == self.nodes@.len(),
                i <= n,
                first_primary(self.nodes@, 0) == first_primary(self.nodes@, i as int),
            decreases n - i,
        {
            if self.nodes[i].is_primary {
                return Some(i);
            }
            i = i + 1;
        }
        None
    }

    /// Runs the three-phase vote, stamps the agreement digest, advances the
    /// sequence (saturating) and rotates the primary every ten sequences;
    /// fails exactly when the node list is empty, honest nodes fall below
    /// the Byzantine threshold, or no honest primary exists.
    pub fn execute_consensus(&mut self, block: &mut Block) -> (r: Result<ConsensusResult, String>)
        requires
            old(block).wf(),
            old(self).wf(),
        ensures
            final(self).wf(),
            final(self).node_count == old(self).node_count,
            final(self).fault_tolerance_millis == old(self).fault_tolerance_millis,
            final(block).index == old(block).index,
            final(block).timestamp == old(block).timestamp,
            final(block).data == old(block).data,
            final(block).previous_hash == old(block).previous_hash,
            final(block).consensus_data@ == old(block).consensus_data@,
            final(block).difficulty == old(block).difficulty,
            final(block).wf(),
            (r is Ok) <==> ({
                let ns = old(self).nodes@;
                &&& ns.len() > 0
                &&& honest_count(ns, ns.len() as int) >= 2 * old(self).node_count / 3 + 1
                &&& first_honest_primary(ns, 0) != -1
            }),
            r is Err ==> {
                &&& *final(block) == *old(block)
                &&& *final(self) == *old(self)
            },
            match r {
                Ok(res) => {
                    let ns = old(self).nodes@;
                    let honest = honest_count(ns, ns.len() as int);
                    let new_seq = if old(self).current_sequence < u64::MAX {
                        old(self).current_sequence + 1
                    } else {
                        u64::MAX as int
                    };
                    &&& final(block).nonce == old(self).current_sequence
                    &&& final(block).hash@ == pbft_hash_of(
                        *final(block),
                        old(self).current_view,
                        old(self).current_sequence,
                        honest as int,
                    )
                    &&& final(self).current_sequence == new_seq
                    &&& (new_seq % 10 != 0 ==> {
                        &&& final(self).current_view == old(self).current_view
                        &&& final(self).nodes == old(self).nodes
                        &&& final(self).validates(*final(block))
                    })
                    &&& (new_seq % 10 == 0 ==> {
                        let pidx = if first_primary(ns, 0) >= 0 {
                            first_primary(ns, 0)
                        } else {
                            0int
                        };
                        let next = next_honest_probe(ns, pidx, 1);
                        &&& final(self).current_view == (if old(self).current_view < u64::MAX {
                            old(self).current_view + 1
                        } else {
                            u64::MAX as int
                        })
                        &&& final(self).nodes@.len() == ns.len()
                        &&& forall|i: int|
                            0 <= i < ns.len() ==> {
                                &&& (#[trigger] final(self).nodes@[i]).node_id == ns[i].node_id
                                &&& final(self).nodes@[i].is_faulty == ns[i].is_faulty
                                &&& final(self).nodes@[i].reputation_millis
                                    == ns[i].reputation_millis
                                &&& final(self).nodes@[i].is_primary == (next >= 0 && i == next)
                            }
                    })
                    &&& honest_count(final(self).nodes@, final(self).nodes@.len() as int) == honest
                    &&& same_block(res.block, *final(block))
                    &&& res.proof_data.wf()
                    &&& res.energy_cost_micro == Some(20000u64)
                    &&& res.proof_data@ == ({
                        let n = ns.len() as int;
                        let base = Map::<Seq<char>, Seq<char>>::empty().insert(
                            "consensus_view"@,
                            dec_of(final(self).current_view as nat),
                        ).insert("sequence_number"@, dec_of(final(block).nonce as nat)).insert(
                            "total_nodes"@,
                            dec_of(old(self).node_count as nat),
                        ).insert("honest_nodes"@, dec_of(honest as nat)).insert(
                            "faulty_nodes"@,
                            dec_of((n - honest) as nat),
                        ).insert(
                            "fault_percentage"@,
                            dec_of(((n - honest) * 100 / n) as nat),
                        ).insert(
                            "messages_processed"@,
                            dec_of(final(self).message_log@.len()),
                        );
                        let p = first_honest_primary(final(self).nodes@, 0);
                        if p != -1 {
                            base.insert("primary_node"@, final(self).nodes@[p].node_id@)
                        } else {
                            base
                        }
                    })
                },
                Err(_) => true,
            },
    {
        let exec_started = now_timestamp_millis();
        if self.nodes.len() == 0 {
            return Err(String::from_str("No nodes available for pBFT consensus"));
        }
        let n = self.nodes.len();
        let honest = count_honest(&self.nodes);
        let required_honest: u128 = (self.node_count as u128) * 2 / 3 + 1;
        if (honest as u128) < required_honest {
            return Err(String::from_str("Insufficient honest nodes"));
        }
        match self.execute_pbft_consensus(block) {
            Ok(reached) => {
                if !reached {
                    proof {
                        assert(false);
                    }
                    return Err(String::from_str("pBFT consensus not reached"));
                }
            },
            Err(e) => {
                return Err(e);
            },
        }
        let mut msg = block.core_message();
        let view_text = u64_to_dec(self.current_view);
        msg.append(view_text.as_str());
        let seq_text = u64_to_dec(self.current_sequence);
        msg.append(seq_text.as_str());
        let honest_text = usize_to_dec(honest);
        msg.append(honest_text.as_str());
        let new_hash = sha256_hex(msg.as_str());
        block.hash = new_hash;
        block.nonce = self.current_sequence;
        let ghost old_view = self.current_view;
        if self.current_sequence < u64::MAX {
            self.current_sequence = self.current_sequence + 1;
        }
        if self.current_sequence % 10 == 0 {
            self.rotate_primary();
            proof {
                lemma_honest_count_congruent(
                    self.nodes@,
                    old(self).nodes@,
                    old(self).nodes@.len() as int,
                );
            }
        }
        let faulty = n - honest;
        let mut proof_data = KvMap::new();
        proof_data.insert(String::from_str("consensus_view"), u64_to_dec(self.current_view));
        proof_data.insert(String::from_str("sequence_number"), u64_to_dec(block.nonce));
        proof_data.insert(String::from_str("total_nodes"), usize_to_dec(self.node_count));
        proof_data.insert(String::from_str("honest_nodes"), usize_to_dec(honest));
        proof_data.insert(String::from_str("faulty_nodes"), usize_to_dec(faulty));
        proof {
            crate::encode::lemma_mul_le(faulty as int, 100, n as int, 100);
            vstd::arithmetic::div_mod::lemma_div_is_ordered(
                (faulty as int) * 100,
                (n as int) * 100,
                n as int,
            );
            assert(((n as int) * 100) / (n as int) == 100) by {
                vstd::arithmetic::div_mod::lemma_div_multiples_vanish(100, n as int);
                vstd::arithmetic::mul::lemma_mul_is_commutative(n as int, 100);
            }
        }
        let fault_percent: u64 = ((faulty as u128) * 100 / (n as u128)) as u64;
        proof_data.insert(String::from_str("fault_percentage"), u64_to_dec(fault_percent));
        proof_data.insert(
            String::from_str("messages_processed"),
            usize_to_dec(self.message_log.len()),
        );
        match self.get_primary_node() {
            Some(p) => {
                let id = self.nodes[p].node_id.clone();
                proof_data.insert(String::from_str("primary_node"), id);
            },
            None => {},
        }
        let res = ConsensusResult {
            block: block.clone(),
            proof_data,
            execution_time_ms: elapsed_ms(exec_started, now_timestamp_millis()),
            energy_cost_micro: Some(20000),
        };
        proof {
            assert(core_msg(*block) == core_msg(*old(block)));
        }
        Ok(res)
    }

    /// Re-derives the digest at the current view and honest count for the
    /// stored sequence nonce; pure.
    pub fn validate_block(&self, block: &Block) -> (r: bool)
        ensures
            r == self.validates(*block),
    {
        if block.nonce == 0 && self.current_sequence > 1 {
            return false;
        }
        let honest = count_honest(&self.nodes);
        let mut msg = block.core_message();
        let view_text = u64_to_dec(self.current_view);
        msg.append(view_text.as_str());
        let seq_text = u64_to_dec(block.nonce);
        msg.append(seq_text.as_str());
        let honest_text = usize_to_dec(honest);
        msg.append(honest_text.as_str());
        let expected = sha256_hex(msg.as_str());
        str_eq(expected.as_str(), block.hash.as_str())
    }

    pub fn get_algorithm_name(&self) -> (r: &'static str)
        ensures
            r@ == "Practical Byzantine Fault Tolerance"@,
    {
        "Practical Byzantine Fault Tolerance"
    }

    /// Energy efficiency in thousandths.
    pub fn get_energy_efficiency(&self) -> (r: Option<u64>)
        ensures
            r == Some(800u64),
    {
        Some(800)
    }

    pub fn get_statistics(&self) -> (r: KvMap)
        requires
            self.wf(),
        ensures
            r.wf(),
            r@ == ({
                let ns = self.nodes@;
                let n = ns.len() as int;
                let honest = honest_count(ns, n) as int;
                let base = Map::<Seq<char>, Seq<char>>::empty().insert(
                    "total_nodes"@,
                    dec_of(self.node_count as nat),
                ).insert("honest_nodes"@, dec_of(honest as nat)).insert(
                    "faulty_nodes"@,
                    dec_of((n - honest) as nat),
                ).insert(
                    "fault_tolerance_percent"@,
                    dec_of((self.fault_tolerance_millis / 10) as nat),
                ).insert(
                    "current_fault_percent"@,
                    dec_of(
                        (if n > 0 {
                            (n - honest) * 100 / n
                        } else {
                            0int
                        }) as nat,
                    ),
                ).insert("current_view"@, dec_of(self.current_view as nat)).insert(
                    "current_sequence"@,
                    dec_of(self.current_sequence as nat),
                ).insert("total_messages"@, dec_of(self.message_log@.len())).insert(
                    "average_reputation"@,
                    dec_of(
                        (if n > 0 {
                            sum_reputation(ns, n) / n
                        } else {
                            0int
                        }) as nat,
                    ),
                );
                let p = first_honest_primary(ns, 0);
                if p != -1 {
                    base.insert("primary_node"@, ns[p].node_id@).insert(
                        "primary_reputation"@,
                        dec_of(ns[p].reputation_millis as nat),
                    )
                } else {
                    base
                }
            }),
    {
        let n = self.nodes.len();
        let honest = count_honest(&self.nodes);
        let faulty = n - honest;
        let mut total_rep: u128 = 0;
        let mut i: usize = 0;
        while i < n
            invariant
                self.wf(),
                n == self.nodes@.len(),
                i <= n,
                honest == honest_count(self.nodes@, n as int),
                honest <= n,
                faulty == n - honest,
                total_rep == sum_reputation(self.nodes@, i as int),
                total_rep <= (i as int) * (u64::MAX as int),
            decreases n - i,
        {
            total_rep = total_rep + (self.nodes[i].reputation_millis as u128);
            i = i + 1;
        }
        let primary = self.get_primary_node();
        let mut stats = KvMap::new();
        stats.insert(String::from_str("total_nodes"), usize_to_dec(self.node_count));
        stats.insert(String::from_str("honest_nodes"), usize_to_dec(honest));
        stats.insert(String::from_str("faulty_nodes"), usize_to_dec(faulty));
        stats.insert(
            String::from_str("fault_tolerance_percent"),
            u64_to_dec(self.fault_tolerance_millis / 10),
        );
        let current_fault_percent: u64 = if n > 0 {
            proof {
                crate::encode::lemma_mul_le(faulty as int, 100, n as int, 100);
                vstd::arithmetic::div_mod::lemma_div_is_ordered(
                    (faulty as int) * 100,
                    (n as int) * 100,
                    n as int,
                );
                vstd::arithmetic::div_mod::lemma_div_multiples_vanish(100, n as int);
                assert((n as int) * 100 == (n as int) * 100);
                assert(((n as int) * 100) / (n as int) == 100) by {
                    vstd::arithmetic::mul::lemma_mul_is_commutative(n as int, 100);
                }
            }
            ((faulty as u128) * 100 / (n as u128)) as u64
        } else {
            0
        };
        stats.insert(String::from_str("current_fault_percent"), u64_to_dec(current_fault_percent));
        stats.insert(String::from_str("current_view"), u64_to_dec(self.current_view));
        stats.insert(String::from_str("current_sequence"), u64_to_dec(self.current_sequence));
        stats.insert(String::from_str("total_messages"), usize_to_dec(self.message_log.len()));
        let avg_rep: u64 = if n > 0 {
            proof {
                vstd::arithmetic::div_mod::lemma_div_is_ordered(
                    total_rep as int,
                    (n as int) * (u64::MAX as int),
                    n as int,
                );
                vstd::arithmetic::div_mod::lemma_div_multiples_vanish(
                    u64::MAX as int,
                    n as int,
                );
                assert(((n as int) * (u64::MAX as int)) / (n as int) == u64::MAX as int) by {
                    vstd::arithmetic::mul::lemma_mul_is_commutative(n as int, u64::MAX as int);
                }
            }
            (total_rep / (n as u128)) as u64
        } else {
            0
        };
        stats.insert(String::from_str("average_reputation"), u64_to_dec(avg_rep));
        match primary {
            Some(p) => {
                let id = self.nodes[p].node_id.clone();
                let rep = u64_to_dec(self.nodes[p].reputation_millis);
                stats.insert(String::from_str("primary_node"), id);
                stats.insert(String::from_str("primary_reputation"), rep);
            },
            None => {},
        }
        stats
    }

    /// Reads `node_count` (rebuilding the node list when it changes) and
    /// `fault_tolerance_millis`; fails on the first value that does not
    /// parse.
    pub fn configure(&mut self, config: ConsensusConfig) -> (r: Result<(), String>)
        requires
            config.additional_params.wf(),
            old(self).wf(),
        ensures
            configure_post(*old(self), *final(self), config.additional_params@, r is Ok),
    {
        match config.additional_params.get("node_count") {
            Some(text) => {
                match parse_dec_usize(text.as_str()) {
                    Some(v) => {
                        if v != self.node_count {
                            let rebuilt = PracticalByzantineFaultTolerance::new(
                                v,
                                self.fault_tolerance_millis,
                            );
                            self.nodes = rebuilt.nodes;
                            self.node_count = v;
                        }
                    },
                    None => {
                        return Err(String::from_str("Invalid node_count parameter"));
                    },
                }
            },
            None => {},
        }
        match config.additional_params.get("fault_tolerance_millis") {
            Some(text) => {
                match parse_dec_u64(text.as_str()) {
                    Some(v) => {
                        self.fault_tolerance_millis = v;
                    },
                    None => {
                        return Err(String::from_str("Invalid fault_tolerance parameter"));
                    },
                }
            },
            None => {},
        }
        Ok(())
    }
}

/// The number of honest nodes in the list.
fn count_honest(nodes: &Vec<PbftNode>) -> (r: usize)
    ensures
        r == honest_count(nodes@, nodes@.len() as int),
        r <= nodes@.len(),
{
    let n = nodes.len();
    let mut count: usize = 0;
    let mut i: usize = 0;
    while i < n
        invariant
            n == nodes@.len(),
            i <= n,
            count == honest_count(nodes@, i as int),
            count <= i,
        decreases n - i,
    {
        if !nodes[i].is_faulty {
            count = count + 1;
        }
        i = i + 1;
    }
    count
}

/// Honest nodes split into the honest primaries and the honest
/// non-primaries.
proof fn lemma_count_split(ns: Seq<PbftNode>, i: int)
    requires
        i <= ns.len(),
    ensures
        honest_count(ns, i) == honest_nonprimary_count(ns, i) + honest_primary_count(ns, i),
    decreases i,
{
    if i > 0 {
        lemma_count_split(ns, i - 1);
    }
}

/// Honest nodes marked primary among the first `i`.
pub open spec fn honest_primary_count(ns: Seq<PbftNode>, i: int) -> nat
    decreases i,
{
    if i <= 0 {
        0
    } else {
        honest_primary_count(ns, i - 1) + if ns[i - 1].is_primary && !ns[i - 1].is_faulty {
            1nat
        } else {
            0nat
        }
    }
}

proof fn lemma_chp_le_primary(ns: Seq<PbftNode>, i: int)
    requires
        i <= ns.len(),
    ensures
        honest_primary_count(ns, i) <= primary_count(ns, i),
    decreases i,
{
    if i > 0 {
        lemma_chp_le_primary(ns, i - 1);
    }
}

proof fn lemma_chp_lower(ns: Seq<PbftNode>, idx: int, i: int)
    requires
        0 <= idx < i <= ns.len(),
        ns[idx].is_primary,
        !ns[idx].is_faulty,
    ensures
        honest_primary_count(ns, i) >= 1,
    decreases i,
{
    if idx == i - 1 {
    } else {
        lemma_chp_lower(ns, idx, i - 1);
    }
}

proof fn lemma_honest_ge_chp(ns: Seq<PbftNode>, i: int)
    requires
        i <= ns.len(),
    ensures
        honest_count(ns, i) >= honest_primary_count(ns, i),
        honest_count(ns, i) >= 0,
        honest_nonprimary_count(ns, i) >= 0,
    decreases i,
{
    if i > 0 {
        lemma_honest_ge_chp(ns, i - 1);
    }
}

/// Two node lists with identical flags have equal primary counts.
proof fn lemma_primary_count_congruent(a: Seq<PbftNode>, b: Seq<PbftNode>, i: int)
    requires
        i <= a.len(),
        i <= b.len(),
        forall|j: int| 0 <= j < i ==> (#[trigger] a[j]).is_primary == b[j].is_primary,
    ensures
        primary_count(a, i) == primary_count(b, i),
    decreases i,
{
    if i > 0 {
        lemma_primary_count_congruent(a, b, i - 1);
    }
}

/// Two node lists with identical fault flags have equal honest counts.
proof fn lemma_honest_count_congruent(a: Seq<PbftNode>, b: Seq<PbftNode>, i: int)
    requires
        i <= a.len(),
        i <= b.len(),
        forall|j: int| 0 <= j < i ==> (#[trigger] a[j]).is_faulty == b[j].is_faulty,
    ensures
        honest_count(a, i) == honest_count(b, i),
    decreases i,
{
    if i > 0 {
        lemma_honest_count_congruent(a, b, i - 1);
    }
}

/// A list whose only primary flag sits at one position counts one primary.
proof fn lemma_primary_count_single(ns: Seq<PbftNode>, at: int, i: int)
    requires
        0 <= at < ns.len(),
        i <= ns.len(),
        forall|j: int| 0 <= j < ns.len() ==> (#[trigger] ns[j]).is_primary == (j == at),
    ensures
        primary_count(ns, i) == (if at < i {
            1int
        } else {
            0int
        }),
    decreases i,
{
    if i > 0 {
        lemma_primary_count_single(ns, at, i - 1);
    }
}

/// With at most one primary flag, the first flagged node is the only one.
proof fn lemma_primary_unique(ns: Seq<PbftNode>, idx: int)
    requires
        primary_count(ns, ns.len() as int) <= 1,
        0 <= idx < ns.len(),
        ns[idx].is_primary,
    ensures
        forall|j: int| 0 <= j < ns.len() && j != idx ==> !(#[trigger] ns[j]).is_primary,
{
    assert forall|j: int| 0 <= j < ns.len() && j != idx implies !(#[trigger] ns[j]).is_primary by {
        if ns[j].is_primary {
            if j < idx {
                lemma_pc_pair(ns, j, idx, ns.len() as int);
            } else {
                lemma_pc_pair(ns, idx, j, ns.len() as int);
            }
        }
    }
}

/// Two distinct primary flags force a primary count of at least two.
proof fn lemma_pc_pair(ns: Seq<PbftNode>, a: int, b: int, i: int)
    requires
        0 <= a < b < i <= ns.len(),
        ns[a].is_primary,
        ns[b].is_primary,
    ensures
        primary_count(ns, i) >= 2,
    decreases i,
{
    if b == i - 1 {
        lemma_pc_one(ns, a, i - 1);
    } else {
        lemma_pc_pair(ns, a, b, i - 1);
    }
}

/// One primary flag forces a primary count of at least one.
proof fn lemma_pc_one(ns: Seq<PbftNode>, a: int, i: int)
    requires
        0 <= a < i <= ns.len(),
        ns[a].is_primary,
    ensures
        primary_count(ns, i) >= 1,
    decreases i,
{
    if a < i - 1 {
        lemma_pc_one(ns, a, i - 1);
    }
}

/// When the primary scan fails, no node is marked primary.
proof fn lemma_no_primary(ns: Seq<PbftNode>, i: int)
    requires
        0 <= i,
        first_primary(ns, i) == -1,
    ensures
        forall|j: int| i <= j < ns.len() ==> !(#[trigger] ns[j]).is_primary,
    decreases ns.len() - i,
{
    if i < ns.len() {
        lemma_no_primary(ns, i + 1);
    }
}

/// A list with no primary flag counts none.
proof fn lemma_primary_count_none(ns: Seq<PbftNode>, i: int)
    requires
        i <= ns.len(),
        forall|j: int| 0 <= j < ns.len() ==> !(#[trigger] ns[j]).is_primary,
    ensures
        primary_count(ns, i) == 0,
    decreases i,
{
    if i > 0 {
        lemma_primary_count_none(ns, i - 1);
    }
}


/// What `configure` leaves behind, for a parameter map `m`: values applied
/// left to right, stopping at the first one that does not parse; `ok` says
/// whether the call returned without error.
pub open spec fn configure_post(
    pre: PracticalByzantineFaultTolerance,
    post: PracticalByzantineFaultTolerance,
    m: Map<Seq<char>, Seq<char>>,
    ok: bool,
) -> bool {
    &&& post.wf()
    &&& post.current_view == pre.current_view
    &&& post.current_sequence == pre.current_sequence
    &&& post.message_log == pre.message_log
    &&& (if m.contains_key("node_count"@) && dec_parse_usize(m["node_count"@]) is None {
            &&& !ok
            &&& post == pre
        } else {
            let count = if m.contains_key("node_count"@) {
                dec_parse_usize(m["node_count"@])->Some_0
            } else {
                pre.node_count
            };
            &&& post.node_count == count
            &&& post.nodes@.len() == count
            &&& (count == pre.node_count ==> post.nodes == pre.nodes)
            &&& if m.contains_key("fault_tolerance_millis"@) && dec_parse_u64(
                m["fault_tolerance_millis"@],
            ) is None {
                &&& !ok
                &&& post.fault_tolerance_millis == pre.fault_tolerance_millis
            } else {
                &&& ok
                &&& post.fault_tolerance_millis == (if m.contains_key(
                    "fault_tolerance_millis"@,
                ) {
                    dec_parse_u64(m["fault_tolerance_millis"@])->Some_0
                } else {
                    pre.fault_tolerance_millis
                })
            }
        }
    )
}

} // verus!
