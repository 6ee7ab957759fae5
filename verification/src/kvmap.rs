//! The string-to-string map that carries proof metadata: an association
//! list with unique keys, viewed as a `Map<Seq<char>, Seq<char>>`.

use vstd::prelude::*;
use crate::encode::str_eq;

verus! {

/// Proof-metadata map: algorithm-specific key/value facts on a block.
pub struct KvMap {
    pairs: Vec<(String, String)>,
}

/// The map an association list denotes; later entries would win, though a
/// well-formed list never repeats a key.
pub open spec fn pairs_map(ps: Seq<(String, String)>) -> Map<Seq<char>, Seq<char>>
    decreases ps.len(),
{
    if ps.len() == 0 {
        Map::<Seq<char>, Seq<char>>::empty()
    } else {
        pairs_map(ps.drop_last()).insert(ps.last().0@, ps.last().1@)
    }
}

impl View for KvMap {
    type V = Map<Seq<char>, Seq<char>>;

    closed spec fn view(&self) -> Map<Seq<char>, Seq<char>> {
        pairs_map(self.pairs@)
    }
}

pub proof fn lemma_pairs_map_dom(ps: Seq<(String, String)>, k: Seq<char>)
    ensures
        pairs_map(ps).contains_key(k) <==> (exists|i: int|
            0 <= i < ps.len() && #[trigger] ps[i].0@ == k),
    decreases ps.len(),
{
    if ps.len() > 0 {
        lemma_pairs_map_dom(ps.drop_last(), k);
        if pairs_map(ps).contains_key(k) {
            if ps.last().0@ == k {
                assert(ps[ps.len() - 1].0@ == k);
            } else {
                let i = choose|i: int|
                    0 <= i < ps.drop_last().len() && #[trigger] ps.drop_last()[i].0@ == k;
                assert(ps[i].0@ == k);
            }
        }
        if exists|i: int| 0 <= i < ps.len() && #[trigger] ps[i].0@ == k {
            let i = choose|i: int| 0 <= i < ps.len() && #[trigger] ps[i].0@ == k;
            if i < ps.len() - 1 {
                assert(ps.drop_last()[i].0@ == k);
            }
        }
    }
}

pub proof fn lemma_pairs_map_value(ps: Seq<(String, String)>, i: int)
    requires
        0 <= i < ps.len(),
        forall|j: int| i < j < ps.len() ==> #[trigger] ps[j].0@ != ps[i].0@,
    ensures
        pairs_map(ps).contains_key(ps[i].0@),
        pairs_map(ps)[ps[i].0@] == ps[i].1@,
    decreases ps.len(),
{
    lemma_pairs_map_dom(ps, ps[i].0@);
    if i < ps.len() - 1 {
        assert forall|j: int| i < j < ps.drop_last().len() implies #[trigger] ps.drop_last()[j].0@
            != ps.drop_last()[i].0@ by {
            assert(ps.drop_last()[j] == ps[j]);
        }
        lemma_pairs_map_value(ps.drop_last(), i);
    }
}

impl KvMap {
    /// Keys are pairwise distinct.
    pub closed spec fn wf(&self) -> bool {
        forall|i: int, j: int|
            0 <= i < j < self.pairs@.len() ==> #[trigger] self.pairs@[i].0@
                != #[trigger] self.pairs@[j].0@
    }

    pub fn new() -> (r: KvMap)
        ensures
            r.wf(),
            r@ == Map::<Seq<char>, Seq<char>>::empty(),
    {
        KvMap { pairs: Vec::new() }
    }

    /// How many keys the map holds.
    pub fn len(&self) -> (r: usize)
        requires
            self.wf(),
        ensures
            r == self@.dom().len(),
    {
        proof {
            lemma_pairs_len(self.pairs@);
        }
        self.pairs.len()
    }

    /// Binds `key` to `value`, replacing any earlier binding.
    pub fn insert(&mut self, key: String, value: String)
        requires
            old(self).wf(),
        ensures
            final(self).wf(),
            final(self)@ == old(self)@.insert(key@, value@),
    {
        let n = self.pairs.len();
        let mut i: usize = 0;
        while i < n
            invariant
                self.wf(),
                n == self.pairs@.len(),
                i <= n,
                self.pairs@ == old(self).pairs@,
                forall|j: int| 0 <= j < i ==> #[trigger] self.pairs@[j].0@ != key@,
            decreases n - i,
        {
            if str_eq(self.pairs[i].0.as_str(), key.as_str()) {
                let ghost ps = self.pairs@;
                let _ = self.pairs.remove(i);
                self.pairs.insert(i, (key, value));
                proof {
                    assert(self.pairs@ =~= ps.update(i as int, self.pairs@[i as int]));
                    lemma_pairs_map_update(ps, i as int, self.pairs@[i as int]);
                    assert(self@ =~= old(self)@.insert(
                        self.pairs@[i as int].0@,
                        self.pairs@[i as int].1@,
                    ));
                }
                return ;
            }
            i = i + 1;
        }
        let ghost ps = self.pairs@;
        self.pairs.push((key, value));
        proof {
            assert(self.pairs@.drop_last() =~= ps);
            assert(self@ =~= old(self)@.insert(key@, value@));
        }
    }

    /// The value bound to `key`, if any.
    pub fn get(&self, key: &str) -> (r: Option<&String>)
        requires
            self.wf(),
        ensures
            match r {
                Some(v) => self@.contains_key(key@) && v@ == self@[key@],
                None => !self@.contains_key(key@),
            },
    {
        let n = self.pairs.len();
        let mut i: usize = 0;
        while i < n
            invariant
                self.wf(),
                n == self.pairs@.len(),
                i <= n,
                forall|j: int| 0 <= j < i ==> #[trigger] self.pairs@[j].0@ != key@,
            decreases n - i,
        {
            if str_eq(self.pairs[i].0.as_str(), key) {
                proof {
                    lemma_pairs_map_value(self.pairs@, i as int);
                }
                return Some(&self.pairs[i].1);
            }
            i = i + 1;
        }
        proof {
            lemma_pairs_map_dom(self.pairs@, key@);
        }
        None
    }

    /// Whether any binding for `key` exists.
    pub fn contains_key(&self, key: &str) -> (r: bool)
        requires
            self.wf(),
        ensures
            r == self@.contains_key(key@),
    {
        match self.get(key) {
            Some(_) => true,
            None => false,
        }
    }

    /// The bindings in insertion order, for callers that walk the map.
    pub fn entries(&self) -> (r: &Vec<(String, String)>)
        requires
            self.wf(),
        ensures
            r@.len() == self@.dom().len(),
            forall|i: int|
                0 <= i < r@.len() ==> self@.contains_key(#[trigger] r@[i].0@) && self@[r@[i].0@]
                    == r@[i].1@,
    {
        proof {
            lemma_pairs_len(self.pairs@);
            assert forall|i: int|
                0 <= i < self.pairs@.len() implies self@.contains_key(
                #[trigger] self.pairs@[i].0@,
            ) && self@[self.pairs@[i].0@] == self.pairs@[i].1@ by {
                lemma_pairs_map_value(self.pairs@, i);
            }
        }
        &self.pairs
    }
}

impl Clone for KvMap {
    fn clone(&self) -> (r: Self)
        ensures
            r@ == self@,
            r.wf() <==> self.wf(),
    {
        let n = self.pairs.len();
        let mut out: Vec<(String, String)> = Vec::new();
        let mut i: usize = 0;
        while i < n
            invariant
                n == self.pairs@.len(),
                i <= n,
                out@.len() == i,
                forall|j: int| 0 <= j < i ==> #[trigger] out@[j] == self.pairs@[j],
            decreases n - i,
        {
            let k = self.pairs[i].0.clone();
            let v = self.pairs[i].1.clone();
            out.push((k, v));
            i = i + 1;
        }
        let r = KvMap { pairs: out };
        proof {
            assert(r.pairs@ =~= self.pairs@);
        }
        r
    }

}

proof fn lemma_pairs_len(ps: Seq<(String, String)>)
    requires
        forall|i: int, j: int|
            0 <= i < j < ps.len() ==> #[trigger] ps[i].0@ != #[trigger] ps[j].0@,
    ensures
        pairs_map(ps).dom().len() == ps.len(),
        pairs_map(ps).dom().finite(),
    decreases ps.len(),
{
    if ps.len() > 0 {
        lemma_pairs_len(ps.drop_last());
        lemma_pairs_map_dom(ps.drop_last(), ps.last().0@);
        assert(!pairs_map(ps.drop_last()).contains_key(ps.last().0@));
        assert(pairs_map(ps).dom() =~= pairs_map(ps.drop_last()).dom().insert(ps.last().0@));
    } else {
        assert(pairs_map(ps).dom() =~= Set::<Seq<char>>::empty());
    }
}

/// Replacing the entry that holds a key denotes insertion over the old map.
proof fn lemma_pairs_map_update(ps: Seq<(String, String)>, i: int, p: (String, String))
    requires
        0 <= i < ps.len(),
        ps[i].0@ == p.0@,
        forall|x: int, y: int| 0 <= x < y < ps.len() ==> #[trigger] ps[x].0@ != #[trigger] ps[y].0@,
    ensures
        pairs_map(ps.update(i, p)) == pairs_map(ps).insert(p.0@, p.1@),
    decreases ps.len(),
{
    let q = ps.update(i, p);
    if i == ps.len() - 1 {
        assert(q.drop_last() =~= ps.drop_last());
        assert(pairs_map(q) =~= pairs_map(ps).insert(p.0@, p.1@));
    } else {
        assert(q.drop_last() =~= ps.drop_last().update(i, p));
        assert forall|x: int, y: int|
            0 <= x < y < ps.drop_last().len() implies #[trigger] ps.drop_last()[x].0@
            != #[trigger] ps.drop_last()[y].0@ by {
            assert(ps.drop_last()[x] == ps[x] && ps.drop_last()[y] == ps[y]);
        }
        assert(ps.drop_last()[i] == ps[i]);
        lemma_pairs_map_update(ps.drop_last(), i, p);
        assert(ps[i].0@ != ps[ps.len() - 1].0@);
        assert(q.last() == ps.last());
        assert(pairs_map(q) =~= pairs_map(ps).insert(p.0@, p.1@));
    }
}

} // verus!
