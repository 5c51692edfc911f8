//! A small map from text keys to text values that keeps its entries in
//! insertion order, each key at most once.
use vstd::prelude::*;
use crate::text::{str_eq, owned};

verus! {

/// Text keys mapped to text values; each key occurs once, and entries keep
/// the order in which their keys were first inserted.
#[derive(Debug)]
pub struct StringMap {
    entries: Vec<(String, String)>,
}

/// The view of an entry.
pub open spec fn entry_view(e: (String, String)) -> (Seq<char>, Seq<char>) {
    (e.0@, e.1@)
}

/// No key occurs twice in the list of pairs.
pub open spec fn keys_distinct(p: Seq<(Seq<char>, Seq<char>)>) -> bool {
    forall|i: int, j: int| 0 <= i < j < p.len() ==> p[i].0 != p[j].0
}

/// The position of key `k` among the pairs, or -1.
pub open spec fn position_of(p: Seq<(Seq<char>, Seq<char>)>, k: Seq<char>) -> int
    decreases p.len(),
{
    if p.len() == 0 {
        -1
    } else if p.last().0 == k && position_of(p.drop_last(), k) == -1 {
        p.len() - 1
    } else {
        position_of(p.drop_last(), k)
    }
}

/// The value stored under `k` among the pairs.
pub open spec fn lookup(p: Seq<(Seq<char>, Seq<char>)>, k: Seq<char>) -> Option<Seq<char>> {
    let i = position_of(p, k);
    if i >= 0 {
        Some(p[i].1)
    } else {
        None
    }
}

/// The pairs after storing `v` under `k`: an existing entry keeps its place
/// and takes the new value, a new key is appended.
pub open spec fn put(p: Seq<(Seq<char>, Seq<char>)>, k: Seq<char>, v: Seq<char>) -> Seq<(Seq<char>, Seq<char>)> {
    if position_of(p, k) >= 0 {
        p.update(position_of(p, k), (k, v))
    } else {
        p.push((k, v))
    }
}

/// `position_of` finds the first pair with the key, and -1 when there is none.
pub proof fn lemma_position_of(p: Seq<(Seq<char>, Seq<char>)>, k: Seq<char>)
    ensures
        -1 <= position_of(p, k) < p.len(),
        position_of(p, k) >= 0 ==> p[position_of(p, k)].0 == k,
        position_of(p, k) >= 0 ==> forall|j: int| 0 <= j < position_of(p, k) ==> p[j].0 != k,
        position_of(p, k) == -1 <==> forall|j: int| 0 <= j < p.len() ==> p[j].0 != k,
    decreases p.len(),
{
    if p.len() > 0 {
        lemma_position_of(p.drop_last(), k);
        let q = p.drop_last();
        assert forall|j: int| 0 <= j < q.len() implies q[j] == p[j] by {}
    }
}

/// The pairs after storing each of `kvs` in turn.
pub open spec fn put_all(p: Seq<(Seq<char>, Seq<char>)>, kvs: Seq<(Seq<char>, Seq<char>)>) -> Seq<(Seq<char>, Seq<char>)>
    decreases kvs.len(),
{
    if kvs.len() == 0 {
        p
    } else {
        put(put_all(p, kvs.drop_last()), kvs.last().0, kvs.last().1)
    }
}

/// The views of key/value text pairs.
pub open spec fn text_pairs(s: Seq<(&str, &str)>) -> Seq<(Seq<char>, Seq<char>)> {
    s.map_values(|e: (&str, &str)| (e.0@, e.1@))
}

impl StringMap {
    /// The entries as key/value pairs, in order.
    pub closed spec fn pairs(self) -> Seq<(Seq<char>, Seq<char>)> {
        self.entries@.map_values(|e: (String, String)| entry_view(e))
    }

    /// Each key occurs once.
    pub open spec fn wf(self) -> bool {
        keys_distinct(self.pairs())
    }

    /// The value of key `k`, if present.
    pub open spec fn spec_get(self, k: Seq<char>) -> Option<Seq<char>> {
        lookup(self.pairs(), k)
    }

    /// An empty map.
    pub fn new() -> (r: Self)
        ensures
            r.pairs() == Seq::<(Seq<char>, Seq<char>)>::empty(),
            r.wf(),
    {
        let r = StringMap { entries: Vec::new() };
        assert(r.pairs() =~= Seq::<(Seq<char>, Seq<char>)>::empty());
        r
    }

    /// A map holding `pairs`, stored in order.
    pub fn from_pairs(pairs: &[(&str, &str)]) -> (r: Self)
        ensures
            r.wf(),
            r.pairs() == put_all(Seq::empty(), text_pairs(pairs@)),
    {
        let mut m = StringMap::new();
        let mut i: usize = 0;
        while i < pairs.len()
            invariant
                i <= pairs@.len(),
                m.wf(),
                m.pairs() == put_all(Seq::empty(), text_pairs(pairs@).subrange(0, i as int)),
            decreases pairs.len() - i,
        {
            let (k, v) = pairs[i];
            m.insert(owned(k), owned(v));
            proof {
                let s = text_pairs(pairs@).subrange(0, i + 1);
                assert(s.drop_last() =~= text_pairs(pairs@).subrange(0, i as int));
            }
            i = i + 1;
        }
        assert(text_pairs(pairs@).subrange(0, pairs@.len() as int) =~= text_pairs(pairs@));
        m
    }

    /// The number of entries.
    pub fn len(&self) -> (n: usize)
        ensures
            n == self.pairs().len(),
    {
        self.entries.len()
    }

    /// Whether there are no entries.
    pub fn is_empty(&self) -> (b: bool)
        ensures
            b == (self.pairs().len() == 0),
    {
        self.entries.len() == 0
    }

    /// The key of entry `i`.
    pub fn key_at(&self, i: usize) -> (k: &str)
        requires
            i < self.pairs().len(),
        ensures
            k@ == self.pairs()[i as int].0,
    {
        self.entries[i].0.as_str()
    }

    /// The value of entry `i`.
    pub fn value_at(&self, i: usize) -> (v: &str)
        requires
            i < self.pairs().len(),
        ensures
            v@ == self.pairs()[i as int].1,
    {
        self.entries[i].1.as_str()
    }

    /// The position of key `k`, if present.
    pub fn find(&self, k: &str) -> (r: Option<usize>)
        ensures
            match r {
                Some(i) => position_of(self.pairs(), k@) == i as int,
                None => position_of(self.pairs(), k@) == -1,
            },
    {
        proof {
            lemma_position_of(self.pairs(), k@);
        }
        let mut i: usize = 0;
        while i < self.entries.len()
            invariant
                i <= self.pairs().len(),
                forall|j: int| 0 <= j < i ==> self.pairs()[j].0 != k@,
                -1 <= position_of(self.pairs(), k@) < self.pairs().len(),
                position_of(self.pairs(), k@) >= 0 ==> self.pairs()[position_of(self.pairs(), k@)].0 == k@,
                position_of(self.pairs(), k@) >= 0 ==> forall|j: int| 0 <= j < position_of(self.pairs(), k@) ==> self.pairs()[j].0 != k@,
                position_of(self.pairs(), k@) == -1 <==> forall|j: int| 0 <= j < self.pairs().len() ==> self.pairs()[j].0 != k@,
            decreases self.entries.len() - i,
        {
            if str_eq(self.entries[i].0.as_str(), k) {
                assert(self.pairs()[i as int].0 == k@);
                return Some(i);
            }
            i = i + 1;
        }
        None
    }

    /// The value of key `k`, if present.
    pub fn get(&self, k: &str) -> (r: Option<&String>)
        ensures
            match r {
                Some(v) => self.spec_get(k@) == Some(v@),
                None => self.spec_get(k@) is None,
            },
    {
        proof {
            lemma_position_of(self.pairs(), k@);
        }
        match self.find(k) {
            Some(i) => {
                assert(self.pairs()[i as int] == entry_view(self.entries@[i as int]));
                Some(&self.entries[i].1)
            },
            None => None,
        }
    }

    /// Whether key `k` is present.
    pub fn contains_key(&self, k: &str) -> (b: bool)
        ensures
            b == (self.spec_get(k@) is Some),
    {
        self.find(k).is_some()
    }

    /// Stores `v` under `k`: an existing entry keeps its place and takes the
    /// new value, a new key is appended. Returns the value replaced, if any.
    pub fn insert(&mut self, k: String, v: String) -> (r: Option<String>)
        requires
            old(self).wf(),
        ensures
            final(self).wf(),
            final(self).pairs() == put(old(self).pairs(), k@, v@),
            match r {
                Some(prev) => {
                    &&& old(self).spec_get(k@) == Some(prev@)
                    &&& final(self).pairs() == old(self).pairs().update(
                        position_of(old(self).pairs(), k@),
                        (k@, v@),
                    )
                },
                None => {
                    &&& old(self).spec_get(k@) is None
                    &&& final(self).pairs() == old(self).pairs().push((k@, v@))
                },
            },
    {
        proof {
            lemma_position_of(self.pairs(), k@);
        }
        match self.find(k.as_str()) {
            Some(i) => {
                let ghost before = self.pairs();
                let prev = owned(self.entries[i].1.as_str());
                let ghost kv = k@;
                let ghost vv = v@;
                self.entries.set(i, (k, v));
                assert(self.pairs() =~= before.update(i as int, (kv, vv)));
                Some(prev)
            },
            None => {
                let ghost before = self.pairs();
                let ghost kv = k@;
                let ghost vv = v@;
                self.entries.push((k, v));
                assert(self.pairs() =~= before.push((kv, vv)));
                None
            },
        }
    }

    /// A copy with the same entries in the same order.
    pub fn duplicate(&self) -> (r: Self)
        ensures
            r.pairs() == self.pairs(),
    {
        let mut entries: Vec<(String, String)> = Vec::new();
        let mut i: usize = 0;
        while i < self.entries.len()
            invariant
                i <= self.entries@.len(),
                self.entries@.len() == self.pairs().len(),
                entries@.len() == i,
                forall|j: int| 0 <= j < i ==> entry_view(#[trigger] entries@[j]) == self.pairs()[j],
            decreases self.entries.len() - i,
        {
            let k = owned(self.entries[i].0.as_str());
            let v = owned(self.entries[i].1.as_str());
            assert(self.pairs()[i as int] == entry_view(self.entries@[i as int]));
            entries.push((k, v));
            i = i + 1;
        }
        let r = StringMap { entries };
        assert(r.pairs() =~= self.pairs());
        r
    }
}

impl Clone for StringMap {
    fn clone(&self) -> (r: Self)
        ensures
            r.pairs() == self.pairs(),
    {
        self.duplicate()
    }
}

} // verus!
