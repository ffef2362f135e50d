use vstd::prelude::*;

use crate::text::{chars_of, lemma_seq_lt_irreflexive, lemma_seq_lt_transitive,
    lemma_seq_lt_trichotomy, seq_lt, str_eq, str_lt};

verus! {

/// The entries of a string map, as (key, value) character sequences.
pub type EntryViews = Seq<(Seq<char>, Seq<char>)>;

/// Keys strictly increase along the sequence, as in a `BTreeMap<String, String>`.
pub open spec fn keys_sorted<W>(s: Seq<(Seq<char>, W)>) -> bool {
    forall|i: int, j: int| 0 <= i < j < s.len() ==> seq_lt(#[trigger] s[i].0, #[trigger] s[j].0)
}

/// The value that the last pair with key `k` gives, as building a `BTreeMap` from the pairs does.
/// On a map's entries, whose keys are distinct, it is the value stored under `k`.
pub open spec fn lookup<W>(pairs: Seq<(Seq<char>, W)>, k: Seq<char>) -> Option<W>
    decreases pairs.len(),
{
    if pairs.len() == 0 {
        None
    } else if pairs.last().0 == k {
        Some(pairs.last().1)
    } else {
        lookup(pairs.drop_last(), k)
    }
}

pub proof fn lemma_lookup_absent<W>(s: Seq<(Seq<char>, W)>, k: Seq<char>)
    requires
        forall|j: int| 0 <= j < s.len() ==> #[trigger] s[j].0 != k,
    ensures
        lookup(s, k).is_none(),
    decreases s.len(),
{
    if s.len() > 0 {
        assert(s.last() == s[s.len() - 1]);
        let t = s.drop_last();
        assert forall|j: int| 0 <= j < t.len() implies #[trigger] t[j].0 != k by {
            assert(t[j] == s[j]);
        }
        lemma_lookup_absent(t, k);
    }
}

/// A map from strings to strings that iterates in key order, like `BTreeMap<String, String>`.
#[derive(Debug, PartialEq, Eq)]
pub struct StringMap {
    entries: Vec<(String, String)>,
}

impl View for StringMap {
    type V = EntryViews;

    closed spec fn view(&self) -> EntryViews {
        self.entries@.map_values(|e: (String, String)| (e.0@, e.1@))
    }
}

pub proof fn lemma_lookup_at<W>(s: Seq<(Seq<char>, W)>, i: int)
    requires
        keys_sorted(s),
        0 <= i < s.len(),
    ensures
        lookup(s, s[i].0) == Some(s[i].1),
    decreases s.len(),
{
    let k = s[i].0;
    if i < s.len() - 1 {
        assert(seq_lt(s[i].0, s[s.len() - 1].0));
        if s.last().0 == k {
            lemma_seq_lt_irreflexive(k);
        }
        let t = s.drop_last();
        assert(keys_sorted(t));
        assert(t[i] == s[i]);
        lemma_lookup_at(t, i);
    }
}

impl Clone for StringMap {
    fn clone(&self) -> (r: Self)
        ensures
            r@ == self@,
    {
        proof {
            use_type_invariant(self);
        }
        let mut entries: Vec<(String, String)> = Vec::new();
        let mut i: usize = 0;
        while i < self.entries.len()
            invariant
                i <= self@.len(),
                keys_sorted(self@),
                entries@.len() == i,
                forall|j: int|
                    0 <= j < i ==> (#[trigger] entries@[j]).0@ == self@[j].0 && entries@[j].1@
                        == self@[j].1,
            decreases self@.len() - i,
        {
            let k = self.entries[i].0.clone();
            let v = self.entries[i].1.clone();
            assert(self@[i as int] == (k@, v@));
            entries.push((k, v));
            i = i + 1;
        }
        let r = StringMap { entries };
        assert(r@ =~= self@);
        r
    }
}

impl StringMap {
    #[verifier::type_invariant]
    closed spec fn sorted(self) -> bool {
        keys_sorted(self@)
    }

    /// An empty map.
    pub fn new() -> (r: Self)
        ensures
            r@ == Seq::<(Seq<char>, Seq<char>)>::empty(),
    {
        let r = StringMap { entries: Vec::new() };
        assert(r@ =~= Seq::<(Seq<char>, Seq<char>)>::empty());
        r
    }

    /// The number of entries (whose keys, like those of every map, increase).
    pub fn len(&self) -> (r: usize)
        ensures
            r == self@.len(),
            keys_sorted(self@),
    {
        proof {
            use_type_invariant(self);
        }
        self.entries.len()
    }

    /// Whether the map holds no entry.
    pub fn is_empty(&self) -> (r: bool)
        ensures
            r == (self@.len() == 0),
    {
        self.entries.len() == 0
    }

    /// The key of the `i`-th entry in key order.
    pub fn key_at(&self, i: usize) -> (r: &String)
        requires
            i < self@.len(),
        ensures
            r@ == self@[i as int].0,
    {
        &self.entries[i].0
    }

    /// The value of the `i`-th entry in key order.
    pub fn value_at(&self, i: usize) -> (r: &String)
        requires
            i < self@.len(),
        ensures
            r@ == self@[i as int].1,
    {
        &self.entries[i].1
    }

    /// The value stored under `key`.
    pub fn get(&self, key: &str) -> (r: Option<&String>)
        ensures
            match r {
                Some(v) => lookup(self@, key@) == Some(v@),
                None => lookup(self@, key@).is_none(),
            },
    {
        proof {
            use_type_invariant(self);
        }
        let mut i: usize = 0;
        while i < self.entries.len()
            invariant
                i <= self@.len(),
                keys_sorted(self@),
                forall|j: int| 0 <= j < i ==> self@[j].0 != key@,
            decreases self@.len() - i,
        {
            if str_eq(self.entries[i].0.as_str(), key) {
                proof {
                    lemma_lookup_at(self@, i as int);
                }
                return Some(&self.entries[i].1);
            }
            i = i + 1;
        }
        proof {
            lemma_lookup_absent(self@, key@);
        }
        None
    }

    /// Stores `value` under `key` and hands back the value it replaces, as `BTreeMap::insert`.
    pub fn insert(&mut self, key: String, value: String) -> (r: Option<String>)
        ensures
            keys_sorted(final(self)@),
            forall|k: Seq<char>|
                #![trigger lookup(final(self)@, k)]
                lookup(final(self)@, k) == if k == key@ {
                    Some(value@)
                } else {
                    lookup(old(self)@, k)
                },
            match r {
                Some(v) => lookup(old(self)@, key@) == Some(v@),
                None => lookup(old(self)@, key@).is_none(),
            },
    {
        proof {
            use_type_invariant(&*self);
        }
        let ghost s0 = self@;
        let kc = chars_of(key.as_str());
        let i = find_slot(&self.entries, &kc);
        let n = self.entries.len();
        let mut entries: Vec<(String, String)> = Vec::new();
        std::mem::swap(&mut entries, &mut self.entries);
        assert(entries@.map_values(|e: (String, String)| (e.0@, e.1@)) == s0);
        proof {
            assert forall|j: int| 0 <= j < i implies seq_lt(#[trigger] s0[j].0, key@) by {
                assert(s0[j].0 == entries@[j].0@);
            }
            if i < n {
                assert(s0[i as int].0 == entries@[i as int].0@);
            }
        }
        if i < n && str_eq(entries[i].0.as_str(), key.as_str()) {
            let old_value = entries[i].1.clone();
            proof {
                lemma_sorted_replace(s0, i as int, value@);
                lemma_lookup_at(s0, i as int);
            }
            entries.set(i, (key, value));
            assert(entries@.map_values(|e: (String, String)| (e.0@, e.1@)) =~= s0.update(
                i as int,
                (s0[i as int].0, value@),
            ));
            self.entries = entries;
            Some(old_value)
        } else {
            let ghost kv = key@;
            let ghost vv = value@;
            proof {
                lemma_sorted_insert(s0, i as int, kv, vv);
            }
            entries.insert(i, (key, value));
            assert(entries@.map_values(|e: (String, String)| (e.0@, e.1@)) =~= s0.insert(
                i as int,
                (kv, vv),
            ));
            self.entries = entries;
            None
        }
    }

    /// Builds a map from pairs; a later pair wins over an earlier one with the same key, as
    /// `BTreeMap::from` does.
    pub fn from_pairs(pairs: Vec<(String, String)>) -> (r: Self)
        ensures
            keys_sorted(r@),
            forall|k: Seq<char>|
                #![trigger lookup(r@, k)]
                lookup(r@, k) == lookup(
                    pairs@.map_values(|e: (String, String)| (e.0@, e.1@)),
                    k,
                ),
    {
        let ghost pv = pairs@.map_values(|e: (String, String)| (e.0@, e.1@));
        let mut m = StringMap::new();
        let mut i: usize = 0;
        let n = pairs.len();
        while i < n
            invariant
                n == pairs@.len(),
                i <= n,
                pv == pairs@.map_values(|e: (String, String)| (e.0@, e.1@)),
                keys_sorted(m@),
                forall|k: Seq<char>|
                    #![trigger lookup(m@, k)]
                    lookup(m@, k) == lookup(pv.subrange(0, i as int), k),
            decreases n - i,
        {
            let k = pairs[i].0.clone();
            let v = pairs[i].1.clone();
            proof {
                assert(k@ == pv[i as int].0);
                assert(v@ == pv[i as int].1);
            }
            let _ = m.insert(k, v);
            i = i + 1;
            proof {
                let sub = pv.subrange(0, i as int);
                assert(sub.drop_last() =~= pv.subrange(0, i - 1));
                assert forall|key: Seq<char>| #![trigger lookup(m@, key)]
                    lookup(m@, key) == lookup(sub, key) by {
                    assert(sub.last() == pv[i - 1]);
                }
            }
        }
        assert(pv.subrange(0, n as int) =~= pv);
        m
    }
}

/// The first position whose key is not below `key`: every key before it is smaller.
pub fn find_slot<V>(entries: &Vec<(String, V)>, key: &Vec<char>) -> (r: usize)
    ensures
        r <= entries@.len(),
        forall|j: int| 0 <= j < r ==> seq_lt(#[trigger] entries@[j].0@, key@),
        r < entries@.len() ==> !seq_lt(entries@[r as int].0@, key@),
{
    let mut i: usize = 0;
    let n = entries.len();
    while i < n
        invariant
            n == entries@.len(),
            i <= n,
            forall|j: int| 0 <= j < i ==> seq_lt(#[trigger] entries@[j].0@, key@),
        ensures
            i <= n,
            forall|j: int| 0 <= j < i ==> seq_lt(#[trigger] entries@[j].0@, key@),
            i < n ==> !seq_lt(entries@[i as int].0@, key@),
        decreases n - i,
    {
        let ec = chars_of(entries[i].0.as_str());
        if !str_lt(&ec, key) {
            break;
        }
        i = i + 1;
    }
    i
}

/// Replacing the value of an entry keeps the keys sorted and changes the lookup of that key
/// alone.
pub proof fn lemma_sorted_replace<W>(s0: Seq<(Seq<char>, W)>, i: int, v: W)
    requires
        keys_sorted(s0),
        0 <= i < s0.len(),
    ensures
        keys_sorted(s0.update(i, (s0[i].0, v))),
        forall|k: Seq<char>|
            #![trigger lookup(s0.update(i, (s0[i].0, v)), k)]
            lookup(s0.update(i, (s0[i].0, v)), k) == if k == s0[i].0 {
                Some(v)
            } else {
                lookup(s0, k)
            },
{
    let key = s0[i].0;
    let s1 = s0.update(i, (key, v));
    assert(keys_sorted(s1)) by {
        assert forall|a: int, b: int| 0 <= a < b < s1.len() implies seq_lt(
            #[trigger] s1[a].0,
            #[trigger] s1[b].0,
        ) by {
            assert(s1[a].0 == s0[a].0);
            assert(s1[b].0 == s0[b].0);
        }
    }
    assert forall|k: Seq<char>| #![trigger lookup(s1, k)]
        lookup(s1, k) == if k == key { Some(v) } else { lookup(s0, k) } by {
        if k == key {
            lemma_lookup_at(s1, i);
        } else {
            lemma_lookup_same_elsewhere(s0, s1, k);
        }
    }
}

/// Inserting a new key at the position where it belongs keeps the keys sorted and adds that
/// key's lookup alone.
pub proof fn lemma_sorted_insert<W>(s0: Seq<(Seq<char>, W)>, i: int, kv: Seq<char>, vv: W)
    requires
        keys_sorted(s0),
        0 <= i <= s0.len(),
        forall|j: int| 0 <= j < i ==> seq_lt(#[trigger] s0[j].0, kv),
        i < s0.len() ==> !seq_lt(s0[i].0, kv) && s0[i].0 != kv,
    ensures
        keys_sorted(s0.insert(i, (kv, vv))),
        forall|k: Seq<char>|
            #![trigger lookup(s0.insert(i, (kv, vv)), k)]
            lookup(s0.insert(i, (kv, vv)), k) == if k == kv {
                Some(vv)
            } else {
                lookup(s0, k)
            },
        lookup(s0, kv).is_none(),
{
    let s1 = s0.insert(i, (kv, vv));
    if i < s0.len() {
        lemma_seq_lt_trichotomy(s0[i].0, kv);
    }
    assert forall|a: int, b: int| 0 <= a < b < s1.len() implies seq_lt(
        #[trigger] s1[a].0,
        #[trigger] s1[b].0,
    ) by {
        if b < i {
        } else if a < i && b == i {
        } else if a < i && b > i {
            assert(s1[b] == s0[b - 1]);
        } else if a == i {
            assert(s1[b] == s0[b - 1]);
            if b - 1 > i {
                assert(seq_lt(s0[i].0, s0[b - 1].0));
                lemma_seq_lt_transitive(kv, s0[i].0, s0[b - 1].0);
            }
        } else {
            assert(s1[a] == s0[a - 1]);
            assert(s1[b] == s0[b - 1]);
        }
    }
    assert(!(exists|j: int| 0 <= j < s0.len() && #[trigger] s0[j].0 == kv)) by {
        if exists|j: int| 0 <= j < s0.len() && #[trigger] s0[j].0 == kv {
            let j = choose|j: int| 0 <= j < s0.len() && #[trigger] s0[j].0 == kv;
            if j < i {
                lemma_seq_lt_irreflexive(kv);
            } else if j > i {
                assert(seq_lt(s0[i].0, s0[j].0));
                lemma_seq_lt_irreflexive(kv);
            }
        }
    }
    lemma_lookup_absent(s0, kv);
    assert forall|k: Seq<char>| #![trigger lookup(s1, k)]
        lookup(s1, k) == if k == kv { Some(vv) } else { lookup(s0, k) } by {
        if k == kv {
            assert(s1[i] == (kv, vv));
            lemma_lookup_at(s1, i);
        } else {
            if exists|j: int| 0 <= j < s0.len() && #[trigger] s0[j].0 == k {
                let j = choose|j: int| 0 <= j < s0.len() && #[trigger] s0[j].0 == k;
                lemma_lookup_at(s0, j);
                let j1 = if j < i { j } else { j + 1 };
                assert(s1[j1] == s0[j]);
                lemma_lookup_at(s1, j1);
            } else {
                assert(!(exists|j: int| 0 <= j < s1.len() && #[trigger] s1[j].0 == k)) by {
                    if exists|j: int| 0 <= j < s1.len() && #[trigger] s1[j].0 == k {
                        let j = choose|j: int| 0 <= j < s1.len() && #[trigger] s1[j].0 == k;
                        if j < i {
                            assert(s0[j].0 == k);
                        } else if j > i {
                            assert(s0[j - 1].0 == k);
                        }
                    }
                }
                lemma_lookup_absent(s0, k);
                lemma_lookup_absent(s1, k);
            }
        }
    }
}

proof fn lemma_lookup_same_elsewhere<W>(s0: Seq<(Seq<char>, W)>, s1: Seq<(Seq<char>, W)>, k: Seq<char>)
    requires
        s0.len() == s1.len(),
        forall|j: int| 0 <= j < s0.len() ==> (#[trigger] s0[j].0 == k <==> s1[j].0 == k),
        forall|j: int| 0 <= j < s0.len() && #[trigger] s0[j].0 == k ==> s1[j] == s0[j],
        keys_sorted(s0),
        keys_sorted(s1),
    ensures
        lookup(s1, k) == lookup(s0, k),
{
    if exists|j: int| 0 <= j < s0.len() && #[trigger] s0[j].0 == k {
        let j = choose|j: int| 0 <= j < s0.len() && #[trigger] s0[j].0 == k;
        lemma_lookup_at(s0, j);
        lemma_lookup_at(s1, j);
    } else {
        assert(!(exists|j: int| 0 <= j < s1.len() && #[trigger] s1[j].0 == k)) by {
            if exists|j: int| 0 <= j < s1.len() && #[trigger] s1[j].0 == k {
                let j = choose|j: int| 0 <= j < s1.len() && #[trigger] s1[j].0 == k;
                assert(s0[j].0 == k);
            }
        }
        lemma_lookup_absent(s0, k);
        lemma_lookup_absent(s1, k);
    }
}

} // verus!

verus! {

/// Names strictly increase along the sequence, as in a `BTreeSet<String>`.
pub open spec fn names_sorted(s: Seq<Seq<char>>) -> bool {
    forall|i: int, j: int| 0 <= i < j < s.len() ==> seq_lt(#[trigger] s[i], #[trigger] s[j])
}

/// The names of `s` with `a` added in its place; `s` itself when `a` is already there.
pub open spec fn sorted_with(s: Seq<Seq<char>>, a: Seq<char>) -> Seq<Seq<char>>
    decreases s.len(),
{
    if s.len() == 0 {
        seq![a]
    } else if seq_lt(a, s[0]) {
        seq![a] + s
    } else if a == s[0] {
        s
    } else {
        seq![s[0]] + sorted_with(s.drop_first(), a)
    }
}

/// The names of `s` other than `a`, in order.
pub open spec fn without(s: Seq<Seq<char>>, a: Seq<char>) -> Seq<Seq<char>>
    decreases s.len(),
{
    if s.len() == 0 {
        s
    } else if s[0] == a {
        without(s.drop_first(), a)
    } else {
        seq![s[0]] + without(s.drop_first(), a)
    }
}

proof fn lemma_names_sorted_tail(s: Seq<Seq<char>>)
    requires
        names_sorted(s),
        s.len() > 0,
    ensures
        names_sorted(s.drop_first()),
        forall|j: int| 0 <= j < s.drop_first().len() ==> seq_lt(s[0], #[trigger] s.drop_first()[j]),
{
    let t = s.drop_first();
    assert forall|a: int, b: int| 0 <= a < b < t.len() implies seq_lt(
        #[trigger] t[a],
        #[trigger] t[b],
    ) by {
        assert(t[a] == s[a + 1]);
        assert(t[b] == s[b + 1]);
    }
    assert forall|j: int| 0 <= j < t.len() implies seq_lt(s[0], #[trigger] t[j]) by {
        assert(t[j] == s[j + 1]);
    }
}

/// Where `a` belongs in sorted names: `sorted_with` keeps them when `a` is there and inserts it
/// at that position otherwise, and the result is sorted.
pub proof fn lemma_sorted_with_at(s: Seq<Seq<char>>, a: Seq<char>, i: int)
    requires
        names_sorted(s),
        0 <= i <= s.len(),
        forall|j: int| 0 <= j < i ==> seq_lt(#[trigger] s[j], a),
        i < s.len() ==> !seq_lt(s[i], a),
    ensures
        sorted_with(s, a) == if i < s.len() && s[i] == a {
            s
        } else {
            s.insert(i, a)
        },
        names_sorted(sorted_with(s, a)),
    decreases i,
{
    if s.len() == 0 {
        assert(s.insert(i, a) =~= seq![a]);
    } else if i == 0 {
        lemma_seq_lt_trichotomy(s[0], a);
        if s[0] != a {
            assert(seq![a] + s =~= s.insert(0, a));
            let r = s.insert(0, a);
            assert forall|x: int, y: int| 0 <= x < y < r.len() implies seq_lt(
                #[trigger] r[x],
                #[trigger] r[y],
            ) by {
                if x == 0 {
                    if y > 1 {
                        lemma_seq_lt_transitive(a, s[0], s[y - 1]);
                    }
                } else {
                    assert(r[x] == s[x - 1]);
                    assert(r[y] == s[y - 1]);
                }
            }
        }
    } else {
        assert(seq_lt(s[0], a));
        lemma_seq_lt_trichotomy(s[0], a);
        lemma_names_sorted_tail(s);
        let t = s.drop_first();
        assert forall|j: int| 0 <= j < i - 1 implies seq_lt(#[trigger] t[j], a) by {
            assert(t[j] == s[j + 1]);
        }
        if i - 1 < t.len() {
            assert(t[i - 1] == s[i]);
        }
        lemma_sorted_with_at(t, a, i - 1);
        let r = sorted_with(s, a);
        assert(r == seq![s[0]] + sorted_with(t, a));
        if i < s.len() && s[i] == a {
            assert(seq![s[0]] + t =~= s);
        } else {
            assert(seq![s[0]] + t.insert(i - 1, a) =~= s.insert(i, a));
        }
        let rt = sorted_with(t, a);
        assert forall|x: int, y: int| 0 <= x < y < r.len() implies seq_lt(
            #[trigger] r[x],
            #[trigger] r[y],
        ) by {
            if x == 0 {
                assert(r[y] == rt[y - 1]);
                if i < s.len() && s[i] == a {
                    assert(rt[y - 1] == t[y - 1]);
                } else if y - 1 < i - 1 {
                    assert(rt[y - 1] == t[y - 1]);
                } else if y - 1 == i - 1 {
                    assert(rt[y - 1] == a);
                } else {
                    assert(rt[y - 1] == t[y - 2]);
                }
            } else {
                assert(r[x] == rt[x - 1]);
                assert(r[y] == rt[y - 1]);
            }
        }
    }
}

/// In sorted names, removing `a` drops the one position that holds it, or nothing.
pub proof fn lemma_without_at(s: Seq<Seq<char>>, a: Seq<char>, i: int)
    requires
        names_sorted(s),
        0 <= i <= s.len(),
        forall|j: int| 0 <= j < i ==> seq_lt(#[trigger] s[j], a),
        i < s.len() ==> !seq_lt(s[i], a),
    ensures
        without(s, a) == if i < s.len() && s[i] == a {
            s.remove(i)
        } else {
            s
        },
        names_sorted(without(s, a)),
    decreases s.len(),
{
    if s.len() > 0 {
        lemma_names_sorted_tail(s);
        let t = s.drop_first();
        if i == 0 {
            if s[0] == a {
                assert forall|j: int| 0 <= j < t.len() implies #[trigger] t[j] != a by {
                    lemma_seq_lt_irreflexive(a);
                }
                lemma_without_absent(t, a);
                assert(s.remove(0) =~= t);
            } else {
                lemma_seq_lt_trichotomy(s[0], a);
                assert forall|j: int| 0 <= j < s.len() implies #[trigger] s[j] != a by {
                    if j > 0 {
                        assert(seq_lt(s[0], s[j]));
                        lemma_seq_lt_transitive(a, s[0], s[j]);
                        lemma_seq_lt_irreflexive(a);
                    }
                }
                lemma_without_absent(s, a);
            }
        } else {
            lemma_seq_lt_irreflexive(a);
            assert(s[0] != a);
            assert forall|j: int| 0 <= j < i - 1 implies seq_lt(#[trigger] t[j], a) by {
                assert(t[j] == s[j + 1]);
            }
            if i - 1 < t.len() {
                assert(t[i - 1] == s[i]);
            }
            lemma_without_at(t, a, i - 1);
            if i < s.len() && s[i] == a {
                assert(seq![s[0]] + t.remove(i - 1) =~= s.remove(i));
            } else {
                assert(seq![s[0]] + t =~= s);
            }
        }
        let r = without(s, a);
        if s[0] != a {
            let rt = without(t, a);
            assert(r == seq![s[0]] + rt);
            assert forall|x: int, y: int| 0 <= x < y < r.len() implies seq_lt(
                #[trigger] r[x],
                #[trigger] r[y],
            ) by {
                if x == 0 {
                    lemma_without_members(t, a, y - 1);
                } else {
                    assert(r[x] == rt[x - 1]);
                    assert(r[y] == rt[y - 1]);
                }
            }
        }
    }
}

proof fn lemma_without_absent(s: Seq<Seq<char>>, a: Seq<char>)
    requires
        forall|j: int| 0 <= j < s.len() ==> #[trigger] s[j] != a,
    ensures
        without(s, a) == s,
    decreases s.len(),
{
    if s.len() > 0 {
        let t = s.drop_first();
        assert forall|j: int| 0 <= j < t.len() implies #[trigger] t[j] != a by {
            assert(t[j] == s[j + 1]);
        }
        lemma_without_absent(t, a);
        assert(seq![s[0]] + t =~= s);
    }
}

proof fn lemma_without_members(s: Seq<Seq<char>>, a: Seq<char>, k: int)
    requires
        0 <= k < without(s, a).len(),
    ensures
        exists|j: int| 0 <= j < s.len() && s[j] == #[trigger] without(s, a)[k],
    decreases s.len(),
{
    let t = s.drop_first();
    if s[0] == a {
        lemma_without_members(t, a, k);
        let j = choose|j: int| 0 <= j < t.len() && t[j] == #[trigger] without(t, a)[k];
        assert(s[j + 1] == t[j]);
    } else if k == 0 {
        assert(s[0] == without(s, a)[0]);
    } else {
        lemma_without_members(t, a, k - 1);
        let j = choose|j: int| 0 <= j < t.len() && t[j] == #[trigger] without(t, a)[k - 1];
        assert(s[j + 1] == t[j]);
    }
}

/// A set of strings that iterates in order, like `BTreeSet<String>`.
#[derive(Debug, PartialEq, Eq)]
pub struct StringSet {
    names: Vec<String>,
}

impl View for StringSet {
    type V = Seq<Seq<char>>;

    closed spec fn view(&self) -> Seq<Seq<char>> {
        self.names@.map_values(|s: String| s@)
    }
}

impl Clone for StringSet {
    fn clone(&self) -> (r: Self)
        ensures
            r@ == self@,
    {
        proof {
            use_type_invariant(self);
        }
        let mut names: Vec<String> = Vec::new();
        let mut i: usize = 0;
        while i < self.names.len()
            invariant
                i <= self@.len(),
                names_sorted(self@),
                names@.len() == i,
                forall|j: int| 0 <= j < i ==> (#[trigger] names@[j])@ == self@[j],
            decreases self@.len() - i,
        {
            let name = self.names[i].clone();
            assert(self@[i as int] == name@);
            names.push(name);
            i = i + 1;
        }
        let r = StringSet { names };
        assert(r@ =~= self@);
        r
    }
}

impl StringSet {
    #[verifier::type_invariant]
    closed spec fn sorted(self) -> bool {
        names_sorted(self@)
    }

    /// An empty set.
    pub fn new() -> (r: Self)
        ensures
            r@ == Seq::<Seq<char>>::empty(),
    {
        let r = StringSet { names: Vec::new() };
        assert(r@ =~= Seq::<Seq<char>>::empty());
        r
    }

    /// The number of names; they increase.
    pub fn len(&self) -> (r: usize)
        ensures
            r == self@.len(),
            names_sorted(self@),
    {
        proof {
            use_type_invariant(self);
        }
        self.names.len()
    }

    /// The `i`-th name in order.
    pub fn name_at(&self, i: usize) -> (r: &String)
        requires
            i < self@.len(),
        ensures
            r@ == self@[i as int],
    {
        &self.names[i]
    }

    fn slot(&self, name: &str) -> (r: usize)
        ensures
            r <= self@.len(),
            forall|j: int| 0 <= j < r ==> seq_lt(#[trigger] self@[j], name@),
            r < self@.len() ==> !seq_lt(self@[r as int], name@),
    {
        let nc = chars_of(name);
        let mut i: usize = 0;
        let n = self.names.len();
        while i < n
            invariant
                n == self@.len(),
                i <= n,
                nc@ == name@,
                forall|j: int| 0 <= j < i ==> seq_lt(#[trigger] self@[j], name@),
            ensures
                i <= n,
                forall|j: int| 0 <= j < i ==> seq_lt(#[trigger] self@[j], name@),
                i < n ==> !seq_lt(self@[i as int], name@),
            decreases n - i,
        {
            let ec = chars_of(self.names[i].as_str());
            if !str_lt(&ec, &nc) {
                break;
            }
            i = i + 1;
        }
        i
    }

    /// Whether `name` is in the set.
    pub fn contains(&self, name: &str) -> (r: bool)
        ensures
            r == self@.contains(name@),
    {
        proof {
            use_type_invariant(self);
        }
        let i = self.slot(name);
        let found = i < self.names.len() && str_eq(self.names[i].as_str(), name);
        proof {
            if !found && self@.contains(name@) {
                let j = choose|j: int| 0 <= j < self@.len() && self@[j] == name@;
                lemma_seq_lt_irreflexive(name@);
                if j > i {
                    assert(seq_lt(self@[i as int], self@[j]));
                    lemma_seq_lt_trichotomy(self@[i as int], name@);
                }
            }
        }
        found
    }

    /// Adds `name`, as `BTreeSet::insert`.
    pub fn insert(&mut self, name: String)
        ensures
            final(self)@ == sorted_with(old(self)@, name@),
    {
        proof {
            use_type_invariant(&*self);
        }
        let ghost s0 = self@;
        let i = self.slot(name.as_str());
        proof {
            lemma_sorted_with_at(s0, name@, i as int);
        }
        if i < self.names.len() && str_eq(self.names[i].as_str(), name.as_str()) {
            return;
        }
        let mut names: Vec<String> = Vec::new();
        std::mem::swap(&mut names, &mut self.names);
        let ghost nv = name@;
        names.insert(i, name);
        assert(names@.map_values(|s: String| s@) =~= s0.insert(i as int, nv));
        self.names = names;
    }

    /// Removes `name`, as `BTreeSet::remove`.
    pub fn remove(&mut self, name: &str)
        ensures
            final(self)@ == without(old(self)@, name@),
    {
        proof {
            use_type_invariant(&*self);
        }
        let ghost s0 = self@;
        let i = self.slot(name);
        proof {
            lemma_without_at(s0, name@, i as int);
        }
        if i < self.names.len() && str_eq(self.names[i].as_str(), name) {
            let mut names: Vec<String> = Vec::new();
            std::mem::swap(&mut names, &mut self.names);
            let _ = names.remove(i);
            assert(names@.map_values(|s: String| s@) =~= s0.remove(i as int));
            self.names = names;
        }
    }
}

} // verus!
