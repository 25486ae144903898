use vstd::prelude::*;

use crate::text::{compare_str, lemma_seq_order_basics, lemma_seq_lt_transitive, seq_lt, seq_order, str_eq};

verus! {

/// One key and its value.
pub struct TextMapEntry<V> {
    pub key: String,
    pub value: V,
}

/// A map keyed by text whose entries are kept in ascending key order, as a `BTreeMap<String, V>`
/// keeps them.
pub struct TextMap<V> {
    entries: Vec<TextMapEntry<V>>,
}

impl<V> TextMap<V> {
    /// The keys, in stored order.
    pub closed spec fn keys_seq(self) -> Seq<Seq<char>> {
        self.entries@.map_values(|e: TextMapEntry<V>| e.key@)
    }

    /// Keys strictly ascend, so no key occurs twice.
    pub closed spec fn wf(self) -> bool {
        forall|i: int, j: int|
            0 <= i < j < self.entries@.len() ==> seq_lt(
                #[trigger] self.entries@[i].key@,
                #[trigger] self.entries@[j].key@,
            )
    }

    pub closed spec fn has_key(self, k: Seq<char>) -> bool {
        exists|i: int| 0 <= i < self.entries@.len() && #[trigger] self.entries@[i].key@ == k
    }

    pub closed spec fn index_of(self, k: Seq<char>) -> int {
        choose|i: int| 0 <= i < self.entries@.len() && #[trigger] self.entries@[i].key@ == k
    }

    /// The contents as a map from key text to value.
    pub closed spec fn map(self) -> Map<Seq<char>, V> {
        Map::new(|k: Seq<char>| self.has_key(k), |k: Seq<char>| self.entries@[self.index_of(k)].value)
    }

    /// Number of entries.
    pub closed spec fn count(self) -> nat {
        self.entries@.len()
    }

    proof fn lemma_unique(self, i: int, j: int)
        requires
            self.wf(),
            0 <= i < self.entries@.len(),
            0 <= j < self.entries@.len(),
            self.entries@[i].key@ == self.entries@[j].key@,
        ensures
            i == j,
    {
        if i < j {
            lemma_seq_order_basics(self.entries@[i].key@, self.entries@[j].key@);
        } else if j < i {
            lemma_seq_order_basics(self.entries@[j].key@, self.entries@[i].key@);
        }
    }

    proof fn lemma_index(self, i: int)
        requires
            self.wf(),
            0 <= i < self.entries@.len(),
        ensures
            self.has_key(self.entries@[i].key@),
            self.index_of(self.entries@[i].key@) == i,
            self.map().contains_key(self.entries@[i].key@),
            self.map()[self.entries@[i].key@] == self.entries@[i].value,
    {
        let k = self.entries@[i].key@;
        assert(self.has_key(k));
        let j = self.index_of(k);
        self.lemma_unique(i, j);
    }

    /// The ordered keys are exactly the keys of the map, each once, ascending.
    pub proof fn lemma_keys_seq(self)
        requires
            self.wf(),
        ensures
            self.keys_seq().len() == self.count(),
            forall|i: int| 0 <= i < self.count() ==> self.map().contains_key(#[trigger] self.keys_seq()[i]),
            forall|k: Seq<char>| self.map().contains_key(k) ==> self.keys_seq().contains(k),
            forall|i: int, j: int| 0 <= i < j < self.count() ==> seq_lt(
                #[trigger] self.keys_seq()[i],
                #[trigger] self.keys_seq()[j],
            ),
    {
        assert forall|i: int| 0 <= i < self.count() implies self.map().contains_key(
            #[trigger] self.keys_seq()[i],
        ) by {
            self.lemma_index(i);
        }
        assert forall|k: Seq<char>| self.map().contains_key(k) implies self.keys_seq().contains(k) by {
            let i = self.index_of(k);
            assert(self.keys_seq()[i] == k);
        }
        assert forall|i: int, j: int| 0 <= i < j < self.count() implies seq_lt(
            #[trigger] self.keys_seq()[i],
            #[trigger] self.keys_seq()[j],
        ) by {
            assert(self.keys_seq()[i] == self.entries@[i].key@);
            assert(self.keys_seq()[j] == self.entries@[j].key@);
        }
    }

    /// An empty map.
    pub fn new() -> (r: Self)
        ensures
            r.wf(),
            r.map() == Map::<Seq<char>, V>::empty(),
            r.count() == 0,
    {
        let r = TextMap { entries: Vec::new() };
        assert(r.map() =~= Map::<Seq<char>, V>::empty());
        r
    }

    /// Number of entries.
    pub fn len(&self) -> (r: usize)
        requires
            self.wf(),
        ensures
            r == self.count(),
            r == self.map().len(),
    {
        proof {
            self.lemma_len();
        }
        self.entries.len()
    }

    proof fn lemma_len(self)
        requires
            self.wf(),
        ensures
            self.map().dom().finite(),
            self.map().len() == self.count(),
        decreases self.entries@.len(),
    {
        let ks = self.keys_seq();
        self.lemma_keys_seq();
        assert(self.map().dom() =~= ks.to_set());
        assert(ks.no_duplicates()) by {
            assert forall|i: int, j: int| 0 <= i < ks.len() && 0 <= j < ks.len() && i != j implies ks[i] != ks[j] by {
                if i < j {
                    lemma_seq_order_basics(ks[i], ks[j]);
                } else {
                    lemma_seq_order_basics(ks[j], ks[i]);
                }
            }
        }
        ks.unique_seq_to_set();
    }

    /// Position of a key, if present.
    pub fn find(&self, key: &str) -> (r: Option<usize>)
        requires
            self.wf(),
        ensures
            match r {
                Some(i) => i < self.count() && self.keys_seq()[i as int] == key@,
                None => !self.map().contains_key(key@),
            },
    {
        let n = self.entries.len();
        for i in 0..n
            invariant
                n == self.entries@.len(),
                forall|j: int| 0 <= j < i ==> self.entries@[j].key@ != key@,
        {
            if str_eq(self.entries[i].key.as_str(), key) {
                return Some(i);
            }
        }
        proof {
            if self.has_key(key@) {
                let j = self.index_of(key@);
                assert(self.entries@[j].key@ == key@);
            }
        }
        None
    }

    /// The value stored under a key.
    pub fn get(&self, key: &str) -> (r: Option<&V>)
        requires
            self.wf(),
        ensures
            match r {
                Some(v) => self.map().contains_key(key@) && *v == self.map()[key@],
                None => !self.map().contains_key(key@),
            },
    {
        match self.find(key) {
            Some(i) => {
                proof {
                    self.lemma_index(i as int);
                }
                Some(&self.entries[i].value)
            },
            None => None,
        }
    }

    /// Whether a key is present.
    pub fn contains_key(&self, key: &str) -> (r: bool)
        requires
            self.wf(),
        ensures
            r == self.map().contains_key(key@),
    {
        match self.find(key) {
            Some(i) => {
                proof {
                    self.lemma_index(i as int);
                }
                true
            },
            None => false,
        }
    }

    /// The key at a position in ascending order.
    pub fn key_at(&self, i: usize) -> (r: &String)
        requires
            i < self.count(),
        ensures
            r@ == self.keys_seq()[i as int],
    {
        &self.entries[i].key
    }

    /// The value at a position in ascending key order.
    pub fn value_at(&self, i: usize) -> (r: &V)
        requires
            self.wf(),
            i < self.count(),
        ensures
            self.map().contains_key(self.keys_seq()[i as int]),
            *r == self.map()[self.keys_seq()[i as int]],
    {
        proof {
            self.lemma_index(i as int);
        }
        &self.entries[i].value
    }

    /// First position whose key does not sort before `key`.
    fn lower_bound(&self, key: &str) -> (r: usize)
        requires
            self.wf(),
        ensures
            r <= self.count(),
            forall|j: int| 0 <= j < r ==> seq_lt(#[trigger] self.entries@[j].key@, key@),
            r < self.count() ==> !seq_lt(self.entries@[r as int].key@, key@),
    {
        let n = self.entries.len();
        let mut i: usize = 0;
        while i < n
            invariant
                n == self.entries@.len(),
                i <= n,
                forall|j: int| 0 <= j < i ==> seq_lt(#[trigger] self.entries@[j].key@, key@),
            decreases n - i,
        {
            let c = compare_str(self.entries[i].key.as_str(), key);
            if c >= 0 {
                return i;
            }
            i = i + 1;
        }
        i
    }

    /// Stores `value` under `key`, replacing any value stored there before; returns the
    /// replaced value.
    pub fn insert(&mut self, key: String, value: V) -> (r: Option<V>)
        requires
            old(self).wf(),
        ensures
            final(self).wf(),
            final(self).map() == old(self).map().insert(key@, value),
            match r {
                Some(v) => old(self).map().contains_key(key@) && v == old(self).map()[key@],
                None => !old(self).map().contains_key(key@),
            },
    {
        let p = self.lower_bound(key.as_str());
        let ghost old_self = *self;
        let ghost kv = key@;
        if p < self.entries.len() && str_eq(self.entries[p].key.as_str(), key.as_str()) {
            proof {
                old_self.lemma_index(p as int);
            }
            let old_entry = self.entries.remove(p);
            self.entries.insert(p, TextMapEntry { key, value });
            proof {
                assert(self.entries@ =~= old_self.entries@.update(p as int, TextMapEntry { key: self.entries@[p as int].key, value }));
                assert(self.wf()) by {
                    assert forall|i: int, j: int| 0 <= i < j < self.entries@.len() implies seq_lt(
                        #[trigger] self.entries@[i].key@,
                        #[trigger] self.entries@[j].key@,
                    ) by {
                        assert(old_self.entries@[i].key@ == self.entries@[i].key@ || i == p);
                        assert(self.entries@[i].key@ == old_self.entries@[i].key@);
                        assert(self.entries@[j].key@ == old_self.entries@[j].key@);
                    }
                }
                assert(self.map() =~= old_self.map().insert(kv, value)) by {
                    assert forall|k: Seq<char>| #[trigger] self.map().contains_key(k) == old_self.map().insert(kv, value).contains_key(k) by {
                        if self.has_key(k) {
                            let i = self.index_of(k);
                            assert(old_self.entries@[i].key@ == k);
                        }
                        if old_self.has_key(k) {
                            let i = old_self.index_of(k);
                            assert(self.entries@[i].key@ == k);
                        }
                        if k == kv {
                            assert(self.entries@[p as int].key@ == k);
                        }
                    }
                    assert forall|k: Seq<char>| #[trigger] self.map().contains_key(k) implies self.map()[k] == old_self.map().insert(kv, value)[k] by {
                        let i = self.index_of(k);
                        self.lemma_index(i);
                        if k != kv {
                            assert(old_self.entries@[i].key@ == k);
                            old_self.lemma_index(i);
                        }
                    }
                }
            }
            Some(old_entry.value)
        } else {
            proof {
                if old_self.has_key(kv) {
                    let j = old_self.index_of(kv);
                    if j < p {
                        lemma_seq_order_basics(kv, kv);
                    } else if j > p {
                        lemma_seq_lt_transitive(old_self.entries@[p as int].key@, old_self.entries@[j].key@, kv);
                        lemma_seq_order_basics(old_self.entries@[p as int].key@, kv);
                        lemma_seq_order_basics(old_self.entries@[p as int].key@, old_self.entries@[j].key@);
                    } else {
                        assert(old_self.entries@[p as int].key@ == kv);
                    }
                }
                if p < old_self.entries@.len() {
                    lemma_seq_order_basics(old_self.entries@[p as int].key@, kv);
                }
            }
            self.entries.insert(p, TextMapEntry { key, value });
            proof {
                let e = self.entries@;
                assert(e == old_self.entries@.insert(p as int, TextMapEntry { key: e[p as int].key, value }));
                assert forall|i: int, j: int| 0 <= i < j < e.len() implies seq_lt(
                    #[trigger] e[i].key@,
                    #[trigger] e[j].key@,
                ) by {
                    if j < p {
                        assert(e[i] == old_self.entries@[i]);
                        assert(e[j] == old_self.entries@[j]);
                    } else if j == p {
                        assert(e[i] == old_self.entries@[i]);
                    } else if i == p {
                        assert(e[j] == old_self.entries@[j - 1]);
                        if j - 1 > p {
                            assert(old_self.entries@[p as int] == e[p + 1]);
                            lemma_seq_order_basics(kv, old_self.entries@[p as int].key@);
                            if kv == old_self.entries@[p as int].key@ {
                            } else {
                                lemma_seq_lt_transitive(kv, old_self.entries@[p as int].key@, old_self.entries@[j - 1].key@);
                            }
                        } else {
                            lemma_seq_order_basics(kv, old_self.entries@[p as int].key@);
                        }
                    } else if i < p {
                        assert(e[i] == old_self.entries@[i]);
                        assert(e[j] == old_self.entries@[j - 1]);
                    } else {
                        assert(e[i] == old_self.entries@[i - 1]);
                        assert(e[j] == old_self.entries@[j - 1]);
                    }
                }
                assert(self.wf());
                assert(self.map() =~= old_self.map().insert(kv, value)) by {
                    assert forall|k: Seq<char>| #[trigger] self.map().contains_key(k) == old_self.map().insert(kv, value).contains_key(k) by {
                        if self.has_key(k) {
                            let i = self.index_of(k);
                            if i < p {
                                assert(old_self.entries@[i].key@ == k);
                            } else if i > p {
                                assert(old_self.entries@[i - 1].key@ == k);
                            }
                        }
                        if old_self.has_key(k) {
                            let i = old_self.index_of(k);
                            if i < p {
                                assert(e[i].key@ == k);
                            } else {
                                assert(e[i + 1].key@ == k);
                            }
                        }
                        if k == kv {
                            assert(e[p as int].key@ == k);
                        }
                    }
                    assert forall|k: Seq<char>| #[trigger] self.map().contains_key(k) implies self.map()[k] == old_self.map().insert(kv, value)[k] by {
                        let i = self.index_of(k);
                        self.lemma_index(i);
                        if k != kv {
                            if i < p {
                                assert(old_self.entries@[i].key@ == k);
                                old_self.lemma_index(i);
                            } else {
                                assert(i != p);
                                assert(old_self.entries@[i - 1].key@ == k);
                                old_self.lemma_index(i - 1);
                            }
                        }
                    }
                }
            }
            None
        }
    }

    /// Removes a key; returns the value stored there.
    pub fn remove(&mut self, key: &str) -> (r: Option<V>)
        requires
            old(self).wf(),
        ensures
            final(self).wf(),
            final(self).map() == old(self).map().remove(key@),
            match r {
                Some(v) => old(self).map().contains_key(key@) && v == old(self).map()[key@],
                None => !old(self).map().contains_key(key@),
            },
    {
        let ghost old_self = *self;
        match self.find(key) {
            None => {
                assert(self.map() =~= old_self.map().remove(key@));
                None
            },
            Some(p) => {
                proof {
                    old_self.lemma_index(p as int);
                }
                let entry = self.entries.remove(p);
                proof {
                    let e = self.entries@;
                    assert(e == old_self.entries@.remove(p as int));
                    assert forall|i: int, j: int| 0 <= i < j < e.len() implies seq_lt(
                        #[trigger] e[i].key@,
                        #[trigger] e[j].key@,
                    ) by {
                        let oi = if i < p { i } else { i + 1 };
                        let oj = if j < p { j } else { j + 1 };
                        assert(e[i] == old_self.entries@[oi]);
                        assert(e[j] == old_self.entries@[oj]);
                    }
                    assert(self.wf());
                    assert(self.map() =~= old_self.map().remove(key@)) by {
                        assert forall|k: Seq<char>| #[trigger] self.map().contains_key(k) == old_self.map().remove(key@).contains_key(k) by {
                            if self.has_key(k) {
                                let i = self.index_of(k);
                                let oi = if i < p { i } else { i + 1 };
                                assert(old_self.entries@[oi].key@ == k);
                                if k == key@ {
                                    old_self.lemma_unique(oi, p as int);
                                }
                            }
                            if old_self.has_key(k) && k != key@ {
                                let i = old_self.index_of(k);
                                if i < p {
                                    assert(e[i].key@ == k);
                                } else {
                                    assert(i != p);
                                    assert(e[i - 1].key@ == k);
                                }
                            }
                        }
                        assert forall|k: Seq<char>| #[trigger] self.map().contains_key(k) implies self.map()[k] == old_self.map().remove(key@)[k] by {
                            let i = self.index_of(k);
                            self.lemma_index(i);
                            let oi = if i < p { i } else { i + 1 };
                            assert(old_self.entries@[oi].key@ == k);
                            old_self.lemma_index(oi);
                        }
                    }
                }
                Some(entry.value)
            },
        }
    }

    /// Removes every entry.
    pub fn clear(&mut self)
        ensures
            final(self).wf(),
            final(self).map() == Map::<Seq<char>, V>::empty(),
            final(self).count() == 0,
    {
        self.entries.clear();
        assert(self.map() =~= Map::<Seq<char>, V>::empty());
    }
}


/// A set of texts kept in ascending order, as a `BTreeSet<String>` keeps them.
pub struct TextSet {
    items: TextMap<()>,
}

impl TextSet {
    pub closed spec fn wf(self) -> bool {
        self.items.wf()
    }

    /// The texts in the set.
    pub closed spec fn set(self) -> Set<Seq<char>> {
        self.items.map().dom()
    }

    /// The texts in ascending order.
    pub closed spec fn items_seq(self) -> Seq<Seq<char>> {
        self.items.keys_seq()
    }

    /// The ordered items are exactly the set's texts, each once, ascending.
    pub proof fn lemma_items(self)
        requires
            self.wf(),
        ensures
            forall|i: int| 0 <= i < self.items_seq().len() ==> self.set().contains(#[trigger] self.items_seq()[i]),
            forall|k: Seq<char>| self.set().contains(k) ==> self.items_seq().contains(k),
            forall|i: int, j: int| 0 <= i < j < self.items_seq().len() ==> seq_lt(
                #[trigger] self.items_seq()[i],
                #[trigger] self.items_seq()[j],
            ),
    {
        self.items.lemma_keys_seq();
    }

    pub fn new() -> (r: Self)
        ensures
            r.wf(),
            r.set() == Set::<Seq<char>>::empty(),
    {
        let r = TextSet { items: TextMap::new() };
        assert(r.set() =~= Set::<Seq<char>>::empty());
        r
    }

    pub fn len(&self) -> (r: usize)
        requires
            self.wf(),
        ensures
            r == self.items_seq().len(),
            r == self.set().len(),
    {
        proof {
            self.items.lemma_keys_seq();
        }
        self.items.len()
    }

    pub fn contains(&self, item: &str) -> (r: bool)
        requires
            self.wf(),
        ensures
            r == self.set().contains(item@),
    {
        self.items.contains_key(item)
    }

    /// Adds a text; returns whether it was new.
    pub fn insert(&mut self, item: String) -> (r: bool)
        requires
            old(self).wf(),
        ensures
            final(self).wf(),
            final(self).set() == old(self).set().insert(item@),
            r == !old(self).set().contains(item@),
    {
        let ghost iv = item@;
        let prior = self.items.insert(item, ());
        assert(self.set() =~= old(self).set().insert(iv));
        prior.is_none()
    }

    /// The text at a position in ascending order.
    pub fn item_at(&self, i: usize) -> (r: &String)
        requires
            self.wf(),
            i < self.items_seq().len(),
        ensures
            r@ == self.items_seq()[i as int],
    {
        proof {
            self.items.lemma_keys_seq();
        }
        self.items.key_at(i)
    }

    pub fn clear(&mut self)
        ensures
            final(self).wf(),
            final(self).set() == Set::<Seq<char>>::empty(),
    {
        self.items.clear();
        assert(self.set() =~= Set::<Seq<char>>::empty());
    }
}


/// The map that inserting `pairs` in order into an empty map gives: a later pair with the same
/// key wins.
pub open spec fn pairs_map<V>(pairs: Seq<(Seq<char>, V)>) -> Map<Seq<char>, V>
    decreases pairs.len(),
{
    if pairs.len() == 0 {
        Map::empty()
    } else {
        pairs_map(pairs.drop_last()).insert(pairs.last().0, pairs.last().1)
    }
}

/// The pairs with their keys taken as text.
pub open spec fn pair_views<V>(pairs: Seq<(String, V)>) -> Seq<(Seq<char>, V)> {
    pairs.map_values(|p: (String, V)| (p.0@, p.1))
}

impl<V> TextMap<V> {
    /// The map holding `pairs`, inserted in order.
    pub fn from_pairs(pairs: Vec<(String, V)>) -> (r: Self)
        ensures
            r.wf(),
            r.map() == pairs_map(pair_views(pairs@)),
    {
        let mut r = TextMap::new();
        let mut rest = pairs;
        let ghost all = pair_views(rest@);
        let mut i: usize = 0;
        let n = rest.len();
        while rest.len() > 0
            invariant
                r.wf(),
                n == all.len(),
                i + rest@.len() == n,
                pair_views(rest@) == all.subrange(i as int, n as int),
                r.map() == pairs_map(all.take(i as int)),
            decreases rest@.len(),
        {
            let ghost before = rest@;
            let (k, v) = rest.remove(0);
            proof {
                assert(pair_views(before)[0] == all[i as int]);
                assert(rest@ =~= before.drop_first());
                assert forall|j: int| 0 <= j < rest@.len() implies pair_views(rest@)[j] == all.subrange(
                    i + 1,
                    n as int,
                )[j] by {
                    assert(pair_views(rest@)[j] == pair_views(before)[j + 1]);
                    assert(all.subrange(i as int, n as int)[j + 1] == all[i + 1 + j]);
                }
                assert(pair_views(rest@) =~= all.subrange(i + 1, n as int));
                assert(all.take(i + 1).drop_last() =~= all.take(i as int));
            }
            let _ = r.insert(k, v);
            i = i + 1;
        }
        proof {
            assert(all.take(n as int) =~= all);
        }
        r
    }
}

/// The values of a text-valued map, by their text.
pub open spec fn text_values(m: Map<Seq<char>, String>) -> Map<Seq<char>, Seq<char>> {
    m.map_values(|v: String| v@)
}

/// Whether two flag maps hold the same keys with the same flags.
pub fn equal_flag_maps(a: &TextMap<bool>, b: &TextMap<bool>) -> (r: bool)
    requires
        a.wf(),
        b.wf(),
    ensures
        r == (a.map() == b.map()),
{
    proof {
        a.lemma_len();
        b.lemma_len();
        a.lemma_keys_seq();
    }
    let n = a.len();
    if n != b.len() {
        return false;
    }
    for i in 0..n
        invariant
            n == a.count(),
            a.wf(),
            b.wf(),
            forall|j: int| 0 <= j < i ==> b.map().contains_key(#[trigger] a.keys_seq()[j])
                && b.map()[a.keys_seq()[j]] == a.map()[a.keys_seq()[j]],
    {
        let k = a.key_at(i);
        let v = a.value_at(i);
        match b.get(k.as_str()) {
            Some(w) => {
                if *w != *v {
                    return false;
                }
            },
            None => {
                return false;
            },
        }
    }
    proof {
        assert(a.map().dom().subset_of(b.map().dom())) by {
            assert forall|k: Seq<char>| a.map().dom().contains(k) implies b.map().dom().contains(k) by {
                assert(a.keys_seq().contains(k));
                let j = choose|j: int| 0 <= j < a.keys_seq().len() && a.keys_seq()[j] == k;
            }
        }
        vstd::set_lib::lemma_subset_equality(a.map().dom(), b.map().dom());
        assert forall|k: Seq<char>| a.map().contains_key(k) implies a.map()[k] == b.map()[k] by {
            assert(a.keys_seq().contains(k));
            let j = choose|j: int| 0 <= j < a.keys_seq().len() && a.keys_seq()[j] == k;
        }
        assert(a.map() =~= b.map());
    }
    true
}

/// Whether two text-valued maps hold the same keys with the same texts.
pub fn equal_text_maps(a: &TextMap<String>, b: &TextMap<String>) -> (r: bool)
    requires
        a.wf(),
        b.wf(),
    ensures
        r == (text_values(a.map()) == text_values(b.map())),
{
    proof {
        a.lemma_len();
        b.lemma_len();
        a.lemma_keys_seq();
    }
    let n = a.len();
    if n != b.len() {
        proof {
            if text_values(a.map()) == text_values(b.map()) {
                assert(a.map().dom() =~= text_values(a.map()).dom());
                assert(b.map().dom() =~= text_values(b.map()).dom());
            }
        }
        return false;
    }
    for i in 0..n
        invariant
            n == a.count(),
            a.wf(),
            b.wf(),
            forall|j: int| 0 <= j < i ==> b.map().contains_key(#[trigger] a.keys_seq()[j])
                && b.map()[a.keys_seq()[j]]@ == a.map()[a.keys_seq()[j]]@,
    {
        let k = a.key_at(i);
        let v = a.value_at(i);
        match b.get(k.as_str()) {
            Some(w) => {
                if !crate::text::str_eq(w.as_str(), v.as_str()) {
                    proof {
                        assert(text_values(a.map())[a.keys_seq()[i as int]] != text_values(b.map())[a.keys_seq()[i as int]]);
                    }
                    return false;
                }
            },
            None => {
                proof {
                    assert(!text_values(b.map()).contains_key(a.keys_seq()[i as int]));
                }
                return false;
            },
        }
    }
    proof {
        assert(a.map().dom().subset_of(b.map().dom())) by {
            assert forall|k: Seq<char>| a.map().dom().contains(k) implies b.map().dom().contains(k) by {
                assert(a.keys_seq().contains(k));
                let j = choose|j: int| 0 <= j < a.keys_seq().len() && a.keys_seq()[j] == k;
            }
        }
        vstd::set_lib::lemma_subset_equality(a.map().dom(), b.map().dom());
        assert forall|k: Seq<char>| text_values(a.map()).contains_key(k) implies text_values(a.map())[k] == text_values(b.map())[k] by {
            assert(a.keys_seq().contains(k));
            let j = choose|j: int| 0 <= j < a.keys_seq().len() && a.keys_seq()[j] == k;
        }
        assert(text_values(a.map()) =~= text_values(b.map()));
    }
    true
}

} // verus!
