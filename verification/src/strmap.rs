use vstd::prelude::*;

use crate::text::str_equal;

verus! {

/// The map that an ordered list of key/value pairs denotes: a later pair
/// overrides an earlier one with the same key.
pub open spec fn map_of_pairs<V>(pairs: Seq<(Seq<char>, V)>) -> Map<Seq<char>, V>
    decreases pairs.len(),
{
    if pairs.len() == 0 {
        Map::empty()
    } else {
        map_of_pairs(pairs.drop_last()).insert(pairs.last().0, pairs.last().1)
    }
}

/// No key occurs twice in `pairs`.
pub open spec fn keys_distinct<V>(pairs: Seq<(Seq<char>, V)>) -> bool {
    forall|i: int, j: int|
        #![trigger pairs[i], pairs[j]]
        0 <= i < pairs.len() && 0 <= j < pairs.len() && i != j ==> pairs[i].0 != pairs[j].0
}

/// A key occurs in the map of `pairs` exactly when some pair carries it.
pub proof fn lemma_map_of_pairs_contains<V>(pairs: Seq<(Seq<char>, V)>, k: Seq<char>)
    ensures
        map_of_pairs(pairs).contains_key(k) <==> exists|i: int|
            0 <= i < pairs.len() && #[trigger] pairs[i].0 == k,
    decreases pairs.len(),
{
    if pairs.len() > 0 {
        let rest = pairs.drop_last();
        lemma_map_of_pairs_contains(rest, k);
        if map_of_pairs(pairs).contains_key(k) {
            if k == pairs.last().0 {
                assert(pairs[pairs.len() - 1].0 == k);
            } else {
                let i = choose|i: int| 0 <= i < rest.len() && #[trigger] rest[i].0 == k;
                assert(pairs[i].0 == k);
            }
        }
        if exists|i: int| 0 <= i < pairs.len() && #[trigger] pairs[i].0 == k {
            let i = choose|i: int| 0 <= i < pairs.len() && #[trigger] pairs[i].0 == k;
            if i < pairs.len() - 1 {
                assert(rest[i].0 == k);
            }
        }
    }
}

/// With distinct keys, the map of `pairs` sends the key of each pair to its value.
pub proof fn lemma_map_of_pairs_index<V>(pairs: Seq<(Seq<char>, V)>, i: int)
    requires
        keys_distinct(pairs),
        0 <= i < pairs.len(),
    ensures
        map_of_pairs(pairs).contains_key(pairs[i].0),
        map_of_pairs(pairs)[pairs[i].0] == pairs[i].1,
    decreases pairs.len(),
{
    let rest = pairs.drop_last();
    if i < pairs.len() - 1 {
        assert(keys_distinct(rest)) by {
            assert forall|a: int, b: int|
                0 <= a < rest.len() && 0 <= b < rest.len() && a != b implies #[trigger] rest[a].0
                != #[trigger] rest[b].0 by {
                assert(rest[a] == pairs[a] && rest[b] == pairs[b]);
            }
        }
        lemma_map_of_pairs_index(rest, i);
        assert(rest[i] == pairs[i]);
        assert(pairs[i].0 != pairs[pairs.len() - 1].0);
    }
}

proof fn lemma_distinct_drop_last<V>(pairs: Seq<(Seq<char>, V)>)
    requires
        keys_distinct(pairs),
        pairs.len() > 0,
    ensures
        keys_distinct(pairs.drop_last()),
{
    let rest = pairs.drop_last();
    assert forall|a: int, b: int|
        0 <= a < rest.len() && 0 <= b < rest.len() && a != b implies #[trigger] rest[a].0
        != #[trigger] rest[b].0 by {
        assert(rest[a] == pairs[a] && rest[b] == pairs[b]);
    }
}

/// Replacing the value of a present key updates the denoted map at that key.
pub proof fn lemma_map_of_pairs_update<V>(pairs: Seq<(Seq<char>, V)>, i: int, v: V)
    requires
        keys_distinct(pairs),
        0 <= i < pairs.len(),
    ensures
        map_of_pairs(pairs.update(i, (pairs[i].0, v))) == map_of_pairs(pairs).insert(
            pairs[i].0,
            v,
        ),
    decreases pairs.len(),
{
    let k = pairs[i].0;
    let upd = pairs.update(i, (k, v));
    let rest = pairs.drop_last();
    if i == pairs.len() - 1 {
        assert(upd.drop_last() =~= rest);
        assert(map_of_pairs(upd) =~= map_of_pairs(pairs).insert(k, v));
    } else {
        lemma_distinct_drop_last(pairs);
        assert(rest[i] == pairs[i]);
        lemma_map_of_pairs_update(rest, i, v);
        assert(upd.drop_last() =~= rest.update(i, (k, v)));
        assert(upd.last() == pairs.last());
        assert(pairs.last().0 != k);
        assert(map_of_pairs(upd) =~= map_of_pairs(pairs).insert(k, v));
    }
}

/// Dropping the pair of a key removes that key from the denoted map.
pub proof fn lemma_map_of_pairs_remove<V>(pairs: Seq<(Seq<char>, V)>, i: int)
    requires
        keys_distinct(pairs),
        0 <= i < pairs.len(),
    ensures
        map_of_pairs(pairs.remove(i)) == map_of_pairs(pairs).remove(pairs[i].0),
    decreases pairs.len(),
{
    let k = pairs[i].0;
    let rem = pairs.remove(i);
    let rest = pairs.drop_last();
    lemma_distinct_drop_last(pairs);
    if i == pairs.len() - 1 {
        assert(rem =~= rest);
        lemma_map_of_pairs_contains(rest, k);
        assert(!map_of_pairs(rest).contains_key(k)) by {
            if map_of_pairs(rest).contains_key(k) {
                let j = choose|j: int| 0 <= j < rest.len() && #[trigger] rest[j].0 == k;
                assert(pairs[j].0 == k);
            }
        }
        assert(map_of_pairs(rem) =~= map_of_pairs(pairs).remove(k));
    } else {
        assert(rest[i] == pairs[i]);
        lemma_map_of_pairs_remove(rest, i);
        assert(rem.drop_last() =~= rest.remove(i));
        assert(rem.last() == pairs.last());
        assert(pairs.last().0 != k);
        assert(map_of_pairs(rem) =~= map_of_pairs(pairs).remove(k));
    }
}

/// With distinct keys the denoted map is finite and has one entry per pair.
pub proof fn lemma_map_of_pairs_len<V>(pairs: Seq<(Seq<char>, V)>)
    requires
        keys_distinct(pairs),
    ensures
        map_of_pairs(pairs).dom().finite(),
        map_of_pairs(pairs).dom().len() == pairs.len(),
    decreases pairs.len(),
{
    if pairs.len() > 0 {
        let rest = pairs.drop_last();
        lemma_distinct_drop_last(pairs);
        lemma_map_of_pairs_len(rest);
        lemma_map_of_pairs_contains(rest, pairs.last().0);
        assert(!map_of_pairs(rest).contains_key(pairs.last().0)) by {
            if map_of_pairs(rest).contains_key(pairs.last().0) {
                let j = choose|j: int| 0 <= j < rest.len() && #[trigger] rest[j].0 == pairs.last().0;
                assert(pairs[j].0 == pairs[pairs.len() - 1].0);
            }
        }
    }
}

/// A map from strings to values that keeps its entries in the order in which
/// their keys were first inserted. Keys are compared as character sequences.
#[derive(Debug)]
pub struct StrMap<V> {
    entries: Vec<(String, V)>,
}

impl<V> StrMap<V> {
    /// The entries, in insertion order, with keys taken by their characters.
    pub closed spec fn pairs(&self) -> Seq<(Seq<char>, V)> {
        self.entries@.map_values(|e: (String, V)| (e.0@, e.1))
    }

    #[verifier::type_invariant]
    closed spec fn inv(self) -> bool {
        keys_distinct(self.pairs())
    }

    /// The map that the entries denote.
    pub open spec fn view(&self) -> Map<Seq<char>, V> {
        map_of_pairs(self.pairs())
    }

    /// An empty map.
    pub fn new() -> (m: Self)
        ensures
            m.pairs() == Seq::<(Seq<char>, V)>::empty(),
            m@ == Map::<Seq<char>, V>::empty(),
    {
        let m = StrMap { entries: Vec::new() };
        assert(m.pairs() =~= Seq::<(Seq<char>, V)>::empty());
        m
    }

    /// The number of entries; calling it also makes known that every key
    /// occurs once among the entries, so that the entries and the map agree.
    pub fn len(&self) -> (n: usize)
        ensures
            n == self.pairs().len(),
            n == self@.dom().len(),
            self@.dom().finite(),
            keys_distinct(self.pairs()),
            forall|i: int|
                0 <= i < self.pairs().len() ==> #[trigger] self@.contains_key(self.pairs()[i].0)
                    && self@[self.pairs()[i].0] == self.pairs()[i].1,
            forall|k: Seq<char>|
                #[trigger] self@.contains_key(k) ==> exists|i: int|
                    0 <= i < self.pairs().len() && #[trigger] self.pairs()[i].0 == k,
    {
        proof {
            use_type_invariant(self);
            self.lemma_wf();
        }
        self.entries.len()
    }

    proof fn lemma_wf(&self)
        requires
            keys_distinct(self.pairs()),
        ensures
            self.view().dom().finite(),
            self.view().dom().len() == self.pairs().len(),
            forall|i: int|
                0 <= i < self.pairs().len() ==> #[trigger] self.view().contains_key(
                    self.pairs()[i].0,
                ) && self.view()[self.pairs()[i].0] == self.pairs()[i].1,
            forall|k: Seq<char>|
                #[trigger] self.view().contains_key(k) ==> exists|i: int|
                    0 <= i < self.pairs().len() && #[trigger] self.pairs()[i].0 == k,
    {
        lemma_map_of_pairs_len(self.pairs());
        assert forall|i: int| 0 <= i < self.pairs().len() implies #[trigger] self.view().contains_key(
            self.pairs()[i].0,
        ) && self.view()[self.pairs()[i].0] == self.pairs()[i].1 by {
            lemma_map_of_pairs_index(self.pairs(), i);
        }
        assert forall|k: Seq<char>| #[trigger] self.view().contains_key(k) implies exists|i: int|
            0 <= i < self.pairs().len() && #[trigger] self.pairs()[i].0 == k by {
            lemma_map_of_pairs_contains(self.pairs(), k);
        }
    }

    /// The key and value of the entry at position `i`.
    pub fn entry_at(&self, i: usize) -> (e: (&String, &V))
        requires
            i < self.pairs().len(),
        ensures
            e.0@ == self.pairs()[i as int].0,
            *e.1 == self.pairs()[i as int].1,
    {
        let e = &self.entries[i];
        (&e.0, &e.1)
    }

    /// The position of `key` among the entries, if it is present.
    fn position(&self, key: &str) -> (r: Option<usize>)
        ensures
            r matches Some(i) ==> i < self.pairs().len() && self.pairs()[i as int].0 == key@,
            r is None ==> forall|i: int|
                0 <= i < self.pairs().len() ==> #[trigger] self.pairs()[i].0 != key@,
    {
        let n = self.entries.len();
        let mut i: usize = 0;
        while i < n
            invariant
                n == self.pairs().len(),
                i <= n,
                forall|j: int| 0 <= j < i ==> #[trigger] self.pairs()[j].0 != key@,
            decreases n - i,
        {
            if str_equal(self.entries[i].0.as_str(), key) {
                return Some(i);
            }
            i = i + 1;
        }
        None
    }

    /// The value stored under `key`.
    pub fn get(&self, key: &str) -> (r: Option<&V>)
        ensures
            r is Some <==> self@.contains_key(key@),
            r matches Some(v) ==> *v == self@[key@],
    {
        proof {
            use_type_invariant(self);
            self.lemma_wf();
        }
        match self.position(key) {
            Some(i) => {
                assert(self.pairs()[i as int].1 == self.entries@[i as int].1);
                assert(self@.contains_key(self.pairs()[i as int].0));
                Some(&self.entries[i].1)
            },
            None => None,
        }
    }

    /// Whether `key` is present.
    pub fn contains_key(&self, key: &str) -> (r: bool)
        ensures
            r == self@.contains_key(key@),
    {
        proof {
            use_type_invariant(self);
            self.lemma_wf();
        }
        self.position(key).is_some()
    }

    /// Stores `value` under `key`: an entry that has the key keeps its place and
    /// takes the new value, otherwise the entry goes last.
    pub fn insert(&mut self, key: String, value: V)
        ensures
            final(self)@ == old(self)@.insert(key@, value),
            forall|i: int|
                0 <= i < old(self).pairs().len() && #[trigger] old(self).pairs()[i].0 == key@
                    ==> final(self).pairs() == old(self).pairs().update(i, (key@, value)),
            (forall|i: int|
                0 <= i < old(self).pairs().len() ==> #[trigger] old(self).pairs()[i].0 != key@)
                ==> final(self).pairs() == old(self).pairs().push((key@, value)),
    {
        proof {
            use_type_invariant(&*self);
        }
        let ghost old_pairs = self.pairs();
        let pos = self.position(key.as_str());
        let mut entries: Vec<(String, V)> = Vec::new();
        std::mem::swap(&mut entries, &mut self.entries);
        let ghost k = key@;
        match pos {
            Some(i) => {
                entries.set(i, (key, value));
                let ghost new_pairs = entries@.map_values(|e: (String, V)| (e.0@, e.1));
                proof {
                    assert(new_pairs =~= old_pairs.update(i as int, (k, value)));
                    lemma_map_of_pairs_update(old_pairs, i as int, value);
                    assert forall|a: int, b: int|
                        0 <= a < new_pairs.len() && 0 <= b < new_pairs.len() && a != b implies #[trigger] new_pairs[a].0
                        != #[trigger] new_pairs[b].0 by {
                        assert(old_pairs[a].0 == new_pairs[a].0);
                        assert(old_pairs[b].0 == new_pairs[b].0);
                    }
                    assert forall|j: int|
                        0 <= j < old_pairs.len() && #[trigger] old_pairs[j].0 == k implies new_pairs
                        == old_pairs.update(j, (k, value)) by {
                        if j != i {
                            assert(old_pairs[j].0 != old_pairs[i as int].0);
                        }
                    }
                }
                self.entries = entries;
            },
            None => {
                entries.push((key, value));
                let ghost new_pairs = entries@.map_values(|e: (String, V)| (e.0@, e.1));
                proof {
                    assert(new_pairs =~= old_pairs.push((k, value)));
                    assert(new_pairs.drop_last() =~= old_pairs);
                    assert forall|a: int, b: int|
                        0 <= a < new_pairs.len() && 0 <= b < new_pairs.len() && a != b implies #[trigger] new_pairs[a].0
                        != #[trigger] new_pairs[b].0 by {
                        if a < old_pairs.len() && b < old_pairs.len() {
                            assert(old_pairs[a] == new_pairs[a]);
                            assert(old_pairs[b] == new_pairs[b]);
                        } else if a < old_pairs.len() {
                            assert(old_pairs[a] == new_pairs[a]);
                        } else {
                            assert(old_pairs[b] == new_pairs[b]);
                        }
                    }
                }
                self.entries = entries;
            },
        }
    }

    /// Removes the entry at position `i`.
    pub fn remove_at(&mut self, i: usize)
        requires
            i < old(self).pairs().len(),
        ensures
            final(self).pairs() == old(self).pairs().remove(i as int),
            final(self)@ == old(self)@.remove(old(self).pairs()[i as int].0),
    {
        proof {
            use_type_invariant(&*self);
        }
        let ghost old_pairs = self.pairs();
        let mut entries: Vec<(String, V)> = Vec::new();
        std::mem::swap(&mut entries, &mut self.entries);
        entries.remove(i);
        let ghost new_pairs = entries@.map_values(|e: (String, V)| (e.0@, e.1));
        proof {
            assert(new_pairs =~= old_pairs.remove(i as int));
            lemma_map_of_pairs_remove(old_pairs, i as int);
            assert forall|a: int, b: int|
                0 <= a < new_pairs.len() && 0 <= b < new_pairs.len() && a != b implies #[trigger] new_pairs[a].0
                != #[trigger] new_pairs[b].0 by {
                let oa = if a < i { a } else { a + 1 };
                let ob = if b < i { b } else { b + 1 };
                assert(new_pairs[a] == old_pairs[oa]);
                assert(new_pairs[b] == old_pairs[ob]);
            }
        }
        self.entries = entries;
    }

    /// Replaces the value of the entry at position `i`, keeping its key and place.
    pub fn set_value_at(&mut self, i: usize, value: V)
        requires
            i < old(self).pairs().len(),
        ensures
            final(self).pairs() == old(self).pairs().update(
                i as int,
                (old(self).pairs()[i as int].0, value),
            ),
            final(self)@ == old(self)@.insert(old(self).pairs()[i as int].0, value),
    {
        proof {
            use_type_invariant(&*self);
        }
        let ghost old_pairs = self.pairs();
        let key = self.entries[i].0.clone();
        let mut entries: Vec<(String, V)> = Vec::new();
        std::mem::swap(&mut entries, &mut self.entries);
        entries.set(i, (key, value));
        let ghost new_pairs = entries@.map_values(|e: (String, V)| (e.0@, e.1));
        proof {
            assert(new_pairs =~= old_pairs.update(i as int, (old_pairs[i as int].0, value)));
            lemma_map_of_pairs_update(old_pairs, i as int, value);
            assert forall|a: int, b: int|
                0 <= a < new_pairs.len() && 0 <= b < new_pairs.len() && a != b implies #[trigger] new_pairs[a].0
                != #[trigger] new_pairs[b].0 by {
                assert(old_pairs[a].0 == new_pairs[a].0);
                assert(old_pairs[b].0 == new_pairs[b].0);
            }
        }
        self.entries = entries;
    }
}

impl Clone for StrMap<String> {
    /// A copy with the same entries in the same order.
    fn clone(&self) -> (r: Self)
        ensures
            r.pairs() == self.pairs(),
            r@ == self@,
    {
        proof {
            use_type_invariant(self);
        }
        let mut entries: Vec<(String, String)> = Vec::new();
        let n = self.entries.len();
        let mut i: usize = 0;
        while i < n
            invariant
                n == self.entries@.len(),
                i <= n,
                entries@.len() == i,
                forall|j: int| 0 <= j < i ==> #[trigger] entries@[j] == self.entries@[j],
            decreases n - i,
        {
            let e = &self.entries[i];
            entries.push((e.0.clone(), e.1.clone()));
            i = i + 1;
        }
        assert(entries@ =~= self.entries@);
        StrMap { entries }
    }
}

} // verus!
