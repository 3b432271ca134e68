//! A map from text to values, kept as a list of entries without a repeated key.

use vstd::prelude::*;

use crate::text::same_text;

verus! {

/// Some entry has the key `key`.
pub open spec fn has_key<V>(pairs: Seq<(Seq<char>, V)>, key: Seq<char>) -> bool {
    exists|i: int| 0 <= i < pairs.len() && (#[trigger] pairs[i]).0 == key
}

/// The position of an entry with the key `key`.
pub open spec fn position<V>(pairs: Seq<(Seq<char>, V)>, key: Seq<char>) -> int
    recommends
        has_key(pairs, key),
{
    choose|i: int| 0 <= i < pairs.len() && (#[trigger] pairs[i]).0 == key
}

/// No key has two entries.
pub open spec fn distinct_keys<V>(pairs: Seq<(Seq<char>, V)>) -> bool {
    forall|i: int, j: int|
        0 <= i < j < pairs.len() ==> (#[trigger] pairs[i]).0 != (#[trigger] pairs[j]).0
}

/// The entries after `key` has been given the value `value`: an entry that is there keeps its
/// place, a new one goes to the end.
pub open spec fn put<V>(pairs: Seq<(Seq<char>, V)>, key: Seq<char>, value: V) -> Seq<
    (Seq<char>, V),
> {
    if has_key(pairs, key) {
        pairs.update(position(pairs, key), (key, value))
    } else {
        pairs.push((key, value))
    }
}

/// The map that a list of entries stands for.
pub open spec fn map_of<V>(pairs: Seq<(Seq<char>, V)>) -> Map<Seq<char>, V>
    decreases pairs.len(),
{
    if pairs.len() == 0 {
        Map::empty()
    } else {
        map_of(pairs.drop_last()).insert(pairs.last().0, pairs.last().1)
    }
}

/// Every key of the map has an entry that holds its value, and every entry's key is in the map.
pub proof fn lemma_map_entries<V>(pairs: Seq<(Seq<char>, V)>)
    ensures
        forall|k: Seq<char>| #[trigger]
            map_of(pairs).contains_key(k) ==> exists|i: int|
                0 <= i < pairs.len() && #[trigger] pairs[i] == (k, map_of(pairs)[k]),
        forall|i: int|
            0 <= i < pairs.len() ==> map_of(pairs).contains_key((#[trigger] pairs[i]).0),
        map_of(pairs).dom().finite(),
    decreases pairs.len(),
{
    if pairs.len() > 0 {
        let front = pairs.drop_last();
        lemma_map_entries(front);
        assert forall|k: Seq<char>| #[trigger] map_of(pairs).contains_key(k) implies exists|i: int|
            0 <= i < pairs.len() && #[trigger] pairs[i] == (k, map_of(pairs)[k]) by {
            if k == pairs.last().0 {
                assert(pairs[pairs.len() - 1] == (k, map_of(pairs)[k]));
            } else {
                assert(map_of(front).contains_key(k));
                let i = choose|i: int|
                    0 <= i < front.len() && #[trigger] front[i] == (k, map_of(front)[k]);
                assert(pairs[i] == front[i]);
            }
        }
        assert forall|i: int| 0 <= i < pairs.len() implies map_of(pairs).contains_key(
            (#[trigger] pairs[i]).0,
        ) by {
            if i < pairs.len() - 1 {
                assert(front[i] == pairs[i]);
            }
        }
    }
}

/// Without a repeated key each entry is the one that the map shows, and the map has as many keys
/// as there are entries.
pub proof fn lemma_distinct_entries<V>(pairs: Seq<(Seq<char>, V)>)
    requires
        distinct_keys(pairs),
    ensures
        forall|i: int|
            0 <= i < pairs.len() ==> map_of(pairs)[(#[trigger] pairs[i]).0] == pairs[i].1,
        map_of(pairs).len() == pairs.len(),
    decreases pairs.len(),
{
    if pairs.len() > 0 {
        let front = pairs.drop_last();
        assert(forall|i: int| 0 <= i < front.len() ==> #[trigger] front[i] == pairs[i]);
        lemma_distinct_entries(front);
        lemma_map_entries(front);
        assert(!map_of(front).contains_key(pairs.last().0));
        assert forall|i: int| 0 <= i < pairs.len() implies map_of(pairs)[(
        #[trigger] pairs[i]).0] == pairs[i].1 by {
            if i < pairs.len() - 1 {
                assert(front[i] == pairs[i]);
                assert(pairs[i].0 != pairs[pairs.len() - 1].0);
            }
        }
    }
}

/// Giving a key a value in the entries gives it that value in the map.
pub proof fn lemma_put<V>(pairs: Seq<(Seq<char>, V)>, key: Seq<char>, value: V)
    requires
        distinct_keys(pairs),
    ensures
        distinct_keys(put(pairs, key, value)),
        map_of(put(pairs, key, value)) == map_of(pairs).insert(key, value),
{
    let new = put(pairs, key, value);
    if has_key(pairs, key) {
        let p = position(pairs, key);
        assert(pairs[p].0 == key);
        assert forall|i: int, j: int| 0 <= i < j < new.len() implies (#[trigger] new[i]).0 != (
        #[trigger] new[j]).0 by {
            assert(new[i].0 == pairs[i].0);
            assert(new[j].0 == pairs[j].0);
        }
        lemma_map_entries(pairs);
        lemma_map_entries(new);
        lemma_distinct_entries(pairs);
        lemma_distinct_entries(new);
        assert forall|k: Seq<char>| map_of(new).contains_key(k) == map_of(pairs).contains_key(k) by {
            if map_of(new).contains_key(k) {
                let i = choose|i: int|
                    0 <= i < new.len() && #[trigger] new[i] == (k, map_of(new)[k]);
                assert(pairs[i].0 == k);
            }
            if map_of(pairs).contains_key(k) {
                let i = choose|i: int|
                    0 <= i < pairs.len() && #[trigger] pairs[i] == (k, map_of(pairs)[k]);
                assert(new[i].0 == k);
            }
        }
        assert forall|k: Seq<char>| map_of(new).contains_key(k) implies map_of(new)[k] == map_of(
            pairs,
        ).insert(key, value)[k] by {
            let i = choose|i: int| 0 <= i < new.len() && #[trigger] new[i] == (k, map_of(new)[k]);
            if i == p {
                assert(new[p] == (key, value));
            } else {
                assert(new[i] == pairs[i]);
                assert(pairs[i].0 != pairs[p].0);
            }
        }
        assert(map_of(new) =~= map_of(pairs).insert(key, value));
    } else {
        assert(new.drop_last() =~= pairs);
        assert forall|i: int, j: int| 0 <= i < j < new.len() implies (#[trigger] new[i]).0 != (
        #[trigger] new[j]).0 by {
            assert(new[i] == pairs[i]);
            if j < pairs.len() {
                assert(new[j] == pairs[j]);
            }
        }
    }
}

/// Taking one entry out of the list takes its key out of the map.
pub proof fn lemma_remove<V>(pairs: Seq<(Seq<char>, V)>, at: int)
    requires
        distinct_keys(pairs),
        0 <= at < pairs.len(),
    ensures
        distinct_keys(pairs.remove(at)),
        map_of(pairs.remove(at)) == map_of(pairs).remove(pairs[at].0),
{
    let new = pairs.remove(at);
    assert forall|i: int| 0 <= i < new.len() implies #[trigger] new[i] == pairs[if i < at {
        i
    } else {
        i + 1
    }] by {}
    assert(distinct_keys(new));
    lemma_map_entries(pairs);
    lemma_map_entries(new);
    lemma_distinct_entries(pairs);
    lemma_distinct_entries(new);
    let key = pairs[at].0;
    assert forall|k: Seq<char>|
        map_of(new).contains_key(k) == map_of(pairs).remove(key).contains_key(k) by {
        if map_of(new).contains_key(k) {
            let i = choose|i: int| 0 <= i < new.len() && #[trigger] new[i] == (k, map_of(new)[k]);
            assert(map_of(pairs).contains_key(pairs[if i < at {
                i
            } else {
                i + 1
            }].0));
        }
        if map_of(pairs).remove(key).contains_key(k) {
            let i = choose|i: int|
                0 <= i < pairs.len() && #[trigger] pairs[i] == (k, map_of(pairs)[k]);
            assert(i != at);
            let j = if i < at {
                i
            } else {
                i - 1
            };
            assert(new[j] == pairs[i]);
        }
    }
    assert forall|k: Seq<char>| map_of(new).contains_key(k) implies map_of(new)[k] == map_of(
        pairs,
    ).remove(key)[k] by {
        let i = choose|i: int| 0 <= i < new.len() && #[trigger] new[i] == (k, map_of(new)[k]);
        let j = if i < at {
            i
        } else {
            i + 1
        };
        assert(new[i] == pairs[j]);
        assert(pairs[j].0 != key);
    }
    assert(map_of(new) =~= map_of(pairs).remove(key));
}

/// A map from text to values of type `V`.
pub struct StrMap<V> {
    entries: Vec<(String, V)>,
}

impl<V> View for StrMap<V> {
    type V = Map<Seq<char>, V>;

    open spec fn view(&self) -> Map<Seq<char>, V> {
        map_of(self.pairs())
    }
}

impl<V> StrMap<V> {
    /// The entries, in the order in which their keys came.
    pub closed spec fn pairs(&self) -> Seq<(Seq<char>, V)> {
        Seq::new(self.entries@.len(), |i: int| (self.entries@[i].0@, self.entries@[i].1))
    }

    #[verifier::type_invariant]
    spec fn well_formed(self) -> bool {
        distinct_keys(self.pairs())
    }

    /// A map without entries.
    pub fn new() -> (map: Self)
        ensures
            map.pairs() == Seq::<(Seq<char>, V)>::empty(),
            map@ == Map::<Seq<char>, V>::empty(),
    {
        StrMap { entries: Vec::new() }
    }

    /// The number of entries, which is the number of keys.
    pub fn len(&self) -> (n: usize)
        ensures
            n == self.pairs().len(),
            n == self@.len(),
            distinct_keys(self.pairs()),
    {
        proof {
            use_type_invariant(self);
            lemma_distinct_entries(self.pairs());
        }
        self.entries.len()
    }

    /// The entry at position `at`.
    pub fn entry(&self, at: usize) -> (entry: (&String, &V))
        requires
            at < self.pairs().len(),
        ensures
            (entry.0@, *entry.1) == self.pairs()[at as int],
            self@.contains_key(entry.0@),
            self@[entry.0@] == *entry.1,
    {
        proof {
            use_type_invariant(self);
            lemma_map_entries(self.pairs());
            lemma_distinct_entries(self.pairs());
            assert(self.pairs()[at as int].0 == self.entries@[at as int].0@);
        }
        (&self.entries[at].0, &self.entries[at].1)
    }

    fn find(&self, key: &str) -> (found: Option<usize>)
        ensures
            match found {
                Some(i) => i < self.pairs().len() && self.pairs()[i as int].0 == key@,
                None => !has_key(self.pairs(), key@),
            },
    {
        let mut i: usize = 0;
        while i < self.entries.len()
            invariant
                i <= self.entries.len(),
                forall|j: int| 0 <= j < i ==> (#[trigger] self.pairs()[j]).0 != key@,
            decreases self.entries.len() - i,
        {
            if same_text(self.entries[i].0.as_str(), key) {
                return Some(i);
            }
            i += 1;
        }
        None
    }

    /// The value of `key`, if it has one.
    pub fn get(&self, key: &str) -> (value: Option<&V>)
        ensures
            match value {
                Some(v) => self@.contains_key(key@) && *v == self@[key@],
                None => !self@.contains_key(key@),
            },
    {
        proof {
            use_type_invariant(self);
            lemma_map_entries(self.pairs());
            lemma_distinct_entries(self.pairs());
        }
        match self.find(key) {
            Some(i) => Some(&self.entries[i].1),
            None => None,
        }
    }

    /// Whether `key` has a value.
    pub fn contains_key(&self, key: &str) -> (found: bool)
        ensures
            found == self@.contains_key(key@),
    {
        self.get(key).is_some()
    }

    /// Gives `key` the value `value`, in place of the one that it has or as a new entry.
    pub fn insert(&mut self, key: String, value: V)
        ensures
            final(self).pairs() == put(old(self).pairs(), key@, value),
            final(self)@ == old(self)@.insert(key@, value),
    {
        proof {
            use_type_invariant(&*self);
            lemma_put(self.pairs(), key@, value);
        }
        let ghost before = self.pairs();
        let found = self.find(key.as_str());
        let mut entries: Vec<(String, V)> = Vec::new();
        std::mem::swap(&mut entries, &mut self.entries);
        let ghost pairs_of = |e: Seq<(String, V)>| Seq::new(e.len(), |i: int| (e[i].0@, e[i].1));
        match found {
            Some(i) => {
                proof {
                    assert(before[i as int].0 == key@);
                    assert(has_key(before, key@));
                    assert(before[position(before, key@)].0 == key@);
                    assert(position(before, key@) == i);
                }
                entries.set(i, (key, value));
            },
            None => {
                entries.push((key, value));
            },
        }
        assert(pairs_of(entries@) =~= put(before, key@, value));
        self.entries = entries;
    }

    /// Takes the entry at position `at` out, and gives its value.
    pub fn remove_at(&mut self, at: usize) -> (value: V)
        requires
            at < old(self).pairs().len(),
        ensures
            value == old(self).pairs()[at as int].1,
            final(self).pairs() == old(self).pairs().remove(at as int),
            final(self)@ == old(self)@.remove(old(self).pairs()[at as int].0),
    {
        proof {
            use_type_invariant(&*self);
            lemma_remove(self.pairs(), at as int);
        }
        let ghost before = self.pairs();
        let mut entries: Vec<(String, V)> = Vec::new();
        std::mem::swap(&mut entries, &mut self.entries);
        let ghost pairs_of = |e: Seq<(String, V)>| Seq::new(e.len(), |i: int| (e[i].0@, e[i].1));
        let removed = entries.remove(at);
        assert(pairs_of(entries@) =~= before.remove(at as int));
        self.entries = entries;
        removed.1
    }

    /// Takes `key` out, and gives the value that it had.
    pub fn remove(&mut self, key: &str) -> (value: Option<V>)
        ensures
            final(self)@ == old(self)@.remove(key@),
            match value {
                Some(v) => old(self)@.contains_key(key@) && v == old(self)@[key@],
                None => !old(self)@.contains_key(key@),
            },
    {
        proof {
            use_type_invariant(&*self);
            lemma_map_entries(self.pairs());
            lemma_distinct_entries(self.pairs());
        }
        match self.find(key) {
            Some(i) => Some(self.remove_at(i)),
            None => {
                assert(self@.remove(key@) =~= self@);
                None
            },
        }
    }
}

} // verus!
