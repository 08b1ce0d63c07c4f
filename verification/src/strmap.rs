use vstd::prelude::*;

use crate::json::str_eq;

verus! {

/// The finite map that a sequence of entries holds, a later entry for a
/// key overriding an earlier one.
pub open spec fn map_of<V>(s: Seq<(String, V)>) -> Map<Seq<char>, V>
    decreases s.len(),
{
    if s.len() == 0 {
        Map::empty()
    } else {
        map_of(s.drop_last()).insert(s.last().0@, s.last().1)
    }
}

proof fn lemma_map_of_last_wins<V>(s: Seq<(String, V)>, k: Seq<char>)
    ensures
        map_of(s).contains_key(k) <==> exists|j: int| 0 <= j < s.len() && s[j].0@ == k,
        forall|j: int|
            (0 <= j < s.len() && s[j].0@ == k && (forall|j2: int|
                j < j2 < s.len() ==> s[j2].0@ != k)) ==> map_of(s)[k] == s[j].1,
    decreases s.len(),
{
    if s.len() > 0 {
        lemma_map_of_last_wins(s.drop_last(), k);
        if map_of(s).contains_key(k) {
            if k == s.last().0@ {
                assert(s[s.len() - 1].0@ == k);
            } else {
                let j = choose|j: int| 0 <= j < s.drop_last().len() && s.drop_last()[j].0@ == k;
                assert(s[j].0@ == k);
            }
        }
        if exists|j: int| 0 <= j < s.len() && s[j].0@ == k {
            let j = choose|j: int| 0 <= j < s.len() && s[j].0@ == k;
            if j < s.len() - 1 {
                assert(s.drop_last()[j].0@ == k);
            }
            assert(map_of(s).contains_key(k));
        }
        assert forall|j: int|
            (0 <= j < s.len() && s[j].0@ == k && (forall|j2: int|
                j < j2 < s.len() ==> s[j2].0@ != k)) implies map_of(s)[k] == s[j].1 by {
            if j == s.len() - 1 {
                assert(map_of(s)[k] == s.last().1);
            } else {
                assert(s.last().0@ != k);
                assert(s.drop_last()[j] == s[j]);
            }
        }
    }
}

/// A string-keyed map of values, held as a list of entries; the newest
/// entry for a key is the one in force. Its abstract content is a
/// `Map` from character sequences to values.
pub struct StrMap<V> {
    entries: Vec<(String, V)>,
}

impl<V> View for StrMap<V> {
    type V = Map<Seq<char>, V>;

    closed spec fn view(&self) -> Map<Seq<char>, V> {
        map_of(self.entries@)
    }
}

impl<V> StrMap<V> {
    /// An empty map.
    pub fn new() -> (r: Self)
        ensures
            r@ == Map::<Seq<char>, V>::empty(),
    {
        StrMap { entries: Vec::new() }
    }

    /// Upserts `value` under `key`: the map afterwards holds `value`
    /// there and is unchanged elsewhere. The latest entry for a key wins.
    pub fn insert(&mut self, key: String, value: V)
        ensures
            final(self)@ == old(self)@.insert(key@, value),
    {
        let ghost prior = self.entries@;
        self.entries.push((key, value));
        proof {
            assert(self.entries@.drop_last() =~= prior);
        }
    }

    /// The value in force under `key`, if the key is bound.
    pub fn get(&self, key: &str) -> (r: Option<&V>)
        ensures
            match r {
                Option::Some(v) => self@.contains_key(key@) && *v == self@[key@],
                Option::None => !self@.contains_key(key@),
            },
    {
        proof {
            lemma_map_of_last_wins(self.entries@, key@);
        }
        let mut i = self.entries.len();
        while i > 0
            invariant
                i <= self.entries@.len(),
                forall|j: int| i <= j < self.entries@.len() ==> self.entries@[j].0@ != key@,
            decreases i,
        {
            i = i - 1;
            if str_eq(self.entries[i].0.as_str(), key) {
                proof {
                    lemma_map_of_last_wins(self.entries@, key@);
                    assert(self.entries@[i as int].0@ == key@);
                    assert(map_of(self.entries@).contains_key(key@));
                    assert(map_of(self.entries@)[key@] == self.entries@[i as int].1);
                }
                return Some(&self.entries[i].1);
            }
        }
        None
    }

    /// True when `key` is bound.
    pub fn contains_key(&self, key: &str) -> (r: bool)
        ensures
            r == self@.contains_key(key@),
    {
        self.get(key).is_some()
    }
}

} // verus!
