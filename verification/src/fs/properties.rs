//! Configuration properties: pairs of key and value, one per key, that are
//! handed to a backend verbatim.

use vstd::prelude::*;
use crate::text::str_eq;

verus! {

/// The map that results from `map` when the pairs of a list are inserted in
/// order, a later pair replacing an earlier one of the same key.
pub open spec fn insert_all(
    map: Map<Seq<char>, Seq<char>>,
    pairs: Seq<(String, String)>,
) -> Map<Seq<char>, Seq<char>>
    decreases pairs.len(),
{
    if pairs.len() == 0 {
        map
    } else {
        insert_all(map, pairs.drop_last()).insert(pairs.last().0@, pairs.last().1@)
    }
}

/// The map that a list of key/value pairs denotes.
pub open spec fn pairs_map(pairs: Seq<(String, String)>) -> Map<Seq<char>, Seq<char>> {
    insert_all(Map::empty(), pairs)
}

/// Whether no key occurs twice in a list of key/value pairs.
pub open spec fn keys_distinct(pairs: Seq<(String, String)>) -> bool {
    forall|i: int, j: int| 0 <= i < j < pairs.len() ==> pairs[i].0@ != pairs[j].0@
}

/// A key that no pair holds is not in the map.
pub proof fn lemma_pairs_map_absent(pairs: Seq<(String, String)>, key: Seq<char>)
    requires
        forall|i: int| 0 <= i < pairs.len() ==> pairs[i].0@ != key,
    ensures
        !pairs_map(pairs).contains_key(key),
    decreases pairs.len(),
{
    if pairs.len() > 0 {
        lemma_pairs_map_absent(pairs.drop_last(), key);
    }
}

/// The key of every pair is in the map.
pub proof fn lemma_pairs_map_has_key(pairs: Seq<(String, String)>, i: int)
    requires
        0 <= i < pairs.len(),
    ensures
        pairs_map(pairs).contains_key(pairs[i].0@),
    decreases pairs.len(),
{
    if i < pairs.len() - 1 {
        lemma_pairs_map_has_key(pairs.drop_last(), i);
    }
}

/// Where no key occurs twice, each pair's key maps to that pair's value.
pub proof fn lemma_pairs_map_at(pairs: Seq<(String, String)>, i: int)
    requires
        keys_distinct(pairs),
        0 <= i < pairs.len(),
    ensures
        pairs_map(pairs).contains_key(pairs[i].0@),
        pairs_map(pairs)[pairs[i].0@] == pairs[i].1@,
    decreases pairs.len(),
{
    if i < pairs.len() - 1 {
        lemma_pairs_map_at(pairs.drop_last(), i);
    }
}

/// Where no key occurs twice, replacing the pair of a key by another pair
/// of that key is an insertion into the map, and still no key occurs twice.
pub proof fn lemma_pairs_map_update(
    pairs: Seq<(String, String)>,
    i: int,
    pair: (String, String),
)
    requires
        keys_distinct(pairs),
        0 <= i < pairs.len(),
        pairs[i].0@ == pair.0@,
    ensures
        keys_distinct(pairs.update(i, pair)),
        pairs_map(pairs.update(i, pair)) == pairs_map(pairs).insert(pair.0@, pair.1@),
    decreases pairs.len(),
{
    let updated = pairs.update(i, pair);
    if i == pairs.len() - 1 {
        assert(updated.drop_last() == pairs.drop_last());
        assert(pairs_map(updated) == pairs_map(pairs).insert(pair.0@, pair.1@));
    } else {
        lemma_pairs_map_update(pairs.drop_last(), i, pair);
        assert(updated.drop_last() == pairs.drop_last().update(i, pair));
        assert(updated.last() == pairs.last());
        assert(pairs.last().0@ != pair.0@);
        assert(pairs_map(updated) == pairs_map(pairs).insert(pair.0@, pair.1@));
    }
}

/// Where no key occurs twice, the map has as many entries as the list.
pub proof fn lemma_pairs_map_len(pairs: Seq<(String, String)>)
    requires
        keys_distinct(pairs),
    ensures
        pairs_map(pairs).dom().finite(),
        pairs_map(pairs).len() == pairs.len(),
    decreases pairs.len(),
{
    if pairs.len() > 0 {
        lemma_pairs_map_len(pairs.drop_last());
        lemma_pairs_map_absent(pairs.drop_last(), pairs.last().0@);
    }
}

/// A finite map from key to value, kept as a list of pairs with one pair
/// per key, in the order in which the keys were first set.
#[derive(Debug)]
pub struct Properties {
    pairs: Vec<(String, String)>,
}

impl View for Properties {
    type V = Map<Seq<char>, Seq<char>>;

    closed spec fn view(&self) -> Map<Seq<char>, Seq<char>> {
        pairs_map(self.pairs@)
    }
}

impl Default for Properties {
    fn default() -> (r: Self)
        ensures
            r@ == Map::<Seq<char>, Seq<char>>::empty(),
    {
        Properties::new()
    }
}

impl Properties {
    #[verifier::type_invariant]
    spec fn well_formed(self) -> bool {
        keys_distinct(self.pairs@)
    }

    /// No properties.
    pub fn new() -> (r: Self)
        ensures
            r@ == Map::<Seq<char>, Seq<char>>::empty(),
    {
        Properties { pairs: Vec::new() }
    }

    /// Sets `key` to `value`, replacing an earlier value of the same key.
    pub fn insert(self, key: &str, value: &str) -> (r: Self)
        ensures
            r@ == self@.insert(key@, value@),
    {
        proof {
            use_type_invariant(&self);
        }
        let pair = (key.to_owned(), value.to_owned());
        let mut pairs = self.pairs;
        let ghost before = pairs@;
        let mut i: usize = 0;
        while i < pairs.len()
            invariant
                i <= pairs.len(),
                pairs@ == before,
                keys_distinct(before),
                before == self.pairs@,
                pair.0@ == key@,
                pair.1@ == value@,
                forall|j: int| 0 <= j < i ==> before[j].0@ != key@,
            decreases pairs.len() - i,
        {
            if str_eq(pairs[i].0.as_str(), key) {
                proof {
                    lemma_pairs_map_update(before, i as int, pair);
                }
                pairs.set(i, pair);
                return Properties { pairs };
            }
            i += 1;
        }
        pairs.push(pair);
        assert(pairs@.drop_last() == before);
        Properties { pairs }
    }

    /// Sets each pair of `pairs` in order, as `insert` does.
    pub fn insert_pairs(self, pairs: Vec<(String, String)>) -> (r: Self)
        ensures
            r@ == insert_all(self@, pairs@),
    {
        let mut properties = self;
        let mut i: usize = 0;
        while i < pairs.len()
            invariant
                i <= pairs.len(),
                properties@ == insert_all(self@, pairs@.take(i as int)),
            decreases pairs.len() - i,
        {
            assert(pairs@.take(i + 1).drop_last() == pairs@.take(i as int));
            properties = properties.insert(pairs[i].0.as_str(), pairs[i].1.as_str());
            i += 1;
        }
        assert(pairs@.take(i as int) == pairs@);
        properties
    }

    /// The value of `key`, if it is set.
    pub fn get(&self, key: &str) -> (r: Option<&str>)
        ensures
            match r {
                Some(value) => self@.contains_key(key@) && self@[key@] == value@,
                None => !self@.contains_key(key@),
            },
    {
        proof {
            use_type_invariant(self);
        }
        let mut i: usize = 0;
        while i < self.pairs.len()
            invariant
                i <= self.pairs.len(),
                keys_distinct(self.pairs@),
                forall|j: int| 0 <= j < i ==> self.pairs@[j].0@ != key@,
            decreases self.pairs.len() - i,
        {
            if str_eq(self.pairs[i].0.as_str(), key) {
                proof {
                    lemma_pairs_map_at(self.pairs@, i as int);
                }
                return Some(self.pairs[i].1.as_str());
            }
            i += 1;
        }
        proof {
            lemma_pairs_map_absent(self.pairs@, key@);
        }
        None
    }

    /// The number of keys that are set.
    pub fn len(&self) -> (r: usize)
        ensures
            self@.dom().finite(),
            r == self@.len(),
    {
        proof {
            use_type_invariant(self);
            lemma_pairs_map_len(self.pairs@);
        }
        self.pairs.len()
    }

    /// Whether no key is set.
    pub fn is_empty(&self) -> (r: bool)
        ensures
            r == (self@ == Map::<Seq<char>, Seq<char>>::empty()),
    {
        proof {
            use_type_invariant(self);
            if self.pairs@.len() > 0 {
                lemma_pairs_map_has_key(self.pairs@, 0);
            }
        }
        self.pairs.len() == 0
    }

    /// The properties as a list with one pair per key, in the order in
    /// which the keys were first set.
    pub fn pairs(&self) -> (r: &Vec<(String, String)>)
        ensures
            keys_distinct(r@),
            pairs_map(r@) == self@,
    {
        proof {
            use_type_invariant(self);
        }
        &self.pairs
    }
}

} // verus!
