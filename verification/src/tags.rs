//! The tag set of a map element: string keys with string values.

use vstd::prelude::*;
use vstd::string::*;

verus! {

/// `str`'s `==` from the standard library: true exactly when both slices
/// hold the same characters. Trusted, since vstd gives `str` no equality.
#[verifier::external_body]
pub(crate) fn same_text(a: &str, b: &str) -> (same: bool)
    ensures
        same == (a@ == b@),
{
    a == b
}

/// The characters of each key and value, in order.
pub open spec fn pair_views(pairs: Seq<(String, String)>) -> Seq<(Seq<char>, Seq<char>)> {
    pairs.map_values(|p: (String, String)| (p.0@, p.1@))
}

/// The map that a list of key/value pairs denotes: a later pair replaces an
/// earlier one with the same key.
pub open spec fn tag_map(pairs: Seq<(Seq<char>, Seq<char>)>) -> Map<Seq<char>, Seq<char>>
    decreases pairs.len(),
{
    if pairs.len() == 0 {
        Map::empty()
    } else {
        tag_map(pairs.drop_last()).insert(pairs.last().0, pairs.last().1)
    }
}

/// The value under `key`, or the empty string where the key is absent.
pub open spec fn value_or_empty(tags: Map<Seq<char>, Seq<char>>, key: Seq<char>) -> Seq<char> {
    if tags.contains_key(key) {
        tags[key]
    } else {
        Seq::empty()
    }
}

/// A key that occurs at `i` and nowhere after `i` maps to the value at `i`.
pub proof fn lemma_tag_map_last_wins(pairs: Seq<(Seq<char>, Seq<char>)>, i: int, key: Seq<char>)
    requires
        0 <= i < pairs.len(),
        pairs[i].0 == key,
        forall|j: int| i < j < pairs.len() ==> pairs[j].0 != key,
    ensures
        tag_map(pairs).contains_key(key),
        tag_map(pairs)[key] == pairs[i].1,
    decreases pairs.len(),
{
    if i < pairs.len() - 1 {
        lemma_tag_map_last_wins(pairs.drop_last(), i, key);
    }
}

/// A key that occurs nowhere in the list is absent from the map.
pub proof fn lemma_tag_map_absent(pairs: Seq<(Seq<char>, Seq<char>)>, key: Seq<char>)
    requires
        forall|j: int| 0 <= j < pairs.len() ==> pairs[j].0 != key,
    ensures
        !tag_map(pairs).contains_key(key),
    decreases pairs.len(),
{
    if pairs.len() > 0 {
        lemma_tag_map_absent(pairs.drop_last(), key);
    }
}

/// The tags of one element.
#[derive(Clone, Debug)]
pub struct Tags {
    pairs: Vec<(String, String)>,
}

impl View for Tags {
    type V = Map<Seq<char>, Seq<char>>;

    closed spec fn view(&self) -> Map<Seq<char>, Seq<char>> {
        tag_map(pair_views(self.pairs@))
    }
}

impl Tags {
    /// An empty tag set.
    pub fn new() -> (tags: Tags)
        ensures
            tags@ == Map::<Seq<char>, Seq<char>>::empty(),
    {
        Tags { pairs: Vec::new() }
    }

    /// The tag set read off a list of pairs; of two pairs with one key the
    /// later counts.
    pub fn from_pairs(pairs: Vec<(String, String)>) -> (tags: Tags)
        ensures
            tags@ == tag_map(pair_views(pairs@)),
    {
        Tags { pairs }
    }

    /// Sets `key` to `value`, replacing any earlier value.
    pub fn insert(&mut self, key: String, value: String)
        ensures
            final(self)@ == old(self)@.insert(key@, value@),
    {
        self.pairs.push((key, value));
        proof {
            let before = pair_views(old(self).pairs@);
            let after = pair_views(self.pairs@);
            assert(after.drop_last() =~= before);
        }
    }

    /// The value stored under `key`, if any.
    pub fn get(&self, key: &str) -> (value: Option<&String>)
        ensures
            match value {
                Some(v) => self@.contains_key(key@) && self@[key@] == v@,
                None => !self@.contains_key(key@),
            },
    {
        let mut i: usize = self.pairs.len();
        while i > 0
            invariant
                i <= self.pairs.len(),
                forall|j: int| i <= j < self.pairs.len() ==> pair_views(self.pairs@)[j].0 != key@,
            decreases i,
        {
            i = i - 1;
            if same_text(self.pairs[i].0.as_str(), key) {
                proof {
                    lemma_tag_map_last_wins(pair_views(self.pairs@), i as int, key@);
                }
                return Some(&self.pairs[i].1);
            }
        }
        proof {
            lemma_tag_map_absent(pair_views(self.pairs@), key@);
        }
        None
    }

    /// Whether a value is stored under `key`.
    pub fn contains_key(&self, key: &str) -> (present: bool)
        ensures
            present == self@.contains_key(key@),
    {
        self.get(key).is_some()
    }

    /// A copy of the value under `key`, or the empty string.
    pub fn get_or_empty(&self, key: &str) -> (value: String)
        ensures
            value@ == value_or_empty(self@, key@),
    {
        match self.get(key) {
            Some(v) => v.clone(),
            None => String::new(),
        }
    }
}

} // verus!
