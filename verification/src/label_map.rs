//! String-to-string maps: container labels and environment settings.
use vstd::prelude::*;
use crate::text::{str_eq, views};

verus! {

/// The map that a sequence of key/value pairs describes; a later pair overrides an
/// earlier one with the same key.
pub open spec fn pairs_map(s: Seq<(Seq<char>, Seq<char>)>) -> Map<Seq<char>, Seq<char>>
    decreases s.len(),
{
    if s.len() == 0 {
        Map::empty()
    } else {
        pairs_map(s.drop_last()).insert(s.last().0, s.last().1)
    }
}

pub open spec fn pair_views(s: Seq<(String, String)>) -> Seq<(Seq<char>, Seq<char>)> {
    s.map_values(|p: (String, String)| (p.0@, p.1@))
}

/// A key has a value exactly when some pair carries it.
pub proof fn lemma_pairs_map_dom(s: Seq<(Seq<char>, Seq<char>)>, k: Seq<char>)
    ensures
        pairs_map(s).contains_key(k) <==> exists|i: int| 0 <= i < s.len() && s[i].0 == k,
    decreases s.len(),
{
    if s.len() > 0 {
        lemma_pairs_map_dom(s.drop_last(), k);
        if pairs_map(s.drop_last()).contains_key(k) {
            let i = choose|i: int| 0 <= i < s.drop_last().len() && s.drop_last()[i].0 == k;
            assert(s[i].0 == k);
        }
        if exists|i: int| 0 <= i < s.len() && s[i].0 == k {
            let i = choose|i: int| 0 <= i < s.len() && s[i].0 == k;
            if i < s.len() - 1 {
                assert(s.drop_last()[i].0 == k);
            }
        }
    }
}

/// A map from strings to strings, such as the labels of a container or the
/// process environment.
pub struct LabelMap {
    entries: Vec<(String, String)>,
}

impl View for LabelMap {
    type V = Map<Seq<char>, Seq<char>>;

    closed spec fn view(&self) -> Map<Seq<char>, Seq<char>> {
        pairs_map(pair_views(self.entries@))
    }
}

impl LabelMap {
    /// An empty map.
    pub fn new() -> (m: LabelMap)
        ensures
            m@ == Map::<Seq<char>, Seq<char>>::empty(),
    {
        let m = LabelMap { entries: Vec::new() };
        assert(pair_views(m.entries@) =~= Seq::empty());
        m
    }

    /// Sets `key` to `value`.
    pub fn insert(&mut self, key: String, value: String)
        ensures
            final(self)@ == old(self)@.insert(key@, value@),
    {
        let ghost old_entries = self.entries@;
        self.entries.push((key, value));
        assert(pair_views(self.entries@).drop_last() =~= pair_views(old_entries));
    }

    /// Whether `key` has a value.
    pub fn contains_key(&self, key: &str) -> (r: bool)
        ensures
            r == self@.contains_key(key@),
    {
        self.get(key).is_some()
    }

    /// The value of `key`, if it has one.
    pub fn get(&self, key: &str) -> (r: Option<String>)
        ensures
            r is Some <==> self@.contains_key(key@),
            r is Some ==> r->0@ == self@[key@],
    {
        let ghost s = pair_views(self.entries@);
        let mut i = self.entries.len();
        assert(s.take(i as int) =~= s);
        while i > 0
            invariant
                i <= self.entries.len(),
                s == pair_views(self.entries@),
                pairs_map(s).contains_key(key@) == pairs_map(s.take(i as int)).contains_key(key@),
                pairs_map(s).contains_key(key@) ==> pairs_map(s)[key@] == pairs_map(
                    s.take(i as int),
                )[key@],
            decreases i,
        {
            assert(s.take(i as int).drop_last() =~= s.take(i - 1));
            if str_eq(self.entries[i - 1].0.as_str(), key) {
                return Some(self.entries[i - 1].1.clone());
            }
            i = i - 1;
        }
        None
    }

    /// The keys that have a value.
    pub fn keys(&self) -> (r: Vec<String>)
        ensures
            forall|k: Seq<char>| self@.contains_key(k) <==> views(r@).contains(k),
    {
        let ghost s = pair_views(self.entries@);
        let mut r: Vec<String> = Vec::new();
        let mut i: usize = 0;
        while i < self.entries.len()
            invariant
                i <= self.entries.len(),
                s == pair_views(self.entries@),
                views(r@).len() == i,
                forall|j: int| 0 <= j < i ==> #[trigger] views(r@)[j] == s[j].0,
            decreases self.entries.len() - i,
        {
            let ghost r0 = r@;
            r.push(self.entries[i].0.clone());
            assert(views(r@) =~= views(r0).push(s[i as int].0));
            i = i + 1;
        }
        assert forall|k: Seq<char>| self@.contains_key(k) <==> views(r@).contains(k) by {
            lemma_pairs_map_dom(s, k);
            if views(r@).contains(k) {
                let j = choose|j: int| 0 <= j < views(r@).len() && views(r@)[j] == k;
                assert(s[j].0 == k);
            }
            if self@.contains_key(k) {
                let j = choose|j: int| 0 <= j < s.len() && s[j].0 == k;
                assert(views(r@)[j] == k);
            }
        }
        r
    }
}

} // verus!
