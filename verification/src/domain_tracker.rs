//! The domains whose configuration is currently in use.
use vstd::prelude::*;
use crate::label_map::{lemma_pairs_map_dom, pair_views, pairs_map};
use crate::nginx::domain::{domain_filename, domain_to_filename};
use crate::nginx::manager::{law_cleanup_spares_active, orphaned, orphaned_configs};
use crate::text::{str_eq, views};

verus! {

pub open spec fn keys_distinct(s: Seq<(Seq<char>, Seq<char>)>) -> bool {
    forall|i: int, j: int| 0 <= i < s.len() && 0 <= j < s.len() && i != j ==> s[i].0 != s[j].0
}

proof fn lemma_pairs_map_value(s: Seq<(Seq<char>, Seq<char>)>, i: int)
    requires
        keys_distinct(s),
        0 <= i < s.len(),
    ensures
        pairs_map(s).contains_key(s[i].0),
        pairs_map(s)[s[i].0] == s[i].1,
    decreases s.len(),
{
    if i < s.len() - 1 {
        assert(s.drop_last()[i] == s[i]);
        assert(keys_distinct(s.drop_last()));
        lemma_pairs_map_value(s.drop_last(), i);
        assert(s.last().0 != s[i].0);
    }
}

/// The domains whose configuration is in use, keyed by the name of their
/// configuration file.
pub struct DomainTracker {
    domains: Vec<(String, String)>,
}

impl View for DomainTracker {
    type V = Map<Seq<char>, Seq<char>>;

    closed spec fn view(&self) -> Map<Seq<char>, Seq<char>> {
        pairs_map(pair_views(self.domains@))
    }
}

impl DomainTracker {
    #[verifier::type_invariant]
    closed spec fn inv(self) -> bool {
        keys_distinct(pair_views(self.domains@))
    }

    /// A tracker with no domain.
    pub fn new() -> (r: Self)
        ensures
            r@ == Map::<Seq<char>, Seq<char>>::empty(),
    {
        let r = DomainTracker { domains: Vec::new() };
        assert(pair_views(r.domains@) =~= Seq::empty());
        r
    }

    fn index_of(&self, filename: &str) -> (r: Option<usize>)
        ensures
            r is None ==> forall|i: int| 0 <= i < self.domains@.len() ==> self.domains@[i].0@ != filename@,
            r is Some ==> r->0 < self.domains@.len() && self.domains@[r->0 as int].0@ == filename@,
    {
        let mut i: usize = 0;
        while i < self.domains.len()
            invariant
                i <= self.domains.len(),
                forall|k: int| 0 <= k < i ==> self.domains@[k].0@ != filename@,
            decreases self.domains.len() - i,
        {
            if str_eq(self.domains[i].0.as_str(), filename) {
                return Some(i);
            }
            i = i + 1;
        }
        None
    }

    /// Marks a domain active under the name of its configuration file.
    pub fn add_domain(&mut self, original_domain: String)
        ensures
            final(self)@ == old(self)@.insert(domain_filename(original_domain@), original_domain@),
    {
        proof { use_type_invariant(&*self); }
        let filename = domain_to_filename(original_domain.as_str());
        let ghost s = pair_views(self.domains@);
        let ghost k = filename@;
        match self.index_of(filename.as_str()) {
            Some(i) => {
                let mut domains: Vec<(String, String)> = Vec::new();
                std::mem::swap(&mut domains, &mut self.domains);
                domains.set(i, (filename, original_domain));
                let ghost s2 = pair_views(domains@);
                assert(s2 =~= s.update(i as int, (k, original_domain@)));
                assert(s[i as int].0 == k);
                assert(forall|j: int| 0 <= j < s.len() ==> #[trigger] s2[j].0 == s[j].0);
                assert(keys_distinct(s2));
                assert(pairs_map(s2) =~= pairs_map(s).insert(k, original_domain@)) by {
                    assert forall|key: Seq<char>| #[trigger] pairs_map(s2).contains_key(key)
                        == pairs_map(s).insert(k, original_domain@).contains_key(key) by {
                        lemma_pairs_map_dom(s2, key);
                        lemma_pairs_map_dom(s, key);
                        if exists|j: int| 0 <= j < s.len() && s[j].0 == key {
                            let j = choose|j: int| 0 <= j < s.len() && s[j].0 == key;
                            if j != i { assert(s2[j].0 == key); }
                        }
                        if exists|j: int| 0 <= j < s2.len() && s2[j].0 == key {
                            let j = choose|j: int| 0 <= j < s2.len() && s2[j].0 == key;
                            if j != i { assert(s[j].0 == key); }
                        }
                        assert(s2[i as int].0 == k);
                    }
                    assert forall|key: Seq<char>| #[trigger] pairs_map(s2).contains_key(key)
                        implies pairs_map(s2)[key] == pairs_map(s).insert(k, original_domain@)[key] by {
                        lemma_pairs_map_dom(s2, key);
                        let j = choose|j: int| 0 <= j < s2.len() && s2[j].0 == key;
                        lemma_pairs_map_value(s2, j);
                        if j != i {
                            lemma_pairs_map_value(s, j);
                        }
                    }
                }
                self.domains = domains;
            },
            None => {
                let mut domains: Vec<(String, String)> = Vec::new();
                std::mem::swap(&mut domains, &mut self.domains);
                domains.push((filename, original_domain));
                let ghost s2 = pair_views(domains@);
                assert(s2.drop_last() =~= s);
                assert(forall|j: int| 0 <= j < s.len() ==> #[trigger] s[j].0 != k);
                assert(forall|j: int| 0 <= j < s.len() ==> #[trigger] s2[j] == s[j]);
                assert(keys_distinct(s2));
                self.domains = domains;
            },
        }
    }

    /// Marks a domain inactive.
    pub fn remove_domain(&mut self, original_domain: &str)
        ensures
            final(self)@ == old(self)@.remove(domain_filename(original_domain@)),
    {
        proof { use_type_invariant(&*self); }
        let filename = domain_to_filename(original_domain);
        let ghost s = pair_views(self.domains@);
        let ghost k = filename@;
        match self.index_of(filename.as_str()) {
            Some(i) => {
                let mut domains: Vec<(String, String)> = Vec::new();
                std::mem::swap(&mut domains, &mut self.domains);
                let _ = domains.remove(i);
                let ghost s2 = pair_views(domains@);
                assert(s2 =~= s.remove(i as int));
                assert(s[i as int].0 == k);
                assert(forall|j: int| 0 <= j < s2.len() ==> #[trigger] s2[j] == if j < i { s[j] } else { s[j + 1] });
                assert(keys_distinct(s2));
                assert(pairs_map(s2) =~= pairs_map(s).remove(k)) by {
                    assert forall|key: Seq<char>| #[trigger] pairs_map(s2).contains_key(key)
                        == pairs_map(s).remove(k).contains_key(key) by {
                        lemma_pairs_map_dom(s2, key);
                        lemma_pairs_map_dom(s, key);
                        if exists|j: int| 0 <= j < s.len() && s[j].0 == key {
                            let j = choose|j: int| 0 <= j < s.len() && s[j].0 == key;
                            if j < i { assert(s2[j].0 == key); }
                            if j > i { assert(s2[j - 1].0 == key); }
                        }
                        if exists|j: int| 0 <= j < s2.len() && s2[j].0 == key {
                            let j = choose|j: int| 0 <= j < s2.len() && s2[j].0 == key;
                            if j < i { assert(s[j].0 == key); } else { assert(s[j + 1].0 == key); }
                            assert(key != k);
                        }
                    }
                    assert forall|key: Seq<char>| #[trigger] pairs_map(s2).contains_key(key)
                        implies pairs_map(s2)[key] == pairs_map(s).remove(k)[key] by {
                        lemma_pairs_map_dom(s2, key);
                        let j = choose|j: int| 0 <= j < s2.len() && s2[j].0 == key;
                        lemma_pairs_map_value(s2, j);
                        if j < i { lemma_pairs_map_value(s, j); } else { lemma_pairs_map_value(s, j + 1); }
                    }
                }
                self.domains = domains;
            },
            None => {
                assert(!pairs_map(s).contains_key(k)) by {
                    lemma_pairs_map_dom(s, k);
                }
                assert(pairs_map(s).remove(k) =~= pairs_map(s));
            },
        }
    }

    /// The configuration file names of all active domains, each once.
    pub fn get_active_filenames(&self) -> (r: Vec<String>)
        ensures
            views(r@).to_set() == self@.dom(),
            views(r@).no_duplicates(),
    {
        proof { use_type_invariant(self); }
        let ghost s = pair_views(self.domains@);
        let mut r: Vec<String> = Vec::new();
        let mut i: usize = 0;
        while i < self.domains.len()
            invariant
                i <= self.domains.len(),
                s == pair_views(self.domains@),
                keys_distinct(s),
                views(r@) == s.take(i as int).map_values(|p: (Seq<char>, Seq<char>)| p.0),
            decreases self.domains.len() - i,
        {
            let ghost r0 = r@;
            r.push(self.domains[i].0.clone());
            assert(views(r@) =~= views(r0).push(s[i as int].0));
            assert(s.take(i + 1).map_values(|p: (Seq<char>, Seq<char>)| p.0) =~= s.take(i as int).map_values(
                |p: (Seq<char>, Seq<char>)| p.0,
            ).push(s[i as int].0));
            i = i + 1;
        }
        assert(s.take(s.len() as int) =~= s);
        assert(views(r@).to_set() =~= pairs_map(s).dom()) by {
            assert forall|key: Seq<char>| views(r@).to_set().contains(key) == pairs_map(s).dom().contains(key) by {
                lemma_pairs_map_dom(s, key);
                if views(r@).contains(key) {
                    let j = choose|j: int| 0 <= j < views(r@).len() && views(r@)[j] == key;
                    assert(s[j].0 == key);
                }
                if exists|j: int| 0 <= j < s.len() && s[j].0 == key {
                    let j = choose|j: int| 0 <= j < s.len() && s[j].0 == key;
                    assert(views(r@)[j] == key);
                }
            }
        }
        r
    }

    /// Of the files found in the configuration directory, those of no active domain.
    pub fn cleanup_orphaned_configs(&self, existing: &Vec<String>) -> (r: Vec<String>)
        ensures
            views(r@) == orphaned(views(existing@), self@.dom()),
    {
        let active = self.get_active_filenames();
        orphaned_configs(existing, &active)
    }
}

/// Adding a domain makes its configuration file active, with the domain recorded
/// under it; removing it again leaves every other domain as it was.
pub proof fn law_add_then_remove(tracked_domains: Map<Seq<char>, Seq<char>>, domain: Seq<char>)
    ensures
        tracked_domains.insert(domain_filename(domain), domain).contains_key(domain_filename(domain)),
        tracked_domains.insert(domain_filename(domain), domain)[domain_filename(domain)] == domain,
        tracked_domains.insert(domain_filename(domain), domain).remove(domain_filename(domain))
            == tracked_domains.remove(domain_filename(domain)),
{
    assert(tracked_domains.insert(domain_filename(domain), domain).remove(domain_filename(domain))
        =~= tracked_domains.remove(domain_filename(domain)));
}

/// The configuration file of a tracked domain is never removed by a cleanup.
pub proof fn law_tracked_domain_survives_cleanup(
    tracked_domains: Map<Seq<char>, Seq<char>>,
    domain: Seq<char>,
    existing: Seq<Seq<char>>,
)
    requires
        tracked_domains.contains_key(domain_filename(domain)),
    ensures
        !orphaned(existing, tracked_domains.dom()).contains(domain_filename(domain)),
{
    law_cleanup_spares_active(existing, tracked_domains.dom());
    if orphaned(existing, tracked_domains.dom()).contains(domain_filename(domain)) {
        let i = choose|i: int| 0 <= i < orphaned(existing, tracked_domains.dom()).len()
            && orphaned(existing, tracked_domains.dom())[i] == domain_filename(domain);
        assert(!tracked_domains.dom().contains(orphaned(existing, tracked_domains.dom())[i]));
    }
}

/// A call that changes a tracker: `add_domain` or `remove_domain` of a domain.
pub enum TrackerCall {
    Add(Seq<char>),
    Remove(Seq<char>),
}

/// The configuration file a call is about.
pub open spec fn call_file(c: TrackerCall) -> Seq<char> {
    match c {
        TrackerCall::Add(d) => domain_filename(d),
        TrackerCall::Remove(d) => domain_filename(d),
    }
}

/// What a tracker holds after the calls `calls`, made in order on one holding `m`,
/// as the contracts of `add_domain` and `remove_domain` say.
pub open spec fn after_calls(m: Map<Seq<char>, Seq<char>>, calls: Seq<TrackerCall>) -> Map<Seq<char>, Seq<char>>
    decreases calls.len(),
{
    if calls.len() == 0 {
        m
    } else {
        let prev = after_calls(m, calls.drop_last());
        match calls.last() {
            TrackerCall::Add(d) => prev.insert(domain_filename(d), d),
            TrackerCall::Remove(d) => prev.remove(domain_filename(d)),
        }
    }
}

/// Whether call `i` adds the file `f` and no later call removes it.
pub open spec fn added_and_kept(calls: Seq<TrackerCall>, i: int, f: Seq<char>) -> bool {
    &&& 0 <= i < calls.len()
    &&& calls[i] is Add
    &&& call_file(calls[i]) == f
    &&& forall|j: int| i < j < calls.len() ==> !(#[trigger] calls[j] is Remove && call_file(calls[j]) == f)
}

/// Starting from a new tracker, a file is active after a series of calls exactly
/// when some call added a domain with that file and no later call removed a domain
/// with that file.
pub proof fn law_active_files_follow_calls(calls: Seq<TrackerCall>, f: Seq<char>)
    ensures
        after_calls(Map::empty(), calls).contains_key(f) <==> exists|i: int| added_and_kept(calls, i, f),
    decreases calls.len(),
{
    if calls.len() > 0 {
        let prev = calls.drop_last();
        let n = calls.len() - 1;
        law_active_files_follow_calls(prev, f);
        assert forall|i: int| 0 <= i < n implies (added_and_kept(calls, i, f) <==> added_and_kept(prev, i, f)
            && !(calls[n] is Remove && call_file(calls[n]) == f)) by {
            assert(calls[i] == prev[i]);
            assert forall|j: int| i < j < prev.len() implies #[trigger] prev[j] == calls[j] by {}
            if added_and_kept(prev, i, f) && !(calls[n] is Remove && call_file(calls[n]) == f) {
                assert forall|j: int| i < j < calls.len() implies !(#[trigger] calls[j] is Remove && call_file(calls[j]) == f) by {
                    if j < n {
                        assert(prev[j] == calls[j]);
                    }
                }
            }
            if added_and_kept(calls, i, f) {
                assert forall|j: int| i < j < prev.len() implies !(#[trigger] prev[j] is Remove && call_file(prev[j]) == f) by {
                    assert(prev[j] == calls[j]);
                }
                let jn = n;
                assert(!(calls[jn] is Remove && call_file(calls[jn]) == f));
            }
        }
        if after_calls(Map::empty(), calls).contains_key(f) {
            match calls.last() {
                TrackerCall::Add(d) => {
                    if domain_filename(d) == f {
                        assert(added_and_kept(calls, n, f));
                    } else {
                        let i = choose|i: int| added_and_kept(prev, i, f);
                        assert(added_and_kept(calls, i, f));
                    }
                },
                TrackerCall::Remove(d) => {
                    let i = choose|i: int| added_and_kept(prev, i, f);
                    assert(added_and_kept(calls, i, f));
                },
            }
        }
        if exists|i: int| added_and_kept(calls, i, f) {
            let i = choose|i: int| added_and_kept(calls, i, f);
            if i < n {
                assert(added_and_kept(prev, i, f));
            }
        }
    }
}

} // verus!
