//! A proxy rule together with the redirects that lead to it.
use vstd::prelude::*;
use crate::label_map::pair_views;
use crate::queue::models::clone_strings;
use crate::text::views;

verus! {

/// Domains proxied to one upstream, and redirects from one domain to another.
#[derive(Debug)]
pub struct ProxyRule {
    pub id: String,
    pub domains: Vec<String>,
    pub upstream: String,
    pub redirects: Vec<(String, String)>,
}

pub struct ProxyRuleView {
    pub id: Seq<char>,
    pub domains: Seq<Seq<char>>,
    pub upstream: Seq<char>,
    pub redirects: Seq<(Seq<char>, Seq<char>)>,
}

impl View for ProxyRule {
    type V = ProxyRuleView;

    open spec fn view(&self) -> ProxyRuleView {
        ProxyRuleView {
            id: self.id@,
            domains: views(self.domains@),
            upstream: self.upstream@,
            redirects: pair_views(self.redirects@),
        }
    }
}

/// A copy of a list of string pairs.
pub fn clone_pairs(v: &Vec<(String, String)>) -> (r: Vec<(String, String)>)
    ensures
        pair_views(r@) == pair_views(v@),
{
    let mut r: Vec<(String, String)> = Vec::new();
    let mut i: usize = 0;
    while i < v.len()
        invariant
            i <= v.len(),
            pair_views(r@) == pair_views(v@).take(i as int),
        decreases v.len() - i,
    {
        let a = v[i].0.clone();
        let b = v[i].1.clone();
        let ghost r0 = r@;
        r.push((a, b));
        assert(pair_views(r@) =~= pair_views(r0).push((v@[i as int].0@, v@[i as int].1@)));
        assert(pair_views(v@).take(i + 1) =~= pair_views(v@).take(i as int).push(pair_views(v@)[i as int]));
        i = i + 1;
    }
    assert(pair_views(v@).take(v.len() as int) =~= pair_views(v@));
    r
}

impl Clone for ProxyRule {
    fn clone(&self) -> (r: Self)
        ensures
            r@ == self@,
    {
        ProxyRule {
            id: self.id.clone(),
            domains: clone_strings(&self.domains),
            upstream: self.upstream.clone(),
            redirects: clone_pairs(&self.redirects),
        }
    }
}

impl Default for ProxyRule {
    /// A rule with no identifier, domain, upstream or redirect.
    fn default() -> (r: Self)
        ensures
            r@.id.len() == 0,
            r@.domains.len() == 0,
            r@.upstream.len() == 0,
            r@.redirects.len() == 0,
    {
        let r = ProxyRule { id: String::new(), domains: Vec::new(), upstream: String::new(), redirects: Vec::new() };
        assert(views(r.domains@).len() == 0);
        assert(pair_views(r.redirects@).len() == 0);
        r
    }
}

} // verus!
