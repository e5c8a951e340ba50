//! A single nginx configuration holding one server per proxy rule, where no two
//! rules share a domain.
use vstd::prelude::*;
use crate::nginx::error::NginxError;
use crate::queue::models::clone_strings;
use crate::text::{join_seq, join_strings, push_str, str_eq, to_owned_string, views};

verus! {

/// A rule that proxies a set of domains to one upstream.
#[derive(Debug)]
pub struct ProxyRule {
    pub id: String,
    pub domains: Vec<String>,
    pub upstream: String,
}

pub struct ProxyRuleView {
    pub id: Seq<char>,
    pub domains: Seq<Seq<char>>,
    pub upstream: Seq<char>,
}

impl View for ProxyRule {
    type V = ProxyRuleView;

    open spec fn view(&self) -> ProxyRuleView {
        ProxyRuleView { id: self.id@, domains: views(self.domains@), upstream: self.upstream@ }
    }
}

impl Clone for ProxyRule {
    fn clone(&self) -> (r: Self)
        ensures
            r@ == self@,
    {
        ProxyRule { id: self.id.clone(), domains: clone_strings(&self.domains), upstream: self.upstream.clone() }
    }
}

pub open spec fn rule_views(rules: Seq<ProxyRule>) -> Seq<ProxyRuleView> {
    rules.map_values(|r: ProxyRule| r@)
}

/// Whether `rule` serves one of `domains`.
pub open spec fn overlaps(rule: ProxyRuleView, domains: Seq<Seq<char>>) -> bool {
    exists|i: int| 0 <= i < rule.domains.len() && domains.contains(#[trigger] rule.domains[i])
}

/// The rules, in order, that `keep` accepts.
pub open spec fn keep_rules(rules: Seq<ProxyRuleView>, keep: spec_fn(ProxyRuleView) -> bool) -> Seq<ProxyRuleView>
    decreases rules.len(),
{
    if rules.len() == 0 {
        Seq::empty()
    } else {
        let prev = keep_rules(rules.drop_last(), keep);
        if keep(rules.last()) { prev.push(rules.last()) } else { prev }
    }
}

/// The rules, in order, that serve none of `domains`.
pub open spec fn without_overlap(rules: Seq<ProxyRuleView>, domains: Seq<Seq<char>>) -> Seq<ProxyRuleView> {
    keep_rules(rules, serves_none_of(domains))
}

pub open spec fn serves_none_of(domains: Seq<Seq<char>>) -> spec_fn(ProxyRuleView) -> bool {
    |r: ProxyRuleView| !overlaps(r, domains)
}

pub open spec fn id_is_not(id: Seq<char>) -> spec_fn(ProxyRuleView) -> bool {
    |r: ProxyRuleView| r.id != id
}

pub open spec fn does_not_serve(domain: Seq<char>) -> spec_fn(ProxyRuleView) -> bool {
    |r: ProxyRuleView| !r.domains.contains(domain)
}

/// The rules, in order, whose id is not `id`.
pub open spec fn without_id(rules: Seq<ProxyRuleView>, id: Seq<char>) -> Seq<ProxyRuleView> {
    keep_rules(rules, id_is_not(id))
}

/// The rules, in order, that do not serve `domain`.
pub open spec fn without_domain(rules: Seq<ProxyRuleView>, domain: Seq<char>) -> Seq<ProxyRuleView> {
    keep_rules(rules, does_not_serve(domain))
}

/// No two rules serve a common domain.
pub open spec fn domains_apart(rules: Seq<ProxyRuleView>) -> bool {
    forall|i: int, j: int| 0 <= i < rules.len() && 0 <= j < rules.len() && i != j
        ==> !overlaps(#[trigger] rules[i], #[trigger] rules[j].domains)
}

/// The server of one rule.
pub open spec fn rule_server_text(rule: ProxyRuleView) -> Seq<char> {
    "    server {\n            listen 80;\n            server_name "@ + join_seq(rule.domains, " "@) + ";\n        \n            location / {\n                proxy_pass "@ + rule.upstream + ";\n                proxy_set_header Host $host;\n                proxy_set_header X-Real-IP $remote_addr;\n                proxy_set_header X-Forwarded-For $proxy_add_x_forwarded_for;\n                proxy_set_header X-Forwarded-Proto $scheme;\n            }\n        }\n        "@
}

pub open spec fn rule_servers_text(rules: Seq<ProxyRuleView>) -> Seq<char>
    decreases rules.len(),
{
    if rules.len() == 0 {
        Seq::empty()
    } else {
        rule_servers_text(rules.drop_last()) + rule_server_text(rules.last())
    }
}

/// The whole configuration: an `http` context with one server per rule, or a
/// default server answering 404 when there is no rule.
pub open spec fn config_text(rules: Seq<ProxyRuleView>) -> Seq<char> {
    "http {\n"@ + rule_servers_text(rules) + (if rules.len() == 0 { "    server {\n            listen 80 default_server;\n            return 404;\n        }\n        "@ } else { Seq::empty() }) + "}\n"@
}

/// Whether `list` holds `s`.
fn holds(list: &Vec<String>, s: &String) -> (r: bool)
    ensures
        r == views(list@).contains(s@),
{
    let mut i: usize = 0;
    while i < list.len()
        invariant
            i <= list.len(),
            forall|k: int| 0 <= k < i ==> list@[k]@ != s@,
        decreases list.len() - i,
    {
        if str_eq(list[i].as_str(), s.as_str()) {
            assert(views(list@)[i as int] == s@);
            return true;
        }
        i = i + 1;
    }
    assert forall|k: int| 0 <= k < views(list@).len() implies views(list@)[k] != s@ by {
        assert(views(list@)[k] == list@[k]@);
    }
    false
}

/// Whether `rule` serves one of `domains`.
fn rule_overlaps(rule: &ProxyRule, domains: &Vec<String>) -> (r: bool)
    ensures
        r == overlaps(rule@, views(domains@)),
{
    let mut i: usize = 0;
    while i < rule.domains.len()
        invariant
            i <= rule.domains.len(),
            forall|k: int| 0 <= k < i ==> !views(domains@).contains(#[trigger] views(rule.domains@)[k]),
        decreases rule.domains.len() - i,
    {
        assert(views(rule.domains@)[i as int] == rule.domains@[i as int]@);
        if holds(domains, &rule.domains[i]) {
            assert(views(domains@).contains(rule@.domains[i as int]));
            return true;
        }
        i = i + 1;
    }
    false
}

/// The proxy rules of one configuration file.
pub struct NginxManager {
    rules: Vec<ProxyRule>,
    config_path: String,
}

impl View for NginxManager {
    type V = Seq<ProxyRuleView>;

    closed spec fn view(&self) -> Seq<ProxyRuleView> {
        rule_views(self.rules@)
    }
}

impl NginxManager {
    /// A manager with no rule, whose configuration is written to `config_path`.
    pub fn new(config_path: &str) -> (r: Self)
        ensures
            r@ == Seq::<ProxyRuleView>::empty(),
            r.config_path_view() == config_path@,
    {
        let r = NginxManager { rules: Vec::new(), config_path: to_owned_string(config_path) };
        assert(rule_views(r.rules@) =~= Seq::empty());
        r
    }

    pub closed spec fn config_path_view(&self) -> Seq<char> {
        self.config_path@
    }

    /// Where the configuration is written.
    pub fn config_path(&self) -> (r: String)
        ensures
            r@ == self.config_path_view(),
    {
        self.config_path.clone()
    }

    fn retain_rules(&mut self, domains: Option<&Vec<String>>, id: Option<&str>, domain: Option<&String>)
        requires
            (domains is Some) as int + (id is Some) as int + (domain is Some) as int == 1,
        ensures
            final(self).config_path_view() == old(self).config_path_view(),
            domains is Some ==> final(self)@ == without_overlap(old(self)@, views(domains->0@)),
            id is Some ==> final(self)@ == without_id(old(self)@, id->0@),
            domain is Some ==> final(self)@ == without_domain(old(self)@, domain->0@),
    {
        let ghost old_rules = self@;
        let mut kept: Vec<ProxyRule> = Vec::new();
        let mut i: usize = 0;
        while i < self.rules.len()
            invariant
                i <= self.rules.len(),
                old_rules == rule_views(self.rules@),
                domains is Some ==> rule_views(kept@) == without_overlap(old_rules.take(i as int), views(domains->0@)),
                id is Some ==> rule_views(kept@) == without_id(old_rules.take(i as int), id->0@),
                domain is Some ==> rule_views(kept@) == without_domain(old_rules.take(i as int), domain->0@),
                (domains is Some) as int + (id is Some) as int + (domain is Some) as int == 1,
            decreases self.rules.len() - i,
        {
            assert(old_rules.take(i + 1).drop_last() =~= old_rules.take(i as int));
            assert(old_rules[i as int] == self.rules@[i as int]@);
            let drop = match domains {
                Some(d) => rule_overlaps(&self.rules[i], d),
                None => match id {
                    Some(x) => str_eq(self.rules[i].id.as_str(), x),
                    None => match domain {
                        Some(x) => holds(&self.rules[i].domains, x),
                        None => false,
                    },
                },
            };
            if !drop {
                let ghost k0 = kept@;
                let rule = self.rules[i].clone();
                kept.push(rule);
                assert(rule_views(kept@) =~= rule_views(k0).push(old_rules[i as int]));
            }
            i = i + 1;
        }
        assert(old_rules.take(self.rules.len() as int) =~= old_rules);
        self.rules = kept;
    }

    /// Adds `rule`, first dropping every rule that serves one of its domains. A rule
    /// without domains is refused.
    pub fn add_rule(&mut self, rule: ProxyRule) -> (r: Result<(), NginxError>)
        ensures
            final(self).config_path_view() == old(self).config_path_view(),
            rule.domains@.len() == 0 ==> (r matches Err(NginxError::InvalidRule(m))
                && m@ == "At least one domain required"@) && final(self)@ == old(self)@,
            rule.domains@.len() > 0 ==> r is Ok && final(self)@ == without_overlap(old(self)@, rule@.domains).push(rule@),
    {
        if rule.domains.len() == 0 {
            return Err(NginxError::InvalidRule(to_owned_string("At least one domain required")));
        }
        self.retain_rules(Some(&rule.domains), None, None);
        let ghost kept = self@;
        self.rules.push(rule);
        assert(self@ =~= kept.push(rule@));
        Ok(())
    }

    /// Drops the rules with id `id`; says whether any was dropped.
    pub fn remove_rule_by_id(&mut self, id: &str) -> (changed: bool)
        ensures
            final(self).config_path_view() == old(self).config_path_view(),
            final(self)@ == without_id(old(self)@, id@),
            changed == (final(self)@.len() != old(self)@.len()),
    {
        let initial = self.rules.len();
        self.retain_rules(None, Some(id), None);
        self.rules.len() != initial
    }

    /// Drops the rules that serve `domain`; says whether any was dropped.
    pub fn remove_rule_by_domain(&mut self, domain: &str) -> (changed: bool)
        ensures
            final(self).config_path_view() == old(self).config_path_view(),
            final(self)@ == without_domain(old(self)@, domain@),
            changed == (final(self)@.len() != old(self)@.len()),
    {
        let initial = self.rules.len();
        let d = to_owned_string(domain);
        self.retain_rules(None, None, Some(&d));
        self.rules.len() != initial
    }

    /// The configuration text of the current rules.
    pub fn generate_config(&self) -> (r: String)
        ensures
            r@ == config_text(self@),
    {
        let mut config = to_owned_string("http {\n");
        let ghost rv = self@;
        let mut i: usize = 0;
        while i < self.rules.len()
            invariant
                i <= self.rules.len(),
                rv == rule_views(self.rules@),
                config@ == "http {\n"@ + rule_servers_text(rv.take(i as int)),
            decreases self.rules.len() - i,
        {
            assert(rv.take(i + 1).drop_last() =~= rv.take(i as int));
            assert(rv[i as int] == self.rules@[i as int]@);
            let rule = &self.rules[i];
            let names = join_strings(&rule.domains, " ");
            push_str(&mut config, "    server {\n            listen 80;\n            server_name ");
            push_str(&mut config, names.as_str());
            push_str(&mut config, ";\n        \n            location / {\n                proxy_pass ");
            push_str(&mut config, rule.upstream.as_str());
            push_str(&mut config, ";\n                proxy_set_header Host $host;\n                proxy_set_header X-Real-IP $remote_addr;\n                proxy_set_header X-Forwarded-For $proxy_add_x_forwarded_for;\n                proxy_set_header X-Forwarded-Proto $scheme;\n            }\n        }\n        ");
            i = i + 1;
        }
        assert(rv.take(self.rules.len() as int) =~= rv);
        if self.rules.len() == 0 {
            push_str(&mut config, "    server {\n            listen 80 default_server;\n            return 404;\n        }\n        ");
        }
        push_str(&mut config, "}\n");
        config
    }
}

/// The kept rules are rules of the list, accepted by `keep`, in their order:
/// `result[i] == rules[idx[i]]` for strictly increasing indices `idx`.
proof fn lemma_keep_rules_indices(rules: Seq<ProxyRuleView>, keep: spec_fn(ProxyRuleView) -> bool) -> (idx: Seq<int>)
    ensures
        idx.len() == keep_rules(rules, keep).len(),
        forall|i: int| 0 <= i < idx.len() ==> 0 <= #[trigger] idx[i] < rules.len()
            && keep_rules(rules, keep)[i] == rules[idx[i]] && keep(keep_rules(rules, keep)[i]),
        forall|i: int, j: int| 0 <= i < j < idx.len() ==> #[trigger] idx[i] < #[trigger] idx[j],
    decreases rules.len(),
{
    if rules.len() == 0 {
        Seq::empty()
    } else {
        let prev = lemma_keep_rules_indices(rules.drop_last(), keep);
        if keep(rules.last()) {
            let idx = prev.push(rules.len() - 1);
            assert forall|i: int| 0 <= i < idx.len() implies 0 <= #[trigger] idx[i] < rules.len()
                && keep_rules(rules, keep)[i] == rules[idx[i]] && keep(keep_rules(rules, keep)[i]) by {
                if i < prev.len() {
                    assert(idx[i] == prev[i]);
                }
            }
            assert forall|i: int, j: int| 0 <= i < j < idx.len() implies #[trigger] idx[i] < #[trigger] idx[j] by {
                if j < prev.len() {
                    assert(idx[i] == prev[i] && idx[j] == prev[j]);
                } else {
                    assert(idx[i] == prev[i]);
                }
            }
            idx
        } else {
            prev
        }
    }
}

proof fn lemma_overlap_symmetric(a: ProxyRuleView, b: ProxyRuleView)
    ensures
        overlaps(a, b.domains) == overlaps(b, a.domains),
{
    if overlaps(a, b.domains) {
        let i = choose|i: int| 0 <= i < a.domains.len() && b.domains.contains(#[trigger] a.domains[i]);
        let k = choose|k: int| 0 <= k < b.domains.len() && b.domains[k] == a.domains[i];
        assert(a.domains.contains(b.domains[k]));
    }
    if overlaps(b, a.domains) {
        let i = choose|i: int| 0 <= i < b.domains.len() && a.domains.contains(#[trigger] b.domains[i]);
        let k = choose|k: int| 0 <= k < a.domains.len() && a.domains[k] == b.domains[i];
        assert(b.domains.contains(a.domains[k]));
    }
}

proof fn lemma_keep_rules_apart(rules: Seq<ProxyRuleView>, keep: spec_fn(ProxyRuleView) -> bool)
    requires
        domains_apart(rules),
    ensures
        domains_apart(keep_rules(rules, keep)),
{
    let idx = lemma_keep_rules_indices(rules, keep);
    let res = keep_rules(rules, keep);
    assert forall|i: int, j: int| 0 <= i < res.len() && 0 <= j < res.len() && i != j
        implies !overlaps(#[trigger] res[i], #[trigger] res[j].domains) by {
        assert(res[i] == rules[idx[i]] && res[j] == rules[idx[j]]);
        if i < j { assert(idx[i] < idx[j]); } else { assert(idx[j] < idx[i]); }
    }
}

/// Adding a rule keeps every domain served by at most one rule: whatever rules were
/// there, afterwards the new rule is the last one and shares no domain with any
/// other, and rules that shared no domain before still share none.
pub proof fn law_add_rule_keeps_domains_apart(rules: Seq<ProxyRuleView>, rule: ProxyRuleView)
    ensures
        forall|i: int| 0 <= i < without_overlap(rules, rule.domains).len() ==> !overlaps(
            #[trigger] without_overlap(rules, rule.domains)[i],
            rule.domains,
        ),
        domains_apart(rules) ==> domains_apart(without_overlap(rules, rule.domains).push(rule)),
{
    let keep = serves_none_of(rule.domains);
    let res = without_overlap(rules, rule.domains);
    let idx = lemma_keep_rules_indices(rules, keep);
    assert forall|i: int| 0 <= i < res.len() implies !overlaps(#[trigger] res[i], rule.domains) by {
        assert(0 <= idx[i] < rules.len());
        assert(keep(res[i]));
    }
    if domains_apart(rules) {
        lemma_keep_rules_apart(rules, keep);
        let all = res.push(rule);
        assert forall|i: int, j: int| 0 <= i < all.len() && 0 <= j < all.len() && i != j
            implies !overlaps(#[trigger] all[i], #[trigger] all[j].domains) by {
            if i < res.len() && j < res.len() {
                assert(all[i] == res[i] && all[j] == res[j]);
            } else if i < res.len() {
                assert(keep(res[i]));
            } else {
                assert(keep(res[j]));
                lemma_overlap_symmetric(rule, res[j]);
            }
        }
    }
}

/// After removing by domain, no rule serves that domain; after removing by id, no
/// rule has that id; and rules that shared no domain still share none.
pub proof fn law_removal_clears(rules: Seq<ProxyRuleView>, domain: Seq<char>, id: Seq<char>)
    ensures
        forall|i: int| 0 <= i < without_domain(rules, domain).len()
            ==> !(#[trigger] without_domain(rules, domain)[i]).domains.contains(domain),
        forall|i: int| 0 <= i < without_id(rules, id).len() ==> (#[trigger] without_id(rules, id)[i]).id != id,
        domains_apart(rules) ==> domains_apart(without_domain(rules, domain)) && domains_apart(without_id(rules, id)),
{
    let kd = does_not_serve(domain);
    let ki = id_is_not(id);
    let a = lemma_keep_rules_indices(rules, kd);
    let b = lemma_keep_rules_indices(rules, ki);
    assert forall|i: int| 0 <= i < without_domain(rules, domain).len() implies !(
    #[trigger] without_domain(rules, domain)[i]).domains.contains(domain) by {
        assert(0 <= a[i] < rules.len());
        assert(kd(without_domain(rules, domain)[i]));
    }
    assert forall|i: int| 0 <= i < without_id(rules, id).len() implies (
    #[trigger] without_id(rules, id)[i]).id != id by {
        assert(0 <= b[i] < rules.len());
        assert(ki(without_id(rules, id)[i]));
    }
    if domains_apart(rules) {
        lemma_keep_rules_apart(rules, kd);
        lemma_keep_rules_apart(rules, ki);
    }
}

} // verus!
