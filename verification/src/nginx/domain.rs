//! Domain names turned into names of configuration files.
use vstd::prelude::*;
use crate::queue::models::opt_view;
use crate::text::{
    chars_of, lemma_split_nonempty, lowercase_of, push_str, replace_char, replace_char_seq, split, split_seq,
    starts_with, starts_with_seq, string_of, to_lowercase, to_owned_string, views,
};

verus! {

/// What `idna::domain_to_ascii` returns for a domain: its ASCII (Punycode) form, or
/// `None` where the conversion fails.
pub uninterp spec fn domain_to_ascii_of(domain: Seq<char>) -> Option<Seq<char>>;

/// Calls `idna::domain_to_ascii`; the result is named `domain_to_ascii_of` of the
/// argument (the error value is dropped).
#[verifier::external_body]
fn domain_to_ascii(domain: &str) -> (r: Option<String>)
    ensures
        opt_view(r) == domain_to_ascii_of(domain@),
{
    idna::domain_to_ascii(domain).ok()
}

/// `s` without all leading repetitions of `p`.
pub open spec fn strip_prefixes(s: Seq<char>, p: Seq<char>) -> Seq<char>
    decreases s.len(),
{
    if p.len() > 0 && starts_with_seq(s, p) {
        strip_prefixes(s.skip(p.len() as int), p)
    } else {
        s
    }
}

/// The part of `s` before the first `c`.
pub open spec fn before_char(s: Seq<char>, c: char) -> Seq<char> {
    split_seq(s, c)[0]
}

/// The host part of a lowercased address: scheme prefixes (`http://`, `https://`,
/// `ftp://`) removed, and everything from the first `/`, `?` or `#` dropped.
pub open spec fn host_part(d: Seq<char>) -> Seq<char> {
    let d = strip_prefixes(strip_prefixes(strip_prefixes(d, "http://"@), "https://"@), "ftp://"@);
    before_char(before_char(before_char(d, '/'), '?'), '#')
}

/// A domain as a file-name component: the lowercased host part, in its ASCII form
/// where that conversion succeeds, with `.` and `-` replaced by `_`.
pub open spec fn sanitized_domain(domain: Seq<char>) -> Seq<char> {
    let d = host_part(lowercase_of(domain));
    let a = match domain_to_ascii_of(d) {
        Some(a) => a,
        None => d,
    };
    replace_char_seq(replace_char_seq(a, '.', '_'), '-', '_')
}

/// A sanitized domain holds neither dots nor dashes, so it names one flat file.
pub proof fn law_sanitized_domain_is_flat(domain: Seq<char>)
    ensures
        !sanitized_domain(domain).contains('.'),
        !sanitized_domain(domain).contains('-'),
{
    let s = sanitized_domain(domain);
    if s.contains('.') {
        let k = choose|k: int| 0 <= k < s.len() && s[k] == '.';
        assert(s[k] == '.');
    }
    if s.contains('-') {
        let k = choose|k: int| 0 <= k < s.len() && s[k] == '-';
        assert(s[k] == '-');
    }
}

/// The name of the configuration file of a domain.
pub open spec fn domain_filename(domain: Seq<char>) -> Seq<char> {
    "proxma_"@ + sanitized_domain(domain) + ".conf"@
}

/// `s` without all leading repetitions of `p`.
pub fn strip_all_prefixes(s: &str, p: &str) -> (r: String)
    ensures
        r@ == strip_prefixes(s@, p@),
{
    let plen = chars_of(p).len();
    let mut cur = to_owned_string(s);
    if plen == 0 {
        return cur;
    }
    while starts_with(cur.as_str(), p)
        invariant
            plen == p@.len(),
            plen > 0,
            strip_prefixes(s@, p@) == strip_prefixes(cur@, p@),
        decreases cur@.len(),
    {
        let v = chars_of(cur.as_str());
        let next = string_of(&v, plen, v.len());
        assert(next@ =~= cur@.skip(plen as int));
        cur = next;
    }
    cur
}

/// The part of `s` before the first `c`.
pub fn first_piece(s: &str, c: char) -> (r: String)
    ensures
        r@ == before_char(s@, c),
{
    let pieces = split(s, c);
    proof {
        lemma_split_nonempty(s@, c);
        assert(views(pieces@)[0] == pieces@[0]@);
    }
    pieces[0].clone()
}

/// A domain as a file-name component (see `sanitized_domain`).
pub fn sanitize_domain(domain: &str) -> (r: String)
    ensures
        r@ == sanitized_domain(domain@),
{
    let lower = to_lowercase(domain);
    let d1 = strip_all_prefixes(lower.as_str(), "http://");
    let d2 = strip_all_prefixes(d1.as_str(), "https://");
    let d3 = strip_all_prefixes(d2.as_str(), "ftp://");
    let p1 = first_piece(d3.as_str(), '/');
    let p2 = first_piece(p1.as_str(), '?');
    let d = first_piece(p2.as_str(), '#');
    let ascii = match domain_to_ascii(d.as_str()) {
        Some(a) => a,
        None => d,
    };
    let dots = replace_char(ascii.as_str(), '.', '_');
    replace_char(dots.as_str(), '-', '_')
}

/// The name of the configuration file of a domain: `proxma_<sanitized>.conf`.
pub fn domain_to_filename(domain: &str) -> (r: String)
    ensures
        r@ == domain_filename(domain@),
{
    let mut s = to_owned_string("proxma_");
    let d = sanitize_domain(domain);
    push_str(&mut s, d.as_str());
    push_str(&mut s, ".conf");
    s
}

} // verus!
