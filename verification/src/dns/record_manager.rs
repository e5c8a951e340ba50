//! Finding the record of a name, and building the record to create or update.
use vstd::prelude::*;
use crate::dns::dns_manager::{ipv4_text, DnsContent, DnsContentView, type_text};
use crate::text::{
    all_digits, chars_of, decimal, digits_value, int_error_text, is_digit, join_seq, lemma_decimal,
    lemma_decimal_of_digits, lemma_join_split, lemma_split_append, lemma_split_nonempty, lemma_split_without_sep,
    parse_u16_checked, parse_u16_result, push_str, split, split_seq, str_eq, string_of, to_owned_string, views,
    IntErrorKind,
};

verus! {

/// A DNS record as the provider lists it.
#[derive(Debug)]
pub struct DnsRecord {
    pub id: String,
    pub name: String,
    pub proxied: bool,
    pub content: DnsContent,
}

pub struct DnsRecordView {
    pub id: Seq<char>,
    pub name: Seq<char>,
    pub proxied: bool,
    pub content: DnsContentView,
}

impl View for DnsRecord {
    type V = DnsRecordView;

    open spec fn view(&self) -> DnsRecordView {
        DnsRecordView { id: self.id@, name: self.name@, proxied: self.proxied, content: self.content@ }
    }
}

impl Clone for DnsRecord {
    fn clone(&self) -> (r: Self)
        ensures
            r@ == self@,
    {
        DnsRecord { id: self.id.clone(), name: self.name.clone(), proxied: self.proxied, content: self.content.clone() }
    }
}

/// Why record content was refused.
#[derive(Debug)]
pub enum DnsContentError {
    /// An A record whose content is no IPv4 address.
    InvalidIpv4,
    /// An AAAA record whose content is no IPv6 address.
    InvalidIpv6,
    /// An MX record whose content is not a priority and a host separated by a space.
    MxFormat,
    /// An MX record whose priority is no 16-bit number.
    InvalidPriority(IntErrorKind),
    /// A record type that is not supported.
    UnsupportedType(String),
}

pub enum DnsContentErrorView {
    InvalidIpv4,
    InvalidIpv6,
    MxFormat,
    InvalidPriority(IntErrorKind),
    UnsupportedType(Seq<char>),
}

impl View for DnsContentError {
    type V = DnsContentErrorView;

    open spec fn view(&self) -> DnsContentErrorView {
        match self {
            DnsContentError::InvalidIpv4 => DnsContentErrorView::InvalidIpv4,
            DnsContentError::InvalidIpv6 => DnsContentErrorView::InvalidIpv6,
            DnsContentError::MxFormat => DnsContentErrorView::MxFormat,
            DnsContentError::InvalidPriority(k) => DnsContentErrorView::InvalidPriority(*k),
            DnsContentError::UnsupportedType(t) => DnsContentErrorView::UnsupportedType(t@),
        }
    }
}

/// How the refusal is written.
pub open spec fn content_error_text(e: DnsContentErrorView) -> Seq<char> {
    match e {
        DnsContentErrorView::InvalidIpv4 => "invalid IPv4 address syntax"@,
        DnsContentErrorView::InvalidIpv6 => "invalid IPv6 address syntax"@,
        DnsContentErrorView::MxFormat => "MX record content should be in format 'priority hostname'"@,
        DnsContentErrorView::InvalidPriority(k) => int_error_text(k),
        DnsContentErrorView::UnsupportedType(t) => "Unsupported record type: "@ + t,
    }
}

impl DnsContentError {
    /// How the refusal is written.
    pub fn message(&self) -> (r: String)
        ensures
            r@ == content_error_text(self@),
    {
        match self {
            DnsContentError::InvalidIpv4 => to_owned_string("invalid IPv4 address syntax"),
            DnsContentError::InvalidIpv6 => to_owned_string("invalid IPv6 address syntax"),
            DnsContentError::MxFormat => to_owned_string("MX record content should be in format 'priority hostname'"),
            DnsContentError::InvalidPriority(k) => match k {
                IntErrorKind::Empty => to_owned_string("cannot parse integer from empty string"),
                IntErrorKind::InvalidDigit => to_owned_string("invalid digit found in string"),
                IntErrorKind::PosOverflow => to_owned_string("number too large to fit in target type"),
            },
            DnsContentError::UnsupportedType(t) => {
                let mut s = to_owned_string("Unsupported record type: ");
                push_str(&mut s, t.as_str());
                s
            },
        }
    }
}

/// One octet of a dotted-decimal address: one to three digits of value at most
/// 255, without a leading zero unless it is the only digit.
pub open spec fn octet_ok(p: Seq<char>) -> bool {
    &&& 1 <= p.len() <= 3
    &&& all_digits(p)
    &&& digits_value(p) <= 255
    &&& !(p[0] == '0' && p.len() > 1)
}

/// The address that dotted-decimal text denotes, as the IPv4 address parser reads
/// it: exactly four octets separated by dots.
pub open spec fn parse_ipv4_seq(s: Seq<char>) -> Option<Seq<u8>> {
    let parts = split_seq(s, '.');
    if parts.len() == 4 && octet_ok(parts[0]) && octet_ok(parts[1]) && octet_ok(parts[2]) && octet_ok(parts[3]) {
        Some(
            seq![
                digits_value(parts[0]) as u8,
                digits_value(parts[1]) as u8,
                digits_value(parts[2]) as u8,
                digits_value(parts[3]) as u8,
            ],
        )
    } else {
        None
    }
}

/// A hexadecimal digit, in either case.
pub open spec fn is_hex_digit(c: char) -> bool {
    ('0' <= c && c <= '9') || ('a' <= c && c <= 'f') || ('A' <= c && c <= 'F')
}

/// One group of an IPv6 address: one to four hexadecimal digits.
pub open spec fn hex_group_ok(p: Seq<char>) -> bool {
    1 <= p.len() <= 4 && forall|i: int| 0 <= i < p.len() ==> is_hex_digit(#[trigger] p[i])
}

/// How many 16-bit groups colon-separated text holds: every piece a group, except
/// that the last may be a dotted-decimal IPv4 address (two groups) where
/// `allow_ipv4` holds; the empty text holds none. `None` when the text is no such
/// list.
pub open spec fn groups_count(t: Seq<char>, allow_ipv4: bool) -> Option<nat> {
    if t.len() == 0 {
        Some(0)
    } else {
        let parts = split_seq(t, ':');
        let n = parts.len();
        if forall|i: int| 0 <= i < n - 1 ==> hex_group_ok(#[trigger] parts[i]) {
            if hex_group_ok(parts[n - 1]) {
                Some(n)
            } else if allow_ipv4 && parse_ipv4_seq(parts[n - 1]) is Some {
                Some(n + 1)
            } else {
                None
            }
        } else {
            None
        }
    }
}

/// The first place, from `from` on, where two colons follow each other.
pub open spec fn find_double_colon(s: Seq<char>, from: int) -> Option<int>
    decreases s.len() - from,
{
    if from < 0 || from + 1 >= s.len() {
        None
    } else if s[from] == ':' && s[from + 1] == ':' {
        Some(from)
    } else {
        find_double_colon(s, from + 1)
    }
}

/// Whether text is an IPv6 address as the IPv6 address parser reads it: eight
/// groups, the last two of which may be written as an IPv4 address; or, around the
/// first `::`, at most seven groups, where only the part after `::` may end in an
/// IPv4 address.
pub open spec fn ipv6_text_ok(s: Seq<char>) -> bool {
    match find_double_colon(s, 0) {
        Some(k) => match (groups_count(s.take(k), false), groups_count(s.skip(k + 2), true)) {
            (Some(h), Some(t)) => h + t <= 7,
            _ => false,
        },
        None => groups_count(s, true) == Some(8nat),
    }
}

/// The content that a record of type `record_type` gets from the text `content`:
/// an A record's address is parsed, an MX record's text is a priority, one space
/// and the mail host.
pub open spec fn parse_content(record_type: Seq<char>, content: Seq<char>) -> Result<DnsContentView, DnsContentErrorView> {
    if record_type == "A"@ {
        match parse_ipv4_seq(content) {
            Some(o) => Ok(DnsContentView::A { content: o }),
            None => Err(DnsContentErrorView::InvalidIpv4),
        }
    } else if record_type == "AAAA"@ {
        if ipv6_text_ok(content) {
            Ok(DnsContentView::AAAA { content })
        } else {
            Err(DnsContentErrorView::InvalidIpv6)
        }
    } else if record_type == "CNAME"@ {
        Ok(DnsContentView::CNAME { content })
    } else if record_type == "TXT"@ {
        Ok(DnsContentView::TXT { content })
    } else if record_type == "MX"@ {
        let parts = split_seq(content, ' ');
        if parts.len() != 2 {
            Err(DnsContentErrorView::MxFormat)
        } else {
            match parse_u16_result(parts[0]) {
                Ok(p) => Ok(DnsContentView::MX { content: parts[1], priority: p }),
                Err(k) => Err(DnsContentErrorView::InvalidPriority(k)),
            }
        }
    } else if record_type == "NS"@ {
        Ok(DnsContentView::NS { content })
    } else if record_type == "SRV"@ {
        Ok(DnsContentView::SRV { content })
    } else {
        Err(DnsContentErrorView::UnsupportedType(record_type))
    }
}

/// The value of one octet, if `p` is one.
fn octet(p: &str) -> (r: Option<u8>)
    ensures
        r == if octet_ok(p@) { Some(digits_value(p@) as u8) } else { None::<u8> },
{
    let v = chars_of(p);
    if v.len() == 0 || v.len() > 3 {
        return None;
    }
    let mut acc: u32 = 0;
    let mut i: usize = 0;
    while i < v.len()
        invariant
            i <= v.len() <= 3,
            v@ == p@,
            forall|k: int| 0 <= k < i ==> is_digit(#[trigger] v@[k]),
            acc as nat == digits_value(v@.take(i as int)),
            acc < 1000,
        decreases v.len() - i,
    {
        let c = v[i];
        if !('0' <= c && c <= '9') {
            assert(!is_digit(v@[i as int]));
            return None;
        }
        assert(v@.take(i + 1).drop_last() =~= v@.take(i as int));
        assert(i < 3);
        assert(acc < 100) by {
            assert(digits_value(v@.take(i as int)) < 100) by {
                lemma_digits_bound(v@.take(i as int));
            }
        }
        acc = acc * 10 + ((c as u32) - ('0' as u32));
        i = i + 1;
    }
    assert(v@.take(v.len() as int) =~= v@);
    if acc > 255 {
        return None;
    }
    if v[0] == '0' && v.len() > 1 {
        return None;
    }
    Some(acc as u8)
}

/// A string of at most two digits is worth less than 100, of at most one less than 10.
proof fn lemma_digits_bound(s: Seq<char>)
    requires
        s.len() <= 2,
        forall|k: int| 0 <= k < s.len() ==> is_digit(#[trigger] s[k]),
    ensures
        digits_value(s) < 100,
        s.len() <= 1 ==> digits_value(s) < 10,
    decreases s.len(),
{
    if s.len() > 0 {
        assert(is_digit(s[s.len() - 1]));
        assert forall|k: int| 0 <= k < s.drop_last().len() implies is_digit(#[trigger] s.drop_last()[k]) by {
            assert(s.drop_last()[k] == s[k]);
        }
        lemma_digits_bound(s.drop_last());
    }
}

/// Parses dotted-decimal IPv4 text.
pub fn parse_ipv4(s: &str) -> (r: Option<[u8; 4]>)
    ensures
        match parse_ipv4_seq(s@) {
            Some(o) => r matches Some(a) && a@ == o,
            None => r is None,
        },
{
    let parts = split(s, '.');
    proof {
        assert(views(parts@).len() == parts@.len());
    }
    if parts.len() != 4 {
        return None;
    }
    assert(views(parts@)[0] == parts@[0]@);
    assert(views(parts@)[1] == parts@[1]@);
    assert(views(parts@)[2] == parts@[2]@);
    assert(views(parts@)[3] == parts@[3]@);
    let a = match octet(parts[0].as_str()) {
        Some(x) => x,
        None => {
            return None;
        },
    };
    let b = match octet(parts[1].as_str()) {
        Some(x) => x,
        None => {
            return None;
        },
    };
    let c = match octet(parts[2].as_str()) {
        Some(x) => x,
        None => {
            return None;
        },
    };
    let d = match octet(parts[3].as_str()) {
        Some(x) => x,
        None => {
            return None;
        },
    };
    let r: [u8; 4] = [a, b, c, d];
    assert(r@ =~= parse_ipv4_seq(s@)->0);
    Some(r)
}

/// The decimal notation of an octet is a valid octet that reads back as it.
proof fn lemma_octet_text(n: u8)
    ensures
        octet_ok(decimal(n as nat)),
        digits_value(decimal(n as nat)) == n,
        !decimal(n as nat).contains('.'),
{
    lemma_decimal(n as nat);
    let d = decimal(n as nat);
    if d.contains('.') {
        let k = choose|k: int| 0 <= k < d.len() && d[k] == '.';
        assert(is_digit(d[k]));
    }
}

/// Writing an address in dotted-decimal notation and parsing the text gives the
/// address back.
pub proof fn law_ipv4_print_then_parse(o: Seq<u8>)
    requires
        o.len() == 4,
    ensures
        parse_ipv4_seq(ipv4_text(o)) == Some(o),
{
    let a = decimal(o[0] as nat);
    let b = decimal(o[1] as nat);
    let c = decimal(o[2] as nat);
    let d = decimal(o[3] as nat);
    lemma_octet_text(o[0]);
    lemma_octet_text(o[1]);
    lemma_octet_text(o[2]);
    lemma_octet_text(o[3]);
    reveal_strlit(".");
    let s = ipv4_text(o);
    let ab = a.push('.') + b;
    let abc = ab.push('.') + c;
    assert(s =~= abc.push('.') + d);
    lemma_split_without_sep(a, '.');
    lemma_split_without_sep(b, '.');
    lemma_split_without_sep(c, '.');
    lemma_split_without_sep(d, '.');
    lemma_split_append(a, '.', b);
    lemma_split_append(ab, '.', c);
    lemma_split_append(abc, '.', d);
    let parts = split_seq(s, '.');
    assert(parts =~= seq![a, b, c, d]);
    assert(parse_ipv4_seq(s)->0 =~= o);
}

/// Parsing accepted text and writing the address gives the text back: only the
/// canonical notation is accepted.
pub proof fn law_ipv4_parse_then_print(s: Seq<char>)
    requires
        parse_ipv4_seq(s) is Some,
    ensures
        ipv4_text(parse_ipv4_seq(s)->0) == s,
{
    let parts = split_seq(s, '.');
    lemma_join_split(s, '.');
    lemma_decimal_of_digits(parts[0]);
    lemma_decimal_of_digits(parts[1]);
    lemma_decimal_of_digits(parts[2]);
    lemma_decimal_of_digits(parts[3]);
    let o = parse_ipv4_seq(s)->0;
    assert(o[0] as nat == digits_value(parts[0]));
    assert(o[1] as nat == digits_value(parts[1]));
    assert(o[2] as nat == digits_value(parts[2]));
    assert(o[3] as nat == digits_value(parts[3]));
    reveal_strlit(".");
    let sep = seq!['.'];
    assert(parts.drop_last() =~= seq![parts[0], parts[1], parts[2]]);
    assert(parts.drop_last().drop_last() =~= seq![parts[0], parts[1]]);
    assert(parts.drop_last().drop_last().drop_last() =~= seq![parts[0]]);
    assert(join_seq(seq![parts[0]], sep) == parts[0]);
    assert(join_seq(seq![parts[0], parts[1]], sep) =~= parts[0] + sep + parts[1]);
    assert(join_seq(seq![parts[0], parts[1], parts[2]], sep) =~= parts[0] + sep + parts[1] + sep + parts[2]);
    assert(join_seq(parts, sep) =~= parts[0] + sep + parts[1] + sep + parts[2] + sep + parts[3]);
    assert(ipv4_text(o) =~= s);
}

/// The content parsed for a record type is of that type.
pub proof fn law_parsed_content_has_requested_type(record_type: Seq<char>, content: Seq<char>)
    requires
        parse_content(record_type, content) is Ok,
    ensures
        type_text(parse_content(record_type, content)->Ok_0) == record_type,
{
}

/// Whether `c` is a hexadecimal digit.
fn is_hex(c: char) -> (r: bool)
    ensures
        r == is_hex_digit(c),
{
    ('0' <= c && c <= '9') || ('a' <= c && c <= 'f') || ('A' <= c && c <= 'F')
}

/// Whether `p` is one group of an IPv6 address.
fn hex_group(p: &str) -> (r: bool)
    ensures
        r == hex_group_ok(p@),
{
    let v = chars_of(p);
    if v.len() == 0 || v.len() > 4 {
        return false;
    }
    let mut i: usize = 0;
    while i < v.len()
        invariant
            i <= v.len(),
            v@ == p@,
            forall|k: int| 0 <= k < i ==> is_hex_digit(#[trigger] v@[k]),
        decreases v.len() - i,
    {
        if !is_hex(v[i]) {
            return false;
        }
        i = i + 1;
    }
    true
}

/// The number of groups colon-separated text holds, where it is at most eight.
fn count_groups(t: &str, allow_ipv4: bool) -> (r: Option<usize>)
    ensures
        r matches Some(k) ==> groups_count(t@, allow_ipv4) == Some(k as nat),
        r is None ==> (groups_count(t@, allow_ipv4) is None || groups_count(t@, allow_ipv4)->0 > 8),
        r matches Some(k) ==> k <= 9,
{
    let tv = chars_of(t);
    if tv.len() == 0 {
        return Some(0);
    }
    let parts = split(t, ':');
    let ghost ps = split_seq(t@, ':');
    proof {
        lemma_split_nonempty(t@, ':');
        assert(views(parts@).len() == parts@.len());
    }
    let n = parts.len();
    if n > 8 {
        return None;
    }
    let mut i: usize = 0;
    while i + 1 < n
        invariant
            n == parts.len(),
            1 <= n <= 8,
            ps == views(parts@),
            ps == split_seq(t@, ':'),
            t@.len() > 0,
            i < n,
            forall|k: int| 0 <= k < i ==> hex_group_ok(#[trigger] ps[k]),
        decreases n - i,
    {
        assert(ps[i as int] == parts@[i as int]@);
        if !hex_group(parts[i].as_str()) {
            assert(!hex_group_ok(ps[i as int]));
            return None;
        }
        i = i + 1;
    }
    assert(ps[n - 1] == parts@[n - 1]@);
    if hex_group(parts[n - 1].as_str()) {
        Some(n)
    } else if allow_ipv4 && parse_ipv4(parts[n - 1].as_str()).is_some() {
        Some(n + 1)
    } else {
        None
    }
}

/// Whether `s` is an IPv6 address (see `ipv6_text_ok`).
pub fn is_ipv6_text(s: &str) -> (r: bool)
    ensures
        r == ipv6_text_ok(s@),
{
    let v = chars_of(s);
    let mut k: usize = 0;
    let mut found = false;
    while v.len() > 0 && k < v.len() - 1 && !found
        invariant
            v@ == s@,
            k <= v.len(),
            !found ==> find_double_colon(s@, 0) == find_double_colon(s@, k as int),
            found ==> k + 1 < v.len() && find_double_colon(s@, 0) == Some(k as int),
        decreases v.len() - k + (if found { 0int } else { 1int }),
    {
        if v[k] == ':' && v[k + 1] == ':' {
            found = true;
        } else {
            k = k + 1;
        }
    }
    if found {
        let head = string_of(&v, 0, k);
        let tail = string_of(&v, k + 2, v.len());
        assert(head@ =~= s@.take(k as int));
        assert(tail@ =~= s@.skip(k + 2));
        match (count_groups(head.as_str(), false), count_groups(tail.as_str(), true)) {
            (Some(h), Some(t)) => h + t <= 7,
            _ => false,
        }
    } else {
        match count_groups(s, true) {
            Some(n) => n == 8,
            None => false,
        }
    }
}

/// What the provider is asked to do with a record.
#[derive(Debug)]
pub enum RecordWrite {
    /// Create a record.
    Create { name: String, content: DnsContent, ttl: Option<u32>, proxied: Option<bool> },
    /// Replace the record with this identifier.
    Update { id: String, name: String, content: DnsContent, ttl: Option<u32>, proxied: Option<bool> },
}

/// Looking up and writing DNS records.
pub struct RecordManager;

impl RecordManager {
    pub fn new() -> (r: Self) {
        RecordManager
    }

    /// The content a record of type `record_type` gets from the text `content`.
    pub fn parse_content(record_type: &str, content: String) -> (r: Result<DnsContent, DnsContentError>)
        ensures
            match parse_content(record_type@, content@) {
                Ok(c) => r matches Ok(x) && x@ == c,
                Err(e) => r matches Err(x) && x@ == e,
            },
    {
        if str_eq(record_type, "A") {
            match parse_ipv4(content.as_str()) {
                Some(o) => Ok(DnsContent::A { content: o }),
                None => Err(DnsContentError::InvalidIpv4),
            }
        } else if str_eq(record_type, "AAAA") {
            if is_ipv6_text(content.as_str()) {
                Ok(DnsContent::AAAA { content })
            } else {
                Err(DnsContentError::InvalidIpv6)
            }
        } else if str_eq(record_type, "CNAME") {
            Ok(DnsContent::CNAME { content })
        } else if str_eq(record_type, "TXT") {
            Ok(DnsContent::TXT { content })
        } else if str_eq(record_type, "MX") {
            let parts = split(content.as_str(), ' ');
            proof {
                assert(views(parts@).len() == parts@.len());
            }
            if parts.len() != 2 {
                return Err(DnsContentError::MxFormat);
            }
            assert(views(parts@)[0] == parts@[0]@);
            assert(views(parts@)[1] == parts@[1]@);
            match parse_u16_checked(parts[0].as_str()) {
                Ok(p) => Ok(DnsContent::MX { content: parts[1].clone(), priority: p }),
                Err(k) => Err(DnsContentError::InvalidPriority(k)),
            }
        } else if str_eq(record_type, "NS") {
            Ok(DnsContent::NS { content })
        } else if str_eq(record_type, "SRV") {
            Ok(DnsContent::SRV { content })
        } else {
            Err(DnsContentError::UnsupportedType(to_owned_string(record_type)))
        }
    }

    /// Of the records listed for a name, the first of type `record_type`.
    pub fn find_record(records: Vec<DnsRecord>, record_type: &str) -> (r: Option<DnsRecord>)
        ensures
            r is None <==> forall|i: int| 0 <= i < records@.len() ==> type_text(#[trigger] records@[i]@.content) != record_type@,
            r matches Some(x) ==> exists|i: int| 0 <= i < records@.len() && x@ == #[trigger] records@[i]@
                && type_text(records@[i]@.content) == record_type@
                && forall|j: int| 0 <= j < i ==> type_text(#[trigger] records@[j]@.content) != record_type@,
    {
        let mut i: usize = 0;
        while i < records.len()
            invariant
                i <= records.len(),
                forall|j: int| 0 <= j < i ==> type_text(#[trigger] records@[j]@.content) != record_type@,
            decreases records.len() - i,
        {
            let t = crate::dns::dns_manager::DNSManager::dns_content_type_string(&records[i].content);
            if str_eq(t.as_str(), record_type) {
                assert(type_text(records@[i as int]@.content) == record_type@);
                let x = records[i].clone();
                assert(x@ == records@[i as int]@);
                return Some(x);
            }
            i = i + 1;
        }
        None
    }

    /// The record to write: an update of the existing record when there is one,
    /// else a new record; refused when the content does not suit the type.
    pub fn record_write(
        name: String,
        record_type: &str,
        content: String,
        ttl: Option<u32>,
        proxied: Option<bool>,
        existing: Option<DnsRecord>,
    ) -> (r: Result<RecordWrite, DnsContentError>)
        ensures
            match parse_content(record_type@, content@) {
                Ok(c) => match existing {
                    Some(e) => r matches Ok(RecordWrite::Update { id, name: n, content: x, ttl: t, proxied: p })
                        && id@ == e.id@ && n@ == name@ && x@ == c && t == ttl && p == proxied,
                    None => r matches Ok(RecordWrite::Create { name: n, content: x, ttl: t, proxied: p })
                        && n@ == name@ && x@ == c && t == ttl && p == proxied,
                },
                Err(e) => r matches Err(x) && x@ == e,
            },
    {
        let c = match Self::parse_content(record_type, content) {
            Ok(c) => c,
            Err(e) => {
                return Err(e);
            },
        };
        match existing {
            Some(e) => Ok(RecordWrite::Update { id: e.id, name, content: c, ttl, proxied }),
            None => Ok(RecordWrite::Create { name, content: c, ttl, proxied }),
        }
    }
}

} // verus!
