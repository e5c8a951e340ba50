//! The content of a DNS record and the forms in which it is compared.
use vstd::prelude::*;
use crate::text::{decimal, decimal_string, push_str, str_eq, to_owned_string};

verus! {

/// What a DNS record holds, by type. An IPv4 address is held by its four octets;
/// an IPv6 address by its text, as the address type writes it.
#[derive(Debug)]
pub enum DnsContent {
    A { content: [u8; 4] },
    AAAA { content: String },
    CNAME { content: String },
    NS { content: String },
    MX { content: String, priority: u16 },
    TXT { content: String },
    SRV { content: String },
}

#[allow(inconsistent_fields)]
pub enum DnsContentView {
    A { content: Seq<u8> },
    AAAA { content: Seq<char> },
    CNAME { content: Seq<char> },
    NS { content: Seq<char> },
    MX { content: Seq<char>, priority: u16 },
    TXT { content: Seq<char> },
    SRV { content: Seq<char> },
}

impl View for DnsContent {
    type V = DnsContentView;

    open spec fn view(&self) -> DnsContentView {
        match self {
            DnsContent::A { content } => DnsContentView::A { content: content@ },
            DnsContent::AAAA { content } => DnsContentView::AAAA { content: content@ },
            DnsContent::CNAME { content } => DnsContentView::CNAME { content: content@ },
            DnsContent::NS { content } => DnsContentView::NS { content: content@ },
            DnsContent::MX { content, priority } => DnsContentView::MX { content: content@, priority: *priority },
            DnsContent::TXT { content } => DnsContentView::TXT { content: content@ },
            DnsContent::SRV { content } => DnsContentView::SRV { content: content@ },
        }
    }
}

impl Clone for DnsContent {
    fn clone(&self) -> (r: Self)
        ensures
            r@ == self@,
    {
        match self {
            DnsContent::A { content } => {
                let a: [u8; 4] = [content[0], content[1], content[2], content[3]];
                assert(a@ =~= content@);
                DnsContent::A { content: a }
            },
            DnsContent::AAAA { content } => DnsContent::AAAA { content: content.clone() },
            DnsContent::CNAME { content } => DnsContent::CNAME { content: content.clone() },
            DnsContent::NS { content } => DnsContent::NS { content: content.clone() },
            DnsContent::MX { content, priority } => DnsContent::MX { content: content.clone(), priority: *priority },
            DnsContent::TXT { content } => DnsContent::TXT { content: content.clone() },
            DnsContent::SRV { content } => DnsContent::SRV { content: content.clone() },
        }
    }
}

/// Dotted-decimal notation of an IPv4 address.
pub open spec fn ipv4_text(o: Seq<u8>) -> Seq<char> {
    decimal(o[0] as nat) + "."@ + decimal(o[1] as nat) + "."@ + decimal(o[2] as nat) + "."@ + decimal(o[3] as nat)
}

/// The value of a record as text; an MX record is written with its priority first.
pub open spec fn content_text(c: DnsContentView) -> Seq<char> {
    match c {
        DnsContentView::A { content } => ipv4_text(content),
        DnsContentView::AAAA { content } => content,
        DnsContentView::CNAME { content } => content,
        DnsContentView::NS { content } => content,
        DnsContentView::MX { content, priority } => decimal(priority as nat) + " "@ + content,
        DnsContentView::TXT { content } => content,
        DnsContentView::SRV { content } => content,
    }
}

/// The name of the record's type.
pub open spec fn type_text(c: DnsContentView) -> Seq<char> {
    match c {
        DnsContentView::A { .. } => "A"@,
        DnsContentView::AAAA { .. } => "AAAA"@,
        DnsContentView::CNAME { .. } => "CNAME"@,
        DnsContentView::NS { .. } => "NS"@,
        DnsContentView::MX { .. } => "MX"@,
        DnsContentView::TXT { .. } => "TXT"@,
        DnsContentView::SRV { .. } => "SRV"@,
    }
}

/// Dotted-decimal notation of an IPv4 address.
pub fn ipv4_string(o: &[u8; 4]) -> (r: String)
    ensures
        r@ == ipv4_text(o@),
{
    let mut s = decimal_string(o[0] as u64);
    push_str(&mut s, ".");
    let b = decimal_string(o[1] as u64);
    push_str(&mut s, b.as_str());
    push_str(&mut s, ".");
    let c = decimal_string(o[2] as u64);
    push_str(&mut s, c.as_str());
    push_str(&mut s, ".");
    let d = decimal_string(o[3] as u64);
    push_str(&mut s, d.as_str());
    s
}

/// Routing DNS updates to the provider that serves them.
pub struct DNSManager {}

impl DNSManager {
    pub fn new() -> (r: Self) {
        DNSManager {}
    }

    /// The value of a record as text.
    pub fn dns_content_to_string(content: &DnsContent) -> (r: String)
        ensures
            r@ == content_text(content@),
    {
        match content {
            DnsContent::A { content } => ipv4_string(content),
            DnsContent::AAAA { content } => content.clone(),
            DnsContent::CNAME { content } => content.clone(),
            DnsContent::NS { content } => content.clone(),
            DnsContent::MX { content, priority } => {
                let mut s = decimal_string(*priority as u64);
                push_str(&mut s, " ");
                push_str(&mut s, content.as_str());
                s
            },
            DnsContent::TXT { content } => content.clone(),
            DnsContent::SRV { content } => content.clone(),
        }
    }

    /// The name of the record's type.
    pub fn dns_content_type_string(content: &DnsContent) -> (r: String)
        ensures
            r@ == type_text(content@),
    {
        match content {
            DnsContent::A { .. } => to_owned_string("A"),
            DnsContent::AAAA { .. } => to_owned_string("AAAA"),
            DnsContent::CNAME { .. } => to_owned_string("CNAME"),
            DnsContent::NS { .. } => to_owned_string("NS"),
            DnsContent::MX { .. } => to_owned_string("MX"),
            DnsContent::TXT { .. } => to_owned_string("TXT"),
            DnsContent::SRV { .. } => to_owned_string("SRV"),
        }
    }

    /// Whether updates for `provider` are carried out; only Cloudflare is.
    pub fn handles_provider(provider: &str) -> (r: bool)
        ensures
            r == (provider@ == "cloudflare"@),
    {
        str_eq(provider, "cloudflare")
    }
}

} // verus!
