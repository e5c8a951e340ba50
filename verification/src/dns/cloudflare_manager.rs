//! Deciding which record a host gets in its zone, and whether it must be written.
use vstd::prelude::*;
use crate::dns::dns_manager::{content_text, type_text, DNSManager};
use crate::dns::record_manager::{DnsRecord, DnsRecordView};
use crate::dns::zone_manager::zone_matches;
use crate::text::{ends_with, ends_with_seq, push_str, str_eq, to_owned_string};

verus! {

/// The full name of the record for `record` in the zone `zone`: the name itself
/// when it is the zone or lies under it, else the name with the zone appended.
pub open spec fn record_name_text(record: Seq<char>, zone: Seq<char>) -> Seq<char> {
    if record == zone || ends_with_seq(record, "."@ + zone) {
        record
    } else {
        record + "."@ + zone
    }
}

/// Whether the record must be written: there is none yet, or it differs in being
/// proxied, in its type, or in its value compared with the requested name.
pub open spec fn needs_update(existing: Option<DnsRecordView>, record: Seq<char>, record_type: Seq<char>, proxied: bool) -> bool {
    match existing {
        None => true,
        Some(e) => e.proxied != proxied || record_type != type_text(e.content) || record != content_text(e.content),
    }
}

/// The record written for a host lies in the zone it was written into.
pub proof fn law_record_name_in_zone(record: Seq<char>, zone: Seq<char>)
    ensures
        zone_matches(record_name_text(record, zone), zone),
{
    let r = record_name_text(record, zone);
    if !(record == zone || ends_with_seq(record, "."@ + zone)) {
        assert(r.skip(r.len() - ("."@ + zone).len()) =~= "."@ + zone);
    }
}

/// The record a host asks for.
pub struct RecordUpdate {
    pub record: String,
    pub record_type: String,
    pub proxied: bool,
}

/// What the last step of an update found out.
pub enum UpdateEvent {
    /// The zone lookup gave this zone name and identifier, or found no zone.
    ZoneFound(Option<(String, String)>),
    /// The zone lookup failed.
    ZoneError,
    /// The record lookup under this full name found this record, or none.
    RecordFound(String, Option<DnsRecord>),
    /// The record lookup failed.
    RecordError,
}

/// What to do next in an update.
pub enum UpdateAction {
    /// Look up the record of this full name in this zone.
    LookUpRecord { zone_id: String, record_name: String },
    /// Hand the record, under this full name, back to the DNS manager, which routes
    /// it by provider; the update then counts as successful.
    HandOn { record_name: String },
    /// Stop, reporting success or failure.
    Finish(bool),
}

/// Keeping Cloudflare records in line with the hosts.
pub struct CloudflareManager;

impl CloudflareManager {
    pub fn new() -> (r: Self) {
        CloudflareManager
    }

    /// The full name of the record for `record` in the zone `zone_name`.
    pub fn record_name(record: &str, zone_name: &str) -> (r: String)
        ensures
            r@ == record_name_text(record@, zone_name@),
    {
        if str_eq(record, zone_name) {
            return to_owned_string(record);
        }
        let mut dotted = to_owned_string(".");
        push_str(&mut dotted, zone_name);
        proof { reveal_strlit("."); }
        if ends_with(record, dotted.as_str()) {
            return to_owned_string(record);
        }
        let mut r = to_owned_string(record);
        push_str(&mut r, ".");
        push_str(&mut r, zone_name);
        r
    }

    /// Whether the record found for `record` must be written.
    pub fn record_needs_update(existing: &Option<DnsRecord>, record: &str, record_type: &str, proxied: bool) -> (r: bool)
        ensures
            r == needs_update(
                match existing {
                    Some(e) => Some(e@),
                    None => None,
                },
                record@,
                record_type@,
                proxied,
            ),
    {
        match existing {
            None => true,
            Some(e) => {
                let mut update = false;
                if e.proxied != proxied {
                    update = true;
                }
                let t = DNSManager::dns_content_type_string(&e.content);
                if !str_eq(record_type, t.as_str()) {
                    update = true;
                }
                let c = DNSManager::dns_content_to_string(&e.content);
                if !str_eq(record, c.as_str()) {
                    update = true;
                }
                update
            },
        }
    }
    /// The next step of an update: a zone that was found leads to the record lookup
    /// under the record's full name; a record that differs from the request, or is
    /// missing, is handed on under its full name; one that matches ends the update
    /// successfully. A missing zone or a failed lookup ends it in failure.
    pub fn update_step(update: &RecordUpdate, event: UpdateEvent) -> (r: UpdateAction)
        ensures
            match event {
                UpdateEvent::ZoneFound(Some(z)) => r matches UpdateAction::LookUpRecord { zone_id, record_name }
                    && zone_id@ == z.1@ && record_name@ == record_name_text(update.record@, z.0@),
                UpdateEvent::RecordFound(name, existing) => if needs_update(
                    match existing {
                        Some(e) => Some(e@),
                        None => None,
                    },
                    update.record@,
                    update.record_type@,
                    update.proxied,
                ) {
                    r matches UpdateAction::HandOn { record_name } && record_name@ == name@
                } else {
                    r matches UpdateAction::Finish(true)
                },
                _ => r matches UpdateAction::Finish(false),
            },
    {
        match event {
            UpdateEvent::ZoneFound(Some((zone_name, zone_id))) => {
                let record_name = Self::record_name(update.record.as_str(), zone_name.as_str());
                UpdateAction::LookUpRecord { zone_id, record_name }
            },
            UpdateEvent::RecordFound(name, existing) => {
                if Self::record_needs_update(&existing, update.record.as_str(), update.record_type.as_str(), update.proxied) {
                    UpdateAction::HandOn { record_name: name }
                } else {
                    UpdateAction::Finish(true)
                }
            },
            _ => UpdateAction::Finish(false),
        }
    }
}

} // verus!
