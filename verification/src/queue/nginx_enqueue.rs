//! Turning container events into nginx queue messages.
use vstd::prelude::*;
use crate::clock::{add_delay, deadline, now_nanos};
use crate::label_map::LabelMap;
use crate::models::{Auth, AuthView, Webserver, WebserverView, default_auth, default_webserver};
use crate::queue::generic_queue::GenericQueue;
use crate::queue::models::{Host, HostView, NginxQueueMessage, NginxQueueMessageView, Redirect, RedirectView, clone_strings};
use crate::queue::settings::{CredentialsOutcome, DnsSettings, DnsSettingsView, Env, auth_settings, cloudflare_credentials, dns_settings, flag, flag_setting, optional_text, optional_text_setting, read_auth, read_dns, read_ssl_dns_provider, read_webserver, ssl_dns_provider_setting, validate_cloudflare_credentials, webserver_settings};
use crate::text::{char_is_numeric, contains_char, lowercase_of, parse_u16, parse_u16_seq, split, split_seq, str_eq, to_lowercase, to_owned_string, trim, trim_seq, views};

verus! {

/// The settings shared by all messages of one container event.
pub struct EventSettingsView {
    pub ssl: bool,
    pub ssl_staging: bool,
    pub ssl_email: Seq<char>,
    pub dns: DnsSettingsView,
    pub ssl_dns_provider: Seq<char>,
    pub cloudflare_email: Seq<char>,
    pub cloudflare_api_key: Seq<char>,
    pub cloudflare_api_token: Seq<char>,
    pub auth: AuthView,
    pub webserver: WebserverView,
    pub global_port: Option<u16>,
}

/// The port of the `proxma.port` label, when it parses.
pub open spec fn global_port(labels: Env) -> Option<u16> {
    if labels.contains_key("proxma.port"@) {
        parse_u16_seq(trim_seq(labels["proxma.port"@]))
    } else {
        None
    }
}

/// The settings of a container event, or `None` when the container is skipped: no
/// certificate email, a missing or unknown DNS provider, a missing DNS target, a
/// missing or unknown certificate DNS provider while TLS is on, or missing Cloudflare
/// credentials where Cloudflare is used.
pub open spec fn event_settings(labels: Env, env: Env) -> Option<EventSettingsView> {
    match optional_text_setting(labels, "proxma.ssl.email"@, env, "PROXMA_SSL_EMAIL"@) {
        None => None,
        Some(email) => match dns_settings(labels, env) {
            None => None,
            Some(dns) => {
                let ssl = flag_setting(labels, "proxma.ssl"@, env, "PROXMA_SSL"@, false);
                match ssl_dns_provider_setting(labels, env, ssl) {
                    None => None,
                    Some(sdp) => {
                        let needs = dns.provider == "cloudflare"@ || (ssl && sdp == "cloudflare"@);
                        let creds = if needs {
                            cloudflare_credentials(labels, env)
                        } else {
                            CredentialsOutcome::Valid(Seq::empty(), Seq::empty(), Seq::empty())
                        };
                        match creds {
                            CredentialsOutcome::Valid(e, k, t) => Some(EventSettingsView {
                                ssl,
                                ssl_staging: flag_setting(labels, "proxma.ssl.staging"@, env,
                                    "PROXMA_SSL_STAGING"@, true),
                                ssl_email: email,
                                dns,
                                ssl_dns_provider: sdp,
                                cloudflare_email: e,
                                cloudflare_api_key: k,
                                cloudflare_api_token: t,
                                auth: auth_settings(labels, env),
                                webserver: webserver_settings(labels, env),
                                global_port: global_port(labels),
                            }),
                            _ => None,
                        }
                    },
                }
            },
        },
    }
}

/// The trimmed, non-empty pieces of a list.
pub open spec fn trimmed_nonempty(pieces: Seq<Seq<char>>) -> Seq<Seq<char>>
    decreases pieces.len(),
{
    if pieces.len() == 0 {
        Seq::empty()
    } else {
        let prev = trimmed_nonempty(pieces.drop_last());
        let t = trim_seq(pieces.last());
        if t.len() > 0 { prev.push(t) } else { prev }
    }
}

/// The host entries of a `proxma.hosts` label: its comma-separated, trimmed,
/// non-empty pieces.
pub open spec fn host_entries(hosts: Seq<char>) -> Seq<Seq<char>> {
    trimmed_nonempty(split_seq(hosts, ','))
}

/// The host that an entry names: `domain:port`, `domain:port:protocol` (protocol
/// lowercased) or a bare domain served on the global port; ports must be non-zero.
pub open spec fn parse_host_entry(entry: Seq<char>, global: Option<u16>) -> Option<HostView> {
    if entry.contains(':') {
        let parts = split_seq(entry, ':');
        if parts.len() == 2 {
            match parse_u16_seq(parts[1]) {
                Some(p) => if p > 0 {
                    Some(HostView { domain: parts[0], port: p, protocol: "http"@ })
                } else {
                    None
                },
                None => None,
            }
        } else if parts.len() == 3 {
            match parse_u16_seq(parts[1]) {
                Some(p) => if p > 0 {
                    Some(HostView { domain: parts[0], port: p, protocol: lowercase_of(parts[2]) })
                } else {
                    None
                },
                None => None,
            }
        } else {
            None
        }
    } else {
        match global {
            Some(p) => if p > 0 {
                Some(HostView { domain: entry, port: p, protocol: "http"@ })
            } else {
                None
            },
            None => None,
        }
    }
}

/// Who the messages of a container event are about.
pub struct OriginView {
    pub action: Seq<char>,
    pub container_id: Seq<char>,
    pub name: Seq<char>,
    pub image: Seq<char>,
    pub networks: Seq<Seq<char>>,
}

/// The message that configures `host` (or `redirect`) for a container.
pub open spec fn event_message(o: OriginView, st: EventSettingsView, host: Option<HostView>, redirect: Option<RedirectView>) -> NginxQueueMessageView {
    NginxQueueMessageView {
        action: o.action,
        container_id: o.container_id,
        name: o.name,
        image: o.image,
        networks: o.networks,
        hosting: host is Some,
        ssl: st.ssl,
        ssl_email: st.ssl_email,
        host,
        redirect,
        delay_until: None,
        created_at: 0,
        delay_seconds: None,
        ssl_staging: st.ssl_staging,
        dns_provider: Some(st.dns.provider),
        ssl_dns_provider: Some(st.ssl_dns_provider),
        cloudflare_email: Some(st.cloudflare_email),
        cloudflare_api_key: Some(st.cloudflare_api_key),
        cloudflare_api_token: Some(st.cloudflare_api_token),
        skip_certification: false,
        skip_dns: st.dns.skip_dns,
        dns_record_type: Some(st.dns.record_type),
        dns_record_proxied: Some(st.dns.proxied),
        dns_record_target: Some(st.dns.target),
        auth: if host is Some { st.auth } else { default_auth() },
        webserver: if host is Some { st.webserver } else { default_webserver() },
    }
}

/// One message for every host entry that parses, in order.
pub open spec fn host_messages(o: OriginView, st: EventSettingsView, entries: Seq<Seq<char>>) -> Seq<NginxQueueMessageView>
    decreases entries.len(),
{
    if entries.len() == 0 {
        Seq::empty()
    } else {
        let prev = host_messages(o, st, entries.drop_last());
        match parse_host_entry(entries.last(), st.global_port) {
            Some(h) => prev.push(event_message(o, st, Some(h), None)),
            None => prev,
        }
    }
}

/// The redirects of a `proxma.redirects` label: for each comma-separated piece, the
/// trimmed piece split at `>` (or at `:` when it holds no `>`) into exactly two
/// trimmed parts.
pub open spec fn redirect_pairs(pieces: Seq<Seq<char>>) -> Seq<RedirectView>
    decreases pieces.len(),
{
    if pieces.len() == 0 {
        Seq::empty()
    } else {
        let prev = redirect_pairs(pieces.drop_last());
        let t = trim_seq(pieces.last());
        let parts = if t.contains('>') { split_seq(t, '>') } else { split_seq(t, ':') };
        if parts.len() == 2 {
            prev.push(RedirectView { from: trim_seq(parts[0]), to: trim_seq(parts[1]) })
        } else {
            prev
        }
    }
}

pub open spec fn redirect_messages(o: OriginView, st: EventSettingsView, reds: Seq<RedirectView>) -> Seq<NginxQueueMessageView> {
    reds.map_values(|r: RedirectView| event_message(o, st, None, Some(r)))
}

/// All messages of a container event (with a zero creation time): none unless the
/// container has a `proxma.hosts` label and its settings are complete; else one
/// per host entry, then one per redirect.
pub open spec fn event_messages(o: OriginView, labels: Env, env: Env) -> Seq<NginxQueueMessageView> {
    if !labels.contains_key("proxma.hosts"@) {
        Seq::empty()
    } else {
        match event_settings(labels, env) {
            None => Seq::empty(),
            Some(st) => host_messages(o, st, host_entries(labels["proxma.hosts"@])) + if labels.contains_key(
                "proxma.redirects"@,
            ) {
                redirect_messages(o, st, redirect_pairs(split_seq(labels["proxma.redirects"@], ',')))
            } else {
                Seq::empty()
            },
        }
    }
}

/// Every message built for a host entry is a hosting message carrying the
/// event's web-server settings.
proof fn lemma_host_messages_carry_settings(o: OriginView, st: EventSettingsView, entries: Seq<Seq<char>>, k: int)
    requires
        0 <= k < host_messages(o, st, entries).len(),
    ensures
        host_messages(o, st, entries)[k].host is Some,
        host_messages(o, st, entries)[k].webserver == st.webserver,
    decreases entries.len(),
{
    let prev = host_messages(o, st, entries.drop_last());
    if k < prev.len() {
        lemma_host_messages_carry_settings(o, st, entries.drop_last(), k);
    }
}

/// A non-empty `proxma.webserver.proxy_read_timeout` label that is a valid timeout
/// (a number with an `s` unit, or `0`) sets the read timeout of every host message
/// of the event to its trimmed value, whatever the other labels and the
/// environment hold.
pub proof fn law_read_timeout_label_wins(o: OriginView, labels: Env, env: Env, i: int)
    requires
        labels.contains_key("proxma.webserver.proxy_read_timeout"@),
        ({
            let v = trim_seq(labels["proxma.webserver.proxy_read_timeout"@]);
            v.len() > 0 && ((char_is_numeric(v[0]) && v.last() == 's') || v == "0"@)
        }),
        0 <= i < event_messages(o, labels, env).len(),
        event_messages(o, labels, env)[i].host is Some,
    ensures
        event_messages(o, labels, env)[i].webserver.proxy_read_timeout
            == trim_seq(labels["proxma.webserver.proxy_read_timeout"@]),
{
    let st = event_settings(labels, env)->0;
    let hosts = host_messages(o, st, host_entries(labels["proxma.hosts"@]));
    if i < hosts.len() {
        lemma_host_messages_carry_settings(o, st, host_entries(labels["proxma.hosts"@]), i);
        assert(event_messages(o, labels, env)[i] == hosts[i]);
    } else {
        let reds = redirect_pairs(split_seq(labels["proxma.redirects"@], ','));
        assert(event_messages(o, labels, env)[i] == redirect_messages(o, st, reds)[i - hosts.len()]);
    }
}

pub open spec fn message_views(v: Seq<NginxQueueMessage>) -> Seq<NginxQueueMessageView> {
    v.map_values(|m: NginxQueueMessage| m@)
}

/// `m` as `NginxEnqueue::message` queues it at time `now`.
pub open spec fn stamped(m: NginxQueueMessageView, skip_certification: bool, now: i128) -> NginxQueueMessageView {
    NginxQueueMessageView {
        created_at: now,
        delay_seconds: None,
        delay_until: None,
        skip_certification,
        ..m
    }
}

/// `a` and `b` agree on everything but their creation time.
pub open spec fn same_but_creation(a: NginxQueueMessageView, b: NginxQueueMessageView) -> bool {
    a == NginxQueueMessageView { created_at: a.created_at, ..b }
}

// ---------------------------------------------------------------------------

/// The settings shared by all messages of one container event.
pub struct EventSettings {
    pub ssl: bool,
    pub ssl_staging: bool,
    pub ssl_email: String,
    pub dns: DnsSettings,
    pub ssl_dns_provider: String,
    pub cloudflare_email: String,
    pub cloudflare_api_key: String,
    pub cloudflare_api_token: String,
    pub auth: Auth,
    pub webserver: Webserver,
    pub global_port: Option<u16>,
}

impl View for EventSettings {
    type V = EventSettingsView;

    open spec fn view(&self) -> EventSettingsView {
        EventSettingsView {
            ssl: self.ssl,
            ssl_staging: self.ssl_staging,
            ssl_email: self.ssl_email@,
            dns: self.dns@,
            ssl_dns_provider: self.ssl_dns_provider@,
            cloudflare_email: self.cloudflare_email@,
            cloudflare_api_key: self.cloudflare_api_key@,
            cloudflare_api_token: self.cloudflare_api_token@,
            auth: self.auth@,
            webserver: self.webserver@,
            global_port: self.global_port,
        }
    }
}

/// The port of the `proxma.port` label, when it parses.
pub fn read_global_port(labels: &LabelMap) -> (r: Option<u16>)
    ensures
        r == global_port(labels@),
{
    match labels.get("proxma.port") {
        Some(v) => {
            let t = trim(v.as_str());
            parse_u16(t.as_str())
        },
        None => None,
    }
}

/// The settings of a container event, or `None` when the container is skipped.
pub fn read_event_settings(container_id: &str, labels: &LabelMap, env: &LabelMap) -> (r: Option<EventSettings>)
    ensures
        r is Some == event_settings(labels@, env@) is Some,
        r is Some ==> r->0@ == event_settings(labels@, env@)->0,
{
    let webserver = read_webserver(labels, env);
    let auth = read_auth(labels, env);
    let ssl_email = match optional_text(labels, "proxma.ssl.email", env, "PROXMA_SSL_EMAIL") {
        Some(e) => e,
        None => return None,
    };
    let dns = match read_dns(labels, env) {
        Some(d) => d,
        None => return None,
    };
    let port = read_global_port(labels);
    let ssl_staging = flag(labels, "proxma.ssl.staging", env, "PROXMA_SSL_STAGING", true);
    let ssl = flag(labels, "proxma.ssl", env, "PROXMA_SSL", false);
    let ssl_dns_provider = match read_ssl_dns_provider(labels, env, ssl) {
        Some(p) => p,
        None => return None,
    };
    let needs = str_eq(dns.provider.as_str(), "cloudflare") || (ssl && str_eq(
        ssl_dns_provider.as_str(),
        "cloudflare",
    ));
    let mut cloudflare_email = String::new();
    let mut cloudflare_api_key = String::new();
    let mut cloudflare_api_token = String::new();
    if needs {
        match validate_cloudflare_credentials(container_id, labels, env) {
            Ok((e, k, t)) => {
                cloudflare_email = e;
                cloudflare_api_key = k;
                cloudflare_api_token = t;
            },
            Err(_) => return None,
        }
    }
    Some(EventSettings {
        ssl,
        ssl_staging,
        ssl_email,
        dns,
        ssl_dns_provider,
        cloudflare_email,
        cloudflare_api_key,
        cloudflare_api_token,
        auth,
        webserver,
        global_port: port,
    })
}

/// The trimmed, non-empty comma-separated entries of a `proxma.hosts` label.
pub fn read_host_entries(hosts: &str) -> (r: Vec<String>)
    ensures
        views(r@) == host_entries(hosts@),
{
    let pieces = split(hosts, ',');
    let mut r: Vec<String> = Vec::new();
    let mut i: usize = 0;
    while i < pieces.len()
        invariant
            i <= pieces.len(),
            views(pieces@) == split_seq(hosts@, ','),
            views(r@) == trimmed_nonempty(views(pieces@).take(i as int)),
        decreases pieces.len() - i,
    {
        let t = trim(pieces[i].as_str());
        let ghost r0 = r@;
        assert(views(pieces@).take(i + 1).drop_last() =~= views(pieces@).take(i as int));
        if !t.as_str().is_empty() {
            r.push(t);
            assert(views(r@) =~= views(r0).push(t@));
        }
        i = i + 1;
    }
    assert(views(pieces@).take(pieces.len() as int) =~= views(pieces@));
    r
}

/// The host that an entry of `proxma.hosts` names, if it is well formed.
pub fn parse_host(entry: &str, global: Option<u16>) -> (r: Option<Host>)
    ensures
        r is Some == parse_host_entry(entry@, global) is Some,
        r is Some ==> r->0@ == parse_host_entry(entry@, global)->0,
{
    if contains_char(entry, ':') {
        let parts = split(entry, ':');
        assert(views(parts@).len() == parts.len());
        if parts.len() == 2 {
            assert(views(parts@)[1] == parts@[1]@);
            assert(views(parts@)[0] == parts@[0]@);
            match parse_u16(parts[1].as_str()) {
                Some(p) => if p > 0 {
                    Some(Host { domain: parts[0].clone(), port: p, protocol: to_owned_string("http") })
                } else {
                    None
                },
                None => None,
            }
        } else if parts.len() == 3 {
            assert(views(parts@)[1] == parts@[1]@);
            assert(views(parts@)[0] == parts@[0]@);
            assert(views(parts@)[2] == parts@[2]@);
            let protocol = to_lowercase(parts[2].as_str());
            match parse_u16(parts[1].as_str()) {
                Some(p) => if p > 0 {
                    Some(Host { domain: parts[0].clone(), port: p, protocol })
                } else {
                    None
                },
                None => None,
            }
        } else {
            None
        }
    } else {
        match global {
            Some(p) => if p > 0 {
                Some(Host { domain: to_owned_string(entry), port: p, protocol: to_owned_string("http") })
            } else {
                None
            },
            None => None,
        }
    }
}

/// The redirects of a `proxma.redirects` label.
pub fn read_redirects(value: &str) -> (r: Vec<Redirect>)
    ensures
        r@.map_values(|x: Redirect| x@) == redirect_pairs(split_seq(value@, ',')),
{
    let pieces = split(value, ',');
    let mut r: Vec<Redirect> = Vec::new();
    let mut i: usize = 0;
    while i < pieces.len()
        invariant
            i <= pieces.len(),
            views(pieces@) == split_seq(value@, ','),
            r@.map_values(|x: Redirect| x@) == redirect_pairs(views(pieces@).take(i as int)),
        decreases pieces.len() - i,
    {
        let t = trim(pieces[i].as_str());
        let parts = if contains_char(t.as_str(), '>') {
            split(t.as_str(), '>')
        } else {
            split(t.as_str(), ':')
        };
        let ghost r0 = r@;
        assert(views(pieces@).take(i + 1).drop_last() =~= views(pieces@).take(i as int));
        assert(views(parts@).len() == parts.len());
        if parts.len() == 2 {
            assert(views(parts@)[1] == parts@[1]@);
            assert(views(parts@)[0] == parts@[0]@);
            let red = Redirect { from: trim(parts[0].as_str()), to: trim(parts[1].as_str()) };
            r.push(red);
            assert(r@.map_values(|x: Redirect| x@) =~= r0.map_values(|x: Redirect| x@).push(red@));
        }
        i = i + 1;
    }
    assert(views(pieces@).take(pieces.len() as int) =~= views(pieces@));
    r
}

/// The message for one host (or redirect) of a container event.
pub fn build_message(
    action: &String,
    container_id: &String,
    name: &String,
    image: &String,
    networks: &Vec<String>,
    st: &EventSettings,
    host: Option<Host>,
    redirect: Option<Redirect>,
) -> (r: NginxQueueMessage)
    ensures
        r@ == event_message(
            OriginView {
                action: action@,
                container_id: container_id@,
                name: name@,
                image: image@,
                networks: views(networks@),
            },
            st@,
            match host { Some(h) => Some(h@), None => None },
            match redirect { Some(x) => Some(x@), None => None },
        ),
{
    let hosting = host.is_some();
    NginxQueueMessage {
        action: action.clone(),
        container_id: container_id.clone(),
        name: name.clone(),
        image: image.clone(),
        networks: clone_strings(networks),
        hosting,
        ssl: st.ssl,
        ssl_email: st.ssl_email.clone(),
        host,
        redirect,
        delay_until: None,
        created_at: 0,
        delay_seconds: None,
        ssl_staging: st.ssl_staging,
        dns_provider: Some(st.dns.provider.clone()),
        ssl_dns_provider: Some(st.ssl_dns_provider.clone()),
        cloudflare_email: Some(st.cloudflare_email.clone()),
        cloudflare_api_key: Some(st.cloudflare_api_key.clone()),
        cloudflare_api_token: Some(st.cloudflare_api_token.clone()),
        skip_certification: false,
        skip_dns: st.dns.skip_dns,
        dns_record_type: Some(st.dns.record_type.clone()),
        dns_record_proxied: Some(st.dns.proxied),
        dns_record_target: Some(st.dns.target.clone()),
        auth: if hosting { st.auth.clone() } else { Auth::default() },
        webserver: if hosting { st.webserver.clone() } else { Webserver::default() },
    }
}

/// All messages of a container event, with a zero creation time.
pub fn plan_container_event(
    action: &String,
    container_id: &String,
    name: &String,
    image: &String,
    networks: &Vec<String>,
    labels: &LabelMap,
    env: &LabelMap,
) -> (r: Vec<NginxQueueMessage>)
    ensures
        message_views(r@) == event_messages(
            OriginView {
                action: action@,
                container_id: container_id@,
                name: name@,
                image: image@,
                networks: views(networks@),
            },
            labels@,
            env@,
        ),
{
    let ghost o = OriginView {
        action: action@,
        container_id: container_id@,
        name: name@,
        image: image@,
        networks: views(networks@),
    };
    let mut out: Vec<NginxQueueMessage> = Vec::new();
    let hosts = match labels.get("proxma.hosts") {
        Some(h) => h,
        None => {
            assert(message_views(out@) =~= Seq::empty());
            return out;
        },
    };
    let st = match read_event_settings(container_id.as_str(), labels, env) {
        Some(st) => st,
        None => {
            assert(message_views(out@) =~= Seq::empty());
            return out;
        },
    };
    let entries = read_host_entries(hosts.as_str());
    let mut i: usize = 0;
    assert(views(entries@).take(0) =~= Seq::<Seq<char>>::empty());
    assert(message_views(out@) =~= Seq::empty());
    while i < entries.len()
        invariant
            i <= entries.len(),
            views(entries@) == host_entries(hosts@),
            message_views(out@) == host_messages(o, st@, views(entries@).take(i as int)),
            o == (OriginView {
                action: action@,
                container_id: container_id@,
                name: name@,
                image: image@,
                networks: views(networks@),
            }),
        decreases entries.len() - i,
    {
        assert(views(entries@).take(i + 1).drop_last() =~= views(entries@).take(i as int));
        assert(views(entries@)[i as int] == entries@[i as int]@);
        let ghost out0 = out@;
        match parse_host(entries[i].as_str(), st.global_port) {
            Some(h) => {
                let m = build_message(action, container_id, name, image, networks, &st, Some(h), None);
                out.push(m);
                assert(message_views(out@) =~= message_views(out0).push(m@));
            },
            None => {},
        }
        i = i + 1;
    }
    assert(views(entries@).take(entries.len() as int) =~= views(entries@));
    let ghost host_part = message_views(out@);
    match labels.get("proxma.redirects") {
        Some(value) => {
            let reds = read_redirects(value.as_str());
            let ghost rv = reds@.map_values(|x: Redirect| x@);
            let mut j: usize = 0;
            while j < reds.len()
                invariant
                    j <= reds.len(),
                    rv == reds@.map_values(|x: Redirect| x@),
                    message_views(out@) == host_part + redirect_messages(o, st@, rv.take(j as int)),
                    o == (OriginView {
                        action: action@,
                        container_id: container_id@,
                        name: name@,
                        image: image@,
                        networks: views(networks@),
                    }),
                decreases reds.len() - j,
            {
                let red = reds[j].clone();
                assert(red@ == rv[j as int]);
                let m = build_message(action, container_id, name, image, networks, &st, None, Some(red));
                let ghost out0 = out@;
                out.push(m);
                assert(redirect_messages(o, st@, rv.take(j + 1)) =~= redirect_messages(o, st@, rv.take(j as int)).push(m@));
                assert(message_views(out@) =~= message_views(out0).push(m@));
                j = j + 1;
            }
            assert(rv.take(reds.len() as int) =~= rv);
        },
        None => {
            assert(message_views(out@) =~= host_part + Seq::empty());
        },
    }
    out
}

/// Adds messages to the nginx queue.
pub struct NginxEnqueue;

impl NginxEnqueue {
    /// Queues `message` as created at `now`, with no delay.
    pub fn message_at(queue: &mut GenericQueue<NginxQueueMessage>, message: NginxQueueMessage, skip_certification: bool, now: i128)
        ensures
            final(queue)@.len() == old(queue)@.len() + 1,
            final(queue)@.drop_last() == old(queue)@,
            final(queue)@.last()@ == stamped(message@, skip_certification, now),
    {
        let mut message = message;
        message.created_at = now;
        message.delay_seconds = None;
        message.delay_until = None;
        message.skip_certification = skip_certification;
        queue.enqueue(message);
        assert(final(queue)@.drop_last() =~= old(queue)@);
    }

    /// Queues `message` as created now, with no delay.
    pub fn message(queue: &mut GenericQueue<NginxQueueMessage>, message: NginxQueueMessage, skip_certification: bool)
        ensures
            final(queue)@.len() == old(queue)@.len() + 1,
            final(queue)@.drop_last() == old(queue)@,
            same_but_creation(final(queue)@.last()@, stamped(message@, skip_certification, 0)),
    {
        let now = now_nanos();
        Self::message_at(queue, message, skip_certification, now);
    }

    /// Queues `message` as created at `now`, not to be handled before
    /// `delay_seconds` have passed.
    pub fn message_with_delay_at(
        queue: &mut GenericQueue<NginxQueueMessage>,
        message: NginxQueueMessage,
        delay_seconds: u64,
        skip_certification: bool,
        now: i128,
    )
        ensures
            final(queue)@.len() == old(queue)@.len() + 1,
            final(queue)@.drop_last() == old(queue)@,
            final(queue)@.last()@ == (NginxQueueMessageView {
                created_at: now,
                delay_seconds: Some(delay_seconds),
                delay_until: Some(deadline(now, delay_seconds)),
                skip_certification,
                ..message@
            }),
    {
        let mut message = message;
        message.created_at = now;
        message.delay_seconds = Some(delay_seconds);
        message.delay_until = Some(add_delay(now, delay_seconds));
        message.skip_certification = skip_certification;
        queue.enqueue(message);
        assert(final(queue)@.drop_last() =~= old(queue)@);
    }

    /// Queues `message` as created now, not to be handled before `delay_seconds`
    /// have passed.
    pub fn message_with_delay(
        queue: &mut GenericQueue<NginxQueueMessage>,
        message: NginxQueueMessage,
        delay_seconds: u64,
        skip_certification: bool,
    )
        ensures
            final(queue)@.len() == old(queue)@.len() + 1,
            final(queue)@.drop_last() == old(queue)@,
            final(queue)@.last()@ == (NginxQueueMessageView {
                created_at: final(queue)@.last()@.created_at,
                delay_seconds: Some(delay_seconds),
                delay_until: Some(deadline(final(queue)@.last()@.created_at, delay_seconds)),
                skip_certification,
                ..message@
            }),
    {
        let now = now_nanos();
        Self::message_with_delay_at(queue, message, delay_seconds, skip_certification, now);
    }

    /// The number of queued nginx messages.
    pub fn size(queue: &GenericQueue<NginxQueueMessage>) -> (r: usize)
        ensures
            r == queue@.len(),
    {
        queue.size()
    }

    /// Whether a container asks to be proxied: it has a `proxma.hosts` label.
    pub fn should_process_container(labels: &LabelMap) -> (r: bool)
        ensures
            r == labels@.contains_key("proxma.hosts"@),
    {
        labels.contains_key("proxma.hosts")
    }

    /// Queues, as created now, one message per host entry and then one per redirect
    /// of a container event (see `event_messages`).
    pub fn process_container_event(
        queue: &mut GenericQueue<NginxQueueMessage>,
        action: String,
        container_id: String,
        name: String,
        image: String,
        networks: Vec<String>,
        labels: &LabelMap,
        env: &LabelMap,
    )
        ensures
            ({
                let planned = event_messages(
                    OriginView {
                        action: action@,
                        container_id: container_id@,
                        name: name@,
                        image: image@,
                        networks: views(networks@),
                    },
                    labels@,
                    env@,
                );
                &&& final(queue)@.len() == old(queue)@.len() + planned.len()
                &&& final(queue)@.take(old(queue)@.len() as int) == old(queue)@
                &&& forall|i: int| 0 <= i < planned.len() ==> same_but_creation(
                    #[trigger] final(queue)@[old(queue)@.len() + i]@,
                    stamped(planned[i], false, 0),
                )
            }),
    {
        let planned = plan_container_event(&action, &container_id, &name, &image, &networks, labels, env);
        let ghost pv = message_views(planned@);
        let ghost q0 = queue@;
        let mut i: usize = 0;
        assert(queue@.take(q0.len() as int) =~= q0);
        while i < planned.len()
            invariant
                i <= planned.len(),
                pv == message_views(planned@),
                queue@.len() == q0.len() + i,
                queue@.take(q0.len() as int) == q0,
                forall|k: int| 0 <= k < i ==> same_but_creation(#[trigger] queue@[q0.len() + k]@, stamped(pv[k], false, 0)),
            decreases planned.len() - i,
        {
            let m = planned[i].clone();
            let ghost qb = queue@;
            Self::message(queue, m, false);
            assert(queue@.take(q0.len() as int) =~= qb.take(q0.len() as int));
            assert forall|k: int| 0 <= k < i + 1 implies same_but_creation(#[trigger] queue@[q0.len() + k]@, stamped(pv[k], false, 0)) by {
                if k < i {
                    assert(queue@[q0.len() + k] == qb[q0.len() + k]);
                } else {
                    assert(pv[k] == planned@[k]@);
                }
            }
            i = i + 1;
        }
    }
}

} // verus!
