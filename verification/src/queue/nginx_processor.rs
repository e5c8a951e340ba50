//! The decisions taken while working through the nginx queue: which messages are
//! due, what each action configures, and what follows each outcome.
use vstd::prelude::*;
use crate::clock::{deadline, now_nanos};
use crate::domain_tracker::DomainTracker;

use crate::nginx::domain::domain_filename;
use crate::nginx::manager::{ConfigFile, NginxManager};
use crate::nginx::templates::{grpc_server_block_text, proxy_server_block_text, redirect_server_block_text};
use crate::nginx::manager::join_path_seq;
use crate::queue::cert_queue::{CertDequeue, CertEnqueue, certificate_request, without_leading};
use crate::queue::generic_queue::GenericQueue;
use crate::queue::models::{CertificateQueueMessage, Host, HostView, NginxQueueMessage, NginxQueueMessageView, opt_view};
use crate::queue::nginx_dequeue::{NginxDequeue, without_pending};
use crate::queue::nginx_enqueue::NginxEnqueue;
use crate::text::{decimal, decimal_string, push_str, str_eq, to_owned_string};

verus! {

/// What taking the next message out of a queue gave.
pub enum Poll<T> {
    /// The queue was empty.
    Idle,
    /// The message at the front was not due yet and went to the back.
    Deferred,
    /// A message that is due.
    Ready(T),
}

/// Whether a message with this deadline waits at time `now`.
pub open spec fn waits(delay_until: Option<i128>, now: i128) -> bool {
    delay_until matches Some(t) && now < t
}

/// What an action name asks for.
#[derive(Clone, Copy, Debug, PartialEq, Eq, Structural)]
pub enum ActionKind {
    Start,
    Die,
    Unknown,
}

pub open spec fn action_kind(action: Seq<char>) -> ActionKind {
    if action == "start"@ {
        ActionKind::Start
    } else if action == "die"@ {
        ActionKind::Die
    } else {
        ActionKind::Unknown
    }
}

/// The address that nginx forwards a host to: `name:port` for gRPC, else
/// `http://name:port`.
pub open spec fn upstream_url_text(name: Seq<char>, host: HostView) -> Seq<char> {
    if host.protocol == "grpc"@ {
        name + ":"@ + decimal(host.port as nat)
    } else {
        "http://"@ + name + ":"@ + decimal(host.port as nat)
    }
}

/// The address of a host as shown to people, with its scheme.
pub open spec fn display_url_text(name: Seq<char>, host: HostView) -> Seq<char> {
    if host.protocol == "grpc"@ {
        "grpc://"@ + name + ":"@ + decimal(host.port as nat)
    } else if host.protocol == "https"@ {
        "https://"@ + name + ":"@ + decimal(host.port as nat)
    } else {
        "http://"@ + name + ":"@ + decimal(host.port as nat)
    }
}

/// The domain a message is about: its host, else the source of its redirect.
pub open spec fn message_domain(m: NginxQueueMessageView) -> Option<Seq<char>> {
    match m.host {
        Some(h) => Some(h.domain),
        None => match m.redirect {
            Some(r) => Some(r.from),
            None => None,
        },
    }
}

/// What happened in the last step of configuring a started container.
pub enum StartEvent {
    ConfigWritten(bool),
    ConfigChecked(bool),
    NginxReloaded(bool),
}

/// What to do next when configuring a started container.
#[derive(Clone, Copy, Debug, PartialEq, Eq, Structural)]
pub enum StartAction {
    /// Check the written configuration (`nginx -t`).
    ValidateConfig,
    /// Reload nginx.
    ReloadNginx,
    /// Remove the configuration just written, which nginx refused.
    RemoveConfig,
    /// Mark the domain active and ask for its certificate where needed.
    Activate,
    /// Nothing more to do.
    Stop,
}

pub open spec fn start_next(event: StartEvent) -> StartAction {
    match event {
        StartEvent::ConfigWritten(ok) => if ok { StartAction::ValidateConfig } else { StartAction::Stop },
        StartEvent::ConfigChecked(ok) => if ok { StartAction::ReloadNginx } else { StartAction::RemoveConfig },
        StartEvent::NginxReloaded(ok) => if ok { StartAction::Activate } else { StartAction::Stop },
    }
}

/// What DNS record to create or update for a message, and with which credentials.
pub struct DnsRecordPlan {
    pub provider: String,
    pub record: String,
    pub target: String,
    pub record_type: String,
    pub proxied: bool,
    pub email: Option<String>,
    pub api_key: Option<String>,
    pub api_token: Option<String>,
}

pub struct DnsRecordPlanView {
    pub provider: Seq<char>,
    pub record: Seq<char>,
    pub target: Seq<char>,
    pub record_type: Seq<char>,
    pub proxied: bool,
    pub email: Option<Seq<char>>,
    pub api_key: Option<Seq<char>>,
    pub api_token: Option<Seq<char>>,
}

impl View for DnsRecordPlan {
    type V = DnsRecordPlanView;

    open spec fn view(&self) -> DnsRecordPlanView {
        DnsRecordPlanView {
            provider: self.provider@,
            record: self.record@,
            target: self.target@,
            record_type: self.record_type@,
            proxied: self.proxied,
            email: opt_view(self.email),
            api_key: opt_view(self.api_key),
            api_token: opt_view(self.api_token),
        }
    }
}

/// An optional value that counts only when it is not empty.
pub open spec fn non_empty(o: Option<Seq<char>>) -> Option<Seq<char>> {
    match o {
        Some(s) => if s.len() > 0 { Some(s) } else { None },
        None => None,
    }
}

pub open spec fn text_or_empty(o: Option<Seq<char>>) -> Seq<char> {
    match o {
        Some(s) => s,
        None => Seq::empty(),
    }
}

/// The DNS record a message asks for: none when DNS is skipped, the provider is not
/// Cloudflare, the message names no domain, or there are neither an email with an
/// API key nor an API token.
pub open spec fn dns_record_plan(m: NginxQueueMessageView) -> Option<DnsRecordPlanView> {
    if m.skip_dns || m.dns_provider != Some("cloudflare"@) {
        None
    } else {
        match message_domain(m) {
            None => None,
            Some(record) => {
                let email = non_empty(m.cloudflare_email);
                let api_key = non_empty(m.cloudflare_api_key);
                let api_token = non_empty(m.cloudflare_api_token);
                if !((email is Some && api_key is Some) || api_token is Some) {
                    None
                } else {
                    Some(DnsRecordPlanView {
                        provider: text_or_empty(m.dns_provider),
                        record,
                        target: text_or_empty(m.dns_record_target),
                        record_type: text_or_empty(m.dns_record_type),
                        proxied: match m.dns_record_proxied {
                            Some(p) => p,
                            None => false,
                        },
                        email,
                        api_key,
                        api_token,
                    })
                }
            },
        }
    }
}

pub open spec fn opt_eq_str(o: Option<Seq<char>>, s: Seq<char>) -> bool {
    o == Some(s)
}

fn is_some_str(o: &Option<String>, s: &str) -> (r: bool)
    ensures
        r == (opt_view(*o) == Some(s@)),
{
    match o {
        Some(x) => str_eq(x.as_str(), s),
        None => false,
    }
}

fn keep_non_empty(o: &Option<String>) -> (r: Option<String>)
    ensures
        opt_view(r) == non_empty(opt_view(*o)),
{
    match o {
        Some(s) => if s.as_str().is_empty() { None } else { Some(s.clone()) },
        None => None,
    }
}

fn unwrap_text(o: &Option<String>) -> (r: String)
    ensures
        r@ == text_or_empty(opt_view(*o)),
{
    match o {
        Some(s) => s.clone(),
        None => String::new(),
    }
}

/// Works through the nginx queue.
/// A DNS record is planned only for a Cloudflare message that does not skip DNS,
/// and then for the message's own domain, with the requested target and type, and
/// proxied exactly when the message asks for it.
pub proof fn law_dns_plan_follows_message(m: NginxQueueMessageView)
    requires
        dns_record_plan(m) is Some,
    ensures
        !m.skip_dns,
        m.dns_provider == Some("cloudflare"@),
        dns_record_plan(m)->0.provider == "cloudflare"@,
        dns_record_plan(m)->0.proxied == (m.dns_record_proxied == Some(true)),
        m.host matches Some(h) ==> dns_record_plan(m)->0.record == h.domain,
        m.host is None ==> (m.redirect matches Some(r) && dns_record_plan(m)->0.record == r.from),
        m.dns_record_target matches Some(t) ==> dns_record_plan(m)->0.target == t,
        m.dns_record_type matches Some(t) ==> dns_record_plan(m)->0.record_type == t,
{
}

pub struct NginxQueueProcessor;

impl NginxQueueProcessor {
    /// Takes the next message at time `now`. A message whose deadline lies ahead
    /// goes back to the queue, queued anew with its delay counted from `now`.
    pub fn next_message_at(queue: &mut GenericQueue<NginxQueueMessage>, now: i128) -> (r: Poll<NginxQueueMessage>)
        ensures
            old(queue)@.len() == 0 ==> r is Idle && final(queue)@ == old(queue)@,
            old(queue)@.len() > 0 && !waits(old(queue)@[0]@.delay_until, now) ==> r == Poll::Ready(old(queue)@[0])
                && final(queue)@ == old(queue)@.drop_first(),
            old(queue)@.len() > 0 && waits(old(queue)@[0]@.delay_until, now) ==> r is Deferred
                && final(queue)@.len() == old(queue)@.len()
                && final(queue)@.drop_last() == old(queue)@.drop_first()
                && final(queue)@.last()@ == (NginxQueueMessageView {
                    created_at: now,
                    delay_seconds: Some(match old(queue)@[0]@.delay_seconds { Some(d) => d, None => 0 }),
                    delay_until: Some(deadline(now, match old(queue)@[0]@.delay_seconds { Some(d) => d, None => 0 })),
                    ..old(queue)@[0]@
                }),
    {
        match queue.dequeue() {
            None => Poll::Idle,
            Some(message) => {
                let wait = match message.delay_until {
                    Some(t) => now < t,
                    None => false,
                };
                if wait {
                    let delay = match message.delay_seconds {
                        Some(d) => d,
                        None => 0,
                    };
                    let skip = message.skip_certification;
                    NginxEnqueue::message_with_delay_at(queue, message, delay, skip, now);
                    Poll::Deferred
                } else {
                    Poll::Ready(message)
                }
            },
        }
    }

    /// Takes the next message as of now (see `next_message_at`).
    pub fn next_message(queue: &mut GenericQueue<NginxQueueMessage>) -> (r: Poll<NginxQueueMessage>)
        ensures
            old(queue)@.len() == 0 ==> r is Idle && final(queue)@ == old(queue)@,
            old(queue)@.len() > 0 && old(queue)@[0]@.delay_until is None ==> r == Poll::Ready(old(queue)@[0])
                && final(queue)@ == old(queue)@.drop_first(),
            r is Ready ==> old(queue)@.len() > 0 && r == Poll::Ready(old(queue)@[0])
                && final(queue)@ == old(queue)@.drop_first(),
            r is Deferred ==> old(queue)@.len() > 0 && final(queue)@.drop_last() == old(queue)@.drop_first(),
    {
        let now = now_nanos();
        Self::next_message_at(queue, now)
    }

    /// What an action name asks for: `start`, `die`, or something unknown.
    pub fn action_kind(action: &str) -> (r: ActionKind)
        ensures
            r == action_kind(action@),
    {
        if str_eq(action, "start") {
            ActionKind::Start
        } else if str_eq(action, "die") {
            ActionKind::Die
        } else {
            ActionKind::Unknown
        }
    }

    /// The address that nginx forwards a host to.
    pub fn upstream_url(name: &str, host: &Host) -> (r: String)
        ensures
            r@ == upstream_url_text(name@, host@),
    {
        let port = decimal_string(host.port as u64);
        let mut s = if str_eq(host.protocol.as_str(), "grpc") {
            to_owned_string(name)
        } else {
            let mut s = to_owned_string("http://");
            push_str(&mut s, name);
            s
        };
        push_str(&mut s, ":");
        push_str(&mut s, port.as_str());
        s
    }

    /// The address of a host as shown to people.
    pub fn display_url(name: &str, host: &Host) -> (r: String)
        ensures
            r@ == display_url_text(name@, host@),
    {
        let port = decimal_string(host.port as u64);
        let mut s = if str_eq(host.protocol.as_str(), "grpc") {
            to_owned_string("grpc://")
        } else if str_eq(host.protocol.as_str(), "https") {
            to_owned_string("https://")
        } else {
            to_owned_string("http://")
        };
        push_str(&mut s, name);
        push_str(&mut s, ":");
        push_str(&mut s, port.as_str());
        s
    }

    /// The configuration file a started container needs: for a host, its proxy (gRPC
    /// or HTTP) configuration; for a redirect, the redirect configuration. TLS is used
    /// when the message asks for it and the certificate files exist.
    pub fn start_config(
        manager: &NginxManager,
        message: &NginxQueueMessage,
        certificates_exist: bool,
        ipv6_enabled: bool,
    ) -> (r: Option<ConfigFile>)
        ensures
            message_domain(message@) is None ==> r is None,
            message@.host matches Some(h) ==> r matches Some(f)
                && f.path@ == join_path_seq(manager.config_path@, domain_filename(h.domain))
                && f.content@ == if h.protocol == "grpc"@ {
                    grpc_server_block_text(h.domain, upstream_url_text(message@.name, h),
                        message.ssl && certificates_exist, manager.webroot_path@, message.ssl_staging,
                        message@.auth, message@.webserver, ipv6_enabled)
                } else {
                    proxy_server_block_text(h.domain, upstream_url_text(message@.name, h),
                        message.ssl && certificates_exist, manager.webroot_path@, message.ssl_staging,
                        message@.auth, message@.webserver, ipv6_enabled)
                },
            message@.host is None ==> (message@.redirect matches Some(x) ==> (r matches Some(f)
                && f.path@ == join_path_seq(manager.config_path@, domain_filename(x.from))
                && f.content@ == redirect_server_block_text(x.from, x.to, message.ssl && certificates_exist,
                    manager.webroot_path@, message.ssl_staging, message@.webserver, ipv6_enabled))),
    {
        let use_ssl = message.ssl && certificates_exist;
        match &message.host {
            Some(host) => {
                let upstream = Self::upstream_url(message.name.as_str(), host);
                Some(manager.container_host_rule_file(host.domain.as_str(), upstream.as_str(), use_ssl,
                    message.ssl_staging, message.auth.clone(), message.webserver.clone(),
                    host.protocol.as_str(), ipv6_enabled))
            },
            None => match &message.redirect {
                Some(red) => Some(manager.redirect_rule_file(red.from.as_str(), red.to.as_str(), use_ssl,
                    message.ssl_staging, message.webserver.clone(), ipv6_enabled)),
                None => None,
            },
        }
    }

    /// What follows a step of configuring a started container: a written
    /// configuration is checked, a valid one is loaded (an invalid one removed), and
    /// a successful reload activates the domain.
    pub fn on_start_event(event: StartEvent) -> (r: StartAction)
        ensures
            r == start_next(event),
    {
        match event {
            StartEvent::ConfigWritten(ok) => if ok { StartAction::ValidateConfig } else { StartAction::Stop },
            StartEvent::ConfigChecked(ok) => if ok { StartAction::ReloadNginx } else { StartAction::RemoveConfig },
            StartEvent::NginxReloaded(ok) => if ok { StartAction::Activate } else { StartAction::Stop },
        }
    }

    /// Marks the domain of a configured message active and, where TLS is wanted and
    /// not already settled, queues its certificate request (made at `now`).
    pub fn activate_at(
        tracker: &mut DomainTracker,
        cert_queue: &mut GenericQueue<CertificateQueueMessage>,
        message: &NginxQueueMessage,
        now: i128,
    ) -> (certificate_requested: bool)
        ensures
            message_domain(message@) is None ==> final(tracker)@ == old(tracker)@ && final(cert_queue)@ == old(
                cert_queue,
            )@ && !certificate_requested,
            message_domain(message@) matches Some(d) ==> {
                &&& final(tracker)@ == old(tracker)@.insert(domain_filename(d), d)
                &&& certificate_requested == (message.ssl && !message.skip_certification)
                &&& certificate_requested ==> final(cert_queue)@.len() == old(cert_queue)@.len() + 1
                    && final(cert_queue)@.drop_last() == old(cert_queue)@
                    && final(cert_queue)@.last()@ == certificate_request(d, message@, now, None)
                &&& !certificate_requested ==> final(cert_queue)@ == old(cert_queue)@
            },
    {
        let domain = match &message.host {
            Some(h) => h.domain.clone(),
            None => match &message.redirect {
                Some(r) => r.from.clone(),
                None => return false,
            },
        };
        tracker.add_domain(domain.clone());
        if message.ssl && !message.skip_certification {
            CertEnqueue::message_at(cert_queue, domain, message.clone(), now);
            true
        } else {
            false
        }
    }

    /// Marks the domain of a configured message active, asking for a certificate as
    /// of now (see `activate_at`).
    pub fn activate(
        tracker: &mut DomainTracker,
        cert_queue: &mut GenericQueue<CertificateQueueMessage>,
        message: &NginxQueueMessage,
    ) -> (certificate_requested: bool)
        ensures
            message_domain(message@) is None ==> final(tracker)@ == old(tracker)@ && final(cert_queue)@ == old(
                cert_queue,
            )@ && !certificate_requested,
            message_domain(message@) matches Some(d) ==> {
                &&& final(tracker)@ == old(tracker)@.insert(domain_filename(d), d)
                &&& certificate_requested == (message.ssl && !message.skip_certification)
                &&& certificate_requested ==> final(cert_queue)@.len() == old(cert_queue)@.len() + 1
                    && final(cert_queue)@.drop_last() == old(cert_queue)@
                    && final(cert_queue)@.last()@ == certificate_request(d, message@,
                        final(cert_queue)@.last()@.created_at, None)
                &&& !certificate_requested ==> final(cert_queue)@ == old(cert_queue)@
            },
    {
        let now = now_nanos();
        Self::activate_at(tracker, cert_queue, message, now)
    }

    /// The DNS record a message asks for (see `dns_record_plan`).
    pub fn process_dns_record(message: &NginxQueueMessage) -> (r: Option<DnsRecordPlan>)
        ensures
            r is Some == dns_record_plan(message@) is Some,
            r matches Some(p) ==> p@ == dns_record_plan(message@)->0,
    {
        if message.skip_dns || !is_some_str(&message.dns_provider, "cloudflare") {
            return None;
        }
        let record = match &message.host {
            Some(h) => h.domain.clone(),
            None => match &message.redirect {
                Some(r) => r.from.clone(),
                None => return None,
            },
        };
        let email = keep_non_empty(&message.cloudflare_email);
        let api_key = keep_non_empty(&message.cloudflare_api_key);
        let api_token = keep_non_empty(&message.cloudflare_api_token);
        if !((email.is_some() && api_key.is_some()) || api_token.is_some()) {
            return None;
        }
        Some(DnsRecordPlan {
            provider: unwrap_text(&message.dns_provider),
            record,
            target: unwrap_text(&message.dns_record_target),
            record_type: unwrap_text(&message.dns_record_type),
            proxied: match message.dns_record_proxied {
                Some(p) => p,
                None => false,
            },
            email,
            api_key,
            api_token,
        })
    }

    /// Handles a stopped container in the queues and the domain list: drops its
    /// pending `die` messages for the domain and the pending certificate requests at
    /// the front of the certificate queue, marks the domain inactive, and gives the
    /// domain whose configuration is to be removed.
    pub fn process_die_action(
        nginx_queue: &mut GenericQueue<NginxQueueMessage>,
        cert_queue: &mut GenericQueue<CertificateQueueMessage>,
        tracker: &mut DomainTracker,
        message: &NginxQueueMessage,
    ) -> (r: Option<String>)
        ensures
            message_domain(message@) is None ==> r is None && final(nginx_queue)@ == old(nginx_queue)@
                && final(cert_queue)@ == old(cert_queue)@ && final(tracker)@ == old(tracker)@,
            message_domain(message@) matches Some(d) ==> {
                &&& r matches Some(x) && x@ == d
                &&& final(nginx_queue)@ == without_pending(old(nginx_queue)@, d, message@.container_id, "die"@)
                &&& final(cert_queue)@ == without_leading(old(cert_queue)@, d)
                &&& final(tracker)@ == old(tracker)@.remove(domain_filename(d))
            },
    {
        let domain = match &message.host {
            Some(h) => h.domain.clone(),
            None => match &message.redirect {
                Some(r) => r.from.clone(),
                None => return None,
            },
        };
        NginxDequeue::clear_pending_messages(nginx_queue, domain.as_str(), message.container_id.as_str());
        CertDequeue::clear_pending_messages(cert_queue, domain.as_str());
        tracker.remove_domain(domain.as_str());
        Some(domain)
    }
}

} // verus!
