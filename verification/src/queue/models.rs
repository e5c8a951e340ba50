//! The messages that travel through the queues.
use vstd::prelude::*;
use crate::models::{Auth, AuthView, Webserver, WebserverView};
use crate::text::views;

verus! {

/// The view of an optional string.
pub open spec fn opt_view(o: Option<String>) -> Option<Seq<char>> {
    match o {
        Some(s) => Some(s@),
        None => None,
    }
}

/// A copy of an optional string.
pub fn clone_opt(o: &Option<String>) -> (r: Option<String>)
    ensures
        opt_view(r) == opt_view(*o),
{
    match o {
        Some(s) => Some(s.clone()),
        None => None,
    }
}

/// A copy of a list of strings.
pub fn clone_strings(v: &Vec<String>) -> (r: Vec<String>)
    ensures
        views(r@) == views(v@),
{
    let mut r: Vec<String> = Vec::new();
    let mut i: usize = 0;
    while i < v.len()
        invariant
            i <= v.len(),
            views(r@) == views(v@).take(i as int),
        decreases v.len() - i,
    {
        let c = v[i].clone();
        assert(c@ == v@[i as int]@);
        let ghost r0 = r@;
        r.push(c);
        assert(r@ == r0.push(c));
        assert(views(r@) =~= views(r0).push(c@));
        assert(views(v@).take(i + 1) =~= views(v@).take(i as int).push(v@[i as int]@));
        i = i + 1;
    }
    assert(views(v@).take(v.len() as int) =~= views(v@));
    r
}

/// A proxied host: the domain served, the container port and the protocol.
#[derive(Debug)]
pub struct Host {
    pub domain: String,
    pub port: u16,
    pub protocol: String,
}

pub struct HostView {
    pub domain: Seq<char>,
    pub port: u16,
    pub protocol: Seq<char>,
}

impl View for Host {
    type V = HostView;

    open spec fn view(&self) -> HostView {
        HostView { domain: self.domain@, port: self.port, protocol: self.protocol@ }
    }
}

impl Clone for Host {
    fn clone(&self) -> (r: Self)
        ensures
            r@ == self@,
    {
        Host { domain: self.domain.clone(), port: self.port, protocol: self.protocol.clone() }
    }
}

/// A redirect from one domain to another.
#[derive(Debug)]
pub struct Redirect {
    pub from: String,
    pub to: String,
}

pub struct RedirectView {
    pub from: Seq<char>,
    pub to: Seq<char>,
}

impl View for Redirect {
    type V = RedirectView;

    open spec fn view(&self) -> RedirectView {
        RedirectView { from: self.from@, to: self.to@ }
    }
}

impl Clone for Redirect {
    fn clone(&self) -> (r: Self)
        ensures
            r@ == self@,
    {
        Redirect { from: self.from.clone(), to: self.to.clone() }
    }
}

pub open spec fn opt_host_view(o: Option<Host>) -> Option<HostView> {
    match o {
        Some(h) => Some(h@),
        None => None,
    }
}

pub open spec fn opt_redirect_view(o: Option<Redirect>) -> Option<RedirectView> {
    match o {
        Some(r) => Some(r@),
        None => None,
    }
}

/// A request to configure (or remove) one host or redirect in nginx. Times are
/// nanoseconds since the Unix epoch.
#[derive(Debug)]
pub struct NginxQueueMessage {
    pub action: String,
    pub container_id: String,
    pub name: String,
    pub image: String,
    pub networks: Vec<String>,
    pub hosting: bool,
    pub ssl: bool,
    pub ssl_email: String,
    pub host: Option<Host>,
    pub redirect: Option<Redirect>,
    pub delay_until: Option<i128>,
    pub created_at: i128,
    pub delay_seconds: Option<u64>,
    pub ssl_staging: bool,
    pub dns_provider: Option<String>,
    pub ssl_dns_provider: Option<String>,
    pub cloudflare_email: Option<String>,
    pub cloudflare_api_key: Option<String>,
    pub cloudflare_api_token: Option<String>,
    pub skip_certification: bool,
    pub skip_dns: bool,
    pub dns_record_type: Option<String>,
    pub dns_record_proxied: Option<bool>,
    pub dns_record_target: Option<String>,
    pub auth: Auth,
    pub webserver: Webserver,
}

pub struct NginxQueueMessageView {
    pub action: Seq<char>,
    pub container_id: Seq<char>,
    pub name: Seq<char>,
    pub image: Seq<char>,
    pub networks: Seq<Seq<char>>,
    pub hosting: bool,
    pub ssl: bool,
    pub ssl_email: Seq<char>,
    pub host: Option<HostView>,
    pub redirect: Option<RedirectView>,
    pub delay_until: Option<i128>,
    pub created_at: i128,
    pub delay_seconds: Option<u64>,
    pub ssl_staging: bool,
    pub dns_provider: Option<Seq<char>>,
    pub ssl_dns_provider: Option<Seq<char>>,
    pub cloudflare_email: Option<Seq<char>>,
    pub cloudflare_api_key: Option<Seq<char>>,
    pub cloudflare_api_token: Option<Seq<char>>,
    pub skip_certification: bool,
    pub skip_dns: bool,
    pub dns_record_type: Option<Seq<char>>,
    pub dns_record_proxied: Option<bool>,
    pub dns_record_target: Option<Seq<char>>,
    pub auth: AuthView,
    pub webserver: WebserverView,
}

impl View for NginxQueueMessage {
    type V = NginxQueueMessageView;

    open spec fn view(&self) -> NginxQueueMessageView {
        NginxQueueMessageView {
            action: self.action@,
            container_id: self.container_id@,
            name: self.name@,
            image: self.image@,
            networks: views(self.networks@),
            hosting: self.hosting,
            ssl: self.ssl,
            ssl_email: self.ssl_email@,
            host: opt_host_view(self.host),
            redirect: opt_redirect_view(self.redirect),
            delay_until: self.delay_until,
            created_at: self.created_at,
            delay_seconds: self.delay_seconds,
            ssl_staging: self.ssl_staging,
            dns_provider: opt_view(self.dns_provider),
            ssl_dns_provider: opt_view(self.ssl_dns_provider),
            cloudflare_email: opt_view(self.cloudflare_email),
            cloudflare_api_key: opt_view(self.cloudflare_api_key),
            cloudflare_api_token: opt_view(self.cloudflare_api_token),
            skip_certification: self.skip_certification,
            skip_dns: self.skip_dns,
            dns_record_type: opt_view(self.dns_record_type),
            dns_record_proxied: self.dns_record_proxied,
            dns_record_target: opt_view(self.dns_record_target),
            auth: self.auth@,
            webserver: self.webserver@,
        }
    }
}

impl Clone for NginxQueueMessage {
    fn clone(&self) -> (r: Self)
        ensures
            r@ == self@,
    {
        NginxQueueMessage {
            action: self.action.clone(),
            container_id: self.container_id.clone(),
            name: self.name.clone(),
            image: self.image.clone(),
            networks: clone_strings(&self.networks),
            hosting: self.hosting,
            ssl: self.ssl,
            ssl_email: self.ssl_email.clone(),
            host: match &self.host {
                Some(h) => Some(h.clone()),
                None => None,
            },
            redirect: match &self.redirect {
                Some(r) => Some(r.clone()),
                None => None,
            },
            delay_until: self.delay_until,
            created_at: self.created_at,
            delay_seconds: self.delay_seconds,
            ssl_staging: self.ssl_staging,
            dns_provider: clone_opt(&self.dns_provider),
            ssl_dns_provider: clone_opt(&self.ssl_dns_provider),
            cloudflare_email: clone_opt(&self.cloudflare_email),
            cloudflare_api_key: clone_opt(&self.cloudflare_api_key),
            cloudflare_api_token: clone_opt(&self.cloudflare_api_token),
            skip_certification: self.skip_certification,
            skip_dns: self.skip_dns,
            dns_record_type: clone_opt(&self.dns_record_type),
            dns_record_proxied: self.dns_record_proxied,
            dns_record_target: clone_opt(&self.dns_record_target),
            auth: self.auth.clone(),
            webserver: self.webserver.clone(),
        }
    }
}

/// A request for a TLS certificate for one domain, carrying the nginx message to
/// replay once the certificate exists. Times are nanoseconds since the Unix epoch.
#[derive(Debug)]
pub struct CertificateQueueMessage {
    pub nginx_queue_message: NginxQueueMessage,
    pub domain: String,
    pub delay_until: Option<i128>,
    pub created_at: i128,
    pub delay_seconds: Option<u64>,
    pub ssl_email: String,
    pub ssl_staging: bool,
    pub ssl_dns_provider: Option<String>,
    pub cloudflare_email: Option<String>,
    pub cloudflare_api_key: Option<String>,
    pub cloudflare_api_token: Option<String>,
}

pub struct CertificateQueueMessageView {
    pub nginx_queue_message: NginxQueueMessageView,
    pub domain: Seq<char>,
    pub delay_until: Option<i128>,
    pub created_at: i128,
    pub delay_seconds: Option<u64>,
    pub ssl_email: Seq<char>,
    pub ssl_staging: bool,
    pub ssl_dns_provider: Option<Seq<char>>,
    pub cloudflare_email: Option<Seq<char>>,
    pub cloudflare_api_key: Option<Seq<char>>,
    pub cloudflare_api_token: Option<Seq<char>>,
}

impl View for CertificateQueueMessage {
    type V = CertificateQueueMessageView;

    open spec fn view(&self) -> CertificateQueueMessageView {
        CertificateQueueMessageView {
            nginx_queue_message: self.nginx_queue_message@,
            domain: self.domain@,
            delay_until: self.delay_until,
            created_at: self.created_at,
            delay_seconds: self.delay_seconds,
            ssl_email: self.ssl_email@,
            ssl_staging: self.ssl_staging,
            ssl_dns_provider: opt_view(self.ssl_dns_provider),
            cloudflare_email: opt_view(self.cloudflare_email),
            cloudflare_api_key: opt_view(self.cloudflare_api_key),
            cloudflare_api_token: opt_view(self.cloudflare_api_token),
        }
    }
}

impl Clone for CertificateQueueMessage {
    fn clone(&self) -> (r: Self)
        ensures
            r@ == self@,
    {
        CertificateQueueMessage {
            nginx_queue_message: self.nginx_queue_message.clone(),
            domain: self.domain.clone(),
            delay_until: self.delay_until,
            created_at: self.created_at,
            delay_seconds: self.delay_seconds,
            ssl_email: self.ssl_email.clone(),
            ssl_staging: self.ssl_staging,
            ssl_dns_provider: clone_opt(&self.ssl_dns_provider),
            cloudflare_email: clone_opt(&self.cloudflare_email),
            cloudflare_api_key: clone_opt(&self.cloudflare_api_key),
            cloudflare_api_token: clone_opt(&self.cloudflare_api_token),
        }
    }
}

/// A container event turned into one host or redirect to configure, without
/// TLS, DNS or authentication settings.
#[derive(Debug)]
pub struct QueueMessage {
    pub action: String,
    pub container_id: String,
    pub name: String,
    pub image: String,
    pub networks: Vec<String>,
    pub hosting: bool,
    pub ssl: bool,
    pub host: Option<Host>,
    pub redirect: Option<Redirect>,
}

pub struct QueueMessageView {
    pub action: Seq<char>,
    pub container_id: Seq<char>,
    pub name: Seq<char>,
    pub image: Seq<char>,
    pub networks: Seq<Seq<char>>,
    pub hosting: bool,
    pub ssl: bool,
    pub host: Option<HostView>,
    pub redirect: Option<RedirectView>,
}

impl View for QueueMessage {
    type V = QueueMessageView;

    open spec fn view(&self) -> QueueMessageView {
        QueueMessageView {
            action: self.action@,
            container_id: self.container_id@,
            name: self.name@,
            image: self.image@,
            networks: views(self.networks@),
            hosting: self.hosting,
            ssl: self.ssl,
            host: opt_host_view(self.host),
            redirect: opt_redirect_view(self.redirect),
        }
    }
}

impl Clone for QueueMessage {
    fn clone(&self) -> (r: Self)
        ensures
            r@ == self@,
    {
        QueueMessage {
            action: self.action.clone(),
            container_id: self.container_id.clone(),
            name: self.name.clone(),
            image: self.image.clone(),
            networks: clone_strings(&self.networks),
            hosting: self.hosting,
            ssl: self.ssl,
            host: match &self.host {
                Some(h) => Some(h.clone()),
                None => None,
            },
            redirect: match &self.redirect {
                Some(r) => Some(r.clone()),
                None => None,
            },
        }
    }
}

} // verus!
