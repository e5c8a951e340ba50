//! Reading a container's proxy settings from its labels, falling back on the
//! process environment.
use vstd::prelude::*;
use crate::label_map::LabelMap;
use crate::models::{Auth, AuthType, AuthView, Webserver, WebserverView, default_auth, default_webserver};
use crate::text::{char_is_numeric, chars_of, is_numeric, lowercase_of, push_str, str_eq, to_lowercase, to_owned_string, trim, trim_seq};

verus! {

pub type Env = Map<Seq<char>, Seq<char>>;

/// The trimmed value of a label, or the empty string when the label is absent.
pub open spec fn label_or_empty(labels: Env, key: Seq<char>) -> Seq<char> {
    if labels.contains_key(key) {
        trim_seq(labels[key])
    } else {
        Seq::empty()
    }
}

/// Whether a setting reads `true`, ignoring case and surrounding whitespace.
pub open spec fn is_true_value(v: Seq<char>) -> bool {
    lowercase_of(trim_seq(v)) == "true"@
}

/// A yes/no setting: the label when present, else the environment variable when
/// present, else `default`.
pub open spec fn flag_setting(labels: Env, key: Seq<char>, env: Env, var: Seq<char>, default: bool) -> bool {
    if labels.contains_key(key) {
        is_true_value(labels[key])
    } else if env.contains_key(var) {
        is_true_value(env[var])
    } else {
        default
    }
}

/// A text setting: the trimmed label when it is not empty, else the trimmed
/// environment variable when present, else nothing.
pub open spec fn optional_text_setting(labels: Env, key: Seq<char>, env: Env, var: Seq<char>) -> Option<Seq<char>> {
    let l = label_or_empty(labels, key);
    if l.len() > 0 {
        Some(l)
    } else if env.contains_key(var) {
        Some(trim_seq(env[var]))
    } else {
        None
    }
}

/// A text setting that is empty where neither label nor variable gives one.
pub open spec fn text_setting(labels: Env, key: Seq<char>, env: Env, var: Seq<char>) -> Seq<char> {
    match optional_text_setting(labels, key, env, var) {
        Some(v) => v,
        None => Seq::empty(),
    }
}

/// A request body limit is a number with an `m`, `k` or `g` suffix, or `0`.
pub open spec fn valid_body_size(v: Seq<char>) -> bool {
    v.len() > 0 && ((char_is_numeric(v[0]) && (v.last() == 'm' || v.last() == 'k' || v.last() == 'g'))
        || v == "0"@)
}

/// A timeout is a number with an `s` suffix, or `0`.
pub open spec fn valid_timeout(v: Seq<char>) -> bool {
    v.len() > 0 && ((char_is_numeric(v[0]) && v.last() == 's') || v == "0"@)
}

pub open spec fn valid_limit(v: Seq<char>, body: bool) -> bool {
    if body { valid_body_size(v) } else { valid_timeout(v) }
}

/// A web-server limit: the label when it is not empty and valid; else, when the
/// label is empty, the trimmed variable when present and valid; else `default`.
pub open spec fn limit_setting(labels: Env, key: Seq<char>, env: Env, var: Seq<char>, body: bool, default: Seq<char>) -> Seq<char> {
    let l = label_or_empty(labels, key);
    if l.len() > 0 {
        if valid_limit(l, body) { l } else { default }
    } else if env.contains_key(var) {
        let e = trim_seq(env[var]);
        if valid_limit(e, body) { e } else { default }
    } else {
        default
    }
}

/// The web-server settings of a container.
pub open spec fn webserver_settings(labels: Env, env: Env) -> WebserverView {
    let d = default_webserver();
    WebserverView {
        client_max_body_size: limit_setting(labels, "proxma.webserver.client_max_body_size"@, env,
            "PROXMA_WEBSERVER_CLIENT_MAX_BODY_SIZE"@, true, d.client_max_body_size),
        client_body_timeout: limit_setting(labels, "proxma.webserver.client_body_timeout"@, env,
            "PROXMA_WEBSERVER_CLIENT_BODY_TIMEOUT"@, false, d.client_body_timeout),
        client_header_timeout: limit_setting(labels, "proxma.webserver.client_header_timeout"@, env,
            "PROXMA_WEBSERVER_CLIENT_HEADER_TIMEOUT"@, false, d.client_header_timeout),
        send_timeout: limit_setting(labels, "proxma.webserver.send_timeout"@, env,
            "PROXMA_WEBSERVER_SEND_TIMEOUT"@, false, d.send_timeout),
        keepalive_timeout: limit_setting(labels, "proxma.webserver.keepalive_timeout"@, env,
            "PROXMA_WEBSERVER_KEEPALIVE_TIMEOUT"@, false, d.keepalive_timeout),
        proxy_connect_timeout: limit_setting(labels, "proxma.webserver.proxy_connect_timeout"@, env,
            "PROXMA_WEBSERVER_PROXY_CONNECT_TIMEOUT"@, false, d.proxy_connect_timeout),
        proxy_send_timeout: limit_setting(labels, "proxma.webserver.proxy_send_timeout"@, env,
            "PROXMA_WEBSERVER_PROXY_SEND_TIMEOUT"@, false, d.proxy_send_timeout),
        proxy_read_timeout: limit_setting(labels, "proxma.webserver.proxy_read_timeout"@, env,
            "PROXMA_WEBSERVER_PROXY_READ_TIMEOUT"@, false, d.proxy_read_timeout),
    }
}

/// The authentication settings of a container: the defaults unless `proxma.auth`
/// (or `PROXMA_AUTH`) is true; then realm, username and password from labels or
/// environment, and authentication stays on only when both username and password
/// are given.
pub open spec fn auth_settings(labels: Env, env: Env) -> AuthView {
    if !flag_setting(labels, "proxma.auth"@, env, "PROXMA_AUTH"@, false) {
        default_auth()
    } else {
        let realm = text_setting(labels, "proxma.auth.realm"@, env, "PROXMA_AUTH_REALM"@);
        let username = text_setting(labels, "proxma.auth.username"@, env, "PROXMA_AUTH_USERNAME"@);
        let password = text_setting(labels, "proxma.auth.password"@, env, "PROXMA_AUTH_PASSWORD"@);
        AuthView {
            enabled: username.len() > 0 && password.len() > 0,
            auth_type: AuthType::Basic,
            realm,
            username,
            password,
            token: Seq::empty(),
        }
    }
}

/// Whether a DNS provider name is one that is supported.
pub open spec fn known_dns_provider(p: Seq<char>) -> bool {
    p == "cloudflare"@ || p == "route53"@
}

pub struct DnsSettingsView {
    pub provider: Seq<char>,
    pub target: Seq<char>,
    pub record_type: Seq<char>,
    pub proxied: bool,
    pub skip_dns: bool,
}

/// The DNS settings of a container, or `None` when the container must be skipped.
/// A provider given by label is taken as it is and DNS records are skipped; a
/// provider given by `PROXMA_DNS_PROVIDER` must be known (after lowercasing) and
/// needs a target; the record type defaults to `CNAME`.
pub open spec fn dns_settings(labels: Env, env: Env) -> Option<DnsSettingsView> {
    let l = label_or_empty(labels, "proxma.dns.provider"@);
    if l.len() > 0 {
        Some(DnsSettingsView { provider: l, target: Seq::empty(), record_type: Seq::empty(), proxied: false, skip_dns: true })
    } else if !env.contains_key("PROXMA_DNS_PROVIDER"@) {
        None
    } else {
        let p = lowercase_of(trim_seq(env["PROXMA_DNS_PROVIDER"@]));
        if !known_dns_provider(p) {
            None
        } else {
            match optional_text_setting(labels, "proxma.dns.target"@, env, "PROXMA_DNS_TARGET"@) {
                None => None,
                Some(target) => Some(DnsSettingsView {
                    provider: p,
                    target,
                    record_type: match optional_text_setting(labels, "proxma.dns.type"@, env, "PROXMA_DNS_TYPE"@) {
                        Some(t) => t,
                        None => "CNAME"@,
                    },
                    proxied: flag_setting(labels, "proxma.dns.proxied"@, env, "PROXMA_DNS_PROXIED"@, false),
                    skip_dns: false,
                }),
            }
        }
    }
}

/// The DNS provider used for certificate challenges, or `None` when the container
/// must be skipped; empty when TLS is off.
pub open spec fn ssl_dns_provider_setting(labels: Env, env: Env, ssl: bool) -> Option<Seq<char>> {
    if !ssl {
        Some(Seq::empty())
    } else {
        let l = label_or_empty(labels, "proxma.ssl.dns.provider"@);
        if l.len() > 0 {
            Some(l)
        } else if !env.contains_key("PROXMA_SSL_DNS_PROVIDER"@) {
            None
        } else {
            let p = lowercase_of(trim_seq(env["PROXMA_SSL_DNS_PROVIDER"@]));
            if known_dns_provider(p) { Some(p) } else { None }
        }
    }
}

pub enum CredentialsOutcome {
    Valid(Seq<char>, Seq<char>, Seq<char>),
    EmailRequired,
    Missing,
}

/// The Cloudflare credentials of a container as (email, API key, API token). A
/// token is preferred; without one, a global API key is looked for and then needs an
/// email.
pub open spec fn cloudflare_credentials(labels: Env, env: Env) -> CredentialsOutcome {
    let email0 = label_or_empty(labels, "proxma.cloudflare.email"@);
    let key0 = label_or_empty(labels, "proxma.cloudflare.api_key"@);
    let token0 = label_or_empty(labels, "proxma.cloudflare.api_token"@);
    let token = if token0.len() == 0 && env.contains_key("PROXMA_CLOUDFLARE_API_TOKEN"@) {
        trim_seq(env["PROXMA_CLOUDFLARE_API_TOKEN"@])
    } else {
        token0
    };
    if token.len() > 0 {
        CredentialsOutcome::Valid(email0, key0, token)
    } else {
        let key = if key0.len() == 0 && env.contains_key("PROXMA_CLOUDFLARE_API_KEY"@) {
            trim_seq(env["PROXMA_CLOUDFLARE_API_KEY"@])
        } else {
            key0
        };
        if key.len() == 0 {
            CredentialsOutcome::Missing
        } else {
            let email = if email0.len() == 0 && env.contains_key("PROXMA_CLOUDFLARE_EMAIL"@) {
                trim_seq(env["PROXMA_CLOUDFLARE_EMAIL"@])
            } else {
                email0
            };
            if email.len() == 0 {
                CredentialsOutcome::EmailRequired
            } else {
                CredentialsOutcome::Valid(email, key, token)
            }
        }
    }
}

// ---------------------------------------------------------------------------

/// The trimmed value of a label, or the empty string when it is absent.
pub fn label_value(labels: &LabelMap, key: &str) -> (r: String)
    ensures
        r@ == label_or_empty(labels@, key@),
{
    match labels.get(key) {
        Some(v) => trim(v.as_str()),
        None => String::new(),
    }
}

/// Whether a value reads `true`, ignoring case and surrounding whitespace.
pub fn is_true(v: &str) -> (r: bool)
    ensures
        r == is_true_value(v@),
{
    let t = trim(v);
    let l = to_lowercase(t.as_str());
    str_eq(l.as_str(), "true")
}

/// A yes/no setting from a label, else an environment variable, else `default`.
pub fn flag(labels: &LabelMap, key: &str, env: &LabelMap, var: &str, default: bool) -> (r: bool)
    ensures
        r == flag_setting(labels@, key@, env@, var@, default),
{
    match labels.get(key) {
        Some(v) => is_true(v.as_str()),
        None => match env.get(var) {
            Some(v) => is_true(v.as_str()),
            None => default,
        },
    }
}

/// A text setting from a non-empty label, else an environment variable.
pub fn optional_text(labels: &LabelMap, key: &str, env: &LabelMap, var: &str) -> (r: Option<String>)
    ensures
        r is Some == optional_text_setting(labels@, key@, env@, var@) is Some,
        r is Some ==> r->0@ == optional_text_setting(labels@, key@, env@, var@)->0,
{
    let l = label_value(labels, key);
    if !l.as_str().is_empty() {
        Some(l)
    } else {
        match env.get(var) {
            Some(v) => Some(trim(v.as_str())),
            None => None,
        }
    }
}

/// A text setting, empty where neither label nor variable gives one.
pub fn text(labels: &LabelMap, key: &str, env: &LabelMap, var: &str) -> (r: String)
    ensures
        r@ == text_setting(labels@, key@, env@, var@),
{
    match optional_text(labels, key, env, var) {
        Some(v) => v,
        None => String::new(),
    }
}

/// Whether a value is a valid request body limit.
pub fn is_valid_body_size(v: &str) -> (r: bool)
    ensures
        r == valid_body_size(v@),
{
    let c = chars_of(v);
    if c.len() == 0 {
        return false;
    }
    let last = c[c.len() - 1];
    (is_numeric(c[0]) && (last == 'm' || last == 'k' || last == 'g')) || str_eq(v, "0")
}

/// Whether a value is a valid timeout.
pub fn is_valid_timeout(v: &str) -> (r: bool)
    ensures
        r == valid_timeout(v@),
{
    let c = chars_of(v);
    if c.len() == 0 {
        return false;
    }
    let last = c[c.len() - 1];
    (is_numeric(c[0]) && last == 's') || str_eq(v, "0")
}

fn is_valid_limit(v: &str, body: bool) -> (r: bool)
    ensures
        r == valid_limit(v@, body),
{
    if body { is_valid_body_size(v) } else { is_valid_timeout(v) }
}

/// A web-server limit from a label, else an environment variable, when valid.
pub fn limit(labels: &LabelMap, key: &str, env: &LabelMap, var: &str, body: bool, default: String) -> (r: String)
    ensures
        r@ == limit_setting(labels@, key@, env@, var@, body, default@),
{
    let l = label_value(labels, key);
    if !l.as_str().is_empty() {
        if is_valid_limit(l.as_str(), body) { l } else { default }
    } else {
        match env.get(var) {
            Some(v) => {
                let e = trim(v.as_str());
                if is_valid_limit(e.as_str(), body) { e } else { default }
            },
            None => default,
        }
    }
}

/// The web-server settings of a container.
pub fn read_webserver(labels: &LabelMap, env: &LabelMap) -> (r: Webserver)
    ensures
        r@ == webserver_settings(labels@, env@),
{
    let d = Webserver::default();
    Webserver {
        client_max_body_size: limit(labels, "proxma.webserver.client_max_body_size", env,
            "PROXMA_WEBSERVER_CLIENT_MAX_BODY_SIZE", true, d.client_max_body_size),
        client_body_timeout: limit(labels, "proxma.webserver.client_body_timeout", env,
            "PROXMA_WEBSERVER_CLIENT_BODY_TIMEOUT", false, d.client_body_timeout),
        client_header_timeout: limit(labels, "proxma.webserver.client_header_timeout", env,
            "PROXMA_WEBSERVER_CLIENT_HEADER_TIMEOUT", false, d.client_header_timeout),
        send_timeout: limit(labels, "proxma.webserver.send_timeout", env,
            "PROXMA_WEBSERVER_SEND_TIMEOUT", false, d.send_timeout),
        keepalive_timeout: limit(labels, "proxma.webserver.keepalive_timeout", env,
            "PROXMA_WEBSERVER_KEEPALIVE_TIMEOUT", false, d.keepalive_timeout),
        proxy_connect_timeout: limit(labels, "proxma.webserver.proxy_connect_timeout", env,
            "PROXMA_WEBSERVER_PROXY_CONNECT_TIMEOUT", false, d.proxy_connect_timeout),
        proxy_send_timeout: limit(labels, "proxma.webserver.proxy_send_timeout", env,
            "PROXMA_WEBSERVER_PROXY_SEND_TIMEOUT", false, d.proxy_send_timeout),
        proxy_read_timeout: limit(labels, "proxma.webserver.proxy_read_timeout", env,
            "PROXMA_WEBSERVER_PROXY_READ_TIMEOUT", false, d.proxy_read_timeout),
    }
}

/// The authentication settings of a container.
pub fn read_auth(labels: &LabelMap, env: &LabelMap) -> (r: Auth)
    ensures
        r@ == auth_settings(labels@, env@),
{
    let mut auth = Auth::default();
    if flag(labels, "proxma.auth", env, "PROXMA_AUTH", false) {
        auth.realm = text(labels, "proxma.auth.realm", env, "PROXMA_AUTH_REALM");
        auth.username = text(labels, "proxma.auth.username", env, "PROXMA_AUTH_USERNAME");
        auth.password = text(labels, "proxma.auth.password", env, "PROXMA_AUTH_PASSWORD");
        auth.enabled = !(auth.username.as_str().is_empty() || auth.password.as_str().is_empty());
    }
    auth
}

/// The DNS settings of a container.
pub struct DnsSettings {
    pub provider: String,
    pub target: String,
    pub record_type: String,
    pub proxied: bool,
    pub skip_dns: bool,
}

impl View for DnsSettings {
    type V = DnsSettingsView;

    open spec fn view(&self) -> DnsSettingsView {
        DnsSettingsView {
            provider: self.provider@,
            target: self.target@,
            record_type: self.record_type@,
            proxied: self.proxied,
            skip_dns: self.skip_dns,
        }
    }
}

/// Whether a provider name is supported.
pub fn is_known_dns_provider(p: &str) -> (r: bool)
    ensures
        r == known_dns_provider(p@),
{
    str_eq(p, "cloudflare") || str_eq(p, "route53")
}

/// The DNS settings of a container, or `None` when it must be skipped.
pub fn read_dns(labels: &LabelMap, env: &LabelMap) -> (r: Option<DnsSettings>)
    ensures
        r is Some == dns_settings(labels@, env@) is Some,
        r is Some ==> r->0@ == dns_settings(labels@, env@)->0,
{
    let l = label_value(labels, "proxma.dns.provider");
    if !l.as_str().is_empty() {
        return Some(DnsSettings {
            provider: l,
            target: String::new(),
            record_type: String::new(),
            proxied: false,
            skip_dns: true,
        });
    }
    let raw = match env.get("PROXMA_DNS_PROVIDER") {
        Some(v) => v,
        None => return None,
    };
    let t = trim(raw.as_str());
    let p = to_lowercase(t.as_str());
    if !is_known_dns_provider(p.as_str()) {
        return None;
    }
    let target = match optional_text(labels, "proxma.dns.target", env, "PROXMA_DNS_TARGET") {
        Some(t) => t,
        None => return None,
    };
    let record_type = match optional_text(labels, "proxma.dns.type", env, "PROXMA_DNS_TYPE") {
        Some(t) => t,
        None => to_owned_string("CNAME"),
    };
    let proxied = flag(labels, "proxma.dns.proxied", env, "PROXMA_DNS_PROXIED", false);
    Some(DnsSettings { provider: p, target, record_type, proxied, skip_dns: false })
}

/// The DNS provider for certificate challenges, or `None` when the container must be
/// skipped.
pub fn read_ssl_dns_provider(labels: &LabelMap, env: &LabelMap, ssl: bool) -> (r: Option<String>)
    ensures
        r is Some == ssl_dns_provider_setting(labels@, env@, ssl) is Some,
        r is Some ==> r->0@ == ssl_dns_provider_setting(labels@, env@, ssl)->0,
{
    if !ssl {
        return Some(String::new());
    }
    let l = label_value(labels, "proxma.ssl.dns.provider");
    if !l.as_str().is_empty() {
        return Some(l);
    }
    match env.get("PROXMA_SSL_DNS_PROVIDER") {
        Some(v) => {
            let t = trim(v.as_str());
            let p = to_lowercase(t.as_str());
            if is_known_dns_provider(p.as_str()) { Some(p) } else { None }
        },
        None => None,
    }
}

/// The Cloudflare credentials of a container as (email, API key, API token), or the
/// message that says why the container is skipped.
pub fn validate_cloudflare_credentials(container_id: &str, labels: &LabelMap, env: &LabelMap) -> (r: Result<(String, String, String), String>)
    ensures
        match cloudflare_credentials(labels@, env@) {
            CredentialsOutcome::Valid(e, k, t) => r matches Ok(v) && v.0@ == e && v.1@ == k && v.2@ == t,
            CredentialsOutcome::EmailRequired => r matches Err(m) && m@
                == "Email required when using Global API Key for container "@ + container_id@
                + ", skipping processing"@,
            CredentialsOutcome::Missing => r matches Err(m) && m@
                == "Either API Token or Global API Key must be provided for container "@ + container_id@
                + ", skipping processing"@,
        },
{
    let mut email = label_value(labels, "proxma.cloudflare.email");
    let mut api_key = label_value(labels, "proxma.cloudflare.api_key");
    let mut api_token = label_value(labels, "proxma.cloudflare.api_token");
    if api_token.as_str().is_empty() {
        match env.get("PROXMA_CLOUDFLARE_API_TOKEN") {
            Some(v) => { api_token = trim(v.as_str()); },
            None => {},
        }
    }
    if api_token.as_str().is_empty() {
        if api_key.as_str().is_empty() {
            match env.get("PROXMA_CLOUDFLARE_API_KEY") {
                Some(v) => { api_key = trim(v.as_str()); },
                None => {},
            }
        }
        if !api_key.as_str().is_empty() {
            proof { assert(api_key@.len() != 0); }
            if email.as_str().is_empty() {
                match env.get("PROXMA_CLOUDFLARE_EMAIL") {
                    Some(v) => { email = trim(v.as_str()); },
                    None => {},
                }
            }
            if email.as_str().is_empty() {
                let mut m = to_owned_string("Email required when using Global API Key for container ");
                push_str(&mut m, container_id);
                push_str(&mut m, ", skipping processing");
                return Err(m);
            }
        }
    }
    if api_token.as_str().is_empty() && api_key.as_str().is_empty() {
        proof { assert(api_token@.len() == 0 && api_key@.len() == 0); }
        let mut m = to_owned_string("Either API Token or Global API Key must be provided for container ");
        push_str(&mut m, container_id);
        push_str(&mut m, ", skipping processing");
        return Err(m);
    }
    proof {
        assert(api_token@.len() > 0 || api_key@.len() > 0);
    }
    Ok((email, api_key, api_token))
}

} // verus!
