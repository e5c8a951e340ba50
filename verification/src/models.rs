//! Authentication, web-server and cache settings of a proxied service.
use vstd::prelude::*;
use crate::text::{lowercase_of, str_eq, to_lowercase, to_owned_string, trim, trim_seq};

verus! {

/// Authentication type for proxied services.
#[derive(Clone, Copy, Debug, PartialEq, Eq, Structural)]
pub enum AuthType {
    /// HTTP Basic authentication (username/password)
    Basic,
    /// Bearer token authentication (static token)
    Bearer,
    /// Accept either Basic or Bearer authentication
    Both,
}

/// The auth type that a lowercased, trimmed label value selects.
pub open spec fn auth_type_from_lowered(l: Seq<char>) -> AuthType {
    if l == "bearer"@ {
        AuthType::Bearer
    } else if l == "both"@ {
        AuthType::Both
    } else {
        AuthType::Basic
    }
}

/// The lowercase name of an auth type.
pub open spec fn auth_type_name(t: AuthType) -> Seq<char> {
    match t {
        AuthType::Basic => "basic"@,
        AuthType::Bearer => "bearer"@,
        AuthType::Both => "both"@,
    }
}

impl Default for AuthType {
    fn default() -> (r: Self)
        ensures
            r == AuthType::Basic,
    {
        AuthType::Basic
    }
}

impl AuthType {
    /// Parse auth type from string label value.
    pub fn from_str_label(s: &str) -> (r: AuthType)
        ensures
            r == auth_type_from_lowered(lowercase_of(trim_seq(s@))),
    {
        let t = trim(s);
        let l = to_lowercase(t.as_str());
        Self::from_lowered_label(l.as_str())
    }

    /// The auth type that an already trimmed and lowercased label selects.
    pub fn from_lowered_label(l: &str) -> (r: AuthType)
        ensures
            r == auth_type_from_lowered(l@),
    {
        if str_eq(l, "bearer") {
            AuthType::Bearer
        } else if str_eq(l, "both") {
            AuthType::Both
        } else {
            AuthType::Basic
        }
    }

    /// The lowercase name of the auth type (`basic`, `bearer` or `both`).
    pub fn name(&self) -> (r: String)
        ensures
            r@ == auth_type_name(*self),
    {
        match self {
            AuthType::Basic => to_owned_string("basic"),
            AuthType::Bearer => to_owned_string("bearer"),
            AuthType::Both => to_owned_string("both"),
        }
    }
}

/// Authentication settings of a proxied service.
#[derive(Debug)]
pub struct Auth {
    /// Whether authentication is enabled
    pub enabled: bool,
    /// Authentication type: basic, bearer, or both
    pub auth_type: AuthType,
    /// Authentication realm (displayed in browser prompt for basic auth)
    pub realm: String,
    /// Username for basic auth
    pub username: String,
    /// Password for basic auth (will be hashed)
    pub password: String,
    /// Static bearer token for token-based auth
    pub token: String,
}

pub struct AuthView {
    pub enabled: bool,
    pub auth_type: AuthType,
    pub realm: Seq<char>,
    pub username: Seq<char>,
    pub password: Seq<char>,
    pub token: Seq<char>,
}

impl View for Auth {
    type V = AuthView;

    open spec fn view(&self) -> AuthView {
        AuthView {
            enabled: self.enabled,
            auth_type: self.auth_type,
            realm: self.realm@,
            username: self.username@,
            password: self.password@,
            token: self.token@,
        }
    }
}

/// The default authentication settings: disabled, basic, realm `Restricted Area`,
/// user `root` with password `root`, no token.
pub open spec fn default_auth() -> AuthView {
    AuthView {
        enabled: false,
        auth_type: AuthType::Basic,
        realm: "Restricted Area"@,
        username: "root"@,
        password: "root"@,
        token: Seq::empty(),
    }
}

/// The default realm.
pub fn default_realm() -> (r: String)
    ensures
        r@ == "Restricted Area"@,
{
    to_owned_string("Restricted Area")
}

/// The default username.
pub fn default_username() -> (r: String)
    ensures
        r@ == "root"@,
{
    to_owned_string("root")
}

/// The default password.
pub fn default_password() -> (r: String)
    ensures
        r@ == "root"@,
{
    to_owned_string("root")
}

impl Default for Auth {
    fn default() -> (r: Self)
        ensures
            r@ == default_auth(),
    {
        Auth {
            enabled: false,
            auth_type: AuthType::Basic,
            realm: default_realm(),
            username: default_username(),
            password: default_password(),
            token: String::new(),
        }
    }
}

impl Clone for Auth {
    fn clone(&self) -> (r: Self)
        ensures
            r@ == self@,
    {
        Auth {
            enabled: self.enabled,
            auth_type: self.auth_type,
            realm: self.realm.clone(),
            username: self.username.clone(),
            password: self.password.clone(),
            token: self.token.clone(),
        }
    }
}

/// Web-server limits and timeouts written into every server block.
#[derive(Debug)]
pub struct Webserver {
    /// Largest accepted request body (`m`, `k` or `g` suffix, or `0`)
    pub client_max_body_size: String,
    pub client_body_timeout: String,
    pub client_header_timeout: String,
    pub send_timeout: String,
    pub keepalive_timeout: String,
    pub proxy_connect_timeout: String,
    pub proxy_send_timeout: String,
    pub proxy_read_timeout: String,
}

pub struct WebserverView {
    pub client_max_body_size: Seq<char>,
    pub client_body_timeout: Seq<char>,
    pub client_header_timeout: Seq<char>,
    pub send_timeout: Seq<char>,
    pub keepalive_timeout: Seq<char>,
    pub proxy_connect_timeout: Seq<char>,
    pub proxy_send_timeout: Seq<char>,
    pub proxy_read_timeout: Seq<char>,
}

impl View for Webserver {
    type V = WebserverView;

    open spec fn view(&self) -> WebserverView {
        WebserverView {
            client_max_body_size: self.client_max_body_size@,
            client_body_timeout: self.client_body_timeout@,
            client_header_timeout: self.client_header_timeout@,
            send_timeout: self.send_timeout@,
            keepalive_timeout: self.keepalive_timeout@,
            proxy_connect_timeout: self.proxy_connect_timeout@,
            proxy_send_timeout: self.proxy_send_timeout@,
            proxy_read_timeout: self.proxy_read_timeout@,
        }
    }
}

/// The default web-server settings: a body limit of `100m`, and nginx's own
/// defaults for the timeouts.
pub open spec fn default_webserver() -> WebserverView {
    WebserverView {
        client_max_body_size: "100m"@,
        client_body_timeout: "60s"@,
        client_header_timeout: "60s"@,
        send_timeout: "60s"@,
        keepalive_timeout: "75s"@,
        proxy_connect_timeout: "60s"@,
        proxy_send_timeout: "60s"@,
        proxy_read_timeout: "60s"@,
    }
}

/// The default request body limit.
pub fn default_body_size() -> (r: String)
    ensures
        r@ == "100m"@,
{
    to_owned_string("100m")
}

impl Default for Webserver {
    fn default() -> (r: Self)
        ensures
            r@ == default_webserver(),
    {
        Webserver {
            client_max_body_size: default_body_size(),
            client_body_timeout: to_owned_string("60s"),
            client_header_timeout: to_owned_string("60s"),
            send_timeout: to_owned_string("60s"),
            keepalive_timeout: to_owned_string("75s"),
            proxy_connect_timeout: to_owned_string("60s"),
            proxy_send_timeout: to_owned_string("60s"),
            proxy_read_timeout: to_owned_string("60s"),
        }
    }
}

impl Clone for Webserver {
    fn clone(&self) -> (r: Self)
        ensures
            r@ == self@,
    {
        Webserver {
            client_max_body_size: self.client_max_body_size.clone(),
            client_body_timeout: self.client_body_timeout.clone(),
            client_header_timeout: self.client_header_timeout.clone(),
            send_timeout: self.send_timeout.clone(),
            keepalive_timeout: self.keepalive_timeout.clone(),
            proxy_connect_timeout: self.proxy_connect_timeout.clone(),
            proxy_send_timeout: self.proxy_send_timeout.clone(),
            proxy_read_timeout: self.proxy_read_timeout.clone(),
        }
    }
}

/// Configuration for Nginx caching.
#[derive(Debug)]
pub struct Cache {
    /// Whether caching is enabled
    pub enabled: bool,
    /// Maximum size of the cache (e.g., "500m", "2g")
    pub size: String,
    /// Size of the shared memory zone in MB (e.g., "10", "512")
    pub memory: String,
    /// How long to cache valid responses (e.g., "60m", "1h", "7d")
    pub ttl: String,
}

pub struct CacheView {
    pub enabled: bool,
    pub size: Seq<char>,
    pub memory: Seq<char>,
    pub ttl: Seq<char>,
}

impl View for Cache {
    type V = CacheView;

    open spec fn view(&self) -> CacheView {
        CacheView { enabled: self.enabled, size: self.size@, memory: self.memory@, ttl: self.ttl@ }
    }
}

impl Default for Cache {
    fn default() -> (r: Self)
        ensures
            r@ == (CacheView { enabled: false, size: "500m"@, memory: "10"@, ttl: "60m"@ }),
    {
        Cache {
            enabled: false,
            size: to_owned_string("500m"),
            memory: to_owned_string("10"),
            ttl: to_owned_string("60m"),
        }
    }
}

impl Clone for Cache {
    fn clone(&self) -> (r: Self)
        ensures
            r@ == self@,
    {
        Cache {
            enabled: self.enabled,
            size: self.size.clone(),
            memory: self.memory.clone(),
            ttl: self.ttl.clone(),
        }
    }
}

impl Cache {
    /// Create a new enabled cache configuration with default settings.
    pub fn enabled() -> (r: Self)
        ensures
            r@ == (CacheView { enabled: true, size: "500m"@, memory: "10"@, ttl: "60m"@ }),
    {
        Cache { enabled: true, ..Default::default() }
    }

    /// Create a new enabled cache configuration with custom settings.
    pub fn new(size: &str, memory: &str, ttl: &str) -> (r: Self)
        ensures
            r@ == (CacheView { enabled: true, size: size@, memory: memory@, ttl: ttl@ }),
    {
        Cache {
            enabled: true,
            size: to_owned_string(size),
            memory: to_owned_string(memory),
            ttl: to_owned_string(ttl),
        }
    }

    /// Builder method to set the maximum size.
    pub fn with_max_size(self, size: &str) -> (r: Self)
        ensures
            r@ == (CacheView { size: size@, ..self@ }),
    {
        Cache { size: to_owned_string(size), ..self }
    }

    /// Builder method to set the shared memory size.
    pub fn with_memory_size(self, memory: &str) -> (r: Self)
        ensures
            r@ == (CacheView { memory: memory@, ..self@ }),
    {
        Cache { memory: to_owned_string(memory), ..self }
    }

    /// Builder method to set how long valid responses are cached.
    pub fn with_valid_duration(self, ttl: &str) -> (r: Self)
        ensures
            r@ == (CacheView { ttl: ttl@, ..self@ }),
    {
        Cache { ttl: to_owned_string(ttl), ..self }
    }
}

} // verus!
