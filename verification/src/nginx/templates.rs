//! The nginx server configurations written for proxied containers.
use vstd::prelude::*;
use crate::models::{Auth, AuthType, AuthView, Webserver, WebserverView};
use crate::nginx::domain::{sanitize_domain, sanitized_domain};
use crate::text::{contains_seq, ends_with_seq, push_str, to_owned_string};

verus! {

/// The location block that serves ACME challenge files from `webroot_path`.
pub open spec fn acme_challenge_block_text(webroot_path: Seq<char>) -> Seq<char> {
    "    location /.well-known/acme-challenge/ {\n        root "@ + webroot_path + ";\n    }"@
}

/// The location block that serves ACME challenge files from `webroot_path`.
pub fn generate_acme_challenge_block(webroot_path: &str) -> (r: String)
    ensures
        r@ == acme_challenge_block_text(webroot_path@),
{
    let mut s = to_owned_string("    location /.well-known/acme-challenge/ {\n        root ");
    push_str(&mut s, webroot_path);
    push_str(&mut s, ";\n    }");
    s
}

/// The `listen` directives of a server block.
pub open spec fn listen_directive_text(is_https: bool, ipv6_enabled: bool) -> Seq<char> {
    if is_https {
        if ipv6_enabled {
            "listen 443 ssl;\n    listen [::]:443 ssl;\n    # Enable HTTP/2\n    http2 on;"@
        } else {
            "listen 443 ssl;\n    # Enable HTTP/2\n    http2 on;"@
        }
    } else {
        if ipv6_enabled {
            "listen 80;\n    listen [::]:80;"@
        } else {
            "listen 80;"@
        }
    }
}

/// The `listen` directives of a server block.
pub fn listen_directive(is_https: bool, ipv6_enabled: bool) -> (r: String)
    ensures
        r@ == listen_directive_text(is_https, ipv6_enabled),
{
    if is_https {
        if ipv6_enabled {
            to_owned_string("listen 443 ssl;\n    listen [::]:443 ssl;\n    # Enable HTTP/2\n    http2 on;")
        } else {
            to_owned_string("listen 443 ssl;\n    # Enable HTTP/2\n    http2 on;")
        }
    } else {
        if ipv6_enabled {
            to_owned_string("listen 80;\n    listen [::]:80;")
        } else {
            to_owned_string("listen 80;")
        }
    }
}

/// The body-size and timeout directives of a server block.
pub open spec fn timeout_directives_text(webserver: WebserverView) -> Seq<char> {
    "    client_max_body_size "@
        + webserver.client_max_body_size
        + ";\nclient_body_timeout "@
        + webserver.client_body_timeout
        + ";\nclient_header_timeout "@
        + webserver.client_header_timeout
        + ";\nsend_timeout "@
        + webserver.send_timeout
        + ";\nkeepalive_timeout "@
        + webserver.keepalive_timeout
        + ";\nproxy_connect_timeout "@
        + webserver.proxy_connect_timeout
        + ";\nproxy_send_timeout "@
        + webserver.proxy_send_timeout
        + ";\nproxy_read_timeout "@
        + webserver.proxy_read_timeout
        + ";"@
}

/// The body-size and timeout directives of a server block.
pub fn timeout_directives(webserver: &Webserver) -> (r: String)
    ensures
        r@ == timeout_directives_text(webserver@),
{
    let mut s = to_owned_string("    client_max_body_size ");
    push_str(&mut s, webserver.client_max_body_size.as_str());
    push_str(&mut s, ";\nclient_body_timeout ");
    push_str(&mut s, webserver.client_body_timeout.as_str());
    push_str(&mut s, ";\nclient_header_timeout ");
    push_str(&mut s, webserver.client_header_timeout.as_str());
    push_str(&mut s, ";\nsend_timeout ");
    push_str(&mut s, webserver.send_timeout.as_str());
    push_str(&mut s, ";\nkeepalive_timeout ");
    push_str(&mut s, webserver.keepalive_timeout.as_str());
    push_str(&mut s, ";\nproxy_connect_timeout ");
    push_str(&mut s, webserver.proxy_connect_timeout.as_str());
    push_str(&mut s, ";\nproxy_send_timeout ");
    push_str(&mut s, webserver.proxy_send_timeout.as_str());
    push_str(&mut s, ";\nproxy_read_timeout ");
    push_str(&mut s, webserver.proxy_read_timeout.as_str());
    push_str(&mut s, ";");
    s
}

/// The certificate directives of an HTTPS server block for `domain` in the
/// `environment` (`staging` or `production`) certificate tree.
pub open spec fn ssl_certificate_text(environment: Seq<char>, domain: Seq<char>) -> Seq<char> {
    "    ssl_certificate /var/proxma/configuration/"@
        + environment
        + "/live/"@
        + domain
        + "/fullchain.pem;\n    ssl_certificate_key /var/proxma/configuration/"@
        + environment
        + "/live/"@
        + domain
        + "/privkey.pem;\n\n    # SSL settings\n    ssl_protocols TLSv1.2 TLSv1.3;\n    ssl_prefer_server_ciphers off;"@
}

/// The headers of a plain-HTTP server that keep browsers from upgrading to HTTPS.
pub open spec fn no_https_upgrade_text() -> Seq<char> {
    "    # Prevent browsers from automatically redirecting to HTTPS\n    add_header Strict-Transport-Security \"max-age=0\" always;\n    add_header Referrer-Policy \"no-referrer-when-downgrade\" always;"@
}

/// The TLS part of a server block.
pub open spec fn ssl_config_text(is_https: bool, ssl: bool, environment: Seq<char>, domain: Seq<char>) -> Seq<char> {
    if is_https {
        ssl_certificate_text(environment, domain)
    } else if !ssl {
        no_https_upgrade_text()
    } else {
        Seq::empty()
    }
}

/// The TLS part of a server block.
pub fn ssl_config(is_https: bool, ssl: bool, environment: &str, domain: &str) -> (r: String)
    ensures
        r@ == ssl_config_text(is_https, ssl, environment@, domain@),
{
    if is_https {
        let mut s = to_owned_string("    ssl_certificate /var/proxma/configuration/");
        push_str(&mut s, environment);
        push_str(&mut s, "/live/");
        push_str(&mut s, domain);
        push_str(&mut s, "/fullchain.pem;\n    ssl_certificate_key /var/proxma/configuration/");
        push_str(&mut s, environment);
        push_str(&mut s, "/live/");
        push_str(&mut s, domain);
        push_str(&mut s, "/privkey.pem;\n\n    # SSL settings\n    ssl_protocols TLSv1.2 TLSv1.3;\n    ssl_prefer_server_ciphers off;");
        s
    } else if !ssl {
        to_owned_string("    # Prevent browsers from automatically redirecting to HTTPS\n    add_header Strict-Transport-Security \"max-age=0\" always;\n    add_header Referrer-Policy \"no-referrer-when-downgrade\" always;")
    } else {
        String::new()
    }
}

/// The certificate environment: `staging` or `production`.
pub open spec fn environment_name(ssl_staging: bool) -> Seq<char> {
    if ssl_staging { "staging"@ } else { "production"@ }
}

/// A server block for `domain` around `location_block`: HTTPS on port 443 or plain
/// HTTP on port 80 (with IPv6 listeners where enabled), the web-server limits, the
/// TLS part, and the ACME challenge location where a webroot is given.
pub open spec fn server_block_text(
    is_https: bool,
    domain: Seq<char>,
    location_block: Seq<char>,
    ssl: bool,
    webroot_path: Option<Seq<char>>,
    ssl_staging: bool,
    webserver: WebserverView,
    ipv6_enabled: bool,
) -> Seq<char> {
    "server {\n    "@
        + listen_directive_text(is_https, ipv6_enabled)
        + "\n    "@
        + timeout_directives_text(webserver)
        + "\n"@
        + ssl_config_text(is_https, ssl, environment_name(ssl_staging), domain)
        + "\n\n"@
        + (match webroot_path { Some(p) => acme_challenge_block_text(p), None => Seq::empty() })
        + "\n    server_name "@
        + domain
        + ";\n"@
        + location_block
        + "\n}\n"@
}

/// A server block for `domain` around `location_block`.
pub fn generate_server_block(
    is_https: bool,
    domain: &str,
    location_block: &str,
    ssl: bool,
    webroot_path: Option<&str>,
    ssl_staging: bool,
    webserver: &Webserver,
    ipv6_enabled: bool,
) -> (r: String)
    ensures
        r@ == server_block_text(
            is_https,
            domain@,
            location_block@,
            ssl,
            match webroot_path { Some(p) => Some(p@), None => None },
            ssl_staging,
            webserver@,
            ipv6_enabled,
        ),
{
    let listen = listen_directive(is_https, ipv6_enabled);
    let environment = if ssl_staging { "staging" } else { "production" };
    let timeouts = timeout_directives(webserver);
    let ssl_part = ssl_config(is_https, ssl, environment, domain);
    let acme = match webroot_path {
        Some(p) => generate_acme_challenge_block(p),
        None => String::new(),
    };
    let mut s = to_owned_string("server {\n    ");
    push_str(&mut s, listen.as_str());
    push_str(&mut s, "\n    ");
    push_str(&mut s, timeouts.as_str());
    push_str(&mut s, "\n");
    push_str(&mut s, ssl_part.as_str());
    push_str(&mut s, "\n\n");
    push_str(&mut s, acme.as_str());
    push_str(&mut s, "\n    server_name ");
    push_str(&mut s, domain);
    push_str(&mut s, ";\n");
    push_str(&mut s, location_block);
    push_str(&mut s, "\n}\n");
    s
}

/// The password file of a domain.
pub open spec fn htpasswd_file_text(domain: Seq<char>) -> Seq<char> {
    "/var/proxma/htpasswd/"@ + sanitized_domain(domain)
}

/// The password file of a domain.
pub fn htpasswd_file(domain: &str) -> (r: String)
    ensures
        r@ == htpasswd_file_text(domain@),
{
    let mut s = to_owned_string("/var/proxma/htpasswd/");
    let d = sanitize_domain(domain);
    push_str(&mut s, d.as_str());
    s
}

/// The authentication directives inside the `location /` block of an HTTP service.
pub open spec fn auth_config_text(auth: AuthView, domain: Seq<char>) -> Seq<char> {
    if !auth.enabled {
        Seq::empty()
    } else {
        match auth.auth_type {
            AuthType::Basic => "\n        # Basic auth configuration\n        auth_basic \""@
        + auth.realm
        + "\";\n        auth_basic_user_file "@
        + htpasswd_file_text(domain)
        + ";"@,
            AuthType::Bearer => "\n        # Bearer token authentication\n        auth_request /_proxma_auth_check;\n\n        # Return 401 with JSON body for failed bearer auth\n        error_page 401 = @bearer_unauthorized;"@,
            AuthType::Both => "\n        # Accept either Basic or Bearer authentication\n        satisfy any;\n        auth_basic \""@
        + auth.realm
        + "\";\n        auth_basic_user_file "@
        + htpasswd_file_text(domain)
        + ";\n        auth_request /_proxma_auth_check;"@,
        }
    }
}

/// The authentication directives inside the `location /` block of an HTTP service.
pub fn generate_auth_config(auth: &Auth, domain: &str) -> (r: String)
    ensures
        r@ == auth_config_text(auth@, domain@),
{
    if !auth.enabled {
        return String::new();
    }
    match auth.auth_type {
        AuthType::Basic => {
            let htpasswd_file = htpasswd_file(domain);
            let mut s = to_owned_string("\n        # Basic auth configuration\n        auth_basic \"");
            push_str(&mut s, auth.realm.as_str());
            push_str(&mut s, "\";\n        auth_basic_user_file ");
            push_str(&mut s, htpasswd_file.as_str());
            push_str(&mut s, ";");
            s
        },
        AuthType::Bearer => to_owned_string("\n        # Bearer token authentication\n        auth_request /_proxma_auth_check;\n\n        # Return 401 with JSON body for failed bearer auth\n        error_page 401 = @bearer_unauthorized;"),
        AuthType::Both => {
            let htpasswd_file = htpasswd_file(domain);
            let mut s = to_owned_string("\n        # Accept either Basic or Bearer authentication\n        satisfy any;\n        auth_basic \"");
            push_str(&mut s, auth.realm.as_str());
            push_str(&mut s, "\";\n        auth_basic_user_file ");
            push_str(&mut s, htpasswd_file.as_str());
            push_str(&mut s, ";\n        auth_request /_proxma_auth_check;");
            s
        },
    }
}

/// The error pages that turn HTTP auth failures into gRPC answers.
pub open spec fn grpc_error_pages_text() -> Seq<char> {
    "\n        # Map HTTP auth errors to gRPC-compatible responses\n        error_page 401 = @grpc_unauthenticated;\n        error_page 403 = @grpc_permission_denied;"@
}

/// The authentication directives inside the `location /` block of a gRPC service.
pub open spec fn grpc_auth_config_text(auth: AuthView, domain: Seq<char>) -> Seq<char> {
    if !auth.enabled {
        Seq::empty()
    } else {
        match auth.auth_type {
            AuthType::Basic => "\n        # Basic auth configuration for gRPC\n        auth_basic \""@
        + auth.realm
        + "\";\n        auth_basic_user_file "@
        + htpasswd_file_text(domain)
        + ";\n        "@
        + grpc_error_pages_text(),
            AuthType::Bearer => "\n        # Bearer token authentication for gRPC\n        auth_request /_proxma_auth_check;\n        "@ + grpc_error_pages_text(),
            AuthType::Both => "\n        # Accept either Basic or Bearer authentication for gRPC\n        satisfy any;\n        auth_basic \""@
        + auth.realm
        + "\";\n        auth_basic_user_file "@
        + htpasswd_file_text(domain)
        + ";\n        auth_request /_proxma_auth_check;\n        "@
        + grpc_error_pages_text(),
        }
    }
}

/// The authentication directives inside the `location /` block of a gRPC service.
pub fn generate_grpc_auth_config(auth: &Auth, domain: &str) -> (r: String)
    ensures
        r@ == grpc_auth_config_text(auth@, domain@),
{
    if !auth.enabled {
        return String::new();
    }
    let pages = to_owned_string("\n        # Map HTTP auth errors to gRPC-compatible responses\n        error_page 401 = @grpc_unauthenticated;\n        error_page 403 = @grpc_permission_denied;");
    match auth.auth_type {
        AuthType::Basic => {
            let htpasswd_file = htpasswd_file(domain);
            let mut s = to_owned_string("\n        # Basic auth configuration for gRPC\n        auth_basic \"");
            push_str(&mut s, auth.realm.as_str());
            push_str(&mut s, "\";\n        auth_basic_user_file ");
            push_str(&mut s, htpasswd_file.as_str());
            push_str(&mut s, ";\n        ");
            push_str(&mut s, pages.as_str());
            s
        },
        AuthType::Bearer => {
            let mut s = to_owned_string("\n        # Bearer token authentication for gRPC\n        auth_request /_proxma_auth_check;\n        ");
            push_str(&mut s, pages.as_str());
            s
        },
        AuthType::Both => {
            let htpasswd_file = htpasswd_file(domain);
            let mut s = to_owned_string("\n        # Accept either Basic or Bearer authentication for gRPC\n        satisfy any;\n        auth_basic \"");
            push_str(&mut s, auth.realm.as_str());
            push_str(&mut s, "\";\n        auth_basic_user_file ");
            push_str(&mut s, htpasswd_file.as_str());
            push_str(&mut s, ";\n        auth_request /_proxma_auth_check;\n        ");
            push_str(&mut s, pages.as_str());
            s
        },
    }
}

/// The `www-authenticate` header sent with a gRPC authentication failure.
pub open spec fn www_authenticate_text(auth: AuthView) -> Seq<char> {
    match auth.auth_type {
        AuthType::Basic => "add_header www-authenticate 'Basic realm=\""@ + auth.realm + "\"' always;"@,
        AuthType::Bearer => "add_header www-authenticate 'Bearer' always;"@,
        AuthType::Both => "add_header www-authenticate 'Basic realm=\""@ + auth.realm + "\", Bearer' always;"@,
    }
}

/// The server-level locations that answer gRPC authentication failures.
pub open spec fn grpc_error_handlers_text(auth: AuthView) -> Seq<char> {
    if !auth.enabled {
        Seq::empty()
    } else {
        "\n    # gRPC UNAUTHENTICATED error handler\n    location @grpc_unauthenticated {\n        internal;\n        add_header content-type \"application/grpc\" always;\n        add_header grpc-status \"16\" always;  # UNAUTHENTICATED\n        add_header grpc-message \"Authentication required\" always;\n        "@ + www_authenticate_text(auth) + "\n        return 200;  # gRPC requires HTTP 200 with grpc-status headers\n    }\n    \n    # gRPC PERMISSION_DENIED error handler\n    location @grpc_permission_denied {\n        internal;\n        add_header content-type \"application/grpc\" always;\n        add_header grpc-status \"7\" always;   # PERMISSION_DENIED\n        add_header grpc-message \"Access denied\" always;\n        return 200;  # gRPC requires HTTP 200 with grpc-status headers\n    }"@
    }
}

/// The server-level locations that answer gRPC authentication failures.
pub fn generate_grpc_error_handlers(auth: &Auth) -> (r: String)
    ensures
        r@ == grpc_error_handlers_text(auth@),
{
    if !auth.enabled {
        return String::new();
    }
    let header = match auth.auth_type {
        AuthType::Basic => {
            let mut s = to_owned_string("add_header www-authenticate 'Basic realm=\"");
            push_str(&mut s, auth.realm.as_str());
            push_str(&mut s, "\"' always;");
            s
        },
        AuthType::Bearer => to_owned_string("add_header www-authenticate 'Bearer' always;"),
        AuthType::Both => {
            let mut s = to_owned_string("add_header www-authenticate 'Basic realm=\"");
            push_str(&mut s, auth.realm.as_str());
            push_str(&mut s, "\", Bearer' always;");
            s
        },
    };
    let mut s = to_owned_string("\n    # gRPC UNAUTHENTICATED error handler\n    location @grpc_unauthenticated {\n        internal;\n        add_header content-type \"application/grpc\" always;\n        add_header grpc-status \"16\" always;  # UNAUTHENTICATED\n        add_header grpc-message \"Authentication required\" always;\n        ");
    push_str(&mut s, header.as_str());
    push_str(&mut s, "\n        return 200;  # gRPC requires HTTP 200 with grpc-status headers\n    }\n    \n    # gRPC PERMISSION_DENIED error handler\n    location @grpc_permission_denied {\n        internal;\n        add_header content-type \"application/grpc\" always;\n        add_header grpc-status \"7\" always;   # PERMISSION_DENIED\n        add_header grpc-message \"Access denied\" always;\n        return 200;  # gRPC requires HTTP 200 with grpc-status headers\n    }");
    s
}

/// The internal location that checks a bearer token (for bearer and combined
/// authentication).
pub open spec fn bearer_validation_text(auth: AuthView) -> Seq<char> {
    if auth.enabled && (auth.auth_type == AuthType::Bearer || auth.auth_type == AuthType::Both) {
        "\n\n    # Internal endpoint for bearer token validation\n    location = /_proxma_auth_check {\n        internal;\n        if ($http_authorization != \"Bearer "@ + auth.token + "\") {\n            return 401;\n        }\n        return 200;\n    }"@
    } else {
        Seq::empty()
    }
}

/// The internal location that checks a bearer token.
pub fn generate_bearer_validation_location(auth: &Auth) -> (r: String)
    ensures
        r@ == bearer_validation_text(auth@),
{
    if !auth.enabled {
        return String::new();
    }
    match auth.auth_type {
        AuthType::Bearer | AuthType::Both => {
            let mut s = to_owned_string("\n\n    # Internal endpoint for bearer token validation\n    location = /_proxma_auth_check {\n        internal;\n        if ($http_authorization != \"Bearer ");
            push_str(&mut s, auth.token.as_str());
            push_str(&mut s, "\") {\n            return 401;\n        }\n        return 200;\n    }");
            s
        },
        AuthType::Basic => String::new(),
    }
}

/// The JSON 401 answer of bearer-only authentication.
pub open spec fn bearer_unauthorized_text(auth: AuthView) -> Seq<char> {
    if auth.enabled && auth.auth_type == AuthType::Bearer {
        "\n\n    # Bearer auth 401 response handler\n    location @bearer_unauthorized {\n        internal;\n        default_type application/json;\n        add_header WWW-Authenticate 'Bearer' always;\n        return 401 '{\"error\": \"Unauthorized\", \"message\": \"Valid Bearer token required\"}';\n    }"@
    } else {
        Seq::empty()
    }
}

/// The JSON 401 answer of bearer-only authentication.
pub fn generate_bearer_unauthorized_location(auth: &Auth) -> (r: String)
    ensures
        r@ == bearer_unauthorized_text(auth@),
{
    if !auth.enabled {
        return String::new();
    }
    if auth.auth_type == AuthType::Bearer {
        to_owned_string("\n\n    # Bearer auth 401 response handler\n    location @bearer_unauthorized {\n        internal;\n        default_type application/json;\n        add_header WWW-Authenticate 'Bearer' always;\n        return 401 '{\"error\": \"Unauthorized\", \"message\": \"Valid Bearer token required\"}';\n    }")
    } else {
        String::new()
    }
}

/// The port announced in `X-Forwarded-Port`.
pub open spec fn forwarded_port_text(ssl: bool) -> Seq<char> {
    if ssl { "443"@ } else { "80"@ }
}

/// The scheme announced in `X-Forwarded-Proto`.
pub open spec fn forwarded_proto_text(ssl: bool) -> Seq<char> {
    if ssl { "https"@ } else { "http"@ }
}

/// The location of a plain-HTTP server that sends every request to HTTPS.
pub open spec fn https_upgrade_location_text() -> Seq<char> {
    "    location / {\n        return 301 https://$host$request_uri;\n    }"@
}

/// The `location /` block that proxies an HTTP service.
pub open spec fn proxy_location_text(auth: AuthView, domain: Seq<char>, upstream: Seq<char>, ssl: bool) -> Seq<char> {
    "    location / {"@
        + auth_config_text(auth, domain)
        + "\n        resolver 127.0.0.11 valid=10s;\n        set $proxma_upstream "@
        + upstream
        + ";\n        proxy_pass $proxma_upstream;\n        \n        # Forward ALL headers by default\n        proxy_pass_request_headers on;\n        \n        # Standard proxy headers\n        proxy_set_header Host $host;\n        proxy_set_header X-Forwarded-Host $host;\n        proxy_set_header X-Forwarded-Port "@
        + forwarded_port_text(ssl)
        + ";\n        proxy_set_header X-Forwarded-Proto "@
        + forwarded_proto_text(ssl)
        + ";\n        proxy_set_header X-Real-IP $remote_addr;\n        proxy_set_header X-Forwarded-For $proxy_add_x_forwarded_for;\n        proxy_set_header X-Forwarded-Scheme $scheme;\n        proxy_set_header X-Original-URI $request_uri;\n        proxy_set_header X-Forwarded-Server $host;\n        proxy_set_header X-Request-Start $msec;\n        proxy_set_header X-Original-Host $host;\n        proxy_set_header X-Forwarded-SSL on;\n        \n        # WebSocket support\n        proxy_http_version 1.1;\n        proxy_set_header Upgrade $http_upgrade;\n        proxy_set_header Connection \"upgrade\";\n        proxy_read_timeout 86400;  # Longer timeout for WebSockets\n    }"@
}

/// The server configuration of an HTTP service: with TLS, a plain-HTTP server for
/// ACME challenges that redirects to HTTPS, then the HTTPS server; without, one
/// plain-HTTP server. The proxy location carries the authentication directives and
/// is followed by the bearer-token locations.
pub open spec fn proxy_server_block_text(
    domain: Seq<char>,
    upstream: Seq<char>,
    ssl: bool,
    webroot_path: Seq<char>,
    ssl_staging: bool,
    auth: AuthView,
    webserver: WebserverView,
    ipv6_enabled: bool,
) -> Seq<char> {
    let full = proxy_location_text(auth, domain, upstream, ssl) + bearer_validation_text(auth)
        + bearer_unauthorized_text(auth);
    if ssl {
        "# HTTP server for ACME challenges and redirection\n"@ + server_block_text(false, domain,
            https_upgrade_location_text(), true, Some(webroot_path), ssl_staging, webserver, ipv6_enabled)
            + "\n# HTTPS server for main content\n"@ + server_block_text(true, domain, full, true,
            None, ssl_staging, webserver, ipv6_enabled)
    } else {
        server_block_text(false, domain, full, false, Some(webroot_path), ssl_staging, webserver, ipv6_enabled)
    }
}

/// The server configuration of an HTTP service (the password file, where basic
/// authentication needs one, is written separately).
pub fn generate_proxy_server_block(
    domain: &str,
    upstream: &str,
    ssl: bool,
    webroot_path: &str,
    ssl_staging: bool,
    auth: Auth,
    webserver: Webserver,
    ipv6_enabled: bool,
) -> (r: String)
    ensures
        r@ == proxy_server_block_text(domain@, upstream@, ssl, webroot_path@, ssl_staging, auth@, webserver@, ipv6_enabled),
{
    let auth_config = generate_auth_config(&auth, domain);
    let xfwd_port = if ssl { "443" } else { "80" };
    let xfwd_proto = if ssl { "https" } else { "http" };
    let mut s = to_owned_string("    location / {");
    push_str(&mut s, auth_config.as_str());
    push_str(&mut s, "\n        resolver 127.0.0.11 valid=10s;\n        set $proxma_upstream ");
    push_str(&mut s, upstream);
    push_str(&mut s, ";\n        proxy_pass $proxma_upstream;\n        \n        # Forward ALL headers by default\n        proxy_pass_request_headers on;\n        \n        # Standard proxy headers\n        proxy_set_header Host $host;\n        proxy_set_header X-Forwarded-Host $host;\n        proxy_set_header X-Forwarded-Port ");
    push_str(&mut s, xfwd_port);
    push_str(&mut s, ";\n        proxy_set_header X-Forwarded-Proto ");
    push_str(&mut s, xfwd_proto);
    push_str(&mut s, ";\n        proxy_set_header X-Real-IP $remote_addr;\n        proxy_set_header X-Forwarded-For $proxy_add_x_forwarded_for;\n        proxy_set_header X-Forwarded-Scheme $scheme;\n        proxy_set_header X-Original-URI $request_uri;\n        proxy_set_header X-Forwarded-Server $host;\n        proxy_set_header X-Request-Start $msec;\n        proxy_set_header X-Original-Host $host;\n        proxy_set_header X-Forwarded-SSL on;\n        \n        # WebSocket support\n        proxy_http_version 1.1;\n        proxy_set_header Upgrade $http_upgrade;\n        proxy_set_header Connection \"upgrade\";\n        proxy_read_timeout 86400;  # Longer timeout for WebSockets\n    }");
    let bearer_validation = generate_bearer_validation_location(&auth);
    let bearer_unauthorized = generate_bearer_unauthorized_location(&auth);
    push_str(&mut s, bearer_validation.as_str());
    push_str(&mut s, bearer_unauthorized.as_str());
    let http_redirect = "    location / {\n        return 301 https://$host$request_uri;\n    }";
    if ssl {
        let mut r = to_owned_string("# HTTP server for ACME challenges and redirection\n");
        let plain = generate_server_block(false, domain, http_redirect, true, Some(webroot_path), ssl_staging, &webserver, ipv6_enabled);
        push_str(&mut r, plain.as_str());
        push_str(&mut r, "\n# HTTPS server for main content\n");
        let secure = generate_server_block(true, domain, s.as_str(), true, None, ssl_staging, &webserver, ipv6_enabled);
        push_str(&mut r, secure.as_str());
        r
    } else {
        generate_server_block(false, domain, s.as_str(), false, Some(webroot_path), ssl_staging, &webserver, ipv6_enabled)
    }
}

/// The `location /` block that proxies a gRPC service.
pub open spec fn grpc_location_text(auth: AuthView, domain: Seq<char>, upstream: Seq<char>, ssl: bool, webserver: WebserverView) -> Seq<char> {
    "    location / {"@
        + grpc_auth_config_text(auth, domain)
        + "\n        resolver 127.0.0.11 valid=10s;\n        set $proxma_upstream "@
        + upstream
        + ";\n        grpc_pass grpc://$proxma_upstream;\n        grpc_read_timeout "@
        + webserver.proxy_read_timeout
        + ";\n        grpc_send_timeout "@
        + webserver.proxy_send_timeout
        + ";\n        grpc_connect_timeout "@
        + webserver.proxy_connect_timeout
        + ";\n        \n        # Additional gRPC error handling for proxy errors\n        error_page 502 = @grpc_unavailable;\n        error_page 503 = @grpc_unavailable;\n        error_page 504 = @grpc_deadline_exceeded;\n        error_page 404 = @grpc_unimplemented;\n        \n        # gRPC automatically forwards all headers by default\n        # Standard gRPC headers\n        grpc_set_header Host $host;\n        grpc_set_header X-Forwarded-Host $host;\n        grpc_set_header X-Forwarded-Port "@
        + forwarded_port_text(ssl)
        + ";\n        grpc_set_header X-Forwarded-Proto "@
        + forwarded_proto_text(ssl)
        + ";\n        grpc_set_header X-Real-IP $remote_addr;\n        grpc_set_header X-Forwarded-For $proxy_add_x_forwarded_for;\n        grpc_set_header X-Forwarded-Scheme $scheme;\n        grpc_set_header X-Original-URI $request_uri;\n        grpc_set_header X-Forwarded-Server $host;\n        grpc_set_header X-Request-Start $msec;\n        grpc_set_header X-Original-Host $host;\n        grpc_set_header X-Forwarded-SSL on;\n    }"@
}

/// The server-level locations that answer gRPC proxy failures (after the
/// authentication failure handlers).
pub open spec fn grpc_failure_locations_text(auth: AuthView) -> Seq<char> {
    grpc_error_handlers_text(auth) + "\n    \n    # gRPC UNAVAILABLE error handler (for 502/503 errors)\n    location @grpc_unavailable {\n        internal;\n        add_header content-type \"application/grpc\" always;\n        add_header grpc-status \"14\" always;  # UNAVAILABLE\n        add_header grpc-message \"Service unavailable\" always;\n        return 200;  # gRPC requires HTTP 200 with grpc-status headers\n    }\n    \n    # gRPC DEADLINE_EXCEEDED error handler (for 504 timeout errors)\n    location @grpc_deadline_exceeded {\n        internal;\n        add_header content-type \"application/grpc\" always;\n        add_header grpc-status \"4\" always;   # DEADLINE_EXCEEDED\n        add_header grpc-message \"Request timeout\" always;\n        return 200;  # gRPC requires HTTP 200 with grpc-status headers\n    }\n    \n    # gRPC UNIMPLEMENTED error handler (for 404 errors)\n    location @grpc_unimplemented {\n        internal;\n        add_header content-type \"application/grpc\" always;\n        add_header grpc-status \"12\" always;  # UNIMPLEMENTED\n        add_header grpc-message \"Method not found\" always;\n        return 200;  # gRPC requires HTTP 200 with grpc-status headers\n    }"@
}

/// The server configuration of a gRPC service, laid out as for an HTTP service.
pub open spec fn grpc_server_block_text(
    domain: Seq<char>,
    upstream: Seq<char>,
    ssl: bool,
    webroot_path: Seq<char>,
    ssl_staging: bool,
    auth: AuthView,
    webserver: WebserverView,
    ipv6_enabled: bool,
) -> Seq<char> {
    let full = grpc_location_text(auth, domain, upstream, ssl, webserver) + grpc_failure_locations_text(auth)
        + bearer_validation_text(auth);
    if ssl {
        "# HTTP server for ACME challenges and redirection\n"@ + server_block_text(false, domain,
            https_upgrade_location_text(), true, Some(webroot_path), ssl_staging, webserver, ipv6_enabled)
            + "\n# HTTPS server for gRPC content\n"@ + server_block_text(true, domain, full, true,
            None, ssl_staging, webserver, ipv6_enabled)
    } else {
        server_block_text(false, domain, full, false, Some(webroot_path), ssl_staging, webserver, ipv6_enabled)
    }
}

/// The server configuration of a gRPC service (the password file, where basic
/// authentication needs one, is written separately).
pub fn generate_grpc_server_block(
    domain: &str,
    upstream: &str,
    ssl: bool,
    webroot_path: &str,
    ssl_staging: bool,
    auth: Auth,
    webserver: Webserver,
    ipv6_enabled: bool,
) -> (r: String)
    ensures
        r@ == grpc_server_block_text(domain@, upstream@, ssl, webroot_path@, ssl_staging, auth@, webserver@, ipv6_enabled),
{
    let auth_config = generate_grpc_auth_config(&auth, domain);
    let xfwd_port = if ssl { "443" } else { "80" };
    let xfwd_proto = if ssl { "https" } else { "http" };
    let mut s = to_owned_string("    location / {");
    push_str(&mut s, auth_config.as_str());
    push_str(&mut s, "\n        resolver 127.0.0.11 valid=10s;\n        set $proxma_upstream ");
    push_str(&mut s, upstream);
    push_str(&mut s, ";\n        grpc_pass grpc://$proxma_upstream;\n        grpc_read_timeout ");
    push_str(&mut s, webserver.proxy_read_timeout.as_str());
    push_str(&mut s, ";\n        grpc_send_timeout ");
    push_str(&mut s, webserver.proxy_send_timeout.as_str());
    push_str(&mut s, ";\n        grpc_connect_timeout ");
    push_str(&mut s, webserver.proxy_connect_timeout.as_str());
    push_str(&mut s, ";\n        \n        # Additional gRPC error handling for proxy errors\n        error_page 502 = @grpc_unavailable;\n        error_page 503 = @grpc_unavailable;\n        error_page 504 = @grpc_deadline_exceeded;\n        error_page 404 = @grpc_unimplemented;\n        \n        # gRPC automatically forwards all headers by default\n        # Standard gRPC headers\n        grpc_set_header Host $host;\n        grpc_set_header X-Forwarded-Host $host;\n        grpc_set_header X-Forwarded-Port ");
    push_str(&mut s, xfwd_port);
    push_str(&mut s, ";\n        grpc_set_header X-Forwarded-Proto ");
    push_str(&mut s, xfwd_proto);
    push_str(&mut s, ";\n        grpc_set_header X-Real-IP $remote_addr;\n        grpc_set_header X-Forwarded-For $proxy_add_x_forwarded_for;\n        grpc_set_header X-Forwarded-Scheme $scheme;\n        grpc_set_header X-Original-URI $request_uri;\n        grpc_set_header X-Forwarded-Server $host;\n        grpc_set_header X-Request-Start $msec;\n        grpc_set_header X-Original-Host $host;\n        grpc_set_header X-Forwarded-SSL on;\n    }");
    let handlers = generate_grpc_error_handlers(&auth);
    let mut h = to_owned_string(handlers.as_str());
    push_str(&mut h, "\n    \n    # gRPC UNAVAILABLE error handler (for 502/503 errors)\n    location @grpc_unavailable {\n        internal;\n        add_header content-type \"application/grpc\" always;\n        add_header grpc-status \"14\" always;  # UNAVAILABLE\n        add_header grpc-message \"Service unavailable\" always;\n        return 200;  # gRPC requires HTTP 200 with grpc-status headers\n    }\n    \n    # gRPC DEADLINE_EXCEEDED error handler (for 504 timeout errors)\n    location @grpc_deadline_exceeded {\n        internal;\n        add_header content-type \"application/grpc\" always;\n        add_header grpc-status \"4\" always;   # DEADLINE_EXCEEDED\n        add_header grpc-message \"Request timeout\" always;\n        return 200;  # gRPC requires HTTP 200 with grpc-status headers\n    }\n    \n    # gRPC UNIMPLEMENTED error handler (for 404 errors)\n    location @grpc_unimplemented {\n        internal;\n        add_header content-type \"application/grpc\" always;\n        add_header grpc-status \"12\" always;  # UNIMPLEMENTED\n        add_header grpc-message \"Method not found\" always;\n        return 200;  # gRPC requires HTTP 200 with grpc-status headers\n    }");
    push_str(&mut s, h.as_str());
    let bearer_validation = generate_bearer_validation_location(&auth);
    push_str(&mut s, bearer_validation.as_str());
    let http_redirect = "    location / {\n        return 301 https://$host$request_uri;\n    }";
    if ssl {
        let mut r = to_owned_string("# HTTP server for ACME challenges and redirection\n");
        let plain = generate_server_block(false, domain, http_redirect, true, Some(webroot_path), ssl_staging, &webserver, ipv6_enabled);
        push_str(&mut r, plain.as_str());
        push_str(&mut r, "\n# HTTPS server for gRPC content\n");
        let secure = generate_server_block(true, domain, s.as_str(), true, None, ssl_staging, &webserver, ipv6_enabled);
        push_str(&mut r, secure.as_str());
        r
    } else {
        generate_server_block(false, domain, s.as_str(), false, Some(webroot_path), ssl_staging, &webserver, ipv6_enabled)
    }
}

/// The server configuration that redirects `from_domain` to `to_domain`, laid out as
/// for an HTTP service.
pub open spec fn redirect_server_block_text(
    from_domain: Seq<char>,
    to_domain: Seq<char>,
    ssl: bool,
    webroot_path: Seq<char>,
    ssl_staging: bool,
    webserver: WebserverView,
    ipv6_enabled: bool,
) -> Seq<char> {
    let http_redirect = "    location / {\n        return 301 "@
        + (if ssl { "https"@ } else { "$scheme"@ })
        + "://"@
        + to_domain
        + "$request_uri;\n    }"@;
    let https_redirect = "    location / {\n        return 301 https://"@ + to_domain + "$request_uri;\n    }"@;
    if ssl {
        "# HTTP server for ACME challenges and redirection\n"@ + server_block_text(false, from_domain,
            http_redirect, true, Some(webroot_path), ssl_staging, webserver, ipv6_enabled)
            + "\n# HTTPS server for redirection\n"@ + server_block_text(true, from_domain,
            https_redirect, true, None, ssl_staging, webserver, ipv6_enabled)
    } else {
        server_block_text(false, from_domain, http_redirect, false, Some(webroot_path), ssl_staging, webserver, ipv6_enabled)
    }
}

/// The server configuration that redirects `from_domain` to `to_domain`.
pub fn generate_redirect_server_block(
    from_domain: &str,
    to_domain: &str,
    ssl: bool,
    webroot_path: &str,
    ssl_staging: bool,
    webserver: Webserver,
    ipv6_enabled: bool,
) -> (r: String)
    ensures
        r@ == redirect_server_block_text(from_domain@, to_domain@, ssl, webroot_path@, ssl_staging, webserver@, ipv6_enabled),
{
    let scheme = if ssl { "https" } else { "$scheme" };
    let mut s = to_owned_string("    location / {\n        return 301 ");
    push_str(&mut s, scheme);
    push_str(&mut s, "://");
    push_str(&mut s, to_domain);
    push_str(&mut s, "$request_uri;\n    }");
    let mut t = to_owned_string("    location / {\n        return 301 https://");
    push_str(&mut t, to_domain);
    push_str(&mut t, "$request_uri;\n    }");
    if ssl {
        let mut r = to_owned_string("# HTTP server for ACME challenges and redirection\n");
        let plain = generate_server_block(false, from_domain, s.as_str(), true, Some(webroot_path), ssl_staging, &webserver, ipv6_enabled);
        push_str(&mut r, plain.as_str());
        push_str(&mut r, "\n# HTTPS server for redirection\n");
        let secure = generate_server_block(true, from_domain, t.as_str(), true, None, ssl_staging, &webserver, ipv6_enabled);
        push_str(&mut r, secure.as_str());
        r
    } else {
        generate_server_block(false, from_domain, s.as_str(), false, Some(webroot_path), ssl_staging, &webserver, ipv6_enabled)
    }
}

/// Everything a server block holds before its location block.
pub open spec fn server_block_head(
    is_https: bool,
    domain: Seq<char>,
    ssl: bool,
    webroot_path: Option<Seq<char>>,
    ssl_staging: bool,
    webserver: WebserverView,
    ipv6_enabled: bool,
) -> Seq<char> {
    "server {\n    "@
        + listen_directive_text(is_https, ipv6_enabled)
        + "\n    "@
        + timeout_directives_text(webserver)
        + "\n"@
        + ssl_config_text(is_https, ssl, environment_name(ssl_staging), domain)
        + "\n\n"@
        + (match webroot_path { Some(p) => acme_challenge_block_text(p), None => Seq::empty() })
        + "\n    server_name "@
        + domain
        + ";\n"@
}

/// A server block ends with its location block and the closing brace.
proof fn lemma_server_block_ends_with_location(
    is_https: bool,
    domain: Seq<char>,
    location_block: Seq<char>,
    ssl: bool,
    webroot_path: Option<Seq<char>>,
    ssl_staging: bool,
    webserver: WebserverView,
    ipv6_enabled: bool,
)
    ensures
        server_block_text(is_https, domain, location_block, ssl, webroot_path, ssl_staging, webserver, ipv6_enabled)
            == server_block_head(is_https, domain, ssl, webroot_path, ssl_staging, webserver, ipv6_enabled)
            + location_block + "\n}\n"@,
{
    assert(server_block_text(is_https, domain, location_block, ssl, webroot_path, ssl_staging, webserver, ipv6_enabled)
        =~= server_block_head(is_https, domain, ssl, webroot_path, ssl_staging, webserver, ipv6_enabled)
        + location_block + "\n}\n"@);
}

/// Text placed between two others is contained in the whole.
proof fn lemma_contains_within(s: Seq<char>, p: Seq<char>, a: Seq<char>, b: Seq<char>)
    requires
        contains_seq(s, p),
    ensures
        contains_seq(a + s + b, p),
{
    let i = choose|i: int| 0 <= i && i + p.len() <= s.len() && #[trigger] s.subrange(i, i + p.len()) == p;
    let w = a + s + b;
    assert(w.subrange(a.len() + i, a.len() + i + p.len()) =~= s.subrange(i, i + p.len()));
}

/// A text ends with what is appended to it last.
proof fn lemma_ends_with_appended(a: Seq<char>, p: Seq<char>)
    ensures
        ends_with_seq(a + p, p),
{
    assert((a + p).skip((a + p).len() - p.len()) =~= p);
}

/// The gRPC location sets the upstream variable to the service's upstream and
/// hands requests to it with `grpc_pass`.
proof fn lemma_grpc_location_passes(auth: AuthView, domain: Seq<char>, upstream: Seq<char>, ssl: bool, webserver: WebserverView)
    ensures
        contains_seq(grpc_location_text(auth, domain, upstream, ssl, webserver),
            "set $proxma_upstream "@ + upstream + ";\n        grpc_pass grpc://$proxma_upstream;"@),
{
    let q = "set $proxma_upstream "@ + upstream + ";\n        grpc_pass grpc://$proxma_upstream;"@;
    let l1 = "\n        resolver 127.0.0.11 valid=10s;\n        set $proxma_upstream "@;
    let l1a = "\n        resolver 127.0.0.11 valid=10s;\n        "@;
    let l2 = ";\n        grpc_pass grpc://$proxma_upstream;\n        grpc_read_timeout "@;
    let l2a = ";\n        grpc_pass grpc://$proxma_upstream;"@;
    let l2b = "\n        grpc_read_timeout "@;
    reveal_strlit("\n        resolver 127.0.0.11 valid=10s;\n        set $proxma_upstream ");
    reveal_strlit("\n        resolver 127.0.0.11 valid=10s;\n        ");
    reveal_strlit("set $proxma_upstream ");
    reveal_strlit(";\n        grpc_pass grpc://$proxma_upstream;\n        grpc_read_timeout ");
    reveal_strlit(";\n        grpc_pass grpc://$proxma_upstream;");
    reveal_strlit("\n        grpc_read_timeout ");
    assert(l1 =~= l1a + "set $proxma_upstream "@);
    assert(l2 =~= l2a + l2b);
    let head = "    location / {"@ + grpc_auth_config_text(auth, domain);
    let loc = grpc_location_text(auth, domain, upstream, ssl, webserver);
    let rest = loc.skip((head + l1 + upstream + l2).len() as int);
    assert(loc =~= (head + l1a) + q + (l2b + rest));
    assert(contains_seq(q, q)) by {
        assert(q.subrange(0int, 0int + q.len()) =~= q);
    }
    lemma_contains_within(q, q, head + l1a, l2b + rest);
}

/// A gRPC service's configuration proxies with `grpc_pass` to the variable set to
/// its upstream, with or without TLS.
pub proof fn law_grpc_passes_to_upstream(
    domain: Seq<char>,
    upstream: Seq<char>,
    ssl: bool,
    webroot_path: Seq<char>,
    ssl_staging: bool,
    auth: AuthView,
    webserver: WebserverView,
    ipv6_enabled: bool,
)
    ensures
        contains_seq(grpc_server_block_text(domain, upstream, ssl, webroot_path, ssl_staging, auth, webserver, ipv6_enabled),
            "set $proxma_upstream "@ + upstream + ";\n        grpc_pass grpc://$proxma_upstream;"@),
{
    let q = "set $proxma_upstream "@ + upstream + ";\n        grpc_pass grpc://$proxma_upstream;"@;
    let loc = grpc_location_text(auth, domain, upstream, ssl, webserver);
    let tail = grpc_failure_locations_text(auth) + bearer_validation_text(auth);
    let full = loc + grpc_failure_locations_text(auth) + bearer_validation_text(auth);
    lemma_grpc_location_passes(auth, domain, upstream, ssl, webserver);
    assert(full =~= Seq::<char>::empty() + loc + tail);
    lemma_contains_within(loc, q, Seq::<char>::empty(), tail);
    let text = grpc_server_block_text(domain, upstream, ssl, webroot_path, ssl_staging, auth, webserver, ipv6_enabled);
    if ssl {
        let first = server_block_text(false, domain, https_upgrade_location_text(), true, Some(webroot_path),
            ssl_staging, webserver, ipv6_enabled);
        let second = server_block_text(true, domain, full, true, None, ssl_staging, webserver, ipv6_enabled);
        lemma_server_block_ends_with_location(true, domain, full, true, None, ssl_staging, webserver, ipv6_enabled);
        let head = server_block_head(true, domain, true, None, ssl_staging, webserver, ipv6_enabled);
        lemma_contains_within(full, q, head, "\n}\n"@);
        let before = "# HTTP server for ACME challenges and redirection\n"@ + first + "\n# HTTPS server for gRPC content\n"@;
        assert(text == before + second);
        assert(text =~= before + second + Seq::<char>::empty());
        lemma_contains_within(second, q, before, Seq::<char>::empty());
    } else {
        lemma_server_block_ends_with_location(false, domain, full, false, Some(webroot_path), ssl_staging, webserver,
            ipv6_enabled);
        let head = server_block_head(false, domain, false, Some(webroot_path), ssl_staging, webserver, ipv6_enabled);
        lemma_contains_within(full, q, head, "\n}\n"@);
    }
}

/// The location that redirects to `to_domain` with the scheme `scheme`, and the
/// closing brace of its server block.
pub open spec fn redirect_ending(scheme: Seq<char>, to_domain: Seq<char>) -> Seq<char> {
    "    location / {\n        return 301 "@ + scheme + "://"@ + to_domain + "$request_uri;\n    }\n}\n"@
}

/// A redirect configuration sends every request to `to_domain`: without TLS its one
/// server answers with a redirect to `to_domain` that keeps the request's scheme;
/// with TLS both its HTTP and its HTTPS server answer with a redirect to `to_domain`
/// over HTTPS.
pub proof fn law_redirect_targets_destination(
    from_domain: Seq<char>,
    to_domain: Seq<char>,
    ssl: bool,
    webroot_path: Seq<char>,
    ssl_staging: bool,
    webserver: WebserverView,
    ipv6_enabled: bool,
)
    ensures
        !ssl ==> ends_with_seq(
            redirect_server_block_text(from_domain, to_domain, ssl, webroot_path, ssl_staging, webserver, ipv6_enabled),
            redirect_ending("$scheme"@, to_domain),
        ),
        ssl ==> exists|a: Seq<char>, b: Seq<char>|
            redirect_server_block_text(from_domain, to_domain, ssl, webroot_path, ssl_staging, webserver, ipv6_enabled)
                == "# HTTP server for ACME challenges and redirection\n"@ + a + "\n# HTTPS server for redirection\n"@ + b
            && #[trigger] ends_with_seq(a, redirect_ending("https"@, to_domain))
            && #[trigger] ends_with_seq(b, redirect_ending("https"@, to_domain)),
{
    let text = redirect_server_block_text(from_domain, to_domain, ssl, webroot_path, ssl_staging, webserver, ipv6_enabled);
    let scheme = if ssl { "https"@ } else { "$scheme"@ };
    let http_redirect = "    location / {\n        return 301 "@ + scheme + "://"@ + to_domain + "$request_uri;\n    }"@;
    let https_redirect = "    location / {\n        return 301 https://"@ + to_domain + "$request_uri;\n    }"@;
    reveal_strlit("    location / {\n        return 301 ");
    reveal_strlit("    location / {\n        return 301 https://");
    reveal_strlit("https");
    reveal_strlit("://");
    reveal_strlit("$request_uri;\n    }");
    reveal_strlit("$request_uri;\n    }\n}\n");
    reveal_strlit("\n}\n");
    assert(http_redirect + "\n}\n"@ =~= redirect_ending(scheme, to_domain));
    if ssl {
        assert(https_redirect + "\n}\n"@ =~= redirect_ending("https"@, to_domain));
        let a = server_block_text(false, from_domain, http_redirect, true, Some(webroot_path), ssl_staging, webserver,
            ipv6_enabled);
        let b = server_block_text(true, from_domain, https_redirect, true, None, ssl_staging, webserver, ipv6_enabled);
        lemma_server_block_ends_with_location(false, from_domain, http_redirect, true, Some(webroot_path), ssl_staging,
            webserver, ipv6_enabled);
        lemma_server_block_ends_with_location(true, from_domain, https_redirect, true, None, ssl_staging, webserver,
            ipv6_enabled);
        let ha = server_block_head(false, from_domain, true, Some(webroot_path), ssl_staging, webserver, ipv6_enabled);
        let hb = server_block_head(true, from_domain, true, None, ssl_staging, webserver, ipv6_enabled);
        assert(a =~= ha + redirect_ending("https"@, to_domain));
        assert(b =~= hb + redirect_ending("https"@, to_domain));
        lemma_ends_with_appended(ha, redirect_ending("https"@, to_domain));
        lemma_ends_with_appended(hb, redirect_ending("https"@, to_domain));
        assert(text == "# HTTP server for ACME challenges and redirection\n"@ + a + "\n# HTTPS server for redirection\n"@ + b);
    } else {
        lemma_server_block_ends_with_location(false, from_domain, http_redirect, false, Some(webroot_path), ssl_staging,
            webserver, ipv6_enabled);
        let h = server_block_head(false, from_domain, false, Some(webroot_path), ssl_staging, webserver, ipv6_enabled);
        assert(text =~= h + redirect_ending("$scheme"@, to_domain));
        lemma_ends_with_appended(h, redirect_ending("$scheme"@, to_domain));
    }
}

} // verus!
