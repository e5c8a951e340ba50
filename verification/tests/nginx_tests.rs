use proxma::domain_tracker::DomainTracker;
use proxma::models::{Auth, AuthType, Webserver};
use proxma::nginx::domain::sanitize_domain;
use proxma::nginx::error::NginxError;
use proxma::nginx::htpasswd::{generate_htpasswd_file, htpasswd_content};
use proxma::nginx::manager::NginxManager;
use proxma::nginx::proxy_rule::ProxyRule as RedirectingRule;
use proxma::nginx::templates::{
    generate_acme_challenge_block, generate_auth_config, generate_proxy_server_block, generate_redirect_server_block,
};
use proxma::proxy_rules::{NginxManager as RuleManager, ProxyRule};

const TIMEOUTS: &str = "    client_max_body_size 100m;\nclient_body_timeout 60s;\nclient_header_timeout 60s;\nsend_timeout 60s;\nkeepalive_timeout 75s;\nproxy_connect_timeout 60s;\nproxy_send_timeout 60s;\nproxy_read_timeout 60s;";

#[test]
fn sanitize_strips_scheme_path_and_punctuation() {
    assert_eq!(sanitize_domain("Example.COM"), "example_com");
    assert_eq!(sanitize_domain("https://my-app.example.com/path?q=1"), "my_app_example_com");
    assert_eq!(sanitize_domain("http://http://a.b"), "a_b");
    assert_eq!(sanitize_domain("shop.example.com#frag"), "shop_example_com");
}

#[test]
fn sanitize_converts_international_names() {
    assert_eq!(sanitize_domain("Bücher.de"), "xn__bcher_kva_de");
}

#[test]
fn domain_file_names() {
    assert_eq!(NginxManager::domain_to_filename("app.example.com"), "proxma_app_example_com.conf");
    let m = NginxManager::new("/etc/nginx/conf.d", "/var/www/html");
    assert_eq!(m.config_file_path("app.example.com"), "/etc/nginx/conf.d/proxma_app_example_com.conf");
    let m2 = NginxManager::new("/etc/nginx/conf.d/", "/var/www/html");
    assert_eq!(m2.config_file_path("a.b"), "/etc/nginx/conf.d/proxma_a_b.conf");
}

#[test]
fn certificate_paths() {
    let (cert, key) = NginxManager::ssl_certificate_paths("a.example.com", true);
    assert_eq!(cert, "/var/proxma/configuration/staging/live/a.example.com/fullchain.pem");
    assert_eq!(key, "/var/proxma/configuration/staging/live/a.example.com/privkey.pem");
    let (cert, _) = NginxManager::ssl_certificate_paths("a.example.com", false);
    assert_eq!(cert, "/var/proxma/configuration/production/live/a.example.com/fullchain.pem");
}

#[test]
fn acme_block() {
    assert_eq!(
        generate_acme_challenge_block("/var/www/html"),
        "    location /.well-known/acme-challenge/ {\n        root /var/www/html;\n    }"
    );
}

#[test]
fn plain_redirect_block() {
    let expected = format!(
        "server {{\n    listen 80;\n    {}\n    # Prevent browsers from automatically redirecting to HTTPS\n    add_header Strict-Transport-Security \"max-age=0\" always;\n    add_header Referrer-Policy \"no-referrer-when-downgrade\" always;\n\n    location /.well-known/acme-challenge/ {{\n        root /var/www/html;\n    }}\n    server_name old.example.com;\n    location / {{\n        return 301 $scheme://new.example.com$request_uri;\n    }}\n}}\n",
        TIMEOUTS
    );
    let got = generate_redirect_server_block(
        "old.example.com",
        "new.example.com",
        false,
        "/var/www/html",
        true,
        Webserver::default(),
        false,
    );
    assert_eq!(got, expected);
}

#[test]
fn tls_redirect_has_two_servers() {
    let got = generate_redirect_server_block("old.example.com", "new.example.com", true, "/w", false, Webserver::default(), true);
    assert!(got.starts_with("# HTTP server for ACME challenges and redirection\nserver {\n    listen 80;\n    listen [::]:80;\n"));
    assert!(got.contains("\n# HTTPS server for redirection\nserver {\n    listen 443 ssl;\n    listen [::]:443 ssl;\n    # Enable HTTP/2\n    http2 on;\n"));
    assert!(got.contains("ssl_certificate /var/proxma/configuration/production/live/old.example.com/fullchain.pem;"));
    assert!(got.contains("return 301 https://new.example.com$request_uri;"));
    assert!(!got.contains("$scheme://"));
}

#[test]
fn basic_auth_config() {
    let mut a = Auth::default();
    assert_eq!(generate_auth_config(&a, "x.com"), "");
    a.enabled = true;
    a.realm = "Members".to_string();
    let c = generate_auth_config(&a, "x.com");
    assert!(c.contains("auth_basic \"Members\";"));
    assert!(c.contains("auth_basic_user_file /var/proxma/htpasswd/x_com;"));
}

#[test]
fn proxy_block_forwards_to_upstream() {
    let got = generate_proxy_server_block("app.example.com", "http://app:8080", false, "/var/www/html", true, Auth::default(), Webserver::default(), false);
    assert!(got.contains("        set $proxma_upstream http://app:8080;\n        proxy_pass $proxma_upstream;\n"));
    assert!(got.contains("proxy_set_header X-Forwarded-Port 80;"));
    assert!(got.contains("proxy_set_header X-Forwarded-Proto http;"));
    assert!(got.contains("server_name app.example.com;"));
    assert!(got.ends_with("}\n"));
}

#[test]
fn htpasswd_only_for_basic_auth() {
    let mut a = Auth::default();
    assert!(matches!(generate_htpasswd_file(&a, "x.com"), Ok(None)));
    a.enabled = true;
    a.auth_type = AuthType::Bearer;
    assert!(matches!(generate_htpasswd_file(&a, "x.com"), Ok(None)));
    a.auth_type = AuthType::Basic;
    a.username = "admin".to_string();
    a.password = " secret\n".to_string();
    let f = generate_htpasswd_file(&a, "x.com").ok().flatten().expect("a password file");
    assert_eq!(f.path, "/var/proxma/htpasswd/x_com");
    assert!(f.content.starts_with("admin:$2b$12$"));
    assert_eq!(f.content.len(), "admin:".len() + 60 + 1);
    assert!(f.content.ends_with('\n'));
    let hash = &f.content["admin:".len()..f.content.len() - 1];
    assert!(bcrypt::verify("secret", hash).unwrap());
    assert!(!bcrypt::verify(" secret\n", hash).unwrap());
    a.password = "secret".to_string();
    let g = generate_htpasswd_file(&a, "x.com").ok().flatten().expect("a password file");
    let hash2 = &g.content["admin:".len()..g.content.len() - 1];
    assert!(bcrypt::verify("secret", hash2).unwrap());
}

#[test]
fn htpasswd_line() {
    assert_eq!(htpasswd_content("u", "h"), "u:h\n");
}

#[test]
fn nginx_error_messages() {
    assert_eq!(NginxError::ReloadFailed("x".to_string()).message(), "Nginx reload failed: x");
    assert_eq!(NginxError::InvalidRule("y".to_string()).message(), "Invalid proxy rule: y");
    let e = NginxError::from(std::io::Error::new(std::io::ErrorKind::Other, "disk full"));
    assert_eq!(e.message(), "IO error: disk full");
}

#[test]
fn tracker_add_remove_and_cleanup() {
    let mut t = DomainTracker::new();
    t.add_domain("a.example.com".to_string());
    t.add_domain("b.example.com".to_string());
    t.add_domain("a.example.com".to_string());
    let mut names = t.get_active_filenames();
    names.sort();
    assert_eq!(names, vec!["proxma_a_example_com.conf".to_string(), "proxma_b_example_com.conf".to_string()]);
    t.remove_domain("b.example.com");
    assert_eq!(t.get_active_filenames(), vec!["proxma_a_example_com.conf".to_string()]);
    let existing = vec![
        "proxma_a_example_com.conf".to_string(),
        "proxma_old_com.conf".to_string(),
        "default.conf".to_string(),
        "proxma_x.txt".to_string(),
    ];
    assert_eq!(t.cleanup_orphaned_configs(&existing), vec!["proxma_old_com.conf".to_string()]);
    assert_eq!(NginxManager::orphaned_configs(&existing, &vec![]), vec!["proxma_a_example_com.conf".to_string(), "proxma_old_com.conf".to_string()]);
}

#[test]
fn rule_manager_keeps_domains_apart() {
    let mut m = RuleManager::new("/etc/nginx/nginx.conf");
    assert_eq!(m.config_path(), "/etc/nginx/nginx.conf");
    let empty = m.generate_config();
    assert!(empty.contains("listen 80 default_server;"));
    let r = m.add_rule(ProxyRule { id: "1".to_string(), domains: vec![], upstream: "u".to_string() });
    assert!(matches!(r, Err(NginxError::InvalidRule(ref s)) if s == "At least one domain required"));
    m.add_rule(ProxyRule { id: "1".to_string(), domains: vec!["a.com".to_string(), "b.com".to_string()], upstream: "http://one".to_string() }).unwrap();
    m.add_rule(ProxyRule { id: "2".to_string(), domains: vec!["b.com".to_string()], upstream: "http://two".to_string() }).unwrap();
    let c = m.generate_config();
    assert!(!c.contains("http://one"));
    assert!(c.contains("server_name b.com;"));
    assert!(c.contains("proxy_pass http://two;"));
    assert!(!m.remove_rule_by_id("1"));
    assert!(m.remove_rule_by_domain("b.com"));
    assert!(m.generate_config().contains("default_server"));
}

#[test]
fn redirecting_rule_default_is_empty() {
    let r = RedirectingRule::default();
    assert!(r.id.is_empty() && r.domains.is_empty() && r.upstream.is_empty() && r.redirects.is_empty());
}
