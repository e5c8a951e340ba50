use proxma::acme_helper::{challenge_url, check_acme_response, curl_args, curl_start_failure};
use proxma::certbot::{Certbot, CertificateRequestResult, ChallengeType, DnsCredentials};
use proxma::dns::auth_manager::{AuthManager, Credentials};
use proxma::dns::cloudflare_manager::{CloudflareManager, RecordUpdate, UpdateAction, UpdateEvent};
use proxma::dns::dns_manager::{DNSManager, DnsContent};
use proxma::dns::record_manager::{is_ipv6_text, parse_ipv4, DnsContentError, DnsRecord, RecordManager, RecordWrite};
use proxma::dns::zone_manager::{matches_zone, ZoneCache, ZoneManager};
use proxma::docker::{CleanupWatch, ContainerEvent};
use proxma::label_map::LabelMap;
use proxma::queue::generic_queue::GenericQueue;
use proxma::queue::models::NginxQueueMessage;
use proxma::text::IntErrorKind;

fn s(x: &str) -> Option<String> {
    Some(x.to_string())
}

#[test]
fn credentials_prefer_email_and_key() {
    match AuthManager::get_credentials(s(" me@x.com "), s("key "), s("tok")) {
        Ok(Credentials::UserAuthKey { email, key }) => {
            assert_eq!(email, "me@x.com");
            assert_eq!(key, "key");
        },
        _ => panic!("email and key expected"),
    }
    match AuthManager::get_credentials(s("me@x.com"), s(""), s(" tok ")) {
        Ok(Credentials::UserAuthToken { token }) => assert_eq!(token, "tok"),
        _ => panic!("token expected"),
    }
    assert_eq!(
        AuthManager::get_credentials(None, s("k"), s("")).unwrap_err(),
        "No valid credentials provided. Available: email=false, api_key=true, api_token=false. Must provide either (email AND api_key) OR api_token"
    );
}

#[test]
fn record_content_text() {
    assert_eq!(DNSManager::dns_content_to_string(&DnsContent::A { content: [192, 168, 0, 10] }), "192.168.0.10");
    assert_eq!(DNSManager::dns_content_to_string(&DnsContent::MX { content: "mail.x.com".to_string(), priority: 10 }), "10 mail.x.com");
    assert_eq!(DNSManager::dns_content_to_string(&DnsContent::CNAME { content: "lb.x.com".to_string() }), "lb.x.com");
    assert_eq!(DNSManager::dns_content_type_string(&DnsContent::AAAA { content: "::1".to_string() }), "AAAA");
    assert_eq!(DNSManager::dns_content_type_string(&DnsContent::SRV { content: "x".to_string() }), "SRV");
    assert!(DNSManager::handles_provider("cloudflare"));
    assert!(!DNSManager::handles_provider("route53"));
}

#[test]
fn ipv4_parsing_is_strict() {
    assert_eq!(parse_ipv4("10.0.0.1"), Some([10, 0, 0, 1]));
    assert_eq!(parse_ipv4("255.255.255.255"), Some([255, 255, 255, 255]));
    assert_eq!(parse_ipv4("256.0.0.1"), None);
    assert_eq!(parse_ipv4("01.0.0.1"), None);
    assert_eq!(parse_ipv4("1.2.3"), None);
    assert_eq!(parse_ipv4("1.2.3.4.5"), None);
    assert_eq!(parse_ipv4("1..3.4"), None);
    assert_eq!(parse_ipv4(" 1.2.3.4"), None);
    assert_eq!(parse_ipv4("0.0.0.0"), Some([0, 0, 0, 0]));
    assert_eq!(parse_ipv4("1.2.3.4 "), None);
    assert_eq!(parse_ipv4("1.2.3.1000"), None);
}

#[test]
fn ipv4_round_trip() {
    let a = [172, 16, 254, 3];
    let text = DNSManager::dns_content_to_string(&DnsContent::A { content: a });
    assert_eq!(parse_ipv4(&text), Some(a));
}

#[test]
fn parse_record_content() {
    assert!(matches!(RecordManager::parse_content("A", "1.2.3.4".to_string()), Ok(DnsContent::A { content: [1, 2, 3, 4] })));
    assert!(matches!(RecordManager::parse_content("A", "x".to_string()), Err(DnsContentError::InvalidIpv4)));
    match RecordManager::parse_content("MX", "5 mail.x.com".to_string()) {
        Ok(DnsContent::MX { content, priority }) => {
            assert_eq!(content, "mail.x.com");
            assert_eq!(priority, 5);
        },
        _ => panic!("MX expected"),
    }
    assert!(matches!(RecordManager::parse_content("MX", "mail.x.com".to_string()), Err(DnsContentError::MxFormat)));
    assert!(matches!(
        RecordManager::parse_content("MX", "99999 m".to_string()),
        Err(DnsContentError::InvalidPriority(IntErrorKind::PosOverflow))
    ));
    let e = RecordManager::parse_content("PTR", "x".to_string()).unwrap_err();
    assert_eq!(e.message(), "Unsupported record type: PTR");
    assert_eq!(DnsContentError::InvalidIpv4.message(), "invalid IPv4 address syntax");
    assert_eq!(DnsContentError::MxFormat.message(), "MX record content should be in format 'priority hostname'");
    assert_eq!(DnsContentError::InvalidPriority(IntErrorKind::InvalidDigit).message(), "invalid digit found in string");
    assert_eq!(DnsContentError::InvalidPriority(IntErrorKind::Empty).message(), "cannot parse integer from empty string");
}

fn record(id: &str, content: DnsContent, proxied: bool) -> DnsRecord {
    DnsRecord { id: id.to_string(), name: "a.x.com".to_string(), proxied, content }
}

#[test]
fn find_first_record_of_type() {
    let records = vec![
        record("1", DnsContent::TXT { content: "t".to_string() }, false),
        record("2", DnsContent::CNAME { content: "c1".to_string() }, false),
        record("3", DnsContent::CNAME { content: "c2".to_string() }, true),
    ];
    assert_eq!(RecordManager::find_record(records.clone(), "CNAME").unwrap().id, "2");
    assert!(RecordManager::find_record(records, "A").is_none());
}

#[test]
fn record_write_updates_existing() {
    let existing = record("9", DnsContent::CNAME { content: "old".to_string() }, false);
    match RecordManager::record_write("a.x.com".to_string(), "CNAME", "new".to_string(), None, Some(true), Some(existing)) {
        Ok(RecordWrite::Update { id, name, content: DnsContent::CNAME { content }, proxied, .. }) => {
            assert_eq!((id.as_str(), name.as_str(), content.as_str(), proxied), ("9", "a.x.com", "new", Some(true)));
        },
        _ => panic!("update expected"),
    }
    assert!(matches!(
        RecordManager::record_write("a".to_string(), "TXT", "v".to_string(), Some(60), None, None),
        Ok(RecordWrite::Create { ttl: Some(60), .. })
    ));
}

#[test]
fn zones_longest_match_wins() {
    let mut c = ZoneCache::new();
    c.insert("example.com".to_string(), "z1".to_string());
    c.insert("sub.example.com".to_string(), "z2".to_string());
    c.insert("other.org".to_string(), "z3".to_string());
    assert_eq!(c.best_match("a.sub.example.com"), Some(("sub.example.com".to_string(), "z2".to_string())));
    assert_eq!(c.best_match("example.com"), Some(("example.com".to_string(), "z1".to_string())));
    assert_eq!(c.best_match("nothing.net"), None);
    c.insert("example.com".to_string(), "z9".to_string());
    assert_eq!(c.best_match("www.example.com"), Some(("example.com".to_string(), "z9".to_string())));
    c.clear();
    assert_eq!(c.best_match("www.example.com"), None);
    assert!(matches_zone("x.example.com.evil.net", "example.com"));
    assert!(!matches_zone("notexample.com", "example.com"));
}

#[test]
fn zone_paging() {
    assert_eq!(ZoneManager::next_page(1, Some(3)), Some(2));
    assert_eq!(ZoneManager::next_page(3, Some(3)), None);
    assert_eq!(ZoneManager::next_page(1, None), None);
    assert_eq!(ZoneManager::next_page(1, Some((1u64 << 32) + 5)), Some(2));
}

#[test]
fn record_names_in_zone() {
    assert_eq!(CloudflareManager::record_name("example.com", "example.com"), "example.com");
    assert_eq!(CloudflareManager::record_name("www.example.com", "example.com"), "www.example.com");
    assert_eq!(CloudflareManager::record_name("www", "example.com"), "www.example.com");
}

#[test]
fn update_needed_when_record_differs() {
    assert!(CloudflareManager::record_needs_update(&None, "a.x.com", "CNAME", false));
    let same = Some(record("1", DnsContent::CNAME { content: "a.x.com".to_string() }, false));
    assert!(!CloudflareManager::record_needs_update(&same, "a.x.com", "CNAME", false));
    assert!(CloudflareManager::record_needs_update(&same, "a.x.com", "CNAME", true));
    assert!(CloudflareManager::record_needs_update(&same, "a.x.com", "A", false));
}

#[test]
fn certbot_webroot_arguments() {
    let cb = Certbot::new();
    let req = cb.prepare_request("a.com", "me@a.com", &ChallengeType::Webroot, true).unwrap();
    assert!(req.credentials.is_none());
    assert_eq!(
        req.args,
        vec![
            "certonly", "--non-interactive", "--email", "me@a.com", "--quiet", "-d", "a.com", "--webroot", "-w",
            "/var/www/html", "--config-dir", "/var/proxma/configuration", "--work-dir", "/var/proxma/work",
            "--logs-dir", "/var/proxma/logs", "--agree-tos", "--staging",
        ]
    );
}

#[test]
fn certbot_cloudflare_arguments_and_credentials() {
    let cb = Certbot::new();
    let creds = DnsCredentials { provider: "cloudflare".to_string(), api_token: "T".to_string(), email: None, api_key: None };
    let req = cb.prepare_request("a.com", "m", &ChallengeType::Dns("cloudflare".to_string(), Some(creds)), false).unwrap();
    let f = req.credentials.unwrap();
    assert_eq!(f.dir, "/var/proxma/configuration/cloudflare");
    assert_eq!(f.path, "/var/proxma/configuration/cloudflare/credentials.ini");
    assert_eq!(f.content, "dns_cloudflare_api_token = T");
    assert_eq!(&req.args[7..11], &["--dns-cloudflare", "--dns-cloudflare-credentials", "/var/proxma/configuration/cloudflare/credentials.ini", "--config-dir"]);
    assert_eq!(&req.args[req.args.len() - 2..], &["--dns-cloudflare-propagation-seconds", "30"]);
    let key = DnsCredentials { provider: "cloudflare".to_string(), api_token: String::new(), email: s("e"), api_key: s("k") };
    assert_eq!(Certbot::cloudflare_credentials_content(&key).unwrap(), "dns_cloudflare_email = e\ndns_cloudflare_api_key = k");
    let none = DnsCredentials { provider: "cloudflare".to_string(), api_token: String::new(), email: s("e"), api_key: None };
    let invalid = cb.prepare_request("a.com", "m", &ChallengeType::Dns("cloudflare".to_string(), Some(none)), false).err().unwrap();
    assert_eq!(invalid.message, "Invalid Cloudflare credentials configuration");
    assert_eq!(invalid.dir, "/var/proxma/configuration/cloudflare");
    assert_eq!(invalid.path, "/var/proxma/configuration/cloudflare/credentials.ini");
    let other = cb.prepare_request("a.com", "m", &ChallengeType::Dns("route53".to_string(), None), false).unwrap();
    assert!(!other.args.contains(&"--dns-cloudflare".to_string()));
    assert!(other.args.contains(&"--dns-cloudflare-propagation-seconds".to_string()));
}

#[test]
fn certbot_failure_report() {
    let args = vec!["certonly".to_string(), "-d".to_string(), "a.com".to_string()];
    assert_eq!(
        Certbot::failure_message(Some(1), &args, "out", "err"),
        "Certbot command failed with status: Some(1)\nCommand: certbot certonly -d a.com\nOutput: out\nError: err"
    );
    assert!(Certbot::failure_message(None, &args, "", "").starts_with("Certbot command failed with status: None\n"));
    assert!(Certbot::failure_message(Some(-9), &args, "", "").contains("Some(-9)"));
}

#[test]
fn acme_check_results() {
    assert_eq!(challenge_url("a.com"), "http://a.com/.well-known/acme-challenge/proxma.proxma");
    assert_eq!(curl_args("a.com")[4], "1.1.1.1,8.8.8.8");
    assert!(matches!(check_acme_response("a.com", true, " proxma\n", ""), CertificateRequestResult::Success));
    match check_acme_response("a.com", true, "nginx", "") {
        CertificateRequestResult::AcmeChallengeFailure(m) => assert_eq!(
            m,
            "Incorrect content at http://a.com/.well-known/acme-challenge/proxma.proxma: Expected 'proxma' but got 'nginx'"
        ),
        _ => panic!("failure expected"),
    }
    match check_acme_response("a.com", false, "", "timeout") {
        CertificateRequestResult::AcmeChallengeFailure(m) => {
            assert_eq!(m, "curl command failed for http://a.com/.well-known/acme-challenge/proxma.proxma: timeout")
        },
        _ => panic!("failure expected"),
    }
    match curl_start_failure("not found") {
        CertificateRequestResult::AcmeChallengeFailure(m) => assert_eq!(m, "Failed to execute curl command: not found"),
        _ => panic!("failure expected"),
    }
}

fn labels(pairs: &[(&str, &str)]) -> LabelMap {
    let mut m = LabelMap::new();
    for (k, v) in pairs {
        m.insert(k.to_string(), v.to_string());
    }
    m
}

#[test]
fn events_from_docker() {
    let e = ContainerEvent::from_summary(s("id1"), s("img"), Some(vec!["//web".to_string(), "x".to_string()]), None, "start").unwrap();
    assert_eq!((e.container_id.as_str(), e.image.as_str(), e.name.as_str(), e.action.as_str()), ("id1", "img", "web", "start"));
    assert!(ContainerEvent::from_summary(s("id1"), None, Some(vec!["w".to_string()]), None, "start").is_none());
    assert!(ContainerEvent::from_summary(s("id1"), s("i"), Some(vec![]), None, "start").is_none());
    let m = ContainerEvent::from_message(s("id2"), s("die"), Some(labels(&[("image", "nginx"), ("proxma.hosts", "a.com")]))).unwrap();
    assert_eq!((m.image.as_str(), m.name.as_str(), m.action.as_str()), ("nginx", "", "die"));
    assert!(m.labels.contains_key("proxma.hosts"));
    assert!(ContainerEvent::from_message(s("id2"), None, None).is_none());
    let n = m.with_networks(vec!["net".to_string()]);
    assert_eq!(n.networks, vec!["net".to_string()]);
}

#[test]
fn only_start_and_die_of_proxied_containers_are_queued() {
    let mut q: GenericQueue<NginxQueueMessage> = GenericQueue::new();
    let env = labels(&[("PROXMA_SSL_EMAIL", "e@x"), ("PROXMA_DNS_PROVIDER", "route53"), ("PROXMA_DNS_TARGET", "t")]);
    let stop = ContainerEvent::from_message(s("c"), s("stop"), Some(labels(&[("proxma.hosts", "a.com:80")]))).unwrap();
    assert!(!stop.dispatch(&mut q, &env));
    let plain = ContainerEvent::from_message(s("c"), s("start"), Some(labels(&[("x", "y")]))).unwrap();
    assert!(!plain.dispatch(&mut q, &env));
    assert!(q.is_empty());
    let start = ContainerEvent::from_message(s("c"), s("start"), Some(labels(&[("proxma.hosts", "a.com:80")]))).unwrap();
    assert!(start.dispatch(&mut q, &env));
    assert_eq!(q.size(), 1);
}

#[test]
fn cleanup_after_three_quiet_checks() {
    let mut w = CleanupWatch::new();
    assert!(!w.observe(0));
    assert!(!w.observe(0));
    assert!(!w.observe(2));
    assert!(!w.observe(0));
    assert!(!w.observe(0));
    assert!(w.observe(0));
    assert!(!w.observe(0));
}

#[test]
fn record_update_steps() {
    let u = RecordUpdate { record: "www".to_string(), record_type: "CNAME".to_string(), proxied: false };
    match CloudflareManager::update_step(&u, UpdateEvent::ZoneFound(Some(("example.com".to_string(), "z1".to_string())))) {
        UpdateAction::LookUpRecord { zone_id, record_name } => {
            assert_eq!(zone_id, "z1");
            assert_eq!(record_name, "www.example.com");
        },
        _ => panic!("record lookup expected"),
    }
    assert!(matches!(CloudflareManager::update_step(&u, UpdateEvent::ZoneFound(None)), UpdateAction::Finish(false)));
    assert!(matches!(CloudflareManager::update_step(&u, UpdateEvent::ZoneError), UpdateAction::Finish(false)));
    assert!(matches!(CloudflareManager::update_step(&u, UpdateEvent::RecordError), UpdateAction::Finish(false)));
    match CloudflareManager::update_step(&u, UpdateEvent::RecordFound("www.example.com".to_string(), None)) {
        UpdateAction::HandOn { record_name } => assert_eq!(record_name, "www.example.com"),
        _ => panic!("write expected"),
    }
    let same = Some(record("1", DnsContent::CNAME { content: "www".to_string() }, false));
    assert!(matches!(CloudflareManager::update_step(&u, UpdateEvent::RecordFound("www.example.com".to_string(), same)), UpdateAction::Finish(true)));
}

#[test]
fn ipv6_text_check() {
    for ok in [
        "::", "::1", "1::", "2001:db8::8a2e:370:7334", "2001:0db8:0000:0000:0000:ff00:0042:8329",
        "1:2:3:4:5:6:7:8", "1:2:3:4:5:6:7::", "::2:3:4:5:6:7:8", "::ffff:192.168.1.1", "1:2:3:4:5:6:1.2.3.4",
        "1:2:3:4:5::1.2.3.4", "ABCD::ef",
    ] {
        assert!(is_ipv6_text(ok), "{}", ok);
    }
    for bad in [
        "", "zzz", ":", ":::", "1:::2", "1::2::3", "1:2:3:4:5:6:7", "1:2:3:4:5:6:7:8:9", "1:2:3:4:5:6:7:8::",
        "1::2:3:4:5:6:7:8", "12345::", "1.2.3.4::", "::1.2.3.4:5", "1:2:3:4:5:6::1.2.3.4", "::1.2.3.04",
        "::1.2.3.256", "1:2:3:4:5:1.2.3.4", "g::", " ::1",
    ] {
        assert!(!is_ipv6_text(bad), "{}", bad);
    }
}

#[test]
fn aaaa_records_need_an_ipv6_address() {
    assert!(matches!(RecordManager::parse_content("AAAA", "zzz".to_string()), Err(DnsContentError::InvalidIpv6)));
    assert_eq!(DnsContentError::InvalidIpv6.message(), "invalid IPv6 address syntax");
    assert!(matches!(
        RecordManager::record_write("a".to_string(), "AAAA", "zzz".to_string(), None, None, None),
        Err(DnsContentError::InvalidIpv6)
    ));
    match RecordManager::parse_content("AAAA", "2001:db8::1".to_string()) {
        Ok(DnsContent::AAAA { content }) => assert_eq!(content, "2001:db8::1"),
        _ => panic!("AAAA expected"),
    }
}

#[test]
fn zone_pages_are_recorded_in_order() {
    let mut c = ZoneCache::new();
    c.insert_zones(vec![("example.com".to_string(), "z1".to_string()), ("other.org".to_string(), "z2".to_string())]);
    c.insert_zones(vec![("example.com".to_string(), "z3".to_string())]);
    assert_eq!(c.best_match("www.example.com"), Some(("example.com".to_string(), "z3".to_string())));
    assert_eq!(c.best_match("other.org"), Some(("other.org".to_string(), "z2".to_string())));
    c.insert_zones(Vec::new());
    assert_eq!(c.best_match("nothing.net"), None);
}
