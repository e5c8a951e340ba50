use proxma::certbot::CertificateRequestResult;
use proxma::domain_tracker::DomainTracker;
use proxma::label_map::LabelMap;
use proxma::queue::basic_queue::{Dequeue, Enqueue};
use proxma::queue::cert_processor::{retry_delay_seconds, CertAction, CertEvent, CertQueueProcessor};
use proxma::queue::cert_queue::{CertDequeue, CertEnqueue};
use proxma::queue::generic_queue::GenericQueue;
use proxma::queue::models::{CertificateQueueMessage, NginxQueueMessage};
use proxma::queue::nginx_dequeue::NginxDequeue;
use proxma::queue::nginx_enqueue::NginxEnqueue;
use proxma::queue::nginx_processor::{ActionKind, NginxQueueProcessor, Poll};

fn labels(pairs: &[(&str, &str)]) -> LabelMap {
    let mut m = LabelMap::new();
    for (k, v) in pairs {
        m.insert(k.to_string(), v.to_string());
    }
    m
}

fn planned(pairs: &[(&str, &str)], env: &[(&str, &str)]) -> Vec<NginxQueueMessage> {
    let mut q: GenericQueue<NginxQueueMessage> = GenericQueue::new();
    NginxEnqueue::process_container_event(
        &mut q,
        "start".to_string(),
        "c1".to_string(),
        "web".to_string(),
        "nginx:latest".to_string(),
        vec!["bridge".to_string()],
        &labels(pairs),
        &labels(env),
    );
    let mut out = Vec::new();
    while let Some(m) = q.dequeue() {
        out.push(m);
    }
    out
}

#[test]
fn generic_queue_is_first_in_first_out() {
    let mut q: GenericQueue<u32> = GenericQueue::new();
    assert!(q.is_empty());
    q.enqueue(1);
    q.enqueue(2);
    q.enqueue(3);
    assert_eq!(q.size(), 3);
    assert_eq!(q.peek(), Some(1));
    assert_eq!(q.dequeue(), Some(1));
    assert_eq!(q.dequeue(), Some(2));
    assert_eq!(q.dequeue(), Some(3));
    assert_eq!(q.dequeue(), None);
}

#[test]
fn container_without_hosts_label_is_ignored() {
    assert!(!NginxEnqueue::should_process_container(&labels(&[("other", "x")])));
    assert!(NginxEnqueue::should_process_container(&labels(&[("proxma.hosts", "")])));
    assert!(planned(&[("proxma.ssl.email", "a@b.c")], &[]).is_empty());
}

#[test]
fn hosts_become_messages_in_order() {
    let ms = planned(
        &[
            ("proxma.hosts", "app.example.com:8080, api.example.com:9000:GRPC,, bad.example.com:0, noport.example.com"),
            ("proxma.ssl.email", " admin@example.com "),
            ("proxma.dns.provider", "route53"),
            ("proxma.redirects", "www.example.com>example.com, old.example.com:new.example.com, broken"),
        ],
        &[],
    );
    assert_eq!(ms.len(), 4);
    let h0 = ms[0].host.as_ref().unwrap();
    assert_eq!((h0.domain.as_str(), h0.port, h0.protocol.as_str()), ("app.example.com", 8080, "http"));
    let h1 = ms[1].host.as_ref().unwrap();
    assert_eq!((h1.domain.as_str(), h1.port, h1.protocol.as_str()), ("api.example.com", 9000, "grpc"));
    let r0 = ms[2].redirect.as_ref().unwrap();
    assert_eq!((r0.from.as_str(), r0.to.as_str()), ("www.example.com", "example.com"));
    let r1 = ms[3].redirect.as_ref().unwrap();
    assert_eq!((r1.from.as_str(), r1.to.as_str()), ("old.example.com", "new.example.com"));
    for m in &ms {
        assert_eq!(m.ssl_email, "admin@example.com");
        assert!(m.ssl_staging);
        assert!(!m.ssl);
        assert!(m.skip_dns);
        assert_eq!(m.dns_provider.as_deref(), Some("route53"));
        assert_eq!(m.action, "start");
        assert_eq!(m.container_id, "c1");
        assert!(!m.skip_certification);
        assert!(m.delay_until.is_none());
    }
    assert!(ms[0].hosting && !ms[2].hosting);
}

#[test]
fn global_port_serves_hosts_without_port() {
    let ms = planned(
        &[("proxma.hosts", "a.example.com"), ("proxma.port", " 3000 "), ("proxma.ssl.email", "x@y.z"), ("proxma.dns.provider", "route53")],
        &[],
    );
    assert_eq!(ms.len(), 1);
    assert_eq!(ms[0].host.as_ref().unwrap().port, 3000);
}

#[test]
fn missing_email_skips_container() {
    let ms = planned(&[("proxma.hosts", "a.example.com:80"), ("proxma.dns.provider", "route53")], &[]);
    assert!(ms.is_empty());
    let ms = planned(&[("proxma.hosts", "a.example.com:80"), ("proxma.dns.provider", "route53")], &[("PROXMA_SSL_EMAIL", "e@x.y")]);
    assert_eq!(ms.len(), 1);
    assert_eq!(ms[0].ssl_email, "e@x.y");
}

#[test]
fn environment_dns_provider_is_checked() {
    let base = [("proxma.hosts", "a.example.com:80"), ("proxma.ssl.email", "x@y.z")];
    assert!(planned(&base, &[]).is_empty());
    assert!(planned(&base, &[("PROXMA_DNS_PROVIDER", "bind")]).is_empty());
    assert!(planned(&base, &[("PROXMA_DNS_PROVIDER", "Route53")]).is_empty());
    let ms = planned(&base, &[("PROXMA_DNS_PROVIDER", "Route53"), ("PROXMA_DNS_TARGET", "lb.example.com")]);
    assert_eq!(ms.len(), 1);
    assert!(!ms[0].skip_dns);
    assert_eq!(ms[0].dns_provider.as_deref(), Some("route53"));
    assert_eq!(ms[0].dns_record_type.as_deref(), Some("CNAME"));
    assert_eq!(ms[0].dns_record_target.as_deref(), Some("lb.example.com"));
}

#[test]
fn cloudflare_needs_credentials() {
    let base = [("proxma.hosts", "a.example.com:80"), ("proxma.ssl.email", "x@y.z")];
    let env = [("PROXMA_DNS_PROVIDER", "cloudflare"), ("PROXMA_DNS_TARGET", "t")];
    assert!(planned(&base, &env).is_empty());
    let mut with_key = base.to_vec();
    with_key.push(("proxma.cloudflare.api_key", "k"));
    assert!(planned(&with_key, &env).is_empty());
    with_key.push(("proxma.cloudflare.email", "e@x"));
    let ms = planned(&with_key, &env);
    assert_eq!(ms.len(), 1);
    assert_eq!(ms[0].cloudflare_api_key.as_deref(), Some("k"));
    assert_eq!(ms[0].cloudflare_email.as_deref(), Some("e@x"));
    let mut env_token = env.to_vec();
    env_token.push(("PROXMA_CLOUDFLARE_API_TOKEN", " tok "));
    let ms = planned(&base, &env_token);
    assert_eq!(ms[0].cloudflare_api_token.as_deref(), Some("tok"));
}

#[test]
fn auth_needs_user_and_password() {
    let base = [("proxma.hosts", "a.example.com:80"), ("proxma.ssl.email", "x@y.z"), ("proxma.dns.provider", "route53"), ("proxma.auth", "TRUE")];
    let ms = planned(&base, &[]);
    assert!(!ms[0].auth.enabled);
    let mut full = base.to_vec();
    full.push(("proxma.auth.username", "u"));
    full.push(("proxma.auth.password", " p "));
    let ms = planned(&full, &[]);
    assert!(ms[0].auth.enabled);
    assert_eq!(ms[0].auth.password, "p");
}

#[test]
fn webserver_settings_are_validated() {
    let ms = planned(
        &[
            ("proxma.hosts", "a.example.com:80"),
            ("proxma.ssl.email", "x@y.z"),
            ("proxma.dns.provider", "route53"),
            ("proxma.webserver.client_max_body_size", "20m"),
            ("proxma.webserver.send_timeout", "abc"),
            ("proxma.webserver.keepalive_timeout", "0"),
        ],
        &[],
    );
    assert_eq!(ms[0].webserver.client_max_body_size, "20m");
    assert_eq!(ms[0].webserver.send_timeout, "60s");
    assert_eq!(ms[0].webserver.keepalive_timeout, "0");
}

#[test]
fn clearing_pending_messages_spares_others() {
    let mut q: GenericQueue<NginxQueueMessage> = GenericQueue::new();
    let ms = planned(
        &[("proxma.hosts", "a.example.com:80, b.example.com:81"), ("proxma.ssl.email", "x@y.z"), ("proxma.dns.provider", "route53")],
        &[],
    );
    for m in ms {
        q.enqueue(m);
    }
    NginxDequeue::clear_pending_messages_by_action(&mut q, "a.example.com", "c1", "start");
    assert_eq!(q.size(), 1);
    assert_eq!(NginxDequeue::peek(&q).unwrap().host.unwrap().domain, "b.example.com");
    NginxDequeue::clear_pending_messages(&mut q, "b.example.com", "c1");
    assert_eq!(q.size(), 1);
    assert!(!NginxDequeue::is_empty(&q));
}

fn sample_message() -> NginxQueueMessage {
    planned(&[("proxma.hosts", "a.example.com:80"), ("proxma.ssl.email", "x@y.z"), ("proxma.dns.provider", "route53")], &[])
        .remove(0)
}

#[test]
fn certificate_queue_clears_leading_requests_of_a_domain() {
    let mut q: GenericQueue<CertificateQueueMessage> = GenericQueue::new();
    CertEnqueue::message(&mut q, "a.com".to_string(), sample_message());
    CertEnqueue::message(&mut q, "a.com".to_string(), sample_message());
    CertEnqueue::message(&mut q, "b.com".to_string(), sample_message());
    CertEnqueue::message(&mut q, "a.com".to_string(), sample_message());
    assert_eq!(CertDequeue::size(&q), 4);
    CertDequeue::clear_pending_messages(&mut q, "a.com");
    assert_eq!(CertDequeue::size(&q), 2);
    assert_eq!(CertDequeue::message(&mut q).unwrap().domain, "b.com");
    assert_eq!(CertDequeue::message(&mut q).unwrap().domain, "a.com");
    assert!(CertDequeue::is_empty(&q));
}

#[test]
fn delayed_requests_wait() {
    let mut q: GenericQueue<CertificateQueueMessage> = GenericQueue::new();
    CertEnqueue::message_with_delay_at(&mut q, "a.com".to_string(), 10, sample_message(), 1_000_000_000);
    let m = CertDequeue::peek(&q).unwrap();
    assert_eq!(m.delay_until, Some(11_000_000_000));
    assert_eq!(m.delay_seconds, Some(10));
    assert!(matches!(CertQueueProcessor::next_request_at(&mut q, 10_999_999_999), Poll::Deferred));
    assert_eq!(CertDequeue::size(&q), 1);
    match CertQueueProcessor::next_request_at(&mut q, 11_000_000_000) {
        Poll::Ready(m) => assert_eq!(m.domain, "a.com"),
        _ => panic!("the request is due"),
    }
    assert!(matches!(CertQueueProcessor::next_request_at(&mut q, 0), Poll::Idle));
}

#[test]
fn retry_delays_grow_to_an_hour() {
    assert_eq!(retry_delay_seconds(10, None), 10);
    assert_eq!(retry_delay_seconds(10, Some(20)), 30);
    assert_eq!(retry_delay_seconds(600, Some(3500)), 3600);
}

#[test]
fn certificate_request_steps() {
    let mut nq: GenericQueue<NginxQueueMessage> = GenericQueue::new();
    let mut cq: GenericQueue<CertificateQueueMessage> = GenericQueue::new();
    CertEnqueue::message_at(&mut cq, "a.com".to_string(), sample_message(), 0);
    let req = CertDequeue::message(&mut cq).unwrap();
    assert_eq!(CertQueueProcessor::process_certificate_request_at(&mut nq, &mut cq, &req, CertEvent::Start, 5), CertAction::CheckAcmeChallenge);
    let failed = CertEvent::AcmeChecked(Some(CertificateRequestResult::AcmeChallengeFailure("no".to_string())));
    assert_eq!(CertQueueProcessor::process_certificate_request_at(&mut nq, &mut cq, &req, failed, 5), CertAction::Done);
    let again = CertDequeue::peek(&cq).unwrap();
    assert_eq!(again.delay_seconds, Some(10));
    assert_eq!(again.delay_until, Some(10_000_000_005));
    let ok = CertEvent::AcmeChecked(Some(CertificateRequestResult::Success));
    assert_eq!(CertQueueProcessor::process_certificate_request_at(&mut nq, &mut cq, &req, ok, 5), CertAction::RequestCertificate);
    assert_eq!(CertQueueProcessor::process_certificate_request_at(&mut nq, &mut cq, &req, CertEvent::CertbotFinished(true), 7), CertAction::Done);
    let replay = NginxDequeue::message(&mut nq).unwrap();
    assert!(replay.skip_certification);
    assert_eq!(replay.created_at, 7);
    let mut cf = sample_message();
    cf.ssl_dns_provider = Some("cloudflare".to_string());
    CertEnqueue::message_at(&mut cq, "c.com".to_string(), cf, 0);
    let _ = CertDequeue::message(&mut cq);
    let cf_req = CertDequeue::message(&mut cq).unwrap();
    assert_eq!(CertQueueProcessor::process_certificate_request_at(&mut nq, &mut cq, &cf_req, CertEvent::Start, 5), CertAction::RequestCertificate);
}

#[test]
fn processor_actions_and_urls() {
    assert_eq!(NginxQueueProcessor::action_kind("start"), ActionKind::Start);
    assert_eq!(NginxQueueProcessor::action_kind("die"), ActionKind::Die);
    assert_eq!(NginxQueueProcessor::action_kind("stop"), ActionKind::Unknown);
    let m = planned(
        &[("proxma.hosts", "g.example.com:50051:grpc"), ("proxma.ssl.email", "x@y.z"), ("proxma.dns.provider", "route53")],
        &[],
    )
    .remove(0);
    let h = m.host.as_ref().unwrap();
    assert_eq!(NginxQueueProcessor::upstream_url("svc", h), "svc:50051");
    assert_eq!(NginxQueueProcessor::display_url("svc", h), "grpc://svc:50051");
    let m2 = sample_message();
    assert_eq!(NginxQueueProcessor::upstream_url("web", m2.host.as_ref().unwrap()), "http://web:80");
}

#[test]
fn die_forgets_domain_and_pending_work() {
    let mut nq: GenericQueue<NginxQueueMessage> = GenericQueue::new();
    let mut cq: GenericQueue<CertificateQueueMessage> = GenericQueue::new();
    let mut tracker = DomainTracker::new();
    tracker.add_domain("a.example.com".to_string());
    let mut die = sample_message();
    die.action = "die".to_string();
    nq.enqueue(die.clone());
    CertEnqueue::message_at(&mut cq, "a.example.com".to_string(), sample_message(), 0);
    let d = NginxQueueProcessor::process_die_action(&mut nq, &mut cq, &mut tracker, &die);
    assert_eq!(d.as_deref(), Some("a.example.com"));
    assert!(nq.is_empty());
    assert!(cq.is_empty());
    assert!(tracker.get_active_filenames().is_empty());
}

#[test]
fn legacy_queue_uses_port_and_redirects() {
    let mut q = GenericQueue::new();
    assert!(Enqueue::should_process_container(&labels(&[("proxma.hosts", "a.com")])));
    Enqueue::process_container_event(
        &mut q,
        "start".to_string(),
        "c".to_string(),
        "n".to_string(),
        "i".to_string(),
        vec![],
        &labels(&[("proxma.hosts", "a.com, b.com"), ("proxma.ssl", "True"), ("proxma.redirects", "x.com:a.com")]),
    );
    assert_eq!(Enqueue::size(&q), 3);
    assert_eq!(Dequeue::size(&q), 3);
    let first = Dequeue::message(&mut q).unwrap();
    assert_eq!(first.host.as_ref().unwrap().port, 80);
    assert!(first.ssl);
    let _ = Dequeue::message(&mut q);
    let red = Dequeue::peek(&q).unwrap();
    assert_eq!(red.redirect.as_ref().unwrap().from, "x.com");
    assert!(!Dequeue::is_empty(&q));
}
