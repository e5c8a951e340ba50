//! The decisions taken while working through the certificate queue.
use vstd::prelude::*;
use crate::clock::now_nanos;
use crate::certbot::CertificateRequestResult;
use crate::queue::cert_queue::{CertEnqueue, certificate_request};
use crate::queue::generic_queue::GenericQueue;
use crate::queue::models::{CertificateQueueMessage, NginxQueueMessage, opt_view};
use crate::queue::nginx_enqueue::{NginxEnqueue, stamped};
use crate::queue::nginx_processor::{Poll, waits};
use crate::text::str_eq;

verus! {

/// What the last step of a certificate request gave.
pub enum CertEvent {
    /// The request was just taken from the queue.
    Start,
    /// The ACME challenge check gave this result (`None`: the check itself failed).
    AcmeChecked(Option<CertificateRequestResult>),
    /// certbot succeeded or failed.
    CertbotFinished(bool),
}

/// What to do next for a certificate request.
#[derive(Clone, Copy, Debug, PartialEq, Eq, Structural)]
pub enum CertAction {
    /// Check that the ACME challenge path of the domain is served.
    CheckAcmeChallenge,
    /// Run certbot for the domain.
    RequestCertificate,
    /// Nothing more to do.
    Done,
}

/// Whether the certificate is obtained through Cloudflare DNS, without checking the
/// ACME challenge path first.
pub open spec fn through_cloudflare(m: CertificateQueueMessage) -> bool {
    opt_view(m.ssl_dns_provider) == Some("cloudflare"@)
}

/// The delay before retrying: `base` seconds more than the previous delay, at most
/// an hour.
pub open spec fn retry_delay(base: u64, previous: Option<u64>) -> u64 {
    let d = base + match previous {
        Some(p) => p,
        None => 0,
    };
    if d >= 3600 { 3600 } else { d as u64 }
}

/// The delay before retrying a request.
pub fn retry_delay_seconds(base: u64, previous: Option<u64>) -> (r: u64)
    requires
        base + match previous {
            Some(p) => p,
            None => 0,
        } <= u64::MAX,
    ensures
        r == retry_delay(base, previous),
        r <= 3600,
{
    let p = match previous {
        Some(p) => p,
        None => 0,
    };
    let d = base + p;
    if d >= 3600 { 3600 } else { d }
}

/// Works through the certificate queue.
pub struct CertQueueProcessor;

impl CertQueueProcessor {
    /// Takes the next request at time `now`; a request whose deadline lies ahead goes
    /// back to the queue unchanged.
    pub fn next_request_at(queue: &mut GenericQueue<CertificateQueueMessage>, now: i128) -> (r: Poll<CertificateQueueMessage>)
        ensures
            old(queue)@.len() == 0 ==> r is Idle && final(queue)@ == old(queue)@,
            old(queue)@.len() > 0 && !waits(old(queue)@[0]@.delay_until, now) ==> r == Poll::Ready(old(queue)@[0])
                && final(queue)@ == old(queue)@.drop_first(),
            old(queue)@.len() > 0 && waits(old(queue)@[0]@.delay_until, now) ==> r is Deferred
                && final(queue)@.len() == old(queue)@.len()
                && final(queue)@.drop_last() == old(queue)@.drop_first()
                && final(queue)@.last()@ == old(queue)@[0]@,
    {
        match queue.dequeue() {
            None => Poll::Idle,
            Some(message) => {
                let wait = match message.delay_until {
                    Some(t) => now < t,
                    None => false,
                };
                if wait {
                    let again = message.clone();
                    CertEnqueue::direct_message(queue, again);
                    assert(final(queue)@.drop_last() =~= old(queue)@.drop_first());
                    Poll::Deferred
                } else {
                    Poll::Ready(message)
                }
            },
        }
    }

    /// Takes the next request as of now (see `next_request_at`).
    pub fn next_request(queue: &mut GenericQueue<CertificateQueueMessage>) -> (r: Poll<CertificateQueueMessage>)
        ensures
            old(queue)@.len() == 0 ==> r is Idle && final(queue)@ == old(queue)@,
            old(queue)@.len() > 0 && old(queue)@[0]@.delay_until is None ==> r == Poll::Ready(old(queue)@[0])
                && final(queue)@ == old(queue)@.drop_first(),
            r is Ready ==> old(queue)@.len() > 0 && r == Poll::Ready(old(queue)@[0])
                && final(queue)@ == old(queue)@.drop_first(),
            r is Deferred ==> old(queue)@.len() > 0 && final(queue)@.drop_last() == old(queue)@.drop_first()
                && final(queue)@.last()@ == old(queue)@[0]@,
    {
        let now = now_nanos();
        Self::next_request_at(queue, now)
    }

    /// The next step of a certificate request, at time `now`. A request through
    /// Cloudflare goes to certbot at once; any other is preceded by an ACME challenge
    /// check. A challenge that fails is retried 10 seconds later than last time, a
    /// certbot failure after such a check 600 seconds later (at most an hour); once
    /// certbot succeeds the nginx message is replayed without another certificate
    /// request. Other failures end the request.
    pub fn process_certificate_request_at(
        nginx_queue: &mut GenericQueue<NginxQueueMessage>,
        cert_queue: &mut GenericQueue<CertificateQueueMessage>,
        message: &CertificateQueueMessage,
        event: CertEvent,
        now: i128,
    ) -> (r: CertAction)
        requires
            (event matches CertEvent::AcmeChecked(Some(CertificateRequestResult::AcmeChallengeFailure(_)))) ==> 10
                + match message.delay_seconds { Some(p) => p, None => 0 } <= u64::MAX,
            (event matches CertEvent::CertbotFinished(false)) && !through_cloudflare(*message) ==> 600
                + match message.delay_seconds { Some(p) => p, None => 0 } <= u64::MAX,
        ensures
            match event {
                CertEvent::Start => {
                    &&& r == if through_cloudflare(*message) { CertAction::RequestCertificate } else { CertAction::CheckAcmeChallenge }
                    &&& final(nginx_queue)@ == old(nginx_queue)@ && final(cert_queue)@ == old(cert_queue)@
                },
                CertEvent::AcmeChecked(outcome) => match outcome {
                    Some(CertificateRequestResult::Success) => r == CertAction::RequestCertificate
                        && final(nginx_queue)@ == old(nginx_queue)@ && final(cert_queue)@ == old(cert_queue)@,
                    Some(CertificateRequestResult::AcmeChallengeFailure(_)) => {
                        &&& r == CertAction::Done
                        &&& final(nginx_queue)@ == old(nginx_queue)@
                        &&& final(cert_queue)@.len() == old(cert_queue)@.len() + 1
                        &&& final(cert_queue)@.drop_last() == old(cert_queue)@
                        &&& final(cert_queue)@.last()@ == certificate_request(message@.domain,
                            message@.nginx_queue_message, now, Some(retry_delay(10, message.delay_seconds)))
                    },
                    _ => r == CertAction::Done && final(nginx_queue)@ == old(nginx_queue)@
                        && final(cert_queue)@ == old(cert_queue)@,
                },
                CertEvent::CertbotFinished(ok) => {
                    &&& r == CertAction::Done
                    &&& ok ==> final(nginx_queue)@.len() == old(nginx_queue)@.len() + 1
                        && final(nginx_queue)@.drop_last() == old(nginx_queue)@
                        && final(nginx_queue)@.last()@ == stamped(message@.nginx_queue_message, true, now)
                        && final(cert_queue)@ == old(cert_queue)@
                    &&& !ok && through_cloudflare(*message) ==> final(nginx_queue)@ == old(nginx_queue)@
                        && final(cert_queue)@ == old(cert_queue)@
                    &&& !ok && !through_cloudflare(*message) ==> final(nginx_queue)@ == old(nginx_queue)@
                        && final(cert_queue)@.len() == old(cert_queue)@.len() + 1
                        && final(cert_queue)@.drop_last() == old(cert_queue)@
                        && final(cert_queue)@.last()@ == certificate_request(message@.domain,
                            message@.nginx_queue_message, now, Some(retry_delay(600, message.delay_seconds)))
                },
            },
    {
        let cloudflare = match &message.ssl_dns_provider {
            Some(p) => str_eq(p.as_str(), "cloudflare"),
            None => false,
        };
        match event {
            CertEvent::Start => {
                if cloudflare { CertAction::RequestCertificate } else { CertAction::CheckAcmeChallenge }
            },
            CertEvent::AcmeChecked(outcome) => match outcome {
                Some(CertificateRequestResult::Success) => CertAction::RequestCertificate,
                Some(CertificateRequestResult::AcmeChallengeFailure(_)) => {
                    let delay = retry_delay_seconds(10, message.delay_seconds);
                    CertEnqueue::message_with_delay_at(cert_queue, message.domain.clone(), delay,
                        message.nginx_queue_message.clone(), now);
                    CertAction::Done
                },
                _ => CertAction::Done,
            },
            CertEvent::CertbotFinished(ok) => {
                if ok {
                    NginxEnqueue::message_at(nginx_queue, message.nginx_queue_message.clone(), true, now);
                } else if !cloudflare {
                    let delay = retry_delay_seconds(600, message.delay_seconds);
                    CertEnqueue::message_with_delay_at(cert_queue, message.domain.clone(), delay,
                        message.nginx_queue_message.clone(), now);
                }
                CertAction::Done
            },
        }
    }

    /// The next step of a certificate request, as of now (see
    /// `process_certificate_request_at`).
    pub fn process_certificate_request(
        nginx_queue: &mut GenericQueue<NginxQueueMessage>,
        cert_queue: &mut GenericQueue<CertificateQueueMessage>,
        message: &CertificateQueueMessage,
        event: CertEvent,
    ) -> (r: CertAction)
        requires
            (event matches CertEvent::AcmeChecked(Some(CertificateRequestResult::AcmeChallengeFailure(_)))) ==> 10
                + match message.delay_seconds { Some(p) => p, None => 0 } <= u64::MAX,
            (event matches CertEvent::CertbotFinished(false)) && !through_cloudflare(*message) ==> 600
                + match message.delay_seconds { Some(p) => p, None => 0 } <= u64::MAX,
        ensures
            match event {
                CertEvent::Start => {
                    &&& r == if through_cloudflare(*message) { CertAction::RequestCertificate } else { CertAction::CheckAcmeChallenge }
                    &&& final(nginx_queue)@ == old(nginx_queue)@ && final(cert_queue)@ == old(cert_queue)@
                },
                CertEvent::AcmeChecked(outcome) => match outcome {
                    Some(CertificateRequestResult::Success) => r == CertAction::RequestCertificate
                        && final(nginx_queue)@ == old(nginx_queue)@ && final(cert_queue)@ == old(cert_queue)@,
                    Some(CertificateRequestResult::AcmeChallengeFailure(_)) => {
                        &&& r == CertAction::Done
                        &&& final(nginx_queue)@ == old(nginx_queue)@
                        &&& final(cert_queue)@.len() == old(cert_queue)@.len() + 1
                        &&& final(cert_queue)@.drop_last() == old(cert_queue)@
                        &&& final(cert_queue)@.last()@ == certificate_request(message@.domain,
                            message@.nginx_queue_message, final(cert_queue)@.last()@.created_at,
                            Some(retry_delay(10, message.delay_seconds)))
                    },
                    _ => r == CertAction::Done && final(nginx_queue)@ == old(nginx_queue)@
                        && final(cert_queue)@ == old(cert_queue)@,
                },
                CertEvent::CertbotFinished(ok) => {
                    &&& r == CertAction::Done
                    &&& ok ==> final(nginx_queue)@.len() == old(nginx_queue)@.len() + 1
                        && final(nginx_queue)@.drop_last() == old(nginx_queue)@
                        && final(nginx_queue)@.last()@ == stamped(message@.nginx_queue_message, true,
                            final(nginx_queue)@.last()@.created_at)
                        && final(cert_queue)@ == old(cert_queue)@
                    &&& !ok && through_cloudflare(*message) ==> final(nginx_queue)@ == old(nginx_queue)@
                        && final(cert_queue)@ == old(cert_queue)@
                    &&& !ok && !through_cloudflare(*message) ==> final(nginx_queue)@ == old(nginx_queue)@
                        && final(cert_queue)@.len() == old(cert_queue)@.len() + 1
                        && final(cert_queue)@.drop_last() == old(cert_queue)@
                        && final(cert_queue)@.last()@ == certificate_request(message@.domain,
                            message@.nginx_queue_message, final(cert_queue)@.last()@.created_at,
                            Some(retry_delay(600, message.delay_seconds)))
                },
            },
    {
        let now = now_nanos();
        Self::process_certificate_request_at(nginx_queue, cert_queue, message, event, now)
    }
}

} // verus!
