//! The certificate request queue.
use vstd::prelude::*;
use crate::clock::{add_delay, deadline, now_nanos};
use crate::queue::generic_queue::GenericQueue;
use crate::queue::models::{
    CertificateQueueMessage, CertificateQueueMessageView, NginxQueueMessage, NginxQueueMessageView, clone_opt,
};
use crate::text::str_eq;

verus! {

/// The certificate request for `domain` made at `now` (with the given delay, if
/// any), carrying the TLS settings of the nginx message.
pub open spec fn certificate_request(
    domain: Seq<char>,
    m: NginxQueueMessageView,
    now: i128,
    delay_seconds: Option<u64>,
) -> CertificateQueueMessageView {
    CertificateQueueMessageView {
        nginx_queue_message: m,
        domain,
        delay_until: match delay_seconds {
            Some(d) => Some(deadline(now, d)),
            None => None,
        },
        created_at: now,
        delay_seconds,
        ssl_email: m.ssl_email,
        ssl_staging: m.ssl_staging,
        ssl_dns_provider: m.ssl_dns_provider,
        cloudflare_email: m.cloudflare_email,
        cloudflare_api_key: m.cloudflare_api_key,
        cloudflare_api_token: m.cloudflare_api_token,
    }
}

/// The queue without its longest prefix of requests for `domain`.
pub open spec fn without_leading(q: Seq<CertificateQueueMessage>, domain: Seq<char>) -> Seq<CertificateQueueMessage>
    decreases q.len(),
{
    if q.len() > 0 && q[0]@.domain == domain {
        without_leading(q.drop_first(), domain)
    } else {
        q
    }
}

/// Adds certificate requests to the certificate queue.
pub struct CertEnqueue;

impl CertEnqueue {
    /// Queues a request for `domain`, made at `now`, with no delay.
    pub fn message_at(
        queue: &mut GenericQueue<CertificateQueueMessage>,
        domain: String,
        nginx_queue_message: NginxQueueMessage,
        now: i128,
    )
        ensures
            final(queue)@.len() == old(queue)@.len() + 1,
            final(queue)@.drop_last() == old(queue)@,
            final(queue)@.last()@ == certificate_request(domain@, nginx_queue_message@, now, None),
    {
        Self::enqueue_request(queue, domain, nginx_queue_message, now, None);
    }

    /// Queues a request for `domain`, made now, with no delay.
    pub fn message(queue: &mut GenericQueue<CertificateQueueMessage>, domain: String, nginx_queue_message: NginxQueueMessage)
        ensures
            final(queue)@.len() == old(queue)@.len() + 1,
            final(queue)@.drop_last() == old(queue)@,
            final(queue)@.last()@ == certificate_request(domain@, nginx_queue_message@,
                final(queue)@.last()@.created_at, None),
    {
        let now = now_nanos();
        Self::message_at(queue, domain, nginx_queue_message, now);
    }

    /// Queues a request for `domain`, made at `now`, not to be handled before
    /// `delay_seconds` have passed.
    pub fn message_with_delay_at(
        queue: &mut GenericQueue<CertificateQueueMessage>,
        domain: String,
        delay_seconds: u64,
        nginx_queue_message: NginxQueueMessage,
        now: i128,
    )
        ensures
            final(queue)@.len() == old(queue)@.len() + 1,
            final(queue)@.drop_last() == old(queue)@,
            final(queue)@.last()@ == certificate_request(domain@, nginx_queue_message@, now, Some(delay_seconds)),
    {
        Self::enqueue_request(queue, domain, nginx_queue_message, now, Some(delay_seconds));
    }

    /// Queues a request for `domain`, made now, not to be handled before
    /// `delay_seconds` have passed.
    pub fn message_with_delay(
        queue: &mut GenericQueue<CertificateQueueMessage>,
        domain: String,
        delay_seconds: u64,
        nginx_queue_message: NginxQueueMessage,
    )
        ensures
            final(queue)@.len() == old(queue)@.len() + 1,
            final(queue)@.drop_last() == old(queue)@,
            final(queue)@.last()@ == certificate_request(domain@, nginx_queue_message@,
                final(queue)@.last()@.created_at, Some(delay_seconds)),
    {
        let now = now_nanos();
        Self::message_with_delay_at(queue, domain, delay_seconds, nginx_queue_message, now);
    }

    fn enqueue_request(
        queue: &mut GenericQueue<CertificateQueueMessage>,
        domain: String,
        nginx_queue_message: NginxQueueMessage,
        now: i128,
        delay_seconds: Option<u64>,
    )
        ensures
            final(queue)@.len() == old(queue)@.len() + 1,
            final(queue)@.drop_last() == old(queue)@,
            final(queue)@.last()@ == certificate_request(domain@, nginx_queue_message@, now, delay_seconds),
    {
        let delay_until = match delay_seconds {
            Some(d) => Some(add_delay(now, d)),
            None => None,
        };
        let message = CertificateQueueMessage {
            ssl_email: nginx_queue_message.ssl_email.clone(),
            ssl_staging: nginx_queue_message.ssl_staging,
            ssl_dns_provider: clone_opt(&nginx_queue_message.ssl_dns_provider),
            cloudflare_email: clone_opt(&nginx_queue_message.cloudflare_email),
            cloudflare_api_key: clone_opt(&nginx_queue_message.cloudflare_api_key),
            cloudflare_api_token: clone_opt(&nginx_queue_message.cloudflare_api_token),
            domain,
            created_at: now,
            delay_seconds,
            delay_until,
            nginx_queue_message,
        };
        queue.enqueue(message);
        assert(final(queue)@.drop_last() =~= old(queue)@);
    }

    /// Queues `message` as it is.
    pub fn direct_message(queue: &mut GenericQueue<CertificateQueueMessage>, message: CertificateQueueMessage)
        ensures
            final(queue)@ == old(queue)@.push(message),
    {
        queue.enqueue(message);
    }
}

/// Takes requests out of the certificate queue.
pub struct CertDequeue;

impl CertDequeue {
    /// Takes the oldest request, if any.
    pub fn message(queue: &mut GenericQueue<CertificateQueueMessage>) -> (r: Option<CertificateQueueMessage>)
        ensures
            old(queue)@.len() == 0 ==> r is None && final(queue)@ == old(queue)@,
            old(queue)@.len() > 0 ==> r == Some(old(queue)@[0]) && final(queue)@ == old(queue)@.drop_first(),
    {
        queue.dequeue()
    }

    /// A copy of the oldest request, if any.
    pub fn peek(queue: &GenericQueue<CertificateQueueMessage>) -> (r: Option<CertificateQueueMessage>)
        ensures
            queue@.len() == 0 ==> r is None,
            queue@.len() > 0 ==> r is Some && r->0@ == queue@[0]@,
    {
        queue.peek()
    }

    /// Whether no request is queued.
    pub fn is_empty(queue: &GenericQueue<CertificateQueueMessage>) -> (r: bool)
        ensures
            r == (queue@.len() == 0),
    {
        queue.is_empty()
    }

    /// The number of queued requests.
    pub fn size(queue: &GenericQueue<CertificateQueueMessage>) -> (r: usize)
        ensures
            r == queue@.len(),
    {
        queue.size()
    }

    /// Drops the requests for `domain` at the front of the queue, up to the first
    /// request for another domain.
    pub fn clear_pending_messages(queue: &mut GenericQueue<CertificateQueueMessage>, domain: &str)
        ensures
            final(queue)@ == without_leading(old(queue)@, domain@),
    {
        loop
            invariant
                without_leading(queue@, domain@) == without_leading(old(queue)@, domain@),
            ensures
                queue@ == without_leading(old(queue)@, domain@),
            decreases queue@.len(),
        {
            match queue.peek() {
                Some(m) => {
                    if str_eq(m.domain.as_str(), domain) {
                        let _ = queue.dequeue();
                    } else {
                        break;
                    }
                },
                None => break,
            }
        }
    }
}

/// After clearing, the queue is what followed the cleared requests: a suffix of the
/// old queue whose first request, if any, is for another domain.
pub proof fn law_cert_clear_stops_at_other_domain(q: Seq<CertificateQueueMessage>, domain: Seq<char>)
    ensures
        without_leading(q, domain).len() <= q.len(),
        without_leading(q, domain) == q.skip(q.len() - without_leading(q, domain).len()),
        without_leading(q, domain).len() > 0 ==> without_leading(q, domain)[0]@.domain != domain,
    decreases q.len(),
{
    if q.len() > 0 && q[0]@.domain == domain {
        law_cert_clear_stops_at_other_domain(q.drop_first(), domain);
        let r = without_leading(q, domain);
        assert(q.drop_first().skip(q.drop_first().len() - r.len()) =~= q.skip(q.len() - r.len()));
    } else {
        assert(q.skip(0) =~= q);
    }
}

} // verus!
