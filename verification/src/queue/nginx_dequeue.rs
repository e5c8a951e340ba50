//! Taking messages out of the nginx queue.
use vstd::prelude::*;
use crate::queue::generic_queue::GenericQueue;
use crate::queue::models::{NginxQueueMessage, NginxQueueMessageView};
use crate::text::str_eq;

verus! {

/// Whether a queued message is about `domain` (as host or as redirect source), from
/// container `container_id`, for `action`.
pub open spec fn is_pending_for(m: NginxQueueMessageView, domain: Seq<char>, container_id: Seq<char>, action: Seq<char>) -> bool {
    ((m.host matches Some(h) && h.domain == domain) || (m.redirect matches Some(r) && r.from == domain))
        && m.container_id == container_id && m.action == action
}

/// The messages, in order, that are not pending for the given domain, container
/// and action.
pub open spec fn without_pending(q: Seq<NginxQueueMessage>, domain: Seq<char>, container_id: Seq<char>, action: Seq<char>) -> Seq<NginxQueueMessage>
    decreases q.len(),
{
    if q.len() == 0 {
        Seq::empty()
    } else {
        let prev = without_pending(q.drop_last(), domain, container_id, action);
        if is_pending_for(q.last()@, domain, container_id, action) { prev } else { prev.push(q.last()) }
    }
}

/// Whether a message is pending for the given domain, container and action.
pub fn pending_for(m: &NginxQueueMessage, domain: &str, container_id: &str, action: &str) -> (r: bool)
    ensures
        r == is_pending_for(m@, domain@, container_id@, action@),
{
    let host_match = match &m.host {
        Some(h) => str_eq(h.domain.as_str(), domain),
        None => false,
    };
    let redirect_match = match &m.redirect {
        Some(r) => str_eq(r.from.as_str(), domain),
        None => false,
    };
    (host_match || redirect_match) && str_eq(m.container_id.as_str(), container_id) && str_eq(
        m.action.as_str(),
        action,
    )
}

/// Takes messages out of the nginx queue.
pub struct NginxDequeue;

impl NginxDequeue {
    /// Takes the oldest message, if any.
    pub fn message(queue: &mut GenericQueue<NginxQueueMessage>) -> (r: Option<NginxQueueMessage>)
        ensures
            old(queue)@.len() == 0 ==> r is None && final(queue)@ == old(queue)@,
            old(queue)@.len() > 0 ==> r == Some(old(queue)@[0]) && final(queue)@ == old(queue)@.drop_first(),
    {
        queue.dequeue()
    }

    /// A copy of the oldest message, if any.
    pub fn peek(queue: &GenericQueue<NginxQueueMessage>) -> (r: Option<NginxQueueMessage>)
        ensures
            queue@.len() == 0 ==> r is None,
            queue@.len() > 0 ==> r is Some && r->0@ == queue@[0]@,
    {
        queue.peek()
    }

    /// Whether no message is queued.
    pub fn is_empty(queue: &GenericQueue<NginxQueueMessage>) -> (r: bool)
        ensures
            r == (queue@.len() == 0),
    {
        queue.is_empty()
    }

    /// Drops the pending `die` messages of `container_id` for `domain`.
    pub fn clear_pending_messages(queue: &mut GenericQueue<NginxQueueMessage>, domain: &str, container_id: &str)
        ensures
            final(queue)@ == without_pending(old(queue)@, domain@, container_id@, "die"@),
    {
        Self::clear_pending_messages_by_action(queue, domain, container_id, "die");
    }

    /// Drops the pending messages of `container_id` for `domain` and `action`, keeping
    /// all others in order.
    pub fn clear_pending_messages_by_action(queue: &mut GenericQueue<NginxQueueMessage>, domain: &str, container_id: &str, action: &str)
        ensures
            final(queue)@ == without_pending(old(queue)@, domain@, container_id@, action@),
    {
        let ghost q0 = queue@;
        let mut rest: GenericQueue<NginxQueueMessage> = GenericQueue::new();
        let ghost mut taken: int = 0;
        assert(q0.take(0) =~= Seq::<NginxQueueMessage>::empty());
        assert(q0.skip(0) =~= q0);
        loop
            invariant
                0 <= taken <= q0.len(),
                queue@ == q0.skip(taken),
                rest@ == without_pending(q0.take(taken), domain@, container_id@, action@),
            ensures
                rest@ == without_pending(q0, domain@, container_id@, action@),
            decreases q0.len() - taken,
        {
            match queue.dequeue() {
                Some(m) => {
                    assert(q0.take(taken + 1).drop_last() =~= q0.take(taken));
                    assert(q0.skip(taken)[0] == q0[taken]);
                    assert(q0.skip(taken).drop_first() =~= q0.skip(taken + 1));
                    if !pending_for(&m, domain, container_id, action) {
                        rest.enqueue(m);
                    }
                    proof { taken = taken + 1; }
                },
                None => {
                    assert(q0.take(taken) =~= q0);
                    break;
                },
            }
        }
        *queue = rest;
    }
}

/// Clearing pending messages leaves none that is pending for the same domain,
/// container and action, and keeps every other message.
pub proof fn law_clear_pending(q: Seq<NginxQueueMessage>, domain: Seq<char>, container_id: Seq<char>, action: Seq<char>)
    ensures
        forall|i: int| 0 <= i < without_pending(q, domain, container_id, action).len() ==> !is_pending_for(
            (#[trigger] without_pending(q, domain, container_id, action)[i])@,
            domain,
            container_id,
            action,
        ),
        forall|i: int| 0 <= i < q.len() && !is_pending_for((#[trigger] q[i])@, domain, container_id, action)
            ==> without_pending(q, domain, container_id, action).contains(q[i]),
    decreases q.len(),
{
    if q.len() > 0 {
        law_clear_pending(q.drop_last(), domain, container_id, action);
        let prev = without_pending(q.drop_last(), domain, container_id, action);
        let res = without_pending(q, domain, container_id, action);
        assert forall|i: int| 0 <= i < q.len() && !is_pending_for((#[trigger] q[i])@, domain, container_id, action)
            implies res.contains(q[i]) by {
            if i < q.len() - 1 {
                assert(q.drop_last()[i] == q[i]);
                let k = choose|k: int| 0 <= k < prev.len() && prev[k] == q[i];
                if res != prev {
                    assert(res[k] == q[i]);
                }
            } else {
                assert(res[res.len() - 1] == q[i]);
            }
        }
        assert forall|i: int| 0 <= i < res.len() implies !is_pending_for((#[trigger] res[i])@, domain, container_id, action) by {
            if i < prev.len() {
                assert(res[i] == prev[i]);
            }
        }
    }
}

} // verus!
