//! A simpler queue of container events that carries hosts and redirects only.
use vstd::prelude::*;
use crate::label_map::LabelMap;
use crate::queue::generic_queue::GenericQueue;
use crate::queue::models::{Host, HostView, QueueMessage, QueueMessageView, Redirect, RedirectView, clone_strings};
use crate::queue::nginx_enqueue::{host_entries, read_host_entries};
use crate::queue::settings::{Env, is_true, is_true_value};
use crate::text::{parse_u16, parse_u16_seq, split, split_seq, to_owned_string, trim, trim_seq, views};

verus! {

/// The port of the `proxma.port` label: 80 when it is absent or does not parse.
pub open spec fn basic_port(labels: Env) -> u16 {
    if labels.contains_key("proxma.port"@) {
        match parse_u16_seq(trim_seq(labels["proxma.port"@])) {
            Some(p) => p,
            None => 80,
        }
    } else {
        80
    }
}

/// Whether the `proxma.ssl` label reads `true`.
pub open spec fn basic_ssl(labels: Env) -> bool {
    labels.contains_key("proxma.ssl"@) && is_true_value(labels["proxma.ssl"@])
}

/// The redirects of a `proxma.redirects` label: comma-separated `from:to` pairs
/// (each piece trimmed, then split at `:`).
pub open spec fn basic_redirects(pieces: Seq<Seq<char>>) -> Seq<RedirectView>
    decreases pieces.len(),
{
    if pieces.len() == 0 {
        Seq::empty()
    } else {
        let prev = basic_redirects(pieces.drop_last());
        let parts = split_seq(trim_seq(pieces.last()), ':');
        if parts.len() == 2 { prev.push(RedirectView { from: parts[0], to: parts[1] }) } else { prev }
    }
}

pub open spec fn basic_message(
    o: (Seq<char>, Seq<char>, Seq<char>, Seq<char>, Seq<Seq<char>>),
    ssl: bool,
    host: Option<HostView>,
    redirect: Option<RedirectView>,
) -> QueueMessageView {
    QueueMessageView {
        action: o.0,
        container_id: o.1,
        name: o.2,
        image: o.3,
        networks: o.4,
        hosting: host is Some,
        ssl,
        host,
        redirect,
    }
}

/// The messages of a container event: none without a `proxma.hosts` label; else one
/// per host entry on the common port, then one per redirect.
pub open spec fn basic_event_messages(
    o: (Seq<char>, Seq<char>, Seq<char>, Seq<char>, Seq<Seq<char>>),
    labels: Env,
) -> Seq<QueueMessageView> {
    if !labels.contains_key("proxma.hosts"@) {
        Seq::empty()
    } else {
        let port = basic_port(labels);
        let ssl = basic_ssl(labels);
        host_entries(labels["proxma.hosts"@]).map_values(
            |d: Seq<char>| basic_message(o, ssl, Some(HostView { domain: d, port, protocol: "http"@ }), None),
        ) + if labels.contains_key("proxma.redirects"@) {
            basic_redirects(split_seq(labels["proxma.redirects"@], ',')).map_values(
                |r: RedirectView| basic_message(o, ssl, None, Some(r)),
            )
        } else {
            Seq::empty()
        }
    }
}

pub open spec fn basic_views(v: Seq<QueueMessage>) -> Seq<QueueMessageView> {
    v.map_values(|m: QueueMessage| m@)
}

/// Adds messages to the simple queue.
pub struct Enqueue;

impl Enqueue {
    /// Queues `message`.
    pub fn message(queue: &mut GenericQueue<QueueMessage>, message: QueueMessage)
        ensures
            final(queue)@ == old(queue)@.push(message),
    {
        queue.enqueue(message);
    }

    /// The number of queued messages.
    pub fn size(queue: &GenericQueue<QueueMessage>) -> (r: usize)
        ensures
            r == queue@.len(),
    {
        queue.size()
    }

    /// Whether a container asks to be proxied: it has a `proxma.hosts` label.
    pub fn should_process_container(labels: &LabelMap) -> (r: bool)
        ensures
            r == labels@.contains_key("proxma.hosts"@),
    {
        labels.contains_key("proxma.hosts")
    }

    /// Queues the messages of a container event (see `basic_event_messages`).
    pub fn process_container_event(
        queue: &mut GenericQueue<QueueMessage>,
        action: String,
        container_id: String,
        name: String,
        image: String,
        networks: Vec<String>,
        labels: &LabelMap,
    )
        ensures
            basic_views(final(queue)@) == basic_views(old(queue)@) + basic_event_messages(
                (action@, container_id@, name@, image@, views(networks@)),
                labels@,
            ),
    {
        let ghost o = (action@, container_id@, name@, image@, views(networks@));
        let ghost q0 = basic_views(queue@);
        let hosts = match labels.get("proxma.hosts") {
            Some(h) => h,
            None => {
                assert(basic_views(queue@) =~= q0 + Seq::empty());
                return;
            },
        };
        let domains = read_host_entries(hosts.as_str());
        let port: u16 = match labels.get("proxma.port") {
            Some(p) => {
                let t = trim(p.as_str());
                match parse_u16(t.as_str()) {
                    Some(v) => v,
                    None => 80,
                }
            },
            None => 80,
        };
        let ssl = match labels.get("proxma.ssl") {
            Some(v) => is_true(v.as_str()),
            None => false,
        };
        let ghost hm = views(domains@).map_values(
            |d: Seq<char>| basic_message(o, ssl, Some(HostView { domain: d, port, protocol: "http"@ }), None),
        );
        let mut i: usize = 0;
        while i < domains.len()
            invariant
                i <= domains.len(),
                basic_views(queue@) == q0 + hm.take(i as int),
                hm == views(domains@).map_values(
                    |d: Seq<char>| basic_message(o, ssl, Some(HostView { domain: d, port, protocol: "http"@ }), None),
                ),
                o == (action@, container_id@, name@, image@, views(networks@)),
            decreases domains.len() - i,
        {
            let m = QueueMessage {
                action: action.clone(),
                container_id: container_id.clone(),
                name: name.clone(),
                image: image.clone(),
                networks: clone_strings(&networks),
                hosting: true,
                ssl,
                host: Some(Host { domain: domains[i].clone(), port, protocol: to_owned_string("http") }),
                redirect: None,
            };
            let ghost qb = queue@;
            queue.enqueue(m);
            assert(basic_views(queue@) =~= basic_views(qb).push(m@));
            assert(hm.take(i + 1) =~= hm.take(i as int).push(hm[i as int]));
            i = i + 1;
        }
        assert(hm.take(domains.len() as int) =~= hm);
        let ghost q1 = basic_views(queue@);
        match labels.get("proxma.redirects") {
            Some(value) => {
                let pieces = split(value.as_str(), ',');
                let mut j: usize = 0;
                while j < pieces.len()
                    invariant
                        j <= pieces.len(),
                        views(pieces@) == split_seq(value@, ','),
                        basic_views(queue@) == q1 + basic_redirects(views(pieces@).take(j as int)).map_values(
                            |r: RedirectView| basic_message(o, ssl, None, Some(r)),
                        ),
                        o == (action@, container_id@, name@, image@, views(networks@)),
                    decreases pieces.len() - j,
                {
                    assert(views(pieces@).take(j + 1).drop_last() =~= views(pieces@).take(j as int));
                    assert(views(pieces@)[j as int] == pieces@[j as int]@);
                    let t = trim(pieces[j].as_str());
                    let parts = split(t.as_str(), ':');
                    assert(views(parts@).len() == parts.len());
                    let ghost qb = queue@;
                    if parts.len() == 2 {
                        assert(views(parts@)[0] == parts@[0]@ && views(parts@)[1] == parts@[1]@);
                        let m = QueueMessage {
                            action: action.clone(),
                            container_id: container_id.clone(),
                            name: name.clone(),
                            image: image.clone(),
                            networks: clone_strings(&networks),
                            hosting: false,
                            ssl,
                            host: None,
                            redirect: Some(Redirect { from: parts[0].clone(), to: parts[1].clone() }),
                        };
                        queue.enqueue(m);
                        assert(basic_views(queue@) =~= basic_views(qb).push(m@));
                    }
                    j = j + 1;
                }
                assert(views(pieces@).take(pieces.len() as int) =~= views(pieces@));
            },
            None => {
                assert(basic_views(queue@) =~= q1 + Seq::empty());
            },
        }
    }
}

/// Takes messages out of the simple queue.
pub struct Dequeue;

impl Dequeue {
    /// Takes the oldest message, if any.
    pub fn message(queue: &mut GenericQueue<QueueMessage>) -> (r: Option<QueueMessage>)
        ensures
            old(queue)@.len() == 0 ==> r is None && final(queue)@ == old(queue)@,
            old(queue)@.len() > 0 ==> r == Some(old(queue)@[0]) && final(queue)@ == old(queue)@.drop_first(),
    {
        queue.dequeue()
    }

    /// The number of queued messages.
    pub fn size(queue: &GenericQueue<QueueMessage>) -> (r: usize)
        ensures
            r == queue@.len(),
    {
        queue.size()
    }

    /// A copy of the oldest message, if any.
    pub fn peek(queue: &GenericQueue<QueueMessage>) -> (r: Option<QueueMessage>)
        ensures
            queue@.len() == 0 ==> r is None,
            queue@.len() > 0 ==> r is Some && r->0@ == queue@[0]@,
    {
        queue.peek()
    }

    /// Whether no message is queued.
    pub fn is_empty(queue: &GenericQueue<QueueMessage>) -> (r: bool)
        ensures
            r == (queue@.len() == 0),
    {
        queue.is_empty()
    }
}

} // verus!
