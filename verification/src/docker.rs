//! Container events as the rest of the library sees them, and which of them are
//! acted on.
use vstd::prelude::*;
use crate::label_map::LabelMap;
use crate::nginx::domain::{strip_all_prefixes, strip_prefixes};
use crate::queue::generic_queue::GenericQueue;
use crate::queue::models::NginxQueueMessage;
use crate::queue::nginx_enqueue::{event_messages, same_but_creation, stamped, NginxEnqueue, OriginView};
use crate::text::{str_eq, views};

verus! {

/// A container that started or died, with its labels and the networks it is
/// attached to.
pub struct ContainerEvent {
    pub container_id: String,
    pub image: String,
    pub name: String,
    pub action: String,
    pub labels: LabelMap,
    pub networks: Vec<String>,
}

/// The value of `key`, or the empty string.
pub open spec fn value_or_empty(m: Map<Seq<char>, Seq<char>>, key: Seq<char>) -> Seq<char> {
    if m.contains_key(key) { m[key] } else { Seq::empty() }
}

/// Whether events of this kind are acted on: containers that start or die.
pub open spec fn acted_on(action: Seq<char>) -> bool {
    action == "start"@ || action == "die"@
}

fn get_or_empty(m: &LabelMap, key: &str) -> (r: String)
    ensures
        r@ == value_or_empty(m@, key@),
{
    match m.get(key) {
        Some(v) => v,
        None => String::new(),
    }
}

impl ContainerEvent {
    /// The event for a container found running: it needs an identifier, an image
    /// and a name, whose leading slashes are dropped. Its networks are filled in
    /// afterwards.
    pub fn from_summary(
        id: Option<String>,
        image: Option<String>,
        names: Option<Vec<String>>,
        labels: Option<LabelMap>,
        action: &str,
    ) -> (r: Option<ContainerEvent>)
        ensures
            r is Some <==> (id is Some && image is Some && (names matches Some(n) && n.len() > 0)),
            r matches Some(e) ==> {
                &&& e.container_id@ == id->0@
                &&& e.image@ == image->0@
                &&& e.name@ == strip_prefixes(names->0@[0]@, "/"@)
                &&& e.action@ == action@
                &&& e.labels@ == match labels {
                    Some(l) => l@,
                    None => Map::<Seq<char>, Seq<char>>::empty(),
                }
                &&& e.networks@.len() == 0
            },
    {
        let container_id = match id {
            Some(i) => i,
            None => {
                return None;
            },
        };
        let image = match image {
            Some(i) => i,
            None => {
                return None;
            },
        };
        let first = match &names {
            Some(n) => {
                if n.len() == 0 {
                    return None;
                }
                strip_all_prefixes(n[0].as_str(), "/")
            },
            None => {
                return None;
            },
        };
        let labels = match labels {
            Some(l) => l,
            None => LabelMap::new(),
        };
        Some(ContainerEvent {
            container_id,
            image,
            name: first,
            action: crate::text::to_owned_string(action),
            labels,
            networks: Vec::new(),
        })
    }

    /// The event for a live container event: it needs the container's identifier
    /// and the action; image and name come from the attributes, which are also its
    /// labels. Its networks are filled in afterwards.
    pub fn from_message(id: Option<String>, action: Option<String>, attributes: Option<LabelMap>) -> (r: Option<
        ContainerEvent,
    >)
        ensures
            r is Some <==> (id is Some && action is Some),
            r matches Some(e) ==> {
                let attrs = match attributes {
                    Some(a) => a@,
                    None => Map::<Seq<char>, Seq<char>>::empty(),
                };
                &&& e.container_id@ == id->0@
                &&& e.image@ == value_or_empty(attrs, "image"@)
                &&& e.name@ == value_or_empty(attrs, "name"@)
                &&& e.action@ == action->0@
                &&& e.labels@ == attrs
                &&& e.networks@.len() == 0
            },
    {
        let container_id = match id {
            Some(i) => i,
            None => {
                return None;
            },
        };
        let attributes = match attributes {
            Some(a) => a,
            None => LabelMap::new(),
        };
        let image = get_or_empty(&attributes, "image");
        let name = get_or_empty(&attributes, "name");
        let action = match action {
            Some(a) => a,
            None => {
                return None;
            },
        };
        Some(ContainerEvent { container_id, image, name, action, labels: attributes, networks: Vec::new() })
    }

    /// The event with the networks of its container.
    pub fn with_networks(self, networks: Vec<String>) -> (r: ContainerEvent)
        ensures
            r.container_id@ == self.container_id@,
            r.image@ == self.image@,
            r.name@ == self.name@,
            r.action@ == self.action@,
            r.labels@ == self.labels@,
            views(r.networks@) == views(networks@),
    {
        ContainerEvent { networks, ..self }
    }

    /// Whether events of this kind are acted on.
    pub fn is_acted_on(action: &str) -> (r: bool)
        ensures
            r == acted_on(action@),
    {
        str_eq(action, "start") || str_eq(action, "die")
    }

    /// Queues the messages of an event that is acted on and whose container asks
    /// to be proxied; says whether it did. Other events leave the queue unchanged.
    pub fn dispatch(self, queue: &mut GenericQueue<NginxQueueMessage>, env: &LabelMap) -> (r: bool)
        ensures
            r == (acted_on(self.action@) && self.labels@.contains_key("proxma.hosts"@)),
            !r ==> final(queue)@ == old(queue)@,
            r ==> ({
                let planned = event_messages(
                    OriginView {
                        action: self.action@,
                        container_id: self.container_id@,
                        name: self.name@,
                        image: self.image@,
                        networks: views(self.networks@),
                    },
                    self.labels@,
                    env@,
                );
                &&& final(queue)@.len() == old(queue)@.len() + planned.len()
                &&& final(queue)@.take(old(queue)@.len() as int) == old(queue)@
                &&& forall|i: int| 0 <= i < planned.len() ==> same_but_creation(
                    #[trigger] final(queue)@[old(queue)@.len() + i]@,
                    stamped(planned[i], false, 0),
                )
            }),
    {
        if Self::is_acted_on(self.action.as_str()) && NginxEnqueue::should_process_container(&self.labels) {
            NginxEnqueue::process_container_event(
                queue,
                self.action,
                self.container_id,
                self.name,
                self.image,
                self.networks,
                &self.labels,
                env,
            );
            true
        } else {
            false
        }
    }
}

/// Watches the nginx queue after startup: once it has been empty at three
/// consecutive checks, the configurations of containers that are gone are cleaned
/// up, once.
pub struct CleanupWatch {
    pub stable_count: u32,
    pub done: bool,
}

impl CleanupWatch {
    /// A watch that has seen nothing yet.
    pub fn new() -> (r: Self)
        ensures
            r.stable_count == 0,
            !r.done,
    {
        CleanupWatch { stable_count: 0, done: false }
    }

    /// Takes in the queue's size at one check; says whether to clean up now.
    pub fn observe(&mut self, queue_size: usize) -> (r: bool)
        ensures
            final(self).stable_count == if queue_size == 0 {
                if old(self).stable_count == u32::MAX { u32::MAX as int } else { old(self).stable_count + 1 }
            } else {
                0
            },
            r == (queue_size == 0 && final(self).stable_count >= 3 && !old(self).done),
            final(self).done == (old(self).done || r),
    {
        if queue_size == 0 {
            if self.stable_count < u32::MAX {
                self.stable_count = self.stable_count + 1;
            }
            if self.stable_count >= 3 && !self.done {
                self.done = true;
                return true;
            }
        } else {
            self.stable_count = 0;
        }
        false
    }
}

} // verus!
