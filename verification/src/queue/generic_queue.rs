//! A first-in, first-out message queue.
use vstd::prelude::*;
use std::collections::VecDeque;

verus! {

/// A first-in, first-out queue of messages.
pub struct GenericQueue<T> {
    queue: VecDeque<T>,
}

impl<T> View for GenericQueue<T> {
    type V = Seq<T>;

    closed spec fn view(&self) -> Seq<T> {
        self.queue@
    }
}

impl<T> GenericQueue<T> {
    /// An empty queue.
    pub fn new() -> (q: Self)
        ensures
            q@ == Seq::<T>::empty(),
    {
        GenericQueue { queue: VecDeque::new() }
    }

    /// Puts `message` at the back.
    pub fn enqueue(&mut self, message: T)
        ensures
            final(self)@ == old(self)@.push(message),
    {
        self.queue.push_back(message);
    }

    /// Takes the message at the front, if any.
    pub fn dequeue(&mut self) -> (r: Option<T>)
        ensures
            old(self)@.len() == 0 ==> r is None && final(self)@ == old(self)@,
            old(self)@.len() > 0 ==> r == Some(old(self)@[0]) && final(self)@ == old(
                self,
            )@.drop_first(),
    {
        self.queue.pop_front()
    }

    /// Whether the queue holds no message.
    pub fn is_empty(&self) -> (r: bool)
        ensures
            r == (self@.len() == 0),
    {
        self.queue.len() == 0
    }

    /// The number of queued messages.
    pub fn size(&self) -> (r: usize)
        ensures
            r == self@.len(),
    {
        self.queue.len()
    }
}

impl<T: Clone> GenericQueue<T> {
    /// A copy of the message at the front, if any, leaving the queue unchanged.
    pub fn peek(&self) -> (r: Option<T>)
        ensures
            self@.len() == 0 ==> r is None,
            self@.len() > 0 ==> r is Some && cloned::<T>(self@[0], r->0),
    {
        if self.queue.len() == 0 {
            None
        } else {
            Some(self.queue[0].clone())
        }
    }
}

/// Messages leave in the order in which they came: putting `x` behind the messages
/// `q` and then taking one out gives the oldest message, which is `x` only when `q`
/// was empty, and leaves the others in order.
pub proof fn law_first_in_first_out<T>(q: Seq<T>, x: T)
    ensures
        q.push(x)[0] == (if q.len() == 0 { x } else { q[0] }),
        q.push(x).drop_first() == (if q.len() == 0 { Seq::<T>::empty() } else {
            q.drop_first().push(x)
        }),
{
    if q.len() == 0 {
        assert(q.push(x).drop_first() =~= Seq::<T>::empty());
    } else {
        assert(q.push(x).drop_first() =~= q.drop_first().push(x));
    }
}

} // verus!
