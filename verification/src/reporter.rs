//! The reporting stream: a bounded queue of messages between the many
//! producers of a dispatch and the one display that consumes them. A
//! producer never waits: into a full queue a message goes at the cost of the
//! oldest one.

use std::collections::VecDeque;
use vstd::prelude::*;

verus! {

/// The queue after `message` was emitted into `queue` under the bound
/// `capacity`.
pub open spec fn emitted(queue: Seq<Seq<char>>, capacity: usize, message: Seq<char>) -> Seq<
    Seq<char>,
> {
    if capacity == 0 {
        queue
    } else if queue.len() < capacity {
        queue.push(message)
    } else {
        queue.drop_first().push(message)
    }
}

/// Whether emitting into `queue` under the bound `capacity` loses a message.
pub open spec fn emit_drops(queue: Seq<Seq<char>>, capacity: usize) -> bool {
    queue.len() >= capacity
}

/// A count after one more, staying at the largest number once reached.
pub open spec fn counted(n: u64) -> u64 {
    if n < u64::MAX {
        (n + 1) as u64
    } else {
        n
    }
}

/// A bounded first-in, first-out queue of messages.
#[derive(Debug)]
pub struct Reporter {
    queue: VecDeque<String>,
    capacity: usize,
    dropped: u64,
}

impl View for Reporter {
    type V = Seq<Seq<char>>;

    /// The queued messages, oldest first.
    closed spec fn view(&self) -> Seq<Seq<char>> {
        self.queue@.map_values(|s: String| s@)
    }
}

impl Reporter {
    /// The bound on the number of queued messages.
    pub closed spec fn capacity(&self) -> usize {
        self.capacity
    }

    /// How many messages were lost to the bound so far.
    pub closed spec fn dropped(&self) -> u64 {
        self.dropped
    }

    /// An empty queue that holds at most `capacity` messages.
    pub fn new(capacity: usize) -> (r: Self)
        ensures
            r@ == Seq::<Seq<char>>::empty(),
            r.capacity() == capacity,
            r.dropped() == 0,
    {
        let r = Reporter { queue: VecDeque::new(), capacity, dropped: 0 };
        assert(r@ =~= Seq::<Seq<char>>::empty());
        r
    }

    /// The number of queued messages.
    pub fn len(&self) -> (n: usize)
        ensures
            n == self@.len(),
    {
        self.queue.len()
    }

    /// Whether no message is queued.
    pub fn is_empty(&self) -> (b: bool)
        ensures
            b == (self@.len() == 0),
    {
        self.queue.len() == 0
    }

    /// The bound that the queue was made with.
    pub fn bound(&self) -> (c: usize)
        ensures
            c == self.capacity(),
    {
        self.capacity
    }

    /// How many messages were lost to the bound so far.
    pub fn lost(&self) -> (n: u64)
        ensures
            n == self.dropped(),
    {
        self.dropped
    }

    /// Queues a message without ever waiting: where the queue is full, the
    /// oldest message makes room (with capacity 0 the message itself is
    /// lost).
    pub fn emit(&mut self, message: String)
        ensures
            final(self)@ == emitted(old(self)@, old(self).capacity(), message@),
            final(self).capacity() == old(self).capacity(),
            final(self).dropped() == if emit_drops(old(self)@, old(self).capacity()) {
                counted(old(self).dropped())
            } else {
                old(self).dropped()
            },
    {
        if self.queue.len() >= self.capacity {
            if self.dropped < u64::MAX {
                self.dropped = self.dropped + 1;
            }
            if self.capacity == 0 {
                assert(self@ =~= old(self)@);
                return ;
            }
            let _ = self.queue.pop_front();
        }
        self.queue.push_back(message);
        assert(self@ =~= emitted(old(self)@, old(self).capacity(), message@));
    }

    /// Takes the oldest message off the queue.
    pub fn take(&mut self) -> (message: Option<String>)
        ensures
            old(self)@.len() == 0 ==> message is None && final(self)@ == old(self)@,
            old(self)@.len() > 0 ==> (message matches Some(m) && m@ == old(self)@[0]
                && final(self)@ == old(self)@.drop_first()),
            final(self).capacity() == old(self).capacity(),
            final(self).dropped() == old(self).dropped(),
    {
        let message = self.queue.pop_front();
        assert(self@ =~= if old(self)@.len() == 0 {
            old(self)@
        } else {
            old(self)@.drop_first()
        });
        message
    }
}

/// Emitting never grows a queue beyond its bound: where the queue held at
/// most `capacity` messages, it does so after an emit too, and the new
/// message is its last one unless the bound is 0.
pub proof fn lemma_emit_bounded(queue: Seq<Seq<char>>, capacity: usize, message: Seq<char>)
    requires
        queue.len() <= capacity,
    ensures
        emitted(queue, capacity, message).len() <= capacity,
        capacity > 0 ==> emitted(queue, capacity, message).last() == message,
        queue.len() < capacity ==> emitted(queue, capacity, message) == queue.push(message),
{
}

} // verus!
