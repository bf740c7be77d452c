//! The bounded buffer of recent messages: a ring of fixed capacity in which
//! the newest message evicts the oldest once the ring is full.

use vstd::prelude::*;
use crate::message::{Message, MessageView, views};

verus! {

/// How many messages the buffer retains. Fixed; never resized.
pub const CAPACITY: usize = 1024;

/// The newest `CAPACITY` entries of `s`, in their order; all of `s` if it
/// has no more than that.
pub open spec fn keep_newest(s: Seq<MessageView>) -> Seq<MessageView> {
    if s.len() <= CAPACITY {
        s
    } else {
        s.subrange(s.len() - CAPACITY, s.len() as int)
    }
}

/// A ring of at most `CAPACITY` messages.
///
/// Every message ever written has a sequence number, counted from zero in
/// the order of writing. The message with number `n` lives in slot
/// `n % CAPACITY` until the message with number `n + CAPACITY` replaces it.
#[derive(Debug)]
pub struct Ring {
    slots: Vec<Message>,
    written: u64,
}

impl Ring {
    /// The ring holds every message written so far, up to its capacity.
    pub closed spec fn wf(self) -> bool {
        self.slots@.len() == if self.written < CAPACITY {
            self.written as nat
        } else {
            CAPACITY as nat
        }
    }

    /// Number of messages ever written: the sequence number of the next one.
    pub closed spec fn written(self) -> nat {
        self.written as nat
    }

    /// The retained messages, oldest first.
    pub closed spec fn retained(self) -> Seq<MessageView> {
        Seq::new(
            self.slots@.len(),
            |i: int| self.slots@[(self.written - self.slots@.len() + i) % (CAPACITY as int)]@,
        )
    }

    /// Sequence number of the oldest retained message, which is also the
    /// number of messages that were evicted.
    pub open spec fn start(self) -> nat {
        (self.written() - self.retained().len()) as nat
    }

    /// A well-formed ring retains the newest messages, as many as fit.
    pub proof fn lemma_retained_len(self)
        requires
            self.wf(),
        ensures
            self.retained().len() <= CAPACITY,
            self.retained().len() <= self.written(),
            self.written() > self.retained().len() ==> self.retained().len() == CAPACITY,
    {
    }

    /// An empty ring.
    pub fn new() -> (ring: Ring)
        ensures
            ring.wf(),
            ring.written() == 0,
            ring.retained() == Seq::<MessageView>::empty(),
    {
        let ring = Ring { slots: Vec::new(), written: 0 };
        assert(ring.retained() =~= Seq::<MessageView>::empty());
        ring
    }

    /// Writes `msg` as the newest message. A full ring drops its oldest.
    pub fn push(&mut self, msg: Message)
        requires
            old(self).wf(),
            old(self).written() < u64::MAX,
        ensures
            final(self).wf(),
            final(self).written() == old(self).written() + 1,
            final(self).retained() == keep_newest(old(self).retained().push(msg@)),
    {
        if self.slots.len() < CAPACITY {
            self.slots.push(msg);
        } else {
            let slot: usize = (self.written % (CAPACITY as u64)) as usize;
            self.slots[slot] = msg;
        }
        self.written = self.written + 1;
        assert(self.retained() =~= keep_newest(old(self).retained().push(msg@)));
    }

    /// Number of messages ever written.
    pub fn count(&self) -> (n: u64)
        requires
            self.wf(),
        ensures
            n == self.written(),
    {
        self.written
    }

    /// Sequence number of the oldest retained message.
    pub fn oldest(&self) -> (n: u64)
        requires
            self.wf(),
        ensures
            n == self.start(),
    {
        self.written - (self.slots.len() as u64)
    }

    /// The message with sequence number `n`, if the ring still retains it.
    pub fn get(&self, n: u64) -> (found: Option<&Message>)
        requires
            self.wf(),
        ensures
            found is Some <==> self.start() <= n < self.written(),
            found matches Some(msg) ==> msg@ == self.retained()[n - self.start()],
    {
        if n < self.written && self.written - n <= self.slots.len() as u64 {
            let slot: usize = (n % (CAPACITY as u64)) as usize;
            Some(&self.slots[slot])
        } else {
            None
        }
    }

    /// A copy of the retained messages, oldest first.
    pub fn snapshot(&self) -> (out: Vec<Message>)
        requires
            self.wf(),
        ensures
            views(out@) == self.retained(),
    {
        let len: usize = self.slots.len();
        let first: u64 = self.written - (len as u64);
        let mut out: Vec<Message> = Vec::new();
        let mut i: usize = 0;
        while i < len
            invariant
                self.wf(),
                len == self.slots@.len(),
                first == self.written - len,
                i <= len,
                out@.len() == i,
                forall|k: int| 0 <= k < i ==> (#[trigger] out@[k])@ == self.retained()[k],
            decreases len - i,
        {
            let slot: usize = ((first + (i as u64)) % (CAPACITY as u64)) as usize;
            out.push(self.slots[slot].clone());
            i = i + 1;
        }
        assert(views(out@) =~= self.retained());
        out
    }
}

} // verus!
