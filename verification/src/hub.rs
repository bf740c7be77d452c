//! The broadcast hub: one bounded buffer of recent messages that any number
//! of publishers write to, and a registry of the subscriptions that read
//! from it. A publish never waits for a reader; a reader that falls too far
//! behind loses the messages that were overwritten.

use vstd::prelude::*;
use crate::message::{Message, MessageView, views};
use crate::registry::{Registry, lowest_free};
use crate::ring::{Ring, CAPACITY, keep_newest};
use crate::subscription::{Subscription, SubscriptionView};

verus! {

/// The hub was shut down: nothing can be published any more.
#[derive(Clone, Copy, Debug, PartialEq, Eq)]
pub struct HubClosed;

/// What a hub is to the contracts.
///
/// Messages are numbered from zero in the order of publishing. The hub
/// retains the newest of them; `start` is the number of the oldest one that
/// it still retains.
#[verifier::ext_equal]
pub struct HubView {
    /// Sequence number of the oldest retained message.
    pub start: nat,
    /// The retained messages, oldest first.
    pub retained: Seq<MessageView>,
    /// Identifiers of the active subscriptions.
    pub subscribers: Set<nat>,
    /// Whether the hub was shut down.
    pub closed: bool,
}

impl HubView {
    /// The states that a hub can be in.
    pub open spec fn wf(self) -> bool {
        &&& self.retained.len() <= CAPACITY
        &&& self.start > 0 ==> self.retained.len() == CAPACITY
        &&& self.subscribers.finite()
        &&& self.closed ==> self.subscribers == Set::<nat>::empty()
    }

    /// An open hub on which nothing was published and nobody listens.
    pub open spec fn fresh() -> HubView {
        HubView {
            start: 0,
            retained: Seq::empty(),
            subscribers: Set::empty(),
            closed: false,
        }
    }

    /// Number of messages ever published: the write index.
    pub open spec fn published(self) -> nat {
        self.start + self.retained.len()
    }

    /// The hub after `msg` was handed to it. A closed hub takes nothing;
    /// an open hub appends the message and, if it was full, evicts the
    /// oldest one.
    pub open spec fn publish(self, msg: MessageView) -> HubView {
        if self.closed {
            self
        } else {
            HubView {
                start: if self.retained.len() < CAPACITY {
                    self.start
                } else {
                    self.start + 1
                },
                retained: keep_newest(self.retained.push(msg)),
                ..self
            }
        }
    }

    /// The hub after each of `msgs` was handed to it, in order.
    pub open spec fn publish_all(self, msgs: Seq<MessageView>) -> HubView
        decreases msgs.len(),
    {
        if msgs.len() == 0 {
            self
        } else {
            self.publish_all(msgs.drop_last()).publish(msgs.last())
        }
    }

    /// What a publish reports: the number of subscriptions that were
    /// notified, or that the hub is closed.
    pub open spec fn publish_outcome(self) -> Result<nat, HubClosed> {
        if self.closed {
            Err(HubClosed)
        } else {
            Ok(self.subscribers.len())
        }
    }

    /// The hub after a subscription was asked for, and that subscription.
    /// An open hub registers it under the lowest free identifier, at the
    /// write index. A closed hub registers nothing and hands out a
    /// subscription that has already ended.
    pub open spec fn subscribe(self) -> (HubView, SubscriptionView) {
        if self.closed {
            (self, SubscriptionView { id: 0, position: self.published(), live: false })
        } else {
            let id = lowest_free(self.subscribers);
            (
                HubView { subscribers: self.subscribers.insert(id), ..self },
                SubscriptionView { id, position: self.published(), live: true },
            )
        }
    }

    /// The hub after `sub` was given back, and what is left of `sub`.
    pub open spec fn unsubscribe(self, sub: SubscriptionView) -> (HubView, SubscriptionView) {
        (
            if sub.live {
                HubView { subscribers: self.subscribers.remove(sub.id), ..self }
            } else {
                self
            },
            SubscriptionView { live: false, ..sub },
        )
    }

    /// The hub after it was shut down: closed, with no subscription left.
    pub open spec fn shutdown(self) -> HubView {
        HubView { closed: true, subscribers: Set::empty(), ..self }
    }
}

/// The broadcast hub.
#[derive(Debug)]
pub struct Hub {
    ring: Ring,
    registry: Registry,
    closed: bool,
}

impl View for Hub {
    type V = HubView;

    closed spec fn view(&self) -> HubView {
        HubView {
            start: self.ring.start(),
            retained: self.ring.retained(),
            subscribers: self.registry@,
            closed: self.closed,
        }
    }
}

impl Hub {
    /// The parts of the hub are consistent with each other.
    pub closed spec fn inv(self) -> bool {
        &&& self.ring.wf()
        &&& self.registry.wf()
    }

    /// The hub is consistent, and in one of the states a hub can be in.
    pub open spec fn wf(self) -> bool {
        &&& self.inv()
        &&& self@.wf()
    }

    /// An open hub on which nothing was published and nobody listens.
    pub fn new() -> (hub: Hub)
        ensures
            hub.wf(),
            hub@ == HubView::fresh(),
    {
        let hub = Hub { ring: Ring::new(), registry: Registry::new(), closed: false };
        proof {
            hub.registry.lemma_finite();
        }
        hub
    }

    /// Hands `msg` to the hub. An open hub appends it to the buffer,
    /// evicting the oldest message if the buffer was full, and reports how
    /// many subscriptions there are to notify; zero is no error. A closed
    /// hub takes nothing.
    pub fn publish(&mut self, msg: Message) -> (outcome: Result<usize, HubClosed>)
        requires
            old(self).wf(),
            !old(self)@.closed ==> old(self)@.published() < u64::MAX,
        ensures
            final(self).wf(),
            final(self)@ == old(self)@.publish(msg@),
            outcome is Ok <==> !old(self)@.closed,
            outcome matches Ok(count) ==> count == old(self)@.subscribers.len(),
    {
        if self.closed {
            return Err(HubClosed);
        }
        proof {
            self.ring.lemma_retained_len();
        }
        self.ring.push(msg);
        proof {
            self.ring.lemma_retained_len();
        }
        Ok(self.registry.len())
    }

    /// Registers a new subscription at the write index: it will see what is
    /// published from now on and nothing older. On a closed hub the
    /// subscription has already ended.
    pub fn subscribe(&mut self) -> (sub: Subscription)
        requires
            old(self).wf(),
        ensures
            final(self).wf(),
            final(self)@ == old(self)@.subscribe().0,
            sub@ == old(self)@.subscribe().1,
    {
        proof {
            self.ring.lemma_retained_len();
        }
        let position: u64 = self.ring.count();
        if self.closed {
            Subscription::issue(0, position, false)
        } else {
            let id: usize = self.registry.insert();
            Subscription::issue(id, position, true)
        }
    }

    /// Takes `sub` back: it is no longer counted, and it has ended.
    pub fn unsubscribe(&mut self, sub: &mut Subscription)
        requires
            old(self).wf(),
        ensures
            final(self).wf(),
            final(self)@ == old(self)@.unsubscribe(old(sub)@).0,
            final(sub)@ == old(self)@.unsubscribe(old(sub)@).1,
    {
        let was_live = sub.retire();
        if was_live {
            let _found = self.registry.remove(sub.id());
            proof {
                self.registry.lemma_finite();
                if self.closed {
                    assert(self.registry@ =~= Set::<nat>::empty());
                }
            }
        }
    }

    /// Shuts the hub down. Every subscription ends; nothing more can be
    /// published.
    pub fn shutdown(&mut self)
        requires
            old(self).wf(),
        ensures
            final(self).wf(),
            final(self)@ == old(self)@.shutdown(),
    {
        self.closed = true;
        self.registry.clear();
    }

    /// Whether the hub was shut down.
    pub fn is_closed(&self) -> (closed: bool)
        ensures
            closed == self@.closed,
    {
        self.closed
    }

    /// Number of messages ever published.
    pub fn published(&self) -> (n: u64)
        requires
            self.wf(),
        ensures
            n == self@.published(),
    {
        proof {
            self.ring.lemma_retained_len();
        }
        self.ring.count()
    }

    /// Sequence number of the oldest message that the hub still retains.
    pub fn oldest(&self) -> (n: u64)
        requires
            self.wf(),
        ensures
            n == self@.start,
    {
        self.ring.oldest()
    }

    /// Number of active subscriptions.
    pub fn subscriber_count(&self) -> (n: usize)
        requires
            self.wf(),
        ensures
            n == self@.subscribers.len(),
    {
        self.registry.len()
    }

    /// The message with sequence number `n`, if the hub still retains it.
    pub fn message_at(&self, n: u64) -> (found: Option<&Message>)
        requires
            self.wf(),
        ensures
            found is Some <==> self@.start <= n < self@.published(),
            found matches Some(msg) ==> msg@ == self@.retained[n - self@.start],
    {
        proof {
            self.ring.lemma_retained_len();
        }
        self.ring.get(n)
    }

    /// A copy of the retained messages, oldest first.
    pub fn retained(&self) -> (out: Vec<Message>)
        requires
            self.wf(),
        ensures
            views(out@) == self@.retained,
    {
        self.ring.snapshot()
    }
}

} // verus!
