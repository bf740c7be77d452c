//! A subscription: one reader's cursor into the hub's buffer.

use vstd::prelude::*;
use crate::hub::{Hub, HubView};
use crate::message::{Message, MessageView};

verus! {

/// What a subscription is to the contracts.
pub struct SubscriptionView {
    /// The identifier under which the hub registered it.
    pub id: nat,
    /// Sequence number of the next message to read.
    pub position: nat,
    /// Whether it can still deliver anything.
    pub live: bool,
}

/// What one read of a subscription gives, to the contracts.
pub enum DeliveryView {
    /// The next message.
    Message(MessageView),
    /// This many messages were overwritten before they could be read; the
    /// subscription skipped them.
    Lagged(nat),
    /// Nothing new has been published.
    Empty,
    /// The subscription has ended.
    Closed,
}

impl SubscriptionView {
    /// One read from `hub`: the subscription afterwards, and what it got.
    ///
    /// A subscription that has ended, or whose hub is closed, gets `Closed`
    /// and has ended. One that has read everything gets `Empty`. One whose
    /// next message was overwritten moves to the oldest retained message
    /// and reports how many it skipped. Any other gets its next message and
    /// moves past it.
    pub open spec fn poll(self, hub: HubView) -> (SubscriptionView, DeliveryView) {
        if !self.live || hub.closed {
            (SubscriptionView { live: false, ..self }, DeliveryView::Closed)
        } else if self.position >= hub.published() {
            (self, DeliveryView::Empty)
        } else if self.position < hub.start {
            (
                SubscriptionView { position: hub.start, ..self },
                DeliveryView::Lagged((hub.start - self.position) as nat),
            )
        } else {
            (
                SubscriptionView { position: self.position + 1, ..self },
                DeliveryView::Message(hub.retained[self.position - hub.start]),
            )
        }
    }
}

/// What one read of a subscription gives.
#[derive(Debug, PartialEq, Eq)]
pub enum Delivery {
    /// The next message.
    Message(Message),
    /// This many messages were overwritten before they could be read; the
    /// subscription skipped them.
    Lagged(u64),
    /// Nothing new has been published.
    Empty,
    /// The subscription has ended.
    Closed,
}

impl View for Delivery {
    type V = DeliveryView;

    open spec fn view(&self) -> DeliveryView {
        match self {
            Delivery::Message(msg) => DeliveryView::Message(msg@),
            Delivery::Lagged(skipped) => DeliveryView::Lagged(*skipped as nat),
            Delivery::Empty => DeliveryView::Empty,
            Delivery::Closed => DeliveryView::Closed,
        }
    }
}

/// One reader's cursor into a hub's buffer. It belongs to one reader and
/// does not keep the hub alive.
#[derive(Debug)]
pub struct Subscription {
    id: usize,
    position: u64,
    live: bool,
}

impl View for Subscription {
    type V = SubscriptionView;

    closed spec fn view(&self) -> SubscriptionView {
        SubscriptionView { id: self.id as nat, position: self.position as nat, live: self.live }
    }
}

impl Subscription {
    /// A subscription with the given identifier, position and liveness.
    pub(crate) fn issue(id: usize, position: u64, live: bool) -> (sub: Subscription)
        ensures
            sub@ == (SubscriptionView { id: id as nat, position: position as nat, live }),
    {
        Subscription { id, position, live }
    }

    /// Ends the subscription. Says whether it was live.
    pub(crate) fn retire(&mut self) -> (was_live: bool)
        ensures
            was_live == old(self)@.live,
            final(self)@ == (SubscriptionView { live: false, ..old(self)@ }),
    {
        let was_live = self.live;
        self.live = false;
        was_live
    }

    /// The identifier under which the hub registered this subscription.
    pub fn id(&self) -> (id: usize)
        ensures
            id == self@.id,
    {
        self.id
    }

    /// Sequence number of the next message to read.
    pub fn position(&self) -> (position: u64)
        ensures
            position == self@.position,
    {
        self.position
    }

    /// Whether the subscription can still deliver anything.
    pub fn is_live(&self) -> (live: bool)
        ensures
            live == self@.live,
    {
        self.live
    }

    /// Reads once from `hub`, without waiting.
    pub fn receive(&mut self, hub: &Hub) -> (delivery: Delivery)
        requires
            hub.wf(),
        ensures
            final(self)@ == old(self)@.poll(hub@).0,
            delivery@ == old(self)@.poll(hub@).1,
    {
        if !self.live || hub.is_closed() {
            self.live = false;
            return Delivery::Closed;
        }
        if self.position >= hub.published() {
            return Delivery::Empty;
        }
        match hub.message_at(self.position) {
            Some(msg) => {
                self.position = self.position + 1;
                Delivery::Message(msg.clone())
            },
            None => {
                let oldest: u64 = hub.oldest();
                let skipped: u64 = oldest - self.position;
                self.position = oldest;
                Delivery::Lagged(skipped)
            },
        }
    }
}

} // verus!
