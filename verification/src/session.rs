//! A stream session: one listener's connection, which turns a subscription
//! into a sequence of messages and ends when the listener goes away or the
//! hub shuts down.
//!
//! The session decides; it does not wait. The caller runs the loop: it
//! calls `step`, sends what the step emits, and suspends when the step says
//! so, until a publish, a shutdown or the listener's cancellation wakes it.

use vstd::prelude::*;
use crate::hub::{Hub, HubView};
use crate::message::{Message, MessageView};
use crate::subscription::{Delivery, DeliveryView, Subscription, SubscriptionView};

verus! {

/// Where a session stands after its latest step.
#[derive(Clone, Copy, Debug, PartialEq, Eq)]
pub enum Phase {
    /// Nothing to read; the session waits for the next event.
    Waiting,
    /// The latest step produced a message.
    Yielding,
    /// The latest step found a gap and skipped the lost messages.
    Skipping,
    /// The session has ended. It stays so.
    Closed,
}

/// What the caller is to do after a step, to the contracts.
pub enum StepView {
    /// Send this message, then step again.
    Emit(MessageView),
    /// Messages were lost and skipped; step again, send nothing.
    Skip,
    /// Nothing to read; suspend until woken, then step again.
    Wait,
    /// The sequence is over. This is a normal ending, no failure.
    Finish,
}

/// What the caller is to do after a step.
#[derive(Debug, PartialEq, Eq)]
pub enum Step {
    /// Send this message, then step again.
    Emit(Message),
    /// Messages were lost and skipped; step again, send nothing.
    Skip,
    /// Nothing to read; suspend until woken, then step again.
    Wait,
    /// The sequence is over. This is a normal ending, no failure.
    Finish,
}

impl View for Step {
    type V = StepView;

    open spec fn view(&self) -> StepView {
        match self {
            Step::Emit(msg) => StepView::Emit(msg@),
            Step::Skip => StepView::Skip,
            Step::Wait => StepView::Wait,
            Step::Finish => StepView::Finish,
        }
    }
}

/// What a session is to the contracts.
pub struct SessionView {
    /// The subscription that the session reads from.
    pub subscription: SubscriptionView,
    /// Where the session stands.
    pub phase: Phase,
}

impl SessionView {
    /// The hub after a listener connected, and the listener's session: a
    /// new subscription, waiting.
    pub open spec fn open(hub: HubView) -> (HubView, SessionView) {
        (
            hub.subscribe().0,
            SessionView { subscription: hub.subscribe().1, phase: Phase::Waiting },
        )
    }

    /// One step of the session: the session and the hub afterwards, and
    /// what the caller is to do.
    ///
    /// A closed session stays closed and changes nothing. Otherwise
    /// cancellation comes first: a cancelled session gives its subscription
    /// back and ends, whatever there is to read. Otherwise the session
    /// reads once: a message is emitted, a gap is skipped in silence, an
    /// empty read means waiting, and the end of the subscription ends the
    /// session.
    pub open spec fn step(self, hub: HubView, cancelled: bool) -> (SessionView, HubView, StepView) {
        if self.phase == Phase::Closed {
            (self, hub, StepView::Finish)
        } else if cancelled {
            (
                SessionView {
                    subscription: hub.unsubscribe(self.subscription).1,
                    phase: Phase::Closed,
                },
                hub.unsubscribe(self.subscription).0,
                StepView::Finish,
            )
        } else {
            let subscription = self.subscription.poll(hub).0;
            match self.subscription.poll(hub).1 {
                DeliveryView::Message(msg) => (
                    SessionView { subscription, phase: Phase::Yielding },
                    hub,
                    StepView::Emit(msg),
                ),
                DeliveryView::Lagged(_) => (
                    SessionView { subscription, phase: Phase::Skipping },
                    hub,
                    StepView::Skip,
                ),
                DeliveryView::Empty => (
                    SessionView { subscription, phase: Phase::Waiting },
                    hub,
                    StepView::Wait,
                ),
                DeliveryView::Closed => (
                    SessionView { subscription, phase: Phase::Closed },
                    hub,
                    StepView::Finish,
                ),
            }
        }
    }
}

/// One listener's session.
#[derive(Debug)]
pub struct Session {
    subscription: Subscription,
    phase: Phase,
}

impl View for Session {
    type V = SessionView;

    closed spec fn view(&self) -> SessionView {
        SessionView { subscription: self.subscription@, phase: self.phase }
    }
}

impl Session {
    /// Opens a session for a listener that has just connected: subscribes
    /// to `hub` and waits for the first event.
    pub fn open(hub: &mut Hub) -> (session: Session)
        requires
            old(hub).wf(),
        ensures
            final(hub).wf(),
            final(hub)@ == SessionView::open(old(hub)@).0,
            session@ == SessionView::open(old(hub)@).1,
    {
        Session { subscription: hub.subscribe(), phase: Phase::Waiting }
    }

    /// Where the session stands.
    pub fn phase(&self) -> (phase: Phase)
        ensures
            phase == self@.phase,
    {
        self.phase
    }

    /// Whether the session has ended.
    pub fn is_closed(&self) -> (closed: bool)
        ensures
            closed == (self@.phase == Phase::Closed),
    {
        match self.phase {
            Phase::Closed => true,
            _ => false,
        }
    }

    /// The subscription that the session reads from.
    pub fn subscription(&self) -> (subscription: &Subscription)
        ensures
            subscription@ == self@.subscription,
    {
        &self.subscription
    }

    /// Takes one step. `cancelled` says whether the listener's cancellation
    /// signal has fired; it wins over anything there is to read.
    pub fn step(&mut self, hub: &mut Hub, cancelled: bool) -> (step: Step)
        requires
            old(hub).wf(),
        ensures
            final(hub).wf(),
            final(self)@ == old(self)@.step(old(hub)@, cancelled).0,
            final(hub)@ == old(self)@.step(old(hub)@, cancelled).1,
            step@ == old(self)@.step(old(hub)@, cancelled).2,
    {
        if self.is_closed() {
            return Step::Finish;
        }
        if cancelled {
            hub.unsubscribe(&mut self.subscription);
            self.phase = Phase::Closed;
            return Step::Finish;
        }
        match self.subscription.receive(hub) {
            Delivery::Message(msg) => {
                self.phase = Phase::Yielding;
                Step::Emit(msg)
            },
            Delivery::Lagged(_) => {
                self.phase = Phase::Skipping;
                Step::Skip
            },
            Delivery::Empty => {
                self.phase = Phase::Waiting;
                Step::Wait
            },
            Delivery::Closed => {
                self.phase = Phase::Closed;
                Step::Finish
            },
        }
    }
}

} // verus!
