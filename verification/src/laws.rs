//! What holds of the relay across several calls, stated over the views and
//! proved from the definitions that the contracts use.

use vstd::prelude::*;
use crate::hub::{HubClosed, HubView};
use crate::message::MessageView;
use crate::registry::lemma_lowest_free_exists;
use crate::ring::{CAPACITY, keep_newest};
use crate::session::{Phase, SessionView, StepView};
use crate::subscription::{DeliveryView, SubscriptionView};

verus! {

/// Evicting early changes nothing: the newest entries after one more
/// message are the same whether or not the older ones were dropped first.
pub proof fn lemma_keep_newest_push(msgs: Seq<MessageView>, msg: MessageView)
    ensures
        keep_newest(keep_newest(msgs).push(msg)) == keep_newest(msgs.push(msg)),
{
    assert(keep_newest(keep_newest(msgs).push(msg)) =~= keep_newest(msgs.push(msg)));
}

/// A hub stays in one of the states a hub can be in, whatever is done to
/// it: a publish, a subscribe, an unsubscribe or a shutdown.
pub proof fn lemma_hub_stays_well_formed(hub: HubView, msg: MessageView, sub: SubscriptionView)
    requires
        hub.wf(),
    ensures
        hub.publish(msg).wf(),
        hub.subscribe().0.wf(),
        hub.unsubscribe(sub).0.wf(),
        hub.shutdown().wf(),
{
    if hub.closed {
        assert(hub.subscribers.remove(sub.id) =~= Set::<nat>::empty());
    }
}

/// A subscription made on an open hub is one more to notify: it gets an
/// identifier that no active subscription has, and the next publish counts
/// it.
pub proof fn lemma_subscribe_adds_one_listener(hub: HubView)
    requires
        hub.wf(),
        !hub.closed,
    ensures
        hub.subscribe().1.live,
        hub.subscribe().1.position == hub.published(),
        !hub.subscribers.contains(hub.subscribe().1.id),
        hub.subscribe().0.subscribers.contains(hub.subscribe().1.id),
        hub.subscribe().0.publish_outcome() == Ok::<nat, HubClosed>(hub.subscribers.len() + 1),
{
    lemma_lowest_free_exists(hub.subscribers);
}

/// A listener that comes and goes leaves the hub as it found it.
pub proof fn lemma_listener_leaves_no_trace(hub: HubView)
    requires
        hub.wf(),
    ensures
        hub.subscribe().0.unsubscribe(hub.subscribe().1).0 == hub,
        !hub.subscribe().0.unsubscribe(hub.subscribe().1).1.live,
{
    if !hub.closed {
        lemma_lowest_free_exists(hub.subscribers);
        let id = hub.subscribe().1.id;
        assert(hub.subscribers.insert(id).remove(id) =~= hub.subscribers);
    }
}

/// Each publish on an open hub succeeds, however far behind any reader is:
/// it moves the write index by one, keeps the hub open and leaves the
/// subscriptions alone.
pub proof fn lemma_publish_counts(hub: HubView, msg: MessageView)
    requires
        hub.wf(),
        !hub.closed,
    ensures
        hub.publish_outcome() == Ok::<nat, HubClosed>(hub.subscribers.len()),
        hub.publish(msg).published() == hub.published() + 1,
        hub.publish(msg).retained.last() == msg,
        hub.publish(msg).subscribers == hub.subscribers,
        !hub.publish(msg).closed,
{
}

/// A shutdown is final: the hub counts no subscription any more and takes
/// no message, a subscription asked for afterwards has already ended, every
/// read ends the subscription that makes it, and a second shutdown changes
/// nothing.
pub proof fn lemma_shutdown_is_final(hub: HubView, msg: MessageView, sub: SubscriptionView)
    ensures
        hub.shutdown().subscribers.len() == 0,
        hub.shutdown().publish_outcome() == Err::<nat, HubClosed>(HubClosed),
        hub.shutdown().publish(msg) == hub.shutdown(),
        hub.shutdown().subscribe().0 == hub.shutdown(),
        !hub.shutdown().subscribe().1.live,
        sub.poll(hub.shutdown()).1 == DeliveryView::Closed,
        !sub.poll(hub.shutdown()).0.live,
        hub.shutdown().shutdown() == hub.shutdown(),
{
}

/// After any sequence of publishes on an open hub, the buffer retains the
/// newest messages, as many as fit, in the order of publishing; every one
/// of them was counted, and the subscriptions are as they were.
pub proof fn lemma_publish_all_retains_newest(hub: HubView, msgs: Seq<MessageView>)
    requires
        hub.wf(),
        !hub.closed,
    ensures
        hub.publish_all(msgs).wf(),
        !hub.publish_all(msgs).closed,
        hub.publish_all(msgs).subscribers == hub.subscribers,
        hub.publish_all(msgs).published() == hub.published() + msgs.len(),
        hub.publish_all(msgs).retained == keep_newest(hub.retained + msgs),
    decreases msgs.len(),
{
    if msgs.len() == 0 {
        assert(hub.retained + msgs =~= hub.retained);
    } else {
        let earlier = msgs.drop_last();
        let before = hub.publish_all(earlier);
        lemma_publish_all_retains_newest(hub, earlier);
        lemma_publish_counts(before, msgs.last());
        lemma_keep_newest_push(hub.retained + earlier, msgs.last());
        assert((hub.retained + earlier).push(msgs.last()) =~= hub.retained + msgs);
    }
}

/// With nobody subscribed, every publish of any sequence succeeds and
/// reports zero listeners, and the buffer ends up with the newest messages,
/// at most `CAPACITY` of them, in the order of publishing. On a hub that
/// started empty these are the newest of the sequence itself.
pub proof fn lemma_unheard_publishes_are_retained(hub: HubView, msgs: Seq<MessageView>)
    requires
        hub.wf(),
        !hub.closed,
        hub.subscribers.len() == 0,
    ensures
        forall|k: int|
            0 <= k < msgs.len() ==> #[trigger] hub.publish_all(msgs.take(k)).publish_outcome()
                == Ok::<nat, HubClosed>(0),
        hub.publish_all(msgs).retained == keep_newest(hub.retained + msgs),
        hub.publish_all(msgs).published() == hub.published() + msgs.len(),
        hub.published() == 0 ==> hub.publish_all(msgs).retained == keep_newest(msgs),
        hub.published() == 0 ==> hub.publish_all(msgs).retained.len() == if msgs.len()
            <= CAPACITY {
            msgs.len()
        } else {
            CAPACITY as nat
        },
{
    assert forall|k: int| 0 <= k < msgs.len() implies #[trigger] hub.publish_all(
        msgs.take(k),
    ).publish_outcome() == Ok::<nat, HubClosed>(0) by {
        lemma_publish_all_retains_newest(hub, msgs.take(k));
    }
    lemma_publish_all_retains_newest(hub, msgs);
    if hub.published() == 0 {
        assert(hub.retained + msgs =~= msgs);
    }
}

/// One thing that happens to a hub while one subscription is watched.
pub enum Action {
    /// Somebody publishes this message.
    Publish(MessageView),
    /// The watched subscription reads once.
    Read,
    /// Another listener subscribes.
    Join,
    /// Another listener gives this subscription back.
    Leave(SubscriptionView),
}

/// What the watched subscription gets at each of its reads while `actions`
/// happen to `hub`, in order.
pub open spec fn observed(hub: HubView, sub: SubscriptionView, actions: Seq<Action>) -> Seq<
    DeliveryView,
>
    decreases actions.len(),
{
    if actions.len() == 0 {
        Seq::empty()
    } else {
        let rest = actions.drop_first();
        match actions[0] {
            Action::Publish(msg) => observed(hub.publish(msg), sub, rest),
            Action::Read => seq![sub.poll(hub).1] + observed(hub, sub.poll(hub).0, rest),
            Action::Join => observed(hub.subscribe().0, sub, rest),
            Action::Leave(other) => observed(hub.unsubscribe(other).0, sub, rest),
        }
    }
}

/// What a reader with a queue of its own would get at each of its reads:
/// every published message joins the end of `queue`, every read takes the
/// first of it, or finds it empty.
pub open spec fn queued(queue: Seq<MessageView>, actions: Seq<Action>) -> Seq<DeliveryView>
    decreases actions.len(),
{
    if actions.len() == 0 {
        Seq::empty()
    } else {
        let rest = actions.drop_first();
        match actions[0] {
            Action::Publish(msg) => queued(queue.push(msg), rest),
            Action::Read => if queue.len() == 0 {
                seq![DeliveryView::Empty] + queued(queue, rest)
            } else {
                seq![DeliveryView::Message(queue[0])] + queued(queue.drop_first(), rest)
            },
            Action::Join => queued(queue, rest),
            Action::Leave(_) => queued(queue, rest),
        }
    }
}

/// The reader keeps up: at no point during `actions` are more than
/// `CAPACITY` messages waiting in `queue`.
pub open spec fn keeps_up(queue: Seq<MessageView>, actions: Seq<Action>) -> bool
    decreases actions.len(),
{
    &&& queue.len() <= CAPACITY
    &&& actions.len() > 0 ==> {
        let rest = actions.drop_first();
        match actions[0] {
            Action::Publish(msg) => keeps_up(queue.push(msg), rest),
            Action::Read => if queue.len() == 0 {
                keeps_up(queue, rest)
            } else {
                keeps_up(queue.drop_first(), rest)
            },
            Action::Join => keeps_up(queue, rest),
            Action::Leave(_) => keeps_up(queue, rest),
        }
    }
}

/// `queue` is what `sub` has yet to read from `hub`: the newest messages of
/// the buffer, from the subscription's position up to the write index.
pub open spec fn unread(hub: HubView, sub: SubscriptionView, queue: Seq<MessageView>) -> bool {
    &&& sub.position + queue.len() == hub.published()
    &&& queue.len() <= hub.retained.len()
    &&& queue == hub.retained.subrange(
        hub.retained.len() - queue.len(),
        hub.retained.len() as int,
    )
}

/// A live subscription that keeps up behaves as a queue of its own: it gets
/// every message published after its position, once, in the order of
/// publishing, and nothing else, whoever else joins or leaves meanwhile.
pub proof fn lemma_reader_that_keeps_up_misses_nothing(
    hub: HubView,
    sub: SubscriptionView,
    queue: Seq<MessageView>,
    actions: Seq<Action>,
)
    requires
        hub.wf(),
        !hub.closed,
        sub.live,
        unread(hub, sub, queue),
        keeps_up(queue, actions),
    ensures
        observed(hub, sub, actions) == queued(queue, actions),
    decreases actions.len(),
{
    if actions.len() > 0 {
        let rest = actions.drop_first();
        reveal_with_fuel(keeps_up, 2);
        match actions[0] {
            Action::Publish(msg) => {
                let next = hub.publish(msg);
                assert(unread(next, sub, queue.push(msg))) by {
                    assert(queue.push(msg) =~= next.retained.subrange(
                        next.retained.len() - queue.len() - 1,
                        next.retained.len() as int,
                    ));
                }
                lemma_reader_that_keeps_up_misses_nothing(next, sub, queue.push(msg), rest);
            },
            Action::Read => {
                if queue.len() == 0 {
                    lemma_reader_that_keeps_up_misses_nothing(hub, sub, queue, rest);
                } else {
                    let moved = sub.poll(hub).0;
                    assert(unread(hub, moved, queue.drop_first())) by {
                        assert(queue.drop_first() =~= hub.retained.subrange(
                            hub.retained.len() - queue.len() + 1,
                            hub.retained.len() as int,
                        ));
                    }
                    lemma_reader_that_keeps_up_misses_nothing(hub, moved, queue.drop_first(), rest);
                }
            },
            Action::Join => {
                lemma_reader_that_keeps_up_misses_nothing(hub.subscribe().0, sub, queue, rest);
            },
            Action::Leave(other) => {
                let next = hub.unsubscribe(other).0;
                lemma_hub_stays_well_formed(hub, arbitrary(), other);
                lemma_reader_that_keeps_up_misses_nothing(next, sub, queue, rest);
            },
        }
    }
}

/// A subscription made on an open hub gets exactly what is published after
/// it was made, in the order of publishing, and nothing that was published
/// before, as long as it keeps up.
pub proof fn lemma_subscription_starts_at_now(hub: HubView, actions: Seq<Action>)
    requires
        hub.wf(),
        !hub.closed,
        keeps_up(Seq::empty(), actions),
    ensures
        observed(hub.subscribe().0, hub.subscribe().1, actions) == queued(Seq::empty(), actions),
{
    let queue = Seq::<MessageView>::empty();
    assert(queue =~= hub.retained.subrange(hub.retained.len() as int, hub.retained.len() as int));
    lemma_reader_that_keeps_up_misses_nothing(
        hub.subscribe().0,
        hub.subscribe().1,
        queue,
        actions,
    );
}

/// A read never reaches outside the buffer: whatever a subscription is
/// handed was published at or after the oldest retained message and before
/// the write index, so it is one of the newest `CAPACITY` messages, and the
/// subscription moves past it by one.
pub proof fn lemma_read_comes_from_the_buffer(hub: HubView, sub: SubscriptionView)
    requires
        hub.wf(),
        sub.poll(hub).1 is Message,
    ensures
        hub.start <= sub.position < hub.published(),
        hub.published() - sub.position <= CAPACITY,
        sub.poll(hub).1 == DeliveryView::Message(hub.retained[sub.position - hub.start]),
        sub.poll(hub).0.position == sub.position + 1,
{
}

/// A live subscription that fell behind by more than the buffer holds does
/// not fail and does not get what was overwritten: its next read reports
/// the gap and moves it to the oldest retained message, and the read after
/// that gets that message, the `CAPACITY`-th newest.
pub proof fn lemma_stalled_reader_resumes_at_oldest_retained(hub: HubView, sub: SubscriptionView)
    requires
        hub.wf(),
        !hub.closed,
        sub.live,
        hub.published() - sub.position > CAPACITY,
    ensures
        hub.retained.len() == CAPACITY,
        sub.poll(hub).1 == DeliveryView::Lagged(
            (hub.published() - CAPACITY - sub.position) as nat,
        ),
        sub.poll(hub).0 == (SubscriptionView {
            position: (hub.published() - CAPACITY) as nat,
            ..sub
        }),
        sub.poll(hub).0.poll(hub).1 == DeliveryView::Message(hub.retained[0]),
{
}

/// A subscription that reads nothing while more than `CAPACITY` messages
/// are published loses the oldest of them: its first read reports how many,
/// and its second gets the `CAPACITY`-th newest of the messages.
pub proof fn lemma_overrun_reader_gets_newest(hub: HubView, msgs: Seq<MessageView>)
    requires
        hub.wf(),
        !hub.closed,
        msgs.len() > CAPACITY,
    ensures
        ({
            let sub = hub.subscribe().1;
            let later = hub.subscribe().0.publish_all(msgs);
            &&& sub.poll(later).1 == DeliveryView::Lagged((msgs.len() - CAPACITY) as nat)
            &&& sub.poll(later).0.poll(later).1 == DeliveryView::Message(
                msgs[msgs.len() - CAPACITY],
            )
        }),
{
    let joined = hub.subscribe().0;
    let sub = hub.subscribe().1;
    lemma_publish_all_retains_newest(joined, msgs);
    let later = joined.publish_all(msgs);
    lemma_stalled_reader_resumes_at_oldest_retained(later, sub);
}

/// What a session makes of what its subscription read.
pub open spec fn relay_of(delivery: DeliveryView) -> StepView {
    match delivery {
        DeliveryView::Message(msg) => StepView::Emit(msg),
        DeliveryView::Lagged(_) => StepView::Skip,
        DeliveryView::Empty => StepView::Wait,
        DeliveryView::Closed => StepView::Finish,
    }
}

/// What each of them is relayed as, in the same order.
pub open spec fn relays_of(deliveries: Seq<DeliveryView>) -> Seq<StepView> {
    Seq::new(deliveries.len(), |i: int| relay_of(deliveries[i]))
}

/// The outcome of each step of the watched session while `actions` happen
/// to `hub`, in order; the session steps where its subscription would read,
/// and nobody cancels it.
pub open spec fn relayed(hub: HubView, session: SessionView, actions: Seq<Action>) -> Seq<StepView>
    decreases actions.len(),
{
    if actions.len() == 0 {
        Seq::empty()
    } else {
        let rest = actions.drop_first();
        match actions[0] {
            Action::Publish(msg) => relayed(hub.publish(msg), session, rest),
            Action::Read => seq![session.step(hub, false).2] + relayed(
                session.step(hub, false).1,
                session.step(hub, false).0,
                rest,
            ),
            Action::Join => relayed(hub.subscribe().0, session, rest),
            Action::Leave(other) => relayed(hub.unsubscribe(other).0, session, rest),
        }
    }
}

/// An open session with a live subscription on an open hub adds nothing and
/// takes nothing away: each of its steps is what its subscription read at
/// that moment, relayed.
pub proof fn lemma_session_relays_its_subscription(
    hub: HubView,
    session: SessionView,
    actions: Seq<Action>,
)
    requires
        hub.wf(),
        !hub.closed,
        session.phase != Phase::Closed,
        session.subscription.live,
    ensures
        relayed(hub, session, actions) == relays_of(observed(hub, session.subscription, actions)),
    decreases actions.len(),
{
    let seen = observed(hub, session.subscription, actions);
    if actions.len() == 0 {
        assert(relayed(hub, session, actions) =~= relays_of(seen));
    } else {
        let rest = actions.drop_first();
        match actions[0] {
            Action::Publish(msg) => {
                lemma_session_relays_its_subscription(hub.publish(msg), session, rest);
            },
            Action::Read => {
                let next = session.step(hub, false).0;
                lemma_session_relays_its_subscription(hub, next, rest);
                assert(relayed(hub, session, actions) =~= relays_of(seen));
            },
            Action::Join => {
                lemma_session_relays_its_subscription(hub.subscribe().0, session, rest);
            },
            Action::Leave(other) => {
                lemma_hub_stays_well_formed(hub, arbitrary(), other);
                lemma_session_relays_its_subscription(hub.unsubscribe(other).0, session, rest);
            },
        }
    }
}

/// A session emits what was published while it was open, message for
/// message and in the order of publishing, each with the room, user name,
/// text and avatar style that it was published with, and never anything
/// that was published before it opened, as long as it keeps up.
pub proof fn lemma_session_emits_what_is_published(hub: HubView, actions: Seq<Action>)
    requires
        hub.wf(),
        !hub.closed,
        keeps_up(Seq::empty(), actions),
    ensures
        relayed(SessionView::open(hub).0, SessionView::open(hub).1, actions) == relays_of(
            queued(Seq::empty(), actions),
        ),
{
    lemma_subscribe_adds_one_listener(hub);
    lemma_hub_stays_well_formed(hub, arbitrary(), arbitrary());
    lemma_session_relays_its_subscription(
        SessionView::open(hub).0,
        SessionView::open(hub).1,
        actions,
    );
    lemma_subscription_starts_at_now(hub, actions);
}

/// The outcomes of successive steps of a session, each taken against the
/// hub as it stands at that moment and with the cancellation signal as it
/// is at that moment.
pub open spec fn outcomes(session: SessionView, moments: Seq<(HubView, bool)>) -> Seq<StepView>
    decreases moments.len(),
{
    if moments.len() == 0 {
        Seq::empty()
    } else {
        seq![session.step(moments[0].0, moments[0].1).2] + outcomes(
            session.step(moments[0].0, moments[0].1).0,
            moments.drop_first(),
        )
    }
}

/// A closed session stays closed: whatever is published later and however
/// often it is stepped, it says that the sequence is over, emits nothing,
/// and leaves the hub alone.
pub proof fn lemma_closed_session_stays_silent(session: SessionView, moments: Seq<(HubView, bool)>)
    requires
        session.phase == Phase::Closed,
    ensures
        outcomes(session, moments).len() == moments.len(),
        forall|i: int|
            0 <= i < moments.len() ==> #[trigger] outcomes(session, moments)[i]
                == StepView::Finish,
        forall|hub: HubView, cancelled: bool| #[trigger]
            session.step(hub, cancelled) == (session, hub, StepView::Finish),
    decreases moments.len(),
{
    if moments.len() > 0 {
        lemma_closed_session_stays_silent(session, moments.drop_first());
    }
}

/// Cancelling a session ends it at once, whatever phase it is in and
/// whatever there is to read: the step emits nothing, and no later step
/// emits anything. The ending is an ordinary outcome, not a failure.
pub proof fn lemma_cancelled_session_emits_nothing(
    session: SessionView,
    hub: HubView,
    moments: Seq<(HubView, bool)>,
)
    ensures
        session.step(hub, true).2 == StepView::Finish,
        session.step(hub, true).0.phase == Phase::Closed,
        forall|i: int|
            0 <= i < moments.len() ==> #[trigger] outcomes(session.step(hub, true).0, moments)[i]
                == StepView::Finish,
{
    lemma_closed_session_stays_silent(session.step(hub, true).0, moments);
}

/// A session with a live subscription that ends, by cancellation or because
/// the hub was shut down, has given its subscription back: the hub no
/// longer counts it, and the subscription can deliver nothing more.
pub proof fn lemma_ended_session_is_released(session: SessionView, hub: HubView, cancelled: bool)
    requires
        hub.wf(),
        session.phase != Phase::Closed,
        session.subscription.live,
        session.step(hub, cancelled).0.phase == Phase::Closed,
    ensures
        !session.step(hub, cancelled).1.subscribers.contains(session.subscription.id),
        !session.step(hub, cancelled).0.subscription.live,
{
}

/// Once the hub is shut down, the next step of every session ends it, and
/// emits nothing, even if messages were waiting to be read.
pub proof fn lemma_shutdown_ends_every_session(session: SessionView, hub: HubView, cancelled: bool)
    ensures
        session.step(hub.shutdown(), cancelled).2 == StepView::Finish,
        session.step(hub.shutdown(), cancelled).0.phase == Phase::Closed,
{
}

/// What is published comes out as it went in: a session that is open when
/// a message is published emits, at its next step, a message with the same
/// room, user name, text and avatar style.
pub proof fn lemma_published_message_is_emitted_unchanged(hub: HubView, msg: MessageView)
    requires
        hub.wf(),
        !hub.closed,
    ensures
        ({
            let joined = SessionView::open(hub).0;
            let session = SessionView::open(hub).1;
            session.step(joined.publish(msg), false).2 == StepView::Emit(msg)
        }),
{
    let joined = SessionView::open(hub).0;
    let later = joined.publish(msg);
    assert(later.retained.last() == msg);
}

} // verus!
