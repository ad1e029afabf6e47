use crate::actor::broker::{is_delivery_order, Broker, Publication, SubscriptionID};
use crate::actor::error::ActorError;
use crate::actor::message::Message;
use crate::actor::runner::ActorID;
use crate::utils::table::{
    entries, lookup, table_get, table_insert, table_keys, table_new, table_remove, Table,
};
use std::marker::PhantomData;
use vstd::prelude::*;

verus! {

/// The mathematical content of a [`DefaultBroker`].
pub ghost struct BrokerView {
    /// The identity that the next subscription gets.
    pub counter: SubscriptionID,
    /// The subscriptions, each with the identity of its subscriber.
    pub subscriptions: Map<SubscriptionID, ActorID>,
}

impl BrokerView {
    /// The broker without subscriptions.
    pub open spec fn fresh() -> BrokerView {
        BrokerView { counter: 0, subscriptions: Map::empty() }
    }

    /// The state after a subscription of `subscriber`.
    pub open spec fn subscribed(self, subscriber: ActorID) -> BrokerView {
        BrokerView {
            counter: if self.counter == u64::MAX {
                0
            } else {
                (self.counter + 1) as u64
            },
            subscriptions: self.subscriptions.insert(self.counter, subscriber),
        }
    }

    /// The state after an unsubscription of `id`.
    pub open spec fn unsubscribed(self, id: SubscriptionID) -> BrokerView {
        BrokerView { subscriptions: self.subscriptions.remove(id), ..self }
    }

    /// The state after one subscription for each of `subscribers`, in order.
    pub open spec fn subscribed_all(self, subscribers: Seq<ActorID>) -> BrokerView
        decreases subscribers.len(),
    {
        if subscribers.len() == 0 {
            self
        } else {
            self.subscribed_all(subscribers.drop_last()).subscribed(subscribers.last())
        }
    }

    /// Subscriptions are numbered in the order in which they are made: after
    /// `n` subscriptions to a new broker, the subscriptions are those of the
    /// identities below `n`, and the `k`-th is that of the `k`-th subscriber.
    pub proof fn law_subscriptions_are_numbered(subscribers: Seq<ActorID>)
        requires
            subscribers.len() <= u64::MAX,
        ensures
            Self::fresh().subscribed_all(subscribers).counter == subscribers.len(),
            forall|id: SubscriptionID|
                Self::fresh().subscribed_all(subscribers).subscriptions.contains_key(id) <==> id
                    < subscribers.len(),
            forall|id: SubscriptionID|
                id < subscribers.len() ==> Self::fresh().subscribed_all(
                    subscribers,
                ).subscriptions[id] == subscribers[id as int],
        decreases subscribers.len(),
    {
        if subscribers.len() > 0 {
            let earlier = subscribers.drop_last();
            Self::law_subscriptions_are_numbered(earlier);
            assert forall|id: SubscriptionID| id < subscribers.len() implies Self::fresh().subscribed_all(
                subscribers,
            ).subscriptions[id] == subscribers[id as int] by {
                if id < earlier.len() {
                    assert(earlier[id as int] == subscribers[id as int]);
                }
            }
        }
    }

    /// A strictly increasing sequence is at each place at least as large as
    /// the place's index.
    pub proof fn lemma_at_least_index(plan: Seq<SubscriptionID>, i: int)
        requires
            strictly_increasing(plan),
            0 <= i < plan.len(),
        ensures
            plan[i] >= i,
        decreases i,
    {
        if i > 0 {
            Self::lemma_at_least_index(plan, i - 1);
        }
    }

    /// A strictly increasing sequence in which every number below `n` occurs
    /// holds at each place below `n` the place's index.
    pub proof fn lemma_equals_index(plan: Seq<SubscriptionID>, n: nat, i: int)
        requires
            strictly_increasing(plan),
            forall|id: SubscriptionID| id < n ==> plan.contains(id),
            0 <= i < plan.len(),
            i < n,
        ensures
            plan[i] == i,
        decreases i,
    {
        Self::lemma_at_least_index(plan, i);
        let j = choose|j: int| 0 <= j < plan.len() && plan[j] == i as u64;
        assert(plan.contains(i as u64));
        if j < i {
            Self::lemma_equals_index(plan, n, j);
        }
    }

    /// After `n` subscriptions to a new broker, one publish reaches each of
    /// the `n` subscribers exactly once, in the order in which they
    /// subscribed: the plan of the publication lists the identities from zero
    /// to `n - 1`.
    pub proof fn law_publish_reaches_every_subscriber_once(
        subscribers: Seq<ActorID>,
        plan: Seq<SubscriptionID>,
    )
        requires
            subscribers.len() <= u64::MAX,
            is_delivery_order(plan, Self::fresh().subscribed_all(subscribers).subscriptions),
        ensures
            plan.len() == subscribers.len(),
            forall|i: int| 0 <= i < plan.len() ==> plan[i] == i,
            forall|i: int|
                0 <= i < plan.len() ==> Self::fresh().subscribed_all(
                    subscribers,
                ).subscriptions[#[trigger] plan[i]] == subscribers[i],
    {
        let n = subscribers.len();
        Self::law_subscriptions_are_numbered(subscribers);
        assert forall|i: int| 0 <= i < plan.len() && i < n implies plan[i] == i by {
            Self::lemma_equals_index(plan, n, i);
        }
        if plan.len() < n {
            // the identity `plan.len()` would have to stand at a place of its own
            assert(plan.contains(plan.len() as u64));
        }
        if plan.len() > n {
            // the place `n` would have to hold an identity below `n`
            Self::lemma_at_least_index(plan, n as int);
            assert(plan.contains(plan[n as int]));
        }
    }

    /// After an unsubscription the subscriber gets nothing more: no later
    /// publication has the subscription in its plan.
    pub proof fn law_unsubscribed_gets_nothing(
        self,
        id: SubscriptionID,
        plan: Seq<SubscriptionID>,
    )
        requires
            is_delivery_order(plan, self.unsubscribed(id).subscriptions),
        ensures
            !plan.contains(id),
    {
    }
}

/// A broker that numbers its subscriptions from zero and publishes to them
/// one after the other.
pub struct DefaultBroker<T: Message + Sync + Clone> {
    counter: SubscriptionID,
    subscriptions: Table,
    _marker: PhantomData<T>,
}

impl<T: Message + Sync + Clone> View for DefaultBroker<T> {
    type V = BrokerView;

    closed spec fn view(&self) -> BrokerView {
        BrokerView { counter: self.counter, subscriptions: entries(self.subscriptions) }
    }
}

/// Whether the sequence grows strictly.
pub open spec fn strictly_increasing(s: Seq<u64>) -> bool {
    forall|i: int, j: int| 0 <= i < j < s.len() ==> s[i] < s[j]
}

/// Puts `key` at its place in a strictly increasing vector.
fn insert_in_order(plan: &mut Vec<u64>, key: u64)
    requires
        strictly_increasing(old(plan)@),
        !old(plan)@.contains(key),
    ensures
        strictly_increasing(final(plan)@),
        forall|x: u64| final(plan)@.contains(x) <==> (old(plan)@.contains(x) || x == key),
{
    let mut at: usize = 0;
    while at < plan.len() && plan[at] < key
        invariant
            at <= plan.len(),
            plan@ == old(plan)@,
            forall|i: int| 0 <= i < at ==> plan@[i] < key,
        decreases plan.len() - at,
    {
        at += 1;
    }
    let ghost before = plan@;
    plan.insert(at, key);
    assert forall|x: u64| plan@.contains(x) <==> (before.contains(x) || x == key) by {
        if before.contains(x) {
            let i = choose|i: int| 0 <= i < before.len() && before[i] == x;
            if i < at {
                assert(plan@[i] == x);
            } else {
                assert(plan@[i + 1] == x);
            }
        }
        if x == key {
            assert(plan@[at as int] == x);
        }
    }
}

impl<T: Message + Sync + Clone> DefaultBroker<T> {
    /// A broker without subscriptions.
    pub fn new() -> (broker: Self)
        ensures
            broker@ == BrokerView::fresh(),
    {
        DefaultBroker { counter: 0, subscriptions: table_new(), _marker: PhantomData }
    }

    /// The identity of the subscriber behind a subscription, if it exists.
    pub fn subscriber(&self, id: SubscriptionID) -> (subscriber: Option<ActorID>)
        ensures
            subscriber == lookup(self@.subscriptions, id),
    {
        table_get(&self.subscriptions, id)
    }
}

impl<T: Message + Sync + Clone> Default for DefaultBroker<T> {
    fn default() -> (broker: Self)
        ensures
            broker@ == BrokerView::fresh(),
    {
        Self::new()
    }
}

impl<T: Message + Sync + Clone> Broker<T> for DefaultBroker<T> {
    open spec fn subscriptions(&self) -> Map<SubscriptionID, ActorID> {
        self@.subscriptions
    }

    /// Adds a subscription for the actor `subscriber`. Its identity is the
    /// broker's counter, which then moves on by one (and wraps after the last
    /// 64-bit value).
    fn subscribe(&mut self, subscriber: ActorID) -> (id: SubscriptionID)
        ensures
            id == old(self)@.counter,
            final(self)@ == old(self)@.subscribed(subscriber),
    {
        let id = self.counter;
        self.counter = id.wrapping_add(1);
        let _ = table_insert(&mut self.subscriptions, id, subscriber);
        id
    }

    /// Ends the subscription. Nothing changes if there is none of this identity.
    fn unsubscribe(&mut self, id: SubscriptionID)
        ensures
            final(self)@ == old(self)@.unsubscribed(id),
    {
        let _ = table_remove(&mut self.subscriptions, id);
    }

    /// Starts the publishing of one message: to every present subscription
    /// once, in the order of their identities.
    fn publish(&self) -> (publication: Publication)
        ensures
            publication@.sent == 0,
            is_delivery_order(publication@.plan, self@.subscriptions),
    {
        let keys = table_keys(&self.subscriptions);
        let mut plan: Vec<SubscriptionID> = Vec::new();
        let mut i: usize = 0;
        while i < keys.len()
            invariant
                i <= keys.len(),
                keys@.no_duplicates(),
                strictly_increasing(plan@),
                forall|x: u64|
                    plan@.contains(x) <==> exists|b: int| 0 <= b < i && keys@[b] == x,
            decreases keys.len() - i,
        {
            insert_in_order(&mut plan, keys[i]);
            i += 1;
        }
        assert forall|id: SubscriptionID| plan@.contains(id) <==> self@.subscriptions.contains_key(
            id,
        ) by {
            if plan@.contains(id) {
                assert(keys@.contains(id));
            }
            if self@.subscriptions.contains_key(id) {
                assert(keys@.contains(id));
            }
        }
        Publication::new(plan)
    }
}

/// What the driver of a stream reports: the one thing that happened since
/// the last answer.
#[derive(Debug, PartialEq, Eq)]
pub enum StreamInput<I, E> {
    /// The stream gave its next item, or `None` at its end.
    Item(Option<I>),
    /// The publish call for the last item returned.
    Published(Result<(), ActorError<E>>),
}

/// What to do next while a stream is forwarded to a broker.
#[derive(Debug, PartialEq, Eq)]
pub enum StreamStep<I, E> {
    /// Wait for the next item of the stream and report it.
    Pull,
    /// Publish the item through the broker and report the result.
    Publish(I),
    /// The forwarding is over, with this result.
    Finish(Result<(), ActorError<E>>),
}

/// A broker that is fed by a stream: every item of the stream is published
/// to the subscribers, until the stream ends or a publish call fails.
pub struct StreamBroker<S>(pub S);

impl<S> StreamBroker<S> {
    /// What [`StreamBroker::forward`] computes.
    pub open spec fn forward_spec<I, E>(input: StreamInput<I, E>) -> StreamStep<I, E> {
        match input {
            StreamInput::Item(Some(item)) => StreamStep::Publish(item),
            StreamInput::Item(None) => StreamStep::Finish(Ok(())),
            StreamInput::Published(Ok(_)) => StreamStep::Pull,
            StreamInput::Published(Err(failure)) => StreamStep::Finish(Err(failure)),
        }
    }

    /// One step of the forwarding. An item is published; after a publish
    /// call that succeeded the next item is due. The end of the stream ends
    /// the forwarding without a failure, and the first publish call that
    /// fails ends it with that failure.
    pub fn forward<I, E>(input: StreamInput<I, E>) -> (step: StreamStep<I, E>)
        ensures
            step == Self::forward_spec(input),
    {
        match input {
            StreamInput::Item(Some(item)) => StreamStep::Publish(item),
            StreamInput::Item(None) => StreamStep::Finish(Ok(())),
            StreamInput::Published(Ok(_)) => StreamStep::Pull,
            StreamInput::Published(Err(failure)) => StreamStep::Finish(Err(failure)),
        }
    }
}

} // verus!
