use crate::actor::error::ActorError;
use crate::actor::message::Message;
use crate::actor::runner::ActorID;
use vstd::prelude::*;

verus! {

/// The identity of one subscription of a broker.
pub type SubscriptionID = u64;

/// Publishes a message to the subscribers of a broker.
pub struct Publish<T: Message + Sync + Clone>(pub T);

impl<T: Message + Sync + Clone> Message for Publish<T> {
    type Result = ();
}

/// Ends a subscription of a broker.
pub struct Unsubscribe(pub SubscriptionID);

impl Message for Unsubscribe {
    type Result = ();
}

/// Whether `plan` is the order in which a message is delivered to the
/// subscriptions `subscriptions`: every subscription once, in the order in
/// which the subscriptions were made, which is that of their identities.
pub open spec fn is_delivery_order(
    plan: Seq<SubscriptionID>,
    subscriptions: Map<SubscriptionID, ActorID>,
) -> bool {
    &&& forall|i: int, j: int| 0 <= i < j < plan.len() ==> plan[i] < plan[j]
    &&& forall|id: SubscriptionID| plan.contains(id) <==> subscriptions.contains_key(id)
}

/// What a broker asks for next while it publishes one message.
#[derive(Debug, PartialEq, Eq)]
pub enum PublishStep<E> {
    /// Call the subscriber of this subscription with a clone of the message,
    /// wait for its answer and report it.
    Deliver(SubscriptionID),
    /// The message has been published, or a subscriber failed: this is the
    /// result of the publish call.
    Done(Result<(), ActorError<E>>),
}

/// The mathematical content of a [`Publication`].
pub ghost struct PublicationView {
    /// The subscriptions to deliver to, in the order of delivery.
    pub plan: Seq<SubscriptionID>,
    /// How many deliveries have been asked for. After a failure it is the
    /// length of the plan: nothing more is delivered.
    pub sent: nat,
}

/// The publishing of one message: to every subscriber in turn, up to the
/// first that fails.
pub struct Publication {
    plan: Vec<SubscriptionID>,
    sent: usize,
}

impl View for Publication {
    type V = PublicationView;

    closed spec fn view(&self) -> PublicationView {
        PublicationView { plan: self.plan@, sent: self.sent as nat }
    }
}

impl PublicationView {
    /// The state after the answer `last`, and what is asked for next.
    pub open spec fn next<E>(self, last: Result<(), ActorError<E>>) -> (
        PublicationView,
        PublishStep<E>,
    ) {
        match last {
            Err(failure) => (
                PublicationView { sent: self.plan.len(), ..self },
                PublishStep::Done(Err(failure)),
            ),
            Ok(_) => if self.sent < self.plan.len() {
                (
                    PublicationView { sent: self.sent + 1, ..self },
                    PublishStep::Deliver(self.plan[self.sent as int]),
                )
            } else {
                (self, PublishStep::Done(Ok(())))
            },
        }
    }
}

impl PublicationView {
    /// The state after the first `n` of `answers`.
    pub open spec fn after<E>(self, answers: Seq<Result<(), ActorError<E>>>, n: nat) -> PublicationView
        decreases n,
    {
        if n == 0 {
            self
        } else {
            self.after(answers, (n - 1) as nat).next(answers[n - 1]).0
        }
    }

    /// What is asked for in answer to `answers[i]`.
    pub open spec fn step<E>(self, answers: Seq<Result<(), ActorError<E>>>, i: int) -> PublishStep<E> {
        self.after(answers, i as nat).next(answers[i]).1
    }

    /// While every subscriber succeeds, the message goes to the subscriptions
    /// of the plan one by one, in the order of the plan, and the publishing
    /// is done without a failure after the last.
    pub proof fn law_delivery_follows_plan<E>(self, answers: Seq<Result<(), ActorError<E>>>, i: int)
        requires
            self.sent == 0,
            0 <= i < answers.len(),
            forall|k: int| 0 <= k <= i ==> answers[k] is Ok,
        ensures
            i < self.plan.len() ==> self.step(answers, i) == PublishStep::<E>::Deliver(self.plan[i]),
            i >= self.plan.len() ==> self.step(answers, i) == PublishStep::<E>::Done(Ok(())),
    {
        self.lemma_progress(answers, i as nat);
    }

    /// After `n` successes in a row, `n` deliveries have been asked for, or
    /// all of the plan if it is shorter.
    pub proof fn lemma_progress<E>(self, answers: Seq<Result<(), ActorError<E>>>, n: nat)
        requires
            self.sent == 0,
            n <= answers.len(),
            forall|k: int| 0 <= k < n ==> answers[k] is Ok,
        ensures
            self.after(answers, n).plan == self.plan,
            self.after(answers, n).sent == if n <= self.plan.len() {
                n
            } else {
                self.plan.len()
            },
        decreases n,
    {
        if n > 0 {
            self.lemma_progress(answers, (n - 1) as nat);
        }
    }

    /// Publishing stops at the first subscriber that fails: its failure is the
    /// result, and no later step asks for a delivery.
    pub proof fn law_failure_ends_publishing<E>(
        self,
        answers: Seq<Result<(), ActorError<E>>>,
        i: int,
        j: int,
    )
        requires
            self.sent <= self.plan.len(),
            0 <= i <= j < answers.len(),
            answers[i] is Err,
        ensures
            self.step(answers, i) == PublishStep::<E>::Done(Err(answers[i]->Err_0)),
            !(self.step(answers, j) is Deliver),
    {
        if i < j {
            self.lemma_stays_finished(answers, (i + 1) as nat, j as nat);
        }
    }

    /// Once nothing is left to deliver, nothing is left to deliver.
    pub proof fn lemma_stays_finished<E>(
        self,
        answers: Seq<Result<(), ActorError<E>>>,
        from: nat,
        to: nat,
    )
        requires
            from <= to,
            self.after(answers, from).sent == self.after(answers, from).plan.len(),
        ensures
            self.after(answers, to).sent == self.after(answers, to).plan.len(),
        decreases to - from,
    {
        if from < to {
            self.lemma_stays_finished(answers, from, (to - 1) as nat);
        }
    }
}

impl Publication {
    #[verifier::type_invariant]
    spec fn within_plan(self) -> bool {
        self.sent <= self.plan@.len()
    }

    /// Starts the publishing of a message to the subscriptions of `plan`, in
    /// that order.
    pub fn new(plan: Vec<SubscriptionID>) -> (publication: Self)
        ensures
            publication@ == (PublicationView { plan: plan@, sent: 0 }),
    {
        Publication { plan, sent: 0 }
    }

    /// Takes the answer to the last delivery and says what to do next. The
    /// first call is made with `Ok(())`.
    ///
    /// After a success the next subscriber of the plan is due, and after the
    /// last one the publishing is done. A failure ends the publishing at
    /// once with that failure: the subscribers that follow get nothing.
    pub fn advance<E>(&mut self, last: Result<(), ActorError<E>>) -> (step: PublishStep<E>)
        ensures
            (final(self)@, step) == old(self)@.next(last),
    {
        proof {
            use_type_invariant(&*self);
        }
        match last {
            Err(failure) => {
                self.sent = self.plan.len();
                PublishStep::Done(Err(failure))
            },
            Ok(_) => {
                if self.sent < self.plan.len() {
                    let id = self.plan[self.sent];
                    self.sent = self.sent + 1;
                    PublishStep::Deliver(id)
                } else {
                    PublishStep::Done(Ok(()))
                }
            },
        }
    }
}

/// The decisions of a broker: who subscribes, who leaves, and to whom a
/// published message goes.
pub trait Broker<T: Message + Sync + Clone> {
    /// The subscriptions, each with the identity of its subscriber.
    spec fn subscriptions(&self) -> Map<SubscriptionID, ActorID>;

    /// Adds a subscription for the actor `subscriber` and returns its identity.
    fn subscribe(&mut self, subscriber: ActorID) -> (id: SubscriptionID)
        ensures
            final(self).subscriptions() == old(self).subscriptions().insert(id, subscriber),
    ;

    /// Ends the subscription, if there is one.
    fn unsubscribe(&mut self, id: SubscriptionID)
        ensures
            final(self).subscriptions() == old(self).subscriptions().remove(id),
    ;

    /// Starts the publishing of one message to the present subscriptions.
    fn publish(&self) -> (publication: Publication)
        ensures
            publication@.sent == 0,
            is_delivery_order(publication@.plan, self.subscriptions()),
    ;
}

} // verus!
