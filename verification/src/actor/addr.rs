use crate::actor::error::ActorError;
use crate::actor::runner::ActorID;
use crate::actor::text::{decimal, push_decimal};
use vstd::prelude::*;
use vstd::string::StringExecFns;

verus! {

/// How long one poll of the exit signal waits before it reports "still
/// running", in milliseconds.
pub const ACTOR_STOP_WAIT_INTERVAL_MS: u64 = 10;

/// The unit of work of a mailbox.
///
/// `X` is the closure that an `Exec` event carries: it is run against the
/// actor inside the actor's own loop. `P` is the proxy through which a
/// supervisor is asked for a restart, `E` the failure that a handler reports.
#[derive(Debug, PartialEq, Eq)]
pub enum Event<X, P, E> {
    /// Shut the actor down, with the reason if it is a failure.
    Stop(Result<(), ActorError<E>>),
    /// Run the closure against the actor.
    Exec(X),
    /// Sent by a supervisor: go through the restart hook and carry on.
    Restart,
    /// Register a supervisor on the actor.
    AddSupervisor(P),
}

/// What running one handler means for the caller and for the actor's loop.
#[derive(Debug, PartialEq, Eq)]
pub struct Dispatch<R, E> {
    /// What to send back to the caller: the value, or why there is none.
    pub reply: Result<R, ActorError<E>>,
    /// What the event loop sees as the result of the event.
    pub outcome: Result<(), ActorError<E>>,
}

/// What [`dispatch`] computes.
pub open spec fn dispatch_spec<R, E>(
    handled: Option<Result<R, E>>,
    actor: &'static str,
    handler: &'static str,
) -> Dispatch<R, E> {
    match handled {
        Some(Ok(value)) => Dispatch { reply: Ok(value), outcome: Ok(()) },
        Some(Err(failure)) => Dispatch {
            reply: Err(ActorError::Handler(failure)),
            outcome: Err(ActorError::HandlerFailed),
        },
        None => Dispatch {
            reply: Err(ActorError::DispatchMismatch { actor: actor, handler: handler }),
            outcome: Err(ActorError::DispatchMismatch { actor: actor, handler: handler }),
        },
    }
}

/// Decides what becomes of one call once the actor behind the mailbox has
/// been narrowed to the type that the call expects.
///
/// `handled` is `None` when the actor is of another type: that is a failure of
/// the call and of the event, never a panic, and no handler has run. `actor`
/// and `handler` name the two types for that case. Otherwise `handled` holds
/// what the handler returned.
///
/// The caller is always answered. A value goes back to the caller and the
/// loop carries on. A failure that the handler reported goes back to the
/// caller as it is, and the loop is told that a handler failed. A mismatch is
/// reported to both.
pub fn dispatch<R, E>(
    handled: Option<Result<R, E>>,
    actor: &'static str,
    handler: &'static str,
) -> (d: Dispatch<R, E>)
    ensures
        d == dispatch_spec(handled, actor, handler),
{
    match handled {
        Some(Ok(value)) => Dispatch { reply: Ok(value), outcome: Ok(()) },
        Some(Err(failure)) => Dispatch {
            reply: Err(ActorError::Handler(failure)),
            outcome: Err(ActorError::HandlerFailed),
        },
        None => Dispatch {
            reply: Err(ActorError::DispatchMismatch { actor, handler }),
            outcome: Err(ActorError::DispatchMismatch { actor, handler }),
        },
    }
}

/// What [`settle_call`] computes.
pub open spec fn settle_call_spec<R, E>(reply: Option<Result<R, ActorError<E>>>) -> Result<
    R,
    ActorError<E>,
> {
    match reply {
        Some(answer) => answer,
        None => Err(ActorError::Canceled),
    }
}

/// Resolves a call from what arrived on its reply channel.
///
/// The call resolves to the answer that arrived: the value, the failure that
/// the handler reported, or the mismatch. `reply` is `None` when the channel
/// was dropped without any answer, which means that the event was never
/// handled: the mailbox was gone, or the actor stopped before it reached the
/// event. Only then the call resolves to [`ActorError::Canceled`].
pub fn settle_call<R, E>(reply: Option<Result<R, ActorError<E>>>) -> (result: Result<
    R,
    ActorError<E>,
>)
    ensures
        result == settle_call_spec(reply),
{
    match reply {
        Some(answer) => answer,
        None => Err(ActorError::Canceled),
    }
}

/// What [`settle_timeout`] computes.
pub open spec fn settle_timeout_spec<R, E>(
    raced: Option<Option<Result<R, ActorError<E>>>>,
) -> Result<Option<R>, ActorError<E>> {
    match raced {
        None => Ok(None),
        Some(reply) => match settle_call_spec(reply) {
            Ok(value) => Ok(Some(value)),
            Err(failure) => Err(failure),
        },
    }
}

/// Resolves a call that was raced against a timer.
///
/// `raced` is `None` when the timer fired first, and otherwise what arrived on
/// the reply channel, as for [`settle_call`]. A call that timed out is no
/// failure: it resolves to `Ok(None)`, and only then. Otherwise it resolves
/// as the call without a timer does.
pub fn settle_timeout<R, E>(raced: Option<Option<Result<R, ActorError<E>>>>) -> (result: Result<
    Option<R>,
    ActorError<E>,
>)
    ensures
        result == settle_timeout_spec(raced),
        result == Ok::<Option<R>, ActorError<E>>(None) <==> raced is None,
{
    match raced {
        None => Ok(None),
        Some(reply) => match settle_call(reply) {
            Ok(value) => Ok(Some(value)),
            Err(failure) => Err(failure),
        },
    }
}

/// What [`settle_await_stop`] computes.
pub open spec fn settle_await_stop_spec<E>(fired: bool) -> Result<(), ActorError<E>> {
    if fired {
        Ok(())
    } else {
        Err(ActorError::Canceled)
    }
}

/// Resolves a wait for the end of an actor. The wait ends when the exit
/// signal fires, or when the source of the signal is dropped without firing:
/// `fired` tells which. The second is a failure.
pub fn settle_await_stop<E>(fired: bool) -> (result: Result<(), ActorError<E>>)
    ensures
        result == settle_await_stop_spec::<E>(fired),
{
    if fired {
        Ok(())
    } else {
        Err(ActorError::Canceled)
    }
}

/// Resolves one poll of the exit signal, which is raced against a timer of
/// [`ACTOR_STOP_WAIT_INTERVAL_MS`]. `signal` is `None` when the timer came
/// first, and otherwise tells whether the signal fired or its source was
/// dropped. The actor counts as stopped unless the timer came first, so the
/// answer can lag behind by the length of the interval.
pub fn settle_is_stopped(signal: Option<bool>) -> (stopped: bool)
    ensures
        stopped == signal is Some,
{
    signal.is_some()
}

/// The strong handle to an actor: whoever holds one keeps the mailbox open.
///
/// `S` is the shared owner of the mailbox's sending end, `X` the receiving
/// end of the exit signal, which any number of holders can await.
pub struct Addr<S, X> {
    /// The identity of the actor.
    pub id: ActorID,
    /// The owning reference to the sending end of the mailbox.
    pub tx: S,
    /// The receiving end of the exit signal.
    pub rx_exit: X,
}

/// The weak handle to an actor: it names the actor and sees its end, and
/// does not keep the mailbox open.
///
/// `W` is the non-owning reference to the mailbox's sending end.
pub struct WeakAddr<W, X> {
    /// The identity of the actor.
    pub id: ActorID,
    /// The non-owning reference to the sending end of the mailbox.
    pub tx: W,
    /// The receiving end of the exit signal.
    pub rx_exit: X,
}

impl<S: Clone, X: Clone> Clone for Addr<S, X> {
    /// One more strong handle to the same actor: the mailbox now stays open
    /// until this one is gone as well.
    fn clone(&self) -> (addr: Self)
        ensures
            addr.id == self.id,
            cloned(self.tx, addr.tx),
            cloned(self.rx_exit, addr.rx_exit),
    {
        Addr { id: self.id, tx: self.tx.clone(), rx_exit: self.rx_exit.clone() }
    }
}

impl<S, X> Addr<S, X> {
    /// The handle as log lines show it: `<Addr: id>`.
    pub fn label(&self) -> (text: String)
        ensures
            text@ == "<Addr: "@ + decimal(self.id as nat) + ">"@,
    {
        let mut text = String::from_str("<Addr: ");
        push_decimal(&mut text, self.id);
        text.append(">");
        text
    }
}

impl<W, X> WeakAddr<W, X> {
    /// The handle as log lines show it: `<Addr?: id>`.
    pub fn label(&self) -> (text: String)
        ensures
            text@ == "<Addr?: "@ + decimal(self.id as nat) + ">"@,
    {
        let mut text = String::from_str("<Addr?: ");
        push_decimal(&mut text, self.id);
        text.append(">");
        text
    }
}

impl<S, X: Clone> Addr<S, X> {
    /// The weak handle to the same actor. `weak` is the non-owning reference
    /// made from this handle's owning one.
    pub fn downgrade<W>(&self, weak: W) -> (addr: WeakAddr<W, X>)
        ensures
            addr.id == self.id,
            addr.tx == weak,
            cloned(self.rx_exit, addr.rx_exit),
    {
        WeakAddr { id: self.id, tx: weak, rx_exit: self.rx_exit.clone() }
    }
}

impl<W, X: Clone> WeakAddr<W, X> {
    /// The strong handle to the same actor, if it can still be had.
    ///
    /// `strong` is what the attempt to turn the non-owning reference back into
    /// an owning one gave: it succeeds only while some strong handle is left.
    /// The exit signal is part of the weak handle either way.
    pub fn upgrade<S>(&self, strong: Option<S>) -> (addr: Option<Addr<S, X>>)
        ensures
            strong is None ==> addr is None,
            strong matches Some(tx) ==> addr matches Some(a) && a.id == self.id && a.tx == tx
                && cloned(self.rx_exit, a.rx_exit),
    {
        match strong {
            Some(tx) => Some(Addr { id: self.id, tx, rx_exit: self.rx_exit.clone() }),
            None => None,
        }
    }
}

/// What [`reach`] computes.
pub open spec fn reach_spec<S, E>(strong: Option<S>) -> Result<S, ActorError<E>> {
    match strong {
        Some(tx) => Ok(tx),
        None => Err(ActorError::TargetGone),
    }
}

/// The first step of a call through a proxy, which holds only a non-owning
/// reference to the mailbox. `strong` is what the attempt to get an owning
/// reference gave. If every strong handle is gone, the call fails at once
/// instead of waiting for a reply that cannot come.
pub fn reach<S, E>(strong: Option<S>) -> (target: Result<S, ActorError<E>>)
    ensures
        target == reach_spec::<S, E>(strong),
{
    match strong {
        Some(tx) => Ok(tx),
        None => Err(ActorError::TargetGone),
    }
}

/// A call resolves to what the handler returned, whether the caller waits
/// for the reply at once or takes the reply channel and waits later: both
/// ways resolve the same reply by the same rule. The value that the handler
/// returned is the value of the call, the failure that the handler reported is
/// the failure of the call, and a call for the handler of another type of
/// actor fails with the mismatch. In both failing cases the loop of the actor
/// is left with a failure too.
pub proof fn law_call_resolves_to_handler_outcome<R, E>(
    handled: Option<Result<R, E>>,
    actor: &'static str,
    handler: &'static str,
)
    ensures
        settle_call_spec(Some(dispatch_spec(handled, actor, handler).reply)) == match handled {
            Some(Ok(value)) => Ok::<R, ActorError<E>>(value),
            Some(Err(failure)) => Err(ActorError::Handler(failure)),
            None => Err(ActorError::DispatchMismatch { actor: actor, handler: handler }),
        },
        dispatch_spec(handled, actor, handler).outcome is Ok <==> handled matches Some(Ok(_)),
        settle_timeout_spec(Some(Some(dispatch_spec(handled, actor, handler).reply)))
            == match handled {
            Some(Ok(value)) => Ok::<Option<R>, ActorError<E>>(Some(value)),
            Some(Err(failure)) => Err(ActorError::Handler(failure)),
            None => Err(ActorError::DispatchMismatch { actor: actor, handler: handler }),
        },
{
}

/// A call whose event is never handled fails as a call to a target that is
/// gone: without an answer on the reply channel, the call resolves to
/// [`ActorError::Canceled`], with a timer or without.
pub proof fn law_unanswered_call_is_canceled<R, E>()
    ensures
        settle_call_spec::<R, E>(None) == Err::<R, ActorError<E>>(ActorError::Canceled),
        settle_timeout_spec::<R, E>(Some(None)) == Err::<Option<R>, ActorError<E>>(
            ActorError::Canceled,
        ),
{
}

} // verus!
