use vstd::prelude::*;
use vstd::string::StringExecFns;

verus! {

/// Why a call, a loop or a wait ended without a value.
///
/// `E` is the failure that a handler reports. The runtime never looks inside
/// it: it is carried from the handler to the caller of the handler.
#[derive(Debug, PartialEq, Eq)]
pub enum ActorError<E> {
    /// No message can reach the target any more: every strong sender of its
    /// mailbox is gone.
    TargetGone,
    /// The sending end of a one-shot channel was dropped before it sent: a
    /// reply channel whose event was never handled, or an exit signal whose
    /// source went away without firing.
    Canceled,
    /// The actor behind the mailbox is not of the type whose handler was
    /// asked for. `actor` names the type of what the mailbox holds, `handler`
    /// the handler that was asked for.
    DispatchMismatch { actor: &'static str, handler: &'static str },
    /// The handler itself reported this failure.
    Handler(E),
    /// A handler reported a failure. The failure itself went to the caller of
    /// the handler; this is what the loop of the actor is left with.
    HandlerFailed,
    /// A supervised actor failed while no supervisor was registered on it.
    NoSupervisor,
    /// A supervised actor failed and no registered supervisor confirmed a restart.
    RestartRefused,
}

impl<E> ActorError<E> {
    /// The text of [`ActorError::message`], as a sequence of characters.
    pub open spec fn message_spec(self) -> Seq<char> {
        match self {
            ActorError::TargetGone => "error: proxy tx is dropped"@,
            ActorError::Canceled => "oneshot canceled"@,
            ActorError::DispatchMismatch { actor, handler } => "error: "@ + actor@
                + " trying to handle a message in actor which you didn't implement the handler trait "@
                + handler@ + " for it"@,
            ActorError::Handler(_) => "error: the handler reported a failure"@,
            ActorError::HandlerFailed => "error: a handler of the actor failed"@,
            ActorError::NoSupervisor => "no supervisor was found"@,
            ActorError::RestartRefused => "one or more supervisor failed to restart"@,
        }
    }

    /// A human-readable description of the kind of failure. What a handler
    /// reported is the handler's to describe.
    pub fn message(&self) -> (text: String)
        ensures
            text@ == self.message_spec(),
    {
        match self {
            ActorError::TargetGone => String::from_str("error: proxy tx is dropped"),
            ActorError::Canceled => String::from_str("oneshot canceled"),
            ActorError::DispatchMismatch { actor, handler } => {
                let mut text = String::from_str("error: ");
                text.append(*actor);
                text.append(
                    " trying to handle a message in actor which you didn't implement the handler trait ",
                );
                text.append(*handler);
                text.append(" for it");
                text
            },
            ActorError::Handler(_) => String::from_str("error: the handler reported a failure"),
            ActorError::HandlerFailed => String::from_str("error: a handler of the actor failed"),
            ActorError::NoSupervisor => String::from_str("no supervisor was found"),
            ActorError::RestartRefused => String::from_str(
                "one or more supervisor failed to restart",
            ),
        }
    }

    /// Whether the failure means that the target is gone: it cannot be
    /// reached any more, or it went away without an answer.
    pub fn is_target_gone(&self) -> (gone: bool)
        ensures
            gone == (*self is TargetGone || *self is Canceled),
    {
        match self {
            ActorError::TargetGone => true,
            ActorError::Canceled => true,
            _ => false,
        }
    }
}

} // verus!
