use crate::actor::error::ActorError;
use crate::actor::message::Message;
use crate::actor::runner::ActorID;
use vstd::prelude::*;

verus! {

/// Asks a supervisor for a restart of the actor with this identity. It is
/// sent by the loop of a supervised actor that failed.
pub struct Restart(pub ActorID);

impl Message for Restart {
    type Result = Result<(), ActorError<()>>;
}

/// What a supervisor decides when it is asked for a restart.
#[derive(Debug, PartialEq, Eq)]
pub enum RestartStep {
    /// Too little time has passed since the last restart: wait this many
    /// milliseconds and ask again.
    Wait(u64),
    /// The restart goes ahead. The failed actor resumes on the supervisor's
    /// confirmation; each of the listed actors is to be sent a restart event.
    Proceed(Vec<ActorID>),
}

/// The time from `since` to `now` in milliseconds, and zero if `now` is the earlier.
pub open spec fn elapsed(now: u64, since: u64) -> nat {
    if now >= since {
        (now - since) as nat
    } else {
        0
    }
}

/// The decisions of a supervisor: which actors it watches over, and what
/// follows when one of them fails.
pub trait Supervisor {
    /// The identities of the actors under supervision.
    spec fn supervised(&self) -> Set<ActorID>;

    /// Takes the actor under supervision.
    fn supervise(&mut self, id: ActorID)
        ensures
            final(self).supervised() == old(self).supervised().insert(id),
    ;

    /// Releases the actor from supervision.
    fn unsupervise(&mut self, id: ActorID)
        ensures
            final(self).supervised() == old(self).supervised().remove(id),
    ;

    /// Decides on the restart of `failed` at the time `now`, in milliseconds
    /// on the supervisor's clock. Only actors under supervision, and never
    /// the failed one, are named for a restart event.
    fn restart(&mut self, failed: ActorID, now: u64) -> (step: RestartStep)
        ensures
            final(self).supervised() == old(self).supervised(),
            step matches RestartStep::Proceed(targets) ==> forall|i: int|
                0 <= i < targets@.len() ==> old(self).supervised().contains(#[trigger] targets@[i])
                    && targets@[i] != failed,
    ;
}

/// What [`restart_reply`] computes.
pub open spec fn restart_reply_spec(posted: Seq<bool>) -> Result<(), ActorError<()>> {
    if posted.len() == 0 || posted.last() {
        Ok(())
    } else {
        Err(ActorError::TargetGone)
    }
}

/// The supervisor's reply to a restart request, from whether each restart
/// event could be posted, in the order of the attempts. The reply follows the
/// last attempt: it is a confirmation if that event was posted, or if there
/// was none to post.
pub fn restart_reply(posted: &Vec<bool>) -> (reply: Result<(), ActorError<()>>)
    ensures
        reply == restart_reply_spec(posted@),
{
    let n = posted.len();
    if n == 0 || posted[n - 1] {
        Ok(())
    } else {
        Err(ActorError::TargetGone)
    }
}

} // verus!
