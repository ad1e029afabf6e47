use crate::actor::error::ActorError;
use crate::actor::runner::{ActorID, ActorIds};
use vstd::prelude::*;

verus! {

/// What one supervisor answered when a failed actor asked it for a restart.
#[derive(Debug, Clone, Copy, PartialEq, Eq, Structural)]
pub enum RestartAnswer {
    /// The supervisor took the request and allows the restart.
    Confirmed,
    /// The supervisor took the request and reported a failure.
    Refused,
    /// The supervisor could not be reached: it was dropped or its mailbox is gone.
    Unreachable,
}

impl RestartAnswer {
    /// What [`RestartAnswer::from_call`] computes.
    pub open spec fn from_call_spec<A, B>(reply: Result<Result<(), A>, B>) -> RestartAnswer {
        match reply {
            Ok(Ok(_)) => RestartAnswer::Confirmed,
            Ok(Err(_)) => RestartAnswer::Refused,
            Err(_) => RestartAnswer::Unreachable,
        }
    }

    /// Reads the answer out of what the call to a supervisor resolved to: the
    /// outer failure is that of the call, the inner one that of the supervisor.
    pub fn from_call<A, B>(reply: &Result<Result<(), A>, B>) -> (answer: RestartAnswer)
        ensures
            answer == RestartAnswer::from_call_spec(*reply),
    {
        match reply {
            Ok(Ok(_)) => RestartAnswer::Confirmed,
            Ok(Err(_)) => RestartAnswer::Refused,
            Err(_) => RestartAnswer::Unreachable,
        }
    }
}

/// Whether some supervisor confirmed.
pub open spec fn some_confirmed(answers: Seq<RestartAnswer>) -> bool {
    exists|i: int| 0 <= i < answers.len() && answers[i] == RestartAnswer::Confirmed
}

/// Whether a failed actor with `registered` supervisors may resume, given
/// what the supervisors answered: it may if at least one of them confirmed.
pub open spec fn restart_verdict<E>(registered: nat, answers: Seq<RestartAnswer>) -> Result<
    (),
    ActorError<E>,
> {
    if registered == 0 {
        Err(ActorError::NoSupervisor)
    } else if some_confirmed(answers) {
        Ok(())
    } else {
        Err(ActorError::RestartRefused)
    }
}

/// The mathematical content of a [`Context`].
pub ghost struct ContextView<P, W> {
    /// The identity of the actor.
    pub id: ActorID,
    /// The registered supervisors, oldest first.
    pub supervisors: Seq<P>,
    /// The actor's own weak address, once it has been set.
    pub addr: Option<W>,
}

/// The handle that every handler invocation of one actor is given.
///
/// It carries the actor's identity, the proxies of the supervisors registered
/// on the actor (`P`) and the actor's own weak address (`W`), which can be set
/// once.
pub struct Context<P, W> {
    id: ActorID,
    supervisors: Vec<P>,
    addr: Option<W>,
}

impl<P, W> View for Context<P, W> {
    type V = ContextView<P, W>;

    closed spec fn view(&self) -> ContextView<P, W> {
        ContextView { id: self.id, supervisors: self.supervisors@, addr: self.addr }
    }
}

impl<P, W> Context<P, W> {
    /// Creates the context of a new actor under the next free identity.
    pub fn new(ids: &mut ActorIds) -> (ctx: Self)
        ensures
            ctx@.id == old(ids).next_id(),
            ctx@.supervisors == Seq::<P>::empty(),
            ctx@.addr is None,
            final(ids).next_id() == ActorIds::successor(old(ids).next_id()),
    {
        let id = ids.allocate();
        Context { id, supervisors: Vec::new(), addr: None }
    }

    /// The identity of the actor.
    pub fn id(&self) -> (id: ActorID)
        ensures
            id == self@.id,
    {
        self.id
    }

    /// The registered supervisors, oldest first.
    pub fn supervisors(&self) -> (list: &Vec<P>)
        ensures
            list@ == self@.supervisors,
    {
        &self.supervisors
    }

    /// Registers one more supervisor.
    pub fn add_supervisor(&mut self, supervisor: P)
        ensures
            final(self)@ == (ContextView {
                supervisors: old(self)@.supervisors.push(supervisor),
                ..old(self)@
            }),
    {
        self.supervisors.push(supervisor);
    }

    /// The actor's own weak address, if it has been set.
    pub fn addr(&self) -> (addr: Option<&W>)
        ensures
            match addr {
                Some(a) => self@.addr == Some(*a),
                None => self@.addr is None,
            },
    {
        self.addr.as_ref()
    }

    /// Sets the actor's own weak address. The address can be set once: a
    /// second attempt changes nothing and hands the rejected address back.
    pub fn set_addr(&mut self, addr: W) -> (result: Result<(), W>)
        ensures
            old(self)@.addr is None ==> result is Ok && final(self)@ == (ContextView {
                addr: Some(addr),
                ..old(self)@
            }),
            old(self)@.addr is Some ==> result == Err::<(), W>(addr) && final(self)@ == old(self)@,
    {
        if self.addr.is_some() {
            Err(addr)
        } else {
            self.addr = Some(addr);
            Ok(())
        }
    }

    /// Decides whether the failed actor may resume, from what its supervisors
    /// answered to the restart request.
    ///
    /// With no supervisor registered the answer is
    /// [`ActorError::NoSupervisor`]. Otherwise the actor resumes if at least
    /// one supervisor confirmed; a supervisor that could not be reached counts
    /// like one that refused.
    pub fn await_supervisor<E>(&self, answers: &Vec<RestartAnswer>) -> (verdict: Result<
        (),
        ActorError<E>,
    >)
        ensures
            verdict == restart_verdict::<E>(self@.supervisors.len(), answers@),
    {
        if self.supervisors.len() == 0 {
            return Err(ActorError::NoSupervisor);
        }
        let mut i: usize = 0;
        while i < answers.len()
            invariant
                i <= answers.len(),
                self@.supervisors.len() != 0,
                forall|k: int| 0 <= k < i ==> answers@[k] != RestartAnswer::Confirmed,
            decreases answers.len() - i,
        {
            if answers[i] == RestartAnswer::Confirmed {
                assert(some_confirmed(answers@));
                return Ok(());
            }
            i += 1;
        }
        Err(ActorError::RestartRefused)
    }
}

} // verus!
