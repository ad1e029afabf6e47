use crate::actor::addr::Event;
use crate::actor::context::RestartAnswer;
use crate::actor::error::ActorError;
use crate::actor::runner::{Action, ActorID, Input, LoopMode, OutOfTurn, Phase, RunnerView};
use crate::actor::supervisor::{elapsed, restart_reply_spec, RestartStep, Supervisor};
use crate::utils::table::{
    entries, table_clear, table_get, table_insert, table_keys, table_new, table_remove, Table,
};
use vstd::prelude::*;

verus! {

/// The least time between two restarts that one supervisor lets through, in
/// milliseconds.
pub const DEFAULT_RESTART_DELAY_MS: u64 = 100;

/// Whom a supervisor restarts when one of its actors fails.
#[derive(Debug, Clone, Copy, PartialEq, Eq, Structural)]
pub enum DefaultSupervisorRestartStrategy {
    /// Only the actor that failed.
    OneForOne,
    /// The actor that failed, and with it every other actor under supervision.
    OneForAll,
}

/// The mathematical content of a [`DefaultSupervisor`].
pub ghost struct SupervisorView {
    /// Whom to restart.
    pub strategy: DefaultSupervisorRestartStrategy,
    /// When the last restart was let through, in milliseconds.
    pub last_restart: u64,
    /// The least time between two restarts, in milliseconds.
    pub restart_delay: u64,
    /// The identities of the actors under supervision.
    pub supervised: Set<ActorID>,
}

impl SupervisorView {
    /// Whether a restart asked for at `now` has to wait.
    pub open spec fn must_wait(self, now: u64) -> bool {
        elapsed(now, self.last_restart) < self.restart_delay
    }

    /// For how long a restart asked for at `now` has to wait.
    pub open spec fn remaining(self, now: u64) -> int {
        self.restart_delay - elapsed(now, self.last_restart)
    }

    /// Whether `id` is sent a restart event when `failed` has failed.
    pub open spec fn is_target(self, failed: ActorID, id: ActorID) -> bool {
        self.strategy == DefaultSupervisorRestartStrategy::OneForAll && self.supervised.contains(
            id,
        ) && id != failed
    }

    /// The state after a restart was let through at `now`.
    pub open spec fn restarted(self, now: u64) -> SupervisorView {
        SupervisorView { last_restart: now, ..self }
    }
}

impl SupervisorView {
    /// With the strategy `OneForOne`, only the actor that failed is
    /// restarted: no restart event is sent to anyone.
    pub proof fn law_one_for_one_restarts_only_the_failed(
        self,
        failed: ActorID,
        targets: Seq<ActorID>,
    )
        requires
            self.strategy == DefaultSupervisorRestartStrategy::OneForOne,
            forall|id: ActorID| targets.contains(id) <==> self.is_target(failed, id),
        ensures
            targets.len() == 0,
    {
        if targets.len() > 0 {
            assert(targets.contains(targets[0]));
        }
    }

    /// With the strategy `OneForAll`, every other actor under supervision is
    /// sent exactly one restart event for one failure, and the failed actor
    /// itself none.
    pub proof fn law_one_for_all_restarts_every_other_once(
        self,
        failed: ActorID,
        targets: Seq<ActorID>,
        other: ActorID,
    )
        requires
            self.strategy == DefaultSupervisorRestartStrategy::OneForAll,
            targets.no_duplicates(),
            forall|id: ActorID| targets.contains(id) <==> self.is_target(failed, id),
            self.supervised.contains(other),
        ensures
            other != failed ==> targets.to_multiset().count(other) == 1,
            targets.to_multiset().count(failed) == 0,
    {
        targets.lemma_multiset_has_no_duplicates();
        targets.to_multiset_ensures();
    }

    /// A failed actor that is the charge of one `OneForOne` supervisor
    /// resumes, and nobody else is restarted. The supervisor names no
    /// actor for a restart event, so it has nothing to post and confirms; the
    /// confirmation sends the failed actor through its restart hook and back
    /// to its mailbox.
    pub proof fn law_one_for_one_saves_the_failed_actor<X, P, W, E>(
        self,
        actor: RunnerView<P, W, E>,
        failure: ActorError<E>,
        targets: Seq<ActorID>,
        posted: Seq<bool>,
        answers: Vec<RestartAnswer>,
    )
        requires
            self.strategy == DefaultSupervisorRestartStrategy::OneForOne,
            forall|id: ActorID| targets.contains(id) <==> self.is_target(actor.ctx.id, id),
            posted.len() == targets.len(),
            actor.phase == Phase::Executing,
            actor.ctx.supervisors.len() == 1,
            answers@ == seq![
                RestartAnswer::from_call_spec::<ActorError<()>, ActorError<E>>(
                    Ok(restart_reply_spec(posted)),
                ),
            ],
        ensures
            targets.len() == 0,
            ({
                let (asking, asked) = actor.next::<X>(
                    LoopMode::Supervised,
                    Input::Executed(Err(failure)),
                );
                let (restarting, hook) = asking.next::<X>(
                    LoopMode::Supervised,
                    Input::Answered(answers),
                );
                let (resumed, waiting) = restarting.next::<X>(
                    LoopMode::Supervised,
                    Input::RestartHookDone,
                );
                &&& asked == Ok::<Action<X>, OutOfTurn>(Action::Consult)
                &&& hook == Ok::<Action<X>, OutOfTurn>(Action::RestartHook)
                &&& waiting == Ok::<Action<X>, OutOfTurn>(Action::Receive)
                &&& resumed == (RunnerView { phase: Phase::Idle, ..actor })
            }),
    {
        self.law_one_for_one_restarts_only_the_failed(actor.ctx.id, targets);
        assert(answers@[0] == RestartAnswer::Confirmed);
        actor.law_confirmed_restart_resumes::<X>(failure, answers);
    }

    /// When an actor in the charge of a `OneForAll` supervisor fails, every
    /// other actor in that charge goes through its restart hook exactly once:
    /// it is named once for a restart event, and the event, once its idle
    /// loop receives it, runs the hook once and leaves the loop as it was.
    pub proof fn law_one_for_all_restarts_each_other_actor<X, P, W, E>(
        self,
        failed: ActorID,
        targets: Seq<ActorID>,
        other: RunnerView<P, W, E>,
    )
        requires
            self.strategy == DefaultSupervisorRestartStrategy::OneForAll,
            targets.no_duplicates(),
            forall|id: ActorID| targets.contains(id) <==> self.is_target(failed, id),
            self.supervised.contains(other.ctx.id),
            other.ctx.id != failed,
            other.phase == Phase::Idle,
        ensures
            targets.to_multiset().count(other.ctx.id) == 1,
            ({
                let (restarting, hook) = other.next::<X>(
                    LoopMode::Supervised,
                    Input::Delivered(Event::Restart),
                );
                let (resumed, waiting) = restarting.next::<X>(
                    LoopMode::Supervised,
                    Input::RestartHookDone,
                );
                &&& hook == Ok::<Action<X>, OutOfTurn>(Action::RestartHook)
                &&& waiting == Ok::<Action<X>, OutOfTurn>(Action::Receive)
                &&& resumed == other
            }),
    {
        self.law_one_for_all_restarts_every_other_once(failed, targets, other.ctx.id);
    }

    /// Restarts are spaced: between two restarts that one supervisor lets
    /// through, one right after the other, at least the restart delay passes.
    pub proof fn law_restarts_are_spaced(self, first: u64, second: u64)
        requires
            !self.must_wait(first),
            !self.restarted(first).must_wait(second),
        ensures
            elapsed(second, first) >= self.restart_delay,
    {
    }
}

/// A supervisor that restarts by a fixed strategy and lets no two restarts
/// through within its restart delay.
pub struct DefaultSupervisor {
    restart_strategy: DefaultSupervisorRestartStrategy,
    last_restart: u64,
    restart_delay: u64,
    supervised_actors: Table,
}

impl View for DefaultSupervisor {
    type V = SupervisorView;

    closed spec fn view(&self) -> SupervisorView {
        SupervisorView {
            strategy: self.restart_strategy,
            last_restart: self.last_restart,
            restart_delay: self.restart_delay,
            supervised: entries(self.supervised_actors).dom(),
        }
    }
}

impl DefaultSupervisor {
    /// A supervisor without actors, created at the time `now`. The first
    /// restart is let through once the restart delay has passed since then.
    pub fn new(restart_strategy: DefaultSupervisorRestartStrategy, now: u64) -> (supervisor: Self)
        ensures
            supervisor@ == (SupervisorView {
                strategy: restart_strategy,
                last_restart: now,
                restart_delay: DEFAULT_RESTART_DELAY_MS,
                supervised: Set::<ActorID>::empty(),
            }),
    {
        DefaultSupervisor {
            restart_strategy,
            last_restart: now,
            restart_delay: DEFAULT_RESTART_DELAY_MS,
            supervised_actors: table_new(),
        }
    }

    /// The stop hook of the supervisor: it lets go of every actor.
    pub fn on_stop(&mut self)
        ensures
            final(self)@ == (SupervisorView { supervised: Set::<ActorID>::empty(), ..old(self)@ }),
    {
        table_clear(&mut self.supervised_actors);
    }

    /// Whether the actor is under supervision.
    pub fn supervises(&self, id: ActorID) -> (found: bool)
        ensures
            found == self@.supervised.contains(id),
    {
        table_get(&self.supervised_actors, id).is_some()
    }
}

impl Supervisor for DefaultSupervisor {
    open spec fn supervised(&self) -> Set<ActorID> {
        self@.supervised
    }

    fn supervise(&mut self, id: ActorID)
        ensures
            final(self)@ == (SupervisorView {
                supervised: old(self)@.supervised.insert(id),
                ..old(self)@
            }),
    {
        let _ = table_insert(&mut self.supervised_actors, id, id);
    }

    fn unsupervise(&mut self, id: ActorID)
        ensures
            final(self)@ == (SupervisorView {
                supervised: old(self)@.supervised.remove(id),
                ..old(self)@
            }),
    {
        let _ = table_remove(&mut self.supervised_actors, id);
    }

    /// Decides on the restart of `failed` at the time `now`.
    ///
    /// While less than the restart delay has passed since the last restart
    /// that was let through (by this supervisor, for whichever actor), the
    /// answer is to wait out the rest of it, and nothing changes. Otherwise
    /// the restart is let through and `now` becomes the time of the last
    /// restart. With [`DefaultSupervisorRestartStrategy::OneForOne`] nobody
    /// else is restarted; with `OneForAll` every other actor under
    /// supervision is named once, in no particular order.
    fn restart(&mut self, failed: ActorID, now: u64) -> (step: RestartStep)
        ensures
            match step {
                RestartStep::Wait(ms) => old(self)@.must_wait(now) && ms == old(self)@.remaining(
                    now,
                ) && final(self)@ == old(self)@,
                RestartStep::Proceed(targets) => !old(self)@.must_wait(now) && final(self)@ == old(
                    self,
                )@.restarted(now) && targets@.no_duplicates() && forall|id: ActorID|
                    targets@.contains(id) <==> old(self)@.is_target(failed, id),
            },
    {
        let passed = if now >= self.last_restart {
            now - self.last_restart
        } else {
            0
        };
        if passed < self.restart_delay {
            return RestartStep::Wait(self.restart_delay - passed);
        }
        let mut targets: Vec<ActorID> = Vec::new();
        match self.restart_strategy {
            DefaultSupervisorRestartStrategy::OneForOne => {},
            DefaultSupervisorRestartStrategy::OneForAll => {
                let keys = table_keys(&self.supervised_actors);
                let mut i: usize = 0;
                while i < keys.len()
                    invariant
                        i <= keys.len(),
                        keys@.no_duplicates(),
                        targets@.no_duplicates(),
                        forall|a: int|
                            0 <= a < targets@.len() ==> targets@[a] != failed && exists|b: int|
                                0 <= b < i && keys@[b] == #[trigger] targets@[a],
                        forall|b: int|
                            0 <= b < i && keys@[b] != failed ==> targets@.contains(
                                #[trigger] keys@[b],
                            ),
                    decreases keys.len() - i,
                {
                    let id = keys[i];
                    if id != failed {
                        let ghost before = targets@;
                        targets.push(id);
                        assert forall|b: int|
                            0 <= b < i + 1 && keys@[b] != failed implies targets@.contains(
                            #[trigger] keys@[b],
                        ) by {
                            if b < i {
                                let a = choose|a: int| 0 <= a < before.len() && before[a] == keys@[b];
                                assert(targets@[a] == keys@[b]);
                            } else {
                                assert(targets@[before.len() as int] == keys@[b]);
                            }
                        }
                    }
                    i += 1;
                }
                assert forall|id: ActorID| targets@.contains(id) <==> self@.is_target(
                    failed,
                    id,
                ) by {
                    if targets@.contains(id) {
                        assert(keys@.contains(id));
                    }
                    if self@.is_target(failed, id) {
                        assert(keys@.contains(id));
                    }
                }
            },
        }
        self.last_restart = now;
        RestartStep::Proceed(targets)
    }
}

} // verus!
