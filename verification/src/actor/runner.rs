use crate::actor::addr::Event;
use crate::actor::context::{
    restart_verdict, some_confirmed, Context, ContextView, RestartAnswer,
};
use crate::actor::error::ActorError;
use vstd::prelude::*;

verus! {

/// The identity of an actor: unique in the process, and never given out twice.
pub type ActorID = u64;

/// The source of actor identities: a counter that only moves forward.
pub struct ActorIds {
    next: ActorID,
}

impl ActorIds {
    /// The identity that the next call of [`ActorIds::allocate`] gives out.
    pub closed spec fn next_id(&self) -> ActorID {
        self.next
    }

    /// The identity that follows `id`. The counter wraps after the last
    /// 64-bit value.
    pub open spec fn successor(id: ActorID) -> ActorID {
        if id == u64::MAX {
            0
        } else {
            (id + 1) as u64
        }
    }

    /// The identity given out by the `k`-th allocation that follows a state
    /// whose next identity is `start`, counting from zero.
    pub open spec fn issued(start: ActorID, k: nat) -> ActorID
        decreases k,
    {
        if k == 0 {
            start
        } else {
            Self::successor(Self::issued(start, (k - 1) as nat))
        }
    }

    /// A source that starts at zero.
    pub fn new() -> (ids: Self)
        ensures
            ids.next_id() == 0,
    {
        ActorIds { next: 0 }
    }

    /// Gives out the next identity.
    pub fn allocate(&mut self) -> (id: ActorID)
        ensures
            id == old(self).next_id(),
            final(self).next_id() == Self::successor(old(self).next_id()),
    {
        let id = self.next;
        self.next = id.wrapping_add(1);
        id
    }

    /// The `k`-th identity after `start` is `start + k`, wrapped to 64 bits.
    pub proof fn lemma_issued_value(start: ActorID, k: nat)
        ensures
            Self::issued(start, k) == (start + k) % 0x1_0000_0000_0000_0000,
        decreases k,
    {
        if k > 0 {
            Self::lemma_issued_value(start, (k - 1) as nat);
        }
    }

    /// An identity is never given out twice: as long as fewer than 2^64
    /// identities were issued, any two of them differ.
    pub proof fn law_identities_are_unique(start: ActorID, i: nat, j: nat)
        requires
            i < j < 0x1_0000_0000_0000_0000,
        ensures
            Self::issued(start, i) != Self::issued(start, j),
    {
        Self::lemma_issued_value(start, i);
        Self::lemma_issued_value(start, j);
    }

    /// Identities grow: until the counter wraps, a later identity is larger
    /// than an earlier one.
    pub proof fn law_identities_increase(start: ActorID, i: nat, j: nat)
        requires
            i < j,
            start + j <= u64::MAX,
        ensures
            Self::issued(start, i) < Self::issued(start, j),
    {
        Self::lemma_issued_value(start, i);
        Self::lemma_issued_value(start, j);
    }
}

/// The two ways of running an actor's event loop.
#[derive(Debug, Clone, Copy, PartialEq, Eq, Structural)]
pub enum LoopMode {
    /// A failure ends the loop.
    Plain,
    /// A failure is put before the registered supervisors, which may let the
    /// actor resume.
    Supervised,
}

/// Where an actor's event loop stands.
#[derive(Debug, Clone, Copy, PartialEq, Eq, Structural)]
pub enum Phase {
    /// The start hook is running; the loop has not begun.
    Starting,
    /// The loop waits for the next event of the mailbox.
    Idle,
    /// The closure of an `Exec` event is running.
    Executing,
    /// The supervisors are being asked whether the actor may resume.
    Consulting,
    /// The restart hook is running.
    Restarting,
    /// The loop has ended and the stop hook is running.
    Stopping,
    /// The stop hook has returned and the exit signal has fired.
    Exited,
    /// The start hook failed: the loop never began and never will.
    Aborted,
}

/// What the driver reports to the loop: the one thing that happened since
/// the loop's last answer.
#[derive(Debug, PartialEq, Eq)]
pub enum Input<X, P, E> {
    /// The start hook returned.
    Started(Result<(), ActorError<E>>),
    /// The mailbox delivered an event.
    Delivered(Event<X, P, E>),
    /// The mailbox is closed: no sender is left and it is empty.
    Closed,
    /// The closure of the last `Exec` event returned.
    Executed(Result<(), ActorError<E>>),
    /// Every registered supervisor has answered the restart request.
    Answered(Vec<RestartAnswer>),
    /// The restart hook returned.
    RestartHookDone,
    /// The stop hook returned.
    StopHookDone,
}

impl<X, P, E> Input<X, P, E> {
    /// Whether the input is an event that only a supervisor sends, and that
    /// only a supervised loop takes.
    pub open spec fn supervisor_only(self) -> bool {
        self matches Input::Delivered(event) && (event is Restart || event is AddSupervisor)
    }
}

/// What the loop asks the driver to do next.
#[derive(Debug, PartialEq, Eq)]
pub enum Action<X> {
    /// Wait for the next event of the mailbox and report it.
    Receive,
    /// Run the closure against the actor and report what it returned.
    Execute(X),
    /// Ask every registered supervisor for a restart of this actor and report
    /// the answers.
    Consult,
    /// Run the restart hook and report its return.
    RestartHook,
    /// Run the stop hook and report its return.
    StopHook,
    /// Fire the exit signal, take the actor off the set of running actors and
    /// end the task with the loop's result.
    Exit,
    /// The start hook failed: give the loop's result to whoever spawned the
    /// actor. No hook runs and the exit signal does not fire.
    Abort,
}

/// The answer to an input that does not fit the phase of the loop. The loop
/// is left as it was.
#[derive(Debug, Clone, Copy, PartialEq, Eq, Structural)]
pub struct OutOfTurn;

/// The mathematical content of an [`ActorRunner`].
pub ghost struct RunnerView<P, W, E> {
    /// The context of the actor.
    pub ctx: ContextView<P, W>,
    /// Where the loop stands.
    pub phase: Phase,
    /// The result of the loop. It has its final value once the phase is
    /// `Stopping`, `Exited` or `Aborted`.
    pub exit: Result<(), ActorError<E>>,
}

impl<P, W, E> RunnerView<P, W, E> {
    /// The loop ends with `result`: the stop hook is next.
    pub open spec fn halt<X>(self, result: Result<(), ActorError<E>>) -> (
        Self,
        Result<Action<X>, OutOfTurn>,
    ) {
        (RunnerView { phase: Phase::Stopping, exit: result, ..self }, Ok(Action::StopHook))
    }

    /// The loop moves to `phase` and asks for `action`.
    pub open spec fn go<X>(self, phase: Phase, action: Action<X>) -> (
        Self,
        Result<Action<X>, OutOfTurn>,
    ) {
        (RunnerView { phase: phase, ..self }, Ok(action))
    }

    /// The actor failed. A plain loop ends with the failure; a supervised
    /// loop puts the matter before the supervisors.
    pub open spec fn fail<X>(self, mode: LoopMode, failure: ActorError<E>) -> (
        Self,
        Result<Action<X>, OutOfTurn>,
    ) {
        match mode {
            LoopMode::Plain => self.halt(Err(failure)),
            LoopMode::Supervised => self.go(Phase::Consulting, Action::Consult),
        }
    }

    /// The transition of the event loop: the state after `input`, and the
    /// answer to it.
    pub open spec fn next<X>(self, mode: LoopMode, input: Input<X, P, E>) -> (
        Self,
        Result<Action<X>, OutOfTurn>,
    ) {
        match (self.phase, input) {
            (Phase::Starting, Input::Started(Ok(_))) => self.go(Phase::Idle, Action::Receive),
            (Phase::Starting, Input::Started(Err(failure))) => (
                RunnerView { phase: Phase::Aborted, exit: Err(failure), ..self },
                Ok(Action::Abort),
            ),
            (Phase::Idle, Input::Delivered(Event::Stop(Ok(_)))) => self.halt(Ok(())),
            (Phase::Idle, Input::Delivered(Event::Stop(Err(failure)))) => self.fail(mode, failure),
            (Phase::Idle, Input::Delivered(Event::Exec(closure))) => self.go(
                Phase::Executing,
                Action::Execute(closure),
            ),
            (Phase::Idle, Input::Delivered(Event::Restart)) => match mode {
                LoopMode::Plain => (self, Err(OutOfTurn)),
                LoopMode::Supervised => self.go(Phase::Restarting, Action::RestartHook),
            },
            (Phase::Idle, Input::Delivered(Event::AddSupervisor(proxy))) => match mode {
                LoopMode::Plain => (self, Err(OutOfTurn)),
                LoopMode::Supervised => (
                    RunnerView {
                        ctx: ContextView {
                            supervisors: self.ctx.supervisors.push(proxy),
                            ..self.ctx
                        },
                        ..self
                    },
                    Ok(Action::Receive),
                ),
            },
            (Phase::Idle, Input::Closed) => self.halt(Ok(())),
            (Phase::Executing, Input::Executed(Ok(_))) => self.go(Phase::Idle, Action::Receive),
            (Phase::Executing, Input::Executed(Err(failure))) => self.fail(mode, failure),
            (Phase::Consulting, Input::Answered(answers)) => match restart_verdict::<E>(
                self.ctx.supervisors.len(),
                answers@,
            ) {
                Ok(_) => self.go(Phase::Restarting, Action::RestartHook),
                Err(refusal) => self.halt(Err(refusal)),
            },
            (Phase::Restarting, Input::RestartHookDone) => self.go(Phase::Idle, Action::Receive),
            (Phase::Stopping, Input::StopHookDone) => self.go(Phase::Exited, Action::Exit),
            _ => (self, Err(OutOfTurn)),
        }
    }
}

impl<P, W, E> RunnerView<P, W, E> {
    /// The state after the first `n` of `inputs`, each taken in `mode`.
    pub open spec fn after<X>(self, mode: LoopMode, inputs: Seq<Input<X, P, E>>, n: nat) -> Self
        decreases n,
    {
        if n == 0 {
            self
        } else {
            self.after(mode, inputs, (n - 1) as nat).next(mode, inputs[n - 1]).0
        }
    }

    /// The answer to the input at position `i` of `inputs`.
    pub open spec fn answer<X>(self, mode: LoopMode, inputs: Seq<Input<X, P, E>>, i: int) -> Result<
        Action<X>,
        OutOfTurn,
    > {
        self.after(mode, inputs, i as nat).next(mode, inputs[i]).1
    }

    /// Whether the loop has ended: nothing will be received or run any more.
    pub open spec fn ended(self) -> bool {
        self.phase == Phase::Stopping || self.phase == Phase::Exited || self.phase
            == Phase::Aborted
    }

    /// A loop that has ended stays ended, whatever is reported to it.
    pub proof fn lemma_ended_is_final<X>(
        self,
        mode: LoopMode,
        inputs: Seq<Input<X, P, E>>,
        from: nat,
        to: nat,
    )
        requires
            from <= to,
            self.after(mode, inputs, from).ended(),
        ensures
            self.after(mode, inputs, to).ended(),
            self.after(mode, inputs, from).phase == Phase::Exited ==> self.after(
                mode,
                inputs,
                to,
            ).phase == Phase::Exited,
        decreases to - from,
    {
        if from < to {
            self.lemma_ended_is_final(mode, inputs, from, (to - 1) as nat);
        }
    }

    /// Between a moment at which a closure runs and a later one at which none
    /// does, the return of that closure was reported.
    pub proof fn lemma_closure_returns<X>(
        self,
        mode: LoopMode,
        inputs: Seq<Input<X, P, E>>,
        from: nat,
        to: nat,
    ) -> (k: int)
        requires
            from <= to,
            self.after(mode, inputs, from).phase == Phase::Executing,
            self.after(mode, inputs, to).phase != Phase::Executing,
        ensures
            from <= k < to,
            inputs[k] is Executed,
            self.after(mode, inputs, k as nat).phase == Phase::Executing,
        decreases to - from,
    {
        let before = self.after(mode, inputs, (to - 1) as nat);
        if before.phase == Phase::Executing {
            to - 1
        } else {
            self.lemma_closure_returns(mode, inputs, from, (to - 1) as nat)
        }
    }

    /// The stop hook was asked for before the loop got to wait for its return.
    pub proof fn lemma_stop_hook_was_asked<X>(
        self,
        mode: LoopMode,
        inputs: Seq<Input<X, P, E>>,
        n: nat,
    ) -> (k: int)
        requires
            self.phase != Phase::Stopping,
            self.after(mode, inputs, n).phase == Phase::Stopping,
        ensures
            0 <= k < n,
            self.answer(mode, inputs, k) == Ok::<Action<X>, OutOfTurn>(Action::StopHook),
        decreases n,
    {
        let before = self.after(mode, inputs, (n - 1) as nat);
        if before.phase == Phase::Stopping {
            self.lemma_stop_hook_was_asked(mode, inputs, (n - 1) as nat)
        } else {
            n - 1
        }
    }

    /// The exit signal fires at most once: of the answers to any sequence of
    /// inputs, at most one is [`Action::Exit`].
    pub proof fn law_exit_signal_fires_once<X>(
        self,
        mode: LoopMode,
        inputs: Seq<Input<X, P, E>>,
        i: int,
        j: int,
    )
        requires
            0 <= i < j < inputs.len(),
        ensures
            !(self.answer(mode, inputs, i) == Ok::<Action<X>, OutOfTurn>(Action::Exit)
                && self.answer(mode, inputs, j) == Ok::<Action<X>, OutOfTurn>(Action::Exit)),
    {
        if self.answer(mode, inputs, i) == Ok::<Action<X>, OutOfTurn>(Action::Exit) {
            self.lemma_ended_is_final(mode, inputs, (i + 1) as nat, j as nat);
        }
    }

    /// The exit signal fires only after the stop hook has completed: the
    /// answer [`Action::Exit`] is given to the report that the stop hook
    /// returned, and the stop hook was asked for earlier.
    pub proof fn law_exit_follows_stop_hook<X>(
        self,
        mode: LoopMode,
        inputs: Seq<Input<X, P, E>>,
        i: int,
    ) -> (k: int)
        requires
            self.phase == Phase::Starting,
            0 <= i < inputs.len(),
            self.answer(mode, inputs, i) == Ok::<Action<X>, OutOfTurn>(Action::Exit),
        ensures
            inputs[i] is StopHookDone,
            0 <= k < i,
            self.answer(mode, inputs, k) == Ok::<Action<X>, OutOfTurn>(Action::StopHook),
    {
        self.lemma_stop_hook_was_asked(mode, inputs, i as nat)
    }

    /// An actor handles its events one at a time and in the order of their
    /// delivery: a closure is run in answer to the very event that carries it,
    /// and before a second closure is run, the first has returned.
    pub proof fn law_events_run_in_order<X>(
        self,
        mode: LoopMode,
        inputs: Seq<Input<X, P, E>>,
        i: int,
        j: int,
    ) -> (k: int)
        requires
            0 <= i < j < inputs.len(),
            self.answer(mode, inputs, i) is Ok,
            self.answer(mode, inputs, i)->Ok_0 is Execute,
            self.answer(mode, inputs, j) is Ok,
            self.answer(mode, inputs, j)->Ok_0 is Execute,
        ensures
            inputs[i] == Input::<X, P, E>::Delivered(
                Event::Exec(self.answer(mode, inputs, i)->Ok_0->Execute_0),
            ),
            inputs[j] == Input::<X, P, E>::Delivered(
                Event::Exec(self.answer(mode, inputs, j)->Ok_0->Execute_0),
            ),
            i < k < j,
            inputs[k] is Executed,
            self.after(mode, inputs, k as nat).phase == Phase::Executing,
    {
        self.lemma_closure_returns(mode, inputs, (i + 1) as nat, j as nat)
    }

    /// A closure that runs is never cancelled: whatever else is reported
    /// while it runs is out of turn, and only the report of its return moves
    /// the loop on. A caller that gave up waiting changes nothing about that.
    pub proof fn law_running_closure_is_never_cancelled<X>(
        self,
        mode: LoopMode,
        input: Input<X, P, E>,
    )
        requires
            self.phase == Phase::Executing,
        ensures
            !(input is Executed) ==> self.next(mode, input) == (self, Err::<Action<X>, OutOfTurn>(OutOfTurn)),
            input is Executed ==> self.next(mode, input).1 is Ok && self.next(mode, input).0.phase
                != Phase::Executing,
    {
    }

    /// A supervised actor that fails resumes if a supervisor is registered
    /// and at least one supervisor confirms: the failure is put before the
    /// supervisors, their answers send the actor through the restart hook, and
    /// after the hook the loop waits for the next event as if nothing had
    /// happened.
    pub proof fn law_confirmed_restart_resumes<X>(
        self,
        failure: ActorError<E>,
        answers: Vec<RestartAnswer>,
    )
        requires
            self.phase == Phase::Executing,
            self.ctx.supervisors.len() > 0,
            some_confirmed(answers@),
        ensures
            ({
                let (asking, asked) = self.next::<X>(
                    LoopMode::Supervised,
                    Input::Executed(Err(failure)),
                );
                let (restarting, hook) = asking.next::<X>(
                    LoopMode::Supervised,
                    Input::Answered(answers),
                );
                let (resumed, waiting) = restarting.next::<X>(
                    LoopMode::Supervised,
                    Input::RestartHookDone,
                );
                &&& asked == Ok::<Action<X>, OutOfTurn>(Action::Consult)
                &&& hook == Ok::<Action<X>, OutOfTurn>(Action::RestartHook)
                &&& waiting == Ok::<Action<X>, OutOfTurn>(Action::Receive)
                &&& resumed == (RunnerView { phase: Phase::Idle, ..self })
            }),
    {
    }

    /// The restart hook runs once for each restart event that a supervised
    /// actor receives, and once for each failure after which it resumes: the
    /// loop asks for the hook only in answer to one of the two, and waits for
    /// the hook's return before it takes anything else.
    pub proof fn law_restart_hook_runs_once_per_cause<X>(
        self,
        mode: LoopMode,
        input: Input<X, P, E>,
    )
        requires
            self.next(mode, input).1 == Ok::<Action<X>, OutOfTurn>(Action::RestartHook),
        ensures
            self.next(mode, input).0.phase == Phase::Restarting,
            (mode == LoopMode::Supervised && self.phase == Phase::Idle && input == Input::<
                X,
                P,
                E,
            >::Delivered(Event::Restart)) || (self.phase == Phase::Consulting
                && input is Answered),
            forall|other: Input<X, P, E>|
                !(other is RestartHookDone) ==> (#[trigger] self.next(mode, input).0.next(
                    mode,
                    other,
                )).1 is Err,
    {
    }

    /// The loop never touches who the actor is: whatever is reported, the
    /// identity and the weak self-address of the context stay, and the list of
    /// supervisors is as before or longer by the one that was added.
    pub proof fn law_context_is_kept<X>(self, mode: LoopMode, input: Input<X, P, E>)
        ensures
            self.next(mode, input).0.ctx.id == self.ctx.id,
            self.next(mode, input).0.ctx.addr == self.ctx.addr,
            match input {
                Input::Delivered(Event::AddSupervisor(proxy)) => self.next(
                    mode,
                    input,
                ).0.ctx.supervisors == if mode == LoopMode::Supervised && self.phase
                    == Phase::Idle {
                    self.ctx.supervisors.push(proxy)
                } else {
                    self.ctx.supervisors
                },
                _ => self.next(mode, input).0.ctx.supervisors == self.ctx.supervisors,
            },
    {
    }

    /// What is reported to a loop that serves `closures` one after the other
    /// without a failure: the delivery of each, followed by its return.
    pub open spec fn serving<X>(closures: Seq<X>) -> Seq<Input<X, P, E>> {
        Seq::new(
            2 * closures.len(),
            |i: int|
                if i % 2 == 0 {
                    Input::Delivered(Event::Exec(closures[i / 2]))
                } else {
                    Input::Executed(Ok(()))
                },
        )
    }

    /// Serving closures that succeed leaves the loop as it was.
    pub proof fn lemma_serving_keeps_the_state<X>(self, mode: LoopMode, closures: Seq<X>, k: nat)
        requires
            self.phase == Phase::Idle,
            k <= closures.len(),
        ensures
            self.after(mode, Self::serving(closures), 2 * k) == self,
        decreases k,
    {
        if k > 0 {
            self.lemma_serving_keeps_the_state(mode, closures, (k - 1) as nat);
            let inputs = Self::serving(closures);
            assert(self.after(mode, inputs, (2 * k - 1) as nat).phase == Phase::Executing);
        }
    }

    /// The mailbox is served first in, first out: when the mailbox delivers
    /// closures in some order and none of them fails, the loop runs exactly
    /// these closures, each once and in the order of delivery, and after each
    /// it asks for the next event.
    pub proof fn law_mailbox_is_served_in_order<X>(self, mode: LoopMode, closures: Seq<X>, k: int)
        requires
            self.phase == Phase::Idle,
            0 <= k < closures.len(),
        ensures
            self.answer(mode, Self::serving(closures), 2 * k) == Ok::<Action<X>, OutOfTurn>(
                Action::Execute(closures[k]),
            ),
            self.answer(mode, Self::serving(closures), 2 * k + 1) == Ok::<Action<X>, OutOfTurn>(
                Action::Receive,
            ),
    {
        let inputs = Self::serving(closures);
        self.lemma_serving_keeps_the_state(mode, closures, k as nat);
        assert(self.after(mode, inputs, (2 * k + 1) as nat).phase == Phase::Executing);
    }

    /// Once the loop has ended, no closure is run any more: an event that
    /// reaches the mailbox after a stop took effect is never executed.
    pub proof fn law_nothing_runs_after_stop<X>(
        self,
        mode: LoopMode,
        inputs: Seq<Input<X, P, E>>,
        i: int,
        j: int,
    )
        requires
            0 <= i <= j < inputs.len(),
            self.after(mode, inputs, i as nat).ended(),
        ensures
            !(self.answer(mode, inputs, j) is Ok && self.answer(mode, inputs, j)->Ok_0 is Execute),
            self.after(mode, inputs, (j + 1) as nat).exit == self.after(mode, inputs, i as nat).exit,
    {
        self.lemma_ended_is_final(mode, inputs, i as nat, j as nat);
        self.lemma_exit_is_kept(mode, inputs, i as nat, (j + 1) as nat);
    }

    /// The result of a loop that has ended does not change any more.
    pub proof fn lemma_exit_is_kept<X>(
        self,
        mode: LoopMode,
        inputs: Seq<Input<X, P, E>>,
        from: nat,
        to: nat,
    )
        requires
            from <= to,
            self.after(mode, inputs, from).ended(),
        ensures
            self.after(mode, inputs, to).exit == self.after(mode, inputs, from).exit,
        decreases to - from,
    {
        if from < to {
            self.lemma_exit_is_kept(mode, inputs, from, (to - 1) as nat);
            self.lemma_ended_is_final(mode, inputs, from, (to - 1) as nat);
        }
    }
}

/// The event loop of one actor, as a state machine.
///
/// The runner makes every decision of the loop and performs none of its
/// waiting. A driver reports what happened with [`ActorRunner::run`] (plain
/// mode) or [`ActorRunner::supervised_run`], and carries out the action that
/// the runner answers with. A fresh runner is in the phase
/// [`Phase::Starting`]: the driver runs the start hook and reports its return.
pub struct ActorRunner<P, W, E> {
    ctx: Context<P, W>,
    phase: Phase,
    exit: Result<(), ActorError<E>>,
}

impl<P, W, E> View for ActorRunner<P, W, E> {
    type V = RunnerView<P, W, E>;

    closed spec fn view(&self) -> RunnerView<P, W, E> {
        RunnerView { ctx: self.ctx@, phase: self.phase, exit: self.exit }
    }
}

impl<P, W, E> ActorRunner<P, W, E> {
    /// Creates the runner of a new actor, with a fresh context.
    pub fn new(ids: &mut ActorIds) -> (runner: Self)
        ensures
            runner@.ctx.id == old(ids).next_id(),
            runner@.ctx.supervisors == Seq::<P>::empty(),
            runner@.ctx.addr is None,
            runner@.phase == Phase::Starting,
            runner@.exit is Ok,
            final(ids).next_id() == ActorIds::successor(old(ids).next_id()),
    {
        ActorRunner { ctx: Context::new(ids), phase: Phase::Starting, exit: Ok(()) }
    }

    /// The context of the actor.
    pub fn ctx(&self) -> (ctx: &Context<P, W>)
        ensures
            ctx@ == self@.ctx,
    {
        &self.ctx
    }

    /// Sets the actor's own weak address in its context; see
    /// [`Context::set_addr`].
    pub fn set_addr(&mut self, addr: W) -> (result: Result<(), W>)
        ensures
            old(self)@.ctx.addr is None ==> result is Ok && final(self)@ == (RunnerView {
                ctx: ContextView { addr: Some(addr), ..old(self)@.ctx },
                ..old(self)@
            }),
            old(self)@.ctx.addr is Some ==> result == Err::<(), W>(addr) && final(self)@ == old(
                self,
            )@,
    {
        self.ctx.set_addr(addr)
    }

    /// Where the loop stands.
    pub fn phase(&self) -> (phase: Phase)
        ensures
            phase == self@.phase,
    {
        self.phase
    }

    /// The result of the loop.
    pub fn exit(&self) -> (exit: &Result<(), ActorError<E>>)
        ensures
            *exit == self@.exit,
    {
        &self.exit
    }

    /// Ends the runner and hands out the result of the loop.
    pub fn into_exit(self) -> (exit: Result<(), ActorError<E>>)
        ensures
            exit == self@.exit,
    {
        self.exit
    }

    /// Whether a plain loop takes `input` in its present phase. It does not
    /// take the events that only a supervisor sends: they show that an actor
    /// that cannot be supervised was given to a supervisor.
    pub fn admits<X>(&self, input: &Input<X, P, E>) -> (ok: bool)
        ensures
            ok == !(self@.phase == Phase::Idle && input.supervisor_only()),
    {
        match self.phase {
            Phase::Idle => match input {
                Input::Delivered(Event::Restart) => false,
                Input::Delivered(Event::AddSupervisor(_)) => false,
                _ => true,
            },
            _ => true,
        }
    }

    fn halt<X>(&mut self, result: Result<(), ActorError<E>>) -> (answer: Result<
        Action<X>,
        OutOfTurn,
    >)
        ensures
            (final(self)@, answer) == old(self)@.halt::<X>(result),
    {
        self.phase = Phase::Stopping;
        self.exit = result;
        Ok(Action::StopHook)
    }

    fn fail<X>(&mut self, mode: LoopMode, failure: ActorError<E>) -> (answer: Result<
        Action<X>,
        OutOfTurn,
    >)
        ensures
            (final(self)@, answer) == old(self)@.fail::<X>(mode, failure),
    {
        match mode {
            LoopMode::Plain => self.halt(Err(failure)),
            LoopMode::Supervised => {
                self.phase = Phase::Consulting;
                Ok(Action::Consult)
            },
        }
    }

    fn step<X>(&mut self, mode: LoopMode, input: Input<X, P, E>) -> (answer: Result<
        Action<X>,
        OutOfTurn,
    >)
        ensures
            (final(self)@, answer) == old(self)@.next(mode, input),
    {
        match self.phase {
            Phase::Starting => match input {
                Input::Started(Ok(_)) => {
                    self.phase = Phase::Idle;
                    Ok(Action::Receive)
                },
                Input::Started(Err(failure)) => {
                    self.phase = Phase::Aborted;
                    self.exit = Err(failure);
                    Ok(Action::Abort)
                },
                _ => Err(OutOfTurn),
            },
            Phase::Idle => match input {
                Input::Delivered(Event::Stop(Ok(_))) => self.halt(Ok(())),
                Input::Delivered(Event::Stop(Err(failure))) => self.fail(mode, failure),
                Input::Delivered(Event::Exec(closure)) => {
                    self.phase = Phase::Executing;
                    Ok(Action::Execute(closure))
                },
                Input::Delivered(Event::Restart) => match mode {
                    LoopMode::Plain => Err(OutOfTurn),
                    LoopMode::Supervised => {
                        self.phase = Phase::Restarting;
                        Ok(Action::RestartHook)
                    },
                },
                Input::Delivered(Event::AddSupervisor(proxy)) => match mode {
                    LoopMode::Plain => Err(OutOfTurn),
                    LoopMode::Supervised => {
                        self.ctx.add_supervisor(proxy);
                        Ok(Action::Receive)
                    },
                },
                Input::Closed => self.halt(Ok(())),
                _ => Err(OutOfTurn),
            },
            Phase::Executing => match input {
                Input::Executed(Ok(_)) => {
                    self.phase = Phase::Idle;
                    Ok(Action::Receive)
                },
                Input::Executed(Err(failure)) => self.fail(mode, failure),
                _ => Err(OutOfTurn),
            },
            Phase::Consulting => match input {
                Input::Answered(answers) => match self.ctx.await_supervisor(&answers) {
                    Ok(_) => {
                        self.phase = Phase::Restarting;
                        Ok(Action::RestartHook)
                    },
                    Err(refusal) => self.halt(Err(refusal)),
                },
                _ => Err(OutOfTurn),
            },
            Phase::Restarting => match input {
                Input::RestartHookDone => {
                    self.phase = Phase::Idle;
                    Ok(Action::Receive)
                },
                _ => Err(OutOfTurn),
            },
            Phase::Stopping => match input {
                Input::StopHookDone => {
                    self.phase = Phase::Exited;
                    Ok(Action::Exit)
                },
                _ => Err(OutOfTurn),
            },
            Phase::Exited => Err(OutOfTurn),
            Phase::Aborted => Err(OutOfTurn),
        }
    }

    /// One step of the plain loop: takes what happened and answers with what
    /// to do next.
    ///
    /// A stop event or a failed closure ends the loop with that outcome; a
    /// closed mailbox ends it without a failure. The stop hook then runs, and
    /// after it the exit signal fires. An input that does not fit the phase is
    /// answered with [`OutOfTurn`] and changes nothing. The events that only a
    /// supervisor sends are not for a plain loop: a driver that meets one
    /// must fail loudly instead of handing it on (see [`ActorRunner::admits`]).
    pub fn run<X>(&mut self, input: Input<X, P, E>) -> (answer: Result<Action<X>, OutOfTurn>)
        requires
            !(old(self)@.phase == Phase::Idle && input.supervisor_only()),
        ensures
            (final(self)@, answer) == old(self)@.next(LoopMode::Plain, input),
    {
        self.step(LoopMode::Plain, input)
    }

    /// One step of the supervised loop: takes what happened and answers with
    /// what to do next.
    ///
    /// It differs from the plain loop in what follows a failure (a failed
    /// closure, or a stop event that carries a failure): the registered
    /// supervisors are consulted, and if at least one confirms, the restart
    /// hook runs and the loop resumes; otherwise the loop ends with the
    /// refusal. A restart event sends the actor through the restart hook
    /// without any question, and a supervisor can be added at any time the
    /// loop is idle.
    pub fn supervised_run<X>(&mut self, input: Input<X, P, E>) -> (answer: Result<
        Action<X>,
        OutOfTurn,
    >)
        ensures
            (final(self)@, answer) == old(self)@.next(LoopMode::Supervised, input),
    {
        self.step(LoopMode::Supervised, input)
    }
}

} // verus!
