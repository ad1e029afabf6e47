//! The event loop, step by step.

use xtor::{
    Action, ActorError, ActorIds, ActorRunner, Context, Event, Input, OutOfTurn, Phase,
    RestartAnswer,
};

type Failure = &'static str;
type Runner = ActorRunner<u8, &'static str, Failure>;

fn started(ids: &mut ActorIds) -> Runner {
    let mut runner = Runner::new(ids);
    assert_eq!(runner.run::<u32>(Input::Started(Ok(()))), Ok(Action::Receive));
    runner
}

#[test]
fn identities_count_up_from_zero() {
    let mut ids = ActorIds::new();
    assert_eq!(ids.allocate(), 0);
    assert_eq!(ids.allocate(), 1);
    assert_eq!(ids.allocate(), 2);
    let ctx: Context<u8, u8> = Context::new(&mut ids);
    assert_eq!(ctx.id(), 3);
    let runner = Runner::new(&mut ids);
    assert_eq!(runner.ctx().id(), 4);
    assert_eq!(ids.allocate(), 5);
}

#[test]
fn a_fresh_runner_waits_for_the_start_hook() {
    let mut ids = ActorIds::new();
    let mut runner = Runner::new(&mut ids);
    assert_eq!(runner.phase(), Phase::Starting);
    assert_eq!(runner.exit(), &Ok(()));
    assert!(runner.ctx().supervisors().is_empty());
    assert!(runner.ctx().addr().is_none());
    // nothing is received before the start hook has returned
    assert_eq!(runner.run(Input::Delivered(Event::Exec(1u32))), Err(OutOfTurn));
    assert_eq!(runner.run::<u32>(Input::Closed), Err(OutOfTurn));
    assert_eq!(runner.phase(), Phase::Starting);
    assert_eq!(runner.run::<u32>(Input::Started(Ok(()))), Ok(Action::Receive));
    assert_eq!(runner.phase(), Phase::Idle);
}

#[test]
fn a_failed_start_hook_aborts_the_spawn() {
    let mut ids = ActorIds::new();
    let mut runner = Runner::new(&mut ids);
    let answer = runner.run::<u32>(Input::Started(Err(ActorError::Handler("no start"))));
    assert_eq!(answer, Ok(Action::Abort));
    assert_eq!(runner.phase(), Phase::Aborted);
    assert_eq!(runner.exit(), &Err(ActorError::Handler("no start")));
    // the loop never begins: no event is taken, no hook runs, no signal fires
    assert_eq!(runner.run(Input::Delivered(Event::Exec(1u32))), Err(OutOfTurn));
    assert_eq!(runner.run::<u32>(Input::StopHookDone), Err(OutOfTurn));
    assert_eq!(runner.supervised_run::<u32>(Input::Delivered(Event::Restart)), Err(OutOfTurn));
    assert_eq!(runner.phase(), Phase::Aborted);
    assert_eq!(runner.into_exit(), Err(ActorError::Handler("no start")));
}

#[test]
fn one_event_is_handled_to_its_end_before_the_next() {
    let mut ids = ActorIds::new();
    let mut runner = started(&mut ids);
    assert_eq!(runner.run(Input::Delivered(Event::Exec(10u32))), Ok(Action::Execute(10)));
    assert_eq!(runner.phase(), Phase::Executing);
    // while the closure runs, nothing else is taken
    assert_eq!(runner.run(Input::Delivered(Event::Exec(11u32))), Err(OutOfTurn));
    assert_eq!(runner.run::<u32>(Input::Delivered(Event::Stop(Ok(())))), Err(OutOfTurn));
    assert_eq!(runner.run::<u32>(Input::Closed), Err(OutOfTurn));
    assert_eq!(runner.phase(), Phase::Executing);
    assert_eq!(runner.run::<u32>(Input::Executed(Ok(()))), Ok(Action::Receive));
    assert_eq!(runner.run(Input::Delivered(Event::Exec(11u32))), Ok(Action::Execute(11)));
}

#[test]
fn a_plain_loop_ends_with_the_first_failure() {
    let mut ids = ActorIds::new();
    let mut runner = started(&mut ids);
    runner.run(Input::Delivered(Event::Exec(1u32))).unwrap();
    let answer = runner.run::<u32>(Input::Executed(Err(ActorError::HandlerFailed)));
    assert_eq!(answer, Ok(Action::StopHook));
    assert_eq!(runner.phase(), Phase::Stopping);
    assert_eq!(runner.exit(), &Err(ActorError::HandlerFailed));
    // the exit signal waits for the stop hook
    assert_eq!(runner.run::<u32>(Input::Executed(Ok(()))), Err(OutOfTurn));
    assert_eq!(runner.run::<u32>(Input::StopHookDone), Ok(Action::Exit));
    assert_eq!(runner.phase(), Phase::Exited);
    // and fires once
    assert_eq!(runner.run::<u32>(Input::StopHookDone), Err(OutOfTurn));
    assert_eq!(runner.run(Input::Delivered(Event::Exec(2u32))), Err(OutOfTurn));
    assert_eq!(runner.phase(), Phase::Exited);
    assert_eq!(runner.exit(), &Err(ActorError::HandlerFailed));
}

#[test]
fn a_closed_mailbox_ends_the_loop_without_a_failure() {
    let mut ids = ActorIds::new();
    let mut runner = started(&mut ids);
    assert_eq!(runner.run::<u32>(Input::Closed), Ok(Action::StopHook));
    assert_eq!(runner.run::<u32>(Input::StopHookDone), Ok(Action::Exit));
    assert_eq!(runner.into_exit(), Ok(()));

    let mut supervised = started(&mut ids);
    assert_eq!(supervised.supervised_run::<u32>(Input::Closed), Ok(Action::StopHook));
    assert_eq!(supervised.supervised_run::<u32>(Input::StopHookDone), Ok(Action::Exit));
    assert_eq!(supervised.into_exit(), Ok(()));
}

#[test]
fn a_stop_event_ends_a_plain_loop_with_its_reason() {
    let mut ids = ActorIds::new();
    let mut runner = started(&mut ids);
    let reason = Err(ActorError::Handler("enough"));
    assert_eq!(runner.run::<u32>(Input::Delivered(Event::Stop(reason))), Ok(Action::StopHook));
    assert_eq!(runner.exit(), &Err(ActorError::Handler("enough")));

    let mut quiet = started(&mut ids);
    assert_eq!(quiet.run::<u32>(Input::Delivered(Event::Stop(Ok(())))), Ok(Action::StopHook));
    assert_eq!(quiet.exit(), &Ok(()));
}

#[test]
fn a_plain_loop_does_not_admit_the_events_of_a_supervisor() {
    let mut ids = ActorIds::new();
    let mut runner = Runner::new(&mut ids);
    // before the loop is idle the events are merely out of turn
    assert!(runner.admits(&Input::<u32, u8, Failure>::Delivered(Event::Restart)));
    runner.run::<u32>(Input::Started(Ok(()))).unwrap();
    assert!(!runner.admits(&Input::<u32, u8, Failure>::Delivered(Event::Restart)));
    assert!(!runner.admits(&Input::<u32, u8, Failure>::Delivered(Event::AddSupervisor(1))));
    assert!(runner.admits(&Input::<u32, u8, Failure>::Delivered(Event::Exec(1))));
    assert!(runner.admits(&Input::<u32, u8, Failure>::Delivered(Event::Stop(Ok(())))));
    assert!(runner.admits(&Input::<u32, u8, Failure>::Closed));
    assert!(runner.admits(&Input::<u32, u8, Failure>::StopHookDone));
}

#[test]
fn a_restart_event_sends_a_supervised_actor_through_the_restart_hook() {
    let mut ids = ActorIds::new();
    let mut runner = started(&mut ids);
    let answer = runner.supervised_run::<u32>(Input::Delivered(Event::Restart));
    assert_eq!(answer, Ok(Action::RestartHook));
    assert_eq!(runner.phase(), Phase::Restarting);
    assert_eq!(runner.supervised_run(Input::Delivered(Event::Exec(1u32))), Err(OutOfTurn));
    assert_eq!(runner.supervised_run::<u32>(Input::RestartHookDone), Ok(Action::Receive));
    assert_eq!(runner.phase(), Phase::Idle);
    assert_eq!(runner.exit(), &Ok(()));
}

#[test]
fn supervisors_are_kept_in_the_order_of_registration() {
    let mut ids = ActorIds::new();
    let mut runner = started(&mut ids);
    for proxy in [7u8, 3, 9] {
        let answer = runner.supervised_run::<u32>(Input::Delivered(Event::AddSupervisor(proxy)));
        assert_eq!(answer, Ok(Action::Receive));
        assert_eq!(runner.phase(), Phase::Idle);
    }
    assert_eq!(runner.ctx().supervisors(), &vec![7, 3, 9]);
}

#[test]
fn a_supervised_actor_resumes_after_a_confirmed_restart() {
    let mut ids = ActorIds::new();
    let mut runner = started(&mut ids);
    runner.supervised_run::<u32>(Input::Delivered(Event::AddSupervisor(1))).unwrap();
    runner.supervised_run(Input::Delivered(Event::Exec(5u32))).unwrap();
    let answer = runner.supervised_run::<u32>(Input::Executed(Err(ActorError::HandlerFailed)));
    assert_eq!(answer, Ok(Action::Consult));
    // only the answers are awaited now
    assert_eq!(runner.supervised_run::<u32>(Input::RestartHookDone), Err(OutOfTurn));
    let answer = runner.supervised_run::<u32>(Input::Answered(vec![RestartAnswer::Confirmed]));
    assert_eq!(answer, Ok(Action::RestartHook));
    assert_eq!(runner.supervised_run::<u32>(Input::RestartHookDone), Ok(Action::Receive));
    assert_eq!(runner.phase(), Phase::Idle);
    assert_eq!(runner.exit(), &Ok(()));
    assert_eq!(runner.supervised_run(Input::Delivered(Event::Exec(6u32))), Ok(Action::Execute(6)));
}

#[test]
fn the_weak_self_address_is_set_once() {
    let mut ids = ActorIds::new();
    let mut runner = Runner::new(&mut ids);
    assert_eq!(runner.set_addr("first"), Ok(()));
    assert_eq!(runner.ctx().addr(), Some(&"first"));
    assert_eq!(runner.set_addr("second"), Err("second"));
    assert_eq!(runner.ctx().addr(), Some(&"first"));

    let mut ctx: Context<u8, u32> = Context::new(&mut ids);
    assert_eq!(ctx.addr(), None);
    assert_eq!(ctx.set_addr(1), Ok(()));
    assert_eq!(ctx.set_addr(2), Err(2));
    assert_eq!(ctx.addr(), Some(&1));
    ctx.add_supervisor(4);
    ctx.add_supervisor(2);
    assert_eq!(ctx.supervisors(), &vec![4, 2]);
}

#[test]
fn every_failure_has_its_message() {
    let failures: Vec<(ActorError<Failure>, &str)> = vec![
        (ActorError::TargetGone, "error: proxy tx is dropped"),
        (ActorError::Canceled, "oneshot canceled"),
        (
            ActorError::DispatchMismatch { actor: "A", handler: "H" },
            "error: A trying to handle a message in actor which you didn't implement the handler trait H for it",
        ),
        (ActorError::Handler("x"), "error: the handler reported a failure"),
        (ActorError::HandlerFailed, "error: a handler of the actor failed"),
        (ActorError::NoSupervisor, "no supervisor was found"),
        (ActorError::RestartRefused, "one or more supervisor failed to restart"),
    ];
    for (failure, text) in failures {
        assert_eq!(failure.message(), text);
        let gone = failure == ActorError::TargetGone || failure == ActorError::Canceled;
        assert_eq!(failure.is_target_gone(), gone);
    }
}
