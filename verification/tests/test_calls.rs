//! Calls against actors, through addresses and through proxies, driven by a
//! small single-threaded driver with a virtual clock.

use std::any::Any;
use std::cell::RefCell;
use std::collections::VecDeque;
use std::rc::{Rc, Weak};

use xtor::{
    dispatch, reach, settle_await_stop, settle_call, settle_is_stopped, settle_timeout, Action,
    ActorError, ActorIds, ActorRunner, Addr, Event, Input, Phase, WeakAddr,
};

type Failure = &'static str;
type Closure = Box<dyn FnOnce(&mut dyn Any, &'static str) -> Result<(), ActorError<Failure>>>;
type TestEvent = Event<Closure, u64, Failure>;

/// A type of actor, with the name that a mismatch is reported under.
trait Named: Any {
    const NAME: &'static str;
}

/// The actor under test. Its clock counts the milliseconds that its handlers
/// have slept.
struct TestActor {
    clock: u64,
}

impl Named for TestActor {
    const NAME: &'static str = "TestActor";
}

/// An actor of another type, with a handler of its own.
struct OtherActor {
    handled: u32,
}

impl Named for OtherActor {
    const NAME: &'static str = "OtherActor";
}

/// i + 1
fn add1(i: i32) -> impl FnOnce(&mut TestActor) -> Result<i32, Failure> {
    move |_actor| Ok(i + 1)
}

/// sleep(i) => i + 1
fn sleep_add1(i: i32) -> impl FnOnce(&mut TestActor) -> Result<i32, Failure> {
    move |actor| {
        actor.clock += i as u64;
        Ok(i + 1)
    }
}

/// ok(res) => ok(res); err(e) => err(e) + actor stop
fn result_message(res: Result<i32, Failure>) -> impl FnOnce(&mut TestActor) -> Result<i32, Failure> {
    move |_actor| res
}

/// One spawned actor: its loop, its mailbox and its state.
struct Spawned {
    runner: ActorRunner<u64, u64, Failure>,
    mailbox: VecDeque<TestEvent>,
    actor: Box<dyn Any>,
    actor_name: &'static str,
    exit_fired: u32,
}

impl Spawned {
    /// The clock of the actor, which is a `TestActor`.
    fn clock(&mut self) -> &mut u64 {
        &mut self.actor.downcast_mut::<TestActor>().expect("a test actor").clock
    }
}

type Mailbox = Rc<RefCell<Spawned>>;
type TestAddr = Addr<Mailbox, ()>;
type TestWeakAddr = WeakAddr<Weak<RefCell<Spawned>>, ()>;

fn spawn(ids: &mut ActorIds) -> TestAddr {
    let mut runner = ActorRunner::new(ids);
    let id = runner.ctx().id();
    let first = runner.run::<Closure>(Input::Started(Ok(())));
    assert!(matches!(first, Ok(Action::Receive)));
    let spawned = Spawned {
        runner,
        mailbox: VecDeque::new(),
        actor: Box::new(TestActor { clock: 0 }),
        actor_name: TestActor::NAME,
        exit_fired: 0,
    };
    Addr { id, tx: Rc::new(RefCell::new(spawned)), rx_exit: () }
}

fn post(mailbox: &Mailbox, event: TestEvent) {
    let mut spawned = mailbox.borrow_mut();
    if spawned.runner.phase() == Phase::Idle {
        spawned.mailbox.push_back(event);
    }
}

/// Runs the loop of the actor until its mailbox is empty.
fn pump(mailbox: &Mailbox) {
    let mut guard = mailbox.borrow_mut();
    let spawned = &mut *guard;
    while let Some(event) = spawned.mailbox.pop_front() {
        let input = Input::Delivered(event);
        assert!(spawned.runner.admits(&input));
        let mut action = spawned.runner.run(input).expect("the driver keeps its turn");
        loop {
            match action {
                Action::Receive => break,
                Action::Execute(closure) => {
                    let outcome = closure(spawned.actor.as_mut(), spawned.actor_name);
                    action = spawned.runner.run(Input::Executed(outcome)).unwrap();
                }
                Action::StopHook => {
                    action = spawned.runner.run(Input::StopHookDone).unwrap();
                }
                Action::Exit => {
                    spawned.exit_fired += 1;
                    spawned.mailbox.clear();
                    return;
                }
                Action::Consult | Action::RestartHook | Action::Abort => {
                    unreachable!("a plain loop never asks for this")
                }
            }
        }
    }
}

/// Lets `ms` milliseconds pass for the caller: meanwhile the actor gets to
/// everything that is in its mailbox.
fn sleep(addr: &TestAddr, ms: u64) {
    pump(&addr.tx);
    let mut spawned = addr.tx.borrow_mut();
    *spawned.clock() += ms;
}

/// Where the answer to a call appears. It stays empty if the event of the
/// call is dropped without being handled.
type ReplySlot<R> = Rc<RefCell<Option<Result<R, ActorError<Failure>>>>>;

/// Posts the call for the handler of an actor of type `A` and hands out the
/// place where the answer will appear.
fn call_unblock<A: Named, R: 'static>(
    addr: &TestAddr,
    handler: impl FnOnce(&mut A) -> Result<R, Failure> + 'static,
) -> ReplySlot<R> {
    let slot: ReplySlot<R> = Rc::new(RefCell::new(None));
    let reply = slot.clone();
    post(
        &addr.tx,
        Event::Exec(Box::new(move |actor: &mut dyn Any, held: &'static str| {
            let handled = actor.downcast_mut::<A>().map(handler);
            let settled = dispatch(handled, held, A::NAME);
            *reply.borrow_mut() = Some(settled.reply);
            settled.outcome
        })),
    );
    slot
}

fn await_reply<R>(addr: &TestAddr, slot: ReplySlot<R>) -> Result<R, ActorError<Failure>> {
    pump(&addr.tx);
    settle_call(slot.borrow_mut().take())
}

fn call<A: Named, R: 'static>(
    addr: &TestAddr,
    handler: impl FnOnce(&mut A) -> Result<R, Failure> + 'static,
) -> Result<R, ActorError<Failure>> {
    let slot = call_unblock(addr, handler);
    await_reply(addr, slot)
}

/// Races the call against a timer of `timeout` milliseconds on the actor's clock.
fn call_timeout<A: Named, R: 'static>(
    addr: &TestAddr,
    handler: impl FnOnce(&mut A) -> Result<R, Failure> + 'static,
    timeout: u64,
) -> Result<Option<R>, ActorError<Failure>> {
    let started = *addr.tx.borrow_mut().clock();
    let slot = call_unblock(addr, handler);
    pump(&addr.tx);
    let took = *addr.tx.borrow_mut().clock() - started;
    let raced = if took > timeout { None } else { Some(slot.borrow_mut().take()) };
    settle_timeout(raced)
}

fn stop(addr: TestAddr, reason: Result<(), ActorError<Failure>>) {
    post(&addr.tx, Event::Stop(reason));
}

fn downgrade(addr: &TestAddr) -> TestWeakAddr {
    addr.downgrade(Rc::downgrade(&addr.tx))
}

fn upgrade(weak: &TestWeakAddr) -> Option<TestAddr> {
    weak.upgrade(weak.tx.upgrade())
}

/// A proxy: a weak reference to the mailbox, bound to nothing but the call.
struct TestProxy {
    tx: Weak<RefCell<Spawned>>,
}

fn proxy(addr: &TestAddr) -> TestProxy {
    TestProxy { tx: Rc::downgrade(&addr.tx) }
}

fn proxy_call<A: Named, R: 'static>(
    proxy: &TestProxy,
    handler: impl FnOnce(&mut A) -> Result<R, Failure> + 'static,
) -> Result<R, ActorError<Failure>> {
    let tx = reach(proxy.tx.upgrade())?;
    let target = Addr { id: 0, tx, rx_exit: () };
    call(&target, handler)
}

fn proxy_call_timeout<A: Named, R: 'static>(
    proxy: &TestProxy,
    handler: impl FnOnce(&mut A) -> Result<R, Failure> + 'static,
    timeout: u64,
) -> Result<Option<R>, ActorError<Failure>> {
    let tx = reach(proxy.tx.upgrade())?;
    let target = Addr { id: 0, tx, rx_exit: () };
    call_timeout(&target, handler, timeout)
}

#[test]
fn test_strong_to_weak_to_strong() {
    let mut ids = ActorIds::new();
    let actor = spawn(&mut ids);
    let weak = downgrade(&actor);
    let strong = upgrade(&weak).unwrap();
    assert_eq!(call(&strong, add1(1)).unwrap(), 2);
}

#[test]
fn weak_address_of_a_dropped_actor_does_not_upgrade() {
    let mut ids = ActorIds::new();
    let actor = spawn(&mut ids);
    let id = actor.id;
    let weak = downgrade(&actor);
    assert_eq!(weak.id, id);
    drop(actor);
    assert!(upgrade(&weak).is_none());
}

#[test]
fn upgrade_keeps_the_identity() {
    let mut ids = ActorIds::new();
    let _first = spawn(&mut ids);
    let second = spawn(&mut ids);
    let weak = downgrade(&second);
    let strong = upgrade(&weak).unwrap();
    assert_eq!(strong.id, 1);
    assert!(Rc::ptr_eq(&strong.tx, &second.tx));
    let copy = strong.clone();
    assert_eq!(copy.id, 1);
    assert!(Rc::ptr_eq(&copy.tx, &second.tx));
}

#[test]
fn test_single_actor_single_message_blocked() {
    let mut ids = ActorIds::new();
    let actor = spawn(&mut ids);
    for i in 0..100 {
        let result = call(&actor, add1(i)).unwrap();
        assert_eq!(result, i + 1);
    }
}

#[test]
fn add1_of_41_is_42() {
    let mut ids = ActorIds::new();
    let actor = spawn(&mut ids);
    assert_eq!(call(&actor, add1(41)), Ok(42));
}

#[test]
fn queued_calls_are_answered_in_the_order_of_posting() {
    let mut ids = ActorIds::new();
    let actor = spawn(&mut ids);
    let order: Rc<RefCell<Vec<i32>>> = Rc::new(RefCell::new(Vec::new()));
    let mut slots = Vec::new();
    for i in 0..100 {
        let seen = order.clone();
        slots.push(call_unblock(&actor, move |_actor: &mut TestActor| {
            seen.borrow_mut().push(i);
            Ok::<i32, Failure>(i + 1)
        }));
    }
    pump(&actor.tx);
    let expected: Vec<i32> = (0..100).collect();
    assert_eq!(*order.borrow(), expected);
    for (i, slot) in slots.into_iter().enumerate() {
        assert_eq!(settle_call::<i32, Failure>(slot.borrow_mut().take()), Ok(i as i32 + 1));
    }
}

#[test]
fn a_reply_awaited_later_is_the_reply_of_a_call() {
    let mut ids = ActorIds::new();
    let actor = spawn(&mut ids);
    for i in [0, 41, -7, 1000] {
        let at_once = call(&actor, add1(i));
        let later = call_unblock(&actor, add1(i));
        // other calls are made and answered in between
        assert_eq!(call(&actor, add1(i + 100)), Ok(i + 101));
        assert_eq!(await_reply(&actor, later), at_once);
        assert_eq!(at_once, Ok(i + 1));
    }
}

#[test]
fn test_two_actor_two_message_unblocked() {
    let mut ids = ActorIds::new();
    let a1 = spawn(&mut ids);
    let a2 = spawn(&mut ids);
    let res1 = call_unblock(&a1, sleep_add1(2000));
    let res2 = call_unblock(&a2, sleep_add1(1000));
    let res = await_reply(&a2, res2).unwrap();
    assert_eq!(res, 1001);
    // the second actor is done after 1000 ms of its own time; the first has
    // not even been waited for
    assert!(*a2.tx.borrow_mut().clock() < 2000);
    assert!(res1.borrow().is_none());
    assert_eq!(await_reply(&a1, res1).unwrap(), 2001);
}

#[test]
fn test_single_actor_single_message_blocked_error() {
    let mut ids = ActorIds::new();
    let actor = spawn(&mut ids);
    let result = call(&actor, result_message(Err("error")));
    assert!(result.is_err());
    // the caller gets the failure that the handler reported
    assert_eq!(result, Err(ActorError::Handler("error")));
    assert!(!result.unwrap_err().is_target_gone());
    // and the loop of the actor ends with a failure
    assert_eq!(actor.tx.borrow().runner.phase(), Phase::Exited);
    assert_eq!(actor.tx.borrow().runner.exit(), &Err(ActorError::HandlerFailed));
}

#[test]
fn test_single_actor_single_message_unblocked_error() {
    let mut ids = ActorIds::new();
    let actor = spawn(&mut ids);
    let result = call_unblock(&actor, result_message(Err("error")));
    // actor will stop as soon as the message is received
    sleep(&actor, 100);
    assert_eq!(actor.tx.borrow().runner.phase(), Phase::Exited);
    // and the reply that is awaited later is the failure of the handler
    let settled = settle_call::<i32, Failure>(result.borrow_mut().take());
    assert!(settled.is_err());
    assert_eq!(settled, Err(ActorError::Handler("error")));
}

#[test]
fn test_single_actor_single_message_timeout_ontime() {
    let mut ids = ActorIds::new();
    let actor = spawn(&mut ids);
    let result = call_timeout(&actor, sleep_add1(1000), 1500);
    assert!(result.is_ok());
    assert_eq!(result.unwrap().unwrap(), 1001);
}

#[test]
fn test_single_actor_single_message_timeout_delayed() {
    let mut ids = ActorIds::new();
    let actor = spawn(&mut ids);
    let result = call_timeout(&actor, sleep_add1(1500), 1000);
    assert!(result.unwrap().is_none());
    // the handler ran to its end all the same
    assert_eq!(*actor.tx.borrow_mut().clock(), 1500);
}

#[test]
fn timed_call_reports_a_failed_handler_as_a_failure() {
    let mut ids = ActorIds::new();
    let actor = spawn(&mut ids);
    let result = call_timeout(&actor, result_message(Err("error")), 1000);
    assert_eq!(result, Err(ActorError::Handler("error")));
}

#[test]
fn test_message_to_dead_actor() {
    let mut ids = ActorIds::new();
    let actor = spawn(&mut ids);
    let a = actor.clone();
    stop(actor, Ok(()));
    let result = call(&a, add1(1));
    assert!(result.is_err());
    assert_eq!(result, Err(ActorError::Canceled));
    assert!(result.unwrap_err().is_target_gone());
    assert_eq!(a.tx.borrow().exit_fired, 1);
    // and so does every later call
    assert_eq!(call(&a, add1(2)), Err(ActorError::Canceled));
    assert_eq!(a.tx.borrow().exit_fired, 1);
}

#[test]
fn stop_with_a_reason_ends_a_plain_loop_with_that_reason() {
    let mut ids = ActorIds::new();
    let actor = spawn(&mut ids);
    let a = actor.clone();
    stop(actor, Err(ActorError::Handler("told to")));
    pump(&a.tx);
    assert_eq!(a.tx.borrow().runner.phase(), Phase::Exited);
    assert_eq!(a.tx.borrow().runner.exit(), &Err(ActorError::Handler("told to")));
}

#[test]
fn test_single_proxy_single_message_blocked() {
    let mut ids = ActorIds::new();
    let actor = spawn(&mut ids);
    let proxy = proxy(&actor);
    for i in 0..100 {
        let result = proxy_call(&proxy, add1(i)).unwrap();
        assert_eq!(result, i + 1);
    }
}

#[test]
fn test_two_proxy_two_message_unblocked() {
    let mut ids = ActorIds::new();
    let a1 = spawn(&mut ids);
    let a2 = spawn(&mut ids);
    let p1 = proxy(&a1);
    let p2 = proxy(&a2);
    let t1 = Addr { id: a1.id, tx: reach::<_, Failure>(p1.tx.upgrade()).unwrap(), rx_exit: () };
    let t2 = Addr { id: a2.id, tx: reach::<_, Failure>(p2.tx.upgrade()).unwrap(), rx_exit: () };
    let res1 = call_unblock(&t1, sleep_add1(2000));
    let res2 = call_unblock(&t2, sleep_add1(1000));
    let res = await_reply(&t2, res2).unwrap();
    assert_eq!(res, 1001);
    assert!(*a2.tx.borrow_mut().clock() < 2000);
    assert_eq!(await_reply(&t1, res1).unwrap(), 2001);
}

#[test]
fn test_single_proxy_single_message_blocked_error() {
    let mut ids = ActorIds::new();
    let actor = spawn(&mut ids);
    let proxy = proxy(&actor);
    let result = proxy_call(&proxy, result_message(Err("error")));
    assert!(result.is_err());
    let fired = actor.tx.borrow().exit_fired == 1;
    assert!(settle_await_stop::<Failure>(fired) == Ok(()));
}

#[test]
fn test_single_proxy_single_message_unblocked_error() {
    let mut ids = ActorIds::new();
    let actor = spawn(&mut ids);
    let proxy = proxy(&actor);
    let target = Addr { id: actor.id, tx: reach::<_, Failure>(proxy.tx.upgrade()).unwrap(), rx_exit: () };
    let result = call_unblock(&target, result_message(Err("error")));
    // actor will stop as soon as the message is received
    sleep(&target, 100);
    let fired = actor.tx.borrow().exit_fired == 1;
    assert!(settle_await_stop::<Failure>(fired) == Ok(()));
    // and the reply that is awaited later is the failure of the handler
    let settled = settle_call::<i32, Failure>(result.borrow_mut().take());
    assert!(settled.is_err());
    assert_eq!(settled, Err(ActorError::Handler("error")));
}

#[test]
fn test_single_proxy_single_message_timeout_ontime() {
    let mut ids = ActorIds::new();
    let actor = spawn(&mut ids);
    let proxy = proxy(&actor);
    let result = proxy_call_timeout(&proxy, sleep_add1(1000), 1500);
    assert!(result.is_ok());
    assert_eq!(result.unwrap().unwrap(), 1001);
}

#[test]
fn test_single_proxy_single_message_timeout_delayed() {
    let mut ids = ActorIds::new();
    let actor = spawn(&mut ids);
    let proxy = proxy(&actor);
    let result = proxy_call_timeout(&proxy, sleep_add1(1500), 1000);
    assert!(result.unwrap().is_none());
}

#[test]
fn test_proxy_to_dead_actor() {
    let mut ids = ActorIds::new();
    let actor = spawn(&mut ids);
    let proxy = proxy(&actor);
    // the last strong address goes with the stop
    stop(actor, Ok(()));
    let result = proxy_call(&proxy, add1(1));
    assert!(result.is_err());
    assert_eq!(result, Err(ActorError::TargetGone));
}

#[test]
fn test_proxy_unblocked_to_dead_actor() {
    let mut ids = ActorIds::new();
    let actor = spawn(&mut ids);
    let proxy = proxy(&actor);
    // the last strong address goes with the stop
    stop(actor, Ok(()));
    // the call fails before anything is posted: the target is gone
    let result = reach::<Mailbox, Failure>(proxy.tx.upgrade());
    assert!(result.is_err());
    assert!(matches!(result, Err(ActorError::TargetGone)));
}

#[test]
fn a_call_to_a_stopped_actor_that_is_still_held_is_canceled() {
    let mut ids = ActorIds::new();
    let actor = spawn(&mut ids);
    let keep = actor.clone();
    let proxy = proxy(&actor);
    stop(actor, Ok(()));
    let target = Addr { id: keep.id, tx: reach::<_, Failure>(proxy.tx.upgrade()).unwrap(), rx_exit: () };
    let result = call_unblock(&target, add1(1));
    // the event of the call is never handled
    let settled = await_reply(&target, result);
    assert_eq!(settled, Err(ActorError::Canceled));
    assert!(settled.unwrap_err().is_target_gone());
}

#[test]
fn a_call_for_the_handler_of_another_actor_type_fails_with_a_mismatch() {
    let mut ids = ActorIds::new();
    let actor = spawn(&mut ids);
    let invoked = Rc::new(RefCell::new(0));
    let seen = invoked.clone();
    // the mailbox holds a `TestActor`; the call asks for a handler of `OtherActor`
    let result = call(&actor, move |other: &mut OtherActor| {
        *seen.borrow_mut() += 1;
        other.handled += 1;
        Ok::<i32, Failure>(0)
    });
    let mismatch = ActorError::DispatchMismatch { actor: "TestActor", handler: "OtherActor" };
    assert_eq!(result, Err(mismatch));
    // no handler ran, nothing panicked, and the caller is not told that the
    // target is gone
    assert_eq!(*invoked.borrow(), 0);
    assert!(!result.unwrap_err().is_target_gone());
    // for the loop the event failed as well
    assert!(matches!(
        actor.tx.borrow().runner.exit(),
        Err(ActorError::DispatchMismatch { .. })
    ));
}

#[test]
fn an_actor_of_another_type_fails_the_event_without_a_panic() {
    let settled = dispatch::<i32, Failure>(None, "Mailbox", "Handler");
    let mismatch = || ActorError::DispatchMismatch { actor: "Mailbox", handler: "Handler" };
    assert_eq!(settled.reply, Err(mismatch()));
    assert_eq!(settled.outcome, Err(mismatch()));
    // the caller is told of the mismatch, with a timer or without
    assert_eq!(settle_call::<i32, Failure>(Some(Err(mismatch()))), Err(mismatch()));
    assert_eq!(settle_timeout::<i32, Failure>(Some(Some(Err(mismatch())))), Err(mismatch()));
    assert_eq!(
        mismatch().message(),
        "error: Mailbox trying to handle a message in actor which you didn't implement the handler trait Handler for it"
    );
}

#[test]
fn dispatch_answers_the_caller_and_tells_the_loop() {
    let fine = dispatch::<i32, Failure>(Some(Ok(7)), "Mailbox", "Handler");
    assert_eq!(fine.reply, Ok(7));
    assert_eq!(fine.outcome, Ok(()));
    let failed = dispatch::<i32, Failure>(Some(Err("broken")), "Mailbox", "Handler");
    assert_eq!(failed.reply, Err(ActorError::Handler("broken")));
    assert_eq!(failed.outcome, Err(ActorError::HandlerFailed));
    assert_eq!(settle_call(Some(failed.reply)), Err(ActorError::Handler("broken")));
}

#[test]
fn settle_timeout_tells_a_late_answer_from_a_lost_one() {
    assert_eq!(settle_timeout::<i32, Failure>(None), Ok(None));
    assert_eq!(settle_timeout::<i32, Failure>(Some(Some(Ok(5)))), Ok(Some(5)));
    assert_eq!(
        settle_timeout::<i32, Failure>(Some(Some(Err(ActorError::Handler("late"))))),
        Err(ActorError::Handler("late"))
    );
    assert_eq!(settle_timeout::<i32, Failure>(Some(None)), Err(ActorError::Canceled));
}

#[test]
fn waiting_for_the_end_of_an_actor() {
    assert_eq!(settle_await_stop::<Failure>(true), Ok(()));
    assert_eq!(settle_await_stop::<Failure>(false), Err(ActorError::Canceled));
    assert!(settle_is_stopped(Some(true)));
    assert!(settle_is_stopped(Some(false)));
    assert!(!settle_is_stopped(None));
    assert_eq!(xtor::ACTOR_STOP_WAIT_INTERVAL_MS, 10);
}

#[test]
fn reach_fails_once_every_strong_handle_is_gone() {
    assert_eq!(reach::<u8, Failure>(Some(3)), Ok(3));
    assert_eq!(reach::<u8, Failure>(None), Err(ActorError::TargetGone));
}
