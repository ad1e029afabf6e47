//! A verified core for an actor runtime.
//!
//! Actors are isolated units of state that talk to each other only through
//! typed messages delivered to a mailbox. This crate holds the decisions of
//! such a runtime — the event loop of an actor, what a call resolves to, how a
//! supervisor restarts failed actors and how a broker fans a message out — as
//! state machines and functions on plain values. Every one of them carries a
//! contract, and the laws that relate them are stated and proved next to them.
//!
//! The crate performs no waiting of its own: a driver owns the channels, timers
//! and tasks, hands each thing that happened to the core, and carries out the
//! action that the core answers with.

pub mod actor;
pub mod instrument;
pub mod utils;

pub use actor::addr::{
    dispatch, reach, settle_await_stop, settle_call, settle_is_stopped, settle_timeout, Addr,
    Dispatch, Event, WeakAddr, ACTOR_STOP_WAIT_INTERVAL_MS,
};
pub use actor::broker::{Broker, Publication, Publish, PublishStep, SubscriptionID, Unsubscribe};
pub use actor::context::{Context, RestartAnswer};
pub use actor::error::ActorError;
pub use actor::message::Message;
pub use actor::registry::Registry;
pub use actor::runner::{
    Action, ActorID, ActorIds, ActorRunner, Input, LoopMode, OutOfTurn, Phase,
};
pub use actor::supervisor::{restart_reply, Restart, RestartStep, Supervisor};
pub use instrument::{ActorInstrument, ActorInstrumented};
pub use utils::default_broker::{DefaultBroker, StreamBroker, StreamInput, StreamStep};
pub use utils::default_supervisor::{
    DefaultSupervisor, DefaultSupervisorRestartStrategy, DEFAULT_RESTART_DELAY_MS,
};
