/// what a call resolves to, and the events of a mailbox
pub mod addr;
/// messages of the publish/subscribe layer
pub mod broker;
/// the per-actor context
pub mod context;
/// the failures of the runtime
pub mod error;
/// the message contract
pub mod message;
/// names of actors and the set of running ones
pub mod registry;
/// identities and the event loop
pub mod runner;
/// messages of the supervision protocol
pub mod supervisor;
/// decimal rendering and string helpers
pub mod text;
