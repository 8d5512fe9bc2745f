//! Routing of server events to the queues of the conversations that consume them.

pub mod distributor;
pub mod event;
pub mod guarantees;
pub mod protocol;
pub mod queue;
