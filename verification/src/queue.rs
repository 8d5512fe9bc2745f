//! The bounded queue through which a consumer receives its events.

use tokio::sync::mpsc::error::TrySendError;
use tokio::sync::mpsc::Sender;
use vstd::prelude::*;

use crate::event::ServerEvent;

verus! {

/// The sending half of a bounded `tokio::sync::mpsc` channel. Nothing inside
/// it is visible to the verifier.
#[verifier::external_type_specification]
#[verifier::external_body]
#[verifier::reject_recursive_types(T)]
pub struct ExSender<T>(tokio::sync::mpsc::Sender<T>);

/// How one attempt to hand an event to a queue ended.
#[derive(Debug, Copy, Clone, PartialEq, Eq, Structural)]
pub enum SendOutcome {
    /// The queue took the event.
    Accepted,
    /// The queue holds as many events as it has room for.
    Full,
    /// The receiving half is closed or dropped.
    Closed,
}

/// Calls `tokio::sync::mpsc::Sender::try_send`, which returns at once and never
/// waits for room. Which of the three outcomes comes back depends on the state
/// of the channel at the moment of the call, so nothing is claimed of it.
#[verifier::external_body]
pub(crate) fn try_send(queue: &Sender<ServerEvent>, event: ServerEvent) -> (outcome: SendOutcome) {
    match queue.try_send(event) {
        Ok(()) => SendOutcome::Accepted,
        Err(TrySendError::Full(_)) => SendOutcome::Full,
        Err(TrySendError::Closed(_)) => SendOutcome::Closed,
    }
}

} // verus!
