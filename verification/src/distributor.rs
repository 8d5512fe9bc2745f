//! Splits the stream of server events over the queues of the registered
//! conversations.

use tokio::sync::mpsc::Sender;
use vstd::hash_map::StringHashMap;
use vstd::prelude::*;

use crate::event::ConversationId;
use crate::event::ServerEvent;
use crate::queue::try_send;
use crate::queue::SendOutcome;

verus! {

/// Why the distributor turned a request down.
#[derive(Debug, PartialEq, Eq)]
pub enum DistributorError {
    /// The conversation is registered already.
    ConversationAlreadyExists,
    /// No conversation of this name is registered.
    ConversationNotFound { conversation: ConversationId },
    /// `redirected_from` sends its output to `target`, which is not registered.
    DanglingRedirect { target: ConversationId, redirected_from: ConversationId },
    /// The queue of the destination has no room left.
    QueueFull,
    /// Nobody reads the queue of the destination any more.
    ConsumerGone,
}

/// Where the events of one conversation go.
#[derive(Debug)]
pub struct ConversationTarget {
    /// The queue of the conversation's own consumer.
    pub target: Sender<ServerEvent>,
    /// The conversation whose queue receives this conversation's output instead.
    pub redirect_output_to: Option<ConversationId>,
}

/// The table of registered conversations, by the characters of their names.
pub type Targets = Map<Seq<char>, ConversationTarget>;

/// One event that a queue has accepted.
pub struct Delivery {
    /// The conversation whose queue took the event.
    pub destination: Seq<char>,
    /// That queue.
    pub queue: Sender<ServerEvent>,
    pub event: ServerEvent,
}

/// The conversation whose queue `event` is meant for, or the reason why there
/// is none. Output of a redirecting conversation goes to the conversation it
/// redirects to, and every other event to the conversation it comes from.
pub open spec fn destination(targets: Targets, event: ServerEvent) -> Result<
    Seq<char>,
    DistributorError,
> {
    let origin = event.origin();
    if !targets.contains_key(origin@) {
        Err(DistributorError::ConversationNotFound { conversation: origin })
    } else {
        match targets[origin@].redirect_output_to {
            Some(redirect) if event.is_output() => {
                if targets.contains_key(redirect@) {
                    Ok(redirect@)
                } else {
                    Err(
                        DistributorError::DanglingRedirect {
                            target: redirect,
                            redirected_from: origin,
                        },
                    )
                }
            },
            _ => Ok(origin@),
        }
    }
}

/// The table after a request to register `conversation` with `entry`. A
/// conversation that is registered already keeps the entry it has.
pub open spec fn registered(
    targets: Targets,
    conversation: Seq<char>,
    entry: ConversationTarget,
) -> Targets {
    if targets.contains_key(conversation) {
        targets
    } else {
        targets.insert(conversation, entry)
    }
}

/// The events among `deliveries` that the queue of `conversation` took, oldest
/// first.
pub open spec fn events_for(deliveries: Seq<Delivery>, conversation: Seq<char>) -> Seq<ServerEvent>
    decreases deliveries.len(),
{
    if deliveries.len() == 0 {
        Seq::empty()
    } else {
        let earlier = events_for(deliveries.drop_last(), conversation);
        if deliveries.last().destination == conversation {
            earlier.push(deliveries.last().event)
        } else {
            earlier
        }
    }
}

/// The record of deliveries after one `dispatch` of `event`, where `accepted`
/// says whether the queue took it. Only an event that has a destination and
/// was accepted adds to the record: a delivery to the queue registered for
/// that destination.
pub open spec fn recorded(
    targets: Targets,
    deliveries: Seq<Delivery>,
    event: ServerEvent,
    accepted: bool,
) -> Seq<Delivery> {
    match destination(targets, event) {
        Ok(to) if accepted => deliveries.push(
            Delivery { destination: to, queue: targets[to].target, event },
        ),
        _ => deliveries,
    }
}

/// What the caller of `dispatch` is told about one attempt to deliver: success
/// where the queue took the event, and otherwise why it did not.
pub fn delivery_result(outcome: SendOutcome) -> (result: Result<(), DistributorError>)
    ensures
        outcome == SendOutcome::Accepted ==> result == Ok::<(), DistributorError>(()),
        outcome == SendOutcome::Full ==> result == Err::<(), DistributorError>(
            DistributorError::QueueFull,
        ),
        outcome == SendOutcome::Closed ==> result == Err::<(), DistributorError>(
            DistributorError::ConsumerGone,
        ),
{
    match outcome {
        SendOutcome::Accepted => Ok(()),
        SendOutcome::Full => Err(DistributorError::QueueFull),
        SendOutcome::Closed => Err(DistributorError::ConsumerGone),
    }
}

/// Splits server events over the queues of the registered conversations.
///
/// Its view is the table of registered conversations. Beside the table it
/// keeps, for proofs only, the record of what the queues have accepted.
pub struct ServerEventDistributor {
    conversation_targets: StringHashMap<ConversationTarget>,
    delivered: Ghost<Seq<Delivery>>,
}

impl View for ServerEventDistributor {
    type V = Targets;

    closed spec fn view(&self) -> Targets {
        self.conversation_targets@
    }
}

impl ServerEventDistributor {
    /// Every event that a queue has accepted from this distributor, oldest first.
    pub closed spec fn deliveries(&self) -> Seq<Delivery> {
        self.delivered@
    }

    /// A distributor with no conversation registered and nothing delivered.
    pub fn new() -> (distributor: Self)
        ensures
            distributor@ == Targets::empty(),
            distributor.deliveries() == Seq::<Delivery>::empty(),
    {
        ServerEventDistributor {
            conversation_targets: StringHashMap::new(),
            delivered: Ghost(Seq::empty()),
        }
    }

    /// Registers `conversation` with the queue of its consumer and, where its
    /// output is to go to another conversation, the name of that conversation.
    /// That conversation need not be registered yet.
    pub fn add_conversation_target(
        &mut self,
        conversation: ConversationId,
        target: Sender<ServerEvent>,
        redirect_output_to: Option<ConversationId>,
    ) -> (result: Result<(), DistributorError>)
        ensures
            final(self).deliveries() == old(self).deliveries(),
            final(self)@ == registered(
                old(self)@,
                conversation@,
                ConversationTarget { target, redirect_output_to },
            ),
            old(self)@.contains_key(conversation@) ==> result == Err::<(), DistributorError>(
                DistributorError::ConversationAlreadyExists,
            ),
            old(self)@.contains_key(conversation@) ==> final(self)@ == old(self)@,
            !old(self)@.contains_key(conversation@) ==> result == Ok::<(), DistributorError>(()),
    {
        if self.conversation_targets.contains_key(conversation.as_str()) {
            return Err(DistributorError::ConversationAlreadyExists);
        }
        self.conversation_targets.insert(
            conversation.into_string(),
            ConversationTarget { target, redirect_output_to },
        );
        Ok(())
    }

    /// Removes `conversation`. A conversation that redirects to it keeps its
    /// redirect, which from then on names nobody.
    pub fn remove_conversation_target(&mut self, conversation: &ConversationId) -> (result: Result<
        (),
        DistributorError,
    >)
        ensures
            final(self).deliveries() == old(self).deliveries(),
            final(self)@ == old(self)@.remove(conversation@),
            !final(self)@.contains_key(conversation@),
            old(self)@.contains_key(conversation@) ==> result == Ok::<(), DistributorError>(()),
            !old(self)@.contains_key(conversation@) ==> result == Err::<(), DistributorError>(
                DistributorError::ConversationNotFound { conversation: *conversation },
            ),
            !old(self)@.contains_key(conversation@) ==> final(self)@ == old(self)@,
    {
        if !self.conversation_targets.contains_key(conversation.as_str()) {
            return Err(
                DistributorError::ConversationNotFound { conversation: conversation.clone() },
            );
        }
        self.conversation_targets.remove(conversation.as_str());
        Ok(())
    }

    /// Whether a redirect applies to `event`.
    pub fn may_be_redirected(event: &ServerEvent) -> (redirected: bool)
        ensures
            redirected == event.is_output(),
    {
        match event {
            ServerEvent::Started { .. }
            | ServerEvent::Stopped { .. }
            | ServerEvent::Error { .. } => false,
            ServerEvent::Audio { .. }
            | ServerEvent::ClearAudio { .. }
            | ServerEvent::Text { .. } => true,
            // The client asked for the request, so its completion is reported to the
            // client and not to the target of the redirect.
            ServerEvent::RequestCompleted { .. }
            // A custom event is input to the conversation that set up the redirect,
            // not output of it.
            | ServerEvent::Custom { .. } => false,
        }
    }

    /// The entry of the conversation whose queue `event` is meant for.
    pub fn resolve(&self, event: &ServerEvent) -> (resolved: Result<
        &ConversationTarget,
        DistributorError,
    >)
        ensures
            destination(self@, *event) matches Ok(to) ==> resolved == Ok::<
                &ConversationTarget,
                DistributorError,
            >(&self@[to]),
            destination(self@, *event) matches Err(e) ==> resolved == Err::<
                &ConversationTarget,
                DistributorError,
            >(e),
    {
        let conversation = event.conversation_id();
        match self.conversation_targets.get(conversation.as_str()) {
            Some(target) => match &target.redirect_output_to {
                Some(redirect_output) if Self::may_be_redirected(event) => {
                    match self.conversation_targets.get(redirect_output.as_str()) {
                        Some(redirect_target) => Ok(redirect_target),
                        None => Err(
                            DistributorError::DanglingRedirect {
                                target: redirect_output.clone(),
                                redirected_from: conversation.clone(),
                            },
                        ),
                    }
                },
                _ => Ok(target),
            },
            None => Err(
                DistributorError::ConversationNotFound { conversation: conversation.clone() },
            ),
        }
    }

    /// Hands `event` to the queue it is meant for, in one attempt that never
    /// waits. An event without a destination fails with the reason and reaches
    /// no queue. Otherwise the queue decides: the call succeeds where it took
    /// the event, and fails with `QueueFull` or `ConsumerGone` where it did not.
    pub fn dispatch(&mut self, event: ServerEvent) -> (result: Result<(), DistributorError>)
        ensures
            final(self)@ == old(self)@,
            final(self).deliveries() == recorded(
                old(self)@,
                old(self).deliveries(),
                event,
                result is Ok,
            ),
            destination(old(self)@, event) matches Err(e) ==> result == Err::<(), DistributorError>(
                e,
            ),
            destination(old(self)@, event) is Ok ==> result == Ok::<(), DistributorError>(())
                || result == Err::<(), DistributorError>(DistributorError::QueueFull) || result
                == Err::<(), DistributorError>(DistributorError::ConsumerGone),
    {
        let ghost to = destination(self@, event);
        match self.resolve(&event) {
            Ok(target) => {
                let ghost delivery = Delivery {
                    destination: to->Ok_0,
                    queue: target.target,
                    event,
                };
                let outcome = try_send(&target.target, event);
                if let SendOutcome::Accepted = outcome {
                    proof {
                        self.delivered@ = self.delivered@.push(delivery);
                    }
                }
                delivery_result(outcome)
            },
            Err(e) => Err(e),
        }
    }
}

impl Default for ServerEventDistributor {
    fn default() -> (distributor: Self)
        ensures
            distributor@ == Targets::empty(),
            distributor.deliveries() == Seq::<Delivery>::empty(),
    {
        ServerEventDistributor::new()
    }
}

} // verus!
