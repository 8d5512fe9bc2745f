//! What holds of every table of conversations, every event and every record of
//! deliveries, stated over the functions in which the distributor's contracts
//! are written.

use tokio::sync::mpsc::Sender;
use vstd::prelude::*;

use crate::distributor::destination;
use crate::distributor::events_for;
use crate::distributor::recorded;
use crate::distributor::registered;
use crate::distributor::ConversationTarget;
use crate::distributor::Delivery;
use crate::distributor::DistributorError;
use crate::distributor::Targets;
use crate::event::ConversationId;
use crate::event::ServerEvent;

verus! {

/// One request to register a conversation.
pub struct Registration {
    pub conversation: Seq<char>,
    pub entry: ConversationTarget,
}

/// The table after the requests in `registrations`, made in that order on the
/// empty table.
pub open spec fn registered_all(registrations: Seq<Registration>) -> Targets
    decreases registrations.len(),
{
    if registrations.len() == 0 {
        Targets::empty()
    } else {
        registered(
            registered_all(registrations.drop_last()),
            registrations.last().conversation,
            registrations.last().entry,
        )
    }
}

/// No two of the requests name the same conversation.
pub open spec fn distinct_conversations(registrations: Seq<Registration>) -> bool {
    forall|i: int, j: int|
        0 <= i < j < registrations.len() ==> #[trigger] registrations[i].conversation
            != #[trigger] registrations[j].conversation
}

/// One call of `dispatch`, and whether the queue took the event.
pub struct Dispatch {
    pub event: ServerEvent,
    pub accepted: bool,
}

/// The record of deliveries after the calls in `calls`, made in that order
/// while the table is `targets`.
pub open spec fn recorded_all(
    targets: Targets,
    deliveries: Seq<Delivery>,
    calls: Seq<Dispatch>,
) -> Seq<Delivery>
    decreases calls.len(),
{
    if calls.len() == 0 {
        deliveries
    } else {
        recorded(
            targets,
            recorded_all(targets, deliveries, calls.drop_last()),
            calls.last().event,
            calls.last().accepted,
        )
    }
}

/// The delivery of each event of `calls`, in their order, to `queue`, the queue
/// of `conversation`.
pub open spec fn deliveries_to(
    conversation: Seq<char>,
    queue: Sender<ServerEvent>,
    calls: Seq<Dispatch>,
) -> Seq<Delivery> {
    Seq::new(
        calls.len(),
        |i: int| Delivery { destination: conversation, queue, event: calls[i].event },
    )
}

proof fn lemma_registered_all_names(registrations: Seq<Registration>, conversation: Seq<char>)
    ensures
        registered_all(registrations).contains_key(conversation) <==> exists|i: int|
            0 <= i < registrations.len() && #[trigger] registrations[i].conversation
                == conversation,
    decreases registrations.len(),
{
    if registrations.len() > 0 {
        let earlier = registrations.drop_last();
        lemma_registered_all_names(earlier, conversation);
        if registered_all(earlier).contains_key(conversation) {
            let i = choose|i: int|
                0 <= i < earlier.len() && #[trigger] earlier[i].conversation == conversation;
            assert(registrations[i].conversation == conversation);
        }
        if exists|i: int|
            0 <= i < registrations.len() && #[trigger] registrations[i].conversation
                == conversation {
            let i = choose|i: int|
                0 <= i < registrations.len() && #[trigger] registrations[i].conversation
                    == conversation;
            if i < earlier.len() {
                assert(earlier[i].conversation == conversation);
            }
        }
    }
}

/// After requests that name conversations all different from one another,
/// every one of them is registered with the entry of its own request.
pub proof fn lemma_distinct_registrations_are_kept(registrations: Seq<Registration>, i: int)
    requires
        distinct_conversations(registrations),
        0 <= i < registrations.len(),
    ensures
        registered_all(registrations).contains_key(registrations[i].conversation),
        registered_all(registrations)[registrations[i].conversation] == registrations[i].entry,
    decreases registrations.len(),
{
    let earlier = registrations.drop_last();
    let last = registrations.last();
    // The last request names a conversation that no earlier one has registered.
    lemma_registered_all_names(earlier, last.conversation);
    assert(!registered_all(earlier).contains_key(last.conversation));
    if i < earlier.len() {
        assert(distinct_conversations(earlier)) by {
            assert forall|a: int, b: int| 0 <= a < b < earlier.len() implies #[trigger] earlier[a]
                .conversation != #[trigger] earlier[b].conversation by {
                assert(registrations[a].conversation != registrations[b].conversation);
            }
        }
        lemma_distinct_registrations_are_kept(earlier, i);
    }
}

/// A delivery reaches the queue of its destination after everything that
/// queue took before, and no other queue.
pub proof fn lemma_delivery_reaches_one_queue(
    deliveries: Seq<Delivery>,
    delivery: Delivery,
    conversation: Seq<char>,
)
    ensures
        delivery.destination == conversation ==> events_for(deliveries.push(delivery), conversation)
            == events_for(deliveries, conversation).push(delivery.event),
        delivery.destination != conversation ==> events_for(deliveries.push(delivery), conversation)
            == events_for(deliveries, conversation),
{
    assert(deliveries.push(delivery).drop_last() == deliveries);
}

/// Events of a registered conversation that redirects nowhere, each accepted
/// by the queue, are delivered to that conversation's own queue, one delivery
/// for each call and in the order of the calls.
pub proof fn lemma_own_events_arrive_in_call_order(
    targets: Targets,
    deliveries: Seq<Delivery>,
    calls: Seq<Dispatch>,
    conversation: Seq<char>,
)
    requires
        targets.contains_key(conversation),
        targets[conversation].redirect_output_to is None,
        forall|i: int|
            0 <= i < calls.len() ==> (#[trigger] calls[i]).event.origin()@ == conversation
                && calls[i].accepted,
    ensures
        recorded_all(targets, deliveries, calls) == deliveries + deliveries_to(
            conversation,
            targets[conversation].target,
            calls,
        ),
    decreases calls.len(),
{
    let queue = targets[conversation].target;
    if calls.len() == 0 {
        assert(deliveries + deliveries_to(conversation, queue, calls) == deliveries);
    } else {
        let earlier = calls.drop_last();
        let last = calls.last();
        assert forall|i: int| 0 <= i < earlier.len() implies (#[trigger] earlier[i]).event.origin()@
            == conversation && earlier[i].accepted by {
            assert(earlier[i] == calls[i]);
        }
        lemma_own_events_arrive_in_call_order(targets, deliveries, earlier, conversation);
        assert(destination(targets, last.event) == Ok::<Seq<char>, DistributorError>(conversation));
        assert(deliveries + deliveries_to(conversation, queue, calls) == (deliveries
            + deliveries_to(conversation, queue, earlier)).push(
            Delivery { destination: conversation, queue, event: last.event },
        ));
    }
}

/// After requests that name conversations all different from one another, the
/// events of one that was registered without a redirect, each accepted by the
/// queue, are delivered to the queue given in that conversation's own request,
/// one delivery for each call and in the order of the calls.
pub proof fn lemma_registered_conversation_receives_its_events(
    registrations: Seq<Registration>,
    i: int,
    deliveries: Seq<Delivery>,
    calls: Seq<Dispatch>,
)
    requires
        distinct_conversations(registrations),
        0 <= i < registrations.len(),
        registrations[i].entry.redirect_output_to is None,
        forall|k: int|
            0 <= k < calls.len() ==> (#[trigger] calls[k]).event.origin()@
                == registrations[i].conversation && calls[k].accepted,
    ensures
        recorded_all(registered_all(registrations), deliveries, calls) == deliveries
            + deliveries_to(registrations[i].conversation, registrations[i].entry.target, calls),
{
    lemma_distinct_registrations_are_kept(registrations, i);
    lemma_own_events_arrive_in_call_order(
        registered_all(registrations),
        deliveries,
        calls,
        registrations[i].conversation,
    );
}

/// An event of a conversation that is not registered has no destination, and
/// reaches no queue.
pub proof fn lemma_unknown_conversation_is_reported(
    targets: Targets,
    deliveries: Seq<Delivery>,
    event: ServerEvent,
    accepted: bool,
)
    requires
        !targets.contains_key(event.origin()@),
    ensures
        destination(targets, event) == Err::<Seq<char>, DistributorError>(
            DistributorError::ConversationNotFound { conversation: event.origin() },
        ),
        recorded(targets, deliveries, event, accepted) == deliveries,
{
}

/// Audio, the request to clear audio, and text of a conversation that
/// redirects its output to a registered conversation are delivered to the
/// queue of that conversation, and, unless it redirects to itself, not to its
/// own.
pub proof fn lemma_output_follows_redirect(
    targets: Targets,
    deliveries: Seq<Delivery>,
    event: ServerEvent,
    redirect: ConversationId,
)
    requires
        targets.contains_key(event.origin()@),
        targets[event.origin()@].redirect_output_to == Some(redirect),
        targets.contains_key(redirect@),
        event is Audio || event is ClearAudio || event is Text,
    ensures
        destination(targets, event) == Ok::<Seq<char>, DistributorError>(redirect@),
        recorded(targets, deliveries, event, true) == deliveries.push(
            Delivery { destination: redirect@, queue: targets[redirect@].target, event },
        ),
        events_for(recorded(targets, deliveries, event, true), redirect@) == events_for(
            deliveries,
            redirect@,
        ).push(event),
        redirect@ != event.origin()@ ==> events_for(
            recorded(targets, deliveries, event, true),
            event.origin()@,
        ) == events_for(deliveries, event.origin()@),
{
    let delivery = Delivery { destination: redirect@, queue: targets[redirect@].target, event };
    lemma_delivery_reaches_one_queue(deliveries, delivery, redirect@);
    lemma_delivery_reaches_one_queue(deliveries, delivery, event.origin()@);
}

/// Every other event of a registered conversation is delivered to that
/// conversation's own queue and to no other, whether the conversation
/// redirects its output or not.
pub proof fn lemma_other_events_stay(
    targets: Targets,
    deliveries: Seq<Delivery>,
    event: ServerEvent,
    other: Seq<char>,
)
    requires
        targets.contains_key(event.origin()@),
        event is Started || event is Stopped || event is Error || event is RequestCompleted
            || event is Custom,
        other != event.origin()@,
    ensures
        destination(targets, event) == Ok::<Seq<char>, DistributorError>(event.origin()@),
        recorded(targets, deliveries, event, true) == deliveries.push(
            Delivery {
                destination: event.origin()@,
                queue: targets[event.origin()@].target,
                event,
            },
        ),
        events_for(recorded(targets, deliveries, event, true), event.origin()@) == events_for(
            deliveries,
            event.origin()@,
        ).push(event),
        events_for(recorded(targets, deliveries, event, true), other) == events_for(
            deliveries,
            other,
        ),
{
    let delivery = Delivery {
        destination: event.origin()@,
        queue: targets[event.origin()@].target,
        event,
    };
    lemma_delivery_reaches_one_queue(deliveries, delivery, event.origin()@);
    lemma_delivery_reaches_one_queue(deliveries, delivery, other);
}

/// Once the conversation that another one redirects to is removed from the
/// table, output of the redirecting conversation has no destination: the
/// error names both, and the event reaches no queue.
pub proof fn lemma_removed_redirect_dangles(
    targets: Targets,
    deliveries: Seq<Delivery>,
    event: ServerEvent,
    redirect: ConversationId,
    accepted: bool,
)
    requires
        targets.contains_key(event.origin()@),
        targets[event.origin()@].redirect_output_to == Some(redirect),
        redirect@ != event.origin()@,
        event is Audio || event is ClearAudio || event is Text,
    ensures
        destination(targets.remove(redirect@), event) == Err::<Seq<char>, DistributorError>(
            DistributorError::DanglingRedirect {
                target: redirect,
                redirected_from: event.origin(),
            },
        ),
        recorded(targets.remove(redirect@), deliveries, event, accepted) == deliveries,
{
}

} // verus!
