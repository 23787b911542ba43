//! The decisions of the receive loop: for each thing that happens while
//! messages are streamed in, what is handed to JavaScript and whether the
//! loop goes on. The loop itself, with its waiting, runs outside.

use vstd::prelude::*;
use crate::message::{
    content_converted, data_message_converted, ContentBodyInfo, content_to_js_message, is_queue_empty_notice, queue_empty_notice,
    ContentInfo, IncomingMessage,
};

verus! {

/// What the receive loop sees next.
pub enum ReceiveEvent {
    /// The stop switch changed; `requested` is its value now.
    StopSignal { requested: bool },
    /// The server queue has been drained.
    QueueEmpty,
    /// The contacts were synchronized.
    ContactsSynchronized,
    /// A content was received.
    Content(ContentInfo),
    /// The message stream ended.
    StreamEnded,
}

/// What the receive loop does about it.
pub enum ReceiveAction {
    /// Hand this message to the JavaScript callback and go on.
    Deliver(IncomingMessage),
    /// Go on without handing anything over.
    Continue,
    /// Leave the loop.
    Stop,
}

/// The loop leaves on a stop request or at the end of the stream, and on nothing else.
pub open spec fn stops_on(event: ReceiveEvent) -> bool {
    match event {
        ReceiveEvent::StopSignal { requested } => requested,
        ReceiveEvent::StreamEnded => true,
        _ => false,
    }
}

/// `action` is what the receive loop does on `event`.
pub open spec fn receive_decision(event: ReceiveEvent, action: ReceiveAction) -> bool {
    match event {
        ReceiveEvent::StopSignal { requested } => if requested {
            action is Stop
        } else {
            action is Continue
        },
        ReceiveEvent::QueueEmpty => action is Deliver && is_queue_empty_notice(action->Deliver_0),
        ReceiveEvent::ContactsSynchronized => action is Continue,
        ReceiveEvent::Content(content) => match action {
            ReceiveAction::Deliver(m) => content_converted(content, Some(m)),
            ReceiveAction::Continue => content_converted(content, None),
            ReceiveAction::Stop => false,
        },
        ReceiveEvent::StreamEnded => action is Stop,
    }
}

/// Decides what the receive loop does on `event`.
pub fn receive_step(event: ReceiveEvent) -> (action: ReceiveAction)
    ensures
        receive_decision(event, action),
        action is Stop <==> stops_on(event),
{
    match event {
        ReceiveEvent::StopSignal { requested } => if requested {
            ReceiveAction::Stop
        } else {
            ReceiveAction::Continue
        },
        ReceiveEvent::QueueEmpty => ReceiveAction::Deliver(queue_empty_notice()),
        ReceiveEvent::ContactsSynchronized => ReceiveAction::Continue,
        ReceiveEvent::Content(content) => match content_to_js_message(content) {
            Some(m) => ReceiveAction::Deliver(m),
            None => ReceiveAction::Continue,
        },
        ReceiveEvent::StreamEnded => ReceiveAction::Stop,
    }
}

/// The loop leaves on a stop request and at the end of the stream, and only
/// then; a stop switch reading false and a contacts sync let it go on with
/// nothing handed over; a drained queue hands over the empty notice, which
/// carries no sender, text or attachment.
pub proof fn law_loop_leaves_only_when_asked_or_ended(event: ReceiveEvent, action: ReceiveAction)
    requires
        receive_decision(event, action),
    ensures
        action is Stop <==> (event is StreamEnded || event == (ReceiveEvent::StopSignal { requested: true })),
        event == (ReceiveEvent::StopSignal { requested: false }) ==> action is Continue,
        event is ContactsSynchronized ==> action is Continue,
        event is QueueEmpty ==> action is Deliver && action->Deliver_0.is_queue_empty
            && action->Deliver_0.sender_uuid@.len() == 0 && action->Deliver_0.text is None
            && action->Deliver_0.attachments.len() == 0,
{
}

/// The messages that a run of actions hands to JavaScript, in order.
pub open spec fn delivered(actions: Seq<ReceiveAction>) -> Seq<IncomingMessage>
    decreases actions.len(),
{
    if actions.len() == 0 {
        Seq::empty()
    } else {
        match actions.last() {
            ReceiveAction::Deliver(m) => delivered(actions.drop_last()).push(m),
            _ => delivered(actions.drop_last()),
        }
    }
}

/// `messages` are what the events call for, in order: the queue-empty notice
/// for a drained queue, the converted message for a data message, and nothing
/// for any other event.
pub open spec fn called_for(events: Seq<ReceiveEvent>, messages: Seq<IncomingMessage>) -> bool
    decreases events.len(),
{
    if events.len() == 0 {
        messages.len() == 0
    } else {
        let before = events.drop_last();
        match events.last() {
            ReceiveEvent::QueueEmpty => messages.len() > 0 && is_queue_empty_notice(messages.last())
                && called_for(before, messages.drop_last()),
            ReceiveEvent::Content(c) => match c.body {
                ContentBodyInfo::DataMessage(dm) => messages.len() > 0 && data_message_converted(
                    c.sender,
                    dm,
                    messages.last(),
                ) && called_for(before, messages.drop_last()),
                ContentBodyInfo::Other => called_for(before, messages),
            },
            _ => called_for(before, messages),
        }
    }
}

/// Over a whole run of the receive loop, the messages handed to JavaScript
/// are exactly those the events call for, in the order of the events, and
/// the loop is told to leave on a stop request or the end of the stream and
/// at no other event, so nothing is handed over after the stream ends.
pub proof fn law_stream_is_delivered_in_order(events: Seq<ReceiveEvent>, actions: Seq<ReceiveAction>)
    requires
        events.len() == actions.len(),
        forall|i: int| 0 <= i < events.len() ==> receive_decision(#[trigger] events[i], actions[i]),
    ensures
        called_for(events, delivered(actions)),
        forall|i: int| 0 <= i < events.len() ==> (#[trigger] actions[i] is Stop <==> stops_on(events[i])),
    decreases events.len(),
{
    if events.len() > 0 {
        let n = events.len() - 1;
        let ev = events.drop_last();
        let ac = actions.drop_last();
        assert forall|i: int| 0 <= i < ev.len() implies receive_decision(#[trigger] ev[i], ac[i]) by {
            assert(ev[i] == events[i]);
            assert(receive_decision(events[i], actions[i]));
        }
        law_stream_is_delivered_in_order(ev, ac);
        assert(receive_decision(events[n], actions[n]));
        assert forall|i: int| 0 <= i < events.len() implies (#[trigger] actions[i] is Stop <==> stops_on(
            events[i],
        )) by {
            assert(receive_decision(events[i], actions[i]));
            if i < n {
                assert(ac[i] == actions[i]);
                assert(ev[i] == events[i]);
            }
        }
        match actions.last() {
            ReceiveAction::Deliver(m) => {
                assert(delivered(actions).drop_last() =~= delivered(ac));
            },
            _ => {},
        }
    }
}

} // verus!
