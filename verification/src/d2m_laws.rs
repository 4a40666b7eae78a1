//! What each step of the connection to the mediator does, and what a whole run sends.

use vstd::prelude::*;

use crate::d2m::{
    self, D2mAction, D2mErrorView, D2mEvent, D2mInstruction, D2mPhase, D2mStateUpdate, Received,
    WebSocketMessage,
};

verus! {

/// Whether an event leads to a phase, with some actions.
pub open spec fn leads_to<I, O>(
    phase: D2mPhase,
    event: D2mEvent<I, O>,
    after: D2mPhase,
    actions: Seq<D2mAction<I, O>>,
) -> bool {
    let next = d2m::d2m_next(phase, event);
    &&& next.0 == after
    &&& next.1 matches Ok(done)
    &&& done =~= actions
}

/// Whether an event closes the connection with an error.
pub open spec fn fails_with<I, O>(
    phase: D2mPhase,
    event: D2mEvent<I, O>,
    error: Seq<char>,
) -> bool {
    d2m::d2m_next(phase, event) == (
        D2mPhase::Closed,
        Err::<Seq<D2mAction<I, O>>, D2mErrorView>(D2mErrorView::Failed(error)),
    )
}

/// What a message of the WebSocket protocol is taken for: a binary message is the datagram with its
/// bytes, a ping is answered by a pong with its bytes, pongs and closes are passed over, and
/// everything else is an error that says what came.
pub proof fn messages_are_told_apart(bytes: Vec<u8>, text: String)
    ensures
        d2m::classified(Some(WebSocketMessage::Binary(bytes))) == Ok::<Received, Seq<char>>(
            Received::Datagram(bytes),
        ),
        d2m::classified(Some(WebSocketMessage::Ping(bytes))) == Ok::<Received, Seq<char>>(
            Received::Pong(bytes),
        ),
        d2m::classified(Some(WebSocketMessage::Pong)) == Ok::<Received, Seq<char>>(
            Received::Next,
        ),
        d2m::classified(Some(WebSocketMessage::Close)) == Ok::<Received, Seq<char>>(
            Received::Next,
        ),
        d2m::classified(Some(WebSocketMessage::Text(text))) == Err::<Received, Seq<char>>(
            "Received unexpected text message: "@ + text@,
        ),
        d2m::classified(Some(WebSocketMessage::Frame)) == Err::<Received, Seq<char>>(
            "Received unexpected raw frame"@,
        ),
        d2m::classified(None) == Err::<Received, Seq<char>>("WebSocket reading end closed"@),
{
}

/// After the handshake a datagram is handed to the protocol as it is, which is then polled; a
/// payload of the message flow is created as it is.
pub proof fn datagrams_and_payloads_are_handed_on<I, O>(datagram: Vec<u8>, payload: O)
    ensures
        leads_to::<I, O>(
            D2mPhase::Payload,
            D2mEvent::Received(datagram),
            D2mPhase::Payload,
            seq![D2mAction::AddDatagram(datagram), D2mAction::Poll],
        ),
        leads_to::<I, O>(
            D2mPhase::Payload,
            D2mEvent::Outgoing(payload),
            D2mPhase::Payload,
            seq![D2mAction::CreatePayload(payload)],
        ),
{
}

/// Where the protocol asks for nothing, the handshake needs another datagram; after it the
/// connection waits.
pub proof fn silence_is_waited_out<I, O>()
    ensures
        leads_to::<I, O>(
            D2mPhase::Handshake,
            D2mEvent::Polled(None),
            D2mPhase::Handshake,
            seq![D2mAction::Receive],
        ),
        leads_to::<I, O>(
            D2mPhase::Payload,
            D2mEvent::Polled(None),
            D2mPhase::Payload,
            seq![D2mAction::Wait],
        ),
{
}

/// During the handshake a datagram that the protocol asks for is sent; the handshake then needs
/// another one, unless it is complete: then the payload flow begins. A payload is not expected yet.
pub proof fn handshake_goes_on<I, O>(instruction: D2mInstruction<I>)
    ensures
        ({
            let event = D2mEvent::<I, O>::Polled(Some(instruction));
            let complete = instruction.state_update == Some(D2mStateUpdate::PostHandshake);
            let after = if complete {
                D2mPhase::Payload
            } else {
                D2mPhase::Handshake
            };
            let then = if complete {
                D2mAction::<I, O>::Poll
            } else {
                D2mAction::Receive
            };
            match (instruction.incoming_payload, instruction.outgoing_datagram) {
                (Some(_), _) => fails_with(
                    D2mPhase::Handshake,
                    event,
                    "Unexpected incoming payload during handshake"@,
                ),
                (None, Some(datagram)) => leads_to(
                    D2mPhase::Handshake,
                    event,
                    after,
                    seq![D2mAction::Send(datagram), then],
                ),
                (None, None) => leads_to(D2mPhase::Handshake, event, after, seq![then]),
            }
        }),
{
}

/// After the handshake, a payload of the mediator is handed over, then a datagram that the protocol
/// asks for is sent, and then the protocol is polled. A change of state is not expected any more.
pub proof fn instructions_are_followed<I, O>(event: D2mEvent<I, O>, instruction: D2mInstruction<I>)
    requires
        event == D2mEvent::<I, O>::Polled(Some(instruction)) || event == D2mEvent::<
            I,
            O,
        >::Created(instruction),
    ensures
        instruction.state_update is Some ==> fails_with(
            D2mPhase::Payload,
            event,
            "Unexpected state update after handshake"@,
        ),
        instruction.state_update is None ==> match (
            instruction.incoming_payload,
            instruction.outgoing_datagram,
        ) {
            (Some(payload), Some(datagram)) => leads_to(
                D2mPhase::Payload,
                event,
                D2mPhase::Payload,
                seq![D2mAction::Forward(payload), D2mAction::Send(datagram), D2mAction::Poll],
            ),
            (Some(payload), None) => leads_to(
                D2mPhase::Payload,
                event,
                D2mPhase::Payload,
                seq![D2mAction::Forward(payload), D2mAction::Poll],
            ),
            (None, Some(datagram)) => leads_to(
                D2mPhase::Payload,
                event,
                D2mPhase::Payload,
                seq![D2mAction::Send(datagram), D2mAction::Poll],
            ),
            (None, None) => leads_to(
                D2mPhase::Payload,
                event,
                D2mPhase::Payload,
                seq![D2mAction::Poll],
            ),
        },
{
}

/// An event is refused exactly if the connection is closed, or it is in the handshake and the
/// event is not that the protocol was polled; then nothing changes.
pub proof fn nothing_due_is_refused<I, O>(phase: D2mPhase, event: D2mEvent<I, O>)
    ensures
        d2m::d2m_next(phase, event).1 == Err::<Seq<D2mAction<I, O>>, D2mErrorView>(
            D2mErrorView::OutOfTurn,
        ) <==> (phase == D2mPhase::Closed || (phase == D2mPhase::Handshake && !(event is Polled))),
        d2m::d2m_next(phase, event).1 == Err::<Seq<D2mAction<I, O>>, D2mErrorView>(
            D2mErrorView::OutOfTurn,
        ) ==> d2m::d2m_next(phase, event).0 == phase,
{
}

// Whole runs
// ----------
/// The datagrams that some actions send, in order.
pub open spec fn datagrams_of<I, O>(actions: Seq<D2mAction<I, O>>) -> Seq<Vec<u8>>
    decreases actions.len(),
{
    if actions.len() == 0 {
        Seq::empty()
    } else {
        let front = datagrams_of(actions.drop_last());
        match actions.last() {
            D2mAction::Send(datagram) => front.push(datagram),
            _ => front,
        }
    }
}

/// The datagrams that are sent in the course of some events, in order.
pub open spec fn sent<I, O>(phase: D2mPhase, events: Seq<D2mEvent<I, O>>) -> Seq<Vec<u8>>
    decreases events.len(),
{
    if events.len() == 0 {
        Seq::empty()
    } else {
        let front = sent(phase, events.drop_last());
        match d2m::d2m_next(d2m::phase_after(phase, events.drop_last()), events.last()).1 {
            Ok(actions) => front + datagrams_of(actions),
            Err(_) => front,
        }
    }
}

/// The datagram that is due in an event in a phase: the one that the protocol asks for, but not
/// together with a payload during the handshake, or a change of state after it.
pub open spec fn datagram_due<I, O>(phase: D2mPhase, event: D2mEvent<I, O>) -> Option<Vec<u8>> {
    match (phase, event) {
        (D2mPhase::Handshake, D2mEvent::Polled(Some(instruction))) => {
            if instruction.incoming_payload is None {
                instruction.outgoing_datagram
            } else {
                None
            }
        },
        (D2mPhase::Payload, D2mEvent::Polled(Some(instruction))) => {
            if instruction.state_update is None {
                instruction.outgoing_datagram
            } else {
                None
            }
        },
        (D2mPhase::Payload, D2mEvent::Created(instruction)) => if instruction.state_update is None {
            instruction.outgoing_datagram
        } else {
            None
        },
        _ => None,
    }
}

/// The datagrams that are due in the course of some events, in order.
pub open spec fn due<I, O>(phase: D2mPhase, events: Seq<D2mEvent<I, O>>) -> Seq<Vec<u8>>
    decreases events.len(),
{
    if events.len() == 0 {
        Seq::empty()
    } else {
        let front = due(phase, events.drop_last());
        match datagram_due(d2m::phase_after(phase, events.drop_last()), events.last()) {
            Some(datagram) => front.push(datagram),
            None => front,
        }
    }
}

/// Over a whole run, exactly the datagrams that the protocol asks for are sent, unchanged and in
/// order.
pub proof fn everything_due_is_sent_in_order<I, O>(phase: D2mPhase, events: Seq<D2mEvent<I, O>>)
    ensures
        sent(phase, events) == due(phase, events),
    decreases events.len(),
{
    if events.len() > 0 {
        let before = events.drop_last();
        everything_due_is_sent_in_order(phase, before);
        let at = d2m::phase_after(phase, before);
        lemma_step_sends(at, events.last());
        let front = due(phase, before);
        assert(front + Seq::empty() =~= front);
        if let Some(datagram) = datagram_due(at, events.last()) {
            assert(front + seq![datagram] =~= front.push(datagram));
        }
    }
}

/// What a single step sends.
proof fn lemma_step_sends<I, O>(phase: D2mPhase, event: D2mEvent<I, O>)
    ensures
        ({
            let actions = match d2m::d2m_next(phase, event).1 {
                Ok(actions) => actions,
                Err(_) => Seq::empty(),
            };
            datagrams_of(actions) == match datagram_due(phase, event) {
                Some(datagram) => seq![datagram],
                None => Seq::empty(),
            }
        }),
{
    reveal_with_fuel(datagrams_of, 4);
    if let Ok(actions) = d2m::d2m_next(phase, event).1 {
        assert(actions.len() <= 3);
        if actions.len() >= 2 {
            assert(actions.drop_last().last() == actions[actions.len() - 2]);
        }
        if actions.len() >= 3 {
            assert(actions.drop_last().drop_last().last() == actions[actions.len() - 3]);
        }
    }
}

} // verus!
