//! What each step of the connection to the chat server does, and what a whole run sends.

use vstd::prelude::*;

use crate::csp::{
    self, CspAction, CspErrorView, CspEvent, CspInstruction, CspPhase, CspStateUpdate,
    IncomingPayload, IncomingPayloadForCspE2e, MessageAck, OutgoingPayload,
    OutgoingPayloadForCspE2e, ReadOutcome,
};

verus! {

/// Whether an event leads to a phase, with some actions.
pub open spec fn leads_to<B, M>(
    phase: CspPhase,
    event: CspEvent<B, M>,
    after: CspPhase,
    actions: Seq<CspAction<B, M>>,
) -> bool {
    let next = csp::csp_next(phase, event);
    &&& next.0 == after
    &&& next.1 matches Ok(done)
    &&& done =~= actions
}

/// Whether an event closes the connection with an error.
pub open spec fn fails_with<B, M>(
    phase: CspPhase,
    event: CspEvent<B, M>,
    error: Seq<char>,
) -> bool {
    csp::csp_next(phase, event) == (
        CspPhase::Closed,
        Err::<Seq<CspAction<B, M>>, CspErrorView>(CspErrorView::Failed(error)),
    )
}

/// After the handshake, a payload of the message flow, of whatever kind, is created as it is, and
/// nothing else is done; the connection goes on.
pub proof fn payloads_of_the_flow_are_created<B, M>(ack: MessageAck, message: M)
    ensures
        leads_to::<B, M>(
            CspPhase::Payload,
            CspEvent::Outgoing(Some(OutgoingPayloadForCspE2e::MessageAck(ack))),
            CspPhase::Payload,
            seq![CspAction::CreatePayload(OutgoingPayload::MessageAck(ack))],
        ),
        leads_to::<B, M>(
            CspPhase::Payload,
            CspEvent::Outgoing(Some(OutgoingPayloadForCspE2e::Message(message))),
            CspPhase::Payload,
            seq![CspAction::CreatePayload(OutgoingPayload::Message(message))],
        ),
        leads_to::<B, M>(
            CspPhase::Payload,
            CspEvent::Outgoing(Some(OutgoingPayloadForCspE2e::UnblockIncomingMessages)),
            CspPhase::Payload,
            seq![CspAction::CreatePayload(OutgoingPayload::UnblockIncomingMessages)],
        ),
{
}

/// The end of the message flow closes the stream, and the connection.
pub proof fn end_of_the_flow_closes_the_stream<B, M>()
    ensures
        leads_to::<B, M>(
            CspPhase::Payload,
            CspEvent::Outgoing(None),
            CspPhase::Closed,
            seq![CspAction::Shutdown],
        ),
{
}

/// Where the protocol asks for nothing, the handshake needs more bytes; after it the connection
/// waits.
pub proof fn silence_is_waited_out<B, M>()
    ensures
        leads_to::<B, M>(
            CspPhase::Handshake,
            CspEvent::Polled(None),
            CspPhase::Handshake,
            seq![CspAction::ReceiveRequired],
        ),
        leads_to::<B, M>(
            CspPhase::Payload,
            CspEvent::Polled(None),
            CspPhase::Payload,
            seq![CspAction::Wait],
        ),
{
}

/// All bytes that were read, and no others, are handed to the protocol, which is then polled; a
/// failure to read ends the connection with its error.
pub proof fn bytes_are_handed_on<B, M>(length: usize, error: String)
    ensures
        length > 0 ==> leads_to::<B, M>(
            CspPhase::Payload,
            CspEvent::Read(ReadOutcome::Read(length)),
            CspPhase::Payload,
            seq![CspAction::AddChunk(length), CspAction::Poll],
        ),
        leads_to::<B, M>(
            CspPhase::Payload,
            CspEvent::Read(ReadOutcome::WouldBlock),
            CspPhase::Payload,
            seq![CspAction::AddChunk(0), CspAction::Poll],
        ),
        fails_with::<B, M>(
            CspPhase::Payload,
            CspEvent::Read(ReadOutcome::Failed(error)),
            error@,
        ),
{
}

/// During the handshake as many bytes beyond the required ones are taken as were read; none are
/// where none are required, whatever came of reading.
pub proof fn required_bytes_are_received(required: usize, length: usize, error: String)
    requires
        length > 0,
    ensures
        csp::more_bytes(0, ReadOutcome::Read(length)) == Ok::<usize, Seq<char>>(0),
        csp::more_bytes(0, ReadOutcome::Read(0)) == Ok::<usize, Seq<char>>(0),
        csp::more_bytes(0, ReadOutcome::WouldBlock) == Ok::<usize, Seq<char>>(0),
        csp::more_bytes(0, ReadOutcome::Failed(error)) == Ok::<usize, Seq<char>>(0),
        required > 0 ==> {
            &&& csp::more_bytes(required, ReadOutcome::Read(length)) == Ok::<usize, Seq<char>>(
                length,
            )
            &&& csp::more_bytes(required, ReadOutcome::Read(0)) == Err::<usize, Seq<char>>(
                "TCP reading end closed"@,
            )
            &&& csp::more_bytes(required, ReadOutcome::WouldBlock) == Ok::<usize, Seq<char>>(0)
            &&& csp::more_bytes(required, ReadOutcome::Failed(error)) == Err::<usize, Seq<char>>(
                error@,
            )
        },
{
}

/// During the handshake a frame that the protocol asks for is sent; the handshake then needs more
/// bytes, unless it is complete: then the payload flow begins. A payload is not expected yet.
pub proof fn handshake_goes_on<B, M>(instruction: CspInstruction<B>)
    ensures
        ({
            let event = CspEvent::<B, M>::Polled(Some(instruction));
            let complete = instruction.state_update == Some(CspStateUpdate::PostHandshake);
            let after = if complete {
                CspPhase::Payload
            } else {
                CspPhase::Handshake
            };
            let then = if complete {
                CspAction::<B, M>::Poll
            } else {
                CspAction::ReceiveRequired
            };
            match (instruction.incoming_payload, instruction.outgoing_frame) {
                (Some(_), _) => fails_with(
                    CspPhase::Handshake,
                    event,
                    "Unexpected incoming payload during handshake"@,
                ),
                (None, Some(frame)) => leads_to(
                    CspPhase::Handshake,
                    event,
                    after,
                    seq![CspAction::Send(frame), then],
                ),
                (None, None) => leads_to(CspPhase::Handshake, event, after, seq![then]),
            }
        }),
{
}

/// After the handshake, a payload of the chat server is handed over or, if it is an echo request,
/// answered; then a frame that the protocol asks for is sent; then the protocol is polled, unless
/// an echo response is still to come. Payloads of other kinds are left alone. A change of state is
/// not expected any more.
pub proof fn instructions_are_followed<B, M>(event: CspEvent<B, M>, instruction: CspInstruction<B>)
    requires
        event == CspEvent::<B, M>::Polled(Some(instruction)) || event == CspEvent::<
            B,
            M,
        >::Created(instruction),
    ensures
        instruction.state_update is Some ==> fails_with(
            CspPhase::Payload,
            event,
            "Unexpected state update after handshake"@,
        ),
        instruction.state_update is None ==> {
            let answered = match instruction.incoming_payload {
                Some(IncomingPayload::EchoRequest(echo)) => seq![
                    CspAction::<B, M>::CreatePayload(OutgoingPayload::EchoResponse(echo)),
                ],
                Some(IncomingPayload::MessageWithMetadataBox(message)) => seq![
                    CspAction::Forward(IncomingPayloadForCspE2e::Message(message)),
                ],
                Some(IncomingPayload::MessageAck(ack)) => seq![
                    CspAction::Forward(IncomingPayloadForCspE2e::MessageAck(ack)),
                ],
                _ => Seq::empty(),
            };
            let framed = match instruction.outgoing_frame {
                Some(frame) => answered.push(CspAction::Send(frame)),
                None => answered,
            };
            let polled = match instruction.incoming_payload {
                Some(IncomingPayload::EchoRequest(_)) => framed,
                _ => framed.push(CspAction::Poll),
            };
            leads_to(CspPhase::Payload, event, CspPhase::Payload, polled)
        },
{
}

/// An event is refused exactly if the connection is closed, or it is in the handshake and the
/// event is not that the protocol was polled; then nothing changes.
pub proof fn nothing_due_is_refused<B, M>(phase: CspPhase, event: CspEvent<B, M>)
    ensures
        csp::csp_next(phase, event).1 == Err::<Seq<CspAction<B, M>>, CspErrorView>(
            CspErrorView::OutOfTurn,
        ) <==> (phase == CspPhase::Closed || (phase == CspPhase::Handshake && !(event is Polled))),
        csp::csp_next(phase, event).1 == Err::<Seq<CspAction<B, M>>, CspErrorView>(
            CspErrorView::OutOfTurn,
        ) ==> csp::csp_next(phase, event).0 == phase,
{
}

/// A connection ends without an error exactly if its payload flow does and the stream is closed; a
/// failure to close the stream is what it ends with, whatever the payload flow ended with, and else
/// what the payload flow failed with.
pub proof fn failure_to_close_counts_more(
    payload_flow: Result<(), String>,
    shutdown: Result<(), String>,
)
    ensures
        csp::end_of(payload_flow, shutdown) is Ok <==> payload_flow is Ok && shutdown is Ok,
        shutdown matches Err(error) ==> csp::end_of(payload_flow, shutdown) == Err::<(), String>(
            error,
        ),
        shutdown is Ok && (payload_flow matches Err(error)) ==> csp::end_of(payload_flow, shutdown)
            == payload_flow,
{
}

// Whole runs
// ----------
/// What some events led to, in order: all actions, one after the other.
pub open spec fn performed<B, M>(phase: CspPhase, events: Seq<CspEvent<B, M>>) -> Seq<
    CspAction<B, M>,
>
    decreases events.len(),
{
    if events.len() == 0 {
        Seq::empty()
    } else {
        let front = performed(phase, events.drop_last());
        match csp::csp_next(csp::phase_after(phase, events.drop_last()), events.last()).1 {
            Ok(actions) => front + actions,
            Err(_) => front,
        }
    }
}

/// The payloads that some actions have created, in order.
pub open spec fn created_by<B, M>(actions: Seq<CspAction<B, M>>) -> Seq<OutgoingPayload<M>>
    decreases actions.len(),
{
    if actions.len() == 0 {
        Seq::empty()
    } else {
        let front = created_by(actions.drop_last());
        match actions.last() {
            CspAction::CreatePayload(payload) => front.push(payload),
            _ => front,
        }
    }
}

/// The frames that some actions send, in order.
pub open spec fn frames_of<B, M>(actions: Seq<CspAction<B, M>>) -> Seq<Vec<u8>>
    decreases actions.len(),
{
    if actions.len() == 0 {
        Seq::empty()
    } else {
        let front = frames_of(actions.drop_last());
        match actions.last() {
            CspAction::Send(frame) => front.push(frame),
            _ => front,
        }
    }
}

/// The payload that an event in a phase calls for: after the handshake, what the message flow wants
/// to be sent, or the answer to an echo request.
pub open spec fn called_for<B, M>(phase: CspPhase, event: CspEvent<B, M>) -> Option<
    OutgoingPayload<M>,
> {
    match (phase, event) {
        (
            CspPhase::Payload,
            CspEvent::Outgoing(Some(OutgoingPayloadForCspE2e::MessageAck(ack))),
        ) => Some(OutgoingPayload::MessageAck(ack)),
        (
            CspPhase::Payload,
            CspEvent::Outgoing(Some(OutgoingPayloadForCspE2e::Message(message))),
        ) => Some(OutgoingPayload::Message(message)),
        (
            CspPhase::Payload,
            CspEvent::Outgoing(Some(OutgoingPayloadForCspE2e::UnblockIncomingMessages)),
        ) => Some(OutgoingPayload::UnblockIncomingMessages),
        (CspPhase::Payload, _) => match asked_in(event) {
            Some(
                CspInstruction {
                    state_update: None,
                    incoming_payload: Some(IncomingPayload::EchoRequest(echo)),
                    ..
                },
            ) => Some(OutgoingPayload::EchoResponse(echo)),
            _ => None,
        },
        _ => None,
    }
}

/// What the protocol asks for in an event, if it asks for something.
pub open spec fn asked_in<B, M>(event: CspEvent<B, M>) -> Option<CspInstruction<B>> {
    match event {
        CspEvent::Polled(Some(instruction)) => Some(instruction),
        CspEvent::Created(instruction) => Some(instruction),
        _ => None,
    }
}

/// The frame that is due in an event in a phase: the one that the protocol asks for, but not
/// together with a payload during the handshake, or a change of state after it.
pub open spec fn frame_due<B, M>(phase: CspPhase, event: CspEvent<B, M>) -> Option<Vec<u8>> {
    match (phase, event) {
        (CspPhase::Handshake, CspEvent::Polled(Some(instruction))) => {
            if instruction.incoming_payload is None {
                instruction.outgoing_frame
            } else {
                None
            }
        },
        (CspPhase::Payload, _) => match asked_in(event) {
            Some(instruction) => if instruction.state_update is None {
                instruction.outgoing_frame
            } else {
                None
            },
            None => None,
        },
        _ => None,
    }
}

/// The payloads that some events call for, in order.
pub open spec fn all_called_for<B, M>(phase: CspPhase, events: Seq<CspEvent<B, M>>) -> Seq<
    OutgoingPayload<M>,
>
    decreases events.len(),
{
    if events.len() == 0 {
        Seq::empty()
    } else {
        let front = all_called_for(phase, events.drop_last());
        match called_for(csp::phase_after(phase, events.drop_last()), events.last()) {
            Some(payload) => front.push(payload),
            None => front,
        }
    }
}

/// The frames that are due in the course of some events, in order.
pub open spec fn all_frames_due<B, M>(phase: CspPhase, events: Seq<CspEvent<B, M>>) -> Seq<Vec<u8>>
    decreases events.len(),
{
    if events.len() == 0 {
        Seq::empty()
    } else {
        let front = all_frames_due(phase, events.drop_last());
        match frame_due(csp::phase_after(phase, events.drop_last()), events.last()) {
            Some(frame) => front.push(frame),
            None => front,
        }
    }
}

/// Over a whole run, exactly the payloads that the message flow wants to be sent, and the answers
/// to echo requests, are created, unchanged and in order; and exactly the frames that the protocol
/// asks for are sent, unchanged and in order.
pub proof fn everything_wanted_is_sent_in_order<B, M>(
    phase: CspPhase,
    events: Seq<CspEvent<B, M>>,
)
    ensures
        created_by(performed(phase, events)) == all_called_for(phase, events),
        frames_of(performed(phase, events)) == all_frames_due(phase, events),
    decreases events.len(),
{
    if events.len() > 0 {
        let before = events.drop_last();
        everything_wanted_is_sent_in_order(phase, before);
        let at = csp::phase_after(phase, before);
        lemma_step_sends(at, events.last());
        let front = performed(phase, before);
        if let Ok(actions) = csp::csp_next(at, events.last()).1 {
            lemma_appended(front, actions);
        }
        let payloads = all_called_for(phase, before);
        assert(payloads + Seq::empty() =~= payloads);
        if let Some(payload) = called_for(at, events.last()) {
            assert(payloads + seq![payload] =~= payloads.push(payload));
        }
        let frames = all_frames_due(phase, before);
        assert(frames + Seq::empty() =~= frames);
        if let Some(frame) = frame_due(at, events.last()) {
            assert(frames + seq![frame] =~= frames.push(frame));
        }
    }
}

/// What a single step creates and sends.
proof fn lemma_step_sends<B, M>(phase: CspPhase, event: CspEvent<B, M>)
    ensures
        ({
            let actions = match csp::csp_next(phase, event).1 {
                Ok(actions) => actions,
                Err(_) => Seq::empty(),
            };
            &&& created_by(actions) == match called_for(phase, event) {
                Some(payload) => seq![payload],
                None => Seq::empty(),
            }
            &&& frames_of(actions) == match frame_due(phase, event) {
                Some(frame) => seq![frame],
                None => Seq::empty(),
            }
        }),
{
    reveal_with_fuel(created_by, 4);
    reveal_with_fuel(frames_of, 4);
    if let Ok(actions) = csp::csp_next(phase, event).1 {
        assert(actions.len() <= 3);
        if actions.len() >= 2 {
            assert(actions.drop_last().last() == actions[actions.len() - 2]);
        }
        if actions.len() >= 3 {
            assert(actions.drop_last().drop_last().last() == actions[actions.len() - 3]);
        }
    }
}

/// What is created and sent by some actions and then others.
proof fn lemma_appended<B, M>(front: Seq<CspAction<B, M>>, back: Seq<CspAction<B, M>>)
    ensures
        created_by(front + back) == created_by(front) + created_by(back),
        frames_of(front + back) == frames_of(front) + frames_of(back),
    decreases back.len(),
{
    if back.len() == 0 {
        assert(front + back =~= front);
        assert(created_by(front) + created_by(back) =~= created_by(front));
        assert(frames_of(front) + frames_of(back) =~= frames_of(front));
    } else {
        lemma_appended(front, back.drop_last());
        assert((front + back).drop_last() =~= front + back.drop_last());
        assert((front + back).last() == back.last());
        assert(created_by(front + back) =~= created_by(front) + created_by(back));
        assert(frames_of(front + back) =~= frames_of(front) + frames_of(back));
    }
}

} // verus!
