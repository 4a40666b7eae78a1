//! The connection to the mediator: what to do next in the handshake and in the payload flow, which
//! relays every payload to and from the message flow.
//!
//! The caller owns the WebSocket stream and the protocol's encryption. It performs the
//! [`D2mAction`]s in order and hands back what came of them. `I` and `O` are the payloads from and
//! to the mediator.

use vstd::prelude::*;
use vstd::string::*;

verus! {

/// The HTTP status of a switch of protocols.
pub const SWITCHING_PROTOCOLS: u16 = 101;

/// Checks that the server agreed to switch to the WebSocket protocol. `status_text` is how the
/// status is written out.
pub fn check_status(status: u16, status_text: &str) -> (result: Result<(), String>)
    ensures
        result is Ok <==> status == SWITCHING_PROTOCOLS,
        result matches Err(error) ==> error@
            == "Expected response to switch protocols (101 Switching Protocols), got "@
            + status_text@,
{
    if status == SWITCHING_PROTOCOLS {
        return Ok(());
    }
    let mut error: String =
        "Expected response to switch protocols (101 Switching Protocols), got ".to_owned();
    error.append(status_text);
    Err(error)
}

/// A message of the WebSocket protocol.
#[derive(Debug)]
pub enum WebSocketMessage {
    Binary(Vec<u8>),
    Text(String),
    Ping(Vec<u8>),
    Pong,
    Close,
    Frame,
}

/// What to do about a message of the WebSocket protocol.
#[derive(Debug)]
pub enum Received {
    /// It is a datagram of the mediator.
    Datagram(Vec<u8>),
    /// Answer with a pong that carries these bytes and receive the next one.
    Pong(Vec<u8>),
    /// Receive the next one.
    Next,
}

/// What a message of the WebSocket protocol is taken for; `None` is the end of the stream.
pub open spec fn classified(message: Option<WebSocketMessage>) -> Result<Received, Seq<char>> {
    match message {
        None => Err("WebSocket reading end closed"@),
        Some(WebSocketMessage::Binary(bytes)) => Ok(Received::Datagram(bytes)),
        Some(WebSocketMessage::Text(text)) => Err("Received unexpected text message: "@ + text@),
        Some(WebSocketMessage::Ping(bytes)) => Ok(Received::Pong(bytes)),
        Some(WebSocketMessage::Pong) => Ok(Received::Next),
        Some(WebSocketMessage::Close) => Ok(Received::Next),
        Some(WebSocketMessage::Frame) => Err("Received unexpected raw frame"@),
    }
}

/// Takes a message of the WebSocket protocol, or the end of the stream.
pub fn receive(message: Option<WebSocketMessage>) -> (result: Result<Received, String>)
    ensures
        match classified(message) {
            Ok(received) => result == Ok::<Received, String>(received),
            Err(text) => result matches Err(error) && error@ == text,
        },
{
    match message {
        None => Err("WebSocket reading end closed".to_owned()),
        Some(WebSocketMessage::Binary(bytes)) => Ok(Received::Datagram(bytes)),
        Some(WebSocketMessage::Text(text)) => {
            let mut error: String = "Received unexpected text message: ".to_owned();
            error.append(text.as_str());
            Err(error)
        },
        Some(WebSocketMessage::Ping(bytes)) => Ok(Received::Pong(bytes)),
        Some(WebSocketMessage::Pong) => Ok(Received::Next),
        Some(WebSocketMessage::Close) => Ok(Received::Next),
        Some(WebSocketMessage::Frame) => Err("Received unexpected raw frame".to_owned()),
    }
}

/// A change of the protocol's state.
#[derive(Debug, Clone, Copy, PartialEq, Eq, Structural)]
pub enum D2mStateUpdate {
    /// The handshake is complete.
    PostHandshake,
    Other,
}

/// What the protocol asks for after it was polled or a payload was created.
#[derive(Debug)]
pub struct D2mInstruction<I> {
    pub state_update: Option<D2mStateUpdate>,
    pub incoming_payload: Option<I>,
    pub outgoing_datagram: Option<Vec<u8>>,
}

/// What came of the caller's actions, or happened while it waited.
#[derive(Debug)]
pub enum D2mEvent<I, O> {
    /// The protocol was polled.
    Polled(Option<D2mInstruction<I>>),
    /// A payload was created.
    Created(D2mInstruction<I>),
    /// A datagram arrived.
    Received(Vec<u8>),
    /// The message flow wants a payload to be sent.
    Outgoing(O),
}

/// What the caller has to do.
#[derive(Debug)]
pub enum D2mAction<I, O> {
    /// Send this datagram.
    Send(Vec<u8>),
    /// Wait for a datagram, hand it to the protocol and poll it.
    Receive,
    /// Hand this datagram to the protocol.
    AddDatagram(Vec<u8>),
    /// Poll the protocol.
    Poll,
    /// Wait until a datagram arrives or the message flow wants to send something.
    Wait,
    /// Create a payload. What comes of it is the next event.
    CreatePayload(O),
    /// Hand a payload to the message flow.
    Forward(I),
}

/// Why the connection cannot go on.
#[derive(Debug)]
pub enum D2mError {
    /// The event does not fit the phase that the connection is in. Nothing has changed.
    OutOfTurn,
    Failed(String),
}

/// The mathematical value of a [`D2mError`].
pub ghost enum D2mErrorView {
    OutOfTurn,
    Failed(Seq<char>),
}

impl View for D2mError {
    type V = D2mErrorView;

    open spec fn view(&self) -> D2mErrorView {
        match self {
            D2mError::OutOfTurn => D2mErrorView::OutOfTurn,
            D2mError::Failed(text) => D2mErrorView::Failed(text@),
        }
    }
}

/// The phases of the connection.
#[derive(Debug, Clone, Copy, PartialEq, Eq, Structural)]
pub enum D2mPhase {
    Handshake,
    Payload,
    Closed,
}

/// The datagram to send, if there is one.
pub open spec fn sends<I, O>(datagram: Option<Vec<u8>>) -> Seq<D2mAction<I, O>> {
    match datagram {
        Some(datagram) => seq![D2mAction::Send(datagram)],
        None => Seq::empty(),
    }
}

/// The payload to hand over, if there is one.
pub open spec fn forwards<I, O>(payload: Option<I>) -> Seq<D2mAction<I, O>> {
    match payload {
        Some(payload) => seq![D2mAction::Forward(payload)],
        None => Seq::empty(),
    }
}

/// What to do after the handshake about what the protocol asks for.
pub open spec fn instructed<I, O>(instruction: D2mInstruction<I>) -> (
    D2mPhase,
    Result<Seq<D2mAction<I, O>>, D2mErrorView>,
) {
    if instruction.state_update is Some {
        (
            D2mPhase::Closed,
            Err(D2mErrorView::Failed("Unexpected state update after handshake"@)),
        )
    } else {
        (
            D2mPhase::Payload,
            Ok(
                (forwards(instruction.incoming_payload) + sends(
                    instruction.outgoing_datagram,
                )).push(D2mAction::Poll),
            ),
        )
    }
}

/// The phase after an event, and what to do.
pub open spec fn d2m_next<I, O>(phase: D2mPhase, event: D2mEvent<I, O>) -> (
    D2mPhase,
    Result<Seq<D2mAction<I, O>>, D2mErrorView>,
) {
    match (phase, event) {
        (D2mPhase::Handshake, D2mEvent::Polled(None)) => (phase, Ok(seq![D2mAction::Receive])),
        (D2mPhase::Handshake, D2mEvent::Polled(Some(instruction))) => {
            if instruction.incoming_payload is Some {
                (
                    D2mPhase::Closed,
                    Err(D2mErrorView::Failed("Unexpected incoming payload during handshake"@)),
                )
            } else if instruction.state_update == Some(D2mStateUpdate::PostHandshake) {
                (
                    D2mPhase::Payload,
                    Ok(sends::<I, O>(instruction.outgoing_datagram).push(D2mAction::Poll)),
                )
            } else {
                (phase, Ok(sends::<I, O>(instruction.outgoing_datagram).push(D2mAction::Receive)))
            }
        },
        (D2mPhase::Payload, D2mEvent::Polled(None)) => (phase, Ok(seq![D2mAction::Wait])),
        (D2mPhase::Payload, D2mEvent::Polled(Some(instruction))) => instructed(instruction),
        (D2mPhase::Payload, D2mEvent::Created(instruction)) => instructed(instruction),
        (D2mPhase::Payload, D2mEvent::Received(datagram)) => (
            phase,
            Ok(seq![D2mAction::AddDatagram(datagram), D2mAction::Poll]),
        ),
        (D2mPhase::Payload, D2mEvent::Outgoing(payload)) => (
            phase,
            Ok(seq![D2mAction::CreatePayload(payload)]),
        ),
        _ => (phase, Err(D2mErrorView::OutOfTurn)),
    }
}

/// Whether a step had the expected outcome.
pub open spec fn stepped<I, O>(
    expected: (D2mPhase, Result<Seq<D2mAction<I, O>>, D2mErrorView>),
    phase: D2mPhase,
    result: Result<Vec<D2mAction<I, O>>, D2mError>,
) -> bool {
    &&& phase == expected.0
    &&& match expected.1 {
        Ok(actions) => result matches Ok(done) && done@ =~= actions,
        Err(error) => result matches Err(returned) && returned@ == error,
    }
}

/// Drives the connection to the mediator.
pub struct D2mProtocolRunner {
    phase: D2mPhase,
}

impl View for D2mProtocolRunner {
    type V = D2mPhase;

    closed spec fn view(&self) -> D2mPhase {
        self.phase
    }
}

impl D2mProtocolRunner {
    /// A connection whose handshake begins: the mediator speaks first.
    pub fn new<I, O>() -> (started: (D2mProtocolRunner, Vec<D2mAction<I, O>>))
        ensures
            started.0@ == D2mPhase::Handshake,
            started.1@ == seq![D2mAction::<I, O>::Receive],
    {
        let actions: Vec<D2mAction<I, O>> = vec![D2mAction::Receive];
        (D2mProtocolRunner { phase: D2mPhase::Handshake }, actions)
    }

    /// The phase that the connection is in.
    pub fn phase(&self) -> (phase: D2mPhase)
        ensures
            phase == self@,
    {
        self.phase
    }

    fn run_handshake_flow<I, O>(&mut self, polled: Option<D2mInstruction<I>>) -> (result: Result<
        Vec<D2mAction<I, O>>,
        D2mError,
    >)
        requires
            old(self)@ == D2mPhase::Handshake,
        ensures
            stepped(
                d2m_next::<I, O>(old(self)@, D2mEvent::Polled(polled)),
                final(self)@,
                result,
            ),
    {
        let mut actions: Vec<D2mAction<I, O>> = Vec::new();
        let instruction = match polled {
            Some(instruction) => instruction,
            None => {
                actions.push(D2mAction::Receive);
                return Ok(actions);
            },
        };
        if instruction.incoming_payload.is_some() {
            self.phase = D2mPhase::Closed;
            return Err(
                D2mError::Failed("Unexpected incoming payload during handshake".to_owned()),
            );
        }
        if let Some(datagram) = instruction.outgoing_datagram {
            actions.push(D2mAction::Send(datagram));
        }
        match instruction.state_update {
            Some(D2mStateUpdate::PostHandshake) => {
                self.phase = D2mPhase::Payload;
                actions.push(D2mAction::Poll);
            },
            _ => {
                actions.push(D2mAction::Receive);
            },
        }
        Ok(actions)
    }

    fn run_payload_flow<I, O>(&mut self, event: D2mEvent<I, O>) -> (result: Result<
        Vec<D2mAction<I, O>>,
        D2mError,
    >)
        requires
            old(self)@ == D2mPhase::Payload,
        ensures
            stepped(d2m_next::<I, O>(old(self)@, event), final(self)@, result),
    {
        let mut actions: Vec<D2mAction<I, O>> = Vec::new();
        let instruction = match event {
            D2mEvent::Polled(Some(instruction)) => instruction,
            D2mEvent::Created(instruction) => instruction,
            D2mEvent::Polled(None) => {
                actions.push(D2mAction::Wait);
                return Ok(actions);
            },
            D2mEvent::Received(datagram) => {
                actions.push(D2mAction::AddDatagram(datagram));
                actions.push(D2mAction::Poll);
                return Ok(actions);
            },
            D2mEvent::Outgoing(payload) => {
                actions.push(D2mAction::CreatePayload(payload));
                return Ok(actions);
            },
        };
        if instruction.state_update.is_some() {
            self.phase = D2mPhase::Closed;
            return Err(D2mError::Failed("Unexpected state update after handshake".to_owned()));
        }
        if let Some(payload) = instruction.incoming_payload {
            actions.push(D2mAction::Forward(payload));
        }
        if let Some(datagram) = instruction.outgoing_datagram {
            actions.push(D2mAction::Send(datagram));
        }
        actions.push(D2mAction::Poll);
        Ok(actions)
    }

    /// Goes on after an event: handshake first, then payload flow.
    pub fn run<I, O>(&mut self, event: D2mEvent<I, O>) -> (result: Result<
        Vec<D2mAction<I, O>>,
        D2mError,
    >)
        ensures
            stepped(d2m_next::<I, O>(old(self)@, event), final(self)@, result),
    {
        match self.phase {
            D2mPhase::Handshake => match event {
                D2mEvent::Polled(polled) => self.run_handshake_flow(polled),
                _ => Err(D2mError::OutOfTurn),
            },
            D2mPhase::Payload => self.run_payload_flow(event),
            D2mPhase::Closed => Err(D2mError::OutOfTurn),
        }
    }
}

/// What the protocol asks for in an event, if it asks for something.
pub open spec fn instruction_of<I, O>(event: D2mEvent<I, O>) -> Option<D2mInstruction<I>> {
    match event {
        D2mEvent::Polled(instruction) => instruction,
        D2mEvent::Created(instruction) => Some(instruction),
        _ => None,
    }
}

/// Every payload is relayed: once the handshake is complete, a payload from the mediator, however
/// the protocol came upon it, is handed to the message flow before anything else is done, and a
/// payload of the message flow is created as it is.
pub proof fn payloads_are_relayed<I, O>(
    event: D2mEvent<I, O>,
    instruction: D2mInstruction<I>,
    incoming: I,
    outgoing: O,
)
    requires
        instruction_of(event) == Some(instruction),
        instruction.state_update is None,
        instruction.incoming_payload == Some(incoming),
    ensures
        ({
            let received = d2m_next::<I, O>(D2mPhase::Payload, event);
            &&& received.0 == D2mPhase::Payload
            &&& received.1 matches Ok(actions)
            &&& actions.first() == D2mAction::<I, O>::Forward(incoming)
        }),
        d2m_next::<I, O>(D2mPhase::Payload, D2mEvent::Outgoing(outgoing)) == (
            D2mPhase::Payload,
            Ok::<Seq<D2mAction<I, O>>, D2mErrorView>(seq![D2mAction::CreatePayload(outgoing)]),
        ),
{
}

/// Nothing is handed to the message flow before the handshake is complete, and once the connection
/// is closed it stays closed.
pub proof fn nothing_is_forwarded_early<I, O>(phase: D2mPhase, event: D2mEvent<I, O>)
    requires
        phase != D2mPhase::Payload,
    ensures
        d2m_next(phase, event).1 matches Ok(actions) ==> forall|i: int|
            0 <= i < actions.len() ==> !((#[trigger] actions[i]) is Forward),
        phase == D2mPhase::Closed ==> d2m_next(phase, event) == (
            phase,
            Err::<Seq<D2mAction<I, O>>, D2mErrorView>(D2mErrorView::OutOfTurn),
        ),
{
}

// Whole runs
// ----------
/// The phase after some events.
pub open spec fn phase_after<I, O>(phase: D2mPhase, events: Seq<D2mEvent<I, O>>) -> D2mPhase
    decreases events.len(),
{
    if events.len() == 0 {
        phase
    } else {
        d2m_next(phase_after(phase, events.drop_last()), events.last()).0
    }
}

/// The payloads that some actions hand to the message flow, in order.
pub open spec fn handed_over<I, O>(actions: Seq<D2mAction<I, O>>) -> Seq<I>
    decreases actions.len(),
{
    if actions.len() == 0 {
        Seq::empty()
    } else {
        let front = handed_over(actions.drop_last());
        match actions.last() {
            D2mAction::Forward(payload) => front.push(payload),
            _ => front,
        }
    }
}

/// The payloads that some actions have created, in order.
pub open spec fn created_by<I, O>(actions: Seq<D2mAction<I, O>>) -> Seq<O>
    decreases actions.len(),
{
    if actions.len() == 0 {
        Seq::empty()
    } else {
        let front = created_by(actions.drop_last());
        match actions.last() {
            D2mAction::CreatePayload(payload) => front.push(payload),
            _ => front,
        }
    }
}

/// The payloads that are handed to the message flow in the course of some events, in order.
pub open spec fn forwarded<I, O>(phase: D2mPhase, events: Seq<D2mEvent<I, O>>) -> Seq<I>
    decreases events.len(),
{
    if events.len() == 0 {
        Seq::empty()
    } else {
        let front = forwarded(phase, events.drop_last());
        match d2m_next(phase_after(phase, events.drop_last()), events.last()).1 {
            Ok(actions) => front + handed_over(actions),
            Err(_) => front,
        }
    }
}

/// The payload of the mediator that an event carries after the handshake, if it carries one, but
/// not together with a change of state.
pub open spec fn incoming_of<I, O>(event: D2mEvent<I, O>) -> Option<I> {
    match instruction_of(event) {
        Some(instruction) => if instruction.state_update is None {
            instruction.incoming_payload
        } else {
            None
        },
        None => None,
    }
}

/// The payloads of the mediator that were received after the handshake in the course of some
/// events, in order.
pub open spec fn received<I, O>(phase: D2mPhase, events: Seq<D2mEvent<I, O>>) -> Seq<I>
    decreases events.len(),
{
    if events.len() == 0 {
        Seq::empty()
    } else {
        let front = received(phase, events.drop_last());
        match incoming_of(events.last()) {
            Some(payload) => if phase_after(phase, events.drop_last()) == D2mPhase::Payload {
                front.push(payload)
            } else {
                front
            },
            None => front,
        }
    }
}

/// The payloads that are created in the course of some events, in order.
pub open spec fn created<I, O>(phase: D2mPhase, events: Seq<D2mEvent<I, O>>) -> Seq<O>
    decreases events.len(),
{
    if events.len() == 0 {
        Seq::empty()
    } else {
        let front = created(phase, events.drop_last());
        match d2m_next(phase_after(phase, events.drop_last()), events.last()).1 {
            Ok(actions) => front + created_by(actions),
            Err(_) => front,
        }
    }
}

/// The payloads that the message flow wanted to be sent after the handshake in the course of some
/// events, in order.
pub open spec fn wanted<I, O>(phase: D2mPhase, events: Seq<D2mEvent<I, O>>) -> Seq<O>
    decreases events.len(),
{
    if events.len() == 0 {
        Seq::empty()
    } else {
        let front = wanted(phase, events.drop_last());
        match events.last() {
            D2mEvent::Outgoing(payload) => if phase_after(phase, events.drop_last())
                == D2mPhase::Payload {
                front.push(payload)
            } else {
                front
            },
            _ => front,
        }
    }
}

/// Over a whole run, exactly the payloads that the mediator sends after the handshake are handed
/// to the message flow, and exactly the payloads of the message flow are created for the mediator,
/// both unchanged and in order.
pub proof fn payloads_are_relayed_in_order<I, O>(phase: D2mPhase, events: Seq<D2mEvent<I, O>>)
    ensures
        forwarded(phase, events) == received(phase, events),
        created(phase, events) == wanted(phase, events),
    decreases events.len(),
{
    if events.len() > 0 {
        let before = events.drop_last();
        payloads_are_relayed_in_order(phase, before);
        lemma_step_relays(phase_after(phase, before), events.last());
        let front = received(phase, before);
        assert(front + Seq::empty() =~= front);
        if let Some(payload) = incoming_of(events.last()) {
            assert(front + seq![payload] =~= front.push(payload));
        }
        let asked = wanted(phase, before);
        assert(asked + Seq::empty() =~= asked);
        if let D2mEvent::Outgoing(payload) = events.last() {
            assert(asked + seq![payload] =~= asked.push(payload));
        }
    }
}

/// What a single step hands to the message flow, and what it creates.
proof fn lemma_step_relays<I, O>(phase: D2mPhase, event: D2mEvent<I, O>)
    ensures
        ({
            let actions = match d2m_next(phase, event).1 {
                Ok(actions) => actions,
                Err(_) => Seq::empty(),
            };
            &&& handed_over(actions) == match incoming_of(event) {
                Some(payload) => if phase == D2mPhase::Payload {
                    seq![payload]
                } else {
                    Seq::empty()
                },
                None => Seq::empty(),
            }
            &&& created_by(actions) == match event {
                D2mEvent::Outgoing(payload) => if phase == D2mPhase::Payload {
                    seq![payload]
                } else {
                    Seq::empty()
                },
                _ => Seq::empty(),
            }
        }),
{
    reveal_with_fuel(handed_over, 4);
    reveal_with_fuel(created_by, 4);
    if let Ok(actions) = d2m_next(phase, event).1 {
        assert(actions.len() <= 3);
        if actions.len() >= 2 {
            assert(actions.drop_last().last() == actions[actions.len() - 2]);
        }
        if actions.len() >= 3 {
            assert(actions.drop_last().drop_last().last() == actions[actions.len() - 3]);
        }
    }
}

/// What comes of receiving messages of the WebSocket protocol one after the other: the bytes of
/// the pongs that are sent, in order, and what the reception ends with, if it has ended.
pub ghost struct Reception {
    pub pongs: Seq<Vec<u8>>,
    pub result: Option<Result<Vec<u8>, Seq<char>>>,
}

/// What comes of some messages; those after the end of the reception are left alone.
pub open spec fn reception(messages: Seq<Option<WebSocketMessage>>) -> Reception
    decreases messages.len(),
{
    if messages.len() == 0 {
        Reception { pongs: Seq::empty(), result: None }
    } else {
        let before = reception(messages.drop_last());
        if before.result is Some {
            before
        } else {
            match classified(messages.last()) {
                Ok(Received::Datagram(bytes)) => Reception { result: Some(Ok(bytes)), ..before },
                Ok(Received::Pong(bytes)) => Reception {
                    pongs: before.pongs.push(bytes),
                    ..before
                },
                Ok(Received::Next) => before,
                Err(error) => Reception { result: Some(Err(error)), ..before },
            }
        }
    }
}

/// Whether a message is one that the reception goes on after.
pub open spec fn passes(message: Option<WebSocketMessage>) -> bool {
    match message {
        Some(WebSocketMessage::Ping(_)) => true,
        Some(WebSocketMessage::Pong) => true,
        Some(WebSocketMessage::Close) => true,
        _ => false,
    }
}

/// The bytes of the pings among some messages, in order.
pub open spec fn ping_bytes(messages: Seq<Option<WebSocketMessage>>) -> Seq<Vec<u8>>
    decreases messages.len(),
{
    if messages.len() == 0 {
        Seq::empty()
    } else {
        let front = ping_bytes(messages.drop_last());
        match messages.last() {
            Some(WebSocketMessage::Ping(bytes)) => front.push(bytes),
            _ => front,
        }
    }
}

/// However many pings, pongs and closes come first, the reception goes on, and every ping is
/// answered by a pong with the same bytes, in order; the first binary message after them is the
/// datagram, and anything else, or the end of the stream, is an error.
pub proof fn first_binary_message_is_received(
    passing: Seq<Option<WebSocketMessage>>,
    last: Option<WebSocketMessage>,
)
    requires
        forall|i: int| 0 <= i < passing.len() ==> passes(#[trigger] passing[i]),
        !passes(last),
    ensures
        reception(passing) == (Reception { pongs: ping_bytes(passing), result: None }),
        reception(passing.push(last)).pongs == ping_bytes(passing),
        match last {
            Some(WebSocketMessage::Binary(bytes)) => reception(passing.push(last)).result == Some(
                Ok::<Vec<u8>, Seq<char>>(bytes),
            ),
            _ => reception(passing.push(last)).result matches Some(Err(_)),
        },
    decreases passing.len(),
{
    if passing.len() > 0 {
        let front = passing.drop_last();
        assert forall|i: int| 0 <= i < front.len() implies passes(#[trigger] front[i]) by {
            assert(front[i] == passing[i]);
        }
        first_binary_message_is_received(front, last);
        assert(passes(passing[passing.len() - 1]));
    }
    assert(passing.push(last).drop_last() =~= passing);
}

/// What comes after the end of a reception does not change it.
pub proof fn reception_is_final(
    messages: Seq<Option<WebSocketMessage>>,
    more: Option<WebSocketMessage>,
)
    requires
        reception(messages).result is Some,
    ensures
        reception(messages.push(more)) == reception(messages),
{
    assert(messages.push(more).drop_last() =~= messages);
}

} // verus!
