//! The connection to the chat server: what to do next in the handshake and in the payload flow.
//!
//! The caller owns the TCP stream and the protocol's encryption. It performs the [`CspAction`]s in
//! order and hands back what came of them.

use vstd::prelude::*;
use vstd::string::*;

use crate::model::ThreemaId;

verus! {

/// Acknowledges a message. For a message that the user sent, `sender_identity` is the receiver.
#[derive(Debug, Clone)]
pub struct MessageAck {
    pub sender_identity: ThreemaId,
    pub message_id: u64,
}

impl View for MessageAck {
    type V = (Seq<char>, u64);

    open spec fn view(&self) -> (Seq<char>, u64) {
        (self.sender_identity@, self.message_id)
    }
}

/// Payloads from the chat server that concern the message flow. `B` is an encrypted message with
/// its metadata.
#[derive(Debug, Clone)]
pub enum IncomingPayloadForCspE2e<B> {
    Message(B),
    MessageAck(MessageAck),
}

/// Payloads that the message flow sends to the chat server. `M` is an encrypted message.
#[derive(Debug, Clone)]
pub enum OutgoingPayloadForCspE2e<M> {
    MessageAck(MessageAck),
    Message(M),
    UnblockIncomingMessages,
}

/// A payload from the chat server.
#[derive(Debug, Clone)]
pub enum IncomingPayload<B> {
    EchoRequest(Vec<u8>),
    EchoResponse(Vec<u8>),
    MessageWithMetadataBox(B),
    MessageAck(MessageAck),
    QueueSendComplete,
    DeviceCookieChangeIndication,
    CloseError,
    ServerAlert,
    UnknownPayload,
}

/// A payload to the chat server.
#[derive(Debug, Clone)]
pub enum OutgoingPayload<M> {
    EchoResponse(Vec<u8>),
    MessageAck(MessageAck),
    Message(M),
    UnblockIncomingMessages,
}

impl<M> From<OutgoingPayloadForCspE2e<M>> for OutgoingPayload<M> {
    fn from(payload: OutgoingPayloadForCspE2e<M>) -> (outgoing: OutgoingPayload<M>) {
        match payload {
            OutgoingPayloadForCspE2e::MessageAck(message_ack) => OutgoingPayload::MessageAck(
                message_ack,
            ),
            OutgoingPayloadForCspE2e::Message(message) => OutgoingPayload::Message(message),
            OutgoingPayloadForCspE2e::UnblockIncomingMessages => {
                OutgoingPayload::UnblockIncomingMessages
            },
        }
    }
}

impl<M> vstd::std_specs::convert::FromSpecImpl<OutgoingPayloadForCspE2e<M>> for OutgoingPayload<M> {
    open spec fn obeys_from_spec() -> bool {
        true
    }

    open spec fn from_spec(payload: OutgoingPayloadForCspE2e<M>) -> OutgoingPayload<M> {
        match payload {
            OutgoingPayloadForCspE2e::MessageAck(message_ack) => OutgoingPayload::MessageAck(
                message_ack,
            ),
            OutgoingPayloadForCspE2e::Message(message) => OutgoingPayload::Message(message),
            OutgoingPayloadForCspE2e::UnblockIncomingMessages => {
                OutgoingPayload::UnblockIncomingMessages
            },
        }
    }
}

/// A change of the protocol's state.
#[derive(Debug, Clone, Copy, PartialEq, Eq, Structural)]
pub enum CspStateUpdate {
    /// The handshake is complete.
    PostHandshake,
    Other,
}

/// What the protocol asks for after it was polled or a payload was created.
#[derive(Debug)]
pub struct CspInstruction<B> {
    pub state_update: Option<CspStateUpdate>,
    pub incoming_payload: Option<IncomingPayload<B>>,
    pub outgoing_frame: Option<Vec<u8>>,
}

/// What came of an attempt to read from the stream.
#[derive(Debug)]
pub enum ReadOutcome {
    /// So many bytes were read. None at all means that the other side closed its end.
    Read(usize),
    /// Nothing is available.
    WouldBlock,
    Failed(String),
}

/// What came of the caller's actions, or happened while it waited.
#[derive(Debug)]
pub enum CspEvent<B, M> {
    /// The protocol was polled.
    Polled(Option<CspInstruction<B>>),
    /// A payload was created.
    Created(CspInstruction<B>),
    /// The stream was readable and an attempt to read was made.
    Read(ReadOutcome),
    /// The message flow wants a payload to be sent, or is gone.
    Outgoing(Option<OutgoingPayloadForCspE2e<M>>),
}

/// What the caller has to do.
#[derive(Debug)]
pub enum CspAction<B, M> {
    /// Send these bytes.
    Send(Vec<u8>),
    /// Read as many bytes as the protocol requires, hand them to it and poll it.
    ReceiveRequired,
    /// Hand the first bytes of the read buffer to the protocol.
    AddChunk(usize),
    /// Poll the protocol.
    Poll,
    /// Wait until the stream is readable or the message flow wants to send something.
    Wait,
    /// Create a payload. What comes of it is the next event.
    CreatePayload(OutgoingPayload<M>),
    /// Hand a payload to the message flow.
    Forward(IncomingPayloadForCspE2e<B>),
    /// Close the stream.
    Shutdown,
}

/// Why the connection cannot go on.
#[derive(Debug)]
pub enum CspError {
    /// The event does not fit the phase that the connection is in. Nothing has changed.
    OutOfTurn,
    Failed(String),
}

/// The mathematical value of a [`CspError`].
pub ghost enum CspErrorView {
    OutOfTurn,
    Failed(Seq<char>),
}

impl View for CspError {
    type V = CspErrorView;

    open spec fn view(&self) -> CspErrorView {
        match self {
            CspError::OutOfTurn => CspErrorView::OutOfTurn,
            CspError::Failed(text) => CspErrorView::Failed(text@),
        }
    }
}

/// The phases of the connection.
#[derive(Debug, Clone, Copy, PartialEq, Eq, Structural)]
pub enum CspPhase {
    Handshake,
    Payload,
    Closed,
}

/// The bytes to send, if there are some.
pub open spec fn sends<B, M>(frame: Option<Vec<u8>>) -> Seq<CspAction<B, M>> {
    match frame {
        Some(frame) => seq![CspAction::Send(frame)],
        None => Seq::empty(),
    }
}

/// What to do with a payload from the chat server: answer an echo request, hand over what concerns
/// the message flow, and leave the rest alone.
pub open spec fn payload_actions<B, M>(payload: Option<IncomingPayload<B>>) -> Seq<CspAction<B, M>> {
    match payload {
        Some(IncomingPayload::EchoRequest(echo)) => seq![
            CspAction::CreatePayload(OutgoingPayload::EchoResponse(echo)),
        ],
        Some(IncomingPayload::MessageWithMetadataBox(message)) => seq![
            CspAction::Forward(IncomingPayloadForCspE2e::Message(message)),
        ],
        Some(IncomingPayload::MessageAck(ack)) => seq![
            CspAction::Forward(IncomingPayloadForCspE2e::MessageAck(ack)),
        ],
        _ => Seq::empty(),
    }
}

/// What to do after the handshake about what the protocol asks for.
pub open spec fn instructed<B, M>(instruction: CspInstruction<B>) -> Result<
    Seq<CspAction<B, M>>,
    CspErrorView,
> {
    if instruction.state_update is Some {
        Err(CspErrorView::Failed("Unexpected state update after handshake"@))
    } else {
        let done = payload_actions::<B, M>(instruction.incoming_payload) + sends(
            instruction.outgoing_frame,
        );
        // The instruction that an echo response gives comes next by itself.
        if instruction.incoming_payload matches Some(IncomingPayload::EchoRequest(_)) {
            Ok(done)
        } else {
            Ok(done.push(CspAction::Poll))
        }
    }
}

/// How many bytes an attempt to read brought; none if nothing is available. That the other side
/// closed its end is an error.
pub open spec fn bytes_read(outcome: ReadOutcome) -> Result<usize, Seq<char>> {
    match outcome {
        ReadOutcome::Read(length) => if length == 0 {
            Err("TCP reading end closed"@)
        } else {
            Ok(length)
        },
        ReadOutcome::WouldBlock => Ok(0),
        ReadOutcome::Failed(error) => Err(error@),
    }
}

/// The phase after an event, and what to do.
pub open spec fn csp_next<B, M>(phase: CspPhase, event: CspEvent<B, M>) -> (
    CspPhase,
    Result<Seq<CspAction<B, M>>, CspErrorView>,
) {
    match (phase, event) {
        (CspPhase::Handshake, CspEvent::Polled(None)) => (
            phase,
            Ok(seq![CspAction::ReceiveRequired]),
        ),
        (CspPhase::Handshake, CspEvent::Polled(Some(instruction))) => {
            if instruction.incoming_payload is Some {
                (
                    CspPhase::Closed,
                    Err(CspErrorView::Failed("Unexpected incoming payload during handshake"@)),
                )
            } else if instruction.state_update == Some(CspStateUpdate::PostHandshake) {
                (
                    CspPhase::Payload,
                    Ok(sends::<B, M>(instruction.outgoing_frame).push(CspAction::Poll)),
                )
            } else {
                (phase, Ok(sends::<B, M>(instruction.outgoing_frame).push(CspAction::ReceiveRequired)))
            }
        },
        (CspPhase::Payload, CspEvent::Polled(None)) => (phase, Ok(seq![CspAction::Wait])),
        (CspPhase::Payload, CspEvent::Polled(Some(instruction))) => (
            if instruction.state_update is Some {
                CspPhase::Closed
            } else {
                phase
            },
            instructed(instruction),
        ),
        (CspPhase::Payload, CspEvent::Created(instruction)) => (
            if instruction.state_update is Some {
                CspPhase::Closed
            } else {
                phase
            },
            instructed(instruction),
        ),
        (CspPhase::Payload, CspEvent::Read(outcome)) => match bytes_read(outcome) {
            Ok(length) => (phase, Ok(seq![CspAction::AddChunk(length), CspAction::Poll])),
            Err(error) => (CspPhase::Closed, Err(CspErrorView::Failed(error))),
        },
        (CspPhase::Payload, CspEvent::Outgoing(Some(payload))) => (
            phase,
            Ok(
                seq![
                    CspAction::CreatePayload(
                        <OutgoingPayload<M> as vstd::std_specs::convert::FromSpec<
                            OutgoingPayloadForCspE2e<M>,
                        >>::from_spec(payload),
                    ),
                ],
            ),
        ),
        (CspPhase::Payload, CspEvent::Outgoing(None)) => (
            CspPhase::Closed,
            Ok(seq![CspAction::Shutdown]),
        ),
        _ => (phase, Err(CspErrorView::OutOfTurn)),
    }
}

/// The address to connect to: the first one.
pub fn first_address(addresses: &Vec<(String, u16)>) -> (address: &(String, u16))
    requires
        addresses@.len() > 0,
    ensures
        *address == addresses@[0],
{
    &addresses[0]
}

/// How many bytes there are beyond the required ones, given what an attempt to read more brought.
/// Where none are required, none are read. That the other side closed its end is an error.
pub open spec fn more_bytes(required: usize, outcome: ReadOutcome) -> Result<usize, Seq<char>> {
    if required == 0 {
        Ok(0)
    } else {
        bytes_read(outcome)
    }
}

/// Takes what an attempt to read more than the required bytes brought: how many more there are.
pub fn receive_required(required: usize, outcome: ReadOutcome) -> (more: Result<usize, String>)
    ensures
        match more_bytes(required, outcome) {
            Ok(length) => more == Ok::<usize, String>(length),
            Err(text) => more matches Err(error) && error@ == text,
        },
{
    if required == 0 {
        return Ok(0);
    }
    try_receive(outcome)
}

/// Takes what an attempt to read brought: how many bytes there are. Nothing being available is no
/// error, but that the other side closed its end is: the connection has ended.
pub fn try_receive(outcome: ReadOutcome) -> (length: Result<usize, String>)
    ensures
        match bytes_read(outcome) {
            Ok(read) => length == Ok::<usize, String>(read),
            Err(text) => length matches Err(error) && error@ == text,
        },
{
    match outcome {
        ReadOutcome::Read(0) => Err("TCP reading end closed".to_owned()),
        ReadOutcome::Read(length) => Ok(length),
        ReadOutcome::WouldBlock => Ok(0),
        ReadOutcome::Failed(error) => Err(error),
    }
}

/// Drives the connection to the chat server.
pub struct CspProtocolRunner {
    phase: CspPhase,
}

impl View for CspProtocolRunner {
    type V = CspPhase;

    closed spec fn view(&self) -> CspPhase {
        self.phase
    }
}

impl CspProtocolRunner {
    /// A connection whose handshake begins with the given hello.
    pub fn new<B, M>(client_hello: Vec<u8>) -> (started: (CspProtocolRunner, Vec<CspAction<B, M>>))
        ensures
            started.0@ == CspPhase::Handshake,
            started.1@ == seq![CspAction::<B, M>::Send(client_hello), CspAction::ReceiveRequired],
    {
        let actions: Vec<CspAction<B, M>> = vec![
            CspAction::Send(client_hello),
            CspAction::ReceiveRequired,
        ];
        (CspProtocolRunner { phase: CspPhase::Handshake }, actions)
    }

    /// The phase that the connection is in.
    pub fn phase(&self) -> (phase: CspPhase)
        ensures
            phase == self@,
    {
        self.phase
    }

    fn run_handshake_flow<B, M>(&mut self, polled: Option<CspInstruction<B>>) -> (result: Result<
        Vec<CspAction<B, M>>,
        CspError,
    >)
        requires
            old(self)@ == CspPhase::Handshake,
        ensures
            stepped(
                csp_next::<B, M>(old(self)@, CspEvent::Polled(polled)),
                final(self)@,
                result,
            ),
    {
        let mut actions: Vec<CspAction<B, M>> = Vec::new();
        let instruction = match polled {
            Some(instruction) => instruction,
            None => {
                actions.push(CspAction::ReceiveRequired);
                return Ok(actions);
            },
        };
        if instruction.incoming_payload.is_some() {
            self.phase = CspPhase::Closed;
            return Err(
                CspError::Failed("Unexpected incoming payload during handshake".to_owned()),
            );
        }
        if let Some(frame) = instruction.outgoing_frame {
            actions.push(CspAction::Send(frame));
        }
        match instruction.state_update {
            Some(CspStateUpdate::PostHandshake) => {
                self.phase = CspPhase::Payload;
                actions.push(CspAction::Poll);
            },
            _ => {
                actions.push(CspAction::ReceiveRequired);
            },
        }
        Ok(actions)
    }

    fn handle_instruction<B, M>(&mut self, instruction: CspInstruction<B>) -> (result: Result<
        Vec<CspAction<B, M>>,
        CspError,
    >)
        requires
            old(self)@ == CspPhase::Payload,
        ensures
            stepped(
                csp_next::<B, M>(old(self)@, CspEvent::Created(instruction)),
                final(self)@,
                result,
            ),
    {
        if instruction.state_update.is_some() {
            self.phase = CspPhase::Closed;
            return Err(CspError::Failed("Unexpected state update after handshake".to_owned()));
        }
        let mut actions: Vec<CspAction<B, M>> = Vec::new();
        let mut poll = true;
        match instruction.incoming_payload {
            Some(IncomingPayload::EchoRequest(echo)) => {
                poll = false;
                actions.push(CspAction::CreatePayload(OutgoingPayload::EchoResponse(echo)));
            },
            Some(IncomingPayload::MessageWithMetadataBox(message)) => {
                actions.push(CspAction::Forward(IncomingPayloadForCspE2e::Message(message)));
            },
            Some(IncomingPayload::MessageAck(ack)) => {
                actions.push(CspAction::Forward(IncomingPayloadForCspE2e::MessageAck(ack)));
            },
            _ => {},
        }
        if let Some(frame) = instruction.outgoing_frame {
            actions.push(CspAction::Send(frame));
        }
        if poll {
            actions.push(CspAction::Poll);
        }
        Ok(actions)
    }

    fn run_payload_flow<B, M>(&mut self, event: CspEvent<B, M>) -> (result: Result<
        Vec<CspAction<B, M>>,
        CspError,
    >)
        requires
            old(self)@ == CspPhase::Payload,
        ensures
            stepped(csp_next::<B, M>(old(self)@, event), final(self)@, result),
    {
        let mut actions: Vec<CspAction<B, M>> = Vec::new();
        match event {
            CspEvent::Polled(Some(instruction)) => {
                return self.handle_instruction(instruction);
            },
            CspEvent::Created(instruction) => {
                return self.handle_instruction(instruction);
            },
            CspEvent::Polled(None) => {
                actions.push(CspAction::Wait);
            },
            CspEvent::Read(outcome) => match try_receive(outcome) {
                Ok(length) => {
                    actions.push(CspAction::AddChunk(length));
                    actions.push(CspAction::Poll);
                },
                Err(error) => {
                    self.phase = CspPhase::Closed;
                    return Err(CspError::Failed(error));
                },
            },
            CspEvent::Outgoing(Some(payload)) => {
                actions.push(CspAction::CreatePayload(OutgoingPayload::from(payload)));
            },
            CspEvent::Outgoing(None) => {
                self.phase = CspPhase::Closed;
                actions.push(CspAction::Shutdown);
            },
        }
        Ok(actions)
    }

    /// Goes on after an event: handshake first, then payload flow until the chat server closes the
    /// connection, the connection fails or the message flow is gone.
    pub fn run<B, M>(&mut self, event: CspEvent<B, M>) -> (result: Result<
        Vec<CspAction<B, M>>,
        CspError,
    >)
        ensures
            stepped(csp_next::<B, M>(old(self)@, event), final(self)@, result),
    {
        match self.phase {
            CspPhase::Handshake => match event {
                CspEvent::Polled(polled) => self.run_handshake_flow(polled),
                _ => Err(CspError::OutOfTurn),
            },
            CspPhase::Payload => self.run_payload_flow(event),
            CspPhase::Closed => Err(CspError::OutOfTurn),
        }
    }
}

/// Whether a step had the expected outcome.
pub open spec fn stepped<B, M>(
    expected: (CspPhase, Result<Seq<CspAction<B, M>>, CspErrorView>),
    phase: CspPhase,
    result: Result<Vec<CspAction<B, M>>, CspError>,
) -> bool {
    &&& phase == expected.0
    &&& match expected.1 {
        Ok(actions) => result matches Ok(done) && done@ =~= actions,
        Err(error) => result matches Err(returned) && returned@ == error,
    }
}

/// What the connection ends with, by how the payload flow ended and whether the stream was closed.
pub open spec fn end_of(payload_flow: Result<(), String>, shutdown: Result<(), String>) -> Result<
    (),
    String,
> {
    match shutdown {
        Err(error) => Err(error),
        Ok(_) => payload_flow,
    }
}

/// What the connection ended with: the stream is closed in any case once the handshake is
/// complete, and a failure to close it counts more than what ended the payload flow.
pub fn ended(payload_flow: Result<(), String>, shutdown: Result<(), String>) -> (result: Result<
    (),
    String,
>)
    ensures
        result == match shutdown {
            Err(error) => Err::<(), String>(error),
            Ok(_) => payload_flow,
        },
        result == end_of(payload_flow, shutdown),
{
    match shutdown {
        Err(error) => Err(error),
        Ok(_) => payload_flow,
    }
}

/// An echo request, however the protocol came upon it, is answered with an echo response that
/// carries the same bytes; once the response has been created, its frame is sent.
pub proof fn echo_is_answered<B, M>(
    event: CspEvent<B, M>,
    request: CspInstruction<B>,
    echo: Vec<u8>,
    response: Vec<u8>,
)
    requires
        instruction_of(event) == Some(request),
        request.state_update is None,
        request.incoming_payload == Some(IncomingPayload::<B>::EchoRequest(echo)),
    ensures
        ({
            let created = CspInstruction::<B> {
                state_update: None,
                incoming_payload: None,
                outgoing_frame: Some(response),
            };
            let first = csp_next::<B, M>(CspPhase::Payload, event);
            let second = csp_next::<B, M>(first.0, CspEvent::Created(created));
            &&& first.1 matches Ok(actions)
            &&& actions.first() == CspAction::<B, M>::CreatePayload(
                OutgoingPayload::EchoResponse(echo),
            )
            &&& !actions.contains(CspAction::Poll)
            &&& second == (
                CspPhase::Payload,
                Ok::<Seq<CspAction<B, M>>, CspErrorView>(
                    seq![CspAction::Send(response), CspAction::Poll],
                ),
            )
        }),
{
    let created = CspInstruction::<B> {
        state_update: None,
        incoming_payload: None,
        outgoing_frame: Some(response),
    };
    assert(instructed::<B, M>(created)->Ok_0 =~= seq![CspAction::Send(response), CspAction::Poll]);
}

/// Nothing is handed to the message flow before the handshake is complete, and once the connection
/// is closed it stays closed.
pub proof fn nothing_is_forwarded_early<B, M>(phase: CspPhase, event: CspEvent<B, M>)
    requires
        phase != CspPhase::Payload,
    ensures
        csp_next(phase, event).1 matches Ok(actions) ==> forall|i: int|
            0 <= i < actions.len() ==> !((#[trigger] actions[i]) is Forward),
        phase == CspPhase::Closed ==> csp_next(phase, event) == (
            phase,
            Err::<Seq<CspAction<B, M>>, CspErrorView>(CspErrorView::OutOfTurn),
        ),
{
}

/// The connection ends when the chat server closes its end: no closed connection is waited on.
pub proof fn closed_end_ends_the_connection<B, M>(phase: CspPhase)
    requires
        phase == CspPhase::Payload,
    ensures
        csp_next::<B, M>(phase, CspEvent::Read(ReadOutcome::Read(0))) == (
            CspPhase::Closed,
            Err::<Seq<CspAction<B, M>>, CspErrorView>(
                CspErrorView::Failed("TCP reading end closed"@),
            ),
        ),
{
}

// Whole runs
// ----------
/// The phase after some events.
pub open spec fn phase_after<B, M>(phase: CspPhase, events: Seq<CspEvent<B, M>>) -> CspPhase
    decreases events.len(),
{
    if events.len() == 0 {
        phase
    } else {
        csp_next(phase_after(phase, events.drop_last()), events.last()).0
    }
}

/// The payloads that some actions hand to the message flow, in order.
pub open spec fn forwards<B, M>(actions: Seq<CspAction<B, M>>) -> Seq<IncomingPayloadForCspE2e<B>>
    decreases actions.len(),
{
    if actions.len() == 0 {
        Seq::empty()
    } else {
        let front = forwards(actions.drop_last());
        match actions.last() {
            CspAction::Forward(payload) => front.push(payload),
            _ => front,
        }
    }
}

/// The payloads that are handed to the message flow in the course of some events, in order.
pub open spec fn forwarded<B, M>(phase: CspPhase, events: Seq<CspEvent<B, M>>) -> Seq<
    IncomingPayloadForCspE2e<B>,
>
    decreases events.len(),
{
    if events.len() == 0 {
        Seq::empty()
    } else {
        let front = forwarded(phase, events.drop_last());
        match csp_next(phase_after(phase, events.drop_last()), events.last()).1 {
            Ok(actions) => front + forwards(actions),
            Err(_) => front,
        }
    }
}

/// What the protocol asks for in an event, if it asks for something.
pub open spec fn instruction_of<B, M>(event: CspEvent<B, M>) -> Option<CspInstruction<B>> {
    match event {
        CspEvent::Polled(instruction) => instruction,
        CspEvent::Created(instruction) => Some(instruction),
        _ => None,
    }
}

/// The payload of the message flow that an event after the handshake carries, if it carries one: a
/// message or an acknowledgement, but not together with a change of state.
pub open spec fn concerning<B, M>(event: CspEvent<B, M>) -> Option<IncomingPayloadForCspE2e<B>> {
    match instruction_of(event) {
        Some(instruction) => match (instruction.state_update, instruction.incoming_payload) {
            (None, Some(IncomingPayload::MessageWithMetadataBox(message))) => Some(
                IncomingPayloadForCspE2e::Message(message),
            ),
            (None, Some(IncomingPayload::MessageAck(ack))) => Some(
                IncomingPayloadForCspE2e::MessageAck(ack),
            ),
            _ => None,
        },
        None => None,
    }
}

/// The messages and acknowledgements that were received after the handshake in the course of some
/// events, in order.
pub open spec fn received<B, M>(phase: CspPhase, events: Seq<CspEvent<B, M>>) -> Seq<
    IncomingPayloadForCspE2e<B>,
>
    decreases events.len(),
{
    if events.len() == 0 {
        Seq::empty()
    } else {
        let front = received(phase, events.drop_last());
        match concerning(events.last()) {
            Some(payload) => if phase_after(phase, events.drop_last()) == CspPhase::Payload {
                front.push(payload)
            } else {
                front
            },
            None => front,
        }
    }
}

/// Over a whole run, exactly the messages and acknowledgements that are received after the
/// handshake are handed to the message flow, unchanged and in order.
pub proof fn messages_are_forwarded_in_order<B, M>(phase: CspPhase, events: Seq<CspEvent<B, M>>)
    ensures
        forwarded(phase, events) == received(phase, events),
    decreases events.len(),
{
    if events.len() > 0 {
        messages_are_forwarded_in_order(phase, events.drop_last());
        let front = received(phase, events.drop_last());
        let before = phase_after(phase, events.drop_last());
        lemma_step_forwards(before, events.last());
        assert(front + Seq::empty() =~= front);
        if let Some(payload) = concerning(events.last()) {
            assert(front + seq![payload] =~= front.push(payload));
        }
    }
}

/// What a single step hands to the message flow.
proof fn lemma_step_forwards<B, M>(phase: CspPhase, event: CspEvent<B, M>)
    ensures
        ({
            let handed = match csp_next(phase, event).1 {
                Ok(actions) => forwards(actions),
                Err(_) => Seq::empty(),
            };
            handed == match concerning(event) {
                Some(payload) => if phase == CspPhase::Payload {
                    seq![payload]
                } else {
                    Seq::empty()
                },
                None => Seq::empty(),
            }
        }),
{
    reveal_with_fuel(forwards, 4);
    if let Ok(actions) = csp_next(phase, event).1 {
        assert(actions.len() <= 3);
        if actions.len() >= 1 {
            assert(actions.drop_last().len() == actions.len() - 1);
        }
        if actions.len() >= 2 {
            assert(actions.drop_last().last() == actions[actions.len() - 2]);
        }
        if actions.len() >= 3 {
            assert(actions.drop_last().drop_last().last() == actions[actions.len() - 3]);
        }
    }
}

/// Whether an event can be what comes of some actions: a payload is only taken from the message
/// flow, and the stream only read, while waiting.
pub open spec fn comes_of<B, M>(actions: Seq<CspAction<B, M>>, event: CspEvent<B, M>) -> bool {
    exists|i: int|
        0 <= i < actions.len() && match #[trigger] actions[i] {
            CspAction::ReceiveRequired => event is Polled,
            CspAction::Poll => event is Polled,
            CspAction::CreatePayload(_) => event is Created,
            CspAction::Wait => event is Read || event is Outgoing,
            _ => false,
        }
}

/// An echo request is answered before anything else: what comes of the step that takes it is the
/// echo response with the same bytes, and no payload is taken from the message flow before that.
pub proof fn echo_comes_first<B, M>(
    event: CspEvent<B, M>,
    instruction: CspInstruction<B>,
    echo: Vec<u8>,
    next: CspEvent<B, M>,
)
    requires
        instruction_of(event) == Some(instruction),
        instruction.state_update is None,
        instruction.incoming_payload == Some(IncomingPayload::<B>::EchoRequest(echo)),
    ensures
        ({
            &&& csp_next::<B, M>(CspPhase::Payload, event).1 matches Ok(actions)
            &&& actions.first() == CspAction::<B, M>::CreatePayload(
                OutgoingPayload::EchoResponse(echo),
            )
            &&& comes_of(actions, next) ==> next is Created
        }),
{
}

} // verus!
