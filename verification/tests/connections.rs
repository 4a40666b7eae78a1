//! The connections, the life of the client and the text of the command line.

use threema_cli::cli::{format_text_message, label, parse_send_line};
use threema_cli::client::{RunStep, Served, Stage, begin, block_unknown_identities, end};
use threema_cli::csp::{
    CspAction, CspError, CspEvent, CspInstruction, CspPhase, CspProtocolRunner, CspStateUpdate,
    IncomingPayload, IncomingPayloadForCspE2e, MessageAck, OutgoingPayload,
    OutgoingPayloadForCspE2e, ReadOutcome, ended, first_address, receive_required, try_receive,
};
use threema_cli::d2m::{
    D2mAction, D2mError, D2mEvent, D2mInstruction, D2mPhase, D2mProtocolRunner, D2mStateUpdate,
    Received, WebSocketMessage, check_status, receive,
};
use threema_cli::model::ThreemaId;
use threema_cli::text::decimal_text;
use threema_cli::{Command, Config, Conversation, Event, Recipient, TextMessage, run};

type ChatAction = CspAction<u8, String>;
type ChatEvent = CspEvent<u8, String>;
type SyncAction = D2mAction<u8, String>;
type SyncEvent = D2mEvent<u8, String>;

fn csp_instruction(payload: Option<IncomingPayload<u8>>, frame: Option<Vec<u8>>) -> CspInstruction<u8> {
    CspInstruction { state_update: None, incoming_payload: payload, outgoing_frame: frame }
}

fn connected_csp() -> CspProtocolRunner {
    let (mut runner, _): (CspProtocolRunner, Vec<ChatAction>) = CspProtocolRunner::new(vec![]);
    let done = CspInstruction {
        state_update: Some(CspStateUpdate::PostHandshake),
        incoming_payload: None,
        outgoing_frame: None,
    };
    let event: ChatEvent = CspEvent::Polled(Some(done));
    runner.run(event).unwrap();
    assert!(runner.phase() == CspPhase::Payload);
    runner
}

fn csp(runner: &mut CspProtocolRunner, event: ChatEvent) -> Vec<ChatAction> {
    runner.run(event).expect("the connection goes on")
}

fn csp_failure(runner: &mut CspProtocolRunner, event: ChatEvent) -> String {
    match runner.run(event) {
        Err(CspError::Failed(text)) => text,
        _ => panic!("the connection should have failed"),
    }
}

#[test]
fn chat_server_handshake() {
    let (mut runner, start): (CspProtocolRunner, Vec<ChatAction>) =
        CspProtocolRunner::new(vec![1, 2]);
    assert!(matches!(
        &start[..],
        [CspAction::Send(hello), CspAction::ReceiveRequired] if hello == &vec![1, 2]
    ));
    assert!(matches!(&csp(&mut runner, CspEvent::Polled(None))[..], [CspAction::ReceiveRequired]));
    let login = csp(&mut runner, CspEvent::Polled(Some(csp_instruction(None, Some(vec![3])))));
    assert!(matches!(&login[..], [CspAction::Send(_), CspAction::ReceiveRequired]));
    let event: ChatEvent = CspEvent::Outgoing(None);
    assert!(matches!(runner.run(event), Err(CspError::OutOfTurn)));
    let unexpected = CspEvent::Polled(Some(csp_instruction(Some(IncomingPayload::ServerAlert), None)));
    assert_eq!(
        csp_failure(&mut runner, unexpected),
        "Unexpected incoming payload during handshake"
    );
    assert!(runner.phase() == CspPhase::Closed);
}

#[test]
fn chat_server_payloads() {
    let mut runner = connected_csp();
    assert!(matches!(&csp(&mut runner, CspEvent::Polled(None))[..], [CspAction::Wait]));
    let read = csp(&mut runner, CspEvent::Read(ReadOutcome::Read(100)));
    assert!(matches!(&read[..], [CspAction::AddChunk(100), CspAction::Poll]));
    let none = csp(&mut runner, CspEvent::Read(ReadOutcome::WouldBlock));
    assert!(matches!(&none[..], [CspAction::AddChunk(0), CspAction::Poll]));

    let message = csp_instruction(Some(IncomingPayload::MessageWithMetadataBox(7)), None);
    let forward = csp(&mut runner, CspEvent::Polled(Some(message)));
    assert!(matches!(
        &forward[..],
        [CspAction::Forward(IncomingPayloadForCspE2e::Message(7)), CspAction::Poll]
    ));
    let ack = MessageAck { sender_identity: ThreemaId { text: "ECHOECHO".to_owned() }, message_id: 4 };
    let acked = csp_instruction(Some(IncomingPayload::MessageAck(ack)), None);
    let forward = csp(&mut runner, CspEvent::Polled(Some(acked)));
    assert!(matches!(
        &forward[..],
        [CspAction::Forward(IncomingPayloadForCspE2e::MessageAck(ack)), CspAction::Poll] if ack.message_id == 4
    ));
    let dull = csp_instruction(Some(IncomingPayload::QueueSendComplete), Some(vec![1]));
    assert!(matches!(
        &csp(&mut runner, CspEvent::Polled(Some(dull)))[..],
        [CspAction::Send(_), CspAction::Poll]
    ));
}

#[test]
fn echo_requests_are_answered() {
    let mut runner = connected_csp();
    let request = csp_instruction(Some(IncomingPayload::EchoRequest(vec![5, 6])), None);
    let answer = csp(&mut runner, CspEvent::Polled(Some(request)));
    assert!(matches!(
        &answer[..],
        [CspAction::CreatePayload(OutgoingPayload::EchoResponse(echo))] if echo == &vec![5, 6]
    ));
    let created = csp(&mut runner, CspEvent::Created(csp_instruction(None, Some(vec![9]))));
    assert!(matches!(
        &created[..],
        [CspAction::Send(frame), CspAction::Poll] if frame == &vec![9]
    ));
}

#[test]
fn chat_server_connection_ends() {
    let mut runner = connected_csp();
    let update = CspInstruction {
        state_update: Some(CspStateUpdate::Other),
        incoming_payload: None,
        outgoing_frame: None,
    };
    assert_eq!(
        csp_failure(&mut runner, CspEvent::Polled(Some(update))),
        "Unexpected state update after handshake"
    );
    let mut runner = connected_csp();
    let failed = CspEvent::Read(ReadOutcome::Failed("reset".to_owned()));
    assert_eq!(csp_failure(&mut runner, failed), "reset");
    // The chat server closed its end: the connection has ended and is not waited on any more.
    let mut runner = connected_csp();
    assert_eq!(
        csp_failure(&mut runner, CspEvent::Read(ReadOutcome::Read(0))),
        "TCP reading end closed"
    );
    assert!(runner.phase() == CspPhase::Closed);
    let mut runner = connected_csp();
    assert!(matches!(&csp(&mut runner, CspEvent::Outgoing(None))[..], [CspAction::Shutdown]));
    assert!(runner.phase() == CspPhase::Closed);
    assert_eq!(ended(Err("flow".to_owned()), Ok(())), Err("flow".to_owned()));
    assert_eq!(ended(Ok(()), Err("close".to_owned())), Err("close".to_owned()));
    assert_eq!(ended(Ok(()), Ok(())), Ok(()));
}

#[test]
fn outgoing_payloads_are_created() {
    let mut runner = connected_csp();
    let message = CspEvent::Outgoing(Some(OutgoingPayloadForCspE2e::Message("box".to_owned())));
    assert!(matches!(
        &csp(&mut runner, message)[..],
        [CspAction::CreatePayload(OutgoingPayload::Message(message))] if message == "box"
    ));
    let unblock = CspEvent::Outgoing(Some(OutgoingPayloadForCspE2e::UnblockIncomingMessages));
    assert!(matches!(
        &csp(&mut runner, unblock)[..],
        [CspAction::CreatePayload(OutgoingPayload::UnblockIncomingMessages)]
    ));
    let ack = MessageAck { sender_identity: ThreemaId { text: "ECHOECHO".to_owned() }, message_id: 4 };
    let converted: OutgoingPayload<String> =
        OutgoingPayload::from(OutgoingPayloadForCspE2e::MessageAck(ack));
    assert!(matches!(converted, OutgoingPayload::MessageAck(ack) if ack.message_id == 4));
}

#[test]
fn reading_from_the_chat_server() {
    assert_eq!(receive_required(8, ReadOutcome::Read(3)), Ok(3));
    assert_eq!(receive_required(8, ReadOutcome::WouldBlock), Ok(0));
    assert_eq!(
        receive_required(8, ReadOutcome::Read(0)),
        Err("TCP reading end closed".to_owned())
    );
    assert_eq!(receive_required(8, ReadOutcome::Failed("x".to_owned())), Err("x".to_owned()));
    assert_eq!(receive_required(0, ReadOutcome::Read(0)), Ok(0));
    assert_eq!(
        try_receive(ReadOutcome::Read(0)),
        Err("TCP reading end closed".to_owned())
    );
    assert_eq!(try_receive(ReadOutcome::Read(5)), Ok(5));
    assert_eq!(try_receive(ReadOutcome::WouldBlock), Ok(0));
    assert_eq!(try_receive(ReadOutcome::Failed("x".to_owned())), Err("x".to_owned()));
    let addresses = vec![("a".to_owned(), 1_u16), ("b".to_owned(), 2)];
    assert_eq!(first_address(&addresses), &("a".to_owned(), 1));
}

fn d2m_instruction(payload: Option<u8>, datagram: Option<Vec<u8>>) -> D2mInstruction<u8> {
    D2mInstruction { state_update: None, incoming_payload: payload, outgoing_datagram: datagram }
}

fn d2m(runner: &mut D2mProtocolRunner, event: SyncEvent) -> Vec<SyncAction> {
    runner.run(event).expect("the connection goes on")
}

#[test]
fn mediator_handshake_and_payloads() {
    let (mut runner, start): (D2mProtocolRunner, Vec<SyncAction>) = D2mProtocolRunner::new();
    assert!(matches!(&start[..], [D2mAction::Receive]));
    assert!(matches!(&d2m(&mut runner, D2mEvent::Polled(None))[..], [D2mAction::Receive]));
    let event: SyncEvent = D2mEvent::Outgoing("early".to_owned());
    assert!(matches!(runner.run(event), Err(D2mError::OutOfTurn)));
    let done = D2mInstruction {
        state_update: Some(D2mStateUpdate::PostHandshake),
        incoming_payload: None,
        outgoing_datagram: Some(vec![1]),
    };
    assert!(matches!(
        &d2m(&mut runner, D2mEvent::Polled(Some(done)))[..],
        [D2mAction::Send(_), D2mAction::Poll]
    ));
    assert!(matches!(&d2m(&mut runner, D2mEvent::Polled(None))[..], [D2mAction::Wait]));
    assert!(matches!(
        &d2m(&mut runner, D2mEvent::Received(vec![2]))[..],
        [D2mAction::AddDatagram(datagram), D2mAction::Poll] if datagram == &vec![2]
    ));
    assert!(matches!(
        &d2m(&mut runner, D2mEvent::Polled(Some(d2m_instruction(Some(6), Some(vec![3])))))[..],
        [D2mAction::Forward(6), D2mAction::Send(_), D2mAction::Poll]
    ));
    assert!(matches!(
        &d2m(&mut runner, D2mEvent::Outgoing("out".to_owned()))[..],
        [D2mAction::CreatePayload(payload)] if payload == "out"
    ));
    let update = D2mInstruction {
        state_update: Some(D2mStateUpdate::PostHandshake),
        incoming_payload: None,
        outgoing_datagram: None,
    };
    let event: SyncEvent = D2mEvent::Created(update);
    assert!(matches!(
        runner.run(event),
        Err(D2mError::Failed(text)) if text == "Unexpected state update after handshake"
    ));
    assert!(runner.phase() == D2mPhase::Closed);

    let (mut runner, _): (D2mProtocolRunner, Vec<SyncAction>) = D2mProtocolRunner::new();
    let event: SyncEvent = D2mEvent::Polled(Some(d2m_instruction(Some(6), None)));
    assert!(matches!(
        runner.run(event),
        Err(D2mError::Failed(text)) if text == "Unexpected incoming payload during handshake"
    ));
}

#[test]
fn websocket_messages() {
    assert!(matches!(
        receive(Some(WebSocketMessage::Binary(vec![1]))),
        Ok(Received::Datagram(bytes)) if bytes == vec![1]
    ));
    assert!(matches!(
        receive(Some(WebSocketMessage::Ping(vec![2]))),
        Ok(Received::Pong(bytes)) if bytes == vec![2]
    ));
    assert!(matches!(receive(Some(WebSocketMessage::Pong)), Ok(Received::Next)));
    assert!(matches!(receive(Some(WebSocketMessage::Close)), Ok(Received::Next)));
    assert!(matches!(
        receive(Some(WebSocketMessage::Text("hm".to_owned()))),
        Err(text) if text == "Received unexpected text message: hm"
    ));
    assert!(matches!(
        receive(Some(WebSocketMessage::Frame)),
        Err(text) if text == "Received unexpected raw frame"
    ));
    assert!(matches!(receive(None), Err(text) if text == "WebSocket reading end closed"));
    assert_eq!(check_status(101, "101 Switching Protocols"), Ok(()));
    assert_eq!(
        check_status(404, "404 Not Found"),
        Err("Expected response to switch protocols (101 Switching Protocols), got 404 Not Found".to_owned())
    );
}

fn config(device_id: Option<u64>) -> Config {
    Config { device_id, state_dir: "state".to_owned() }
}

#[test]
fn the_client_starts_in_order() {
    let config = config(Some(1));
    let mut stages = vec![];
    let mut connected = 0;
    let mut step = begin(&config);
    loop {
        let stage = match step {
            RunStep::Perform(stage) => stage,
            RunStep::Connected(event, stage) => {
                assert!(matches!(event, Event::Connected));
                connected += 1;
                stage
            }
            RunStep::Ended(result) => {
                assert!(result.is_ok());
                break;
            }
        };
        stages.push(stage);
        step = run(&config, stage, Ok(()));
    }
    assert_eq!(connected, 1);
    assert_eq!(
        stages,
        vec![
            Stage::CreateStateDir,
            Stage::LoadNonces,
            Stage::LoadContacts,
            Stage::ConfigureChatServer,
            Stage::ConnectChatServer,
            Stage::ConnectMediator,
            Stage::Serve,
        ]
    );
}

fn start_failure(stage: Stage) -> (Option<String>, Option<String>) {
    match run(&config(Some(1)), stage, Err("why".to_owned())) {
        RunStep::Ended(Err(error)) => (error.context, error.cause),
        _ => panic!("the client should have ended"),
    }
}

#[test]
fn a_failed_start_says_where() {
    let why = Some("why".to_owned());
    assert_eq!(
        start_failure(Stage::CreateStateDir),
        (Some("Failed to create state".to_owned()), why.clone())
    );
    assert_eq!(
        start_failure(Stage::LoadNonces),
        (Some("Failed to load nonces.json".to_owned()), why.clone())
    );
    assert_eq!(
        start_failure(Stage::LoadContacts),
        (Some("Failed to load contacts.json".to_owned()), why.clone())
    );
    assert_eq!(
        start_failure(Stage::ConfigureChatServer),
        (Some("CSP configuration should be valid".to_owned()), why.clone())
    );
    assert_eq!(start_failure(Stage::ConnectMediator), (None, why));
    assert!(matches!(
        begin(&config(None)),
        RunStep::Ended(Err(error)) if error.context.as_deref() == Some(
            "Multi-device must be configured: pass --d2x-device-id, --csp-device-id, --device-group-key and --expected-device-slot-state"
        )
    ));
}

#[test]
fn the_client_ends_with_what_ended_first() {
    assert!(end(Served::Messages, Ok(())).is_ok());
    let context = |served: Served| end(served, Err("why".to_owned())).unwrap_err().context;
    assert_eq!(context(Served::ChatServer).as_deref(), Some("CSP connection ended"));
    assert_eq!(context(Served::Mediator).as_deref(), Some("D2M connection ended"));
    assert_eq!(context(Served::Messages).as_deref(), Some("Message processing ended"));
    assert!(!block_unknown_identities().unwrap());
}

fn message(outgoing: bool, conversation: Conversation, name: Option<&str>) -> TextMessage {
    TextMessage {
        timestamp_ms: 1_700_000_000_000,
        outgoing,
        conversation,
        sender_identity: if outgoing { None } else { Some("ECHOECHO".to_owned()) },
        sender_name: name.map(str::to_owned),
        text: "hello".to_owned(),
    }
}

fn contact(name: Option<&str>) -> Conversation {
    Conversation::Contact { identity: "ECHOECHO".to_owned(), name: name.map(str::to_owned) }
}

fn group() -> Conversation {
    Conversation::Group { creator_identity: "CREATORR".to_owned(), group_id: 120 }
}

#[test]
fn messages_are_shown_on_a_line() {
    assert_eq!(label("ECHOECHO", Some("Echo")), "Echo (ECHOECHO)");
    assert_eq!(label("ECHOECHO", None), "ECHOECHO");
    assert_eq!(
        format_text_message(&message(true, contact(Some("Echo")), None)),
        "[1700000000000] me (to Echo (ECHOECHO) [ECHOECHO]): hello"
    );
    assert_eq!(
        format_text_message(&message(true, group(), None)),
        "[1700000000000] me (to group CREATORR/120): hello"
    );
    assert_eq!(
        format_text_message(&message(true, Conversation::DistributionList { id: 7 }, None)),
        "[1700000000000] me (to distribution list 7): hello"
    );
    assert_eq!(
        format_text_message(&message(true, Conversation::Unknown, None)),
        "[1700000000000] me (to <unknown conversation>): hello"
    );
    assert_eq!(
        format_text_message(&message(false, contact(None), Some("Echo"))),
        "[1700000000000] Echo (ECHOECHO) [ECHOECHO]: hello"
    );
    assert_eq!(
        format_text_message(&message(false, group(), None)),
        "[1700000000000] ECHOECHO [ECHOECHO] (group CREATORR/120): hello"
    );
    let mut nobody = message(false, Conversation::Unknown, None);
    nobody.sender_identity = None;
    assert_eq!(format_text_message(&nobody), "[1700000000000] <unknown> [<unknown>]: hello");
}

#[test]
fn numbers_are_written_in_decimal() {
    for number in [0, 9, 10, 99, 100, 1_700_000_000_000, u64::MAX] {
        assert_eq!(decimal_text(number), format!("{number}"));
    }
}

#[test]
fn lines_ask_for_messages_to_be_sent() {
    let parsed = |line: &str| match parse_send_line(line) {
        Some(Command::SendText { to: Recipient::Contact { identity }, text }) => Some((identity, text)),
        _ => None,
    };
    assert_eq!(
        parsed("ECHOECHO hello there"),
        Some(("ECHOECHO".to_owned(), "hello there".to_owned()))
    );
    assert_eq!(parsed("echo  \u{fc}"), Some(("echo".to_owned(), " \u{fc}".to_owned())));
    assert_eq!(parsed("\u{fc} x"), Some(("\u{fc}".to_owned(), "x".to_owned())));
    assert_eq!(parsed(""), None);
    assert_eq!(parsed("ECHOECHO"), None);
    assert_eq!(parsed("ECHOECHO "), None);
    assert_eq!(parsed(" hello"), None);
}

#[test]
fn messages_are_forwarded_unchanged_and_in_order() {
    let mut runner = connected_csp();
    let mut forwarded = vec![];
    for payload in [
        IncomingPayload::MessageWithMetadataBox(3),
        IncomingPayload::QueueSendComplete,
        IncomingPayload::MessageWithMetadataBox(1),
        IncomingPayload::EchoRequest(vec![]),
        IncomingPayload::MessageWithMetadataBox(2),
    ] {
        for action in csp(&mut runner, CspEvent::Polled(Some(csp_instruction(Some(payload), None)))) {
            if let CspAction::Forward(IncomingPayloadForCspE2e::Message(message)) = action {
                forwarded.push(message);
            }
        }
    }
    assert_eq!(forwarded, vec![3, 1, 2]);
}

#[test]
fn pings_are_answered_until_a_datagram_arrives() {
    let mut pongs = vec![];
    let mut datagram = None;
    for message in [
        WebSocketMessage::Ping(vec![1]),
        WebSocketMessage::Pong,
        WebSocketMessage::Close,
        WebSocketMessage::Ping(vec![2]),
        WebSocketMessage::Binary(vec![3]),
    ] {
        match receive(Some(message)).unwrap() {
            Received::Datagram(bytes) => datagram = Some(bytes),
            Received::Pong(bytes) => pongs.push(bytes),
            Received::Next => {}
        }
    }
    assert_eq!(pongs, vec![vec![1], vec![2]]);
    assert_eq!(datagram, Some(vec![3]));
}
