//! The message flow, step by step.

use threema_cli::contact::{Contact, ContactEnums, EnumValues};
use threema_cli::csp::{IncomingPayloadForCspE2e, MessageAck, OutgoingPayloadForCspE2e};
use threema_cli::d2d::{
    Content, ConversationId, Envelope, MessageType, Opened, ProtocolVersion, UpdateKind,
    handle_reflected_envelope,
};
use threema_cli::e2e::{
    CspE2eProtocolRunner, CspE2eRunnerDeps, Expects, build_envelope, normalized_identity,
    now_unix_ms, outgoing_text_content, reflect_ack_id, store_lookup_failed,
};
use threema_cli::flow::{
    BeginTransactionInstruction, ContactChange, ContactsResponse, D2mIncomingPayload,
    D2mOutgoingPayload, Delivery, Draft, Effect, Input, LookupResult, ReflectPayload, RunnerError,
    TaskResponse, TaskStep,
};
use threema_cli::model::{Nonce, PublicKey, ThreemaId};
use threema_cli::store::{ContactStore, FileRead, NonceScope, NonceStore, ProviderError};
use threema_cli::{Command, Conversation, Event, Recipient};

type Heard = Input<u32, String>;
type Wanted = Effect<u32, String>;

struct Bench {
    runner: CspE2eProtocolRunner<String>,
    contacts: ContactStore,
    nonces: NonceStore,
}

impl Bench {
    fn new() -> Bench {
        Bench {
            runner: CspE2eProtocolRunner::new(CspE2eRunnerDeps { device_id: 5 }),
            contacts: empty_contacts(),
            nonces: NonceStore::load(FileRead::Missing, "nonces.json").unwrap(),
        }
    }

    fn with_friend() -> Bench {
        let mut bench = Bench::new();
        bench.contacts.add(vec![friend()]).unwrap();
        bench
    }

    fn hear(&mut self, input: Heard) -> Vec<Wanted> {
        self.runner.run(&mut self.contacts, &mut self.nonces, input).expect("the flow goes on")
    }

    fn fail(&mut self, input: Heard) -> String {
        match self.runner.run(&mut self.contacts, &mut self.nonces, input) {
            Err(RunnerError::Failed(text)) => text,
            _ => panic!("the flow should have failed"),
        }
    }

    fn out_of_turn(&mut self, input: Heard) -> bool {
        matches!(
            self.runner.run(&mut self.contacts, &mut self.nonces, input),
            Err(RunnerError::OutOfTurn)
        )
    }

    fn send(&mut self, to: &str, text: &str) -> Vec<Wanted> {
        self.hear(Input::Command(Some(Command::SendText {
            to: Recipient::Contact { identity: to.to_owned() },
            text: text.to_owned(),
        })))
    }

    fn uses(&mut self, scope: NonceScope, nonce: [u8; 24]) -> bool {
        self.nonces.scoped(scope).has(&Nonce(nonce)).unwrap()
    }

    /// Sends "hi" to FRIENDLY up to where its announcement was reflected.
    fn announce(&mut self, message: Result<String, String>) {
        self.send("FRIENDLY", "hi");
        self.hear(Input::IdentityParsed(Some(identity("FRIENDLY"))));
        self.hear(Input::Encrypted {
            message_id: 42,
            created_at: 1_700_000_000_000,
            nonce: Nonce([1; 24]),
            message,
        });
        self.hear(Input::NoncesSaved(Ok(())));
        self.hear(Input::Sealed(Some((vec![9, 9], Nonce([2; 24])))));
        self.hear(Input::NoncesSaved(Ok(())));
    }
}

fn identity(text: &str) -> ThreemaId {
    ThreemaId { text: text.to_owned() }
}

fn values() -> EnumValues {
    EnumValues { fallback: 0, known: vec![0, 1] }
}

fn empty_contacts() -> ContactStore {
    let enums = ContactEnums {
        verification_level: values(),
        work_verification_level: values(),
        identity_type: values(),
        acquaintance_level: values(),
        activity_state: values(),
        sync_state: values(),
        conversation_category: values(),
        conversation_visibility: values(),
    };
    ContactStore::load(FileRead::Missing, "contacts.json", identity("USERUSER"), enums)
        .expect("load empty contact store")
}

fn friend() -> Contact {
    Contact {
        identity: identity("FRIENDLY"),
        public_key: PublicKey([8; 32]),
        created_at: 1,
        first_name: None,
        last_name: None,
        nickname: Some("Fred".to_owned()),
        verification_level: 0,
        work_verification_level: 0,
        identity_type: 0,
        acquaintance_level: 0,
        activity_state: 0,
        feature_mask: 0,
        sync_state: 0,
        conversation_category: 0,
        conversation_visibility: 0,
    }
}

fn d2m(payload: D2mIncomingPayload) -> Heard {
    Input::D2m(Some(payload))
}

fn ack(reflect_id: u32) -> Heard {
    d2m(D2mIncomingPayload::ReflectAck { reflect_id })
}

fn message_ack(receiver: &str, message_id: u64) -> Heard {
    Input::Csp(Some(IncomingPayloadForCspE2e::MessageAck(MessageAck {
        sender_identity: identity(receiver),
        message_id,
    })))
}

fn refusal(effects: Vec<Wanted>) -> (Conversation, String) {
    assert_eq!(effects.len(), 1);
    match effects.into_iter().next() {
        Some(Effect::Emit(Event::SendFailed { conversation, reason })) => (conversation, reason),
        _ => panic!("the send should have been reported as failed"),
    }
}

fn polled(step: TaskStep) -> Heard {
    Input::TaskPolled(Ok(step))
}

/// The envelopes that this client reflects for its own sends must round-trip through the same path
/// that handles envelopes reflected by sibling devices.
#[test]
fn reflected_outgoing_text_round_trips_through_d2d() {
    let delivery: Delivery<String> = Delivery {
        draft: Draft {
            receiver: identity("ECHOECHO"),
            identity: "ECHOECHO".to_owned(),
            text: "hello from this client".to_owned(),
        },
        message_id: 42,
        created_at: 1_700_000_000_000,
        nonce: Nonce([9_u8; 24]),
        message: Ok("box".to_owned()),
    };
    let envelope = build_envelope(1, outgoing_text_content(&delivery));
    assert_eq!(envelope.device_id, 1);
    assert!(envelope.protocol_version == ProtocolVersion::V03);

    let mut contacts = empty_contacts();
    let reflection = handle_reflected_envelope(Opened::Envelope(envelope), &mut contacts)
        .expect("decrypting and decoding our own envelope should succeed");
    let message = match reflection.event.expect("an event should have been emitted") {
        Event::TextMessage(message) => message,
        _ => panic!("the emitted event should be a text message"),
    };
    assert!(message.outgoing);
    assert_eq!(message.timestamp_ms, 1_700_000_000_000);
    assert_eq!(message.text, "hello from this client");
    assert!(
        matches!(message.conversation, Conversation::Contact { ref identity, .. } if identity == "ECHOECHO")
    );
}

#[test]
fn a_message_to_a_known_contact_is_sent() {
    let mut bench = Bench::with_friend();
    assert!(bench.runner.expects() == Expects::Anything);
    // The identity is used in upper case.
    let parse = bench.send("friendly", "hi");
    assert!(matches!(&parse[..], [Effect::ParseIdentity(text)] if text == "FRIENDLY"));
    assert!(bench.runner.expects() == Expects::Answer);
    let encrypt = bench.hear(Input::IdentityParsed(Some(identity("FRIENDLY"))));
    assert!(matches!(
        &encrypt[..],
        [Effect::Encrypt { receiver, public_key, text }]
            if receiver.text == "FRIENDLY" && public_key.0 == [8; 32] && text == "hi"
    ));

    // The nonce is recorded before anything is sent.
    let save = bench.hear(Input::Encrypted {
        message_id: 42,
        created_at: 1_700_000_000_000,
        nonce: Nonce([1; 24]),
        message: Ok("box".to_owned()),
    });
    assert!(matches!(&save[..], [Effect::SaveNonces]));
    assert!(bench.uses(NonceScope::CspE2e, [1; 24]));
    assert!(!bench.uses(NonceScope::D2x, [1; 24]));

    let seal = bench.hear(Input::NoncesSaved(Ok(())));
    let message = match &seal[..] {
        [Effect::Seal(Envelope { device_id: 5, content: Some(Content::OutgoingMessage(message)), .. })] => message,
        _ => panic!("the message should be announced"),
    };
    assert_eq!(message.message_id, 42);
    assert_eq!(message.created_at, 1_700_000_000_000);
    assert_eq!(message.body, b"hi".to_vec());
    assert_eq!(message.nonces, vec![vec![1_u8; 24]]);
    assert_eq!(message.thread_message_id, None);
    assert!(message.message_type == MessageType::Text);
    assert!(matches!(&message.conversation, Some(ConversationId::Contact(id)) if id.text == "FRIENDLY"));

    let save = bench.hear(Input::Sealed(Some((vec![9, 9], Nonce([2; 24])))));
    assert!(matches!(&save[..], [Effect::SaveNonces]));
    assert!(bench.uses(NonceScope::D2x, [2; 24]));
    let reflect = bench.hear(Input::NoncesSaved(Ok(())));
    assert!(matches!(
        &reflect[..],
        [Effect::SendD2m(D2mOutgoingPayload::Reflect { ephemeral: false, reflect_id: 0x8000_0001, envelope })]
            if envelope == &vec![9, 9]
    ));
    assert!(bench.runner.expects() == Expects::D2m);

    // Only the mediator's acknowledgement hands the message to the chat server.
    assert!(bench.hear(d2m(D2mIncomingPayload::ReflectionQueueDry)).is_empty());
    let deliver = bench.hear(ack(0x8000_0001));
    assert!(matches!(
        &deliver[..],
        [Effect::SendCsp(OutgoingPayloadForCspE2e::Message(message))] if message == "box"
    ));
    assert!(bench.runner.expects() == Expects::Anything);

    // An acknowledgement for something else means nothing.
    assert!(bench.hear(message_ack("FRIENDLY", 41)).is_empty());
    let update = bench.hear(message_ack("FRIENDLY", 42));
    match &update[..] {
        [Effect::Seal(Envelope { content: Some(Content::OutgoingMessageUpdate(updates)), .. })] => {
            assert_eq!(updates.len(), 1);
            assert_eq!(updates[0].message_id, 42);
            assert!(updates[0].update == Some(UpdateKind::Sent));
        }
        _ => panic!("the siblings should be told"),
    }
    bench.hear(Input::Sealed(Some((vec![7], Nonce([3; 24])))));
    let reflect = bench.hear(Input::NoncesSaved(Ok(())));
    assert!(matches!(
        &reflect[..],
        [Effect::SendD2m(D2mOutgoingPayload::Reflect { reflect_id: 0x8000_0002, .. })]
    ));
    let report = bench.hear(ack(0x8000_0002));
    match report.into_iter().next() {
        Some(Effect::Emit(Event::TextMessage(message))) => {
            assert!(message.outgoing);
            assert_eq!(message.text, "hi");
            assert_eq!(message.timestamp_ms, 1_700_000_000_000);
            assert_eq!(message.sender_identity, None);
            assert!(matches!(
                message.conversation,
                Conversation::Contact { identity, name: Some(name) } if identity == "FRIENDLY" && name == "Fred"
            ));
        }
        _ => panic!("the message should be reported as sent"),
    }
    // It is not waited for any more: it is not reported again.
    assert!(bench.hear(message_ack("FRIENDLY", 42)).is_empty());
    assert!(bench.hear(message_ack("FRIENDLY", 42)).is_empty());
    assert!(bench.runner.expects() == Expects::Anything);
    assert!(bench.uses(NonceScope::D2x, [3; 24]));
}

#[test]
fn an_unknown_recipient_is_looked_up_and_created() {
    let mut bench = Bench::new();
    bench.send("ECHOECHO", "hi");
    let lookup = bench.hear(Input::IdentityParsed(Some(identity("ECHOECHO"))));
    assert!(matches!(&lookup[..], [Effect::LookUp(asked)] if asked.text == "ECHOECHO"));
    let create = bench.hear(Input::LookedUp(Ok(LookupResult::NewContact(PublicKey([4; 32])))));
    assert!(matches!(&create[..], [Effect::StartCreate(created), Effect::PollTask] if created.text == "ECHOECHO"));
    // Creating a contact asks for nothing but its transaction.
    assert!(bench.out_of_turn(polled(TaskStep::FetchSender)));
    let begin = bench.hear(polled(TaskStep::BeginTransaction(
        ContactChange::Create,
        BeginTransactionInstruction::BeginTransaction { encrypted_scope: vec![1], ttl: 0 },
    )));
    assert!(matches!(
        &begin[..],
        [Effect::SendD2m(D2mOutgoingPayload::BeginTransaction { ttl: None, .. })]
    ));
    bench.hear(d2m(D2mIncomingPayload::BeginTransactionAck));
    let encrypt = bench.hear(polled(TaskStep::Done(None)));
    assert!(matches!(
        &encrypt[..],
        [Effect::Encrypt { public_key, text, .. }] if public_key.0 == [4; 32] && text == "hi"
    ));
}

fn lookup_refusal(result: Result<LookupResult, String>) -> String {
    let mut bench = Bench::new();
    bench.send("ECHOECHO", "hi");
    bench.hear(Input::IdentityParsed(Some(identity("ECHOECHO"))));
    let (conversation, reason) = refusal(bench.hear(Input::LookedUp(result)));
    assert!(matches!(
        conversation,
        Conversation::Contact { identity, name: None } if identity == "ECHOECHO"
    ));
    assert!(bench.runner.expects() == Expects::Anything);
    reason
}

#[test]
fn recipients_that_cannot_be_messaged_are_reported() {
    assert_eq!(
        lookup_refusal(Err("no network".to_owned())),
        "Looking ECHOECHO up failed: no network"
    );
    assert_eq!(lookup_refusal(Ok(LookupResult::User)), "Cannot send a message to yourself");
    assert_eq!(
        lookup_refusal(Ok(LookupResult::Invalid(identity("ECHOECHO")))),
        "ECHOECHO does not exist or has been revoked"
    );
    assert_eq!(
        lookup_refusal(Ok(LookupResult::NotFound)),
        "The directory returned no result for ECHOECHO"
    );
}

#[test]
fn a_contact_that_the_directory_knows_of_is_sent_to() {
    let mut bench = Bench::new();
    bench.send("ECHOECHO", "hi");
    bench.hear(Input::IdentityParsed(Some(identity("ECHOECHO"))));
    let encrypt = bench.hear(Input::LookedUp(Ok(LookupResult::ExistingContact(PublicKey([6; 32])))));
    assert!(matches!(&encrypt[..], [Effect::Encrypt { public_key, .. }] if public_key.0 == [6; 32]));
}

#[test]
fn invalid_recipients_are_reported() {
    let mut bench = Bench::new();
    bench.send("nope", "hi");
    let (conversation, reason) = refusal(bench.hear(Input::IdentityParsed(None)));
    assert_eq!(reason, "'NOPE' is not a valid Threema ID");
    assert!(matches!(conversation, Conversation::Contact { identity, name: None } if identity == "NOPE"));

    let (conversation, reason) = refusal(bench.hear(Input::Command(Some(Command::SendText {
        to: Recipient::Group { creator_identity: "CREATORR".to_owned(), group_id: 3 },
        text: "hi".to_owned(),
    }))));
    assert_eq!(reason, "Group messages are not supported yet");
    assert!(matches!(
        conversation,
        Conversation::Group { creator_identity, group_id: 3 } if creator_identity == "CREATORR"
    ));
}

#[test]
fn a_refused_store_lookup_is_reported() {
    let mut bench = Bench::new();
    bench.send("useruser", "hi");
    let effects = bench.hear(Input::IdentityParsed(Some(identity("USERUSER"))));
    assert!(matches!(
        &effects[..],
        [Effect::ReportStoreError { identity, error: ProviderError::InvalidParameter(_) }] if identity == "USERUSER"
    ));
    assert!(bench.runner.expects() == Expects::Anything);
    assert!(matches!(
        store_lookup_failed("USERUSER".to_owned(), "why"),
        Event::SendFailed { reason, .. } if reason == "Contact store lookup failed: why"
    ));
}

#[test]
fn a_message_that_cannot_be_encoded_ends_the_flow() {
    let mut bench = Bench::with_friend();
    bench.announce(Err("too long".to_owned()));
    assert_eq!(bench.fail(ack(0x8000_0001)), "Encoding outgoing message failed: too long");
    assert!(bench.runner.expects() == Expects::Nothing);
    assert!(bench.out_of_turn(Input::Command(None)));
}

#[test]
fn unrecorded_nonces_end_the_flow() {
    let mut bench = Bench::with_friend();
    bench.send("FRIENDLY", "hi");
    bench.hear(Input::IdentityParsed(Some(identity("FRIENDLY"))));
    bench.hear(Input::Encrypted {
        message_id: 1,
        created_at: 2,
        nonce: Nonce([1; 24]),
        message: Ok("box".to_owned()),
    });
    assert_eq!(
        bench.fail(Input::NoncesSaved(Err("disk full".to_owned()))),
        "Failed to record CSP nonce: disk full"
    );

    let mut bench = Bench::with_friend();
    bench.announce(Ok("box".to_owned()));
    bench.hear(ack(0x8000_0001));
    bench.hear(message_ack("FRIENDLY", 42));
    bench.hear(Input::Sealed(Some((vec![7], Nonce([3; 24])))));
    assert_eq!(
        bench.fail(Input::NoncesSaved(Err("disk full".to_owned()))),
        "Failed to record D2X nonce: disk full"
    );
}

#[test]
fn lost_connections_and_failed_work_end_the_flow() {
    assert_eq!(Bench::new().fail(Input::Csp(None)), "CSP incoming channel closed");
    assert_eq!(Bench::new().fail(Input::D2m(None)), "D2M incoming channel closed");
    let mut bench = Bench::with_friend();
    bench.announce(Ok("box".to_owned()));
    assert_eq!(
        bench.fail(Input::D2m(None)),
        "Reflecting to the mediator failed: D2M incoming channel closed"
    );
    let mut bench = Bench::new();
    bench.hear(Input::Csp(Some(IncomingPayloadForCspE2e::Message(7))));
    assert_eq!(bench.fail(Input::TaskPolled(Err("broken".to_owned()))), "broken");
    let mut bench = Bench::with_friend();
    bench.announce(Ok("box".to_owned()));
    bench.hear(ack(0x8000_0001));
    bench.hear(message_ack("FRIENDLY", 42));
    assert_eq!(bench.fail(Input::Sealed(None)), "Encrypting reflect envelope failed");
}

#[test]
fn shutting_down_is_clean() {
    let mut bench = Bench::new();
    assert!(bench.hear(Input::Command(Some(Command::Shutdown))).is_empty());
    assert!(bench.runner.expects() == Expects::Nothing);
    let mut bench = Bench::new();
    assert!(bench.hear(Input::Command(None)).is_empty());
    assert!(bench.runner.expects() == Expects::Nothing);
}

#[test]
fn commands_wait_for_what_is_under_way() {
    let mut bench = Bench::new();
    bench.hear(Input::Csp(Some(IncomingPayloadForCspE2e::Message(7))));
    assert!(bench.out_of_turn(Input::Command(Some(Command::Shutdown))));
    assert!(bench.out_of_turn(message_ack("FRIENDLY", 42)));
    let acked = bench.hear(polled(TaskStep::Done(Some(MessageAck {
        sender_identity: identity("FRIENDLY"),
        message_id: 3,
    }))));
    assert!(matches!(
        &acked[..],
        [Effect::SendCsp(OutgoingPayloadForCspE2e::MessageAck(ack))] if ack.message_id == 3
    ));
    assert!(bench.hear(Input::Command(Some(Command::Shutdown))).is_empty());
}

#[test]
fn incoming_messages_run_their_task() {
    let mut bench = Bench::new();
    let start = bench.hear(Input::Csp(Some(IncomingPayloadForCspE2e::Message(7))));
    assert!(matches!(&start[..], [Effect::StartIncoming(7), Effect::PollTask]));
    let fetch = bench.hear(polled(TaskStep::FetchSender));
    assert!(matches!(&fetch[..], [Effect::FetchSender, Effect::PollTask]));
    assert!(bench.hear(polled(TaskStep::Done(None))).is_empty());
}

fn reflection(id: u32, ephemeral: bool) -> ReflectPayload {
    ReflectPayload { ephemeral, id, envelope: vec![id as u8] }
}

#[test]
fn reflections_wait_for_every_acknowledgement_that_is_due() {
    let mut bench = Bench::new();
    bench.hear(Input::Csp(Some(IncomingPayloadForCspE2e::Message(7))));
    let sent = bench.hear(polled(TaskStep::ReflectMessage(vec![
        reflection(1, false),
        reflection(2, true),
        reflection(3, false),
    ])));
    assert_eq!(sent.len(), 3);
    assert!(matches!(
        &sent[1],
        Effect::SendD2m(D2mOutgoingPayload::Reflect { ephemeral: true, reflect_id: 2, envelope }) if envelope == &vec![2]
    ));
    assert!(bench.hear(ack(3)).is_empty());
    assert_eq!(bench.hear(d2m(D2mIncomingPayload::RolePromotedToLeader)).len(), 2);
    let resumed = bench.hear(ack(1));
    assert!(matches!(
        &resumed[..],
        [Effect::RespondTask(TaskResponse::ReflectMessage { acknowledged_reflect_ids }), Effect::PollTask]
            if acknowledged_reflect_ids == &vec![3, 1]
    ));
    // Nothing is due for what is ephemeral.
    let at_once = bench.hear(polled(TaskStep::ReflectMessage(vec![reflection(4, true)])));
    assert!(matches!(
        &at_once[..],
        [
            Effect::SendD2m(_),
            Effect::RespondTask(TaskResponse::ReflectMessage { acknowledged_reflect_ids }),
            Effect::PollTask
        ] if acknowledged_reflect_ids.is_empty()
    ));
}

#[test]
fn transactions_are_begun_committed_and_aborted() {
    let mut bench = Bench::new();
    bench.hear(Input::Csp(Some(IncomingPayloadForCspE2e::Message(7))));
    let begin = bench.hear(polled(TaskStep::BeginTransaction(
        ContactChange::Update,
        BeginTransactionInstruction::BeginTransaction { encrypted_scope: vec![1, 2], ttl: 30 },
    )));
    assert!(matches!(
        &begin[..],
        [Effect::SendD2m(D2mOutgoingPayload::BeginTransaction { encrypted_scope, ttl: Some(30) })]
            if encrypted_scope == &vec![1, 2]
    ));
    let rejected = bench.hear(d2m(D2mIncomingPayload::TransactionRejected {
        device_id: 11,
        encrypted_scope: vec![5],
    }));
    assert!(matches!(
        &rejected[..],
        [
            Effect::RespondTask(TaskResponse::Contacts(
                ContactChange::Update,
                ContactsResponse::TransactionRejected { device_id: 11, encrypted_scope }
            )),
            Effect::PollTask
        ] if encrypted_scope == &vec![5]
    ));
    assert!(
        bench
            .hear(polled(TaskStep::BeginTransaction(
                ContactChange::Update,
                BeginTransactionInstruction::TransactionRejected,
            )))
            .is_empty()
    );
    assert!(bench.hear(d2m(D2mIncomingPayload::CommitTransactionAck)).is_empty());
    let ended = bench.hear(d2m(D2mIncomingPayload::TransactionEnded));
    assert!(matches!(&ended[..], [Effect::PollTask]));

    let commit = bench.hear(polled(TaskStep::ReflectAndCommitTransaction(
        ContactChange::Update,
        vec![reflection(1, false)],
    )));
    assert!(matches!(
        &commit[..],
        [
            Effect::SendD2m(D2mOutgoingPayload::Reflect { reflect_id: 1, .. }),
            Effect::SendD2m(D2mOutgoingPayload::CommitTransaction)
        ]
    ));
    assert!(bench.hear(ack(1)).is_empty());
    let committed = bench.hear(d2m(D2mIncomingPayload::CommitTransactionAck));
    assert!(matches!(
        &committed[..],
        [
            Effect::RespondTask(TaskResponse::Contacts(
                ContactChange::Update,
                ContactsResponse::CommitTransactionResponse { acknowledged_reflect_ids }
            )),
            Effect::PollTask
        ] if acknowledged_reflect_ids == &vec![1]
    ));

    let abort = bench.hear(polled(TaskStep::BeginTransaction(
        ContactChange::Create,
        BeginTransactionInstruction::AbortTransaction,
    )));
    assert!(matches!(&abort[..], [Effect::SendD2m(D2mOutgoingPayload::CommitTransaction)]));
    let aborted = bench.hear(d2m(D2mIncomingPayload::CommitTransactionAck));
    assert!(matches!(
        &aborted[..],
        [
            Effect::RespondTask(TaskResponse::Contacts(
                ContactChange::Create,
                ContactsResponse::AbortTransactionResponse
            )),
            Effect::PollTask
        ]
    ));
}

#[test]
fn reflected_envelopes_are_always_acknowledged() {
    let mut bench = Bench::new();
    let broken = bench.hear(d2m(D2mIncomingPayload::Reflected {
        reflect_id: 12,
        opened: Opened::NotDecrypted,
    }));
    assert!(matches!(
        &broken[..],
        [Effect::SendD2m(D2mOutgoingPayload::ReflectedAck { reflect_id: 12 })]
    ));

    let mut bench = Bench::with_friend();
    bench.announce(Ok("box".to_owned()));
    let delivery: Delivery<String> = Delivery {
        draft: Draft {
            receiver: identity("FRIENDLY"),
            identity: "FRIENDLY".to_owned(),
            text: "from the phone".to_owned(),
        },
        message_id: 1,
        created_at: 2,
        nonce: Nonce([4; 24]),
        message: Ok(String::new()),
    };
    let envelope = build_envelope(77, outgoing_text_content(&delivery));
    let handled = bench.hear(d2m(D2mIncomingPayload::Reflected {
        reflect_id: 13,
        opened: Opened::Envelope(envelope),
    }));
    assert!(matches!(
        &handled[..],
        [
            Effect::Emit(Event::TextMessage(message)),
            Effect::SendD2m(D2mOutgoingPayload::ReflectedAck { reflect_id: 13 })
        ] if message.text == "from the phone"
    ));
    assert!(bench.runner.expects() == Expects::D2m);
}

#[test]
fn the_leader_asks_for_withheld_messages() {
    let mut bench = Bench::new();
    let effects = bench.hear(d2m(D2mIncomingPayload::RolePromotedToLeader));
    assert!(matches!(
        &effects[..],
        [
            Effect::PromoteToLeader,
            Effect::SendCsp(OutgoingPayloadForCspE2e::UnblockIncomingMessages)
        ]
    ));
}

#[test]
fn identities_are_used_in_upper_case() {
    assert_eq!(normalized_identity("*echo0aZ"), "*ECHO0AZ");
    assert_eq!(normalized_identity("gr\u{fc}n"), "GR\u{dc}N");
}

#[test]
fn small_helpers() {
    assert_eq!(now_unix_ms(1_700_000_000, 999_999_999), 1_700_000_000_999);
    assert_eq!(now_unix_ms(0, 0), 0);
    assert_eq!(reflect_ack_id(&D2mIncomingPayload::ReflectAck { reflect_id: 6 }), Some(6));
    assert_eq!(reflect_ack_id(&D2mIncomingPayload::ReflectionQueueDry), None);
}
