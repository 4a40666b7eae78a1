//! The message flow: receiving and sending messages, and keeping the sibling devices informed.
//!
//! [`CspE2eProtocolRunner`] decides what to do. Encryption, the directory, the connections and the
//! files are the caller's: it performs the [`Effect`]s in order and hands back what came of them
//! as the next [`Input`].

use vstd::prelude::*;
use vstd::string::*;

use crate::command::{Command, Recipient};
use crate::conversation::{self, contact_name};
use crate::csp::{IncomingPayloadForCspE2e, MessageAck, OutgoingPayloadForCspE2e};
use crate::d2d::{
    self, handle_reflected_envelope, Content, ContentView, ConversationId, ConversationIdView, Envelope,
    EnvelopeView, MessageType, Opened, OutgoingMessage, OutgoingMessageUpdate,
    OutgoingMessageUpdateView, OutgoingMessageView, ProtocolVersion, UpdateKind,
};
use crate::event::{Conversation, ConversationView, Event, EventView, TextMessage, TextMessageView};
use crate::flow::{
    self, AfterReflect, AfterReflectView, Announcement, AnnouncementView, BeginTransactionInstruction,
    ContactChange, ContactsResponse, ContactsResponseView, D2mIncomingPayload, D2mOutgoingPayload,
    Delivery, DeliveryView, Draft, DraftView, Effect, EffectView, Flow, FlowView, Input,
    LookupResult, PendingSend, PendingSendView, Purpose, PurposeView, ReflectPayload, RunnerError,
    RunnerErrorView, TaskResponse, TaskResponseView, TaskStep, Waiting, WaitingView,
};
use crate::model::{IdentityText, IdentityTextView, MessageKey, Nonce, PublicKey, ThreemaId};
use crate::store::{ContactStore, ContactStoreView, NonceScope, NonceStore, NoncesView};
use crate::table::Table;
use crate::text::{self, concat3, to_uppercase};

verus! {

// Envelopes
// ---------
/// Milliseconds since the Unix epoch, given the seconds and the nanoseconds within the second.
pub fn now_unix_ms(seconds: u64, nanoseconds: u32) -> (milliseconds: u64)
    requires
        nanoseconds < 1_000_000_000,
        seconds * 1000 + nanoseconds as int / 1_000_000 <= u64::MAX,
    ensures
        milliseconds == seconds * 1000 + nanoseconds as int / 1_000_000,
{
    seconds * 1000 + (nanoseconds / 1_000_000) as u64
}

/// Identifies the conversation with a contact.
pub open spec fn contact_conversation(identity: Seq<char>, receiver: Seq<char>) -> ConversationIdView {
    ConversationIdView::Contact(IdentityTextView { text: identity, identity: Some(receiver) })
}

/// Identifies the conversation with a contact.
pub fn contact_conversation_id(identity: &str, receiver: &ThreemaId) -> (id: ConversationId)
    ensures
        id@ == contact_conversation(identity@, receiver@),
{
    ConversationId::Contact(
        IdentityText { text: identity.to_owned(), identity: Some(receiver.duplicate()) },
    )
}

/// What the siblings are told about a plain-text message that is being sent. The body carries the
/// text in the clear; the nonce is that of the encrypted message, for the siblings to record.
pub open spec fn outgoing_text<M>(delivery: DeliveryView<M>) -> ContentView {
    ContentView::OutgoingMessage(
        OutgoingMessageView {
            conversation: Some(
                contact_conversation(delivery.draft.identity, delivery.draft.receiver),
            ),
            message_id: delivery.message_id,
            thread_message_id: None,
            created_at: delivery.created_at,
            message_type: MessageType::Text,
            body: vstd::utf8::encode_utf8(delivery.draft.text),
            nonces: seq![delivery.nonce],
        },
    )
}

/// What the siblings are told about a plain-text message that is being sent.
pub fn outgoing_text_content<M>(delivery: &Delivery<M>) -> (content: Content)
    ensures
        content@ == outgoing_text(delivery@),
{
    let nonce: Vec<u8> = vstd::slice::slice_to_vec(delivery.nonce.0.as_slice());
    let nonces: Vec<Vec<u8>> = vec![nonce];
    let content = Content::OutgoingMessage(
        OutgoingMessage {
            conversation: Some(
                contact_conversation_id(delivery.draft.identity.as_str(), &delivery.draft.receiver),
            ),
            message_id: delivery.message_id,
            thread_message_id: None,
            created_at: delivery.created_at,
            message_type: MessageType::Text,
            body: delivery.draft.text.as_str().as_bytes_vec(),
            nonces,
        },
    );
    proof {
        assert(nonce@ =~= delivery.nonce@);
        assert(nonces@.map_values(|nonce: Vec<u8>| nonce@) =~= seq![delivery.nonce@]);
    }
    content
}

/// What the siblings are told about a message that the chat server accepted.
pub open spec fn sent_update(identity: Seq<char>, receiver: Seq<char>, message_id: u64) -> ContentView {
    ContentView::OutgoingMessageUpdate(
        seq![
            OutgoingMessageUpdateView {
                conversation: Some(contact_conversation(identity, receiver)),
                message_id,
                update: Some(UpdateKind::Sent),
            },
        ],
    )
}

/// What the siblings are told about a message that the chat server accepted.
pub fn sent_update_content(identity: &str, receiver: &ThreemaId, message_id: u64) -> (content: Content)
    ensures
        content@ == sent_update(identity@, receiver@, message_id),
{
    let updates: Vec<OutgoingMessageUpdate> = vec![
        OutgoingMessageUpdate {
            conversation: Some(contact_conversation_id(identity, receiver)),
            message_id,
            update: Some(UpdateKind::Sent),
        },
    ];
    proof {
        assert(updates@.map_values(|update: OutgoingMessageUpdate| update@) =~= seq![
            updates@[0]@,
        ]);
    }
    Content::OutgoingMessageUpdate(updates)
}

/// This device's envelope with some content.
pub open spec fn envelope(device_id: u64, content: ContentView) -> EnvelopeView {
    EnvelopeView { device_id, protocol_version: ProtocolVersion::V03, content: Some(content) }
}

/// This device's envelope with some content. Padding is applied when it is encrypted.
pub fn build_envelope(device_id: u64, content: Content) -> (result: Envelope)
    ensures
        result@ == envelope(device_id, content@),
{
    Envelope { device_id, protocol_version: ProtocolVersion::V03, content: Some(content) }
}

// The state
// ---------
/// What the message flow remembers.
#[verifier::ext_equal]
pub ghost struct RunnerView<M> {
    pub flow: FlowView<M>,
    pub device_id: u64,
    pub next_reflect_id: u32,
    pub pending_sends: Map<(Seq<char>, u64), PendingSendView>,
}

/// What comes of an input for the flow itself: what it remembers afterwards, what it wants done,
/// and why it cannot go on, if it cannot.
#[verifier::ext_equal]
pub ghost struct Move<B, M> {
    pub runner: RunnerView<M>,
    pub effects: Seq<EffectView<B, M>>,
    pub error: Option<RunnerErrorView>,
}

/// Going on, with something to be done.
pub open spec fn done<B, M>(runner: RunnerView<M>, effects: Seq<EffectView<B, M>>) -> Move<B, M> {
    Move { runner, effects, error: None }
}

/// Ending with an error.
pub open spec fn failed<B, M>(runner: RunnerView<M>, error: Seq<char>) -> Move<B, M> {
    Move {
        runner: runner.at(FlowView::Finished),
        effects: Seq::empty(),
        error: Some(RunnerErrorView::Failed(error)),
    }
}

/// Refusing an input that was not waited for.
pub open spec fn out_of_turn<B, M>(runner: RunnerView<M>) -> Move<B, M> {
    Move { runner, effects: Seq::empty(), error: Some(RunnerErrorView::OutOfTurn) }
}

impl<M> RunnerView<M> {
    /// The same, at another point of the flow.
    pub open spec fn at(self, flow: FlowView<M>) -> RunnerView<M> {
        RunnerView { flow, ..self }
    }

    /// The same, with a message that waits for the chat server's acknowledgement.
    pub open spec fn with_pending(
        self,
        key: (Seq<char>, u64),
        pending: PendingSendView,
    ) -> RunnerView<M> {
        RunnerView { pending_sends: self.pending_sends.insert(key, pending), ..self }
    }

    /// The same, without a message that waits for the chat server's acknowledgement.
    pub open spec fn without_pending(self, key: (Seq<char>, u64)) -> RunnerView<M> {
        RunnerView { pending_sends: self.pending_sends.remove(key), ..self }
    }

    /// The same, with the next reflect ID used up.
    pub open spec fn with_reflect_id(self) -> RunnerView<M> {
        RunnerView { next_reflect_id: self.reflect_id(), ..self }
    }

    /// The reflect ID of the next announcement.
    pub open spec fn reflect_id(self) -> u32 {
        if self.next_reflect_id == u32::MAX {
            0
        } else {
            (self.next_reflect_id + 1) as u32
        }
    }
}

// The mediator
// ------------
/// What a reflected envelope leads to: what comes of it, if anything does, and in any case its
/// acknowledgement, so that the mediator's queue keeps moving.
pub open spec fn reflected_effects<B, M>(
    reflect_id: u32,
    opened: Opened,
    contacts: ContactStoreView,
) -> Seq<EffectView<B, M>> {
    let ack = EffectView::SendD2m(D2mOutgoingPayload::ReflectedAck { reflect_id });
    match d2d::reflected(opened@, contacts) {
        Ok(reflection) => (match reflection.event {
            Some(event) => seq![EffectView::Emit(event)],
            None => Seq::empty(),
        }) + (match reflection.save {
            Some(_) => seq![EffectView::SaveContacts],
            None => Seq::empty(),
        }) + seq![ack],
        Err(_) => seq![ack],
    }
}

/// The contacts after a reflected envelope.
pub open spec fn reflected_contacts(opened: Opened, contacts: ContactStoreView) -> ContactStoreView {
    match d2d::reflected(opened@, contacts) {
        Ok(reflection) => reflection.contacts,
        Err(_) => contacts,
    }
}

/// What a payload of the mediator that is not specifically awaited leads to. Where the flow stands
/// does not change.
pub open spec fn unsolicited<B, M>(payload: D2mIncomingPayload, contacts: ContactStoreView) -> Seq<
    EffectView<B, M>,
> {
    match payload {
        D2mIncomingPayload::RolePromotedToLeader => seq![
            EffectView::PromoteToLeader,
            EffectView::SendCsp(OutgoingPayloadForCspE2e::UnblockIncomingMessages),
        ],
        D2mIncomingPayload::Reflected { reflect_id, opened } => reflected_effects(
            reflect_id,
            opened,
            contacts,
        ),
        _ => Seq::empty(),
    }
}

/// The contacts after a payload of the mediator.
pub open spec fn contacts_after(payload: D2mIncomingPayload, contacts: ContactStoreView) -> ContactStoreView {
    match payload {
        D2mIncomingPayload::Reflected { opened, .. } => reflected_contacts(opened, contacts),
        _ => contacts,
    }
}

/// Going on with a task, once it has its response if there is one.
pub open spec fn task_resumed<B, M>(
    runner: RunnerView<M>,
    purpose: PurposeView,
    response: Option<TaskResponseView>,
) -> Move<B, M> {
    done(
        runner.at(FlowView::Task(purpose)),
        (match response {
            Some(response) => seq![EffectView::RespondTask(response)],
            None => Seq::empty(),
        }).push(EffectView::PollTask),
    )
}

/// What follows once everything that was reflected is acknowledged.
pub open spec fn reflect_complete<B, M>(
    runner: RunnerView<M>,
    contacts: ContactStoreView,
    acknowledged: Seq<u32>,
    after: AfterReflectView<M>,
) -> Move<B, M> {
    match after {
        AfterReflectView::Task(purpose) => task_resumed(
            runner,
            purpose,
            Some(TaskResponseView::ReflectMessage { acknowledged_reflect_ids: acknowledged }),
        ),
        AfterReflectView::Announced(AnnouncementView::Outgoing(delivery)) => delivered(
            runner,
            delivery,
        ),
        AfterReflectView::Announced(AnnouncementView::Sent { receiver, pending, .. }) => done(
            runner.at(FlowView::Idle),
            seq![EffectView::Emit(sent_event(contacts, receiver, pending))],
        ),
    }
}

/// Handing an announced message to the chat server.
pub open spec fn delivered<B, M>(runner: RunnerView<M>, delivery: DeliveryView<M>) -> Move<B, M> {
    match delivery.message {
        Ok(message) => done(
            runner.with_pending(
                (delivery.draft.receiver, delivery.message_id),
                PendingSendView {
                    identity: delivery.draft.identity,
                    text: delivery.draft.text,
                    created_at: delivery.created_at,
                },
            ).at(FlowView::Idle),
            seq![EffectView::SendCsp(OutgoingPayloadForCspE2e::Message(message))],
        ),
        Err(error) => failed(runner, "Encoding outgoing message failed: "@ + error),
    }
}

/// How a message that the chat server accepted is reported.
pub open spec fn sent_event(
    contacts: ContactStoreView,
    receiver: Seq<char>,
    pending: PendingSendView,
) -> EventView {
    EventView::TextMessage(
        TextMessageView {
            timestamp_ms: pending.created_at,
            outgoing: true,
            conversation: ConversationView::Contact {
                identity: pending.identity,
                name: conversation::name_in(contacts, receiver),
            },
            sender_identity: None,
            sender_name: None,
            text: pending.text,
        },
    )
}

/// The reflect ID that a payload acknowledges, if it acknowledges one.
pub open spec fn acknowledged_id(payload: D2mIncomingPayload) -> Option<u32> {
    match payload {
        D2mIncomingPayload::ReflectAck { reflect_id } => Some(reflect_id),
        _ => None,
    }
}

/// What comes of a payload of the mediator while one is awaited.
pub open spec fn awaited<B, M>(
    runner: RunnerView<M>,
    contacts: ContactStoreView,
    waiting: WaitingView<M>,
    payload: D2mIncomingPayload,
) -> Move<B, M> {
    match (waiting, payload) {
        (WaitingView::TransactionEnded(purpose), D2mIncomingPayload::TransactionEnded) => {
            task_resumed(runner, purpose, None)
        },
        (WaitingView::BeginReply(change, purpose), D2mIncomingPayload::BeginTransactionAck) => {
            task_resumed(
                runner,
                purpose,
                Some(TaskResponseView::Contacts(change, ContactsResponseView::BeginTransactionAck)),
            )
        },
        (
            WaitingView::BeginReply(change, purpose),
            D2mIncomingPayload::TransactionRejected { device_id, encrypted_scope },
        ) => task_resumed(
            runner,
            purpose,
            Some(
                TaskResponseView::Contacts(
                    change,
                    ContactsResponseView::TransactionRejected {
                        device_id,
                        encrypted_scope: encrypted_scope@,
                    },
                ),
            ),
        ),
        (WaitingView::AbortAck(change, purpose), D2mIncomingPayload::CommitTransactionAck) => {
            task_resumed(
                runner,
                purpose,
                Some(
                    TaskResponseView::Contacts(
                        change,
                        ContactsResponseView::AbortTransactionResponse,
                    ),
                ),
            )
        },
        (
            WaitingView::CommitAck { change, acknowledged, purpose },
            D2mIncomingPayload::CommitTransactionAck,
        ) => task_resumed(
            runner,
            purpose,
            Some(
                TaskResponseView::Contacts(
                    change,
                    ContactsResponseView::CommitTransactionResponse {
                        acknowledged_reflect_ids: acknowledged,
                    },
                ),
            ),
        ),
        (
            WaitingView::CommitAck { change, acknowledged, purpose },
            D2mIncomingPayload::ReflectAck { reflect_id },
        ) => done(
            runner.at(
                FlowView::D2m(
                    WaitingView::CommitAck {
                        change,
                        acknowledged: acknowledged.push(reflect_id),
                        purpose,
                    },
                ),
            ),
            Seq::empty(),
        ),
        (
            WaitingView::ReflectAcks { pending, acknowledged, after },
            D2mIncomingPayload::ReflectAck { reflect_id },
        ) => if pending <= 1 {
            reflect_complete(runner, contacts, acknowledged.push(reflect_id), after)
        } else {
            done(
                runner.at(
                    FlowView::D2m(
                        WaitingView::ReflectAcks {
                            pending: (pending - 1) as nat,
                            acknowledged: acknowledged.push(reflect_id),
                            after,
                        },
                    ),
                ),
                Seq::empty(),
            )
        },
        _ => done(runner, unsolicited(payload, contacts)),
    }
}

// Tasks
// -----
/// Reflecting some envelopes, in order.
pub open spec fn reflects<B, M>(payloads: Seq<ReflectPayload>) -> Seq<EffectView<B, M>> {
    payloads.map_values(
        |payload: ReflectPayload|
            EffectView::SendD2m(
                D2mOutgoingPayload::Reflect {
                    ephemeral: payload.ephemeral,
                    reflect_id: payload.id,
                    envelope: payload.envelope,
                },
            ),
    )
}

/// How many of the envelopes the mediator acknowledges: all but the ephemeral ones.
pub open spec fn acks_due(payloads: Seq<ReflectPayload>) -> nat
    decreases payloads.len(),
{
    if payloads.len() == 0 {
        0
    } else {
        acks_due(payloads.drop_last()) + if payloads.last().ephemeral {
            0nat
        } else {
            1nat
        }
    }
}

/// What comes of a task's wish about a transaction.
pub open spec fn transaction_begun<B, M>(
    runner: RunnerView<M>,
    change: ContactChange,
    purpose: PurposeView,
    instruction: BeginTransactionInstruction,
) -> Move<B, M> {
    match instruction {
        BeginTransactionInstruction::TransactionRejected => done(
            runner.at(FlowView::D2m(WaitingView::TransactionEnded(purpose))),
            Seq::empty(),
        ),
        BeginTransactionInstruction::BeginTransaction { encrypted_scope, ttl } => done(
            runner.at(FlowView::D2m(WaitingView::BeginReply(change, purpose))),
            seq![
                EffectView::SendD2m(
                    D2mOutgoingPayload::BeginTransaction {
                        encrypted_scope,
                        ttl: if ttl == 0 {
                            None
                        } else {
                            Some(ttl as u64)
                        },
                    },
                ),
            ],
        ),
        BeginTransactionInstruction::AbortTransaction => done(
            runner.at(FlowView::D2m(WaitingView::AbortAck(change, purpose))),
            seq![EffectView::SendD2m(D2mOutgoingPayload::CommitTransaction)],
        ),
    }
}

/// Whether a task for this purpose may ask for this. A task that only creates a contact asks for
/// nothing else than the transaction.
pub open spec fn suits(purpose: PurposeView, step: TaskStep) -> bool {
    purpose is Incoming || match step {
        TaskStep::BeginTransaction(change, _) => change is Create,
        TaskStep::ReflectAndCommitTransaction(change, _) => change is Create,
        TaskStep::Done(ack) => ack is None,
        _ => false,
    }
}

/// What comes of what a task asks for.
pub open spec fn task_step<B, M>(runner: RunnerView<M>, purpose: PurposeView, step: TaskStep) -> Move<
    B,
    M,
> {
    match step {
        TaskStep::FetchSender => done(
            runner.at(FlowView::Task(purpose)),
            seq![EffectView::FetchSender, EffectView::PollTask],
        ),
        TaskStep::BeginTransaction(change, instruction) => transaction_begun(
            runner,
            change,
            purpose,
            instruction,
        ),
        TaskStep::ReflectAndCommitTransaction(change, payloads) => done(
            runner.at(
                FlowView::D2m(
                    WaitingView::CommitAck { change, acknowledged: Seq::empty(), purpose },
                ),
            ),
            reflects(payloads@).push(EffectView::SendD2m(D2mOutgoingPayload::CommitTransaction)),
        ),
        TaskStep::ReflectMessage(payloads) => {
            if acks_due(payloads@) == 0 {
                let resumed = task_resumed::<B, M>(
                    runner,
                    purpose,
                    Some(
                        TaskResponseView::ReflectMessage { acknowledged_reflect_ids: Seq::empty() },
                    ),
                );
                done(resumed.runner, reflects(payloads@) + resumed.effects)
            } else {
                done(
                    runner.at(
                        FlowView::D2m(
                            WaitingView::ReflectAcks {
                                pending: acks_due(payloads@),
                                acknowledged: Seq::empty(),
                                after: AfterReflectView::Task(purpose),
                            },
                        ),
                    ),
                    reflects(payloads@),
                )
            }
        },
        TaskStep::Done(ack) => match purpose {
            PurposeView::Incoming => done(
                runner.at(FlowView::Idle),
                match ack {
                    Some(ack) => seq![
                        EffectView::SendCsp(OutgoingPayloadForCspE2e::MessageAck(ack)),
                    ],
                    None => Seq::empty(),
                },
            ),
            PurposeView::Create(draft, public_key) => encrypting(runner, draft, public_key),
        },
    }
}

// Sending
// -------
/// How a message that cannot be sent is reported. The connection is not affected.
pub open spec fn send_refused<B, M>(
    runner: RunnerView<M>,
    conversation: ConversationView,
    reason: Seq<char>,
) -> Move<B, M> {
    done(
        runner.at(FlowView::Idle),
        seq![EffectView::Emit(EventView::SendFailed { conversation, reason })],
    )
}

/// A conversation with a contact whose name is not looked up.
pub open spec fn nameless(identity: Seq<char>) -> ConversationView {
    ConversationView::Contact { identity, name: None }
}

/// What comes of a wish to send a message. Groups are not supported.
pub open spec fn send_text<B, M>(runner: RunnerView<M>, to: Recipient, text: Seq<char>) -> Move<B, M> {
    match to {
        Recipient::Contact { identity } => addressed(runner, text::uppercase(identity@), text),
        Recipient::Group { creator_identity, group_id } => send_refused(
            runner,
            ConversationView::Group { creator_identity: creator_identity@, group_id },
            "Group messages are not supported yet"@,
        ),
    }
}

/// Finding out whether a message has a valid recipient.
pub open spec fn addressed<B, M>(runner: RunnerView<M>, identity: Seq<char>, text: Seq<char>) -> Move<
    B,
    M,
> {
    done(
        runner.at(FlowView::Parsing { identity, text }),
        seq![EffectView::ParseIdentity(identity)],
    )
}

/// What comes of a message once its recipient was parsed: a known contact is sent to, an unknown
/// one is looked up at the directory first.
pub open spec fn parsed<B, M>(
    runner: RunnerView<M>,
    contacts: ContactStoreView,
    identity: Seq<char>,
    text: Seq<char>,
    receiver: Option<ThreemaId>,
) -> Move<B, M> {
    match receiver {
        None => send_refused(
            runner,
            nameless(identity),
            "'"@ + identity + "' is not a valid Threema ID"@,
        ),
        Some(receiver) => {
            let draft = DraftView { receiver: receiver@, identity, text };
            match contacts.get(receiver@) {
                Ok(Some(contact)) => encrypting(runner, draft, contact.public_key),
                Ok(None) => done(
                    runner.at(FlowView::LookingUp(draft)),
                    seq![EffectView::LookUp(receiver@)],
                ),
                Err(error) => done(
                    runner.at(FlowView::Idle),
                    seq![EffectView::ReportStoreError { identity, error }],
                ),
            }
        },
    }
}

/// Having a message encrypted.
pub open spec fn encrypting<B, M>(runner: RunnerView<M>, draft: DraftView, public_key: Seq<u8>) -> Move<
    B,
    M,
> {
    done(
        runner.at(FlowView::Encrypting(draft)),
        seq![EffectView::Encrypt { receiver: draft.receiver, public_key, text: draft.text }],
    )
}

/// What comes of a message once its recipient was looked up: a contact that is new is created
/// (which also tells the siblings) before the message is sent.
pub open spec fn looked_up<B, M>(
    runner: RunnerView<M>,
    draft: DraftView,
    result: Result<LookupResult, String>,
) -> Move<B, M> {
    match result {
        Err(error) => send_refused(
            runner,
            nameless(draft.identity),
            "Looking "@ + draft.receiver + " up failed: "@ + error@,
        ),
        Ok(LookupResult::ExistingContact(public_key)) => encrypting(runner, draft, public_key@),
        Ok(LookupResult::NewContact(public_key)) => done(
            runner.at(FlowView::Task(PurposeView::Create(draft, public_key@))),
            seq![EffectView::StartCreate(draft.receiver), EffectView::PollTask],
        ),
        Ok(LookupResult::User) => send_refused(
            runner,
            nameless(draft.identity),
            "Cannot send a message to yourself"@,
        ),
        Ok(LookupResult::Invalid(identity)) => send_refused(
            runner,
            nameless(draft.identity),
            identity@ + " does not exist or has been revoked"@,
        ),
        Ok(LookupResult::NotFound) => send_refused(
            runner,
            nameless(draft.identity),
            "The directory returned no result for "@ + draft.receiver,
        ),
    }
}

/// Having an announcement's envelope encrypted.
pub open spec fn sealing<B, M>(
    runner: RunnerView<M>,
    announcement: AnnouncementView<M>,
    content: ContentView,
) -> Move<B, M> {
    done(
        runner.at(FlowView::Sealing(announcement)),
        seq![EffectView::Seal(envelope(runner.device_id, content))],
    )
}

/// What comes of an acknowledgement by the chat server.
pub open spec fn acknowledged<B, M>(runner: RunnerView<M>, ack: MessageAck) -> Move<B, M> {
    if runner.pending_sends.dom().contains(ack@) {
        let pending = runner.pending_sends[ack@];
        sealing(
            runner.without_pending(ack@),
            AnnouncementView::Sent {
                receiver: ack.sender_identity@,
                message_id: ack.message_id,
                pending,
            },
            sent_update(pending.identity, ack.sender_identity@, ack.message_id),
        )
    } else {
        done(runner, Seq::empty())
    }
}

// The flow
// --------
/// What comes of an input while nothing is under way.
pub open spec fn idle_next<B, M>(
    runner: RunnerView<M>,
    contacts: ContactStoreView,
    input: Input<B, M>,
) -> Move<B, M> {
    match input {
        Input::Csp(Some(IncomingPayloadForCspE2e::Message(message))) => done(
            runner.at(FlowView::Task(PurposeView::Incoming)),
            seq![EffectView::StartIncoming(message), EffectView::PollTask],
        ),
        Input::Csp(Some(IncomingPayloadForCspE2e::MessageAck(ack))) => acknowledged(runner, ack),
        Input::Csp(None) => failed(runner, "CSP incoming channel closed"@),
        Input::D2m(Some(payload)) => done(runner, unsolicited(payload, contacts)),
        Input::D2m(None) => failed(runner, "D2M incoming channel closed"@),
        Input::Command(Some(Command::SendText { to, text })) => send_text(runner, to, text@),
        Input::Command(Some(Command::Shutdown)) => done(
            runner.at(FlowView::Finished),
            Seq::empty(),
        ),
        Input::Command(None) => done(runner.at(FlowView::Finished), Seq::empty()),
        _ => out_of_turn(runner),
    }
}

/// How the loss of the mediator is described, depending on what is waited for.
pub open spec fn mediator_gone<M>(waiting: WaitingView<M>) -> Seq<char> {
    if waiting matches WaitingView::ReflectAcks { after: AfterReflectView::Announced(_), .. } {
        "Reflecting to the mediator failed: D2M incoming channel closed"@
    } else {
        "D2M incoming channel closed"@
    }
}

/// What comes of an input for the flow itself.
pub open spec fn moved<B, M>(
    runner: RunnerView<M>,
    contacts: ContactStoreView,
    input: Input<B, M>,
) -> Move<B, M> {
    match (runner.flow, input) {
        (FlowView::Idle, _) => idle_next(runner, contacts, input),
        (FlowView::Task(purpose), Input::TaskPolled(Ok(step))) => if suits(purpose, step) {
            task_step(runner, purpose, step)
        } else {
            out_of_turn(runner)
        },
        (FlowView::Task(_), Input::TaskPolled(Err(error))) => failed(runner, error@),
        (FlowView::D2m(waiting), Input::D2m(Some(payload))) => awaited(
            runner,
            contacts,
            waiting,
            payload,
        ),
        (FlowView::D2m(waiting), Input::D2m(None)) => failed(runner, mediator_gone(waiting)),
        (FlowView::Parsing { identity, text }, Input::IdentityParsed(receiver)) => parsed(
            runner,
            contacts,
            identity,
            text,
            receiver,
        ),
        (FlowView::LookingUp(draft), Input::LookedUp(result)) => looked_up(runner, draft, result),
        (
            FlowView::Encrypting(draft),
            Input::Encrypted { message_id, created_at, nonce, message },
        ) => done(
            runner.at(
                FlowView::SavingCspNonce(
                    DeliveryView {
                        draft,
                        message_id,
                        created_at,
                        nonce: nonce@,
                        message: flow::message_view(message),
                    },
                ),
            ),
            seq![EffectView::SaveNonces],
        ),
        (FlowView::SavingCspNonce(delivery), Input::NoncesSaved(Ok(_))) => sealing(
            runner,
            AnnouncementView::Outgoing(delivery),
            outgoing_text(delivery),
        ),
        (FlowView::SavingCspNonce(_), Input::NoncesSaved(Err(error))) => failed(
            runner,
            "Failed to record CSP nonce: "@ + error@,
        ),
        (FlowView::Sealing(announcement), Input::Sealed(Some((envelope, nonce)))) => done(
            runner.at(
                FlowView::SavingD2xNonce { announcement, envelope },
            ),
            seq![EffectView::SaveNonces],
        ),
        (FlowView::Sealing(_), Input::Sealed(None)) => failed(
            runner,
            "Encrypting reflect envelope failed"@,
        ),
        (FlowView::SavingD2xNonce { announcement, envelope }, Input::NoncesSaved(Ok(_))) => done(
            runner.with_reflect_id().at(
                FlowView::D2m(
                    WaitingView::ReflectAcks {
                        pending: 1,
                        acknowledged: Seq::empty(),
                        after: AfterReflectView::Announced(announcement),
                    },
                ),
            ),
            seq![
                EffectView::SendD2m(
                    D2mOutgoingPayload::Reflect {
                        ephemeral: false,
                        reflect_id: runner.reflect_id(),
                        envelope,
                    },
                ),
            ],
        ),
        (FlowView::SavingD2xNonce { .. }, Input::NoncesSaved(Err(error))) => failed(
            runner,
            "Failed to record D2X nonce: "@ + error@,
        ),
        _ => out_of_turn(runner),
    }
}

/// Everything the flow works on.
#[verifier::ext_equal]
pub ghost struct Machine<M> {
    pub runner: RunnerView<M>,
    pub contacts: ContactStoreView,
    pub nonces: NoncesView,
}

/// What comes of an input.
#[verifier::ext_equal]
pub ghost struct Outcome<B, M> {
    pub after: Machine<M>,
    pub effects: Seq<EffectView<B, M>>,
    pub error: Option<RunnerErrorView>,
}

/// The contacts after an input: only what a sibling reflects changes them.
pub open spec fn contacts_next<B, M>(machine: Machine<M>, input: Input<B, M>) -> ContactStoreView {
    match (machine.runner.flow, input) {
        (FlowView::Idle, Input::D2m(Some(payload))) => contacts_after(payload, machine.contacts),
        (FlowView::D2m(_), Input::D2m(Some(payload))) => contacts_after(payload, machine.contacts),
        _ => machine.contacts,
    }
}

/// The nonces after an input: those of encrypted messages and of encrypted envelopes are recorded.
pub open spec fn nonces_next<B, M>(machine: Machine<M>, input: Input<B, M>) -> NoncesView {
    match (machine.runner.flow, input) {
        (FlowView::Encrypting(_), Input::Encrypted { nonce, .. }) => machine.nonces.with_many(
            NonceScope::CspE2e,
            seq![nonce],
        ),
        (FlowView::Sealing(_), Input::Sealed(Some((_, nonce)))) => machine.nonces.with_many(
            NonceScope::D2x,
            seq![nonce],
        ),
        _ => machine.nonces,
    }
}

/// What comes of an input.
pub open spec fn next<B, M>(machine: Machine<M>, input: Input<B, M>) -> Outcome<B, M> {
    let step = moved(machine.runner, machine.contacts, input);
    Outcome {
        after: Machine {
            runner: step.runner,
            contacts: contacts_next(machine, input),
            nonces: nonces_next(machine, input),
        },
        effects: step.effects,
        error: step.error,
    }
}

/// What the caller has to wait for before the next step.
#[derive(Debug, Clone, Copy, PartialEq, Eq, Structural)]
pub enum Expects {
    /// A payload of the chat server or of the mediator, or a command, whichever comes first.
    Anything,
    /// A payload of the mediator.
    D2m,
    /// What comes of the last effect.
    Answer,
    /// Nothing: the flow has come to its end.
    Nothing,
}

/// What has to be waited for where the flow stands.
pub open spec fn expected<M>(flow: FlowView<M>) -> Expects {
    match flow {
        FlowView::Idle => Expects::Anything,
        FlowView::D2m(_) => Expects::D2m,
        FlowView::Finished => Expects::Nothing,
        _ => Expects::Answer,
    }
}

/// What the message flow needs to know about this device.
#[derive(Debug)]
pub struct CspE2eRunnerDeps {
    /// This device's ID, stamped into reflected envelopes.
    pub device_id: u64,
}

/// Decides what to do in the message flow.
pub struct CspE2eProtocolRunner<M> {
    flow: Flow<M>,
    device_id: u64,
    /// The last reflect ID that was used for an announcement. Starts at `0x8000_0000`: tasks have
    /// their own counter, which starts at zero, on the same connection.
    next_reflect_id: u32,
    /// Sends awaiting the chat server's acknowledgement, by receiver and message ID.
    pending_sends: Table<MessageKey, PendingSend>,
}

impl<M> View for CspE2eProtocolRunner<M> {
    type V = RunnerView<M>;

    closed spec fn view(&self) -> RunnerView<M> {
        RunnerView {
            flow: self.flow@,
            device_id: self.device_id,
            next_reflect_id: self.next_reflect_id,
            pending_sends: self.pending_sends@,
        }
    }
}

/// Whether a step came out as expected.
pub open spec fn came_out<B, M>(
    expected: Move<B, M>,
    runner: RunnerView<M>,
    result: Result<Vec<Effect<B, M>>, RunnerError>,
) -> bool {
    &&& runner =~= expected.runner
    &&& match expected.error {
        None => result matches Ok(effects) && flow::effect_views(effects@) =~= expected.effects,
        Some(error) => result matches Err(returned) && returned@ == error,
    }
}

/// The report of a message that could not be sent because the contact store refused to look its
/// recipient up, given the text of the store's error.
pub fn store_lookup_failed(identity: String, error: &str) -> (event: Event)
    ensures
        event@ == (EventView::SendFailed {
            conversation: nameless(identity@),
            reason: "Contact store lookup failed: "@ + error@,
        }),
{
    let mut reason: String = "Contact store lookup failed: ".to_owned();
    reason.append(error);
    Event::SendFailed { conversation: Conversation::Contact { identity, name: None }, reason }
}

/// The form in which the identity of a recipient is used: in upper case.
pub fn normalized_identity(identity: &str) -> (upper: String)
    ensures
        upper@ == text::uppercase(identity@),
        vstd::utf8::is_ascii_chars(identity@) ==> upper@ == identity@.map_values(
            |c: char| text::ascii_upper(c),
        ),
{
    to_uppercase(identity)
}

/// The reflect ID that a payload acknowledges, if it acknowledges one.
pub fn reflect_ack_id(payload: &D2mIncomingPayload) -> (id: Option<u32>)
    ensures
        id == acknowledged_id(*payload),
{
    match payload {
        D2mIncomingPayload::ReflectAck { reflect_id } => Some(*reflect_id),
        _ => None,
    }
}

/// Records that a nonce was used.
fn record_nonce(nonces: &mut NonceStore, scope: NonceScope, nonce: Nonce)
    ensures
        final(nonces)@ == old(nonces)@.with_many(scope, seq![nonce]),
{
    let used: Vec<Nonce> = vec![nonce];
    assert(used@ =~= seq![nonce]);
    let mut scoped = nonces.scoped(scope);
    let _ = scoped.add_many(used);
}

fn none<B, M>() -> (effects: Vec<Effect<B, M>>)
    ensures
        flow::effect_views(effects@) == Seq::<EffectView<B, M>>::empty(),
{
    let effects: Vec<Effect<B, M>> = Vec::new();
    assert(flow::effect_views(effects@) =~= Seq::empty());
    effects
}

fn one<B, M>(effect: Effect<B, M>) -> (effects: Vec<Effect<B, M>>)
    ensures
        flow::effect_views(effects@) == seq![effect@],
{
    let effects: Vec<Effect<B, M>> = vec![effect];
    assert(flow::effect_views(effects@) =~= seq![effect@]);
    effects
}

fn two<B, M>(first: Effect<B, M>, second: Effect<B, M>) -> (effects: Vec<Effect<B, M>>)
    ensures
        flow::effect_views(effects@) == seq![first@, second@],
{
    let effects: Vec<Effect<B, M>> = vec![first, second];
    assert(flow::effect_views(effects@) =~= seq![first@, second@]);
    effects
}

fn then_effect<B, M>(effects: &mut Vec<Effect<B, M>>, effect: Effect<B, M>)
    ensures
        flow::effect_views(final(effects)@) == flow::effect_views(old(effects)@).push(effect@),
{
    effects.push(effect);
    assert(flow::effect_views(effects@) =~= flow::effect_views(old(effects)@).push(effect@));
}

/// Reflects some envelopes, in order. Says how many acknowledgements are due.
fn send_reflects<B, M>(payloads: Vec<ReflectPayload>) -> (sent: (Vec<Effect<B, M>>, usize))
    ensures
        flow::effect_views(sent.0@) == reflects::<B, M>(payloads@),
        sent.1 == acks_due(payloads@),
{
    let ghost all = payloads@;
    let ghost mut i: int = 0;
    let mut rest = payloads;
    let mut effects: Vec<Effect<B, M>> = Vec::new();
    let mut due: usize = 0;
    proof {
        assert(all.take(0) =~= Seq::empty());
        assert(rest@ =~= all.skip(0));
        assert(flow::effect_views(effects@) =~= reflects::<B, M>(all.take(0)));
    }
    while rest.len() > 0
        invariant
            all == payloads@,
            0 <= i <= all.len(),
            rest@ == all.skip(i),
            all.len() == payloads.len(),
            due <= i,
            due == acks_due(all.take(i)),
            flow::effect_views(effects@) == reflects::<B, M>(all.take(i)),
        decreases rest@.len(),
    {
        let payload = rest.remove(0);
        proof {
            assert(payload == all[i]);
            assert(rest@ =~= all.skip(i + 1));
            assert(all.take(i + 1).drop_last() =~= all.take(i));
            assert(all.take(i + 1).last() == payload);
            assert(reflects::<B, M>(all.take(i + 1)) =~= reflects::<B, M>(all.take(i)).push(
                reflects::<B, M>(all)[i],
            ));
        }
        if !payload.ephemeral {
            due += 1;
        }
        then_effect(
            &mut effects,
            Effect::SendD2m(
                D2mOutgoingPayload::Reflect {
                    ephemeral: payload.ephemeral,
                    reflect_id: payload.id,
                    envelope: payload.envelope,
                },
            ),
        );
        proof {
            i = i + 1;
        }
    }
    assert(all.take(i) =~= all);
    (effects, due)
}

impl<M> CspE2eProtocolRunner<M> {
    pub fn new(deps: CspE2eRunnerDeps) -> (runner: Self)
        ensures
            runner@ == (RunnerView::<M> {
                flow: FlowView::Idle,
                device_id: deps.device_id,
                next_reflect_id: 0x8000_0000,
                pending_sends: Map::empty(),
            }),
    {
        CspE2eProtocolRunner {
            flow: Flow::Idle,
            device_id: deps.device_id,
            next_reflect_id: 0x8000_0000,
            pending_sends: Table::new(),
        }
    }

    /// What has to be waited for before the next step.
    pub fn expects(&self) -> (expects: Expects)
        ensures
            expects == match self@.flow {
                FlowView::Idle => Expects::Anything,
                FlowView::D2m(_) => Expects::D2m,
                FlowView::Finished => Expects::Nothing,
                _ => Expects::Answer,
            },
            expects == expected(self@.flow),
    {
        match &self.flow {
            Flow::Idle => Expects::Anything,
            Flow::D2m(_) => Expects::D2m,
            Flow::Finished => Expects::Nothing,
            _ => Expects::Answer,
        }
    }

    /// Handles a payload of the mediator that is not specifically awaited.
    fn handle_unsolicited_d2m<B>(
        contacts: &mut ContactStore,
        payload: D2mIncomingPayload,
    ) -> (effects: Vec<Effect<B, M>>)
        ensures
            flow::effect_views(effects@) =~= unsolicited::<B, M>(payload, old(contacts)@),
            final(contacts)@ == contacts_after(payload, old(contacts)@),
    {
        match payload {
            D2mIncomingPayload::RolePromotedToLeader => {
                // The chat server withholds incoming messages until the leader, and only the
                // leader, asks for them. Asking twice is harmless.
                two(
                    Effect::PromoteToLeader,
                    Effect::SendCsp(OutgoingPayloadForCspE2e::UnblockIncomingMessages),
                )
            },
            D2mIncomingPayload::Reflected { reflect_id, opened } => {
                let mut effects: Vec<Effect<B, M>> = none();
                match handle_reflected_envelope(opened, contacts) {
                    Ok(reflection) => {
                        if let Some(event) = reflection.event {
                            then_effect(&mut effects, Effect::Emit(event));
                        }
                        if reflection.save.is_some() {
                            then_effect(&mut effects, Effect::SaveContacts);
                        }
                    },
                    // Not fatal, and acknowledged like everything else.
                    Err(_) => {},
                }
                then_effect(
                    &mut effects,
                    Effect::SendD2m(D2mOutgoingPayload::ReflectedAck { reflect_id }),
                );
                effects
            },
            _ => none(),
        }
    }

    /// Goes on with a task, once it has its response if there is one.
    fn resume_task<B>(&mut self, purpose: Purpose, response: Option<TaskResponse>) -> (effects: Vec<
        Effect<B, M>,
    >)
        ensures
            final(self)@ == old(self)@.at(FlowView::Task(purpose@)),
            flow::effect_views(effects@) == task_resumed::<B, M>(
                old(self)@,
                purpose@,
                match response {
                    Some(response) => Some(response@),
                    None => None,
                },
            ).effects,
    {
        self.flow = Flow::Task(purpose);
        let mut effects: Vec<Effect<B, M>> = none();
        if let Some(response) = response {
            then_effect(&mut effects, Effect::RespondTask(response));
            assert(flow::effect_views(effects@) =~= seq![EffectView::RespondTask(response@)]);
        }
        then_effect(&mut effects, Effect::PollTask);
        effects
    }

    /// Reports a failed attempt to send a message. Never fatal for the connection.
    fn send_failed<B>(&mut self, conversation: Conversation, reason: String) -> (effects: Vec<
        Effect<B, M>,
    >)
        ensures
            final(self)@ == old(self)@.at(FlowView::Idle),
            flow::effect_views(effects@) == seq![
                EffectView::<B, M>::Emit(
                    EventView::SendFailed { conversation: conversation@, reason: reason@ },
                ),
            ],
    {
        self.flow = Flow::Idle;
        one(Effect::Emit(Event::SendFailed { conversation, reason }))
    }

    /// Has a message encrypted.
    fn encrypt<B>(&mut self, draft: Draft, public_key: PublicKey) -> (effects: Vec<Effect<B, M>>)
        ensures
            final(self)@ == old(self)@.at(FlowView::Encrypting(draft@)),
            flow::effect_views(effects@) == encrypting::<B, M>(
                old(self)@,
                draft@,
                public_key@,
            ).effects,
    {
        let receiver = draft.receiver.duplicate();
        let text = draft.text.clone();
        self.flow = Flow::Encrypting(draft);
        one(Effect::Encrypt { receiver, public_key, text })
    }

    /// Has an announcement's envelope encrypted.
    fn reflect_content<B>(&mut self, announcement: Announcement<M>, content: Content) -> (effects: Vec<
        Effect<B, M>,
    >)
        ensures
            final(self)@ == old(self)@.at(FlowView::Sealing(announcement@)),
            flow::effect_views(effects@) == seq![
                EffectView::<B, M>::Seal(envelope(old(self)@.device_id, content@)),
            ],
    {
        self.flow = Flow::Sealing(announcement);
        one(Effect::Seal(build_envelope(self.device_id, content)))
    }

    /// Goes on once everything that was reflected is acknowledged.
    fn finish_reflect<B>(
        &mut self,
        contacts: &ContactStore,
        acknowledged: Vec<u32>,
        after: AfterReflect<M>,
    ) -> (result: Result<Vec<Effect<B, M>>, RunnerError>)
        ensures
            came_out(
                reflect_complete::<B, M>(old(self)@, contacts@, acknowledged@, after@),
                final(self)@,
                result,
            ),
    {
        match after {
            AfterReflect::Task(purpose) => Ok(
                self.resume_task(
                    purpose,
                    Some(TaskResponse::ReflectMessage { acknowledged_reflect_ids: acknowledged }),
                ),
            ),
            AfterReflect::Announced(Announcement::Outgoing(delivery)) => {
                let message = match delivery.message {
                    Ok(message) => message,
                    Err(error) => {
                        self.flow = Flow::Finished;
                        let mut text: String = "Encoding outgoing message failed: ".to_owned();
                        text.append(error.as_str());
                        return Err(RunnerError::Failed(text));
                    },
                };
                self.pending_sends.insert(
                    MessageKey {
                        identity: delivery.draft.receiver,
                        message_id: delivery.message_id,
                    },
                    PendingSend {
                        identity: delivery.draft.identity,
                        text: delivery.draft.text,
                        created_at: delivery.created_at,
                    },
                );
                self.flow = Flow::Idle;
                Ok(one(Effect::SendCsp(OutgoingPayloadForCspE2e::Message(message))))
            },
            AfterReflect::Announced(Announcement::Sent { receiver, pending, .. }) => {
                let name = contact_name(contacts, &receiver);
                self.flow = Flow::Idle;
                Ok(
                    one(
                        Effect::Emit(
                            Event::TextMessage(
                                TextMessage {
                                    timestamp_ms: pending.created_at,
                                    outgoing: true,
                                    conversation: Conversation::Contact {
                                        identity: pending.identity,
                                        name,
                                    },
                                    sender_identity: None,
                                    sender_name: None,
                                    text: pending.text,
                                },
                            ),
                        ),
                    ),
                )
            },
        }
    }

    /// Goes on after a payload of the mediator while one is awaited.
    fn handle_awaited_d2m<B>(
        &mut self,
        contacts: &mut ContactStore,
        waiting: Waiting<M>,
        payload: D2mIncomingPayload,
    ) -> (result: Result<Vec<Effect<B, M>>, RunnerError>)
        ensures
            came_out(
                awaited::<B, M>(
                    old(self)@.at(FlowView::D2m(waiting@)),
                    old(contacts)@,
                    waiting@,
                    payload,
                ),
                final(self)@,
                result,
            ),
            final(contacts)@ == contacts_after(payload, old(contacts)@),
    {
        match (waiting, payload) {
            (Waiting::TransactionEnded(purpose), D2mIncomingPayload::TransactionEnded) => Ok(
                self.resume_task(purpose, None),
            ),
            (Waiting::BeginReply(change, purpose), D2mIncomingPayload::BeginTransactionAck) => Ok(
                self.resume_task(
                    purpose,
                    Some(TaskResponse::Contacts(change, ContactsResponse::BeginTransactionAck)),
                ),
            ),
            (
                Waiting::BeginReply(change, purpose),
                D2mIncomingPayload::TransactionRejected { device_id, encrypted_scope },
            ) => Ok(
                self.resume_task(
                    purpose,
                    Some(
                        TaskResponse::Contacts(
                            change,
                            ContactsResponse::TransactionRejected { device_id, encrypted_scope },
                        ),
                    ),
                ),
            ),
            (Waiting::AbortAck(change, purpose), D2mIncomingPayload::CommitTransactionAck) => Ok(
                self.resume_task(
                    purpose,
                    Some(
                        TaskResponse::Contacts(change, ContactsResponse::AbortTransactionResponse),
                    ),
                ),
            ),
            (
                Waiting::CommitAck { change, acknowledged, purpose },
                D2mIncomingPayload::CommitTransactionAck,
            ) => Ok(
                self.resume_task(
                    purpose,
                    Some(
                        TaskResponse::Contacts(
                            change,
                            ContactsResponse::CommitTransactionResponse {
                                acknowledged_reflect_ids: acknowledged,
                            },
                        ),
                    ),
                ),
            ),
            (
                Waiting::CommitAck { change, acknowledged, purpose },
                D2mIncomingPayload::ReflectAck { reflect_id },
            ) => {
                let mut acknowledged = acknowledged;
                acknowledged.push(reflect_id);
                self.flow = Flow::D2m(Waiting::CommitAck { change, acknowledged, purpose });
                Ok(none())
            },
            (
                Waiting::ReflectAcks { pending, acknowledged, after },
                D2mIncomingPayload::ReflectAck { reflect_id },
            ) => {
                let mut acknowledged = acknowledged;
                acknowledged.push(reflect_id);
                if pending <= 1 {
                    self.finish_reflect(contacts, acknowledged, after)
                } else {
                    self.flow = Flow::D2m(
                        Waiting::ReflectAcks { pending: pending - 1, acknowledged, after },
                    );
                    Ok(none())
                }
            },
            (waiting, payload) => {
                self.flow = Flow::D2m(waiting);
                Ok(Self::handle_unsolicited_d2m(contacts, payload))
            },
        }
    }

    /// Does what a task wants done about a transaction.
    fn begin_transaction<B>(
        &mut self,
        change: ContactChange,
        purpose: Purpose,
        instruction: BeginTransactionInstruction,
    ) -> (effects: Vec<Effect<B, M>>)
        ensures
            came_out(
                transaction_begun::<B, M>(old(self)@, change, purpose@, instruction),
                final(self)@,
                Ok(effects),
            ),
    {
        match instruction {
            BeginTransactionInstruction::TransactionRejected => {
                self.flow = Flow::D2m(Waiting::TransactionEnded(purpose));
                none()
            },
            BeginTransactionInstruction::BeginTransaction { encrypted_scope, ttl } => {
                self.flow = Flow::D2m(Waiting::BeginReply(change, purpose));
                let ttl: Option<u64> = if ttl == 0 {
                    None
                } else {
                    Some(ttl as u64)
                };
                one(Effect::SendD2m(D2mOutgoingPayload::BeginTransaction { encrypted_scope, ttl }))
            },
            BeginTransactionInstruction::AbortTransaction => {
                self.flow = Flow::D2m(Waiting::AbortAck(change, purpose));
                one(Effect::SendD2m(D2mOutgoingPayload::CommitTransaction))
            },
        }
    }

    /// Reflects some envelopes and commits the transaction.
    fn reflect_and_commit_transaction<B>(
        &mut self,
        change: ContactChange,
        purpose: Purpose,
        payloads: Vec<ReflectPayload>,
    ) -> (effects: Vec<Effect<B, M>>)
        ensures
            came_out(
                task_step::<B, M>(
                    old(self)@,
                    purpose@,
                    TaskStep::ReflectAndCommitTransaction(change, payloads),
                ),
                final(self)@,
                Ok(effects),
            ),
    {
        let (mut effects, _) = send_reflects(payloads);
        then_effect(&mut effects, Effect::SendD2m(D2mOutgoingPayload::CommitTransaction));
        let acknowledged: Vec<u32> = Vec::new();
        assert(acknowledged@ =~= Seq::empty());
        self.flow = Flow::D2m(Waiting::CommitAck { change, acknowledged, purpose });
        effects
    }

    /// Reflects some envelopes for a task, and waits for the acknowledgements that are due.
    fn reflect<B>(&mut self, purpose: Purpose, payloads: Vec<ReflectPayload>) -> (effects: Vec<
        Effect<B, M>,
    >)
        ensures
            came_out(
                task_step::<B, M>(old(self)@, purpose@, TaskStep::ReflectMessage(payloads)),
                final(self)@,
                Ok(effects),
            ),
    {
        let (mut effects, due) = send_reflects::<B, M>(payloads);
        let acknowledged: Vec<u32> = Vec::new();
        assert(acknowledged@ =~= Seq::empty());
        if due == 0 {
            self.flow = Flow::Task(purpose);
            then_effect(
                &mut effects,
                Effect::RespondTask(
                    TaskResponse::ReflectMessage { acknowledged_reflect_ids: acknowledged },
                ),
            );
            then_effect(&mut effects, Effect::PollTask);
        } else {
            self.flow = Flow::D2m(
                Waiting::ReflectAcks {
                    pending: due,
                    acknowledged,
                    after: AfterReflect::Task(purpose),
                },
            );
        }
        effects
    }

    /// Does what the current task asks for.
    fn handle_task_step<B>(&mut self, purpose: Purpose, step: TaskStep) -> (result: Result<
        Vec<Effect<B, M>>,
        RunnerError,
    >)
        ensures
            came_out(
                if suits(purpose@, step) {
                    task_step::<B, M>(old(self)@, purpose@, step)
                } else {
                    out_of_turn(old(self)@.at(FlowView::Task(purpose@)))
                },
                final(self)@,
                result,
            ),
    {
        let suitable: bool = match &purpose {
            Purpose::Incoming => true,
            Purpose::Create(..) => match &step {
                TaskStep::BeginTransaction(change, _) => *change == ContactChange::Create,
                TaskStep::ReflectAndCommitTransaction(change, _) => *change
                    == ContactChange::Create,
                TaskStep::Done(ack) => ack.is_none(),
                _ => false,
            },
        };
        if !suitable {
            self.flow = Flow::Task(purpose);
            return Err(RunnerError::OutOfTurn);
        }
        match step {
            TaskStep::FetchSender => {
                self.flow = Flow::Task(purpose);
                Ok(two(Effect::FetchSender, Effect::PollTask))
            },
            TaskStep::BeginTransaction(change, instruction) => Ok(
                self.begin_transaction(change, purpose, instruction),
            ),
            TaskStep::ReflectAndCommitTransaction(change, payloads) => Ok(
                self.reflect_and_commit_transaction(change, purpose, payloads),
            ),
            TaskStep::ReflectMessage(payloads) => Ok(self.reflect(purpose, payloads)),
            TaskStep::Done(ack) => match purpose {
                Purpose::Incoming => {
                    self.flow = Flow::Idle;
                    match ack {
                        Some(ack) => Ok(
                            one(Effect::SendCsp(OutgoingPayloadForCspE2e::MessageAck(ack))),
                        ),
                        None => Ok(none()),
                    }
                },
                Purpose::Create(draft, public_key) => Ok(self.encrypt(draft, public_key)),
            },
        }
    }

    /// Begins to send a plain-text message. Problems with the recipient are reported as events;
    /// they do not affect the connection.
    fn handle_send_text<B>(&mut self, to: Recipient, text: String) -> (effects: Vec<Effect<B, M>>)
        requires
            old(self)@.flow == FlowView::<M>::Idle,
        ensures
            came_out(send_text::<B, M>(old(self)@, to, text@), final(self)@, Ok(effects)),
    {
        match to {
            Recipient::Contact { identity } => self.address(normalized_identity(identity.as_str()), text),
            Recipient::Group { creator_identity, group_id } => self.send_failed(
                Conversation::Group { creator_identity, group_id },
                "Group messages are not supported yet".to_owned(),
            ),
        }
    }

    /// Begins to send a message to a contact, given its identity in upper case.
    pub fn address<B>(&mut self, identity: String, text: String) -> (effects: Vec<Effect<B, M>>)
        requires
            old(self)@.flow == FlowView::<M>::Idle,
        ensures
            final(self)@ == old(self)@.at(FlowView::Parsing { identity: identity@, text: text@ }),
            flow::effect_views(effects@) == seq![EffectView::<B, M>::ParseIdentity(identity@)],
    {
        self.flow = Flow::Parsing { identity: identity.clone(), text };
        one(Effect::ParseIdentity(identity))
    }

    /// Goes on with a message once its recipient was parsed.
    fn resolve_contact<B>(
        &mut self,
        contacts: &ContactStore,
        identity: String,
        text: String,
        receiver: Option<ThreemaId>,
    ) -> (effects: Vec<Effect<B, M>>)
        ensures
            came_out(
                parsed::<B, M>(old(self)@, contacts@, identity@, text@, receiver),
                final(self)@,
                Ok(effects),
            ),
    {
        let receiver = match receiver {
            Some(receiver) => receiver,
            None => {
                let reason = concat3("'", identity.as_str(), "' is not a valid Threema ID");
                return self.send_failed(
                    Conversation::Contact { identity, name: None },
                    reason,
                );
            },
        };
        match contacts.get(&receiver) {
            Ok(Some(contact)) => self.encrypt(
                Draft { receiver, identity, text },
                contact.public_key,
            ),
            Ok(None) => {
                let asked = receiver.duplicate();
                self.flow = Flow::LookingUp(Draft { receiver, identity, text });
                one(Effect::LookUp(asked))
            },
            Err(error) => {
                self.flow = Flow::Idle;
                one(Effect::ReportStoreError { identity, error })
            },
        }
    }

    /// Goes on with a message once its recipient, which the contact store does not know, was looked
    /// up at the directory.
    fn resolve_unknown_contact<B>(
        &mut self,
        draft: Draft,
        result: Result<LookupResult, String>,
    ) -> (effects: Vec<Effect<B, M>>)
        ensures
            came_out(looked_up::<B, M>(old(self)@, draft@, result), final(self)@, Ok(effects)),
    {
        let reason: String = match result {
            // Specific to this attempt: the connection goes on.
            Err(error) => {
                let mut reason = concat3("Looking ", draft.receiver.text.as_str(), " up failed: ");
                reason.append(error.as_str());
                reason
            },
            Ok(LookupResult::ExistingContact(public_key)) => {
                return self.encrypt(draft, public_key);
            },
            Ok(LookupResult::NewContact(public_key)) => {
                let receiver = draft.receiver.duplicate();
                self.flow = Flow::Task(Purpose::Create(draft, public_key));
                return two(Effect::StartCreate(receiver), Effect::PollTask);
            },
            Ok(LookupResult::User) => "Cannot send a message to yourself".to_owned(),
            Ok(LookupResult::Invalid(identity)) => {
                let mut reason = identity.to_string();
                reason.append(" does not exist or has been revoked");
                reason
            },
            Ok(LookupResult::NotFound) => {
                let mut reason: String = "The directory returned no result for ".to_owned();
                reason.append(draft.receiver.text.as_str());
                reason
            },
        };
        self.send_failed(Conversation::Contact { identity: draft.identity, name: None }, reason)
    }

    /// Goes on after an acknowledgement by the chat server: the siblings are told first, then the
    /// message is reported as sent.
    fn handle_message_ack<B>(&mut self, ack: MessageAck) -> (effects: Vec<Effect<B, M>>)
        requires
            old(self)@.flow == FlowView::<M>::Idle,
        ensures
            came_out(acknowledged::<B, M>(old(self)@, ack), final(self)@, Ok(effects)),
    {
        let key = MessageKey {
            identity: ack.sender_identity.duplicate(),
            message_id: ack.message_id,
        };
        let pending = match self.pending_sends.remove(&key) {
            Some(pending) => pending,
            None => {
                return none();
            },
        };
        let content = sent_update_content(
            pending.identity.as_str(),
            &ack.sender_identity,
            ack.message_id,
        );
        self.reflect_content(
            Announcement::Sent {
                receiver: ack.sender_identity,
                message_id: ack.message_id,
                pending,
            },
            content,
        )
    }

    /// Goes on after an input while nothing is under way.
    fn step_idle<B>(&mut self, contacts: &mut ContactStore, input: Input<B, M>) -> (result: Result<
        Vec<Effect<B, M>>,
        RunnerError,
    >)
        requires
            old(self)@.flow == FlowView::<M>::Idle,
        ensures
            came_out(idle_next(old(self)@, old(contacts)@, input), final(self)@, result),
            final(contacts)@ == match input {
                Input::D2m(Some(payload)) => contacts_after(payload, old(contacts)@),
                _ => old(contacts)@,
            },
    {
        match input {
            Input::Csp(Some(IncomingPayloadForCspE2e::Message(message))) => {
                self.flow = Flow::Task(Purpose::Incoming);
                Ok(two(Effect::StartIncoming(message), Effect::PollTask))
            },
            Input::Csp(Some(IncomingPayloadForCspE2e::MessageAck(ack))) => Ok(
                self.handle_message_ack(ack),
            ),
            Input::Csp(None) => {
                self.flow = Flow::Finished;
                Err(RunnerError::Failed("CSP incoming channel closed".to_owned()))
            },
            Input::D2m(Some(payload)) => Ok(Self::handle_unsolicited_d2m(contacts, payload)),
            Input::D2m(None) => {
                self.flow = Flow::Finished;
                Err(RunnerError::Failed("D2M incoming channel closed".to_owned()))
            },
            Input::Command(Some(Command::SendText { to, text })) => Ok(
                self.handle_send_text(to, text),
            ),
            // A dropped sender is an implicit request to shut down.
            Input::Command(Some(Command::Shutdown)) | Input::Command(None) => {
                self.flow = Flow::Finished;
                Ok(none())
            },
            _ => Err(RunnerError::OutOfTurn),
        }
    }

    /// Ends the flow with an error.
    fn fail<B>(&mut self, context: &str, error: &str) -> (result: Result<
        Vec<Effect<B, M>>,
        RunnerError,
    >)
        ensures
            came_out(failed::<B, M>(old(self)@, context@ + error@), final(self)@, result),
    {
        self.flow = Flow::Finished;
        let mut text: String = context.to_owned();
        text.append(error);
        Err(RunnerError::Failed(text))
    }

    /// Refuses an input.
    fn refuse<B>(&mut self, flow: Flow<M>) -> (result: Result<Vec<Effect<B, M>>, RunnerError>)
        ensures
            came_out(out_of_turn::<B, M>(old(self)@.at(flow@)), final(self)@, result),
    {
        self.flow = flow;
        Err(RunnerError::OutOfTurn)
    }

    /// Goes on after an input, until the flow is asked to shut down, the command sender is dropped or
    /// something fails. The effects are to be performed in order before the next step; which input
    /// is due then is what [`Self::expects`] says.
    pub fn run<B>(
        &mut self,
        contacts: &mut ContactStore,
        nonces: &mut NonceStore,
        input: Input<B, M>,
    ) -> (result: Result<Vec<Effect<B, M>>, RunnerError>)
        ensures
            ({
                let before = Machine {
                    runner: old(self)@,
                    contacts: old(contacts)@,
                    nonces: old(nonces)@,
                };
                let expected = next(before, input);
                &&& expected.after == (Machine {
                    runner: final(self)@,
                    contacts: final(contacts)@,
                    nonces: final(nonces)@,
                })
                &&& match expected.error {
                    None => {
                        &&& result matches Ok(effects)
                        &&& flow::effect_views(effects@) == expected.effects
                    },
                    Some(error) => result matches Err(returned) && returned@ == error,
                }
            }),
    {
        let mut flow: Flow<M> = Flow::Finished;
        std::mem::swap(&mut flow, &mut self.flow);
        match (flow, input) {
            (Flow::Idle, input) => {
                self.flow = Flow::Idle;
                self.step_idle(contacts, input)
            },
            (Flow::Task(purpose), Input::TaskPolled(Ok(step))) => self.handle_task_step(
                purpose,
                step,
            ),
            (Flow::Task(_), Input::TaskPolled(Err(error))) => Err(RunnerError::Failed(error)),
            (Flow::D2m(waiting), Input::D2m(Some(payload))) => self.handle_awaited_d2m(
                contacts,
                waiting,
                payload,
            ),
            (Flow::D2m(waiting), Input::D2m(None)) => match waiting {
                Waiting::ReflectAcks { after: AfterReflect::Announced(_), .. } => Err(
                    RunnerError::Failed(
                        "Reflecting to the mediator failed: D2M incoming channel closed".to_owned(),
                    ),
                ),
                _ => Err(RunnerError::Failed("D2M incoming channel closed".to_owned())),
            },
            (Flow::Parsing { identity, text }, Input::IdentityParsed(receiver)) => Ok(
                self.resolve_contact(contacts, identity, text, receiver),
            ),
            (Flow::LookingUp(draft), Input::LookedUp(result)) => Ok(
                self.resolve_unknown_contact(draft, result),
            ),
            (
                Flow::Encrypting(draft),
                Input::Encrypted { message_id, created_at, nonce, message },
            ) => {
                // Recorded before anything leaves this device, so that the nonce is never used
                // again whatever happens next.
                record_nonce(nonces, NonceScope::CspE2e, nonce);
                self.flow = Flow::SavingCspNonce(
                    Delivery { draft, message_id, created_at, nonce, message },
                );
                Ok(one(Effect::SaveNonces))
            },
            (Flow::SavingCspNonce(delivery), Input::NoncesSaved(Ok(_))) => {
                let content = outgoing_text_content(&delivery);
                Ok(self.reflect_content(Announcement::Outgoing(delivery), content))
            },
            (Flow::SavingCspNonce(_), Input::NoncesSaved(Err(error))) => self.fail(
                "Failed to record CSP nonce: ",
                error.as_str(),
            ),
            (Flow::Sealing(announcement), Input::Sealed(Some((envelope, nonce)))) => {
                record_nonce(nonces, NonceScope::D2x, nonce);
                self.flow = Flow::SavingD2xNonce { announcement, envelope };
                Ok(one(Effect::SaveNonces))
            },
            (Flow::Sealing(_), Input::Sealed(None)) => Err(
                RunnerError::Failed("Encrypting reflect envelope failed".to_owned()),
            ),
            (Flow::SavingD2xNonce { announcement, envelope }, Input::NoncesSaved(Ok(_))) => {
                self.next_reflect_id = self.next_reflect_id.wrapping_add(1);
                let acknowledged: Vec<u32> = Vec::new();
                assert(acknowledged@ =~= Seq::empty());
                self.flow = Flow::D2m(
                    Waiting::ReflectAcks {
                        pending: 1,
                        acknowledged,
                        after: AfterReflect::Announced(announcement),
                    },
                );
                Ok(
                    one(
                        Effect::SendD2m(
                            D2mOutgoingPayload::Reflect {
                                ephemeral: false,
                                reflect_id: self.next_reflect_id,
                                envelope,
                            },
                        ),
                    ),
                )
            },
            (Flow::SavingD2xNonce { .. }, Input::NoncesSaved(Err(error))) => self.fail(
                "Failed to record D2X nonce: ",
                error.as_str(),
            ),
            (flow, _) => self.refuse(flow),
        }
    }
}

} // verus!
