//! What each step of the message flow does, in terms of what it hears and what it remembers.

use vstd::prelude::*;

use crate::command::{Command, Recipient};
use crate::conversation;
use crate::csp::{IncomingPayloadForCspE2e, MessageAck, OutgoingPayloadForCspE2e};
use crate::d2d::{
    self, ContentView, ConversationIdView, EnvelopeView, MessageType, Opened,
    OutgoingMessageUpdateView, OutgoingMessageView, ProtocolVersion, UpdateKind,
};
use crate::d2d_laws;
use crate::e2e::{self, Expects, Machine, Outcome, RunnerView};
use crate::event::{ConversationView, EventView, TextMessageView};
use crate::flow::{
    AfterReflectView, AnnouncementView, BeginTransactionInstruction, ContactChange,
    ContactsResponseView, D2mIncomingPayload, D2mOutgoingPayload, DeliveryView, DraftView,
    EffectView, FlowView, Input, LookupResult, PendingSendView, PurposeView, ReflectPayload,
    RunnerErrorView, TaskResponseView, TaskStep, WaitingView,
};
use crate::hex;
use crate::model::{IdentityTextView, Nonce, PublicKey, ThreemaId};
use crate::store::NoncesView;
use crate::text;

verus! {

/// Whether a step leads to a point of the flow with some effects, and changes nothing else.
pub open spec fn leads_to<B, M>(
    machine: Machine<M>,
    input: Input<B, M>,
    flow: FlowView<M>,
    effects: Seq<EffectView<B, M>>,
) -> bool {
    e2e::next(machine, input) =~= (Outcome {
        after: Machine { runner: RunnerView { flow, ..machine.runner }, ..machine },
        effects,
        error: None,
    })
}

/// Whether a step ends the flow with an error, does nothing and changes nothing else.
pub open spec fn fails_with<B, M>(machine: Machine<M>, input: Input<B, M>, error: Seq<char>) -> bool {
    e2e::next(machine, input) =~= (Outcome {
        after: Machine {
            runner: RunnerView { flow: FlowView::Finished, ..machine.runner },
            ..machine
        },
        effects: Seq::empty(),
        error: Some(RunnerErrorView::Failed(error)),
    })
}

/// The conversation with a contact, as envelopes name it.
pub open spec fn named_conversation(identity: Seq<char>, receiver: Seq<char>) -> ConversationIdView {
    ConversationIdView::Contact(IdentityTextView { text: identity, identity: Some(receiver) })
}

// What is listened to
// -------------------
/// Whether the flow, where it stands, takes an input at all.
pub open spec fn takes<B, M>(flow: FlowView<M>, input: Input<B, M>) -> bool {
    match input {
        Input::Csp(_) => flow is Idle,
        Input::Command(_) => flow is Idle,
        Input::D2m(_) => flow is Idle || flow is D2m,
        Input::TaskPolled(Err(_)) => flow is Task,
        Input::TaskPolled(Ok(step)) => match flow {
            FlowView::Task(PurposeView::Incoming) => true,
            FlowView::Task(PurposeView::Create(..)) => match step {
                TaskStep::BeginTransaction(ContactChange::Create, _) => true,
                TaskStep::ReflectAndCommitTransaction(ContactChange::Create, _) => true,
                TaskStep::Done(None) => true,
                _ => false,
            },
            _ => false,
        },
        Input::IdentityParsed(_) => flow is Parsing,
        Input::LookedUp(_) => flow is LookingUp,
        Input::Encrypted { .. } => flow is Encrypting,
        Input::NoncesSaved(_) => flow is SavingCspNonce || flow is SavingD2xNonce,
        Input::Sealed(_) => flow is Sealing,
    }
}

/// An input is refused exactly if it is not what the flow waits for; then nothing changes.
pub proof fn nothing_due_is_refused<B, M>(machine: Machine<M>, input: Input<B, M>)
    ensures
        e2e::next(machine, input).error == Some(RunnerErrorView::OutOfTurn) <==> !takes(
            machine.runner.flow,
            input,
        ),
        !takes(machine.runner.flow, input) ==> e2e::next(machine, input) == (Outcome {
            after: machine,
            effects: Seq::<EffectView<B, M>>::empty(),
            error: Some(RunnerErrorView::OutOfTurn),
        }),
{
}

/// No step changes this device's ID; the last reflect ID that was used only changes when an
/// announcement is reflected, and it goes up by one, to zero after the greatest.
pub proof fn identity_and_numbering_are_kept<B, M>(machine: Machine<M>, input: Input<B, M>)
    ensures
        ({
            let after = e2e::next(machine, input).after.runner;
            let last = machine.runner.next_reflect_id;
            let announces = machine.runner.flow is SavingD2xNonce && (input matches Input::NoncesSaved(
                Ok(_),
            ));
            &&& after.device_id == machine.runner.device_id
            &&& !announces ==> after.next_reflect_id == last
            &&& announces && last < u32::MAX ==> after.next_reflect_id == last + 1
            &&& announces && last == u32::MAX ==> after.next_reflect_id == 0
        }),
{
}

// Sending
// -------
/// A wish to send a message to a contact has the identity parsed, in upper case; the text is kept.
/// A wish to send one to a group is reported as failed, naming the group.
pub proof fn sending_begins_with_the_recipient<B, M>(
    machine: Machine<M>,
    identity: String,
    creator: String,
    group_id: u64,
    message: String,
)
    requires
        machine.runner.flow is Idle,
    ensures
        leads_to::<B, M>(
            machine,
            Input::Command(
                Some(
                    Command::SendText { to: Recipient::Contact { identity }, text: message },
                ),
            ),
            FlowView::Parsing { identity: text::uppercase(identity@), text: message@ },
            seq![EffectView::ParseIdentity(text::uppercase(identity@))],
        ),
        leads_to::<B, M>(
            machine,
            Input::Command(
                Some(
                    Command::SendText {
                        to: Recipient::Group { creator_identity: creator, group_id },
                        text: message,
                    },
                ),
            ),
            FlowView::Idle,
            seq![
                EffectView::Emit(
                    EventView::SendFailed {
                        conversation: ConversationView::Group {
                            creator_identity: creator@,
                            group_id,
                        },
                        reason: "Group messages are not supported yet"@,
                    },
                ),
            ],
        ),
{
}

/// A message whose recipient is not a valid identity is reported as failed, naming the identity.
pub proof fn invalid_recipients_are_reported<B, M>(
    machine: Machine<M>,
    identity: Seq<char>,
    message: Seq<char>,
)
    requires
        machine.runner.flow == (FlowView::<M>::Parsing { identity, text: message }),
    ensures
        leads_to::<B, M>(
            machine,
            Input::IdentityParsed(None),
            FlowView::Idle,
            seq![
                EffectView::Emit(
                    EventView::SendFailed {
                        conversation: ConversationView::Contact { identity, name: None },
                        reason: "'"@ + identity + "' is not a valid Threema ID"@,
                    },
                ),
            ],
        ),
{
}

/// A message to a known contact is encrypted for that contact's public key, with its own text; an
/// unknown recipient is looked up; a refusal of the contact store is reported with its reason.
pub proof fn recipients_are_resolved<B, M>(
    machine: Machine<M>,
    identity: Seq<char>,
    message: Seq<char>,
    receiver: ThreemaId,
)
    requires
        machine.runner.flow == (FlowView::<M>::Parsing { identity, text: message }),
    ensures
        ({
            let draft = DraftView { receiver: receiver@, identity, text: message };
            let input = Input::<B, M>::IdentityParsed(Some(receiver));
            match machine.contacts.get(receiver@) {
                Ok(Some(contact)) => leads_to(
                    machine,
                    input,
                    FlowView::Encrypting(draft),
                    seq![
                        EffectView::Encrypt {
                            receiver: receiver@,
                            public_key: contact.public_key,
                            text: message,
                        },
                    ],
                ),
                Ok(None) => leads_to(
                    machine,
                    input,
                    FlowView::LookingUp(draft),
                    seq![EffectView::LookUp(receiver@)],
                ),
                Err(error) => leads_to(
                    machine,
                    input,
                    FlowView::Idle,
                    seq![EffectView::ReportStoreError { identity, error }],
                ),
            }
        }),
{
}

/// What the directory knows decides: a message to an existing contact is encrypted for the key that
/// it gave, a new contact is created first, and everything else is reported as failed, for the
/// recipient as it was written, with the reason.
pub proof fn directory_decides<B, M>(
    machine: Machine<M>,
    draft: DraftView,
    key: PublicKey,
    revoked: ThreemaId,
    error: String,
)
    requires
        machine.runner.flow == FlowView::<M>::LookingUp(draft),
    ensures
        leads_to::<B, M>(
            machine,
            Input::LookedUp(Ok(LookupResult::ExistingContact(key))),
            FlowView::Encrypting(draft),
            seq![
                EffectView::Encrypt {
                    receiver: draft.receiver,
                    public_key: key@,
                    text: draft.text,
                },
            ],
        ),
        leads_to::<B, M>(
            machine,
            Input::LookedUp(Ok(LookupResult::NewContact(key))),
            FlowView::Task(PurposeView::Create(draft, key@)),
            seq![EffectView::StartCreate(draft.receiver), EffectView::PollTask],
        ),
        lookup_refused::<B, M>(
            machine,
            draft,
            Err(error),
            "Looking "@ + draft.receiver + " up failed: "@ + error@,
        ),
        lookup_refused::<B, M>(
            machine,
            draft,
            Ok(LookupResult::User),
            "Cannot send a message to yourself"@,
        ),
        lookup_refused::<B, M>(
            machine,
            draft,
            Ok(LookupResult::Invalid(revoked)),
            revoked@ + " does not exist or has been revoked"@,
        ),
        lookup_refused::<B, M>(
            machine,
            draft,
            Ok(LookupResult::NotFound),
            "The directory returned no result for "@ + draft.receiver,
        ),
{
}

/// Whether a message is reported as failed after its recipient was looked up, for this reason.
pub open spec fn lookup_refused<B, M>(
    machine: Machine<M>,
    draft: DraftView,
    result: Result<LookupResult, String>,
    reason: Seq<char>,
) -> bool {
    leads_to::<B, M>(
        machine,
        Input::LookedUp(result),
        FlowView::Idle,
        seq![
            EffectView::Emit(
                EventView::SendFailed {
                    conversation: ConversationView::Contact {
                        identity: draft.identity,
                        name: None,
                    },
                    reason,
                },
            ),
        ],
    )
}

/// What the flow learns of an encrypted message is remembered as it is, its nonce is added to those
/// of chat messages, and only to those, and the nonces are saved.
pub proof fn encrypted_messages_are_remembered<B, M>(
    machine: Machine<M>,
    draft: DraftView,
    message_id: u64,
    created_at: u64,
    nonce: Nonce,
    message: Result<M, String>,
)
    requires
        machine.runner.flow == FlowView::<M>::Encrypting(draft),
    ensures
        e2e::next::<B, M>(
            machine,
            Input::Encrypted { message_id, created_at, nonce, message },
        ) == (Outcome {
            after: Machine {
                runner: RunnerView {
                    flow: FlowView::SavingCspNonce(
                        DeliveryView {
                            draft,
                            message_id,
                            created_at,
                            nonce: nonce@,
                            message: match message {
                                Ok(message) => Ok(message),
                                Err(error) => Err(error@),
                            },
                        },
                    ),
                    ..machine.runner
                },
                nonces: NoncesView {
                    csp_e2e: machine.nonces.csp_e2e.insert(hex::hex_text(nonce@)),
                    d2x: machine.nonces.d2x,
                },
                ..machine
            },
            effects: seq![EffectView::<B, M>::SaveNonces],
            error: None,
        }),
{
    reveal_with_fuel(NoncesView::with_many, 2);
    assert(seq![nonce].drop_last() =~= Seq::empty());
}

/// Once its nonce is on the disk, a message is announced to the siblings: with its conversation,
/// ID and time, its text in the clear, and the nonce. If the nonce is not, the flow ends.
pub proof fn messages_are_announced<B, M>(
    machine: Machine<M>,
    delivery: DeliveryView<M>,
    error: String,
)
    requires
        machine.runner.flow == FlowView::SavingCspNonce(delivery),
    ensures
        leads_to::<B, M>(
            machine,
            Input::NoncesSaved(Ok(())),
            FlowView::Sealing(AnnouncementView::Outgoing(delivery)),
            seq![
                EffectView::Seal(
                    EnvelopeView {
                        device_id: machine.runner.device_id,
                        protocol_version: ProtocolVersion::V03,
                        content: Some(
                            ContentView::OutgoingMessage(
                                OutgoingMessageView {
                                    conversation: Some(
                                        named_conversation(
                                            delivery.draft.identity,
                                            delivery.draft.receiver,
                                        ),
                                    ),
                                    message_id: delivery.message_id,
                                    thread_message_id: None,
                                    created_at: delivery.created_at,
                                    message_type: MessageType::Text,
                                    body: vstd::utf8::encode_utf8(delivery.draft.text),
                                    nonces: seq![delivery.nonce],
                                },
                            ),
                        ),
                    },
                ),
            ],
        ),
        fails_with::<B, M>(
            machine,
            Input::NoncesSaved(Err(error)),
            "Failed to record CSP nonce: "@ + error@,
        ),
{
}

/// An acknowledgement of a message that waits for it has the siblings told, in a single update,
/// that this message was sent in the conversation that it was sent in; the message does not wait
/// any more, and every other one still does.
pub proof fn accepted_messages_are_announced<B, M>(machine: Machine<M>, ack: MessageAck)
    requires
        machine.runner.flow is Idle,
        machine.runner.pending_sends.dom().contains((ack.sender_identity@, ack.message_id)),
    ensures
        ({
            let key = (ack.sender_identity@, ack.message_id);
            let pending = machine.runner.pending_sends[key];
            e2e::next::<B, M>(
                machine,
                Input::Csp(Some(IncomingPayloadForCspE2e::MessageAck(ack))),
            ) == (Outcome {
                after: Machine {
                    runner: RunnerView {
                        flow: FlowView::Sealing(
                            AnnouncementView::Sent {
                                receiver: ack.sender_identity@,
                                message_id: ack.message_id,
                                pending,
                            },
                        ),
                        pending_sends: machine.runner.pending_sends.remove(key),
                        ..machine.runner
                    },
                    ..machine
                },
                effects: seq![
                    EffectView::<B, M>::Seal(
                        EnvelopeView {
                            device_id: machine.runner.device_id,
                            protocol_version: ProtocolVersion::V03,
                            content: Some(
                                ContentView::OutgoingMessageUpdate(
                                    seq![
                                        OutgoingMessageUpdateView {
                                            conversation: Some(
                                                named_conversation(
                                                    pending.identity,
                                                    ack.sender_identity@,
                                                ),
                                            ),
                                            message_id: ack.message_id,
                                            update: Some(UpdateKind::Sent),
                                        },
                                    ],
                                ),
                            ),
                        },
                    ),
                ],
                error: None,
            })
        }),
{
}

/// What the siblings are told when a message is being sent and when it was sent goes together: the
/// update is on the same message in the same conversation, which is that with the receiver.
pub proof fn updates_name_the_announced_message<M>(delivery: DeliveryView<M>)
    ensures
        ({
            let announced = e2e::outgoing_text(delivery);
            let updated = e2e::sent_update(
                delivery.draft.identity,
                delivery.draft.receiver,
                delivery.message_id,
            );
            &&& announced matches ContentView::OutgoingMessage(message)
            &&& updated matches ContentView::OutgoingMessageUpdate(updates)
            &&& updates.len() == 1
            &&& updates[0].conversation == message.conversation
            &&& updates[0].message_id == message.message_id
            &&& updates[0].update == Some(UpdateKind::Sent)
            &&& message.conversation matches Some(ConversationIdView::Contact(contact))
            &&& contact.text == delivery.draft.identity
            &&& contact.identity == Some(delivery.draft.receiver)
        }),
{
}

/// The nonce of an encrypted envelope is added to those of envelopes, and only to those, and the
/// nonces are saved; an envelope that could not be encrypted ends the flow.
pub proof fn sealed_envelopes_are_remembered<B, M>(
    machine: Machine<M>,
    announcement: AnnouncementView<M>,
    envelope: Vec<u8>,
    nonce: Nonce,
)
    requires
        machine.runner.flow == FlowView::Sealing(announcement),
    ensures
        e2e::next::<B, M>(machine, Input::Sealed(Some((envelope, nonce)))) == (Outcome {
            after: Machine {
                runner: RunnerView {
                    flow: FlowView::SavingD2xNonce { announcement, envelope },
                    ..machine.runner
                },
                nonces: NoncesView {
                    csp_e2e: machine.nonces.csp_e2e,
                    d2x: machine.nonces.d2x.insert(hex::hex_text(nonce@)),
                },
                ..machine
            },
            effects: seq![EffectView::<B, M>::SaveNonces],
            error: None,
        }),
        fails_with::<B, M>(machine, Input::Sealed(None), "Encrypting reflect envelope failed"@),
{
    reveal_with_fuel(NoncesView::with_many, 2);
    assert(seq![nonce].drop_last() =~= Seq::empty());
}

/// Once its nonce is on the disk, an envelope is reflected, once and not ephemerally, under the
/// reflect ID after the last one, and its acknowledgement is waited for. If the nonce is not on the
/// disk, the flow ends.
pub proof fn sealed_envelopes_are_reflected<B, M>(
    machine: Machine<M>,
    announcement: AnnouncementView<M>,
    envelope: Vec<u8>,
    error: String,
)
    requires
        machine.runner.flow == (FlowView::SavingD2xNonce { announcement, envelope }),
    ensures
        ({
            let last = machine.runner.next_reflect_id;
            let id: u32 = if last == u32::MAX {
                0
            } else {
                (last + 1) as u32
            };
            e2e::next::<B, M>(machine, Input::NoncesSaved(Ok(()))) == (Outcome {
                after: Machine {
                    runner: RunnerView {
                        flow: FlowView::D2m(
                            WaitingView::ReflectAcks {
                                pending: 1,
                                acknowledged: Seq::empty(),
                                after: AfterReflectView::Announced(announcement),
                            },
                        ),
                        next_reflect_id: id,
                        ..machine.runner
                    },
                    ..machine
                },
                effects: seq![
                    EffectView::<B, M>::SendD2m(
                        D2mOutgoingPayload::Reflect { ephemeral: false, reflect_id: id, envelope },
                    ),
                ],
                error: None,
            })
        }),
        fails_with::<B, M>(
            machine,
            Input::NoncesSaved(Err(error)),
            "Failed to record D2X nonce: "@ + error@,
        ),
{
}

/// The last acknowledgement of an announcement that a message is being sent hands just this message
/// to the chat server, and it then waits, under its receiver and ID, with the text and time that it
/// will be reported with; a message that the chat server does not accept ends the flow.
pub proof fn announced_messages_are_delivered<B, M>(
    machine: Machine<M>,
    pending: nat,
    acknowledged: Seq<u32>,
    delivery: DeliveryView<M>,
    reflect_id: u32,
)
    requires
        pending <= 1,
        machine.runner.flow == FlowView::D2m(
            WaitingView::ReflectAcks {
                pending,
                acknowledged,
                after: AfterReflectView::Announced(AnnouncementView::Outgoing(delivery)),
            },
        ),
    ensures
        ({
            let input = Input::<B, M>::D2m(Some(D2mIncomingPayload::ReflectAck { reflect_id }));
            match delivery.message {
                Ok(message) => e2e::next(machine, input) == (Outcome {
                    after: Machine {
                        runner: RunnerView {
                            flow: FlowView::Idle,
                            pending_sends: machine.runner.pending_sends.insert(
                                (delivery.draft.receiver, delivery.message_id),
                                PendingSendView {
                                    identity: delivery.draft.identity,
                                    text: delivery.draft.text,
                                    created_at: delivery.created_at,
                                },
                            ),
                            ..machine.runner
                        },
                        ..machine
                    },
                    effects: seq![
                        EffectView::<B, M>::SendCsp(OutgoingPayloadForCspE2e::Message(message)),
                    ],
                    error: None,
                }),
                Err(error) => fails_with(
                    machine,
                    input,
                    "Encoding outgoing message failed: "@ + error,
                ),
            }
        }),
{
}

/// The last acknowledgement of an announcement that a message was sent reports just this message,
/// as one of the user's own in the conversation with the receiver, under the name that the contact
/// store has for it, with the text and time that it was sent with.
pub proof fn accepted_messages_are_reported<B, M>(
    machine: Machine<M>,
    count: nat,
    acknowledged: Seq<u32>,
    receiver: Seq<char>,
    message_id: u64,
    pending: PendingSendView,
    reflect_id: u32,
)
    requires
        count <= 1,
        machine.runner.flow == FlowView::<M>::D2m(
            WaitingView::ReflectAcks {
                pending: count,
                acknowledged,
                after: AfterReflectView::Announced(
                    AnnouncementView::Sent { receiver, message_id, pending },
                ),
            },
        ),
    ensures
        leads_to::<B, M>(
            machine,
            Input::D2m(Some(D2mIncomingPayload::ReflectAck { reflect_id })),
            FlowView::Idle,
            seq![
                EffectView::Emit(
                    EventView::TextMessage(
                        TextMessageView {
                            timestamp_ms: pending.created_at,
                            outgoing: true,
                            conversation: ConversationView::Contact {
                                identity: pending.identity,
                                name: conversation::name_in(machine.contacts, receiver),
                            },
                            sender_identity: None,
                            sender_name: None,
                            text: pending.text,
                        },
                    ),
                ),
            ],
        ),
{
}

// Receiving and tasks
// -------------------
/// A message of the chat server begins a task that handles just that message.
pub proof fn messages_begin_a_task<B, M>(machine: Machine<M>, message: B)
    requires
        machine.runner.flow is Idle,
    ensures
        leads_to::<B, M>(
            machine,
            Input::Csp(Some(IncomingPayloadForCspE2e::Message(message))),
            FlowView::Task(PurposeView::Incoming),
            seq![EffectView::StartIncoming(message), EffectView::PollTask],
        ),
{
}

/// A task that wants the sender looked up has that done and is polled again.
pub proof fn senders_are_fetched<B, M>(machine: Machine<M>)
    requires
        machine.runner.flow == FlowView::<M>::Task(PurposeView::Incoming),
    ensures
        leads_to::<B, M>(
            machine,
            Input::TaskPolled(Ok(TaskStep::FetchSender)),
            FlowView::Task(PurposeView::Incoming),
            seq![EffectView::FetchSender, EffectView::PollTask],
        ),
{
}

/// A task that handled an incoming message leads back to where nothing is under way, with the
/// acknowledgement that it asks for, if it asks for one; one that created a contact has the message
/// encrypted that the contact was created for, for the contact's key.
pub proof fn tasks_come_to_their_end<B, M>(
    machine: Machine<M>,
    ack: MessageAck,
    draft: DraftView,
    public_key: Seq<u8>,
)
    ensures
        machine.runner.flow == FlowView::<M>::Task(PurposeView::Incoming) ==> leads_to::<B, M>(
            machine,
            Input::TaskPolled(Ok(TaskStep::Done(Some(ack)))),
            FlowView::Idle,
            seq![EffectView::SendCsp(OutgoingPayloadForCspE2e::MessageAck(ack))],
        ),
        machine.runner.flow == FlowView::<M>::Task(PurposeView::Incoming) ==> leads_to::<B, M>(
            machine,
            Input::TaskPolled(Ok(TaskStep::Done(None))),
            FlowView::Idle,
            Seq::empty(),
        ),
        machine.runner.flow == FlowView::<M>::Task(PurposeView::Create(draft, public_key))
            ==> leads_to::<B, M>(
            machine,
            Input::TaskPolled(Ok(TaskStep::Done(None))),
            FlowView::Encrypting(draft),
            seq![
                EffectView::Encrypt { receiver: draft.receiver, public_key, text: draft.text },
            ],
        ),
{
}

/// A task that fails ends the flow with its error.
pub proof fn failed_tasks_end_the_flow<B, M>(machine: Machine<M>, error: String)
    requires
        machine.runner.flow is Task,
    ensures
        fails_with::<B, M>(machine, Input::TaskPolled(Err(error)), error@),
{
}

/// A task that wants to begin a transaction has it asked for, for its scope and time to live (none
/// if that is zero), and its answer waited for; one whose transaction was rejected has the end of
/// the other one waited for; one that gives up has the transaction ended.
pub proof fn transactions_are_asked_for<B, M>(
    machine: Machine<M>,
    purpose: PurposeView,
    change: ContactChange,
    encrypted_scope: Vec<u8>,
    ttl: u32,
)
    requires
        machine.runner.flow == FlowView::<M>::Task(purpose),
        purpose is Incoming || change is Create,
    ensures
        leads_to::<B, M>(
            machine,
            Input::TaskPolled(
                Ok(
                    TaskStep::BeginTransaction(
                        change,
                        BeginTransactionInstruction::BeginTransaction { encrypted_scope, ttl },
                    ),
                ),
            ),
            FlowView::D2m(WaitingView::BeginReply(change, purpose)),
            seq![
                EffectView::SendD2m(
                    D2mOutgoingPayload::BeginTransaction {
                        encrypted_scope,
                        ttl: if ttl == 0 {
                            None
                        } else {
                            Some(ttl as u64)
                        },
                    },
                ),
            ],
        ),
        leads_to::<B, M>(
            machine,
            Input::TaskPolled(
                Ok(
                    TaskStep::BeginTransaction(
                        change,
                        BeginTransactionInstruction::TransactionRejected,
                    ),
                ),
            ),
            FlowView::D2m(WaitingView::TransactionEnded(purpose)),
            Seq::empty(),
        ),
        leads_to::<B, M>(
            machine,
            Input::TaskPolled(
                Ok(
                    TaskStep::BeginTransaction(
                        change,
                        BeginTransactionInstruction::AbortTransaction,
                    ),
                ),
            ),
            FlowView::D2m(WaitingView::AbortAck(change, purpose)),
            seq![EffectView::SendD2m(D2mOutgoingPayload::CommitTransaction)],
        ),
{
}

/// Whether a task is told of an answer of the mediator, and polled again.
pub open spec fn task_hears<B, M>(
    machine: Machine<M>,
    payload: D2mIncomingPayload,
    purpose: PurposeView,
    response: TaskResponseView,
) -> bool {
    leads_to::<B, M>(
        machine,
        Input::D2m(Some(payload)),
        FlowView::Task(purpose),
        seq![EffectView::RespondTask(response), EffectView::PollTask],
    )
}

/// A task that asked for a transaction is told whether it was granted: a rejection is handed on
/// with the device and the scope that it names.
pub proof fn transaction_answers_reach_the_task<B, M>(
    machine: Machine<M>,
    change: ContactChange,
    purpose: PurposeView,
    device_id: u64,
    encrypted_scope: Vec<u8>,
)
    requires
        machine.runner.flow == FlowView::<M>::D2m(WaitingView::BeginReply(change, purpose)),
    ensures
        task_hears::<B, M>(
            machine,
            D2mIncomingPayload::BeginTransactionAck,
            purpose,
            TaskResponseView::Contacts(change, ContactsResponseView::BeginTransactionAck),
        ),
        task_hears::<B, M>(
            machine,
            D2mIncomingPayload::TransactionRejected { device_id, encrypted_scope },
            purpose,
            TaskResponseView::Contacts(
                change,
                ContactsResponseView::TransactionRejected {
                    device_id,
                    encrypted_scope: encrypted_scope@,
                },
            ),
        ),
{
}

/// A task that gave its transaction up is told when it has ended; one that waits for another
/// transaction to end is polled again when it has, without being told anything.
pub proof fn transaction_ends_reach_the_task<B, M>(
    machine: Machine<M>,
    change: ContactChange,
    purpose: PurposeView,
)
    ensures
        machine.runner.flow == FlowView::<M>::D2m(WaitingView::AbortAck(change, purpose))
            ==> task_hears::<B, M>(
            machine,
            D2mIncomingPayload::CommitTransactionAck,
            purpose,
            TaskResponseView::Contacts(change, ContactsResponseView::AbortTransactionResponse),
        ),
        machine.runner.flow == FlowView::<M>::D2m(WaitingView::TransactionEnded(purpose))
            ==> leads_to::<B, M>(
            machine,
            Input::D2m(Some(D2mIncomingPayload::TransactionEnded)),
            FlowView::Task(purpose),
            seq![EffectView::PollTask],
        ),
{
}

/// A task's transaction is committed after everything that it reflects was sent, in order; the
/// acknowledgements are collected and handed to the task when the transaction has ended.
pub proof fn transactions_are_committed<B, M>(
    machine: Machine<M>,
    purpose: PurposeView,
    change: ContactChange,
    payloads: Vec<ReflectPayload>,
    i: int,
)
    requires
        machine.runner.flow == FlowView::<M>::Task(purpose),
        purpose is Incoming || change is Create,
        0 <= i < payloads@.len(),
    ensures
        ({
            let outcome = e2e::next::<B, M>(
                machine,
                Input::TaskPolled(
                    Ok(TaskStep::ReflectAndCommitTransaction(change, payloads)),
                ),
            );
            &&& outcome.error is None
            &&& outcome.effects.len() == payloads@.len() + 1
            &&& outcome.effects[i] == EffectView::<B, M>::SendD2m(
                D2mOutgoingPayload::Reflect {
                    ephemeral: payloads@[i].ephemeral,
                    reflect_id: payloads@[i].id,
                    envelope: payloads@[i].envelope,
                },
            )
            &&& outcome.effects.last() == EffectView::<B, M>::SendD2m(
                D2mOutgoingPayload::CommitTransaction,
            )
            &&& outcome.after == (Machine {
                runner: RunnerView {
                    flow: FlowView::D2m(
                        WaitingView::CommitAck { change, acknowledged: Seq::empty(), purpose },
                    ),
                    ..machine.runner
                },
                ..machine
            })
        }),
{
}

/// A transaction without anything to reflect is committed at once.
pub proof fn empty_transactions_are_committed<B, M>(
    machine: Machine<M>,
    purpose: PurposeView,
    change: ContactChange,
    payloads: Vec<ReflectPayload>,
)
    requires
        machine.runner.flow == FlowView::<M>::Task(purpose),
        purpose is Incoming || change is Create,
        payloads@.len() == 0,
    ensures
        leads_to::<B, M>(
            machine,
            Input::TaskPolled(Ok(TaskStep::ReflectAndCommitTransaction(change, payloads))),
            FlowView::D2m(WaitingView::CommitAck { change, acknowledged: Seq::empty(), purpose }),
            seq![EffectView::SendD2m(D2mOutgoingPayload::CommitTransaction)],
        ),
{
}

/// While a transaction is being committed, an acknowledgement is kept behind those that came before
/// it; the end of the transaction hands all of them to the task.
pub proof fn commit_acknowledgements_are_kept<B, M>(
    machine: Machine<M>,
    purpose: PurposeView,
    change: ContactChange,
    acknowledged: Seq<u32>,
    reflect_id: u32,
)
    requires
        machine.runner.flow == FlowView::<M>::D2m(
            WaitingView::CommitAck { change, acknowledged, purpose },
        ),
    ensures
        leads_to::<B, M>(
            machine,
            Input::D2m(Some(D2mIncomingPayload::ReflectAck { reflect_id })),
            FlowView::D2m(
                WaitingView::CommitAck {
                    change,
                    acknowledged: acknowledged.push(reflect_id),
                    purpose,
                },
            ),
            Seq::empty(),
        ),
        task_hears::<B, M>(
            machine,
            D2mIncomingPayload::CommitTransactionAck,
            purpose,
            TaskResponseView::Contacts(
                change,
                ContactsResponseView::CommitTransactionResponse {
                    acknowledged_reflect_ids: acknowledged,
                },
            ),
        ),
{
}

/// As long as more acknowledgements are due than one, each is kept behind those that came before
/// it; the last one hands all of them to the task that asked for the reflection.
pub proof fn reflect_acknowledgements_are_kept<B, M>(
    machine: Machine<M>,
    pending: nat,
    acknowledged: Seq<u32>,
    after: AfterReflectView<M>,
    purpose: PurposeView,
    reflect_id: u32,
)
    requires
        machine.runner.flow == FlowView::D2m(
            WaitingView::ReflectAcks { pending, acknowledged, after },
        ),
    ensures
        pending > 1 ==> leads_to::<B, M>(
            machine,
            Input::D2m(Some(D2mIncomingPayload::ReflectAck { reflect_id })),
            FlowView::D2m(
                WaitingView::ReflectAcks {
                    pending: (pending - 1) as nat,
                    acknowledged: acknowledged.push(reflect_id),
                    after,
                },
            ),
            Seq::empty(),
        ),
        pending <= 1 && after == AfterReflectView::<M>::Task(purpose) ==> task_hears::<B, M>(
            machine,
            D2mIncomingPayload::ReflectAck { reflect_id },
            purpose,
            TaskResponseView::ReflectMessage {
                acknowledged_reflect_ids: acknowledged.push(reflect_id),
            },
        ),
{
}

/// The acknowledgements that are due are as many as the envelopes that are not ephemeral.
pub proof fn acknowledgements_due_are_counted(payloads: Seq<ReflectPayload>)
    ensures
        e2e::acks_due(payloads) == payloads.filter(
            |payload: ReflectPayload| !payload.ephemeral,
        ).len(),
    decreases payloads.len(),
{
    reveal(Seq::filter);
    if payloads.len() > 0 {
        acknowledgements_due_are_counted(payloads.drop_last());
    }
}

/// What a task wants reflected is all sent, in order, and nothing else is, but that a task to which
/// no acknowledgement is due is told so and polled again.
pub proof fn reflections_are_sent<B, M>(
    machine: Machine<M>,
    payloads: Vec<ReflectPayload>,
    i: int,
)
    requires
        machine.runner.flow == FlowView::<M>::Task(PurposeView::Incoming),
    ensures
        ({
            let outcome = e2e::next::<B, M>(
                machine,
                Input::TaskPolled(Ok(TaskStep::ReflectMessage(payloads))),
            );
            let n = payloads@.len() as int;
            let due = payloads@.filter(|payload: ReflectPayload| !payload.ephemeral).len();
            &&& outcome.error is None
            &&& 0 <= i < n ==> outcome.effects[i] == EffectView::<B, M>::SendD2m(
                D2mOutgoingPayload::Reflect {
                    ephemeral: payloads@[i].ephemeral,
                    reflect_id: payloads@[i].id,
                    envelope: payloads@[i].envelope,
                },
            )
            &&& due > 0 ==> {
                &&& outcome.effects.len() == n
                &&& outcome.after.runner.flow == FlowView::<M>::D2m(
                    WaitingView::ReflectAcks {
                        pending: due,
                        acknowledged: Seq::empty(),
                        after: AfterReflectView::Task(PurposeView::Incoming),
                    },
                )
            }
            &&& due == 0 ==> {
                &&& outcome.effects.len() == n + 2
                &&& outcome.effects[n] == EffectView::<B, M>::RespondTask(
                    TaskResponseView::ReflectMessage { acknowledged_reflect_ids: Seq::empty() },
                )
                &&& outcome.effects[n + 1] == EffectView::<B, M>::PollTask
                &&& outcome.after.runner.flow == machine.runner.flow
            }
            &&& outcome.after.runner.pending_sends == machine.runner.pending_sends
            &&& outcome.after.contacts == machine.contacts
            &&& outcome.after.nonces == machine.nonces
        }),
{
    acknowledgements_due_are_counted(payloads@);
}

// The mediator
// ------------
/// The loss of the mediator ends the flow; where an announcement of this device's own waits to be
/// acknowledged, the error says that it was not.
pub proof fn losing_the_mediator_is_described<B, M>(machine: Machine<M>)
    ensures
        machine.runner.flow is Idle ==> fails_with::<B, M>(
            machine,
            Input::D2m(None),
            "D2M incoming channel closed"@,
        ),
        machine.runner.flow is Idle ==> fails_with::<B, M>(
            machine,
            Input::Csp(None),
            "CSP incoming channel closed"@,
        ),
        machine.runner.flow matches FlowView::D2m(waiting) ==> fails_with::<B, M>(
            machine,
            Input::D2m(None),
            match waiting {
                WaitingView::ReflectAcks { after: AfterReflectView::Announced(_), .. } => {
                    "Reflecting to the mediator failed: D2M incoming channel closed"@
                },
                _ => "D2M incoming channel closed"@,
            },
        ),
{
}

/// A reflected envelope that can be handled is reported if there is something to report, then has
/// the contacts saved if there is something to save, and is then acknowledged; the contacts become
/// those that the envelope leads to. One that cannot be handled is just acknowledged.
pub proof fn reflected_envelopes_are_handled<B, M>(
    machine: Machine<M>,
    reflect_id: u32,
    opened: Opened,
)
    requires
        machine.runner.flow is Idle || machine.runner.flow is D2m,
    ensures
        ({
            let outcome = e2e::next::<B, M>(
                machine,
                Input::D2m(Some(D2mIncomingPayload::Reflected { reflect_id, opened })),
            );
            let ack = EffectView::<B, M>::SendD2m(D2mOutgoingPayload::ReflectedAck { reflect_id });
            &&& outcome.error is None
            &&& outcome.after.runner == machine.runner
            &&& outcome.after.nonces == machine.nonces
            &&& match d2d::reflected(opened@, machine.contacts) {
                Err(_) => outcome.effects == seq![ack] && outcome.after.contacts
                    == machine.contacts,
                Ok(reflection) => {
                    &&& outcome.after.contacts == reflection.contacts
                    &&& outcome.effects == match (reflection.event, reflection.save) {
                        (Some(event), Some(_)) => seq![
                            EffectView::Emit(event),
                            EffectView::SaveContacts,
                            ack,
                        ],
                        (Some(event), None) => seq![EffectView::Emit(event), ack],
                        (None, Some(_)) => seq![EffectView::SaveContacts, ack],
                        (None, None) => seq![ack],
                    }
                },
            }
        }),
{
}

/// Whenever a step changes the contacts, it has them saved, and acknowledges the envelope that
/// changed them only after that.
pub proof fn changed_contacts_are_saved<B, M>(machine: Machine<M>, input: Input<B, M>)
    requires
        e2e::next(machine, input).after.contacts != machine.contacts,
    ensures
        ({
            let effects = e2e::next(machine, input).effects;
            exists|i: int, j: int|
                0 <= i < j < effects.len() && (#[trigger] effects[i]) is SaveContacts && (
                #[trigger] effects[j] matches EffectView::SendD2m(
                    D2mOutgoingPayload::ReflectedAck { .. },
                ))
        }),
{
    let effects = e2e::next(machine, input).effects;
    match input {
        Input::D2m(Some(D2mIncomingPayload::Reflected { reflect_id, opened })) => {
            reflected_envelopes_are_handled::<B, M>(machine, reflect_id, opened);
            d2d_laws::only_syncs_change_contacts(opened@, machine.contacts);
            let n = effects.len() as int;
            assert(effects[n - 2] is SaveContacts);
            assert(effects[n - 1] is SendD2m);
        },
        _ => {},
    }
}

/// Only a reflected envelope changes the contacts, and only what is encrypted changes the nonces.
pub proof fn stores_change_for_a_reason<B, M>(machine: Machine<M>, input: Input<B, M>)
    ensures
        e2e::next(machine, input).after.contacts != machine.contacts ==> (input matches Input::D2m(
            Some(D2mIncomingPayload::Reflected { .. }),
        )),
        e2e::next(machine, input).after.nonces != machine.nonces ==> (input is Encrypted
            || input is Sealed),
{
}

/// A payload of the mediator that is neither a reflected envelope nor a promotion, and that nothing
/// waits for, does nothing.
pub proof fn other_payloads_do_nothing<B, M>(machine: Machine<M>, payload: D2mIncomingPayload)
    requires
        machine.runner.flow is Idle || payload is ReflectionQueueDry || payload is Other,
        machine.runner.flow is Idle || machine.runner.flow is D2m,
        !(payload is Reflected),
        !(payload is RolePromotedToLeader),
    ensures
        leads_to::<B, M>(
            machine,
            Input::D2m(Some(payload)),
            machine.runner.flow,
            Seq::empty(),
        ),
{
}

// Steps that belong together
// --------------------------
/// A transaction that is asked for and granted leaves everything as it was, but that the task is
/// told that it has its transaction, and goes on.
pub proof fn granted_transactions_come_back<B, M>(
    machine: Machine<M>,
    purpose: PurposeView,
    change: ContactChange,
    encrypted_scope: Vec<u8>,
    ttl: u32,
)
    requires
        machine.runner.flow == FlowView::<M>::Task(purpose),
        purpose is Incoming || change is Create,
    ensures
        ({
            let asked = e2e::next::<B, M>(
                machine,
                Input::TaskPolled(
                    Ok(
                        TaskStep::BeginTransaction(
                            change,
                            BeginTransactionInstruction::BeginTransaction { encrypted_scope, ttl },
                        ),
                    ),
                ),
            );
            let answered = e2e::next::<B, M>(
                asked.after,
                Input::D2m(Some(D2mIncomingPayload::BeginTransactionAck)),
            );
            &&& answered.after == machine
            &&& answered.error is None
            &&& answered.effects == seq![
                EffectView::<B, M>::RespondTask(
                    TaskResponseView::Contacts(change, ContactsResponseView::BeginTransactionAck),
                ),
                EffectView::PollTask,
            ]
        }),
{
}

/// A message that was handed to the chat server and is acknowledged by it is announced as sent in
/// the conversation, and under the ID, that it was announced with before it was handed over, and
/// does not wait any more.
pub proof fn announcements_of_a_message_agree<B, M>(
    machine: Machine<M>,
    delivery: DeliveryView<M>,
    reflect_id: u32,
    ack: MessageAck,
)
    requires
        machine.runner.flow == FlowView::D2m(
            WaitingView::ReflectAcks {
                pending: 1,
                acknowledged: Seq::empty(),
                after: AfterReflectView::Announced(AnnouncementView::Outgoing(delivery)),
            },
        ),
        delivery.message is Ok,
        ack.sender_identity@ == delivery.draft.receiver,
        ack.message_id == delivery.message_id,
    ensures
        ({
            let first = e2e::next::<B, M>(
                Machine {
                    runner: RunnerView {
                        flow: FlowView::SavingCspNonce(delivery),
                        ..machine.runner
                    },
                    ..machine
                },
                Input::NoncesSaved(Ok(())),
            );
            let handed_over = e2e::next::<B, M>(
                machine,
                Input::D2m(Some(D2mIncomingPayload::ReflectAck { reflect_id })),
            );
            let second = e2e::next::<B, M>(
                handed_over.after,
                Input::Csp(Some(IncomingPayloadForCspE2e::MessageAck(ack))),
            );
            let key = (delivery.draft.receiver, delivery.message_id);
            &&& first.effects.len() == 1
            &&& second.effects.len() == 1
            &&& first.effects[0] matches EffectView::Seal(announced)
            &&& second.effects[0] matches EffectView::Seal(updated)
            &&& announced.content matches Some(ContentView::OutgoingMessage(message))
            &&& updated.content matches Some(ContentView::OutgoingMessageUpdate(updates))
            &&& updated.device_id == announced.device_id
            &&& updates.len() == 1
            &&& updates[0].conversation == message.conversation
            &&& updates[0].message_id == message.message_id
            &&& message.conversation is Some
            &&& handed_over.after.runner.pending_sends.dom().contains(key)
            &&& !second.after.runner.pending_sends.dom().contains(key)
        }),
{
    let handed_over = e2e::next::<B, M>(
        machine,
        Input::D2m(Some(D2mIncomingPayload::ReflectAck { reflect_id })),
    );
    announced_messages_are_delivered::<B, M>(machine, 1, Seq::empty(), delivery, reflect_id);
    accepted_messages_are_announced::<B, M>(handed_over.after, ack);
}

/// What the caller is told to wait for is just what the flow takes: payloads and commands where
/// nothing is under way, only payloads of the mediator where one is awaited, neither where what
/// comes of an effect is awaited, and nothing at the end.
pub proof fn expectations_are_what_is_taken<B, M>(flow: FlowView<M>, input: Input<B, M>)
    ensures
        ({
            let arrives = input is Csp || input is D2m || input is Command;
            match e2e::expected(flow) {
                Expects::Anything => takes(flow, input) <==> arrives,
                Expects::D2m => takes(flow, input) <==> input is D2m,
                Expects::Answer => takes(flow, input) ==> !arrives,
                Expects::Nothing => !takes(flow, input),
            }
        }),
        e2e::expected(flow) is Nothing <==> flow is Finished,
{
}

} // verus!
