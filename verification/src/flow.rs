//! The vocabulary of the message flow: what it hears, what it asks for, and where it stands.
//!
//! `B` is an encrypted message with its metadata as the chat server delivers it, `M` an encrypted
//! message as the chat server accepts it. The flow carries both without looking inside.

use vstd::prelude::*;

use crate::command::Command;
use crate::csp::{IncomingPayloadForCspE2e, MessageAck, OutgoingPayloadForCspE2e};
use crate::d2d::{Envelope, EnvelopeView, Opened};
use crate::event::{Event, EventView};
use crate::model::{Nonce, PublicKey, ThreemaId};
use crate::store::{ProviderError, ProviderErrorView};

verus! {

// The mediator
// ------------
/// A payload from the mediator.
#[derive(Debug)]
pub enum D2mIncomingPayload {
    ReflectionQueueDry,
    RolePromotedToLeader,
    ReflectAck { reflect_id: u32 },
    /// A sibling device reflected an envelope.
    Reflected { reflect_id: u32, opened: Opened },
    BeginTransactionAck,
    TransactionRejected { device_id: u64, encrypted_scope: Vec<u8> },
    CommitTransactionAck,
    TransactionEnded,
    Other,
}

/// A payload to the mediator.
#[derive(Debug)]
pub enum D2mOutgoingPayload {
    Reflect { ephemeral: bool, reflect_id: u32, envelope: Vec<u8> },
    ReflectedAck { reflect_id: u32 },
    /// `ttl` is in seconds.
    BeginTransaction { encrypted_scope: Vec<u8>, ttl: Option<u64> },
    CommitTransaction,
}

// Tasks
// -----
/// An envelope to be reflected. The mediator does not acknowledge an ephemeral one.
#[derive(Debug)]
pub struct ReflectPayload {
    pub ephemeral: bool,
    pub id: u32,
    pub envelope: Vec<u8>,
}

/// What a task wants done about a transaction.
#[derive(Debug)]
pub enum BeginTransactionInstruction {
    /// Wait until the transaction that is in the way has ended.
    TransactionRejected,
    /// Begin a transaction. `ttl` is in seconds, none at all if it is zero.
    BeginTransaction { encrypted_scope: Vec<u8>, ttl: u32 },
    /// End the transaction without having done anything.
    AbortTransaction,
}

/// What a transaction does to contacts.
#[derive(Debug, Clone, Copy, PartialEq, Eq, Structural)]
pub enum ContactChange {
    Create,
    Update,
}

/// What a task asks for when it is polled.
#[derive(Debug)]
pub enum TaskStep {
    /// Look the sender of the message up at the directory.
    FetchSender,
    BeginTransaction(ContactChange, BeginTransactionInstruction),
    /// Reflect these and commit the transaction.
    ReflectAndCommitTransaction(ContactChange, Vec<ReflectPayload>),
    /// Reflect these.
    ReflectMessage(Vec<ReflectPayload>),
    /// The task is done; the message is to be acknowledged if it asks for it.
    Done(Option<MessageAck>),
}

/// What a task is told about a transaction.
#[derive(Debug)]
pub enum ContactsResponse {
    BeginTransactionAck,
    TransactionRejected { device_id: u64, encrypted_scope: Vec<u8> },
    AbortTransactionResponse,
    CommitTransactionResponse { acknowledged_reflect_ids: Vec<u32> },
}

/// The mathematical value of a [`ContactsResponse`].
#[verifier::ext_equal]
pub ghost enum ContactsResponseView {
    BeginTransactionAck,
    TransactionRejected { device_id: u64, encrypted_scope: Seq<u8> },
    AbortTransactionResponse,
    CommitTransactionResponse { acknowledged_reflect_ids: Seq<u32> },
}

impl View for ContactsResponse {
    type V = ContactsResponseView;

    open spec fn view(&self) -> ContactsResponseView {
        match self {
            ContactsResponse::BeginTransactionAck => ContactsResponseView::BeginTransactionAck,
            ContactsResponse::TransactionRejected { device_id, encrypted_scope } => {
                ContactsResponseView::TransactionRejected {
                    device_id: *device_id,
                    encrypted_scope: encrypted_scope@,
                }
            },
            ContactsResponse::AbortTransactionResponse => {
                ContactsResponseView::AbortTransactionResponse
            },
            ContactsResponse::CommitTransactionResponse { acknowledged_reflect_ids } => {
                ContactsResponseView::CommitTransactionResponse {
                    acknowledged_reflect_ids: acknowledged_reflect_ids@,
                }
            },
        }
    }
}

/// What a task is told.
#[derive(Debug)]
pub enum TaskResponse {
    Contacts(ContactChange, ContactsResponse),
    ReflectMessage { acknowledged_reflect_ids: Vec<u32> },
}

/// The mathematical value of a [`TaskResponse`].
#[verifier::ext_equal]
pub ghost enum TaskResponseView {
    Contacts(ContactChange, ContactsResponseView),
    ReflectMessage { acknowledged_reflect_ids: Seq<u32> },
}

impl View for TaskResponse {
    type V = TaskResponseView;

    open spec fn view(&self) -> TaskResponseView {
        match self {
            TaskResponse::Contacts(change, response) => TaskResponseView::Contacts(
                *change,
                response@,
            ),
            TaskResponse::ReflectMessage { acknowledged_reflect_ids } => {
                TaskResponseView::ReflectMessage {
                    acknowledged_reflect_ids: acknowledged_reflect_ids@,
                }
            },
        }
    }
}

/// What the directory knows about an identity.
#[derive(Debug)]
pub enum LookupResult {
    ExistingContact(PublicKey),
    NewContact(PublicKey),
    User,
    Invalid(ThreemaId),
    NotFound,
}

// Inputs and effects
// ------------------
/// What the message flow hears. `None` in place of a payload or a command means that the channel
/// was closed.
#[derive(Debug)]
pub enum Input<B, M> {
    Csp(Option<IncomingPayloadForCspE2e<B>>),
    D2m(Option<D2mIncomingPayload>),
    Command(Option<Command>),
    /// The current task was polled.
    TaskPolled(Result<TaskStep, String>),
    IdentityParsed(Option<ThreemaId>),
    LookedUp(Result<LookupResult, String>),
    /// A message was put together and encrypted. (An encrypted message may turn out to be
    /// unsuitable for the chat server.)
    Encrypted { message_id: u64, created_at: u64, nonce: Nonce, message: Result<M, String> },
    NoncesSaved(Result<(), String>),
    /// An envelope was encrypted, with this nonce; `None` if that failed.
    Sealed(Option<(Vec<u8>, Nonce)>),
}

/// What the message flow wants done.
#[derive(Debug)]
pub enum Effect<B, M> {
    SendCsp(OutgoingPayloadForCspE2e<M>),
    SendD2m(D2mOutgoingPayload),
    /// Report an event to the embedder.
    Emit(Event),
    /// Report that a message to this identity could not be sent because the contact store refused
    /// to look the identity up.
    ReportStoreError { identity: String, error: ProviderError },
    /// Rewrite the contacts file. Whether that works is not waited for.
    SaveContacts,
    /// Tell the protocol that this device is the one that talks to the chat server.
    PromoteToLeader,
    /// Begin a task that handles an incoming message.
    StartIncoming(B),
    /// Begin a task that creates the contact with this identity, as it was looked up last.
    StartCreate(ThreemaId),
    /// Look the sender up that the current task asks for, and hand the result to it.
    FetchSender,
    /// Hand a response to the current task.
    RespondTask(TaskResponse),
    /// Poll the current task; answered by [`Input::TaskPolled`].
    PollTask,
    /// Answered by [`Input::IdentityParsed`].
    ParseIdentity(String),
    /// Look an identity up at the directory; answered by [`Input::LookedUp`].
    LookUp(ThreemaId),
    /// Put a message together and encrypt it; answered by [`Input::Encrypted`].
    Encrypt { receiver: ThreemaId, public_key: PublicKey, text: String },
    /// Rewrite the nonces file; answered by [`Input::NoncesSaved`].
    SaveNonces,
    /// Encrypt an envelope; answered by [`Input::Sealed`].
    Seal(Envelope),
}

/// The mathematical value of an [`Effect`].
#[verifier::ext_equal]
pub ghost enum EffectView<B, M> {
    SendCsp(OutgoingPayloadForCspE2e<M>),
    SendD2m(D2mOutgoingPayload),
    Emit(EventView),
    ReportStoreError { identity: Seq<char>, error: ProviderErrorView },
    SaveContacts,
    PromoteToLeader,
    StartIncoming(B),
    StartCreate(Seq<char>),
    FetchSender,
    RespondTask(TaskResponseView),
    PollTask,
    ParseIdentity(Seq<char>),
    LookUp(Seq<char>),
    Encrypt { receiver: Seq<char>, public_key: Seq<u8>, text: Seq<char> },
    SaveNonces,
    Seal(EnvelopeView),
}

impl<B, M> View for Effect<B, M> {
    type V = EffectView<B, M>;

    open spec fn view(&self) -> EffectView<B, M> {
        match *self {
            Effect::SendCsp(payload) => EffectView::SendCsp(payload),
            Effect::SendD2m(payload) => EffectView::SendD2m(payload),
            Effect::Emit(event) => EffectView::Emit(event@),
            Effect::ReportStoreError { identity, error } => EffectView::ReportStoreError {
                identity: identity@,
                error: error@,
            },
            Effect::SaveContacts => EffectView::SaveContacts,
            Effect::PromoteToLeader => EffectView::PromoteToLeader,
            Effect::StartIncoming(message) => EffectView::StartIncoming(message),
            Effect::StartCreate(identity) => EffectView::StartCreate(identity@),
            Effect::FetchSender => EffectView::FetchSender,
            Effect::RespondTask(response) => EffectView::RespondTask(response@),
            Effect::PollTask => EffectView::PollTask,
            Effect::ParseIdentity(text) => EffectView::ParseIdentity(text@),
            Effect::LookUp(identity) => EffectView::LookUp(identity@),
            Effect::Encrypt { receiver, public_key, text } => EffectView::Encrypt {
                receiver: receiver@,
                public_key: public_key@,
                text: text@,
            },
            Effect::SaveNonces => EffectView::SaveNonces,
            Effect::Seal(envelope) => EffectView::Seal(envelope@),
        }
    }
}

/// The values of some effects.
pub open spec fn effect_views<B, M>(effects: Seq<Effect<B, M>>) -> Seq<EffectView<B, M>> {
    effects.map_values(|effect: Effect<B, M>| effect@)
}

/// Why the message flow cannot go on.
#[derive(Debug)]
pub enum RunnerError {
    /// The input does not fit what the flow waits for. Nothing has changed.
    OutOfTurn,
    Failed(String),
}

/// The mathematical value of a [`RunnerError`].
pub ghost enum RunnerErrorView {
    OutOfTurn,
    Failed(Seq<char>),
}

impl View for RunnerError {
    type V = RunnerErrorView;

    open spec fn view(&self) -> RunnerErrorView {
        match self {
            RunnerError::OutOfTurn => RunnerErrorView::OutOfTurn,
            RunnerError::Failed(text) => RunnerErrorView::Failed(text@),
        }
    }
}

// Where the flow stands
// ---------------------
/// A message to a contact that is about to be sent.
#[derive(Debug)]
pub struct Draft {
    pub receiver: ThreemaId,
    /// The receiver as the user wrote it, in upper case.
    pub identity: String,
    pub text: String,
}

/// The mathematical value of a [`Draft`].
#[verifier::ext_equal]
pub ghost struct DraftView {
    pub receiver: Seq<char>,
    pub identity: Seq<char>,
    pub text: Seq<char>,
}

impl View for Draft {
    type V = DraftView;

    open spec fn view(&self) -> DraftView {
        DraftView { receiver: self.receiver@, identity: self.identity@, text: self.text@ }
    }
}

/// What the current task is for.
#[derive(Debug)]
pub enum Purpose {
    /// Handling an incoming message.
    Incoming,
    /// Creating the contact, with this public key, that a message is about to be sent to.
    Create(Draft, PublicKey),
}

/// The mathematical value of a [`Purpose`].
#[verifier::ext_equal]
pub ghost enum PurposeView {
    Incoming,
    Create(DraftView, Seq<u8>),
}

impl View for Purpose {
    type V = PurposeView;

    open spec fn view(&self) -> PurposeView {
        match self {
            Purpose::Incoming => PurposeView::Incoming,
            Purpose::Create(draft, public_key) => PurposeView::Create(draft@, public_key@),
        }
    }
}

/// A message that was encrypted and is on its way to the chat server.
#[derive(Debug)]
pub struct Delivery<M> {
    pub draft: Draft,
    pub message_id: u64,
    pub created_at: u64,
    pub nonce: Nonce,
    pub message: Result<M, String>,
}

/// The mathematical value of a [`Delivery`].
#[verifier::ext_equal]
pub ghost struct DeliveryView<M> {
    pub draft: DraftView,
    pub message_id: u64,
    pub created_at: u64,
    pub nonce: Seq<u8>,
    pub message: Result<M, Seq<char>>,
}

/// The value of an encrypted message.
pub open spec fn message_view<M>(message: Result<M, String>) -> Result<M, Seq<char>> {
    match message {
        Ok(message) => Ok(message),
        Err(error) => Err(error@),
    }
}

impl<M> View for Delivery<M> {
    type V = DeliveryView<M>;

    open spec fn view(&self) -> DeliveryView<M> {
        DeliveryView {
            draft: self.draft@,
            message_id: self.message_id,
            created_at: self.created_at,
            nonce: self.nonce@,
            message: message_view(self.message),
        }
    }
}

/// An outgoing message that was handed to the chat server but not yet acknowledged by it.
#[derive(Debug)]
pub struct PendingSend {
    /// The receiver's Threema ID.
    pub identity: String,
    pub text: String,
    pub created_at: u64,
}

/// The mathematical value of a [`PendingSend`].
#[verifier::ext_equal]
pub ghost struct PendingSendView {
    pub identity: Seq<char>,
    pub text: Seq<char>,
    pub created_at: u64,
}

impl View for PendingSend {
    type V = PendingSendView;

    open spec fn view(&self) -> PendingSendView {
        PendingSendView {
            identity: self.identity@,
            text: self.text@,
            created_at: self.created_at,
        }
    }
}

/// Something of its own that this device tells its siblings, and what follows.
#[derive(Debug)]
pub enum Announcement<M> {
    /// A message is being sent; it goes to the chat server next.
    Outgoing(Delivery<M>),
    /// The chat server accepted a message; that is reported next.
    Sent { receiver: ThreemaId, message_id: u64, pending: PendingSend },
}

/// The mathematical value of an [`Announcement`].
#[verifier::ext_equal]
pub ghost enum AnnouncementView<M> {
    Outgoing(DeliveryView<M>),
    Sent { receiver: Seq<char>, message_id: u64, pending: PendingSendView },
}

impl<M> View for Announcement<M> {
    type V = AnnouncementView<M>;

    open spec fn view(&self) -> AnnouncementView<M> {
        match self {
            Announcement::Outgoing(delivery) => AnnouncementView::Outgoing(delivery@),
            Announcement::Sent { receiver, message_id, pending } => AnnouncementView::Sent {
                receiver: receiver@,
                message_id: *message_id,
                pending: pending@,
            },
        }
    }
}

/// What follows once the mediator has acknowledged everything that was reflected.
#[derive(Debug)]
pub enum AfterReflect<M> {
    Task(Purpose),
    Announced(Announcement<M>),
}

/// The mathematical value of an [`AfterReflect`].
#[verifier::ext_equal]
pub ghost enum AfterReflectView<M> {
    Task(PurposeView),
    Announced(AnnouncementView<M>),
}

impl<M> View for AfterReflect<M> {
    type V = AfterReflectView<M>;

    open spec fn view(&self) -> AfterReflectView<M> {
        match self {
            AfterReflect::Task(purpose) => AfterReflectView::Task(purpose@),
            AfterReflect::Announced(announcement) => AfterReflectView::Announced(announcement@),
        }
    }
}

/// What the flow waits for from the mediator.
#[derive(Debug)]
pub enum Waiting<M> {
    /// The end of another device's transaction.
    TransactionEnded(Purpose),
    /// The answer to a request to begin a transaction.
    BeginReply(ContactChange, Purpose),
    /// The end of an aborted transaction.
    AbortAck(ContactChange, Purpose),
    /// The end of a transaction, and acknowledgements of what was reflected in it.
    CommitAck { change: ContactChange, acknowledged: Vec<u32>, purpose: Purpose },
    /// So many more acknowledgements of what was reflected.
    ReflectAcks { pending: usize, acknowledged: Vec<u32>, after: AfterReflect<M> },
}

/// The mathematical value of a [`Waiting`].
#[verifier::ext_equal]
pub ghost enum WaitingView<M> {
    TransactionEnded(PurposeView),
    BeginReply(ContactChange, PurposeView),
    AbortAck(ContactChange, PurposeView),
    CommitAck { change: ContactChange, acknowledged: Seq<u32>, purpose: PurposeView },
    ReflectAcks { pending: nat, acknowledged: Seq<u32>, after: AfterReflectView<M> },
}

impl<M> View for Waiting<M> {
    type V = WaitingView<M>;

    open spec fn view(&self) -> WaitingView<M> {
        match self {
            Waiting::TransactionEnded(purpose) => WaitingView::TransactionEnded(purpose@),
            Waiting::BeginReply(change, purpose) => WaitingView::BeginReply(*change, purpose@),
            Waiting::AbortAck(change, purpose) => WaitingView::AbortAck(*change, purpose@),
            Waiting::CommitAck { change, acknowledged, purpose } => WaitingView::CommitAck {
                change: *change,
                acknowledged: acknowledged@,
                purpose: purpose@,
            },
            Waiting::ReflectAcks { pending, acknowledged, after } => WaitingView::ReflectAcks {
                pending: *pending as nat,
                acknowledged: acknowledged@,
                after: after@,
            },
        }
    }
}

/// Where the message flow stands.
#[derive(Debug)]
pub enum Flow<M> {
    /// Waiting for whatever comes.
    Idle,
    /// The current task is being polled.
    Task(Purpose),
    /// The mediator's answer is awaited.
    D2m(Waiting<M>),
    /// The recipient of a message is being parsed.
    Parsing { identity: String, text: String },
    /// The recipient of a message is being looked up at the directory.
    LookingUp(Draft),
    /// A message is being encrypted.
    Encrypting(Draft),
    /// The nonce of an encrypted message is being recorded.
    SavingCspNonce(Delivery<M>),
    /// The envelope of an announcement is being encrypted.
    Sealing(Announcement<M>),
    /// The nonce of an envelope is being recorded.
    SavingD2xNonce { announcement: Announcement<M>, envelope: Vec<u8> },
    Finished,
}

/// The mathematical value of a [`Flow`].
#[verifier::ext_equal]
pub ghost enum FlowView<M> {
    Idle,
    Task(PurposeView),
    D2m(WaitingView<M>),
    Parsing { identity: Seq<char>, text: Seq<char> },
    LookingUp(DraftView),
    Encrypting(DraftView),
    SavingCspNonce(DeliveryView<M>),
    Sealing(AnnouncementView<M>),
    SavingD2xNonce { announcement: AnnouncementView<M>, envelope: Vec<u8> },
    Finished,
}

impl<M> View for Flow<M> {
    type V = FlowView<M>;

    open spec fn view(&self) -> FlowView<M> {
        match *self {
            Flow::Idle => FlowView::Idle,
            Flow::Task(purpose) => FlowView::Task(purpose@),
            Flow::D2m(waiting) => FlowView::D2m(waiting@),
            Flow::Parsing { identity, text } => FlowView::Parsing {
                identity: identity@,
                text: text@,
            },
            Flow::LookingUp(draft) => FlowView::LookingUp(draft@),
            Flow::Encrypting(draft) => FlowView::Encrypting(draft@),
            Flow::SavingCspNonce(delivery) => FlowView::SavingCspNonce(delivery@),
            Flow::Sealing(announcement) => FlowView::Sealing(announcement@),
            Flow::SavingD2xNonce { announcement, envelope } => FlowView::SavingD2xNonce {
                announcement: announcement@,
                envelope,
            },
            Flow::Finished => FlowView::Finished,
        }
    }
}

/// The value of an effect is all that it holds: what is sent, reported, looked up, encrypted or
/// answered is not changed by it.
pub proof fn effects_mean_what_they_hold<B, M>(effects: Seq<Effect<B, M>>, i: int)
    requires
        0 <= i < effects.len(),
    ensures
        effect_views(effects).len() == effects.len(),
        match effects[i] {
            Effect::SendCsp(payload) => effect_views(effects)[i] == EffectView::<B, M>::SendCsp(
                payload,
            ),
            Effect::SendD2m(payload) => effect_views(effects)[i] == EffectView::<B, M>::SendD2m(
                payload,
            ),
            Effect::Emit(event) => effect_views(effects)[i] == EffectView::<B, M>::Emit(event@),
            Effect::ReportStoreError { identity, error } => effect_views(effects)[i] == (
            EffectView::<B, M>::ReportStoreError { identity: identity@, error: error@ }),
            Effect::SaveContacts => effect_views(effects)[i] is SaveContacts,
            Effect::PromoteToLeader => effect_views(effects)[i] is PromoteToLeader,
            Effect::StartIncoming(message) => effect_views(effects)[i] == EffectView::<
                B,
                M,
            >::StartIncoming(message),
            Effect::StartCreate(identity) => effect_views(effects)[i] == EffectView::<
                B,
                M,
            >::StartCreate(identity.text@),
            Effect::FetchSender => effect_views(effects)[i] is FetchSender,
            Effect::RespondTask(response) => effect_views(effects)[i] == EffectView::<
                B,
                M,
            >::RespondTask(response@),
            Effect::PollTask => effect_views(effects)[i] is PollTask,
            Effect::ParseIdentity(text) => effect_views(effects)[i] == EffectView::<
                B,
                M,
            >::ParseIdentity(text@),
            Effect::LookUp(identity) => effect_views(effects)[i] == EffectView::<B, M>::LookUp(
                identity.text@,
            ),
            Effect::Encrypt { receiver, public_key, text } => effect_views(effects)[i] == (
            EffectView::<B, M>::Encrypt {
                receiver: receiver.text@,
                public_key: public_key.0@,
                text: text@,
            }),
            Effect::SaveNonces => effect_views(effects)[i] is SaveNonces,
            Effect::Seal(envelope) => effect_views(effects)[i] == EffectView::<B, M>::Seal(
                envelope@,
            ),
        },
{
}

} // verus!
