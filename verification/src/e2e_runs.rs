//! What holds of whole runs of the message flow.

use vstd::prelude::*;

use crate::csp::IncomingPayloadForCspE2e;
use crate::d2d::ContentView;
use crate::e2e::{self, Machine, Outcome, RunnerView};
use crate::e2e_laws;
use crate::flow::{
    self, AfterReflectView, AnnouncementView, D2mIncomingPayload, D2mOutgoingPayload, DeliveryView,
    EffectView, FlowView, Input, PendingSendView, PurposeView, RunnerErrorView, TaskStep, WaitingView,
};
use crate::model::Nonce;
use crate::store::NonceScope;

verus! {

/// A step of a run: where the flow stood, and what it heard.
pub ghost struct Entry<B, M> {
    pub before: Machine<M>,
    pub input: Input<B, M>,
}

impl<B, M> Entry<B, M> {
    /// What came of the step.
    pub open spec fn outcome(self) -> Outcome<B, M> {
        e2e::next(self.before, self.input)
    }
}

/// What the flow remembers at the beginning.
pub open spec fn initial<M>(device_id: u64) -> RunnerView<M> {
    RunnerView {
        flow: FlowView::Idle,
        device_id,
        next_reflect_id: 0x8000_0000,
        pending_sends: Map::empty(),
    }
}

/// Whether a step follows on another: the flow stands where the other left it. Tasks may have
/// changed the contacts and recorded nonces in between, but used nonces stay used.
pub open spec fn follows<B, M>(earlier: Entry<B, M>, later: Entry<B, M>) -> bool {
    &&& later.before.runner == earlier.outcome().after.runner
    &&& forall|scope: NonceScope, nonce: Seq<u8>|
        earlier.outcome().after.nonces.has(scope, nonce) ==> #[trigger] later.before.nonces.has(
            scope,
            nonce,
        )
}

/// Whether some steps are a run of a flow from its beginning.
pub open spec fn is_run<B, M>(entries: Seq<Entry<B, M>>, device_id: u64) -> bool {
    &&& entries.len() > 0 ==> entries[0].before.runner == initial::<M>(device_id)
    &&& forall|i: int, j: int|
        0 <= i && j == i + 1 && j < entries.len() ==> follows(
            #[trigger] entries[i],
            #[trigger] entries[j],
        )
}

// Sending
// -------
/// The steps at which a message passed the stations on its way to the chat server.
pub ghost struct Stations {
    /// It was encrypted.
    pub encrypted: int,
    /// Its nonce was on the disk.
    pub recorded: int,
    /// The envelope that announces it was encrypted.
    pub sealed: int,
    /// The envelope's nonce was on the disk, and the envelope was reflected.
    pub reflected: int,
}

/// Whether a step learns of an encrypted message.
pub open spec fn encrypts<B, M>(entry: Entry<B, M>, delivery: DeliveryView<M>) -> bool {
    &&& entry.before.runner.flow == FlowView::<M>::Encrypting(delivery.draft)
    &&& entry.input matches Input::Encrypted { message_id, created_at, nonce, message }
    &&& message_id == delivery.message_id
    &&& created_at == delivery.created_at
    &&& nonce@ == delivery.nonce
    &&& flow::message_view(message) == delivery.message
}

/// Whether a step learns that the nonce of an encrypted message is on the disk, and has the
/// message announced.
pub open spec fn records<B, M>(entry: Entry<B, M>, delivery: DeliveryView<M>) -> bool {
    &&& entry.before.runner.flow == FlowView::SavingCspNonce(delivery)
    &&& entry.input matches Input::NoncesSaved(Ok(_))
    &&& entry.outcome().effects == seq![
        EffectView::<B, M>::Seal(
            e2e::envelope(entry.before.runner.device_id, e2e::outgoing_text(delivery)),
        ),
    ]
}

/// Whether a step learns of the encrypted envelope that announces a message.
pub open spec fn seals<B, M>(entry: Entry<B, M>, delivery: DeliveryView<M>, envelope: Vec<u8>) -> bool {
    &&& entry.before.runner.flow == FlowView::Sealing(AnnouncementView::Outgoing(delivery))
    &&& entry.input matches Input::Sealed(Some((sealed, _))) && sealed == envelope
}

/// Whether a step learns that the envelope's nonce is on the disk, and reflects the envelope.
pub open spec fn reflects<B, M>(entry: Entry<B, M>, delivery: DeliveryView<M>, envelope: Vec<u8>) -> bool {
    &&& entry.before.runner.flow == (FlowView::SavingD2xNonce {
        announcement: AnnouncementView::Outgoing(delivery),
        envelope,
    })
    &&& entry.input matches Input::NoncesSaved(Ok(_))
    &&& entry.outcome().effects == seq![
        EffectView::<B, M>::SendD2m(
            D2mOutgoingPayload::Reflect {
                ephemeral: false,
                reflect_id: entry.before.runner.reflect_id(),
                envelope,
            },
        ),
    ]
}

/// How far a message that is being sent has come by a step, and when.
pub open spec fn on_its_way<B, M>(entries: Seq<Entry<B, M>>, k: int, at: Stations) -> bool {
    let before = entries[k].before;
    match before.runner.flow {
        FlowView::SavingCspNonce(delivery) => {
            &&& 0 <= at.encrypted < k
            &&& encrypts(entries[at.encrypted], delivery)
            &&& before.nonces.has(NonceScope::CspE2e, delivery.nonce)
        },
        FlowView::Sealing(AnnouncementView::Outgoing(delivery)) => {
            &&& 0 <= at.encrypted < at.recorded < k
            &&& encrypts(entries[at.encrypted], delivery)
            &&& records(entries[at.recorded], delivery)
            &&& before.nonces.has(NonceScope::CspE2e, delivery.nonce)
        },
        FlowView::SavingD2xNonce {
            announcement: AnnouncementView::Outgoing(delivery),
            envelope,
        } => {
            &&& 0 <= at.encrypted < at.recorded < at.sealed < k
            &&& encrypts(entries[at.encrypted], delivery)
            &&& records(entries[at.recorded], delivery)
            &&& seals(entries[at.sealed], delivery, envelope)
            &&& before.nonces.has(NonceScope::CspE2e, delivery.nonce)
        },
        FlowView::D2m(
            WaitingView::ReflectAcks {
                after: AfterReflectView::Announced(AnnouncementView::Outgoing(delivery)),
                ..
            },
        ) => announced(entries, k, delivery, at),
        _ => true,
    }
}

/// Whether a message was encrypted, its nonce put on the disk, and its announcement encrypted and
/// reflected, in this order, before a step.
pub open spec fn announced<B, M>(
    entries: Seq<Entry<B, M>>,
    k: int,
    delivery: DeliveryView<M>,
    at: Stations,
) -> bool {
    &&& 0 <= at.encrypted < at.recorded < at.sealed < at.reflected < k
    &&& encrypts(entries[at.encrypted], delivery)
    &&& records(entries[at.recorded], delivery)
    &&& exists|envelope: Vec<u8>|
        {
            &&& #[trigger] seals(entries[at.sealed], delivery, envelope)
            &&& reflects(entries[at.reflected], delivery, envelope)
        }
    &&& entries[k].before.nonces.has(NonceScope::CspE2e, delivery.nonce)
}

proof fn lemma_on_its_way<B, M>(entries: Seq<Entry<B, M>>, device_id: u64, k: int) -> (at: Stations)
    requires
        is_run(entries, device_id),
        0 <= k < entries.len(),
    ensures
        on_its_way(entries, k, at),
    decreases k,
{
    if k == 0 {
        Stations { encrypted: 0, recorded: 0, sealed: 0, reflected: 0 }
    } else {
        let at = lemma_on_its_way(entries, device_id, k - 1);
        let last = entries[k - 1];
        assert(follows(last, entries[k]));
        match last.before.runner.flow {
            FlowView::Encrypting(_) => {
                if let Input::Encrypted { nonce, .. } = last.input {
                    e2e_laws::nonces_are_recorded_first(
                        last.before,
                        last.input,
                        NonceScope::CspE2e,
                        nonce@,
                    );
                }
                Stations { encrypted: k - 1, ..at }
            },
            FlowView::SavingCspNonce(delivery) => {
                e2e_laws::nonces_are_recorded_first(
                    last.before,
                    last.input,
                    NonceScope::CspE2e,
                    delivery.nonce,
                );
                if last.input matches Input::NoncesSaved(Ok(_)) {
                    assert(records(last, delivery));
                    Stations { recorded: k - 1, ..at }
                } else {
                    at
                }
            },
            FlowView::Sealing(AnnouncementView::Outgoing(delivery)) => {
                e2e_laws::nonces_are_recorded_first(
                    last.before,
                    last.input,
                    NonceScope::CspE2e,
                    delivery.nonce,
                );
                if last.input matches Input::Sealed(Some(_)) {
                    Stations { sealed: k - 1, ..at }
                } else {
                    at
                }
            },
            FlowView::SavingD2xNonce {
                announcement: AnnouncementView::Outgoing(delivery),
                envelope,
            } => {
                e2e_laws::nonces_are_recorded_first(
                    last.before,
                    last.input,
                    NonceScope::CspE2e,
                    delivery.nonce,
                );
                if last.input matches Input::NoncesSaved(Ok(_)) {
                    let through = Stations { reflected: k - 1, ..at };
                    assert(seals(entries[through.sealed], delivery, envelope) && reflects(
                        entries[through.reflected],
                        delivery,
                        envelope,
                    ));
                    assert(announced(entries, k, delivery, through));
                    through
                } else {
                    at
                }
            },
            FlowView::D2m(
                WaitingView::ReflectAcks {
                    after: AfterReflectView::Announced(AnnouncementView::Outgoing(delivery)),
                    ..
                },
            ) => {
                e2e_laws::nonces_are_recorded_first(
                    last.before,
                    last.input,
                    NonceScope::CspE2e,
                    delivery.nonce,
                );
                at
            },
            _ => at,
        }
    }
}

/// A message is handed to the chat server only after it was encrypted, its nonce was put on the
/// disk, and it was announced to the siblings, in this order; it is handed over in the step in
/// which the mediator acknowledges the announcement, and its nonce counts as used by then.
pub proof fn messages_are_announced_first<B, M>(
    entries: Seq<Entry<B, M>>,
    device_id: u64,
    k: int,
)
    requires
        is_run(entries, device_id),
        0 <= k < entries.len(),
        e2e_laws::hands_over(entries[k].outcome().effects),
    ensures
        ({
            let delivery = e2e_laws::handed_over(entries[k].before.runner, entries[k].input);
            &&& delivery is Some
            &&& exists|at: Stations| announced(entries, k, delivery->0, at)
            &&& entries[k].input matches Input::D2m(Some(D2mIncomingPayload::ReflectAck { .. }))
        }),
{
    e2e_laws::pending_sends_follow_the_chat_server(entries[k].before, entries[k].input);
    let delivery = e2e_laws::handed_over(entries[k].before.runner, entries[k].input)->0;
    let at = lemma_on_its_way(entries, device_id, k);
    assert(announced(entries, k, delivery, at));
}

// Acknowledgements
// ----------------
/// Whether a message was handed to the chat server at a step.
pub open spec fn handed_at<B, M>(
    entries: Seq<Entry<B, M>>,
    h: int,
    key: (Seq<char>, u64),
    pending: PendingSendView,
) -> bool {
    &&& 0 <= h < entries.len()
    &&& e2e_laws::handed_over(entries[h].before.runner, entries[h].input) matches Some(delivery)
    &&& e2e_laws::key_of(delivery) == key
    &&& e2e_laws::pending_of(delivery) == pending
}

/// Only what was handed to the chat server waits for its acknowledgement.
pub proof fn only_handed_over_is_pending<B, M>(
    entries: Seq<Entry<B, M>>,
    device_id: u64,
    k: int,
    key: (Seq<char>, u64),
) -> (h: int)
    requires
        is_run(entries, device_id),
        0 <= k < entries.len(),
        entries[k].before.runner.pending_sends.dom().contains(key),
    ensures
        0 <= h < k,
        handed_at(entries, h, key, entries[k].before.runner.pending_sends[key]),
    decreases k,
{
    let last = entries[k - 1];
    if k == 0 {
        0
    } else {
        assert(follows(last, entries[k]));
        e2e_laws::pending_sends_follow_the_chat_server(last.before, last.input);
        match e2e_laws::handed_over(last.before.runner, last.input) {
            Some(delivery) => if e2e_laws::key_of(delivery) == key {
                k - 1
            } else {
                only_handed_over_is_pending(entries, device_id, k - 1, key)
            },
            None => only_handed_over_is_pending(entries, device_id, k - 1, key),
        }
    }
}

/// The message of which a flow is about to report, or is preparing to report, that the chat server
/// accepted it.
pub open spec fn accepted<M>(flow: FlowView<M>) -> Option<((Seq<char>, u64), PendingSendView)> {
    match flow {
        FlowView::Sealing(AnnouncementView::Sent { receiver, message_id, pending }) => Some(
            ((receiver, message_id), pending),
        ),
        FlowView::SavingD2xNonce {
            announcement: AnnouncementView::Sent { receiver, message_id, pending },
            ..
        } => Some(((receiver, message_id), pending)),
        FlowView::D2m(
            WaitingView::ReflectAcks {
                after: AfterReflectView::Announced(
                    AnnouncementView::Sent { receiver, message_id, pending },
                ),
                ..
            },
        ) => Some(((receiver, message_id), pending)),
        _ => None,
    }
}

/// A message is reported as sent only after it was handed to the chat server and the chat server
/// then acknowledged it.
pub proof fn sent_messages_were_acknowledged<B, M>(
    entries: Seq<Entry<B, M>>,
    device_id: u64,
    k: int,
) -> (at: (int, int))
    requires
        is_run(entries, device_id),
        0 <= k < entries.len(),
        accepted(entries[k].before.runner.flow) is Some,
    ensures
        ({
            let (key, pending) = accepted(entries[k].before.runner.flow)->0;
            &&& 0 <= at.0 < at.1 < k
            &&& handed_at(entries, at.0, key, pending)
            &&& e2e_laws::acked(entries[at.1].before.runner, entries[at.1].input) == Some(key)
        }),
    decreases k,
{
    let last = entries[k - 1];
    if k == 0 {
        (0, 0)
    } else {
        assert(follows(last, entries[k]));
        if accepted(last.before.runner.flow) is Some {
            sent_messages_were_acknowledged(entries, device_id, k - 1)
        } else {
            let key = e2e_laws::acked(last.before.runner, last.input)->0;
            assert(last.before.runner.pending_sends.dom().contains(key));
            let h = only_handed_over_is_pending(entries, device_id, k - 1, key);
            (h, k - 1)
        }
    }
}

/// The step that reports a message as sent is the one in which the mediator acknowledges that the
/// siblings were told.
pub proof fn sent_report_comes_last<B, M>(entry: Entry<B, M>, i: int)
    requires
        0 <= i < entry.outcome().effects.len(),
        accepted(entry.before.runner.flow) matches Some((key, pending)) && entry.outcome().effects[i]
            == EffectView::<B, M>::Emit(
            e2e::sent_event(entry.before.contacts, key.0, pending),
        ),
        !(entry.input matches Input::D2m(Some(D2mIncomingPayload::Reflected { .. }))),
    ensures
        entry.input matches Input::D2m(Some(D2mIncomingPayload::ReflectAck { .. })),
        entry.outcome().after.runner.flow is Idle,
{
}

/// The message that a step reports as sent, if it reports one: the mediator acknowledged that the
/// siblings were told.
pub open spec fn reported<B, M>(entry: Entry<B, M>) -> Option<(Seq<char>, u64)> {
    match (entry.before.runner.flow, entry.input) {
        (
            FlowView::D2m(
                WaitingView::ReflectAcks {
                    pending,
                    after: AfterReflectView::Announced(
                        AnnouncementView::Sent { receiver, message_id, .. },
                    ),
                    ..
                },
            ),
            Input::D2m(Some(D2mIncomingPayload::ReflectAck { .. })),
        ) => if pending <= 1 {
            Some((receiver, message_id))
        } else {
            None
        },
        _ => None,
    }
}

/// How often a message was reported as sent before a step.
pub open spec fn reports<B, M>(entries: Seq<Entry<B, M>>, k: int, key: (Seq<char>, u64)) -> nat
    decreases k,
{
    if k <= 0 {
        0
    } else {
        reports(entries, k - 1, key) + if reported(entries[k - 1]) == Some(key) {
            1nat
        } else {
            0nat
        }
    }
}

/// How often a message was handed to the chat server before a step.
pub open spec fn deliveries<B, M>(entries: Seq<Entry<B, M>>, k: int, key: (Seq<char>, u64)) -> nat
    decreases k,
{
    if k <= 0 {
        0
    } else {
        deliveries(entries, k - 1, key) + if delivers(entries[k - 1], key) {
            1nat
        } else {
            0nat
        }
    }
}

/// Whether a step hands a message to the chat server.
pub open spec fn delivers<B, M>(entry: Entry<B, M>, key: (Seq<char>, u64)) -> bool {
    e2e_laws::handed_over(entry.before.runner, entry.input) matches Some(delivery)
        && e2e_laws::key_of(delivery) == key
}

/// A message that was reported as sent is reported with what was remembered of it, and nothing else
/// is done in that step.
pub proof fn reports_are_of_what_was_accepted<B, M>(entry: Entry<B, M>)
    requires
        reported(entry) is Some,
    ensures
        accepted(entry.before.runner.flow) is Some,
        ({
            let (key, pending) = accepted(entry.before.runner.flow)->0;
            &&& reported(entry) == Some(key)
            &&& entry.outcome().effects == seq![
                EffectView::<B, M>::Emit(
                    e2e::sent_event(entry.before.contacts, key.0, pending),
                ),
            ]
        }),
{
}

/// A message is reported as sent at most as often as it was handed to the chat server, however
/// often its acknowledgement arrives: whatever is still waited for or about to be reported included.
pub proof fn sent_is_reported_once_per_delivery<B, M>(
    entries: Seq<Entry<B, M>>,
    device_id: u64,
    k: int,
    key: (Seq<char>, u64),
)
    requires
        is_run(entries, device_id),
        0 <= k < entries.len(),
    ensures
        reports(entries, k, key) + (if accepted(entries[k].before.runner.flow) matches Some(
            (preparing, _),
        ) && preparing == key {
            1nat
        } else {
            0nat
        }) + (if entries[k].before.runner.pending_sends.dom().contains(key) {
            1nat
        } else {
            0nat
        }) <= deliveries(entries, k, key),
    decreases k,
{
    if k > 0 {
        let last = entries[k - 1];
        sent_is_reported_once_per_delivery(entries, device_id, k - 1, key);
        assert(follows(last, entries[k]));
        e2e_laws::pending_sends_follow_the_chat_server(last.before, last.input);
    }
}

/// A message that was handed to the chat server once is reported as sent at most once, however
/// often its acknowledgement arrives.
pub proof fn sent_is_reported_at_most_once<B, M>(
    entries: Seq<Entry<B, M>>,
    device_id: u64,
    i: int,
    j: int,
    key: (Seq<char>, u64),
)
    requires
        is_run(entries, device_id),
        0 <= i < j < entries.len(),
        deliveries(entries, j, key) <= 1,
        reported(entries[i]) == Some(key),
    ensures
        reported(entries[j]) != Some(key),
{
    sent_is_reported_once_per_delivery(entries, device_id, j, key);
    lemma_reports_grow(entries, i + 1, j, key);
    if reported(entries[j]) == Some(key) {
        reports_are_of_what_was_accepted(entries[j]);
    }
}

proof fn lemma_reports_grow<B, M>(
    entries: Seq<Entry<B, M>>,
    i: int,
    j: int,
    key: (Seq<char>, u64),
)
    requires
        0 <= i <= j,
    ensures
        reports(entries, i, key) <= reports(entries, j, key),
    decreases j - i,
{
    if i < j {
        lemma_reports_grow(entries, i, j - 1, key);
    }
}

// Receiving
// ---------
/// Whether the flow is busy with an incoming message.
pub open spec fn handles_incoming<M>(flow: FlowView<M>) -> bool {
    match flow {
        FlowView::Task(purpose) => purpose is Incoming,
        FlowView::D2m(WaitingView::TransactionEnded(purpose)) => purpose is Incoming,
        FlowView::D2m(WaitingView::BeginReply(_, purpose)) => purpose is Incoming,
        FlowView::D2m(WaitingView::AbortAck(_, purpose)) => purpose is Incoming,
        FlowView::D2m(WaitingView::CommitAck { purpose, .. }) => purpose is Incoming,
        FlowView::D2m(
            WaitingView::ReflectAcks { after: AfterReflectView::Task(purpose), .. },
        ) => purpose is Incoming,
        _ => false,
    }
}

/// Whether a step begins to handle an incoming message.
pub open spec fn takes_message<B, M>(entry: Entry<B, M>) -> bool {
    &&& entry.before.runner.flow is Idle
    &&& entry.input matches Input::Csp(Some(IncomingPayloadForCspE2e::Message(_)))
}

/// Whether a step is the last one of handling an incoming message, and acknowledges it.
pub open spec fn acknowledges<B, M>(entry: Entry<B, M>) -> bool {
    &&& entry.before.runner.flow == FlowView::<M>::Task(PurposeView::Incoming)
    &&& entry.input matches Input::TaskPolled(Ok(TaskStep::Done(Some(_))))
}

/// How many incoming messages were taken before a step.
pub open spec fn taken<B, M>(entries: Seq<Entry<B, M>>, k: int) -> nat
    decreases k,
{
    if k <= 0 {
        0
    } else {
        taken(entries, k - 1) + if takes_message(entries[k - 1]) {
            1nat
        } else {
            0nat
        }
    }
}

/// How many incoming messages were acknowledged before a step.
pub open spec fn acknowledgements<B, M>(entries: Seq<Entry<B, M>>, k: int) -> nat
    decreases k,
{
    if k <= 0 {
        0
    } else {
        acknowledgements(entries, k - 1) + if acknowledges(entries[k - 1]) {
            1nat
        } else {
            0nat
        }
    }
}

/// Every incoming message is acknowledged at most once, and only when its handling is done: there
/// are never more acknowledgements than messages that are not being handled any more.
pub proof fn at_most_one_ack_per_message<B, M>(entries: Seq<Entry<B, M>>, device_id: u64, k: int)
    requires
        is_run(entries, device_id),
        0 <= k < entries.len(),
    ensures
        acknowledgements(entries, k) + (if handles_incoming(entries[k].before.runner.flow) {
            1nat
        } else {
            0nat
        }) <= taken(entries, k),
    decreases k,
{
    if k > 0 {
        at_most_one_ack_per_message(entries, device_id, k - 1);
        assert(follows(entries[k - 1], entries[k]));
    }
}

/// While an incoming message is being handled no command is taken, no other message either.
pub proof fn messages_are_handled_one_by_one<B, M>(entry: Entry<B, M>)
    requires
        handles_incoming(entry.before.runner.flow),
        entry.input is Command || entry.input is Csp,
    ensures
        entry.outcome().error == Some(RunnerErrorView::OutOfTurn),
        entry.outcome().after == entry.before,
{
}

/// The flow has come to its end only because a step failed, or because it was asked to shut down or
/// the command sender was dropped while nothing was under way.
pub proof fn runs_end_for_a_reason<B, M>(entries: Seq<Entry<B, M>>, device_id: u64, k: int) -> (i: int)
    requires
        is_run(entries, device_id),
        0 <= k < entries.len(),
        entries[k].before.runner.flow is Finished,
    ensures
        0 <= i < k,
        entries[i].outcome().after.runner.flow is Finished,
        (entries[i].outcome().error matches Some(RunnerErrorView::Failed(_))) || {
            &&& entries[i].outcome().error is None
            &&& entries[i].before.runner.flow is Idle
            &&& e2e_laws::asks_to_stop(entries[i].input)
        },
    decreases k,
{
    if k == 0 {
        0
    } else {
        assert(follows(entries[k - 1], entries[k]));
        if entries[k - 1].before.runner.flow is Finished {
            runs_end_for_a_reason(entries, device_id, k - 1)
        } else {
            e2e_laws::failure_ends_the_flow(entries[k - 1].before, entries[k - 1].input);
            k - 1
        }
    }
}

// Own envelopes
// -------------
/// What the siblings are told in an announcement.
pub open spec fn content_of<M>(announcement: AnnouncementView<M>) -> ContentView {
    match announcement {
        AnnouncementView::Outgoing(delivery) => e2e::outgoing_text(delivery),
        AnnouncementView::Sent { receiver, message_id, pending } => e2e::sent_update(
            pending.identity,
            receiver,
            message_id,
        ),
    }
}

/// Whether a step asks for this device's envelope with an announcement to be encrypted.
pub open spec fn asks_to_seal<B, M>(
    entry: Entry<B, M>,
    device_id: u64,
    announcement: AnnouncementView<M>,
) -> bool {
    &&& entry.outcome().effects == seq![
        EffectView::<B, M>::Seal(e2e::envelope(device_id, content_of(announcement))),
    ]
    &&& entry.outcome().after.runner.flow == FlowView::Sealing(announcement)
}

/// Whether a step learns of the encrypted envelope of an announcement, and of its nonce.
pub open spec fn is_sealed<B, M>(
    entry: Entry<B, M>,
    announcement: AnnouncementView<M>,
    envelope: Vec<u8>,
    nonce: Nonce,
) -> bool {
    &&& entry.before.runner.flow == FlowView::Sealing(announcement)
    &&& entry.input == Input::<B, M>::Sealed(Some((envelope, nonce)))
}

/// How far an announcement has come by a step: when its envelope was asked for, when it was
/// encrypted, and with which nonce.
pub open spec fn being_announced<B, M>(
    entries: Seq<Entry<B, M>>,
    device_id: u64,
    k: int,
    asked: int,
    sealed: int,
    nonce: Nonce,
) -> bool {
    match entries[k].before.runner.flow {
        FlowView::Sealing(announcement) => {
            &&& 0 <= asked < k
            &&& asks_to_seal(entries[asked], device_id, announcement)
        },
        FlowView::SavingD2xNonce { announcement, envelope } => {
            &&& 0 <= asked < sealed < k
            &&& asks_to_seal(entries[asked], device_id, announcement)
            &&& is_sealed(entries[sealed], announcement, envelope, nonce)
            &&& entries[k].before.nonces.has(NonceScope::D2x, nonce@)
        },
        _ => true,
    }
}

proof fn lemma_same_device<B, M>(entries: Seq<Entry<B, M>>, device_id: u64, k: int)
    requires
        is_run(entries, device_id),
        0 <= k < entries.len(),
    ensures
        entries[k].before.runner.device_id == device_id,
    decreases k,
{
    if k > 0 {
        lemma_same_device(entries, device_id, k - 1);
        assert(follows(entries[k - 1], entries[k]));
    }
}

proof fn lemma_being_announced<B, M>(entries: Seq<Entry<B, M>>, device_id: u64, k: int) -> (found: (
    int,
    int,
    Nonce,
))
    requires
        is_run(entries, device_id),
        0 <= k < entries.len(),
    ensures
        being_announced(entries, device_id, k, found.0, found.1, found.2),
    decreases k,
{
    if k == 0 {
        (0, 0, arbitrary())
    } else {
        let before = lemma_being_announced(entries, device_id, k - 1);
        let last = entries[k - 1];
        assert(follows(last, entries[k]));
        lemma_same_device(entries, device_id, k - 1);
        match (last.before.runner.flow, last.input) {
            (FlowView::Sealing(_), Input::Sealed(Some((_, nonce)))) => {
                e2e_laws::nonces_are_recorded_first(
                    last.before,
                    last.input,
                    NonceScope::D2x,
                    nonce@,
                );
                (before.0, k - 1, nonce)
            },
            (FlowView::Sealing(_), _) => before,
            (FlowView::SavingD2xNonce { .. }, _) => {
                e2e_laws::nonces_are_recorded_first(
                    last.before,
                    last.input,
                    NonceScope::D2x,
                    before.2@,
                );
                before
            },
            _ => (k - 1, before.1, before.2),
        }
    }
}

/// Everything of its own that this device reflects, about a message that is being sent or about one
/// that the chat server accepted, is its envelope with that announcement, encrypted with a nonce
/// that counts as used and was put on the disk before; it is sent in a single reflection that is
/// not ephemeral, and one acknowledgement is waited for. If the nonce cannot be put on the disk,
/// nothing is sent and the flow ends.
pub proof fn own_envelopes_are_reflected_safely<B, M>(
    entries: Seq<Entry<B, M>>,
    device_id: u64,
    k: int,
    announcement: AnnouncementView<M>,
    envelope: Vec<u8>,
) -> (found: (int, int, Nonce))
    requires
        is_run(entries, device_id),
        0 <= k < entries.len(),
        entries[k].before.runner.flow == (FlowView::SavingD2xNonce { announcement, envelope }),
    ensures
        0 <= found.0 < found.1 < k,
        asks_to_seal(entries[found.0], device_id, announcement),
        is_sealed(entries[found.1], announcement, envelope, found.2),
        entries[k].before.nonces.has(NonceScope::D2x, found.2@),
        entries[k].input matches Input::NoncesSaved(Ok(_)) ==> {
            let outcome = entries[k].outcome();
            &&& outcome.error is None
            &&& outcome.effects == seq![
                EffectView::<B, M>::SendD2m(
                    D2mOutgoingPayload::Reflect {
                        ephemeral: false,
                        reflect_id: entries[k].before.runner.reflect_id(),
                        envelope,
                    },
                ),
            ]
            &&& outcome.after.runner.flow == FlowView::D2m(
                WaitingView::ReflectAcks {
                    pending: 1,
                    acknowledged: Seq::empty(),
                    after: AfterReflectView::Announced(announcement),
                },
            )
        },
        !(entries[k].input matches Input::NoncesSaved(Ok(_))) ==> {
            &&& entries[k].outcome().effects.len() == 0
            &&& entries[k].outcome().error is Some
        },
{
    lemma_being_announced(entries, device_id, k)
}

// Reflect IDs
// -----------
/// Whether a step reflects something of this device's own.
pub open spec fn announces<B, M>(entry: Entry<B, M>) -> bool {
    &&& entry.before.runner.flow is SavingD2xNonce
    &&& entry.input matches Input::NoncesSaved(Ok(_))
}

/// How many things of its own this device reflected before a step.
pub open spec fn announcements<B, M>(entries: Seq<Entry<B, M>>, k: int) -> nat
    decreases k,
{
    if k <= 0 {
        0
    } else {
        announcements(entries, k - 1) + if announces(entries[k - 1]) {
            1nat
        } else {
            0nat
        }
    }
}

/// The reflect IDs of this device's own announcements count up from `0x8000_0001`, as long as there
/// are fewer than `0x8000_0000` of them.
pub proof fn reflect_ids_count_up<B, M>(entries: Seq<Entry<B, M>>, device_id: u64, k: int)
    requires
        is_run(entries, device_id),
        0 <= k < entries.len(),
        announcements(entries, k) < 0x8000_0000,
    ensures
        entries[k].before.runner.next_reflect_id == 0x8000_0000 + announcements(entries, k),
        entries[k].before.runner.device_id == device_id,
    decreases k,
{
    if k > 0 {
        reflect_ids_count_up(entries, device_id, k - 1);
        assert(follows(entries[k - 1], entries[k]));
    }
}

/// The reflection of an announcement carries the next reflect ID: `0x8000_0000` and how many
/// announcements there are with it.
pub proof fn announcements_are_numbered<B, M>(entries: Seq<Entry<B, M>>, device_id: u64, k: int)
    requires
        is_run(entries, device_id),
        0 <= k < entries.len(),
        announces(entries[k]),
        announcements(entries, k) < 0x7fff_ffff,
    ensures
        entries[k].before.runner.reflect_id() == 0x8000_0001 + announcements(entries, k),
        entries[k].outcome().effects.len() == 1,
        entries[k].outcome().effects[0] matches EffectView::SendD2m(
            D2mOutgoingPayload::Reflect { ephemeral, reflect_id, .. },
        ) && !ephemeral && reflect_id == entries[k].before.runner.reflect_id(),
{
    reflect_ids_count_up(entries, device_id, k);
}

/// The reflect IDs of two of this device's own announcements differ, and both are beyond the lower
/// half, which the tasks' counter uses, as long as there were fewer than `0x7fff_ffff` of them.
pub proof fn reflect_ids_never_collide<B, M>(
    entries: Seq<Entry<B, M>>,
    device_id: u64,
    i: int,
    j: int,
)
    requires
        is_run(entries, device_id),
        0 <= i < j < entries.len(),
        announces(entries[i]),
        announces(entries[j]),
        announcements(entries, j) < 0x7fff_ffff,
    ensures
        0x8000_0000 < entries[i].before.runner.reflect_id() < entries[j].before.runner.reflect_id(),
{
    lemma_announcements_grow(entries, i + 1, j);
    reflect_ids_count_up(entries, device_id, i);
    reflect_ids_count_up(entries, device_id, j);
}

proof fn lemma_announcements_grow<B, M>(entries: Seq<Entry<B, M>>, i: int, j: int)
    requires
        0 <= i <= j,
    ensures
        announcements(entries, i) <= announcements(entries, j),
    decreases j - i,
{
    if i < j {
        lemma_announcements_grow(entries, i, j - 1);
    }
}

/// The flow never waits for acknowledgements that are not due.
pub proof fn waiting_is_for_something<B, M>(entries: Seq<Entry<B, M>>, device_id: u64, k: int)
    requires
        is_run(entries, device_id),
        0 <= k < entries.len(),
    ensures
        entries[k].before.runner.flow matches FlowView::D2m(
            WaitingView::ReflectAcks { pending, .. },
        ) ==> pending > 0,
    decreases k,
{
    if k > 0 {
        waiting_is_for_something(entries, device_id, k - 1);
        assert(follows(entries[k - 1], entries[k]));
    }
}

} // verus!
