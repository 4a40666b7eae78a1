//! What holds of the message flow: of single steps, and of whole runs.

use vstd::prelude::*;

use crate::command::Command;
use crate::conversation;
use crate::csp::{IncomingPayloadForCspE2e, MessageAck, OutgoingPayloadForCspE2e};
use crate::d2d::{self, Opened, OpenedView, ReflectionView};
use crate::d2d_laws;
use crate::e2e::{self, Machine, Outcome, RunnerView};
use crate::event::{ConversationView, EventView, TextMessageView};
use crate::flow::{
    AfterReflectView, AnnouncementView, ContactChange,
    ContactsResponseView, D2mIncomingPayload, D2mOutgoingPayload, DeliveryView, DraftView,
    EffectView, FlowView, Input, LookupResult, PendingSendView, PurposeView, ReflectPayload,
    RunnerErrorView, TaskResponseView, TaskStep, WaitingView,
};
use crate::model::{PublicKey, ThreemaId};
use crate::store::{ContactStoreView, NonceScope};
use crate::store_laws;

verus! {

// Single steps
// ------------
/// What this device reflects about its own sends looks to the siblings exactly like what a sibling
/// reflects: it is reported as an outgoing message with the same text, time and conversation.
pub proof fn own_reflection_round_trips<M>(
    device_id: u64,
    delivery: DeliveryView<M>,
    contacts: ContactStoreView,
)
    ensures
        d2d::reflected(
            OpenedView::Envelope(e2e::envelope(device_id, e2e::outgoing_text(delivery))),
            contacts,
        ) == Ok::<ReflectionView, Seq<char>>(
            ReflectionView {
                event: Some(
                    EventView::TextMessage(
                        TextMessageView {
                            timestamp_ms: delivery.created_at,
                            outgoing: true,
                            conversation: ConversationView::Contact {
                                identity: delivery.draft.identity,
                                name: conversation::name_in(contacts, delivery.draft.receiver),
                            },
                            sender_identity: None,
                            sender_name: None,
                            text: delivery.draft.text,
                        },
                    ),
                ),
                save: None,
                contacts,
            },
        ),
{
    vstd::utf8::encode_utf8_valid_utf8(delivery.draft.text);
    vstd::utf8::encode_utf8_decode_utf8(delivery.draft.text);
}

/// The report of a message that the chat server accepted is the same as what a sibling reports of
/// it from the reflection, as long as it goes by the same contacts.
pub proof fn siblings_report_the_same<M>(
    device_id: u64,
    delivery: DeliveryView<M>,
    contacts: ContactStoreView,
)
    ensures
        d2d::reflected(
            OpenedView::Envelope(e2e::envelope(device_id, e2e::outgoing_text(delivery))),
            contacts,
        )->Ok_0.event == Some(
            e2e::sent_event(
                contacts,
                delivery.draft.receiver,
                PendingSendView {
                    identity: delivery.draft.identity,
                    text: delivery.draft.text,
                    created_at: delivery.created_at,
                },
            ),
        ),
{
    own_reflection_round_trips(device_id, delivery, contacts);
}

/// Whether the flow listens to the mediator.
pub open spec fn listens<M>(flow: FlowView<M>) -> bool {
    flow is Idle || flow is D2m
}

/// A reflected envelope is always acknowledged, whether or not it could be handled, whatever the
/// flow waits for from the mediator; it never ends the flow, nor changes where the flow stands.
pub proof fn reflected_is_always_acknowledged<B, M>(
    machine: Machine<M>,
    reflect_id: u32,
    opened: Opened,
)
    requires
        listens(machine.runner.flow),
    ensures
        ({
            let outcome = e2e::next::<B, M>(
                machine,
                Input::D2m(Some(D2mIncomingPayload::Reflected { reflect_id, opened })),
            );
            &&& outcome.error is None
            &&& outcome.after.runner == machine.runner
            &&& outcome.effects.len() > 0
            &&& outcome.effects.last() == EffectView::<B, M>::SendD2m(
                D2mOutgoingPayload::ReflectedAck { reflect_id },
            )
        }),
{
}

/// A device that becomes the leader asks the chat server for the withheld messages, whatever it
/// waits for from the mediator.
pub proof fn leader_asks_for_messages<B, M>(machine: Machine<M>)
    requires
        listens(machine.runner.flow),
    ensures
        e2e::next::<B, M>(machine, Input::D2m(Some(D2mIncomingPayload::RolePromotedToLeader)))
            == (Outcome {
            after: machine,
            effects: seq![
                EffectView::<B, M>::PromoteToLeader,
                EffectView::SendCsp(OutgoingPayloadForCspE2e::UnblockIncomingMessages),
            ],
            error: None,
        }),
{
}

/// Dropping the command sender has the same effect as asking to shut down, and if nothing is under
/// way both end the flow cleanly.
pub proof fn dropped_commands_shut_down<B, M>(machine: Machine<M>)
    ensures
        e2e::next::<B, M>(machine, Input::Command(Some(Command::Shutdown))) == e2e::next::<B, M>(
            machine,
            Input::Command(None),
        ),
        machine.runner.flow is Idle ==> {
            let outcome = e2e::next::<B, M>(machine, Input::Command(None));
            &&& outcome.error is None
            &&& outcome.effects.len() == 0
            &&& outcome.after.runner.flow is Finished
        },
{
}

/// An input that is not waited for changes nothing; in particular a command waits until what is
/// under way has come to its end.
pub proof fn out_of_turn_changes_nothing<B, M>(machine: Machine<M>, input: Input<B, M>)
    ensures
        e2e::next(machine, input).error == Some(RunnerErrorView::OutOfTurn) ==> {
            &&& e2e::next(machine, input).after == machine
            &&& e2e::next(machine, input).effects.len() == 0
        },
        input is Command && !(machine.runner.flow is Idle) ==> e2e::next(machine, input).error
            == Some(RunnerErrorView::OutOfTurn),
{
}

/// A flow that has come to its end takes nothing more.
pub proof fn finished_is_final<B, M>(machine: Machine<M>, input: Input<B, M>)
    requires
        machine.runner.flow is Finished,
    ensures
        e2e::next(machine, input).error == Some(RunnerErrorView::OutOfTurn),
        e2e::next(machine, input).after == machine,
{
}

/// Whether the embedder asks to shut down, or has dropped the command sender.
pub open spec fn asks_to_stop<B, M>(input: Input<B, M>) -> bool {
    match input {
        Input::Command(None) => true,
        Input::Command(Some(Command::Shutdown)) => true,
        _ => false,
    }
}

/// The flow ends with an error exactly when a step fails; nothing is done in such a step. It ends
/// without one only if it was asked to shut down or the command sender was dropped.
pub proof fn failure_ends_the_flow<B, M>(machine: Machine<M>, input: Input<B, M>)
    ensures
        (e2e::next(machine, input).error matches Some(RunnerErrorView::Failed(_))) ==> {
            &&& e2e::next(machine, input).after.runner.flow is Finished
            &&& e2e::next(machine, input).effects.len() == 0
        },
        e2e::next(machine, input).error is None && e2e::next(
            machine,
            input,
        ).after.runner.flow is Finished ==> machine.runner.flow is Idle && asks_to_stop(input),
{
}

/// A problem with the recipient of a message never ends the flow: whatever the recipient is, and
/// whatever parsing it, looking it up in the store or at the directory brings, the flow goes on.
pub proof fn recipients_never_end_the_flow<B, M>(machine: Machine<M>, input: Input<B, M>)
    requires
        match (machine.runner.flow, input) {
            (FlowView::Idle, Input::Command(Some(Command::SendText { .. }))) => true,
            (FlowView::Parsing { .. }, Input::IdentityParsed(_)) => true,
            (FlowView::LookingUp(_), Input::LookedUp(_)) => true,
            _ => false,
        },
    ensures
        e2e::next(machine, input).error is None,
        !(e2e::next(machine, input).after.runner.flow is Finished),
{
}

/// Messages that wait for the chat server's acknowledgement: one is added exactly in the step that
/// hands it to the chat server, one is removed exactly in the step that its acknowledgement
/// arrives, and no other step changes them.
pub proof fn pending_sends_follow_the_chat_server<B, M>(machine: Machine<M>, input: Input<B, M>)
    ensures
        ({
            let outcome = e2e::next(machine, input);
            let before = machine.runner.pending_sends;
            let after = outcome.after.runner.pending_sends;
            if handed_over(machine.runner, input) is Some {
                let delivery = handed_over(machine.runner, input)->0;
                &&& outcome.effects == seq![
                    EffectView::<B, M>::SendCsp(
                        OutgoingPayloadForCspE2e::Message(delivery.message->Ok_0),
                    ),
                ]
                &&& after == before.insert(key_of(delivery), pending_of(delivery))
            } else {
                &&& !hands_over(outcome.effects)
                &&& after == match acked(machine.runner, input) {
                    Some(key) => before.remove(key),
                    None => before,
                }
            }
        }),
{
    let before = machine.runner.pending_sends;
    if let Some(key) = acked(machine.runner, input) {
        if !before.dom().contains(key) {
            assert(before.remove(key) =~= before);
        }
    }
    assert forall|i: int| 0 <= i < e2e::next(machine, input).effects.len() implies handed_over(
        machine.runner,
        input,
    ) is Some || !(#[trigger] e2e::next(machine, input).effects[i] matches EffectView::SendCsp(
        OutgoingPayloadForCspE2e::Message(_),
    )) by {
        lemma_reflected_first(machine, input, i);
    }
}

/// What a task reflects comes first, and is all sent to the mediator.
proof fn lemma_reflected_first<B, M>(machine: Machine<M>, input: Input<B, M>, i: int)
    ensures
        ({
            let effects = e2e::next(machine, input).effects;
            &&& input matches Input::TaskPolled(Ok(TaskStep::ReflectMessage(payloads))) ==> 0 <= i
                < effects.len() && i < payloads@.len() ==> effects[i] is SendD2m
            &&& input matches Input::TaskPolled(
                Ok(TaskStep::ReflectAndCommitTransaction(_, payloads)),
            ) ==> 0 <= i < effects.len() && i < payloads@.len() ==> effects[i] is SendD2m
        }),
{
    if let Input::TaskPolled(Ok(TaskStep::ReflectMessage(payloads))) = input {
        if 0 <= i < payloads@.len() {
            assert(e2e::reflects::<B, M>(payloads@)[i] is SendD2m);
        }
    }
    if let Input::TaskPolled(Ok(TaskStep::ReflectAndCommitTransaction(_, payloads))) = input {
        if 0 <= i < payloads@.len() {
            assert(e2e::reflects::<B, M>(payloads@)[i] is SendD2m);
        }
    }
}

/// The message whose acknowledgement by the chat server a step takes, if it takes one.
pub open spec fn acked<B, M>(runner: RunnerView<M>, input: Input<B, M>) -> Option<
    (Seq<char>, u64),
> {
    match (runner.flow, input) {
        (FlowView::Idle, Input::Csp(Some(IncomingPayloadForCspE2e::MessageAck(ack)))) => Some(ack@),
        _ => None,
    }
}

/// An acknowledgement that no message waits for does nothing at all.
pub proof fn unmatched_acks_do_nothing<B, M>(machine: Machine<M>, ack: MessageAck)
    requires
        machine.runner.flow is Idle,
        !machine.runner.pending_sends.dom().contains(ack@),
    ensures
        e2e::next::<B, M>(
            machine,
            Input::Csp(Some(IncomingPayloadForCspE2e::MessageAck(ack))),
        ) == (Outcome { after: machine, effects: Seq::<EffectView<B, M>>::empty(), error: None }),
{
}

/// A message is acknowledged to the chat server exactly when the task that handled it is done and
/// asks for it, with just that acknowledgement.
pub proof fn handled_messages_are_acknowledged<B, M>(
    machine: Machine<M>,
    input: Input<B, M>,
    ack: MessageAck,
)
    ensures
        ({
            let outcome = e2e::next(machine, input);
            let payload = EffectView::<B, M>::SendCsp(OutgoingPayloadForCspE2e::MessageAck(ack));
            let asked = machine.runner.flow == FlowView::<M>::Task(PurposeView::Incoming)
                && input == Input::<B, M>::TaskPolled(Ok(TaskStep::Done(Some(ack))));
            &&& outcome.effects.contains(payload) <==> asked
            &&& asked ==> outcome.effects == seq![payload] && outcome.after.runner.flow is Idle
        }),
{
    let outcome = e2e::next(machine, input);
    let payload = EffectView::<B, M>::SendCsp(OutgoingPayloadForCspE2e::MessageAck(ack));
    if outcome.effects.contains(payload) {
        let i = choose|i: int| 0 <= i < outcome.effects.len() && outcome.effects[i] == payload;
        lemma_reflected_first(machine, input, i);
    }
    if machine.runner.flow == FlowView::<M>::Task(PurposeView::Incoming) && input == Input::<
        B,
        M,
    >::TaskPolled(Ok(TaskStep::Done(Some(ack)))) {
        assert(outcome.effects[0] == payload);
    }
}

/// The flow ends with an error when it finds that a channel it listens to is closed.
pub proof fn lost_channels_end_the_flow<B, M>(machine: Machine<M>)
    ensures
        machine.runner.flow is Idle ==> {
            let outcome = e2e::next::<B, M>(machine, Input::Csp(None));
            &&& outcome.error == Some(RunnerErrorView::Failed("CSP incoming channel closed"@))
            &&& outcome.after.runner.flow is Finished
        },
        listens(machine.runner.flow) ==> {
            let outcome = e2e::next::<B, M>(machine, Input::D2m(None));
            &&& outcome.error matches Some(RunnerErrorView::Failed(_))
            &&& outcome.after.runner.flow is Finished
        },
{
}

/// Whether a message is handed to the chat server.
pub open spec fn hands_over<B, M>(effects: Seq<EffectView<B, M>>) -> bool {
    exists|i: int|
        0 <= i < effects.len() && (#[trigger] effects[i] matches EffectView::SendCsp(
            OutgoingPayloadForCspE2e::Message(_),
        ))
}

/// The message that a step hands to the chat server, if it hands one over.
pub open spec fn handed_over<B, M>(runner: RunnerView<M>, input: Input<B, M>) -> Option<
    DeliveryView<M>,
> {
    match (runner.flow, input) {
        (
            FlowView::D2m(
                WaitingView::ReflectAcks {
                    pending,
                    after: AfterReflectView::Announced(AnnouncementView::Outgoing(delivery)),
                    ..
                },
            ),
            Input::D2m(Some(D2mIncomingPayload::ReflectAck { .. })),
        ) => if pending <= 1 && delivery.message is Ok {
            Some(delivery)
        } else {
            None
        },
        _ => None,
    }
}

/// What identifies a message on its way to the chat server.
pub open spec fn key_of<M>(delivery: DeliveryView<M>) -> (Seq<char>, u64) {
    (delivery.draft.receiver, delivery.message_id)
}

/// What is remembered of a message until the chat server acknowledges it.
pub open spec fn pending_of<M>(delivery: DeliveryView<M>) -> PendingSendView {
    PendingSendView {
        identity: delivery.draft.identity,
        text: delivery.draft.text,
        created_at: delivery.created_at,
    }
}

/// Used nonces stay used, and the nonce of every encrypted message and of every encrypted envelope
/// counts as used from the step on in which the flow learns of it; nothing leaves the device in
/// that step.
pub proof fn nonces_are_recorded_first<B, M>(
    machine: Machine<M>,
    input: Input<B, M>,
    scope: NonceScope,
    used: Seq<u8>,
)
    ensures
        ({
            let outcome = e2e::next(machine, input);
            &&& machine.nonces.has(scope, used) ==> outcome.after.nonces.has(scope, used)
            &&& machine.runner.flow is Encrypting ==> (input matches Input::Encrypted { nonce, .. }
                ==> {
                &&& outcome.after.nonces.has(NonceScope::CspE2e, nonce@)
                &&& outcome.effects == seq![EffectView::<B, M>::SaveNonces]
            })
            &&& machine.runner.flow is Sealing ==> (input matches Input::Sealed(Some((_, nonce)))
                ==> {
                &&& outcome.after.nonces.has(NonceScope::D2x, nonce@)
                &&& outcome.effects == seq![EffectView::<B, M>::SaveNonces]
            })
        }),
{
    if machine.runner.flow is Encrypting {
        if let Input::Encrypted { nonce, .. } = input {
            let added = seq![nonce];
            assert(added[0]@ == nonce@);
            store_laws::recorded_nonces_are_used(
                machine.nonces,
                NonceScope::CspE2e,
                added,
                NonceScope::CspE2e,
                nonce@,
            );
            store_laws::recorded_nonces_are_used(
                machine.nonces,
                NonceScope::CspE2e,
                added,
                scope,
                used,
            );
        }
    }
    if machine.runner.flow is Sealing {
        if let Input::Sealed(Some((_, nonce))) = input {
            let added = seq![nonce];
            assert(added[0]@ == nonce@);
            store_laws::recorded_nonces_are_used(
                machine.nonces,
                NonceScope::D2x,
                added,
                NonceScope::D2x,
                nonce@,
            );
            store_laws::recorded_nonces_are_used(
                machine.nonces,
                NonceScope::D2x,
                added,
                scope,
                used,
            );
        }
    }
}

/// A recipient that the contact store does not know is looked up at the directory; if it is new
/// there, the contact is created first, and only then is the message encrypted, for the public key
/// that the directory gave.
pub proof fn unknown_recipients_are_looked_up<B, M>(
    machine: Machine<M>,
    identity: Seq<char>,
    text: Seq<char>,
    receiver: ThreemaId,
    public_key: PublicKey,
    later: Machine<M>,
)
    requires
        machine.runner.flow == (FlowView::<M>::Parsing { identity, text }),
        receiver@ != machine.contacts.user_identity,
        !machine.contacts.knows(receiver@),
        later.runner.flow == FlowView::<M>::Task(
            PurposeView::Create(DraftView { receiver: receiver@, identity, text }, public_key@),
        ),
    ensures
        ({
            let draft = DraftView { receiver: receiver@, identity, text };
            let parsed = e2e::next::<B, M>(machine, Input::IdentityParsed(Some(receiver)));
            let found = e2e::next::<B, M>(
                parsed.after,
                Input::LookedUp(Ok(LookupResult::NewContact(public_key))),
            );
            let created = e2e::next::<B, M>(later, Input::TaskPolled(Ok(TaskStep::Done(None))));
            &&& parsed.effects == seq![EffectView::<B, M>::LookUp(receiver@)]
            &&& found.effects == seq![
                EffectView::<B, M>::StartCreate(receiver@),
                EffectView::PollTask,
            ]
            &&& found.after.runner.flow == later.runner.flow
            &&& created.effects == seq![
                EffectView::<B, M>::Encrypt { receiver: receiver@, public_key: public_key@, text },
            ]
            &&& created.after.runner.flow == FlowView::<M>::Encrypting(draft)
        }),
{
}

/// Every message that is reported names a sender exactly if the user did not send it.
pub proof fn reports_name_the_right_sender<B, M>(machine: Machine<M>, input: Input<B, M>, i: int)
    requires
        0 <= i < e2e::next(machine, input).effects.len(),
    ensures
        e2e::next(machine, input).effects[i] matches EffectView::Emit(
            EventView::TextMessage(message),
        ) ==> message.sender_fits(),
{
    if let Input::D2m(Some(D2mIncomingPayload::Reflected { opened, .. })) = input {
        if d2d::reflected(opened@, machine.contacts) is Ok {
            d2d_laws::only_text_is_reported(opened@, machine.contacts);
        }
    }
    lemma_reflected_first(machine, input, i);
}

// Waiting for the mediator
// ------------------------
/// Whether a payload is one that the flow waits for.
pub open spec fn answers<M>(waiting: WaitingView<M>, payload: D2mIncomingPayload) -> bool {
    match waiting {
        WaitingView::TransactionEnded(_) => payload is TransactionEnded,
        WaitingView::BeginReply(..) => payload is BeginTransactionAck
            || payload is TransactionRejected,
        WaitingView::AbortAck(..) => payload is CommitTransactionAck,
        WaitingView::CommitAck { .. } => payload is CommitTransactionAck || payload is ReflectAck,
        WaitingView::ReflectAcks { .. } => payload is ReflectAck,
    }
}

/// Whatever the flow waits for from the mediator, a payload that is no answer leaves it waiting for
/// the same and is handled just as it would be if nothing were under way.
pub proof fn only_answers_end_a_wait<B, M>(
    machine: Machine<M>,
    waiting: WaitingView<M>,
    payload: D2mIncomingPayload,
)
    requires
        machine.runner.flow == FlowView::D2m(waiting),
        !answers(waiting, payload),
    ensures
        ({
            let idle = Machine { runner: machine.runner.at(FlowView::Idle), ..machine };
            let outcome = e2e::next::<B, M>(machine, Input::D2m(Some(payload)));
            let otherwise = e2e::next::<B, M>(idle, Input::D2m(Some(payload)));
            &&& outcome.error is None
            &&& outcome.after.runner == machine.runner
            &&& outcome.effects == otherwise.effects
            &&& outcome.after.contacts == otherwise.after.contacts
        }),
{
}

/// The flow after some payloads of the mediator.
pub open spec fn after_payloads<B, M>(machine: Machine<M>, payloads: Seq<D2mIncomingPayload>) -> Machine<
    M,
>
    decreases payloads.len(),
{
    if payloads.len() == 0 {
        machine
    } else {
        e2e::next::<B, M>(
            after_payloads::<B, M>(machine, payloads.drop_last()),
            Input::D2m(Some(payloads.last())),
        ).after
    }
}

/// The reflect IDs that some payloads acknowledge, in order.
pub open spec fn acknowledged_ids(payloads: Seq<D2mIncomingPayload>) -> Seq<u32>
    decreases payloads.len(),
{
    if payloads.len() == 0 {
        Seq::empty()
    } else {
        let front = acknowledged_ids(payloads.drop_last());
        match e2e::acknowledged_id(payloads.last()) {
            Some(id) => front.push(id),
            None => front,
        }
    }
}

/// After envelopes were reflected, the flow waits for exactly as many acknowledgements as are due
/// for those that are not ephemeral, whatever else arrives in between.
pub proof fn reflect_waits_for_every_ack<B, M>(
    machine: Machine<M>,
    pending: nat,
    after: AfterReflectView<M>,
    payloads: Seq<D2mIncomingPayload>,
)
    requires
        machine.runner.flow == FlowView::D2m(
            WaitingView::ReflectAcks { pending, acknowledged: Seq::empty(), after },
        ),
        acknowledged_ids(payloads).len() < pending,
    ensures
        after_payloads::<B, M>(machine, payloads).runner == machine.runner.at(
            FlowView::D2m(
                WaitingView::ReflectAcks {
                    pending: (pending - acknowledged_ids(payloads).len()) as nat,
                    acknowledged: acknowledged_ids(payloads),
                    after,
                },
            ),
        ),
    decreases payloads.len(),
{
    if payloads.len() > 0 {
        reflect_waits_for_every_ack::<B, M>(machine, pending, after, payloads.drop_last());
    }
}

/// Once the last acknowledgement that is due arrives, the task that asked for the reflection is
/// told of all of them, in the order in which they came.
pub proof fn reflect_ends_with_the_last_ack<B, M>(
    machine: Machine<M>,
    pending: nat,
    purpose: PurposeView,
    payloads: Seq<D2mIncomingPayload>,
    reflect_id: u32,
)
    requires
        machine.runner.flow == FlowView::<M>::D2m(
            WaitingView::ReflectAcks {
                pending,
                acknowledged: Seq::empty(),
                after: AfterReflectView::Task(purpose),
            },
        ),
        acknowledged_ids(payloads).len() + 1 == pending,
    ensures
        ({
            let outcome = e2e::next::<B, M>(
                after_payloads::<B, M>(machine, payloads),
                Input::D2m(Some(D2mIncomingPayload::ReflectAck { reflect_id })),
            );
            &&& outcome.after.runner.flow == FlowView::<M>::Task(purpose)
            &&& outcome.effects == seq![
                EffectView::<B, M>::RespondTask(
                    TaskResponseView::ReflectMessage {
                        acknowledged_reflect_ids: acknowledged_ids(payloads).push(reflect_id),
                    },
                ),
                EffectView::PollTask,
            ]
        }),
{
    reflect_waits_for_every_ack::<B, M>(
        machine,
        pending,
        AfterReflectView::Task(purpose),
        payloads,
    );
    let outcome = e2e::next::<B, M>(
        after_payloads::<B, M>(machine, payloads),
        Input::D2m(Some(D2mIncomingPayload::ReflectAck { reflect_id })),
    );
    assert(outcome.effects =~= seq![
        EffectView::<B, M>::RespondTask(
            TaskResponseView::ReflectMessage {
                acknowledged_reflect_ids: acknowledged_ids(payloads).push(reflect_id),
            },
        ),
        EffectView::PollTask,
    ]);
}

/// A task's reflection sends every envelope, in order, and then waits for as many acknowledgements
/// as there are envelopes that are not ephemeral; if there are none, the task goes on at once.
pub proof fn reflect_sends_everything<B, M>(
    machine: Machine<M>,
    payloads: Vec<ReflectPayload>,
    i: int,
)
    requires
        machine.runner.flow == FlowView::<M>::Task(PurposeView::Incoming),
        0 <= i < payloads@.len(),
    ensures
        ({
            let outcome = e2e::next::<B, M>(
                machine,
                Input::TaskPolled(Ok(TaskStep::ReflectMessage(payloads))),
            );
            &&& outcome.effects[i] == EffectView::<B, M>::SendD2m(
                D2mOutgoingPayload::Reflect {
                    ephemeral: payloads@[i].ephemeral,
                    reflect_id: payloads@[i].id,
                    envelope: payloads@[i].envelope,
                },
            )
            &&& outcome.after.runner.flow == if e2e::acks_due(payloads@) == 0 {
                FlowView::<M>::Task(PurposeView::Incoming)
            } else {
                FlowView::D2m(
                    WaitingView::ReflectAcks {
                        pending: e2e::acks_due(payloads@),
                        acknowledged: Seq::empty(),
                        after: AfterReflectView::Task(PurposeView::Incoming),
                    },
                )
            }
        }),
{
}

/// Whether a payload ends a transaction.
pub open spec fn ends_transaction(payload: D2mIncomingPayload) -> bool {
    payload is CommitTransactionAck
}

/// While a transaction is being committed, the acknowledgements of what was reflected in it are
/// collected in the order in which they come, whatever else arrives in between, and the task is
/// told of all of them when the mediator has ended the transaction.
pub proof fn commit_collects_acks<B, M>(
    machine: Machine<M>,
    change: ContactChange,
    purpose: PurposeView,
    payloads: Seq<D2mIncomingPayload>,
)
    requires
        machine.runner.flow == FlowView::<M>::D2m(
            WaitingView::CommitAck { change, acknowledged: Seq::empty(), purpose },
        ),
        forall|i: int| 0 <= i < payloads.len() ==> !ends_transaction(#[trigger] payloads[i]),
    ensures
        after_payloads::<B, M>(machine, payloads).runner == machine.runner.at(
            FlowView::D2m(
                WaitingView::CommitAck {
                    change,
                    acknowledged: acknowledged_ids(payloads),
                    purpose,
                },
            ),
        ),
        ({
            let outcome = e2e::next::<B, M>(
                after_payloads::<B, M>(machine, payloads),
                Input::D2m(Some(D2mIncomingPayload::CommitTransactionAck)),
            );
            &&& outcome.after.runner.flow == FlowView::<M>::Task(purpose)
            &&& outcome.effects == seq![
                EffectView::<B, M>::RespondTask(
                    TaskResponseView::Contacts(
                        change,
                        ContactsResponseView::CommitTransactionResponse {
                            acknowledged_reflect_ids: acknowledged_ids(payloads),
                        },
                    ),
                ),
                EffectView::PollTask,
            ]
        }),
    decreases payloads.len(),
{
    if payloads.len() > 0 {
        let front = payloads.drop_last();
        assert forall|i: int| 0 <= i < front.len() implies !ends_transaction(
            #[trigger] front[i],
        ) by {
            assert(front[i] == payloads[i]);
        }
        commit_collects_acks::<B, M>(machine, change, purpose, front);
        assert(!ends_transaction(payloads[payloads.len() - 1]));
    }
    let outcome = e2e::next::<B, M>(
        after_payloads::<B, M>(machine, payloads),
        Input::D2m(Some(D2mIncomingPayload::CommitTransactionAck)),
    );
    assert(outcome.effects =~= seq![
        EffectView::<B, M>::RespondTask(
            TaskResponseView::Contacts(
                change,
                ContactsResponseView::CommitTransactionResponse {
                    acknowledged_reflect_ids: acknowledged_ids(payloads),
                },
            ),
        ),
        EffectView::PollTask,
    ]);
}

} // verus!
