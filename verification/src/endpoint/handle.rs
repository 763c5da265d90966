//! Admission of commands by the application's handle.

use crate::api::ControlIntent;
use crate::config::EndpointConfig;
use crate::endpoint::command::{
    Acknowledgement, Envelope, LifecycleCommand, LifecycleIntent, LifecycleReceipt, StartReceipt,
};
use crate::endpoint::diagnostics;
use crate::endpoint::diagnostics::{DiagnosticPublisher, DiagnosticRecord};
use crate::endpoint::error::EndpointError;
use crate::endpoint::receiver::{Delivery, HsmsReceiver};
use crate::error::{ConfigError, OperationError};
use crate::lifecycle::state;
use crate::lifecycle::state::{EndpointStateSnapshot, GenerationSlotSnapshot};
use crate::model::ids::ConnectionGeneration;
use crate::secs2::{text_length, SecsItem};
use crate::sync::channel;
use crate::sync::channel::{
    exchange, is_closed, latest, latest_value, bounded_queue, try_send, Refused,
};
use crate::sync::semaphore;
use crate::sync::semaphore::{new_semaphore, try_claim, try_reserve};
use std::sync::Arc;
use tokio::sync::{mpsc, oneshot, watch, OwnedSemaphorePermit, Semaphore};
use vstd::prelude::*;

verus! {

/// Factory of stopped, reusable endpoints.
pub struct HsmsEndpoint;

/// Everything that a new endpoint consists of.
pub struct EndpointParts {
    /// The application's side.
    pub handle: HsmsHandle,
    /// Queue of admitted commands.
    pub commands: mpsc::Receiver<LifecycleCommand>,
    /// Published lifecycle state.
    pub state: watch::Sender<EndpointStateSnapshot>,
    /// The runtime's side of delivery.
    pub delivery: Delivery,
    /// The application's side of delivery.
    pub receiver: HsmsReceiver,
    /// Publisher of diagnostics.
    pub diagnostics: DiagnosticPublisher,
    /// Stream of diagnostics.
    pub records: mpsc::Receiver<DiagnosticRecord>,
}

impl HsmsEndpoint {
    /// Builds an endpoint without touching the network. Command slots, reply slots
    /// and one close slot are reserved apart from each other in one queue.
    pub fn build(config: EndpointConfig) -> (r: Result<EndpointParts, ConfigError>)
        ensures
            match r {
                Ok(parts) => {
                    &&& config.valid()
                    &&& parts.handle.maximum() == config.limits.max_message_length
                    &&& parts.handle.budgets().sized(config)
                    &&& channel::made_with(
                        (config.limits.command_capacity + config.limits.reply_capacity
                            + 1) as usize,
                        parts.handle.queue(),
                        parts.commands,
                    )
                    &&& parts.delivery.feeds(parts.receiver, config)
                    &&& parts.diagnostics.feeds(parts.records, config.limits.diagnostic_capacity)
                    &&& initially(
                        state::initial_snapshot(),
                        parts.state,
                        parts.handle.subscribed(),
                    )
                    &&& parts.diagnostics.counts() == diagnostics::fresh_counters()
                    &&& parts.diagnostics.published() == Seq::<DiagnosticRecord>::empty()
                    &&& parts.delivery@.primaries.len() == 0
                    &&& parts.delivery@.errors.len() == 0
                    &&& semaphore::limit(parts.delivery.budget())
                        == config.limits.primary_queue_bytes
                },
                Err(error) => config.refused(error),
            },
    {
        match config.validate() {
            Ok(()) => {},
            Err(error) => {
                return Err(error);
            },
        }
        let limits = config.limits;
        let (commands, command_receiver) = bounded_queue(
            limits.command_capacity + limits.reply_capacity + 1,
        );
        let (state, snapshot) = latest_value(EndpointStateSnapshot::stopped_clean());
        assert(initially(state::initial_snapshot(), state, snapshot));
        let (delivery, receiver) = Delivery::new(&config);
        let (publisher, records) = DiagnosticPublisher::new(limits.diagnostic_capacity);
        let handle = HsmsHandle {
            commands,
            slots: new_semaphore(limits.command_capacity),
            close_slots: new_semaphore(1),
            reply_slots: new_semaphore(limits.reply_capacity),
            reply_bytes: new_semaphore(limits.reply_bytes as usize),
            snapshot,
            bytes: new_semaphore(limits.command_bytes as usize),
            maximum_message_length: limits.max_message_length,
        };
        Ok(
            EndpointParts {
                handle,
                commands: command_receiver,
                state,
                delivery,
                receiver,
                diagnostics: publisher,
                records,
            },
        )
    }
}

/// Budgets that the commands of an endpoint are charged to.
pub struct Budgets {
    /// Slots of ordinary commands.
    pub slots: Arc<Semaphore>,
    /// Slot of a stop or a disconnect.
    pub close_slots: Arc<Semaphore>,
    /// Slots of replies.
    pub reply_slots: Arc<Semaphore>,
    /// Bytes of replies.
    pub reply_bytes: Arc<Semaphore>,
    /// Bytes of primaries.
    pub bytes: Arc<Semaphore>,
}

impl Budgets {
    /// Every budget has the size that the configuration gives it, and closing has
    /// exactly one slot.
    pub open spec fn sized(self, config: EndpointConfig) -> bool {
        &&& semaphore::limit(self.slots) == config.limits.command_capacity
        &&& semaphore::limit(self.close_slots) == 1
        &&& semaphore::limit(self.reply_slots) == config.limits.reply_capacity
        &&& semaphore::limit(self.reply_bytes) == config.limits.reply_bytes
        &&& semaphore::limit(self.bytes) == config.limits.command_bytes
    }

    /// Slots that a command is counted in.
    pub open spec fn slots_of(self, intent: LifecycleIntent) -> Arc<Semaphore> {
        match intent {
            LifecycleIntent::Stop => self.close_slots,
            LifecycleIntent::Disconnect(_) => self.close_slots,
            LifecycleIntent::Reply { .. } => self.reply_slots,
            _ => self.slots,
        }
    }

    /// Bytes that a command is charged to.
    pub open spec fn bytes_of(self, intent: LifecycleIntent) -> Arc<Semaphore> {
        match intent {
            LifecycleIntent::Reply { .. } => self.reply_bytes,
            _ => self.bytes,
        }
    }
}

/// The application's side of an endpoint. Every admission reserves its budget
/// before anything is handed over, and returns at once.
pub struct HsmsHandle {
    pub(crate) commands: mpsc::Sender<LifecycleCommand>,
    pub(crate) slots: Arc<Semaphore>,
    pub(crate) close_slots: Arc<Semaphore>,
    pub(crate) reply_slots: Arc<Semaphore>,
    pub(crate) reply_bytes: Arc<Semaphore>,
    pub(crate) snapshot: watch::Receiver<EndpointStateSnapshot>,
    pub(crate) bytes: Arc<Semaphore>,
    pub(crate) maximum_message_length: usize,
}

/// A command that was handed to the runtime.
pub struct Ticket {
    /// The application's side of the answer.
    pub answer: oneshot::Receiver<Acknowledgement>,
    /// What was handed over.
    pub intent: Ghost<LifecycleIntent>,
    /// Slot that the command holds until it is answered.
    pub permit: Ghost<OwnedSemaphorePermit>,
    /// Bytes that the command holds until it is answered.
    pub bytes: Ghost<Option<OwnedSemaphorePermit>>,
}

impl Ticket {
    /// The command was handed over, holding one slot of its own kind and exactly
    /// the bytes charged for it.
    pub open spec fn carries(
        self,
        budgets: Budgets,
        intent: LifecycleIntent,
        charge: Option<u32>,
    ) -> bool {
        &&& self.intent@ == intent
        &&& semaphore::issuer(self.permit@) == budgets.slots_of(intent)
        &&& semaphore::held(self.permit@) == 1
        &&& match charge {
            Some(charge) => {
                &&& self.bytes@ is Some
                &&& semaphore::issuer(self.bytes@->0) == budgets.bytes_of(intent)
                &&& semaphore::held(self.bytes@->0) == charge
            },
            None => self.bytes@ is None,
        }
    }
}

/// Both halves of a published state are those of one cell that started with this
/// state.
pub closed spec fn initially(
    first: EndpointStateSnapshot,
    cell: watch::Sender<EndpointStateSnapshot>,
    subscription: watch::Receiver<EndpointStateSnapshot>,
) -> bool {
    call_ensures(latest_value::<EndpointStateSnapshot>, (first,), (cell, subscription))
}

/// Both halves are those of one exchange.
pub closed spec fn paired(
    completion: oneshot::Sender<Acknowledgement>,
    answer: oneshot::Receiver<Acknowledgement>,
) -> bool {
    call_ensures(exchange::<Acknowledgement>, (), (completion, answer))
}

/// How the command queue received a command, by its answer.
pub open spec fn handover_of(answer: Result<(), Refused<LifecycleCommand>>) -> Handover {
    match answer {
        Ok(_) => Handover::Taken,
        Err(Refused::Full(_)) => Handover::Full,
        Err(Refused::Closed(_)) => Handover::Closed,
    }
}

/// How the command queue received a command.
#[derive(Clone, Copy, Debug, PartialEq, Eq, Structural)]
pub enum Handover {
    /// The runtime will take it up.
    Taken,
    /// The queue is full.
    Full,
    /// The runtime is gone.
    Closed,
}

/// What an admission saw of the shared budgets.
#[derive(Clone, Copy, Debug, PartialEq, Eq, Structural)]
pub struct Observed {
    /// The runtime was gone.
    pub closed: bool,
    /// Visible connection.
    pub slot: GenerationSlotSnapshot,
    /// A slot was granted.
    pub counted: bool,
    /// The bytes were granted.
    pub charged: bool,
    /// How the queue received the command.
    pub handover: Handover,
}

/// Refusal owed for a handover.
pub open spec fn handover_refusal(handover: Handover) -> Option<EndpointError> {
    match handover {
        Handover::Taken => None,
        Handover::Full => Some(EndpointError::Backpressure),
        Handover::Closed => Some(EndpointError::RuntimeStopped),
    }
}

/// Refusal owed for a command without a message.
pub open spec fn plain_refusal(observed: Observed) -> Option<EndpointError> {
    if observed.closed {
        Some(EndpointError::RuntimeStopped)
    } else if !observed.counted {
        Some(EndpointError::Backpressure)
    } else {
        handover_refusal(observed.handover)
    }
}

/// Returns why a command without content is refused, given what was observed.
pub fn refuse_plain(observed: Observed) -> (r: Option<EndpointError>)
    ensures
        r == plain_refusal(observed),
{
    if observed.closed {
        Some(EndpointError::RuntimeStopped)
    } else if !observed.counted {
        Some(EndpointError::Backpressure)
    } else {
        refuse_handover(observed.handover)
    }
}

/// Returns the failure owed for a command that the queue did not take.
pub fn refuse_handover(handover: Handover) -> (r: Option<EndpointError>)
    ensures
        r == handover_refusal(handover),
{
    match handover {
        Handover::Taken => None,
        Handover::Full => Some(EndpointError::Backpressure),
        Handover::Closed => Some(EndpointError::RuntimeStopped),
    }
}

/// Connection of a control procedure; a draining one still carries it.
pub open spec fn control_target(slot: GenerationSlotSnapshot, closed: bool) -> Result<
    ConnectionGeneration,
    EndpointError,
> {
    match slot {
        GenerationSlotSnapshot::Open(generation) => Ok(generation),
        GenerationSlotSnapshot::Draining(generation) => Ok(generation),
        GenerationSlotSnapshot::Vacant => Err(
            if closed {
                EndpointError::RuntimeStopped
            } else {
                EndpointError::NotConnected
            },
        ),
    }
}

/// Returns the connection of a control procedure.
pub fn control_route(slot: GenerationSlotSnapshot, closed: bool) -> (r: Result<
    ConnectionGeneration,
    EndpointError,
>)
    ensures
        r == control_target(slot, closed),
{
    match slot {
        GenerationSlotSnapshot::Open(generation) => Ok(generation),
        GenerationSlotSnapshot::Draining(generation) => Ok(generation),
        GenerationSlotSnapshot::Vacant => Err(
            if closed {
                EndpointError::RuntimeStopped
            } else {
                EndpointError::NotConnected
            },
        ),
    }
}

/// Connection that a disconnect closes, if any is visible.
pub open spec fn visible(slot: GenerationSlotSnapshot) -> Option<ConnectionGeneration> {
    match slot {
        GenerationSlotSnapshot::Open(generation) => Some(generation),
        GenerationSlotSnapshot::Draining(generation) => Some(generation),
        GenerationSlotSnapshot::Vacant => None,
    }
}

/// Returns the connection that a disconnect closes, if any is visible.
pub fn disconnect_route(slot: GenerationSlotSnapshot) -> (r: Option<ConnectionGeneration>)
    ensures
        r == visible(slot),
{
    match slot {
        GenerationSlotSnapshot::Open(generation) => Some(generation),
        GenerationSlotSnapshot::Draining(generation) => Some(generation),
        GenerationSlotSnapshot::Vacant => None,
    }
}

/// Wire bytes of a message with this body, or why it can never be sent.
pub open spec fn wire_charge(maximum_message_length: usize, body: Option<SecsItem>) -> Result<
    u32,
    EndpointError,
> {
    let text = crate::secs2::spec_text_length(body);
    if text + 10 > maximum_message_length {
        Err(
            EndpointError::Operation(
                OperationError::OutboundFrameTooLarge {
                    text_length: text as usize,
                    maximum_message_length,
                },
            ),
        )
    } else if text + 14 > usize::MAX || text + 14 > u32::MAX {
        Err(EndpointError::Backpressure)
    } else {
        Ok((text + 14) as u32)
    }
}

impl HsmsHandle {
    /// Largest Message Length.
    pub closed spec fn maximum(&self) -> usize {
        self.maximum_message_length
    }

    /// Budgets that the handle charges.
    pub closed spec fn budgets(&self) -> Budgets {
        Budgets {
            slots: self.slots,
            close_slots: self.close_slots,
            reply_slots: self.reply_slots,
            reply_bytes: self.reply_bytes,
            bytes: self.bytes,
        }
    }

    /// Queue of admitted commands.
    pub closed spec fn queue(&self) -> mpsc::Sender<LifecycleCommand> {
        self.commands
    }

    /// The command queue said whether the runtime is gone when it was asked.
    pub closed spec fn stop_reported(&self, stopped: bool) -> bool {
        call_ensures(is_closed::<LifecycleCommand>, (&self.commands,), stopped)
    }

    /// Returns whether the runtime is gone.
    pub(crate) fn is_stopped(&self) -> (r: bool)
        ensures
            self.stop_reported(r),
    {
        is_closed(&self.commands)
    }

    /// The command queue gave this answer when the command was offered to it.
    pub closed spec fn offered(
        &self,
        command: LifecycleCommand,
        answer: Result<(), Refused<LifecycleCommand>>,
    ) -> bool {
        call_ensures(try_send::<LifecycleCommand>, (&self.commands, command), answer)
    }

    /// The connection slot was this one in the state that the subscription gave.
    pub open spec fn slot_seen(&self, slot: GenerationSlotSnapshot) -> bool {
        exists|state: EndpointStateSnapshot| #[trigger]
            self.shows(state) && state.generation == slot
    }

    /// The queue took the very command that the ticket stands for, with the slot
    /// and the bytes that it holds, and the ticket waits for its answer.
    pub open spec fn took(&self, ticket: Ticket) -> bool {
        exists|command: LifecycleCommand, answer: Result<(), Refused<LifecycleCommand>>|
            {
                &&& #[trigger] self.offered(command, answer)
                &&& answer is Ok
                &&& command.intent == ticket.intent@
                &&& command.envelope.permit == ticket.permit@
                &&& command.envelope.bytes == ticket.bytes@
                &&& paired(command.envelope.completion, ticket.answer)
            }
    }

    /// A command with this intent was offered to the queue, which received it so.
    pub open spec fn received(&self, intent: LifecycleIntent, handover: Handover) -> bool {
        exists|command: LifecycleCommand, answer: Result<(), Refused<LifecycleCommand>>|
            {
                &&& #[trigger] self.offered(command, answer)
                &&& command.intent == intent
                &&& handover == handover_of(answer)
            }
    }

    /// A slot of this kind was claimed, with this success.
    pub open spec fn slot_claimed(&self, slots: Arc<Semaphore>, granted: bool) -> bool {
        exists|permit: Option<OwnedSemaphorePermit>| #[trigger]
            semaphore::slot_answered(slots, permit) && granted == (permit is Some)
    }

    /// These bytes were claimed, with this success.
    pub open spec fn bytes_claimed(
        &self,
        bytes: Arc<Semaphore>,
        charge: u32,
        granted: bool,
    ) -> bool {
        exists|permit: Option<OwnedSemaphorePermit>| #[trigger]
            call_ensures(try_reserve, (&bytes, charge), permit) && granted == (permit is Some)
    }

    /// What was observed while a command without a message was admitted is what
    /// the queue and the slots answered, as far as they were asked.
    pub open spec fn plainly_observed(&self, intent: LifecycleIntent, observed: Observed) -> bool {
        &&& self.stop_reported(observed.closed)
        &&& !observed.closed ==> self.slot_claimed(
            self.budgets().slots_of(intent),
            observed.counted,
        )
        &&& !observed.closed && observed.counted ==> self.received(intent, observed.handover)
    }

    /// Outcome of a command without a message, by what was observed.
    pub open spec fn submitted(
        &self,
        intent: LifecycleIntent,
        r: Result<Ticket, EndpointError>,
    ) -> bool {
        exists|observed: Observed|
            {
                &&& self.plainly_observed(intent, observed)
                &&& match #[trigger] plain_refusal(observed) {
                    Some(error) => r == Err::<Ticket, EndpointError>(error),
                    None => {
                        &&& r is Ok
                        &&& r->Ok_0.carries(self.budgets(), intent, None)
                        &&& self.took(r->Ok_0)
                    },
                }
            }
    }

    /// The fields are the budgets.
    pub(crate) proof fn lemma_budgets(&self)
        ensures
            self.budgets().slots == self.slots,
            self.budgets().reply_slots == self.reply_slots,
            self.budgets().reply_bytes == self.reply_bytes,
            self.budgets().bytes == self.bytes,
    {
    }

    /// The subscription gave this state when it was read.
    pub closed spec fn shows(&self, state: EndpointStateSnapshot) -> bool {
        call_ensures(latest::<EndpointStateSnapshot>, (&self.snapshot,), state)
    }

    /// Returns the latest lifecycle snapshot. The runtime decides what it is.
    pub fn snapshot(&self) -> (r: EndpointStateSnapshot)
        ensures
            self.shows(r),
    {
        latest(&self.snapshot)
    }

    /// Returns the connection slot of the latest snapshot.
    pub(crate) fn visible_slot(&self) -> (r: GenerationSlotSnapshot)
        ensures
            self.slot_seen(r),
    {
        let state = self.snapshot();
        assert(self.shows(state));
        state.generation()
    }

    /// Subscription to the lifecycle state.
    pub closed spec fn subscribed(&self) -> watch::Receiver<EndpointStateSnapshot> {
        self.snapshot
    }

    /// Lends the subscription to the lifecycle state.
    pub fn subscription(&self) -> (r: &watch::Receiver<EndpointStateSnapshot>)
        ensures
            *r == self.subscribed(),
    {
        &self.snapshot
    }

    /// Returns the wire bytes of a message with this body, or why it can never be
    /// sent.
    pub fn message_charge(&self, body: &Option<SecsItem>) -> (r: Result<u32, EndpointError>)
        ensures
            r == wire_charge(self.maximum(), *body),
    {
        let text = text_length(body);
        let maximum = self.maximum_message_length;
        if maximum < 10 || text > maximum - 10 {
            return Err(
                EndpointError::Operation(
                    OperationError::OutboundFrameTooLarge {
                        text_length: text,
                        maximum_message_length: maximum,
                    },
                ),
            );
        }
        match text.checked_add(14) {
            Some(length) if length <= u32::MAX as usize => Ok(length as u32),
            _ => Err(EndpointError::Backpressure),
        }
    }

    /// Hands a command with its budget to the runtime, or returns what was asked.
    pub(crate) fn hand_over(
        &self,
        intent: LifecycleIntent,
        permit: OwnedSemaphorePermit,
        bytes: Option<OwnedSemaphorePermit>,
    ) -> (r: (Handover, Result<Ticket, (LifecycleIntent, EndpointError)>))
        ensures
            match r.1 {
                Ok(ticket) => {
                    &&& r.0 == Handover::Taken
                    &&& ticket.intent@ == intent
                    &&& ticket.permit@ == permit
                    &&& ticket.bytes@ == bytes
                    &&& self.took(ticket)
                },
                Err((back, error)) => back == intent && handover_refusal(r.0) == Some(error),
            },
            self.received(intent, r.0),
    {
        let ghost asked = intent;
        let ghost slot = permit;
        let ghost charge = bytes;
        let (completion, answer) = exchange();
        assert(paired(completion, answer));
        let command = LifecycleCommand {
            intent,
            envelope: Envelope { completion, permit, bytes },
        };
        let ghost put = command;
        let taken = try_send(&self.commands, command);
        assert(self.offered(put, taken));
        match taken {
            Ok(()) => (
                Handover::Taken,
                Ok(
                    Ticket {
                        answer,
                        intent: Ghost(asked),
                        permit: Ghost(slot),
                        bytes: Ghost(charge),
                    },
                ),
            ),
            Err(Refused::Full(command)) => (
                Handover::Full,
                Err((command.intent, EndpointError::Backpressure)),
            ),
            Err(Refused::Closed(command)) => (
                Handover::Closed,
                Err((command.intent, EndpointError::RuntimeStopped)),
            ),
        }
    }

    /// Admits a command without a message. A stop or a disconnect has a slot of
    /// its own, so ordinary commands cannot keep it out.
    pub fn submit(&self, intent: LifecycleIntent) -> (r: Result<Ticket, EndpointError>)
        requires
            !(intent is Reply) && !(intent is Data),
        ensures
            self.submitted(intent, r),
    {
        let ghost asked = intent;
        let closed = self.is_stopped();
        let mut permit: Option<OwnedSemaphorePermit> = None;
        if !closed {
            permit = match &intent {
                LifecycleIntent::Stop => try_claim(&self.close_slots),
                LifecycleIntent::Disconnect(_) => try_claim(&self.close_slots),
                _ => try_claim(&self.slots),
            };
            assert(semaphore::slot_answered(self.budgets().slots_of(asked), permit));
        }
        let observed = Observed {
            closed,
            slot: GenerationSlotSnapshot::Vacant,
            counted: permit.is_some(),
            charged: false,
            handover: Handover::Taken,
        };
        match (refuse_plain(observed), permit) {
            (None, Some(permit)) => {
                let (handover, result) = self.hand_over(intent, permit, None);
                let ghost handed = Observed { handover, ..observed };
                assert(self.plainly_observed(asked, handed));
                assert(plain_refusal(handed) == handover_refusal(handover));
                match result {
                    Ok(ticket) => Ok(ticket),
                    Err((_, error)) => Err(error),
                }
            },
            (Some(error), _) => {
                assert(self.plainly_observed(asked, observed));
                Err(error)
            },
            (None, None) => Err(EndpointError::Backpressure),
        }
    }

    /// Admits a control procedure on the visible connection.
    pub fn submit_control(&self, intent: ControlIntent) -> (r: Result<Ticket, EndpointError>)
        ensures
            exists|slot: GenerationSlotSnapshot, closed: bool|
                {
                    &&& self.slot_seen(slot)
                    &&& self.stop_reported(closed)
                    &&& match #[trigger] control_target(slot, closed) {
                        Err(error) => r == Err::<Ticket, EndpointError>(error),
                        Ok(generation) => self.submitted(
                            LifecycleIntent::Control(generation, intent),
                            r,
                        ),
                    }
                },
    {
        let slot = self.visible_slot();
        let closed = self.is_stopped();
        assert(control_target(slot, closed) == control_target(slot, closed));
        match control_route(slot, closed) {
            Err(error) => Err(error),
            Ok(generation) => self.submit(LifecycleIntent::Control(generation, intent)),
        }
    }

    /// Admits a disconnect of the visible connection; without one it will change
    /// nothing.
    pub fn submit_disconnect(&self) -> (r: Result<Ticket, EndpointError>)
        ensures
            exists|slot: GenerationSlotSnapshot| #[trigger]
                self.slot_seen(slot) && self.submitted(
                    LifecycleIntent::Disconnect(visible(slot)),
                    r,
                ),
    {
        let slot = self.visible_slot();
        self.submit(LifecycleIntent::Disconnect(disconnect_route(slot)))
    }
}

/// Primaries, replies and closing cannot use up each other's budget: a close
/// command holds a close slot, a reply holds a reply slot and reply bytes, and any
/// other command holds an ordinary slot and ordinary bytes.
pub proof fn law_budgets_are_apart(
    ticket: Ticket,
    budgets: Budgets,
    intent: LifecycleIntent,
    charge: Option<u32>,
)
    requires
        ticket.carries(budgets, intent, charge),
    ensures
        semaphore::issuer(ticket.permit@) == if intent is Stop || intent is Disconnect {
            budgets.close_slots
        } else if intent is Reply {
            budgets.reply_slots
        } else {
            budgets.slots
        },
        ticket.bytes@ is Some ==> semaphore::issuer(ticket.bytes@->0) == if intent is Reply {
            budgets.reply_bytes
        } else {
            budgets.bytes
        },
{
}

/// Answer owed when the exchange ended; a runtime that went away answers nothing.
pub open spec fn answered_with(answer: Option<Acknowledgement>) -> Acknowledgement {
    match answer {
        Some(answer) => answer,
        None => Err(EndpointError::RuntimeStopped),
    }
}

/// Returns the result of a start.
pub fn settle_start(answer: Option<Acknowledgement>) -> (r: Result<StartReceipt, EndpointError>)
    requires
        answer matches Some(Ok(receipt)) ==> receipt is Started,
    ensures
        match answered_with(answer) {
            Ok(receipt) => r == Ok::<StartReceipt, EndpointError>(receipt->Started_0),
            Err(error) => r == Err::<StartReceipt, EndpointError>(error),
        },
{
    match answer {
        Some(Ok(LifecycleReceipt::Started(receipt))) => Ok(receipt),
        Some(Err(error)) => Err(error),
        _ => Err(EndpointError::RuntimeStopped),
    }
}

/// Returns the result of a command that is only acknowledged.
pub fn settle(answer: Option<Acknowledgement>) -> (r: Result<(), EndpointError>)
    ensures
        match answered_with(answer) {
            Ok(_) => r is Ok,
            Err(error) => r == Err::<(), EndpointError>(error),
        },
{
    match answer {
        Some(Ok(_)) => Ok(()),
        Some(Err(error)) => Err(error),
        None => Err(EndpointError::RuntimeStopped),
    }
}

} // verus!
