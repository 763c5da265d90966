//! Mathematical model of the Driver: its state, the history of its port calls,
//! and the relation of every operation.

use crate::api;
use crate::api::{
    ControlIntent, InboundPrimary, InboundProtocolError, InboundToken, PrimaryMessage, ReplyIntent,
    ReplyToken, SecondaryMessage, SendReceipt,
};
use crate::error::OperationError;
use crate::generation::driver::command::{
    AcceptedCommand, AcceptedCommandKind, CompletionKind, CoreCommandKind, DriverCommandResult,
    PendingCompletion,
};
use crate::generation::driver::ports::{CoreAction, CoreCommandResult, ProtocolNotice};
use crate::generation::transport::writer::{
    DataPermitError, ReservedDataAdmissionError, WriteAdmissionError,
};
use crate::lifecycle::state::SessionState;
use crate::model::ids::{CommandId, ConnectionGeneration, WireSequence, WriteId};
use crate::model::runtime::{CloseBarrier, GenerationCloseReason, MonoTime, WriteOutcome};
use crate::protocol::message::{DataMessage, ProtocolMessage};
use crate::protocol::violation::InboundViolation;
use crate::secs2::SecsItem;
use vstd::multiset::Multiset;
use vstd::prelude::*;

verus! {

/// First close reason and the write that still holds the transport open.
#[derive(Clone, Copy, Debug, PartialEq, Eq, Structural)]
pub struct ClosingState {
    /// First stable close reason observed by the Driver.
    pub reason: GenerationCloseReason,
    /// Accepted write whose terminal outcome must precede transport close.
    pub barrier_write_id: Option<WriteId>,
}

/// Failure encountered while applying one core action batch.
#[derive(Clone, Copy, Debug, PartialEq, Eq, Structural)]
pub enum ActionApplicationFailure {
    /// The application did not take earlier primaries.
    InboundFull,
    /// A control frame was not admitted.
    ControlWriteAdmission {
        /// Frame that was not admitted.
        write_id: WriteId,
        /// Why it was not admitted.
        error: WriteAdmissionError,
    },
    /// A reserved Data frame was not admitted.
    ReservedDataAdmission {
        /// Frame that was not admitted.
        write_id: WriteId,
        /// Why it was not admitted.
        error: ReservedDataAdmissionError,
    },
    /// A Data frame came without its reservation.
    MissingOrMultipleDataFrame {
        /// Frame without a reservation.
        write_id: WriteId,
    },
    /// An unused reservation could not be given back.
    DataPermitRelease(DataPermitError),
    /// A completion or a write identity was repeated or unknown.
    DuplicateOrUnknownCompletion,
    /// A result does not fit its completion endpoint.
    InvalidCompletionResult,
}

/// Call made to the core.
pub enum CoreInput {
    /// `on_connected`.
    Connected {
        /// Time of the call.
        now: MonoTime,
    },
    /// `on_command`.
    Command {
        /// Identity of the command.
        command_id: CommandId,
        /// The command.
        kind: CoreCommandKind,
        /// Time of the call.
        now: MonoTime,
    },
    /// `on_reply`.
    Reply {
        /// Identity of the command.
        command_id: CommandId,
        /// Core capability.
        capability: u64,
        /// What to do with the capability.
        intent: ReplyIntent,
        /// Body of a Secondary.
        body: Option<SecsItem>,
        /// Time of the call.
        now: MonoTime,
    },
    /// `on_message`.
    Message {
        /// The message.
        message: ProtocolMessage,
        /// Time of the call.
        now: MonoTime,
    },
    /// `on_inbound_violation`.
    Violation {
        /// The violation.
        violation: InboundViolation,
        /// Time of the call.
        now: MonoTime,
    },
    /// `on_write_outcome_at`.
    WriteOutcome {
        /// Frame that settled.
        write_id: WriteId,
        /// Its terminal fact.
        outcome: WriteOutcome,
        /// When it settled.
        occurred_at: MonoTime,
        /// Time of the call.
        now: MonoTime,
    },
    /// `on_shutdown`.
    Shutdown {
        /// Why the session ends.
        reason: GenerationCloseReason,
        /// Frame that was never admitted.
        failed_write_id: Option<WriteId>,
        /// Time of the call.
        now: MonoTime,
    },
    /// `finish_shutdown_drain`.
    FinishDrain {
        /// Why the session ends.
        reason: GenerationCloseReason,
        /// Time of the call.
        now: MonoTime,
    },
    /// `finalize_writer`.
    FinalizeWriter {
        /// Time of the call.
        now: MonoTime,
    },
    /// `advance_time`.
    AdvanceTime {
        /// Time of the call.
        now: MonoTime,
    },
}

/// One call made to a port, with its answer.
pub enum PortEvent<Completion> {
    /// The core answered a call with an action batch.
    CoreCalled {
        /// The call.
        input: CoreInput,
        /// Its answer.
        actions: Seq<CoreAction>,
    },
    /// The core was asked for its next deadline.
    DeadlineAsked(Option<MonoTime>),
    /// The core was asked whether it blocks answers.
    RepliesAsked(bool),
    /// The core was asked which of these commands it owns.
    OwnershipAsked {
        /// The commands.
        commands: Seq<CommandId>,
        /// Its answers.
        owned: Seq<bool>,
    },
    /// The core was asked what a graceful drain waits for.
    DrainAsked {
        /// Commands that the core owns.
        open_commands: usize,
        /// Reply capabilities that the application holds.
        reply_capabilities: usize,
    },
    /// The core was asked for the diagnostic of its last message.
    NoticeTaken(Option<ProtocolNotice>),
    /// The Writer was asked for a Data reservation.
    Reserved {
        /// Body that was announced.
        body: Option<SecsItem>,
        /// Why there is no reservation.
        failure: Option<OperationError>,
    },
    /// A control frame was handed to the Writer.
    ControlHanded {
        /// Identity of the frame.
        write_id: WriteId,
        /// The message.
        message: ProtocolMessage,
        /// Answer of the Writer.
        answer: Result<WireSequence, WriteAdmissionError>,
    },
    /// A reserved Data frame was handed to the Writer.
    DataHanded {
        /// Identity of the frame.
        write_id: WriteId,
        /// The message.
        message: ProtocolMessage,
        /// Answer of the Writer.
        answer: Result<WireSequence, ReservedDataAdmissionError>,
    },
    /// An unused reservation was given back.
    Released {
        /// Answer of the Writer.
        answer: Result<(), DataPermitError>,
    },
    /// A session state was published.
    Observed(SessionState),
    /// A diagnostic was published.
    Noticed(ProtocolNotice),
    /// A completion endpoint received its result.
    Completed {
        /// The consumed endpoint.
        completion: Completion,
        /// Its result.
        result: DriverCommandResult,
    },
    /// The transport was closed.
    TransportClosed,
}

/// Abstract Driver state.
pub struct DriverView<Completion> {
    /// Generation that the Driver executes.
    pub generation: ConnectionGeneration,
    /// Identity under which the Driver mints reply tokens.
    pub owner: u64,
    /// Primaries that the application has not taken.
    pub inbound: Seq<InboundPrimary>,
    /// Maximum number of such primaries.
    pub inbound_capacity: usize,
    /// Protocol errors that the application has not taken.
    pub protocol_errors: Seq<InboundProtocolError>,
    /// Maximum number of such errors.
    pub protocol_error_capacity: usize,
    /// Accepted commands, oldest first.
    pub queue: Seq<AcceptedCommand<Completion>>,
    /// Maximum number of accepted commands.
    pub command_capacity: usize,
    /// Byte budget of the accepted commands.
    pub command_byte_capacity: usize,
    /// Bytes charged by the accepted commands.
    pub command_bytes: usize,
    /// Graceful shutdown accepts no new commands.
    pub shutdown_draining: bool,
    /// Largest Message Length.
    pub maximum_message_length: usize,
    /// Completion endpoints of commands that the core owns, by ascending identity.
    pub pending: Seq<PendingCompletion<Completion>>,
    /// Admitted frames whose outcome is outstanding, with their wire order.
    pub admitted: Map<u64, WireSequence>,
    /// Identity of the next command, or none after exhaustion.
    pub next_command_id: Option<u64>,
    /// First close reason and barrier.
    pub closing: Option<ClosingState>,
    /// The transport was closed.
    pub transport_closed: bool,
    /// Every port call so far.
    pub history: Seq<PortEvent<Completion>>,
}

/// A graceful drain has nothing left to wait for when the core owns this many
/// commands and reply capabilities.
pub open spec fn drain_complete<C>(
    view: DriverView<C>,
    open_commands: usize,
    reply_capabilities: usize,
) -> bool {
    &&& view.queue.len() == 0
    &&& open_commands == 0
    &&& reply_capabilities == 0
    &&& view.admitted == Map::<u64, WireSequence>::empty()
}

/// Bytes charged by a command sequence.
pub open spec fn charges<C>(queue: Seq<AcceptedCommand<C>>) -> int
    decreases queue.len(),
{
    if queue.len() == 0 {
        0
    } else {
        queue[0].byte_charge + charges(queue.drop_first())
    }
}

/// Position of a pending command, or the length when it is unknown.
pub open spec fn position<C>(pending: Seq<PendingCompletion<C>>, id: u64) -> int
    decreases pending.len(),
{
    if pending.len() == 0 || pending[0].command_id.value == id {
        0
    } else {
        1 + position(pending.drop_first(), id)
    }
}

/// Typed result for an endpoint, or none when the core's result does not fit.
pub open spec fn materialized(
    kind: CompletionKind,
    result: CoreCommandResult,
    generation: ConnectionGeneration,
    admitted: Map<u64, WireSequence>,
) -> Option<DriverCommandResult> {
    match (kind, result) {
        (CompletionKind::Control, CoreCommandResult::Control(outcome)) => Some(
            DriverCommandResult::Control(outcome),
        ),
        (CompletionKind::Send, CoreCommandResult::Send(Ok(write_id))) => if admitted.contains_key(
            write_id.value,
        ) {
            Some(DriverCommandResult::Send(Ok(SendReceipt { generation })))
        } else {
            None
        },
        (CompletionKind::Send, CoreCommandResult::Send(Err(error))) => Some(
            DriverCommandResult::Send(Err(error)),
        ),
        (CompletionKind::Request, CoreCommandResult::Request(Ok(matched))) => Some(
            DriverCommandResult::Request(
                Ok(
                    SecondaryMessage {
                        stream: matched.header.stream,
                        function: matched.header.function,
                        body: matched.body,
                        context: api::data_context(generation, matched.header),
                    },
                ),
            ),
        ),
        (CompletionKind::Request, CoreCommandResult::Request(Err(error))) => Some(
            DriverCommandResult::Request(Err(error)),
        ),
        (CompletionKind::Request, CoreCommandResult::RequestTimedOut(header)) => Some(
            DriverCommandResult::Request(
                Err(
                    OperationError::RequestTimeout {
                        context: api::data_context(generation, header),
                    },
                ),
            ),
        ),
        _ => None,
    }
}

/// Delivery of a peer primary with the token for its capability.
pub open spec fn delivery(
    generation: ConnectionGeneration,
    owner: u64,
    message: DataMessage,
    capability: Option<u64>,
) -> InboundPrimary {
    InboundPrimary {
        message: PrimaryMessage {
            stream: message.header.stream,
            function: message.header.function,
            body: message.body,
        },
        token: match capability {
            Some(capability) => InboundToken::Reply(
                ReplyToken {
                    owner,
                    capability,
                    generation,
                    normal_secondary: message.header.function.value < u8::MAX,
                },
            ),
            None => InboundToken::Data,
        },
        context: api::data_context(generation, message.header),
    }
}

/// Closing state after a close request: the first reason stays, and an immediate
/// request removes the barrier.
pub open spec fn closing_after(
    closing: Option<ClosingState>,
    reason: GenerationCloseReason,
    barrier: CloseBarrier,
) -> Option<ClosingState> {
    match closing {
        Some(state) => Some(
            ClosingState {
                reason: state.reason,
                barrier_write_id: if barrier == CloseBarrier::Immediate {
                    None
                } else {
                    state.barrier_write_id
                },
            },
        ),
        None => Some(
            ClosingState {
                reason,
                barrier_write_id: match barrier {
                    CloseBarrier::Immediate => None,
                    CloseBarrier::AfterWrite(write_id) => Some(write_id),
                },
            },
        ),
    }
}

/// Closing state after a write settled.
pub open spec fn barrier_after(
    closing: Option<ClosingState>,
    write_id: WriteId,
) -> Option<ClosingState> {
    match closing {
        Some(state) => Some(
            ClosingState {
                reason: state.reason,
                barrier_write_id: if state.barrier_write_id == Some(write_id) {
                    None
                } else {
                    state.barrier_write_id
                },
            },
        ),
        None => None,
    }
}

/// The generation closes and no write holds the transport open.
pub open spec fn ready_to_close(closing: Option<ClosingState>) -> bool {
    closing is Some && closing->0.barrier_write_id is None
}

/// Close reason and frame reported to the core for a batch failure.
pub open spec fn failure_report(failure: ActionApplicationFailure) -> (
    GenerationCloseReason,
    Option<WriteId>,
) {
    match failure {
        ActionApplicationFailure::InboundFull => (
            GenerationCloseReason::ApplicationBackpressure,
            None,
        ),
        ActionApplicationFailure::ControlWriteAdmission { write_id, error } => (
            match error {
                WriteAdmissionError::Full => GenerationCloseReason::ControlBackpressure,
                WriteAdmissionError::Closed => GenerationCloseReason::TransportLost,
                WriteAdmissionError::Invariant => GenerationCloseReason::RuntimeInvariant,
            },
            Some(write_id),
        ),
        ActionApplicationFailure::ReservedDataAdmission { write_id, error } => (
            match error {
                ReservedDataAdmissionError::Closed => GenerationCloseReason::TransportLost,
                ReservedDataAdmissionError::Invariant => GenerationCloseReason::RuntimeInvariant,
            },
            Some(write_id),
        ),
        ActionApplicationFailure::MissingOrMultipleDataFrame { write_id } => (
            GenerationCloseReason::RuntimeInvariant,
            Some(write_id),
        ),
        _ => (GenerationCloseReason::RuntimeInvariant, None),
    }
}

/// Answers of the Writer to the frame of one action.
pub struct Answer {
    /// Answer to a control frame.
    pub control: Result<WireSequence, WriteAdmissionError>,
    /// Answer to a Data frame.
    pub data: Result<WireSequence, ReservedDataAdmissionError>,
}

/// Progress of one action batch.
pub struct Progress<C> {
    /// State after the applied actions.
    pub view: DriverView<C>,
    /// The Data reservation is still unused.
    pub permit: bool,
    /// Failure that stopped the batch.
    pub failure: Option<ActionApplicationFailure>,
}

impl<C> DriverView<C> {
    /// State after one more port call.
    pub open spec fn logged(self, event: PortEvent<C>) -> DriverView<C> {
        DriverView { history: self.history.push(event), ..self }
    }

    /// State after the core answered a call.
    pub open spec fn asked(self, input: CoreInput, actions: Seq<CoreAction>) -> DriverView<C> {
        self.logged(PortEvent::CoreCalled { input, actions })
    }

    /// State after a close request.
    pub open spec fn closing_with(
        self,
        reason: GenerationCloseReason,
        barrier: CloseBarrier,
    ) -> DriverView<C> {
        DriverView { closing: closing_after(self.closing, reason, barrier), ..self }
    }

    /// State after a frame was admitted.
    pub open spec fn admitting(self, write_id: WriteId, sequence: WireSequence) -> DriverView<C> {
        DriverView { admitted: self.admitted.insert(write_id.value, sequence), ..self }
    }
}

/// Admission of a frame that the Writer took: a repeated identity is a failure.
pub open spec fn taken<C>(
    view: DriverView<C>,
    permit: bool,
    write_id: WriteId,
    sequence: WireSequence,
) -> Progress<C> {
    if view.admitted.contains_key(write_id.value) {
        Progress {
            view,
            permit,
            failure: Some(ActionApplicationFailure::DuplicateOrUnknownCompletion),
        }
    } else {
        Progress { view: view.admitting(write_id, sequence), permit, failure: None }
    }
}

/// Effect of one core action.
pub open spec fn act<C>(
    view: DriverView<C>,
    permit: bool,
    action: CoreAction,
    answer: Answer,
) -> Progress<C> {
    match action {
        CoreAction::DeliverPrimary { message, capability } => if view.inbound.len()
            >= view.inbound_capacity {
            Progress { view, permit, failure: Some(ActionApplicationFailure::InboundFull) }
        } else {
            Progress {
                view: DriverView {
                    inbound: view.inbound.push(
                        delivery(view.generation, view.owner, message, capability),
                    ),
                    ..view
                },
                permit,
                failure: None,
            }
        },
        CoreAction::SendFrame { write_id, message } => match message {
            ProtocolMessage::Control(_) => {
                let handed = view.logged(
                    PortEvent::ControlHanded { write_id, message, answer: answer.control },
                );
                match answer.control {
                    Ok(sequence) => taken(handed, permit, write_id, sequence),
                    Err(error) => Progress {
                        view: handed,
                        permit,
                        failure: Some(
                            ActionApplicationFailure::ControlWriteAdmission { write_id, error },
                        ),
                    },
                }
            },
            ProtocolMessage::Data(_) => if !permit {
                Progress {
                    view,
                    permit,
                    failure: Some(
                        ActionApplicationFailure::MissingOrMultipleDataFrame { write_id },
                    ),
                }
            } else {
                let handed = view.logged(
                    PortEvent::DataHanded { write_id, message, answer: answer.data },
                );
                match answer.data {
                    Ok(sequence) => taken(handed, false, write_id, sequence),
                    Err(error) => Progress {
                        view: handed,
                        permit: false,
                        failure: Some(
                            ActionApplicationFailure::ReservedDataAdmission { write_id, error },
                        ),
                    },
                }
            },
        },
        CoreAction::SessionStateChanged(state) => Progress {
            view: view.logged(PortEvent::Observed(state)),
            permit,
            failure: None,
        },
        CoreAction::CompleteCommand { command_id, result } => {
            let i = position(view.pending, command_id.value);
            if i >= view.pending.len() {
                Progress {
                    view,
                    permit,
                    failure: Some(ActionApplicationFailure::DuplicateOrUnknownCompletion),
                }
            } else {
                match materialized(
                    view.pending[i].kind,
                    result,
                    view.generation,
                    view.admitted,
                ) {
                    None => Progress {
                        view,
                        permit,
                        failure: Some(ActionApplicationFailure::InvalidCompletionResult),
                    },
                    Some(delivered) => Progress {
                        view: DriverView { pending: view.pending.remove(i), ..view }.logged(
                            PortEvent::Completed {
                                completion: view.pending[i].completion,
                                result: delivered,
                            },
                        ),
                        permit,
                        failure: None,
                    },
                }
            }
        },
        CoreAction::CloseGeneration { reason, barrier } => Progress {
            view: view.closing_with(reason, barrier),
            permit,
            failure: None,
        },
    }
}

/// Effect of the first actions of a batch, as many as there are answers; it stops
/// at the first failure.
pub open spec fn run<C>(
    view: DriverView<C>,
    permit: bool,
    actions: Seq<CoreAction>,
    answers: Seq<Answer>,
) -> Progress<C>
    decreases answers.len(),
{
    if answers.len() == 0 {
        Progress { view, permit, failure: None }
    } else {
        let before = run(view, permit, actions, answers.drop_last());
        if before.failure is Some {
            before
        } else {
            act(before.view, before.permit, actions[answers.len() - 1], answers.last())
        }
    }
}

/// An unused reservation is given back after the batch; failing that is a
/// failure of its own.
pub open spec fn settled_permit<C>(
    progress: Progress<C>,
    release: Result<(), DataPermitError>,
) -> (DriverView<C>, Option<ActionApplicationFailure>) {
    if progress.permit {
        (
            progress.view.logged(PortEvent::Released { answer: release }),
            match release {
                Ok(_) => progress.failure,
                Err(error) => Some(ActionApplicationFailure::DataPermitRelease(error)),
            },
        )
    } else {
        (progress.view, progress.failure)
    }
}

/// `after` and `failure` are what the batch does when the Writer gives `answers`
/// and answers a release with `release`.
pub open spec fn batch_by<C>(
    view: DriverView<C>,
    permit: bool,
    actions: Seq<CoreAction>,
    answers: Seq<Answer>,
    release: Result<(), DataPermitError>,
    after: DriverView<C>,
    failure: Option<ActionApplicationFailure>,
) -> bool {
    let progress = run(view, permit, actions, answers);
    &&& answers.len() <= actions.len()
    &&& progress.failure is None ==> answers.len() == actions.len()
    &&& (after, failure) == settled_permit(progress, release)
}

/// `after` and `failure` are what the batch `actions` does to `view` for some
/// answers of the Writer.
pub open spec fn batch<C>(
    view: DriverView<C>,
    permit: bool,
    actions: Seq<CoreAction>,
    after: DriverView<C>,
    failure: Option<ActionApplicationFailure>,
) -> bool {
    exists|answers: Seq<Answer>, release: Result<(), DataPermitError>|
        batch_by(view, permit, actions, answers, release, after, failure)
}

/// The Driver failed: the core ends the session, its batch is applied, and the
/// generation closes at once.
pub open spec fn failed_over<C>(
    view: DriverView<C>,
    reason: GenerationCloseReason,
    failed_write_id: Option<WriteId>,
    now: MonoTime,
    after: DriverView<C>,
) -> bool {
    exists|
        actions: Seq<CoreAction>,
        middle: DriverView<C>,
        failure: Option<ActionApplicationFailure>,
    |
        {
            &&& #[trigger] batch(
                view.asked(CoreInput::Shutdown { reason, failed_write_id, now }, actions),
                false,
                actions,
                middle,
                failure,
            )
            &&& after == if failure is Some {
                middle.closing_with(
                    GenerationCloseReason::RuntimeInvariant,
                    CloseBarrier::Immediate,
                ).closing_with(reason, CloseBarrier::Immediate)
            } else {
                middle.closing_with(reason, CloseBarrier::Immediate)
            }
        }
}

/// A batch is applied; its failure ends the session, under `first_reason` when
/// there is one.
pub open spec fn absorbed<C>(
    view: DriverView<C>,
    permit: bool,
    actions: Seq<CoreAction>,
    first_reason: Option<GenerationCloseReason>,
    now: MonoTime,
    after: DriverView<C>,
) -> bool {
    exists|middle: DriverView<C>, failure: Option<ActionApplicationFailure>|
        {
            &&& #[trigger] batch(view, permit, actions, middle, failure)
            &&& match failure {
                None => after == middle,
                Some(failure) => failed_over(
                    middle,
                    match first_reason {
                        Some(reason) => reason,
                        None => failure_report(failure).0,
                    },
                    failure_report(failure).1,
                    now,
                    after,
                ),
            }
        }
}

/// Endpoints of pending commands that the core no longer owns, with their lost
/// results, in ascending order.
pub open spec fn orphan_events<C>(
    pending: Seq<PendingCompletion<C>>,
    owned: Seq<bool>,
) -> Seq<PortEvent<C>>
    decreases pending.len(),
{
    if pending.len() == 0 {
        Seq::empty()
    } else {
        let before = orphan_events(pending.drop_last(), owned);
        if owned[pending.len() - 1] {
            before
        } else {
            before.push(
                PortEvent::Completed {
                    completion: pending.last().completion,
                    result: pending.last().kind.lost(),
                },
            )
        }
    }
}

/// Pending commands that the core still owns.
pub open spec fn still_owned<C>(
    pending: Seq<PendingCompletion<C>>,
    owned: Seq<bool>,
) -> Seq<PendingCompletion<C>>
    decreases pending.len(),
{
    if pending.len() == 0 {
        Seq::empty()
    } else {
        let before = still_owned(pending.drop_last(), owned);
        if owned[pending.len() - 1] {
            before.push(pending.last())
        } else {
            before
        }
    }
}

/// Accepted commands given back as lost, oldest first.
pub open spec fn queue_events<C>(queue: Seq<AcceptedCommand<C>>) -> Seq<PortEvent<C>> {
    queue.map_values(
        |command: AcceptedCommand<C>|
            PortEvent::Completed {
                completion: command.completion,
                result: command.kind.spec_rejected(OperationError::ConnectionLost),
            },
    )
}

/// State after every orphaned and every accepted command was completed as lost.
pub open spec fn drained<C>(view: DriverView<C>, owned: Seq<bool>) -> DriverView<C> {
    DriverView {
        pending: still_owned(view.pending, owned),
        queue: Seq::empty(),
        command_bytes: 0,
        history: view.history + orphan_events(view.pending, owned) + queue_events(view.queue),
        ..view
    }
}

/// Identities of pending commands.
pub open spec fn identities<C>(pending: Seq<PendingCompletion<C>>) -> Seq<CommandId> {
    pending.map_values(|entry: PendingCompletion<C>| entry.command_id)
}

/// State after the core was asked which pending commands it owns.
pub open spec fn surveyed<C>(view: DriverView<C>, owned: Seq<bool>) -> DriverView<C> {
    view.logged(
        PortEvent::OwnershipAsked { commands: identities(view.pending), owned },
    )
}

/// `after` is a drain of `view` by what the core answered about the pending
/// commands.
pub open spec fn drains<C>(view: DriverView<C>, after: DriverView<C>) -> bool {
    exists|owned: Seq<bool>|
        owned.len() == view.pending.len() && after == #[trigger] drained(
            surveyed(view, owned),
            owned,
        )
}

/// The single transport close happens once no barrier remains.
pub open spec fn finished<C>(view: DriverView<C>, after: DriverView<C>) -> bool {
    if ready_to_close(view.closing) && !view.transport_closed {
        drains(
            DriverView { transport_closed: true, ..view.logged(PortEvent::TransportClosed) },
            after,
        )
    } else {
        after == view
    }
}

/// A batch is applied and the transport closes when that is due.
pub open spec fn applied<C>(
    view: DriverView<C>,
    permit: bool,
    actions: Seq<CoreAction>,
    now: MonoTime,
    after: DriverView<C>,
) -> bool {
    exists|middle: DriverView<C>| #[trigger]
        absorbed(view, permit, actions, None, now, middle) && finished(middle, after)
}

/// The core answers a call and its batch is applied.
pub open spec fn answered<C>(
    view: DriverView<C>,
    input: CoreInput,
    permit: bool,
    now: MonoTime,
    after: DriverView<C>,
) -> bool {
    exists|actions: Seq<CoreAction>| #[trigger]
        applied(view.asked(input, actions), permit, actions, now, after)
}

/// An open Driver lets time advance when its core reported a deadline that is
/// due; otherwise nothing happens.
pub open spec fn deadline_processed<C>(
    view: DriverView<C>,
    deadline: Option<MonoTime>,
    now: MonoTime,
    after: DriverView<C>,
) -> bool {
    if view.closing is None && deadline is Some && deadline->0.nanos <= now.nanos {
        answered(view, CoreInput::AdvanceTime { now }, false, now, after)
    } else {
        after == view
    }
}

/// An open core is asked for its deadline, and the one that it reports is processed.
pub open spec fn deadlines_processed<C>(
    view: DriverView<C>,
    now: MonoTime,
    after: DriverView<C>,
) -> bool {
    if view.closing is Some {
        after == view
    } else {
        exists|deadline: Option<MonoTime>| #[trigger]
            deadline_processed(
                view.logged(PortEvent::DeadlineAsked(deadline)),
                deadline,
                now,
                after,
            )
    }
}

/// The core is asked whether it takes no answers, before a command that is one.
pub open spec fn blocking_asked<C>(
    view: DriverView<C>,
    command: AcceptedCommand<C>,
    replies_blocked: bool,
) -> DriverView<C> {
    if command.kind.answers_peer() {
        view.logged(PortEvent::RepliesAsked(replies_blocked))
    } else {
        view
    }
}

/// A terminal shutdown.
pub open spec fn shut_down<C>(
    view: DriverView<C>,
    reason: GenerationCloseReason,
    failed_write_id: Option<WriteId>,
    now: MonoTime,
    after: DriverView<C>,
) -> bool {
    exists|actions: Seq<CoreAction>, middle: DriverView<C>|
        {
            &&& #[trigger] absorbed(
                view.asked(CoreInput::Shutdown { reason, failed_write_id, now }, actions),
                false,
                actions,
                None,
                now,
                middle,
            )
            &&& finished(middle.closing_with(reason, CloseBarrier::Immediate), after)
        }
}

/// Core command of a control intent.
pub open spec fn control_command(intent: ControlIntent) -> CoreCommandKind {
    match intent {
        ControlIntent::Select => CoreCommandKind::Select,
        ControlIntent::Deselect => CoreCommandKind::Deselect,
        ControlIntent::Linktest => CoreCommandKind::Linktest,
        ControlIntent::Separate => CoreCommandKind::Separate,
    }
}

/// Core call that executes an accepted command.
pub open spec fn command_input(
    command_id: CommandId,
    kind: AcceptedCommandKind,
    now: MonoTime,
) -> CoreInput {
    match kind {
        AcceptedCommandKind::Reply { intent, token, body } => CoreInput::Reply {
            command_id,
            capability: token.capability,
            intent,
            body,
            now,
        },
        AcceptedCommandKind::Control(intent) => CoreInput::Command {
            command_id,
            kind: control_command(intent),
            now,
        },
        AcceptedCommandKind::Send(message) => CoreInput::Command {
            command_id,
            kind: CoreCommandKind::Send(message),
            now,
        },
        AcceptedCommandKind::Request(message) => CoreInput::Command {
            command_id,
            kind: CoreCommandKind::Request(message),
            now,
        },
    }
}

/// State after the oldest accepted command left the FIFO.
pub open spec fn dequeued<C>(view: DriverView<C>) -> DriverView<C> {
    DriverView {
        queue: view.queue.drop_first(),
        command_bytes: (view.command_bytes - view.queue[0].byte_charge) as usize,
        ..view
    }
}

/// State after a dequeued command was given back.
pub open spec fn given_back<C>(
    view: DriverView<C>,
    command: AcceptedCommand<C>,
    error: OperationError,
) -> DriverView<C> {
    view.logged(
        PortEvent::Completed {
            completion: command.completion,
            result: command.kind.spec_rejected(error),
        },
    )
}

/// State after an unused reservation was given back.
pub open spec fn released<C>(
    view: DriverView<C>,
    permit: bool,
    answer: Result<(), DataPermitError>,
) -> DriverView<C> {
    if permit {
        view.logged(PortEvent::Released { answer })
    } else {
        view
    }
}

/// State of a Driver that no longer accepts commands.
pub open spec fn draining<C>(view: DriverView<C>) -> DriverView<C> {
    DriverView { shutdown_draining: true, ..view }
}

/// State after a dequeued command took the identity `value`.
pub open spec fn entering<C>(
    view: DriverView<C>,
    command: AcceptedCommand<C>,
    value: u64,
) -> DriverView<C> {
    DriverView {
        next_command_id: if value == u64::MAX {
            None
        } else {
            Some((value + 1) as u64)
        },
        pending: view.pending.push(
            PendingCompletion {
                command_id: CommandId { value },
                kind: command.kind.spec_completion_kind(),
                completion: command.completion,
            },
        ),
        ..view
    }
}

/// A dequeued command with its reservation enters the core under the next
/// command identity; when identities are exhausted the generation fails closed.
pub open spec fn entered<C>(
    view: DriverView<C>,
    command: AcceptedCommand<C>,
    permit: bool,
    now: MonoTime,
    after: DriverView<C>,
) -> bool {
    match view.next_command_id {
        Some(value) => answered(
            entering(view, command, value),
            command_input(CommandId { value }, command.kind, now),
            permit,
            now,
            after,
        ),
        None => exists|release: Result<(), DataPermitError>| #[trigger]
            shut_down(
                given_back(
                    released(view, permit, release),
                    command,
                    OperationError::ConnectionLost,
                ),
                GenerationCloseReason::RuntimeInvariant,
                None,
                now,
                after,
            ),
    }
}

/// A dequeued command is executed: an answer that the core blocks is given back
/// as draining, a Data command first reserves its frame.
pub open spec fn executed<C>(
    view: DriverView<C>,
    command: AcceptedCommand<C>,
    replies_blocked: bool,
    now: MonoTime,
    after: DriverView<C>,
) -> bool {
    if command.kind.answers_peer() && replies_blocked {
        after == given_back(view, command, OperationError::Draining)
    } else if !command.kind.writes_data() {
        entered(view, command, false, now, after)
    } else {
        exists|failure: Option<OperationError>| #[trigger]
            reserved(view, command, failure, now, after)
    }
}

/// A Data command whose frame the Writer reserved enters the core; one that the
/// Writer refused is given back, and a stopped Writer ends the session.
pub open spec fn reserved<C>(
    view: DriverView<C>,
    command: AcceptedCommand<C>,
    failure: Option<OperationError>,
    now: MonoTime,
    after: DriverView<C>,
) -> bool {
    let asked = view.logged(PortEvent::Reserved { body: command.kind.frame_body(), failure });
    match failure {
        None => entered(asked, command, true, now, after),
        Some(error) => {
            let refused = given_back(asked, command, error);
            if error == OperationError::ConnectionLost {
                exists|middle: DriverView<C>| #[trigger]
                    failed_over(
                        refused,
                        GenerationCloseReason::TransportLost,
                        None,
                        now,
                        middle,
                    ) && finished(middle, after)
            } else {
                after == refused
            }
        },
    }
}

/// Completion endpoints in the Driver's custody and those already served.
pub open spec fn custody<C>(view: DriverView<C>) -> Multiset<C> {
    view.queue.map_values(|command: AcceptedCommand<C>| command.completion).to_multiset().add(
        view.pending.map_values(
            |pending: PendingCompletion<C>| pending.completion,
        ).to_multiset(),
    ).add(served(view.history).to_multiset())
}

/// Endpoints that received a result, in order.
pub open spec fn served<C>(history: Seq<PortEvent<C>>) -> Seq<C>
    decreases history.len(),
{
    if history.len() == 0 {
        Seq::empty()
    } else {
        let before = served(history.drop_last());
        match history.last() {
            PortEvent::Completed { completion, .. } => before.push(completion),
            _ => before,
        }
    }
}

/// Number of transport closes.
pub open spec fn closes<C>(history: Seq<PortEvent<C>>) -> nat
    decreases history.len(),
{
    if history.len() == 0 {
        0
    } else {
        let before = closes(history.drop_last());
        match history.last() {
            PortEvent::TransportClosed => before + 1,
            _ => before,
        }
    }
}

/// Invariant of every Driver state.
pub open spec fn well_formed<C>(view: DriverView<C>) -> bool {
    &&& view.command_bytes == charges(view.queue)
    &&& forall|i: int, j: int|
        0 <= i < j < view.pending.len() ==> (#[trigger] view.pending[i]).command_id.value < (
        #[trigger] view.pending[j]).command_id.value
    &&& view.next_command_id is Some ==> forall|i: int|
        0 <= i < view.pending.len() ==> (#[trigger] view.pending[i]).command_id.value
            < view.next_command_id->0
    &&& view.transport_closed ==> ready_to_close(view.closing) && view.queue.len() == 0
    &&& closes(view.history) == if view.transport_closed {
        1nat
    } else {
        0nat
    }
}

/// No transport close is outstanding.
pub open spec fn calm<C>(view: DriverView<C>) -> bool {
    ready_to_close(view.closing) ==> view.transport_closed
}

/// What every operation keeps: endpoints are neither lost nor served twice, the
/// first close reason stays, a closed transport stays closed, command identities
/// never come back, and history only grows.
pub open spec fn advances<C>(before: DriverView<C>, after: DriverView<C>) -> bool {
    &&& custody(after) == custody(before)
    &&& before.closing is Some ==> after.closing is Some && after.closing->0.reason
        == before.closing->0.reason
    &&& ready_to_close(before.closing) ==> ready_to_close(after.closing)
    &&& before.transport_closed ==> after.transport_closed
    &&& before.next_command_id is None ==> after.next_command_id is None
    &&& before.next_command_id is Some && after.next_command_id is Some
        ==> before.next_command_id->0 <= after.next_command_id->0
    &&& before.history.is_prefix_of(after.history)
    &&& after.generation == before.generation
    &&& after.owner == before.owner
    &&& after.command_capacity == before.command_capacity
    &&& after.command_byte_capacity == before.command_byte_capacity
    &&& after.maximum_message_length == before.maximum_message_length
    &&& after.inbound_capacity == before.inbound_capacity
    &&& after.protocol_error_capacity == before.protocol_error_capacity
}

/// Byte charge of a command with this body: message text, header and length
/// prefix, within the Message Length and the remaining byte budget.
pub open spec fn charge_of<C>(view: DriverView<C>, body: Option<SecsItem>) -> Result<
    usize,
    OperationError,
> {
    let text = crate::secs2::spec_text_length(body);
    if text + 10 > view.maximum_message_length {
        Err(
            OperationError::OutboundFrameTooLarge {
                text_length: text as usize,
                maximum_message_length: view.maximum_message_length,
            },
        )
    } else if text + 14 + view.command_bytes > view.command_byte_capacity {
        Err(OperationError::Backpressure)
    } else {
        Ok((text + 14) as usize)
    }
}

/// State after a command was accepted.
pub open spec fn accepted<C>(
    view: DriverView<C>,
    kind: AcceptedCommandKind,
    completion: C,
    byte_charge: usize,
) -> DriverView<C> {
    DriverView {
        queue: view.queue.push(AcceptedCommand { byte_charge, kind, completion }),
        command_bytes: (view.command_bytes + byte_charge) as usize,
        ..view
    }
}

/// State after a write settled: it is no longer outstanding and no longer holds
/// the transport open.
pub open spec fn write_settled<C>(view: DriverView<C>, write_id: WriteId) -> DriverView<C> {
    DriverView {
        admitted: view.admitted.remove(write_id.value),
        closing: barrier_after(view.closing, write_id),
        ..view
    }
}

/// State after the Writer stopped: no write is outstanding and none holds the
/// transport open.
pub open spec fn writer_gone<C>(view: DriverView<C>) -> DriverView<C> {
    DriverView {
        admitted: Map::empty(),
        closing: match view.closing {
            Some(state) => Some(ClosingState { barrier_write_id: None, ..state }),
            None => None,
        },
        ..view
    }
}

} // verus!
