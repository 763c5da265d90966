//! What the application can rely on: which commands are taken, where they go, what
//! comes back, and what the published state says.

use crate::api::{ControlIntent, InboundPrimary, PrimaryMessage, ReplyIntent, ReplyToken};
use crate::config::EndpointConfig;
use crate::endpoint::command;
use crate::endpoint::command::{
    Acknowledgement, Envelope, LifecycleCommand, LifecycleIntent, LifecycleReceipt,
};
use crate::endpoint::data;
use crate::endpoint::data::MessageError;
use crate::endpoint::diagnostics;
use crate::endpoint::diagnostics::{DiagnosticCounters, DiagnosticEvent, DiagnosticRecord};
use crate::endpoint::error::EndpointError;
use crate::endpoint::handle;
use crate::endpoint::handle::{Budgets, HsmsHandle, Observed, Ticket};
use crate::endpoint::receiver;
use crate::endpoint::receiver::{Delivery, DeliveryView, QueuedPrimary};
use crate::endpoint::reply;
use crate::endpoint::reply::{ReplyAdmissionReason, ReplyError};
use crate::endpoint::runtime;
use crate::endpoint::runtime::{
    AttemptEnd, Route, RuntimeState, RuntimeStep, SupervisorError, SupervisorFacts, Told,
};
use crate::error::{ConfigError, OperationError, TimeoutKind};
use crate::generation::driver::command::{
    ControlAdmissionErrorKind, DataAdmissionErrorKind, DriverCommandResult,
};
use crate::generation::driver::model::DriverView;
use crate::generation::runtime::{RuntimeView, SessionExit};
use crate::generation::transport::tasks::CleanupResult;
use crate::lifecycle::state::{
    ConnectionCloseReason, ConnectionExitReport, EndpointPhase, EndpointStateSnapshot,
    GenerationSlotSnapshot, RunningIntent, SessionState,
};
use crate::model::ids::ConnectionGeneration;
use crate::model::runtime::{CommunicationsTimeoutKind, GenerationCloseReason};
use crate::secs2::SecsItem;
use crate::sync::channel::Refused;
use crate::sync::semaphore;
use std::sync::Arc;
use tokio::sync::{OwnedSemaphorePermit, Semaphore};
use vstd::prelude::*;

verus! {

/// Length of the encoded text of a message.
pub open spec fn length(body: Option<SecsItem>) -> int {
    match body {
        Some(item) => item.encoded@.len() as int,
        None => 0int,
    }
}

/// A message is charged for its text, its header and its length prefix. It is too large
/// exactly where text and header exceed the Message Length, and what cannot be counted
/// is refused for want of room. Queued primaries are charged in the same way.
pub proof fn law_messages_are_charged_by_their_frame(maximum: usize, body: Option<SecsItem>)
    ensures
        ({
            let charge = handle::wire_charge(maximum, body);
            let countable = length(body) + 14 <= u32::MAX && length(body) + 14 <= usize::MAX;
            &&& charge is Ok <==> length(body) + 10 <= maximum && countable
            &&& charge matches Ok(bytes) ==> bytes == length(body) + 14
            &&& length(body) + 10 > maximum ==> (charge matches Err(
                EndpointError::Operation(
                    OperationError::OutboundFrameTooLarge { text_length, maximum_message_length },
                ),
            ) && maximum_message_length == maximum && (length(body) <= usize::MAX ==> text_length
                == length(body)))
            &&& length(body) + 10 <= maximum && !countable ==> charge == Err::<u32, _>(
                EndpointError::Backpressure,
            )
            &&& receiver::queue_charge_of(body) is Some <==> countable
            &&& receiver::queue_charge_of(body) matches Some(bytes) ==> bytes == length(body) + 14
        }),
{
}

/// Primaries go to an open connection only; answers, control procedures and a close
/// also to one that drains. Without a connection there is none to name.
pub proof fn law_commands_name_the_visible_connection(slot: GenerationSlotSnapshot, closed: bool)
    ensures
        match slot {
            GenerationSlotSnapshot::Open(generation) => {
                &&& data::primary_target(slot) == Ok::<_, EndpointError>(generation)
                &&& handle::control_target(slot, closed) == Ok::<_, EndpointError>(generation)
                &&& handle::visible(slot) == Some(generation)
            },
            GenerationSlotSnapshot::Draining(generation) => {
                &&& data::primary_target(slot) == Err::<ConnectionGeneration, _>(
                    EndpointError::Draining,
                )
                &&& handle::control_target(slot, closed) == Ok::<_, EndpointError>(generation)
                &&& handle::visible(slot) == Some(generation)
            },
            GenerationSlotSnapshot::Vacant => {
                &&& data::primary_target(slot) == Err::<ConnectionGeneration, _>(
                    EndpointError::NotConnected,
                )
                &&& handle::control_target(slot, closed) == Err::<ConnectionGeneration, _>(
                    if closed {
                        EndpointError::RuntimeStopped
                    } else {
                        EndpointError::NotConnected
                    },
                )
                &&& handle::visible(slot) is None
            },
        },
{
}

/// A command that needs nothing but a slot is refused exactly where the runtime has
/// stopped, no slot is free, or the queue does not take it; a full queue means to try
/// again, a closed one that the runtime has stopped.
pub proof fn law_plain_commands_are_refused_for_a_reason(observed: Observed)
    ensures
        ({
            let refusal = handle::plain_refusal(observed);
            let open = !observed.closed;
            &&& observed.closed ==> refusal == Some(EndpointError::RuntimeStopped)
            &&& open && !observed.counted ==> refusal == Some(EndpointError::Backpressure)
            &&& open && observed.counted && observed.handover is Full ==> refusal == Some(
                EndpointError::Backpressure,
            )
            &&& open && observed.counted && observed.handover is Closed ==> refusal == Some(
                EndpointError::RuntimeStopped,
            )
            &&& refusal is None <==> open && observed.counted && observed.handover is Taken
        }),
{
}

/// What the queue answers is what is reported of it.
pub proof fn law_queue_answers_are_told_apart(answer: Result<(), Refused<LifecycleCommand>>)
    ensures
        handle::handover_of(answer) is Taken <==> answer is Ok,
        handle::handover_of(answer) is Full <==> (answer matches Err(refused) && refused is Full),
        handle::handover_of(answer) is Closed <==> (answer matches Err(refused)
            && refused is Closed),
{
}

/// A primary is refused for the first of these that holds: the runtime has stopped, no
/// open connection is visible, no slot is free, the message never fits, its bytes are
/// not granted, or the queue does not take it. It comes back with every refusal, and
/// otherwise goes to the visible connection with one slot and exactly its bytes.
pub proof fn law_primary_submission(
    budgets: Budgets,
    maximum: usize,
    message: PrimaryMessage,
    reply_expected: bool,
    observed: Observed,
    r: Result<Ticket, MessageError>,
)
    requires
        data::primary_admitted(budgets, maximum, message, reply_expected, observed, r),
    ensures
        ({
            let fits = length(message.body) + 10 <= maximum;
            let countable = length(message.body) + 14 <= u32::MAX && length(message.body) + 14
                <= usize::MAX;
            let refused = |error: EndpointError|
                r matches Err(back) && back.error == error && back.message == Some(message);
            &&& observed.closed ==> refused(EndpointError::RuntimeStopped)
            &&& !observed.closed && observed.slot is Draining ==> refused(EndpointError::Draining)
            &&& !observed.closed && observed.slot is Vacant ==> refused(EndpointError::NotConnected)
            &&& !observed.closed && observed.slot is Open && !observed.counted ==> refused(
                EndpointError::Backpressure,
            )
            &&& !observed.closed && observed.slot is Open && observed.counted && fits && (
            !countable || !observed.charged) ==> refused(EndpointError::Backpressure)
            &&& r is Err ==> r->Err_0.message == Some(message)
            &&& r is Ok <==> !observed.closed && observed.slot is Open && observed.counted && fits
                && countable && observed.charged && observed.handover is Taken
            &&& r matches Ok(ticket) ==> {
                &&& ticket.intent@ == (LifecycleIntent::Data {
                    generation: observed.slot->Open_0,
                    message,
                    reply_expected,
                })
                &&& semaphore::issuer(ticket.permit@) == budgets.slots
                &&& semaphore::held(ticket.permit@) == 1
                &&& ticket.bytes@ matches Some(bytes) && semaphore::issuer(bytes) == budgets.bytes
                    && semaphore::held(bytes) == length(message.body) + 14
            }
        }),
{
}

/// An answer is refused for the first of these that holds: the runtime has stopped, no
/// connection is visible, a normal Secondary is impossible, no slot is free, the message
/// never fits, its bytes are not granted, or the queue does not take it. The capability
/// comes back with every refusal; otherwise it goes to the visible connection with one
/// slot of its own kind and exactly its bytes, of which a given-up capability needs none.
pub proof fn law_reply_submission(
    budgets: Budgets,
    maximum: usize,
    intent: ReplyIntent,
    token: ReplyToken,
    body: Option<SecsItem>,
    observed: Observed,
    r: Result<Ticket, ReplyError>,
)
    requires
        reply::reply_admitted(budgets, maximum, intent, token, body, observed, r),
    ensures
        ({
            let fits = length(body) + 10 <= maximum;
            let countable = length(body) + 14 <= u32::MAX && length(body) + 14 <= usize::MAX;
            let seen = observed.slot is Open || observed.slot is Draining;
            let impossible = intent is Secondary && !token.normal_secondary;
            let paid = intent is Abandon || (countable && observed.charged);
            let refused = |error: EndpointError, reason: ReplyAdmissionReason|
                r matches Err(back) && back.error == error && (back.admission matches Some(
                    admission,
                ) && admission.reason == reason && admission.token == token && admission.intent
                    == intent);
            &&& observed.closed ==> refused(
                EndpointError::RuntimeStopped,
                ReplyAdmissionReason::RuntimeStopped,
            )
            &&& !observed.closed && !seen ==> refused(
                EndpointError::NotConnected,
                ReplyAdmissionReason::NotConnected,
            )
            &&& !observed.closed && seen && impossible ==> refused(
                EndpointError::Operation(OperationError::ReplyRequiresAbort),
                ReplyAdmissionReason::ReplyRequiresAbort,
            )
            &&& !observed.closed && seen && !impossible && !observed.counted ==> refused(
                EndpointError::Backpressure,
                ReplyAdmissionReason::Backpressure,
            )
            &&& !observed.closed && seen && !impossible && observed.counted && fits && !paid
                ==> refused(EndpointError::Backpressure, ReplyAdmissionReason::Backpressure)
            &&& r is Err ==> (r->Err_0.admission matches Some(admission) && admission.token == token
                && admission.intent == intent && (intent is Secondary ==> admission.body == body))
            &&& r is Ok <==> !observed.closed && seen && !impossible && observed.counted && fits
                && paid && observed.handover is Taken
            &&& r matches Ok(ticket) ==> {
                &&& ticket.intent@ == (LifecycleIntent::Reply {
                    generation: match observed.slot {
                        GenerationSlotSnapshot::Open(generation) => generation,
                        GenerationSlotSnapshot::Draining(generation) => generation,
                        GenerationSlotSnapshot::Vacant => arbitrary(),
                    },
                    intent,
                    token,
                    body,
                })
                &&& semaphore::issuer(ticket.permit@) == budgets.reply_slots
                &&& semaphore::held(ticket.permit@) == 1
                &&& intent is Abandon ==> ticket.bytes@ is None
                &&& !(intent is Abandon) ==> (ticket.bytes@ matches Some(bytes)
                    && semaphore::issuer(bytes) == budgets.reply_bytes && semaphore::held(bytes)
                    == length(body) + 14)
            }
        }),
{
}

/// The reason of a refused answer names the obstacle; what is not one of the named ones
/// means that the capability is of no use any more.
pub proof fn law_refused_answers_name_the_obstacle(error: EndpointError)
    ensures
        ({
            let reason = reply::admission_reason(error);
            &&& reason == ReplyAdmissionReason::RuntimeStopped <==> error is RuntimeStopped
            &&& reason == ReplyAdmissionReason::NotConnected <==> error is NotConnected
            &&& reason == ReplyAdmissionReason::Faulted <==> error is Faulted
            &&& reason == ReplyAdmissionReason::StaleConnectionGeneration
                <==> error is StaleConnectionGeneration
            &&& reason == ReplyAdmissionReason::Draining <==> error is Draining || error
                == EndpointError::Operation(OperationError::Draining)
            &&& reason == ReplyAdmissionReason::Backpressure <==> error is Backpressure || error
                == EndpointError::Operation(OperationError::Backpressure)
            &&& reason == ReplyAdmissionReason::ReplyRequiresAbort <==> error
                == EndpointError::Operation(OperationError::ReplyRequiresAbort)
            &&& reason == ReplyAdmissionReason::InvalidMessage <==> (error matches
                EndpointError::Operation(operation) && (operation is Encode
                || operation is OutboundFrameTooLarge))
        }),
{
}

/// What the Driver reports is what the application hears: receipts, Secondaries and
/// returned messages unchanged, and every error as an operation's.
pub proof fn law_results_become_answers(result: DriverCommandResult)
    ensures
        match result {
            DriverCommandResult::PrimaryRejected { message, error, .. } => command::receipt_of(
                result,
            ) == Ok::<_, EndpointError>(
                LifecycleReceipt::RejectedPrimary {
                    message,
                    error: EndpointError::Operation(error),
                },
            ),
            DriverCommandResult::ReplyRejected { intent, token, body, error } => {
                command::receipt_of(result) == Ok::<_, EndpointError>(
                    LifecycleReceipt::RejectedReply {
                        intent,
                        token,
                        body,
                        error: EndpointError::Operation(error),
                    },
                )
            },
            DriverCommandResult::Control(Ok(_)) => command::receipt_of(result) == Ok::<
                _,
                EndpointError,
            >(LifecycleReceipt::Closed),
            DriverCommandResult::Send(Ok(receipt)) => command::receipt_of(result) == Ok::<
                _,
                EndpointError,
            >(LifecycleReceipt::Sent(receipt)),
            DriverCommandResult::Request(Ok(secondary)) => command::receipt_of(result) == Ok::<
                _,
                EndpointError,
            >(LifecycleReceipt::Secondary(secondary)),
            DriverCommandResult::Control(Err(error)) => command::receipt_of(result) == Err::<
                LifecycleReceipt,
                _,
            >(EndpointError::Operation(error)),
            DriverCommandResult::Send(Err(error)) => command::receipt_of(result) == Err::<
                LifecycleReceipt,
                _,
            >(EndpointError::Operation(error)),
            DriverCommandResult::Request(Err(error)) => command::receipt_of(result) == Err::<
                LifecycleReceipt,
                _,
            >(EndpointError::Operation(error)),
        },
{
}

/// A command that no runtime takes any more comes back as stopped, with what it carried.
pub proof fn law_stopped_runtime_returns_commands(intent: LifecycleIntent)
    ensures
        match intent {
            LifecycleIntent::Reply { intent: kind, token, body, .. } => {
                command::stopped_receipt_of(intent) == Ok::<_, EndpointError>(
                    LifecycleReceipt::RejectedReply {
                        intent: kind,
                        token,
                        body,
                        error: EndpointError::RuntimeStopped,
                    },
                )
            },
            LifecycleIntent::Data { message, .. } => command::stopped_receipt_of(intent) == Ok::<
                _,
                EndpointError,
            >(LifecycleReceipt::RejectedPrimary { message, error: EndpointError::RuntimeStopped }),
            _ => command::stopped_receipt_of(intent) == Err::<LifecycleReceipt, _>(
                EndpointError::RuntimeStopped,
            ),
        },
{
}

/// An answer reaches the caller as it was given; a rejected message comes back with its
/// error; and a runtime that vanished without an answer has stopped.
pub proof fn law_answers_reach_the_caller(answer: Option<Acknowledgement>)
    ensures
        answer is None ==> {
            &&& handle::answered_with(answer) == Err::<LifecycleReceipt, _>(
                EndpointError::RuntimeStopped,
            )
            &&& data::primary_outcome(answer) matches Err(error) && error.error
                == EndpointError::RuntimeStopped && error.message is None
            &&& reply::reply_outcome(answer) matches Err(error) && error.error
                == EndpointError::RuntimeStopped && error.admission is None
        },
        answer matches Some(given) ==> handle::answered_with(answer) == given,
        answer matches Some(Err(error)) ==> {
            &&& data::primary_outcome(answer) matches Err(back) && back.error == error
                && back.message is None
            &&& reply::reply_outcome(answer) matches Err(back) && back.error == error
                && back.admission is None
        },
        answer matches Some(Ok(receipt)) ==> {
            &&& receipt matches LifecycleReceipt::RejectedPrimary { message, error } ==> (
            data::primary_outcome(answer) matches Err(back) && back.error == error && back.message
                == Some(message))
            &&& !(receipt is RejectedPrimary) ==> data::primary_outcome(answer) == Ok::<
                _,
                MessageError,
            >(receipt)
            &&& receipt matches LifecycleReceipt::RejectedReply { intent, token, body, error } ==> (
            reply::reply_outcome(answer) matches Err(back) && back.error == error && (
            back.admission matches Some(admission) && admission.token == token && admission.intent
                == intent && (intent is Secondary ==> admission.body == body)))
            &&& !(receipt is RejectedReply) ==> reply::reply_outcome(answer) == Ok::<_, ReplyError>(
                receipt,
            )
        },
{
}

/// A command for the current connection of a sound endpoint goes to it, with everything
/// that it carries, and nothing is answered yet. On a faulted endpoint, or for another
/// connection, it is answered at once with its content and that reason.
pub proof fn law_commands_go_to_their_connection(
    view: RuntimeState,
    facts: SupervisorFacts,
    command: LifecycleCommand,
)
    ensures
        ({
            let (after, route) = runtime::routed(view, facts, Some(command));
            let envelope = command.envelope;
            let current = match facts.current {
                Some(current) => Some(current.generation),
                None => None,
            };
            let error = if facts.faulted {
                EndpointError::Faulted
            } else {
                EndpointError::StaleConnectionGeneration
            };
            match command.intent {
                LifecycleIntent::Data { generation, message, reply_expected } => if !facts.faulted
                    && current == Some(generation) {
                    after == view && route == (Route::Data { envelope, message, reply_expected })
                } else {
                    route is Answered && after.told == view.told.push(
                        Told::Answered(
                            envelope,
                            Ok(LifecycleReceipt::RejectedPrimary { message, error }),
                        ),
                    )
                },
                LifecycleIntent::Reply { generation, intent, token, body } => if !facts.faulted
                    && current == Some(generation) {
                    after == view && route == (Route::Reply { envelope, intent, token, body })
                } else {
                    route is Answered && after.told == view.told.push(
                        Told::Answered(
                            envelope,
                            Ok(LifecycleReceipt::RejectedReply { intent, token, body, error }),
                        ),
                    )
                },
                LifecycleIntent::Control(generation, intent) => if !facts.faulted && current
                    == Some(generation) {
                    after == view && route == (Route::Control { envelope, intent })
                } else {
                    route is Answered && after.told == view.told.push(
                        Told::Answered(envelope, Err(error)),
                    )
                },
                _ => true,
            }
        }),
{
}

/// A start waits for closes that are under way, and is refused as draining while there
/// are any. A stop recovers a faulted endpoint, ends at once without a connection, and
/// otherwise waits for the end of the connection. A disconnect is done where none was
/// visible, is refused where that connection was replaced or the endpoint is faulted,
/// and otherwise waits. The last handle's end makes the runtime quit.
pub proof fn law_lifecycle_commands_are_routed(
    view: RuntimeState,
    facts: SupervisorFacts,
    command: LifecycleCommand,
)
    ensures
        ({
            let (after, route) = runtime::routed(view, facts, Some(command));
            let envelope = command.envelope;
            let current = match facts.current {
                Some(current) => Some(current.generation),
                None => None,
            };
            let waits = after.pending == view.pending.push(envelope) && after.told == view.told;
            match command.intent {
                LifecycleIntent::Start => {
                    &&& after == view
                    &&& view.pending.len() == 0 ==> route == Route::Start(envelope)
                    &&& view.pending.len() != 0 ==> route == (Route::Settle {
                        envelope,
                        result: Err(EndpointError::Draining),
                    })
                },
                LifecycleIntent::Stop => {
                    &&& facts.faulted ==> after == view && route == Route::Recover(envelope)
                    &&& !facts.faulted && current is None ==> after == view && route == Route::Stop(
                        envelope,
                    )
                    &&& !facts.faulted && current is Some ==> waits && route is StopPending
                },
                LifecycleIntent::Disconnect(generation) => {
                    &&& generation is None ==> route is Answered && after.told == view.told.push(
                        Told::Answered(envelope, Ok(LifecycleReceipt::Closed)),
                    )
                    &&& generation is Some && generation != current ==> route is Answered
                        && after.told == view.told.push(
                        Told::Answered(envelope, Err(EndpointError::StaleConnectionGeneration)),
                    )
                    &&& generation is Some && generation == current && facts.faulted
                        ==> route is Answered && after.told == view.told.push(
                        Told::Answered(envelope, Err(EndpointError::Faulted)),
                    )
                    &&& generation is Some && generation == current && !facts.faulted ==> waits
                        && route is DisconnectPending
                },
                _ => after.pending == view.pending,
            }
        }),
        ({
            let (after, route) = runtime::routed(view, facts, None);
            route is Quit && after.quitting && after.pending == view.pending && after.told
                == view.told
        }),
{
}

/// A closed connection is finished before anything else on a sound endpoint. A runtime
/// whose last handle is gone leaves when it has no connection, cleanly, or at once with
/// an error where a cleanup was not proved; it takes no more commands meanwhile. A
/// faulted or stopped endpoint waits for a command, one with a connection executes it,
/// and one that runs without a connection connects.
pub proof fn law_runtime_steps(quitting: bool, facts: SupervisorFacts)
    ensures
        ({
            let step = runtime::step_of(quitting, facts);
            let connected = facts.current is Some;
            let over = !facts.faulted && connected && facts.current->0.transport_closed;
            &&& over <==> step == RuntimeStep::FinishGeneration
            &&& quitting && facts.faulted ==> step == RuntimeStep::Return(
                Err(EndpointError::CleanupUnproven),
            )
            &&& quitting && !facts.faulted && !connected ==> step is Return && step->Return_0 is Ok
            &&& !quitting && facts.faulted ==> step == RuntimeStep::AwaitCommand
            &&& !quitting && !facts.faulted && !connected && !facts.running ==> step
                == RuntimeStep::AwaitCommand
            &&& !quitting && !facts.faulted && !connected && facts.running ==> step
                == RuntimeStep::Connect
            &&& !facts.faulted && connected && !over ==> step == (RuntimeStep::Execute {
                commands: !quitting,
            })
        }),
{
}

/// The published state says what is: whether the application wants the endpoint to run;
/// that it is faulted, draining, running or stopped, the first that holds; which
/// connection there is and whether it still admits work; its selection state; and the
/// last exit.
pub proof fn law_published_state_says_what_is(
    facts: SupervisorFacts,
    last_exit: Option<ConnectionExitReport>,
    sequence: u64,
)
    ensures
        ({
            let state = runtime::observed_state(facts, last_exit, sequence);
            let draining = facts.current is Some && facts.current->0.draining;
            &&& state.desired == RunningIntent::Running <==> facts.running
            &&& state.phase == EndpointPhase::Faulted <==> facts.faulted
            &&& state.phase == EndpointPhase::Draining <==> !facts.faulted && draining
            &&& state.phase == EndpointPhase::Running <==> !facts.faulted && !draining
                && facts.running
            &&& state.phase == EndpointPhase::StoppedClean <==> !facts.faulted && !draining
                && !facts.running
            &&& facts.current is None ==> state.generation is Vacant && state.session is None
            &&& facts.current matches Some(current) ==> {
                &&& current.draining ==> state.generation == GenerationSlotSnapshot::Draining(
                    current.generation,
                )
                &&& !current.draining ==> state.generation == GenerationSlotSnapshot::Open(
                    current.generation,
                )
                &&& state.session == current.session
            }
            &&& state.sequence == sequence
            &&& state.last_exit == last_exit
        }),
{
}

/// A state is published exactly when something that it says changed, under the next
/// revision; revisions never repeat, and when they are exhausted that is an error.
pub proof fn law_states_are_published_when_they_change(
    published: EndpointStateSnapshot,
    facts: SupervisorFacts,
    last_exit: Option<ConnectionExitReport>,
)
    ensures
        ({
            let next = runtime::next_published(published, facts, last_exit);
            let same = published == runtime::observed_state(facts, last_exit, published.sequence);
            &&& same <==> (next matches Ok(nothing) && nothing is None)
            &&& !same && published.sequence == u64::MAX ==> next == Err::<
                Option<EndpointStateSnapshot>,
                _,
            >(EndpointError::IdentifierExhausted)
            &&& !same && published.sequence < u64::MAX ==> (next matches Ok(Some(state))
                && state.sequence == published.sequence + 1 && state == runtime::observed_state(
                facts,
                last_exit,
                state.sequence,
            ))
        }),
{
}

/// A state that was published is the one that is remembered, and the application hears
/// of it once; nothing else changes.
pub proof fn law_publication_is_told_once(view: RuntimeState, next: Option<EndpointStateSnapshot>)
    ensures
        next is None ==> runtime::shown(view, next) == view,
        next matches Some(state) ==> {
            let after = runtime::shown(view, next);
            &&& after.published == state
            &&& after.told == view.told.push(Told::Published(state))
            &&& after.pending == view.pending && after.last_exit == view.last_exit
                && after.quitting == view.quitting && after.active == view.active
        },
{
}

/// A runtime that is dropped with a connection in custody leaves a faulted, stopped and
/// closed state behind, under the next revision; without one it leaves none.
pub proof fn law_dropped_runtime_leaves_a_fault(view: RuntimeState, facts: SupervisorFacts)
    ensures
        facts.current is None <==> runtime::last_state(view, facts) is None,
        runtime::last_state(view, facts) matches Some(state) ==> {
            &&& state.desired == RunningIntent::Stopped
            &&& state.phase == EndpointPhase::Faulted
            &&& state.session == Some(SessionState::Closed)
            &&& state.generation == view.published.generation
            &&& state.last_exit == view.last_exit
            &&& view.published.sequence < u64::MAX ==> state.sequence == view.published.sequence + 1
            &&& view.published.sequence == u64::MAX ==> state.sequence == u64::MAX
        },
{
}

/// An exit is reported with its generation, its public reason, and as clean exactly
/// where the release of its resources was proved; the report and the observation agree.
/// A close command succeeds exactly then, and so does a recovery.
pub proof fn law_exits_are_reported_faithfully(exit: SessionExit, view: RuntimeState)
    ensures
        ({
            let report = runtime::exit_report(exit);
            let clean = exit.cleanup == CleanupResult::Clean;
            &&& report.generation == exit.generation
            &&& report.clean <==> clean
            &&& runtime::closed_observation(exit) == (DiagnosticEvent::ConnectionClosed {
                generation: report.generation,
                reason: report.reason,
                clean: report.clean,
            })
            &&& runtime::ended(view, exit) == (RuntimeState { last_exit: Some(report), ..view })
            &&& clean ==> runtime::recovery_answer(Ok(Some(exit))) == Ok::<_, EndpointError>(
                LifecycleReceipt::Closed,
            )
            &&& !clean ==> runtime::recovery_answer(Ok(Some(exit))) == Err::<LifecycleReceipt, _>(
                EndpointError::CleanupUnproven,
            )
            &&& runtime::recovered(view, Ok(Some(exit))).last_exit == Some(report)
        }),
        runtime::closed_answer(true) == Ok::<_, EndpointError>(LifecycleReceipt::Closed),
        runtime::closed_answer(false) == Err::<LifecycleReceipt, _>(EndpointError::CleanupUnproven),
        runtime::recovery_answer(Ok(None)) == Ok::<_, EndpointError>(LifecycleReceipt::Closed),
        runtime::recovered(view, Ok(None)) == view,
        forall|error: EndpointError|
            #![trigger runtime::recovery_answer(Err(error))]
            runtime::recovery_answer(Err(error)) == Err::<LifecycleReceipt, _>(error)
                && runtime::recovered(view, Err(error)) == view,
{
}

/// Every waiting close command is answered, in the order in which they came, and none
/// waits afterwards.
pub proof fn law_waiting_commands_are_answered_in_order(view: RuntimeState, clean: bool, i: int)
    requires
        0 <= i < view.pending.len(),
    ensures
        ({
            let after = runtime::released(view, clean);
            &&& after.pending.len() == 0
            &&& after.told.len() == view.told.len() + view.pending.len()
            &&& after.told[view.told.len() + i] == Told::Answered(
                view.pending[i],
                if clean {
                    Ok(LifecycleReceipt::Closed)
                } else {
                    Err(EndpointError::CleanupUnproven)
                },
            )
            &&& after.published == view.published && after.last_exit == view.last_exit
        }),
{
}

/// What the runtime sees of a generation: its identity, its selection state, whether its
/// transport is closed, and that it drains once it closes, gracefully or not.
pub proof fn law_facts_of_a_generation<C>(view: RuntimeView<C>, session: Option<SessionState>)
    ensures
        ({
            let facts = runtime::facts_of(view, session);
            &&& facts.generation == view.driver.generation
            &&& facts.draining <==> view.shutdown is Some || view.driver.closing is Some
            &&& facts.transport_closed <==> view.driver.transport_closed
            &&& facts.session == session
        }),
{
}

/// A primary or a control procedure that the Driver does not admit is refused for the
/// Driver's own reason.
pub proof fn law_driver_refusals_are_passed_on(
    data: DataAdmissionErrorKind,
    control: ControlAdmissionErrorKind,
)
    ensures
        runtime::data_refusal_error(data) == match data {
            DataAdmissionErrorKind::Full => EndpointError::Backpressure,
            DataAdmissionErrorKind::Draining => EndpointError::Draining,
            DataAdmissionErrorKind::Closing => EndpointError::Operation(
                OperationError::ConnectionLost,
            ),
            DataAdmissionErrorKind::Invalid(error) => EndpointError::Operation(error),
        },
        runtime::control_refusal_error(control) == OperationError::Backpressure
            <==> control is Full,
        runtime::control_refusal_error(control) == OperationError::Draining <==> control is Draining,
        runtime::control_refusal_error(control) == OperationError::ConnectionLost
            <==> control is Closing || control is UnsupportedIntent,
{
}

/// Every close reason has a public one of its own; a communications timeout names its
/// timer.
pub proof fn law_public_reasons_are_told_apart(
    a: GenerationCloseReason,
    b: GenerationCloseReason,
)
    ensures
        diagnostics::public_reason(a) == diagnostics::public_reason(b) <==> a == b,
        diagnostics::public_reason(a) == ConnectionCloseReason::LocalStop <==> a is LocalStop,
        diagnostics::public_reason(a) == ConnectionCloseReason::LocalDisconnect
            <==> a is LocalDisconnect,
        diagnostics::public_reason(a) == ConnectionCloseReason::LocalSeparate
            <==> a is LocalSeparate,
        diagnostics::public_reason(a) == ConnectionCloseReason::SeparateReceived
            <==> a is SeparateReceived,
        diagnostics::public_reason(a) == ConnectionCloseReason::TransportLost
            <==> a is TransportLost,
        diagnostics::public_reason(a) == ConnectionCloseReason::ProtocolViolation
            <==> a is ProtocolViolation,
        diagnostics::public_reason(a) == ConnectionCloseReason::ControlBackpressure
            <==> a is ControlBackpressure,
        diagnostics::public_reason(a) == ConnectionCloseReason::ApplicationBackpressure
            <==> a is ApplicationBackpressure,
        diagnostics::public_reason(a) == ConnectionCloseReason::SystemBytesExhausted
            <==> a is SystemBytesExhausted,
        diagnostics::public_reason(a) == ConnectionCloseReason::RuntimeInvariant
            <==> a is RuntimeInvariant,
        diagnostics::public_reason(a) == ConnectionCloseReason::CommunicationsTimeout(
            TimeoutKind::T6,
        ) <==> a == GenerationCloseReason::CommunicationsTimeout(CommunicationsTimeoutKind::T6),
        diagnostics::public_reason(a) == ConnectionCloseReason::CommunicationsTimeout(
            TimeoutKind::T7,
        ) <==> a == GenerationCloseReason::CommunicationsTimeout(CommunicationsTimeoutKind::T7),
        diagnostics::public_reason(a) == ConnectionCloseReason::CommunicationsTimeout(
            TimeoutKind::T8,
        ) <==> a == GenerationCloseReason::CommunicationsTimeout(CommunicationsTimeoutKind::T8),
{
}

/// Every attempt to publish an observation uses up one sequence, starting with zero, and
/// is counted as a loss exactly where no record was taken; a record that was taken
/// carries its observation under that sequence, behind the earlier ones.
pub proof fn law_observations_are_numbered(
    records: Seq<DiagnosticRecord>,
    counters: DiagnosticCounters,
    event: DiagnosticEvent,
    taken: bool,
)
    ensures
        diagnostics::fresh_counters().next == Some(0u64),
        diagnostics::fresh_counters().dropped == 0,
        ({
            let after = diagnostics::attempted(counters, taken);
            let all = diagnostics::recorded(records, counters, event, taken);
            &&& counters.next matches Some(sequence) ==> (sequence < u64::MAX ==> after.next
                == Some((sequence + 1) as u64)) && (sequence == u64::MAX ==> after.next is None)
            &&& counters.next is None ==> after.next is None
            &&& taken && counters.next is Some ==> after.dropped == counters.dropped && all.len()
                == records.len() + 1 && all.drop_last() == records && all.last().event == event
                && Some(all.last().sequence) == counters.next
            &&& !(taken && counters.next is Some) ==> all == records && after.dropped == if
                counters.dropped < u64::MAX {
                counters.dropped + 1
            } else {
                u64::MAX as int
            }
        }),
{
    let all = diagnostics::recorded(records, counters, event, taken);
    if taken && counters.next is Some {
        assert(all.drop_last() =~= records);
    }
}

/// Slots that can be used are the free ones, and none of a stream that nobody reads.
pub proof fn law_unread_streams_have_no_room(closed: bool, slots: usize)
    ensures
        receiver::usable_of(true, slots) == 0,
        receiver::usable_of(false, slots) == slots,
        closed ==> receiver::usable_of(closed, slots) == 0,
{
}

/// The budgets of a handle are those of the configuration, each from its own entry, and
/// there is one slot for a close.
pub proof fn law_budgets_take_the_configured_sizes(budgets: Budgets, config: EndpointConfig)
    requires
        budgets.sized(config),
    ensures
        semaphore::limit(budgets.slots) == config.limits.command_capacity,
        semaphore::limit(budgets.close_slots) == 1,
        semaphore::limit(budgets.reply_slots) == config.limits.reply_capacity,
        semaphore::limit(budgets.reply_bytes) == config.limits.reply_bytes,
        semaphore::limit(budgets.bytes) == config.limits.command_bytes,
{
}

/// An endpoint can be built exactly from a configuration whose queues all have room and
/// whose queues and budgets can be represented. The first queue without room is named.
pub proof fn law_configurations_are_refused_by_name(config: EndpointConfig)
    ensures
        ({
            let limits = config.limits;
            let roomy = limits.command_capacity > 0 && limits.reply_capacity > 0
                && limits.application_event_capacity > 0 && limits.protocol_error_capacity > 0
                && limits.diagnostic_capacity > 0;
            let most = crate::sync::semaphore::MAX_PERMITS;
            &&& config.valid() <==> roomy && limits.command_capacity + limits.reply_capacity + 1
                <= most && limits.application_event_capacity <= most
                && limits.protocol_error_capacity <= most && limits.diagnostic_capacity <= most
                && limits.command_bytes <= most && limits.reply_bytes <= most
                && limits.primary_queue_bytes <= most
            &&& limits.command_capacity == 0 ==> config.zero_capacity() == Some("command_capacity"@)
            &&& limits.command_capacity > 0 && limits.reply_capacity == 0 ==> config.zero_capacity()
                == Some("reply_capacity"@)
            &&& config.zero_capacity() is None <==> roomy
        }),
{
}

/// A new endpoint is stopped and clean, without a connection, a session or an exit.
pub proof fn law_endpoint_starts_stopped()
    ensures
        ({
            let state = crate::lifecycle::state::initial_snapshot();
            &&& state.desired == RunningIntent::Stopped
            &&& state.phase == EndpointPhase::StoppedClean
            &&& state.generation is Vacant
            &&& state.sequence == 0
            &&& state.session is None
            &&& state.last_exit is None
        }),
{
}

/// Answers are told in the order in which they were given, each to its own command.
pub proof fn law_answers_are_told_in_order(
    view: RuntimeState,
    answers: Seq<(Envelope, Acknowledgement)>,
    envelope: Envelope,
    result: Acknowledgement,
    i: int,
)
    requires
        0 <= i < answers.len(),
    ensures
        ({
            let after = view.answered_all(answers);
            &&& after.told.len() == view.told.len() + answers.len()
            &&& after.told[view.told.len() + i] == Told::Answered(answers[i].0, answers[i].1)
            &&& after == (RuntimeState { told: after.told, ..view })
        }),
        view.answered(envelope, result) == (RuntimeState {
            told: view.told.push(Told::Answered(envelope, result)),
            ..view
        }),
        view.waiting(envelope) == (RuntimeState { pending: view.pending.push(envelope), ..view }),
{
}

/// Commands that are still queued when a runtime ends are refused in order, each with its
/// own content.
pub proof fn law_queued_commands_are_refused_in_order(queued: Seq<LifecycleCommand>, i: int)
    requires
        0 <= i < queued.len(),
    ensures
        runtime::stopped_answers(queued).len() == queued.len(),
        runtime::stopped_answers(queued)[i].0 == queued[i].envelope,
        runtime::stopped_answers(queued)[i].1 == command::stopped_receipt_of(queued[i].intent),
{
}

/// Deliveries leave the Driver oldest first, primaries and errors each in their order.
pub proof fn law_oldest_deliveries_leave_first<C>(
    view: DriverView<C>,
    primaries: int,
    errors: int,
    i: int,
)
    requires
        0 <= primaries <= view.inbound.len(),
        0 <= errors <= view.protocol_errors.len(),
    ensures
        ({
            let after = runtime::deliveries_taken(view, primaries, errors);
            &&& after.inbound.len() == view.inbound.len() - primaries
            &&& 0 <= i < after.inbound.len() ==> after.inbound[i] == view.inbound[i + primaries]
            &&& after.protocol_errors.len() == view.protocol_errors.len() - errors
            &&& 0 <= i < after.protocol_errors.len() ==> after.protocol_errors[i]
                == view.protocol_errors[i + errors]
            &&& after == (DriverView {
                inbound: after.inbound,
                protocol_errors: after.protocol_errors,
                ..view
            })
        }),
{
}

/// A primary that the queue took stands behind the others with exactly its bytes out of
/// the budget; one that it did not take leaves everything as it was. The bytes of a
/// primary are its text and fourteen more.
pub proof fn law_queued_primary_holds_its_bytes(
    budget: Arc<Semaphore>,
    before: DeliveryView,
    primary: InboundPrimary,
    taken: bool,
    after: DeliveryView,
)
    requires
        receiver::primary_delivered(budget, before, primary, taken, after),
    ensures
        !taken ==> after == before,
        taken ==> {
            let entry = after.primaries.last();
            &&& after.primaries.len() == before.primaries.len() + 1
            &&& after.primaries.drop_last() == before.primaries
            &&& after.errors == before.errors
            &&& entry.primary == primary
            &&& semaphore::issuer(entry.bytes) == budget
            &&& semaphore::held(entry.bytes) == length(primary.message.body) + 14
        },
{
}

/// A primary is taken only where its bytes were granted and its queue took it; one whose
/// bytes cannot be counted is never taken.
pub proof fn law_primary_needs_budget_and_queue(
    delivery: Delivery,
    primary: InboundPrimary,
    taken: bool,
)
    requires
        delivery.primary_settled(primary, taken),
    ensures
        length(primary.message.body) + 14 > u32::MAX ==> !taken,
        taken ==> exists|
            charge: u32,
            bytes: OwnedSemaphorePermit,
            answer: Result<(), Refused<QueuedPrimary>>,
        |
            {
                &&& charge == length(primary.message.body) + 14
                &&& #[trigger] call_ensures(
                    semaphore::try_reserve,
                    (&delivery.budget(), charge),
                    Some(bytes),
                )
                &&& #[trigger] delivery.primary_offered(QueuedPrimary { primary, bytes }, answer)
                &&& answer is Ok
            },
{
    if taken {
        let charge = receiver::queue_charge_of(primary.message.body)->0;
        let granted = choose|granted: Option<OwnedSemaphorePermit>|
            {
                &&& #[trigger] call_ensures(
                    semaphore::try_reserve,
                    (&delivery.budget(), charge),
                    granted,
                )
                &&& match granted {
                    None => !taken,
                    Some(bytes) => exists|answer: Result<(), Refused<QueuedPrimary>>|
                        {
                            &&& #[trigger] delivery.primary_offered(
                                QueuedPrimary { primary, bytes },
                                answer,
                            )
                            &&& taken <==> answer is Ok
                        },
                }
            };
        let bytes = granted->0;
        let answer = choose|answer: Result<(), Refused<QueuedPrimary>>|
            {
                &&& #[trigger] delivery.primary_offered(QueuedPrimary { primary, bytes }, answer)
                &&& taken <==> answer is Ok
            };
        assert(call_ensures(
            semaphore::try_reserve,
            (&delivery.budget(), charge),
            Some(bytes),
        ));
        assert(delivery.primary_offered(QueuedPrimary { primary, bytes }, answer));
    }
}

/// A submitted command carries its own intent, one slot of the budget for its kind and no
/// bytes; a refused one names the reason that was seen.
pub proof fn law_submitted_commands_carry_their_intent(
    handle: HsmsHandle,
    intent: LifecycleIntent,
    r: Result<Ticket, EndpointError>,
)
    requires
        handle.submitted(intent, r),
    ensures
        r matches Ok(ticket) ==> {
            &&& ticket.intent@ == intent
            &&& ticket.bytes@ is None
            &&& semaphore::held(ticket.permit@) == 1
            &&& semaphore::issuer(ticket.permit@) == match intent {
                LifecycleIntent::Stop => handle.budgets().close_slots,
                LifecycleIntent::Disconnect(_) => handle.budgets().close_slots,
                LifecycleIntent::Reply { .. } => handle.budgets().reply_slots,
                _ => handle.budgets().slots,
            }
            &&& handle.took(ticket)
        },
        r matches Err(error) ==> error is RuntimeStopped || error is Backpressure,
{
}

/// A refused configuration names the first queue without room, in a fixed order, or says
/// that a size cannot be represented.
pub proof fn law_refused_configuration_names_the_queue(config: EndpointConfig, error: ConfigError)
    requires
        config.refused(error),
    ensures
        ({
            let limits = config.limits;
            let named = |field: Seq<char>|
                error matches ConfigError::ZeroCapacity { field: name } && name@ == field;
            &&& !config.valid()
            &&& limits.command_capacity == 0 ==> named("command_capacity"@)
            &&& limits.command_capacity > 0 && limits.reply_capacity == 0 ==> named(
                "reply_capacity"@,
            )
            &&& limits.command_capacity > 0 && limits.reply_capacity > 0
                && limits.application_event_capacity == 0 ==> named("application_event_capacity"@)
            &&& limits.command_capacity > 0 && limits.reply_capacity > 0
                && limits.application_event_capacity > 0 && limits.protocol_error_capacity == 0
                ==> named("protocol_error_capacity"@)
            &&& limits.command_capacity > 0 && limits.reply_capacity > 0
                && limits.application_event_capacity > 0 && limits.protocol_error_capacity > 0
                && limits.diagnostic_capacity == 0 ==> named("diagnostic_capacity"@)
            &&& limits.command_capacity > 0 && limits.reply_capacity > 0
                && limits.application_event_capacity > 0 && limits.protocol_error_capacity > 0
                && limits.diagnostic_capacity > 0 ==> error is RuntimePolicy
        }),
{
}

/// A connection attempt that succeeded never faults the endpoint. An active endpoint
/// tries again after the network refused or took too long; a passive one faults, and so
/// does either after anything else.
pub proof fn law_only_an_active_endpoint_tries_again(active: bool)
    ensures
        !runtime::faults(active, AttemptEnd::Connected),
        runtime::faults(active, AttemptEnd::Transport) <==> !active,
        runtime::faults(active, AttemptEnd::Timeout) <==> !active,
        runtime::faults(active, AttemptEnd::Other),
{
}

/// A failure of the supervisor keeps its operating-system error; a generation in custody
/// means draining, exhausted identities are named, and everything else is a fault.
pub proof fn law_supervisor_failures_are_mapped(error: SupervisorError)
    ensures
        ({
            let mapped = runtime::mapped(error);
            &&& mapped matches EndpointError::Io { kind, message } ==> error == (
            SupervisorError::Bind { kind, message }) || error == (SupervisorError::Transport {
                kind,
                message,
            })
            &&& mapped is Io <==> error is Bind || error is Transport
            &&& mapped is Draining <==> error is Occupied
            &&& mapped is IdentifierExhausted <==> error is GenerationExhausted
            &&& mapped is Faulted <==> error is Timeout || error is Faulted
        }),
{
}

/// A primary is looked at in order: first whether the endpoint runs and a connection is
/// open, then one slot of the budget for commands, then the bytes of its frame, and only
/// then is it handed to the connection that was seen.
pub proof fn law_primary_claims_in_order(
    handle: HsmsHandle,
    message: PrimaryMessage,
    reply_expected: bool,
    observed: Observed,
)
    requires
        handle.primary_observed(message, reply_expected, observed),
        !observed.closed,
        observed.slot is Open,
    ensures
        exists|permit: Option<OwnedSemaphorePermit>| #[trigger]
            semaphore::slot_answered(handle.budgets().slots, permit) && observed.counted == (
            permit is Some),
        observed.counted && length(message.body) + 10 <= handle.maximum() && length(message.body)
            + 14 <= u32::MAX && length(message.body) + 14 <= usize::MAX ==> {
            &&& exists|charge: u32, permit: Option<OwnedSemaphorePermit>|
                {
                    &&& charge == length(message.body) + 14
                    &&& #[trigger] call_ensures(
                        semaphore::try_reserve,
                        (&handle.budgets().bytes, charge),
                        permit,
                    )
                    &&& observed.charged == (permit is Some)
                }
            &&& observed.charged ==> exists|
                command: LifecycleCommand,
                answer: Result<(), Refused<LifecycleCommand>>,
            |
                {
                    &&& #[trigger] handle.offered(command, answer)
                    &&& command.intent == (LifecycleIntent::Data {
                        generation: observed.slot->Open_0,
                        message,
                        reply_expected,
                    })
                    &&& answer is Ok <==> observed.handover is Taken
                }
        },
{
    if observed.counted && length(message.body) + 10 <= handle.maximum() && length(message.body)
        + 14 <= u32::MAX && length(message.body) + 14 <= usize::MAX {
        let charge = handle::wire_charge(handle.maximum(), message.body)->Ok_0;
        assert(handle.bytes_claimed(handle.budgets().bytes, charge, observed.charged));
        let permit = choose|permit: Option<OwnedSemaphorePermit>| #[trigger]
            call_ensures(semaphore::try_reserve, (&handle.budgets().bytes, charge), permit)
                && observed.charged == (permit is Some);
        assert(call_ensures(
            semaphore::try_reserve,
            (&handle.budgets().bytes, charge),
            permit,
        ));
    }
}

/// An answer is looked at in order: first whether the endpoint runs, a connection is
/// visible and the answer is possible, then one slot of the budget for answers, then the
/// bytes of its frame, and only then is it handed to the connection that was seen.
/// Abandoning needs no bytes.
pub proof fn law_reply_claims_in_order(
    handle: HsmsHandle,
    intent: ReplyIntent,
    token: ReplyToken,
    body: Option<SecsItem>,
    observed: Observed,
    generation: ConnectionGeneration,
)
    requires
        handle.reply_observed(intent, token, body, observed),
        !observed.closed,
        observed.slot == GenerationSlotSnapshot::Open(generation) || observed.slot
            == GenerationSlotSnapshot::Draining(generation),
        intent is Secondary ==> token.normal_secondary,
    ensures
        exists|permit: Option<OwnedSemaphorePermit>| #[trigger]
            semaphore::slot_answered(handle.budgets().reply_slots, permit) && observed.counted == (
            permit is Some),
        observed.counted && length(body) + 10 <= handle.maximum() ==> {
            let countable = length(body) + 14 <= u32::MAX && length(body) + 14 <= usize::MAX;
            &&& countable && !(intent is Abandon) ==> exists|
                charge: u32,
                permit: Option<OwnedSemaphorePermit>,
            |
                {
                    &&& charge == length(body) + 14
                    &&& #[trigger] call_ensures(
                        semaphore::try_reserve,
                        (&handle.budgets().reply_bytes, charge),
                        permit,
                    )
                    &&& observed.charged == (permit is Some)
                }
            &&& intent is Abandon || (countable && observed.charged) ==> exists|
                command: LifecycleCommand,
                answer: Result<(), Refused<LifecycleCommand>>,
            |
                {
                    &&& #[trigger] handle.offered(command, answer)
                    &&& command.intent == (LifecycleIntent::Reply {
                        generation,
                        intent,
                        token,
                        body,
                    })
                    &&& answer is Ok <==> observed.handover is Taken
                }
        },
{
    let countable = length(body) + 14 <= u32::MAX && length(body) + 14 <= usize::MAX;
    if observed.counted && length(body) + 10 <= handle.maximum() && countable && !(
    intent is Abandon) {
        let charge = handle::wire_charge(handle.maximum(), body)->Ok_0;
        assert(handle.bytes_claimed(handle.budgets().reply_bytes, charge, observed.charged));
        let permit = choose|permit: Option<OwnedSemaphorePermit>| #[trigger]
            call_ensures(semaphore::try_reserve, (&handle.budgets().reply_bytes, charge), permit)
                && observed.charged == (permit is Some);
        assert(call_ensures(
            semaphore::try_reserve,
            (&handle.budgets().reply_bytes, charge),
            permit,
        ));
    }
}

/// A message that is too long is refused with its length and the limit; one that was
/// not taken by the queue is refused with what the queue said.
pub proof fn law_late_refusals_name_the_obstacle(
    budgets: Budgets,
    maximum: usize,
    message: PrimaryMessage,
    reply_expected: bool,
    observed: Observed,
    r: Result<Ticket, MessageError>,
)
    requires
        data::primary_admitted(budgets, maximum, message, reply_expected, observed, r),
        !observed.closed,
        observed.slot is Open,
        observed.counted,
    ensures
        length(message.body) + 10 > maximum ==> (r matches Err(back) && (back.error matches
            EndpointError::Operation(
            OperationError::OutboundFrameTooLarge { text_length, maximum_message_length },
        ) && maximum_message_length == maximum && (length(message.body) <= usize::MAX
            ==> text_length == length(message.body)))),
        length(message.body) + 10 <= maximum && length(message.body) + 14 <= u32::MAX && length(
            message.body,
        ) + 14 <= usize::MAX && observed.charged ==> {
            &&& observed.handover is Full ==> (r matches Err(back) && back.error
                == EndpointError::Backpressure)
            &&& observed.handover is Closed ==> (r matches Err(back) && back.error
                == EndpointError::RuntimeStopped)
        },
{
}

/// Control commands go to the connection that is visible, and nowhere without one.
pub proof fn law_control_goes_to_the_visible_connection(
    handle: HsmsHandle,
    intent: ControlIntent,
    r: Result<Ticket, EndpointError>,
)
    requires
        call_ensures(HsmsHandle::submit_control, (&handle, intent), r),
    ensures
        r matches Ok(ticket) ==> exists|slot: GenerationSlotSnapshot|
            {
                &&& #[trigger] handle.slot_seen(slot)
                &&& !(slot is Vacant)
                &&& ticket.intent@ == LifecycleIntent::Control(
                    match slot {
                        GenerationSlotSnapshot::Open(generation) => generation,
                        GenerationSlotSnapshot::Draining(generation) => generation,
                        GenerationSlotSnapshot::Vacant => arbitrary(),
                    },
                    intent,
                )
            },
{
    if let Ok(ticket) = r {
        let (slot, closed) = choose|slot: GenerationSlotSnapshot, closed: bool|
            {
                &&& handle.slot_seen(slot)
                &&& handle.stop_reported(closed)
                &&& match #[trigger] handle::control_target(slot, closed) {
                    Err(error) => r == Err::<Ticket, EndpointError>(error),
                    Ok(generation) => handle.submitted(
                        LifecycleIntent::Control(generation, intent),
                        r,
                    ),
                }
            };
        assert(handle.slot_seen(slot));
    }
}

} // verus!
