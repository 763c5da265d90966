//! What the Driver's operations do, said in terms of messages, results and calls.

use crate::api::{ControlIntent, InboundToken, PrimaryMessage, ReplyIntent, ReplyToken};
use crate::config::EndpointConfig;
use crate::error::OperationError;
use crate::generation::driver::command::{
    AcceptedCommand, AcceptedCommandKind, CompletionKind, ControlAdmissionErrorKind,
    CoreCommandKind, DataAdmissionErrorKind, DriverCommandResult, PendingCompletion,
};
use crate::generation::driver::driver;
use crate::generation::driver::laws;
use crate::generation::driver::model;
use crate::generation::driver::model::{
    ActionApplicationFailure, Answer, CoreInput, DriverView, PortEvent, Progress,
};
use crate::generation::driver::ports::{CoreAction, CoreCommandResult, ProtocolNotice};
use crate::generation::transport::writer::{
    DataPermitError, ReservedDataAdmissionError, WriteAdmissionError,
};
use crate::lifecycle::state::SessionState;
use crate::model::ids::{CommandId, ConnectionGeneration, WireSequence, WriteId};
use crate::model::runtime::{CloseBarrier, GenerationCloseReason, MonoTime, WriteOutcome};
use crate::protocol::header::DataHeader;
use crate::protocol::laws::law_data_header_reads_back;
use crate::protocol::message::{DataMessage, ProtocolMessage};
use crate::protocol::violation::{DecodeStep, InboundViolation, InboundViolationKind};
use crate::secs2::SecsItem;
use vstd::prelude::*;

verus! {

/// The ten bytes stand for this header: every field is read back from them.
pub open spec fn tells(bytes: Seq<u8>, header: DataHeader) -> bool {
    &&& bytes.len() == 10
    &&& bytes[0] * 256 + bytes[1] == header.session_id.value()
    &&& bytes[2] >= 128 <==> header.reply_expected
    &&& bytes[2] % 128 == header.stream.value()
    &&& bytes[3] == header.function.value
    &&& bytes[6] * 0x100_0000 + bytes[7] * 0x1_0000 + bytes[8] * 0x100 + bytes[9]
        == header.system_bytes.value
}

/// A delivered primary carries the stream, the function and the text of the message
/// that the peer sent, behind everything that already waits. Its context names the
/// generation and the received header. It can be answered exactly when the core gave
/// a capability, by this Driver in this generation, and with a normal Secondary
/// unless its function is the largest one. Without room nothing is delivered.
pub proof fn law_delivered_primary_is_the_received_one<C>(
    view: DriverView<C>,
    permit: bool,
    message: DataMessage,
    capability: Option<u64>,
    answer: Answer,
)
    requires
        message.header.stream.value() < 128,
    ensures
        ({
            let done = model::act(
                view,
                permit,
                CoreAction::DeliverPrimary { message, capability },
                answer,
            );
            let got = done.view.inbound.last();
            if view.inbound.len() < view.inbound_capacity {
                &&& done.failure is None
                &&& done.view.inbound.len() == view.inbound.len() + 1
                &&& done.view.inbound.drop_last() == view.inbound
                &&& got.message.stream == message.header.stream
                &&& got.message.function == message.header.function
                &&& got.message.body == message.body
                &&& got.context.generation == view.generation
                &&& tells(got.context.header@, message.header)
                &&& got.token is Reply <==> capability is Some
                &&& got.token matches InboundToken::Reply(token) ==> {
                    &&& Some(token.capability) == capability
                    &&& token.owner == view.owner
                    &&& token.generation == view.generation
                    &&& token.normal_secondary <==> message.header.function.value != 255
                }
                &&& done.view.history == view.history
                &&& done.view.pending == view.pending
                &&& done.view.closing == view.closing
                &&& done.permit == permit
            } else {
                &&& done.failure == Some(ActionApplicationFailure::InboundFull)
                &&& done.view == view
            }
        }),
{
    law_data_header_reads_back(message.header);
    let done = model::act(view, permit, CoreAction::DeliverPrimary { message, capability }, answer);
    if view.inbound.len() < view.inbound_capacity {
        assert(done.view.inbound.drop_last() =~= view.inbound);
    }
}

/// A control frame is handed to the Writer under its own identity. The position that
/// the Writer gives is remembered; its refusal, or an identity that is outstanding
/// already, is a failure. A Data reservation is not touched.
pub proof fn law_control_frame_is_handed_over<C>(
    view: DriverView<C>,
    permit: bool,
    write_id: WriteId,
    message: ProtocolMessage,
    answer: Answer,
)
    requires
        message is Control,
    ensures
        ({
            let done = model::act(view, permit, CoreAction::SendFrame { write_id, message }, answer);
            &&& done.permit == permit
            &&& done.view.history == view.history.push(
                PortEvent::ControlHanded { write_id, message, answer: answer.control },
            )
            &&& done.view.inbound == view.inbound && done.view.pending == view.pending
            &&& match answer.control {
                Ok(sequence) => if view.admitted.contains_key(write_id.value) {
                    done.failure == Some(ActionApplicationFailure::DuplicateOrUnknownCompletion)
                        && done.view.admitted == view.admitted
                } else {
                    &&& done.failure is None
                    &&& done.view.admitted.contains_key(write_id.value)
                    &&& done.view.admitted[write_id.value] == sequence
                    &&& forall|other: u64|
                        other != write_id.value ==> (#[trigger] done.view.admitted.contains_key(
                            other,
                        ) <==> view.admitted.contains_key(other))
                },
                Err(error) => done.failure == Some(
                    ActionApplicationFailure::ControlWriteAdmission { write_id, error },
                ) && done.view.admitted == view.admitted,
            }
        }),
{
}

/// A Data frame is handed to the Writer only against the reservation, which it uses
/// up; without one it is a failure and nothing is handed over.
pub proof fn law_data_frame_uses_its_reservation<C>(
    view: DriverView<C>,
    permit: bool,
    write_id: WriteId,
    message: ProtocolMessage,
    answer: Answer,
)
    requires
        message is Data,
    ensures
        ({
            let done = model::act(view, permit, CoreAction::SendFrame { write_id, message }, answer);
            &&& !permit ==> done.view == view && done.failure == Some(
                ActionApplicationFailure::MissingOrMultipleDataFrame { write_id },
            )
            &&& permit ==> {
                &&& !done.permit
                &&& done.view.history == view.history.push(
                    PortEvent::DataHanded { write_id, message, answer: answer.data },
                )
                &&& match answer.data {
                    Ok(sequence) => if view.admitted.contains_key(write_id.value) {
                        done.failure == Some(
                            ActionApplicationFailure::DuplicateOrUnknownCompletion,
                        )
                    } else {
                        &&& done.failure is None
                        &&& done.view.admitted.contains_key(write_id.value)
                        &&& done.view.admitted[write_id.value] == sequence
                    },
                    Err(error) => done.failure == Some(
                        ActionApplicationFailure::ReservedDataAdmission { write_id, error },
                    ),
                }
            }
        }),
{
}

/// A new selection state is shown to the observer, and nothing else happens.
pub proof fn law_state_change_is_observed<C>(
    view: DriverView<C>,
    permit: bool,
    state: SessionState,
    answer: Answer,
)
    ensures
        ({
            let done = model::act(view, permit, CoreAction::SessionStateChanged(state), answer);
            &&& done.failure is None
            &&& done.permit == permit
            &&& done.view.history == view.history.push(PortEvent::Observed(state))
            &&& done.view == (DriverView { history: done.view.history, ..view })
        }),
{
}

/// A result completes the pending command of its identity, once, and no other one.
/// A result for an unknown command, and one that does not fit its command, are
/// failures that complete nothing.
pub proof fn law_result_completes_its_command<C>(
    view: DriverView<C>,
    permit: bool,
    command_id: CommandId,
    result: CoreCommandResult,
    answer: Answer,
    i: int,
)
    requires
        model::well_formed(view),
    ensures
        ({
            let done = model::act(
                view,
                permit,
                CoreAction::CompleteCommand { command_id, result },
                answer,
            );
            let fitting = model::materialized(
                view.pending[i].kind,
                result,
                view.generation,
                view.admitted,
            );
            &&& 0 <= i < view.pending.len() && view.pending[i].command_id == command_id ==> {
                &&& fitting is None ==> done.failure == Some(
                    ActionApplicationFailure::InvalidCompletionResult,
                ) && done.view == view
                &&& fitting matches Some(delivered) ==> {
                    &&& done.failure is None
                    &&& done.view.pending == view.pending.remove(i)
                    &&& done.view.history == view.history.push(
                        PortEvent::Completed {
                            completion: view.pending[i].completion,
                            result: delivered,
                        },
                    )
                }
            }
            &&& (forall|k: int|
                0 <= k < view.pending.len() ==> (#[trigger] view.pending[k]).command_id
                    != command_id) ==> done.view == view && done.failure == Some(
                ActionApplicationFailure::DuplicateOrUnknownCompletion,
            )
        }),
{
    lemma_found(view.pending, command_id.value);
    let at = model::position(view.pending, command_id.value);
    if 0 <= i < view.pending.len() && view.pending[i].command_id == command_id {
        if at < view.pending.len() && at != i {
            assert(view.pending[at].command_id.value == view.pending[i].command_id.value);
            if at < i {
                assert(view.pending[at].command_id.value < view.pending[i].command_id.value);
            } else {
                assert(view.pending[i].command_id.value < view.pending[at].command_id.value);
            }
        }
    }
}

/// The position of an identity is that of its entry, or behind all of them.
proof fn lemma_found<C>(pending: Seq<PendingCompletion<C>>, id: u64)
    ensures
        ({
            let at = model::position(pending, id);
            &&& 0 <= at <= pending.len()
            &&& at < pending.len() ==> pending[at].command_id.value == id
            &&& at == pending.len() ==> forall|k: int|
                0 <= k < pending.len() ==> (#[trigger] pending[k]).command_id.value != id
        }),
    decreases pending.len(),
{
    if pending.len() > 0 && pending[0].command_id.value != id {
        let rest = pending.drop_first();
        lemma_found(rest, id);
        let at = model::position(rest, id);
        if at == rest.len() {
            assert forall|k: int| 0 <= k < pending.len() implies (
            #[trigger] pending[k]).command_id.value != id by {
                if k > 0 {
                    assert(rest[k - 1] == pending[k]);
                }
            }
        } else {
            assert(rest[at] == pending[at + 1]);
        }
    }
}

/// The result that reaches the application is the one that the core reported: a
/// control procedure's outcome and every error unchanged; a send succeeds with the
/// generation, and only for a frame that was admitted; a request succeeds with the
/// stream, the function and the text of the Secondary and its own context; and a
/// request that timed out names the header that it was sent with. Results of one
/// kind never complete a command of another.
pub proof fn law_results_are_passed_on(
    kind: CompletionKind,
    result: CoreCommandResult,
    generation: ConnectionGeneration,
    admitted: Map<u64, WireSequence>,
)
    requires
        result matches CoreCommandResult::Request(Ok(matched)) ==> matched.header.stream.value()
            < 128,
        result matches CoreCommandResult::RequestTimedOut(header) ==> header.stream.value() < 128,
    ensures
        ({
            let delivered = model::materialized(kind, result, generation, admitted);
            match result {
                CoreCommandResult::Control(outcome) => delivered == if kind
                    == CompletionKind::Control {
                    Some(DriverCommandResult::Control(outcome))
                } else {
                    None
                },
                CoreCommandResult::Send(Ok(write_id)) => {
                    &&& delivered is Some <==> kind == CompletionKind::Send
                        && admitted.contains_key(write_id.value)
                    &&& delivered matches Some(done) ==> done matches DriverCommandResult::Send(
                        Ok(receipt),
                    ) && receipt.generation == generation
                },
                CoreCommandResult::Send(Err(error)) => delivered == if kind
                    == CompletionKind::Send {
                    Some(DriverCommandResult::Send(Err(error)))
                } else {
                    None
                },
                CoreCommandResult::Request(Ok(matched)) => {
                    &&& delivered is Some <==> kind == CompletionKind::Request
                    &&& delivered matches Some(done) ==> done matches DriverCommandResult::Request(
                        Ok(secondary),
                    ) && secondary.stream == matched.header.stream && secondary.function
                        == matched.header.function && secondary.body == matched.body
                        && secondary.context.generation == generation && tells(
                        secondary.context.header@,
                        matched.header,
                    )
                },
                CoreCommandResult::Request(Err(error)) => delivered == if kind
                    == CompletionKind::Request {
                    Some(DriverCommandResult::Request(Err(error)))
                } else {
                    None
                },
                CoreCommandResult::RequestTimedOut(header) => {
                    &&& delivered is Some <==> kind == CompletionKind::Request
                    &&& delivered matches Some(done) ==> done matches DriverCommandResult::Request(
                        Err(OperationError::RequestTimeout { context }),
                    ) && context.generation == generation && tells(context.header@, header)
                },
            }
        }),
{
    match result {
        CoreCommandResult::Request(Ok(matched)) => law_data_header_reads_back(matched.header),
        CoreCommandResult::RequestTimedOut(header) => law_data_header_reads_back(header),
        _ => {},
    }
}

/// A close that the core asks for keeps the first reason. The first one waits for
/// its write if it names one; a later one can only take the wait away, by asking for
/// an immediate close.
pub proof fn law_close_request_keeps_the_first_reason<C>(
    view: DriverView<C>,
    permit: bool,
    reason: GenerationCloseReason,
    barrier: CloseBarrier,
    answer: Answer,
)
    ensures
        ({
            let done = model::act(
                view,
                permit,
                CoreAction::CloseGeneration { reason, barrier },
                answer,
            );
            &&& done.failure is None
            &&& done.view == (DriverView { closing: done.view.closing, ..view })
            &&& done.view.closing is Some
            &&& view.closing is None ==> {
                &&& done.view.closing->0.reason == reason
                &&& done.view.closing->0.barrier_write_id == match barrier {
                    CloseBarrier::Immediate => None,
                    CloseBarrier::AfterWrite(write_id) => Some(write_id),
                }
            }
            &&& view.closing matches Some(before) ==> {
                &&& done.view.closing->0.reason == before.reason
                &&& barrier is Immediate ==> done.view.closing->0.barrier_write_id is None
                &&& barrier is AfterWrite ==> done.view.closing->0.barrier_write_id
                    == before.barrier_write_id
            }
        }),
{
}

/// A batch is executed in order up to its first failure: what follows a failure has
/// no effect, and without a failure every action had its effect after the ones before.
pub proof fn law_batch_stops_at_the_first_failure<C>(
    view: DriverView<C>,
    permit: bool,
    actions: Seq<CoreAction>,
    answers: Seq<Answer>,
    n: int,
)
    requires
        0 <= n <= answers.len(),
    ensures
        model::run(view, permit, actions, answers.take(n)).failure is Some ==> model::run(
            view,
            permit,
            actions,
            answers,
        ) == model::run(view, permit, actions, answers.take(n)),
        answers.len() == 0 ==> model::run(view, permit, actions, answers) == (Progress {
            view,
            permit,
            failure: None,
        }),
        n + 1 <= answers.len() && model::run(view, permit, actions, answers.take(n)).failure is None
            ==> ({
            let before = model::run(view, permit, actions, answers.take(n));
            model::run(view, permit, actions, answers.take(n + 1)) == model::act(
                before.view,
                before.permit,
                actions[n],
                answers[n],
            )
        }),
    decreases answers.len() - n,
{
    if n < answers.len() {
        assert(answers.take(n + 1).drop_last() =~= answers.take(n));
        law_batch_stops_at_the_first_failure(view, permit, actions, answers, n + 1);
    } else {
        assert(answers.take(n) =~= answers);
    }
}

/// A reservation that no frame used is given back, once, after the batch; a used one
/// is not. A reservation that cannot be given back is the failure of the batch.
pub proof fn law_unused_reservation_is_given_back<C>(
    progress: Progress<C>,
    release: Result<(), DataPermitError>,
)
    ensures
        ({
            let (after, failure) = model::settled_permit(progress, release);
            &&& progress.permit ==> after.history == progress.view.history.push(
                PortEvent::Released { answer: release },
            )
            &&& !progress.permit ==> after == progress.view && failure == progress.failure
            &&& progress.permit && release is Ok ==> failure == progress.failure
            &&& progress.permit && release is Err ==> failure == Some(
                ActionApplicationFailure::DataPermitRelease(release->Err_0),
            )
        }),
{
}

/// Each failure of a batch has its close reason: an application that does not keep
/// up, a full control lane, a lost transport, and a broken invariant for everything
/// else. The frame that was not admitted is named.
pub proof fn law_failures_have_their_reasons(failure: ActionApplicationFailure)
    ensures
        ({
            let (reason, frame) = model::failure_report(failure);
            &&& reason == GenerationCloseReason::ApplicationBackpressure <==> failure is InboundFull
            &&& reason == GenerationCloseReason::ControlBackpressure <==> (failure matches
                ActionApplicationFailure::ControlWriteAdmission { error, .. } && error
                == WriteAdmissionError::Full)
            &&& reason == GenerationCloseReason::TransportLost <==> {
                ||| failure matches ActionApplicationFailure::ControlWriteAdmission { error, .. }
                    && error == WriteAdmissionError::Closed
                ||| failure matches ActionApplicationFailure::ReservedDataAdmission { error, .. }
                    && error == ReservedDataAdmissionError::Closed
            }
            &&& reason == GenerationCloseReason::ApplicationBackpressure || reason
                == GenerationCloseReason::ControlBackpressure || reason
                == GenerationCloseReason::TransportLost || reason
                == GenerationCloseReason::RuntimeInvariant
            &&& frame == match failure {
                ActionApplicationFailure::ControlWriteAdmission { write_id, .. } => Some(write_id),
                ActionApplicationFailure::ReservedDataAdmission { write_id, .. } => Some(write_id),
                ActionApplicationFailure::MissingOrMultipleDataFrame { write_id } => Some(write_id),
                _ => None,
            }
        }),
{
}

/// The core hears of every input, first of all, and of that input.
pub proof fn law_core_hears_the_input<C>(
    view: DriverView<C>,
    input: CoreInput,
    permit: bool,
    now: MonoTime,
    after: DriverView<C>,
)
    requires
        model::well_formed(view),
        model::answered(view, input, permit, now, after),
    ensures
        after.history.len() > view.history.len(),
        after.history[view.history.len() as int] matches PortEvent::CoreCalled { input: heard, .. }
            && heard == input,
{
    let actions = choose|actions: Seq<CoreAction>| #[trigger]
        model::applied(view.asked(input, actions), permit, actions, now, after);
    laws::lemma_logged(view, PortEvent::CoreCalled { input, actions });
    laws::lemma_applied(view.asked(input, actions), permit, actions, now, after);
    let asked = view.asked(input, actions);
    assert(asked.history[view.history.len() as int] == after.history[view.history.len() as int]);
}

/// A batch that fails ends the session: the core hears of a shutdown for the reason
/// of the failure, or for the given one where there is such, and the generation
/// closes without waiting for a write. A generation that was closing keeps its
/// reason.
pub proof fn law_failure_shuts_the_core_down<C>(
    view: DriverView<C>,
    reason: GenerationCloseReason,
    failed_write_id: Option<WriteId>,
    now: MonoTime,
    after: DriverView<C>,
)
    requires
        model::well_formed(view),
        model::failed_over(view, reason, failed_write_id, now, after),
    ensures
        after.history.len() > view.history.len(),
        after.history[view.history.len() as int] matches PortEvent::CoreCalled { input, .. }
            && input == (CoreInput::Shutdown { reason, failed_write_id, now }),
        after.closing matches Some(state) && state.barrier_write_id is None,
        view.closing matches Some(before) ==> after.closing->0.reason == before.reason,
{
    laws::lemma_failed_over(view, reason, failed_write_id, now, after);
    let input = CoreInput::Shutdown { reason, failed_write_id, now };
    let (actions, middle, failure) = choose|
        actions: Seq<CoreAction>,
        middle: DriverView<C>,
        failure: Option<ActionApplicationFailure>,
    |
        {
            &&& #[trigger] model::batch(
                view.asked(input, actions),
                false,
                actions,
                middle,
                failure,
            )
            &&& after == if failure is Some {
                middle.closing_with(
                    GenerationCloseReason::RuntimeInvariant,
                    CloseBarrier::Immediate,
                ).closing_with(reason, CloseBarrier::Immediate)
            } else {
                middle.closing_with(reason, CloseBarrier::Immediate)
            }
        };
    laws::lemma_logged(view, PortEvent::CoreCalled { input, actions });
    laws::lemma_batch(view.asked(input, actions), false, actions, middle, failure);
    let asked = view.asked(input, actions);
    assert(asked.history[view.history.len() as int] == middle.history[view.history.len() as int]);
}

/// A shutdown tells the core its reason and the frame that was not admitted, and
/// ends with a closed transport. An open generation that the core does not close
/// otherwise closes for that reason.
pub proof fn law_shutdown_tells_the_core<C>(
    view: DriverView<C>,
    reason: GenerationCloseReason,
    failed_write_id: Option<WriteId>,
    now: MonoTime,
    after: DriverView<C>,
)
    requires
        model::well_formed(view),
        model::shut_down(view, reason, failed_write_id, now, after),
    ensures
        after.history.len() > view.history.len(),
        after.history[view.history.len() as int] matches PortEvent::CoreCalled { input, .. }
            && input == (CoreInput::Shutdown { reason, failed_write_id, now }),
        after.transport_closed,
        after.closing matches Some(state) && state.barrier_write_id is None,
        view.closing matches Some(before) ==> after.closing->0.reason == before.reason,
        after.queue.len() == 0,
{
    laws::lemma_shut_down(view, reason, failed_write_id, now, after);
    let input = CoreInput::Shutdown { reason, failed_write_id, now };
    let (actions, middle) = choose|actions: Seq<CoreAction>, middle: DriverView<C>|
        {
            &&& #[trigger] model::absorbed(
                view.asked(input, actions),
                false,
                actions,
                None,
                now,
                middle,
            )
            &&& model::finished(middle.closing_with(reason, CloseBarrier::Immediate), after)
        };
    laws::lemma_logged(view, PortEvent::CoreCalled { input, actions });
    laws::lemma_absorbed(view.asked(input, actions), false, actions, None, now, middle);
    laws::lemma_closing_with(middle, reason, CloseBarrier::Immediate);
    let closing = middle.closing_with(reason, CloseBarrier::Immediate);
    laws::lemma_finished(closing, after);
    let asked = view.asked(input, actions);
    assert(asked.history[view.history.len() as int] == middle.history[view.history.len() as int]);
    assert(closing.history[view.history.len() as int] == after.history[view.history.len() as int]);
}

/// A quiet core does not change the reason: when a shutdown's batch is empty, an
/// open generation closes for exactly the reason that was given.
pub proof fn law_quiet_shutdown_has_its_own_reason<C>(
    view: DriverView<C>,
    reason: GenerationCloseReason,
    middle: DriverView<C>,
    now: MonoTime,
    after: DriverView<C>,
)
    requires
        view.closing is None,
        model::absorbed(view, false, Seq::empty(), None, now, middle),
        model::finished(middle.closing_with(reason, CloseBarrier::Immediate), after),
    ensures
        middle == view,
        after.closing matches Some(state) && state.reason == reason,
{
    let (batched, failure) = choose|
        batched: DriverView<C>,
        failure: Option<ActionApplicationFailure>,
    |
        {
            &&& #[trigger] model::batch(view, false, Seq::empty(), batched, failure)
            &&& match failure {
                None => middle == batched,
                Some(failure) => model::failed_over(
                    batched,
                    model::failure_report(failure).0,
                    model::failure_report(failure).1,
                    now,
                    middle,
                ),
            }
        };
    let (answers, release) = choose|answers: Seq<Answer>, release: Result<(), DataPermitError>|
        model::batch_by(view, false, Seq::empty(), answers, release, batched, failure);
    assert(answers.len() == 0);
}

/// Where the transport closes, every accepted command is given back as lost with what
/// it carried, every pending command that the core gave up is completed as lost, and
/// those that the core still owns stay.
pub proof fn law_drain_serves_everything<C>(view: DriverView<C>, owned: Seq<bool>, i: int)
    requires
        owned.len() == view.pending.len(),
    ensures
        ({
            let after = model::drained(view, owned);
            &&& after.queue.len() == 0
            &&& after.command_bytes == 0
            &&& view.history.is_prefix_of(after.history)
            &&& 0 <= i < view.pending.len() && owned[i] ==> after.pending.contains(view.pending[i])
            &&& 0 <= i < view.pending.len() && !owned[i] ==> after.history.contains(
                PortEvent::Completed {
                    completion: view.pending[i].completion,
                    result: lost(view.pending[i].kind),
                },
            )
            &&& 0 <= i < view.queue.len() ==> after.history.contains(
                PortEvent::Completed {
                    completion: view.queue[i].completion,
                    result: returned(view.queue[i].kind, OperationError::ConnectionLost),
                },
            )
            &&& after.history.len() == view.history.len() + view.queue.len() + view.pending.len()
                - after.pending.len()
            &&& after.admitted == view.admitted
            &&& after.inbound == view.inbound
            &&& after.closing == view.closing
        }),
{
    let after = model::drained(view, owned);
    lemma_split(view.pending, owned);
    let orphans = model::orphan_events(view.pending, owned);
    let queued = model::queue_events(view.queue);
    if 0 <= i < view.pending.len() && !owned[i] {
        let event = PortEvent::Completed {
            completion: view.pending[i].completion,
            result: lost(view.pending[i].kind),
        };
        let k = choose|k: int| 0 <= k < orphans.len() && orphans[k] == event;
        assert(after.history[view.history.len() + k] == event);
    }
    if 0 <= i < view.queue.len() {
        let event = PortEvent::Completed {
            completion: view.queue[i].completion,
            result: returned(view.queue[i].kind, OperationError::ConnectionLost),
        };
        assert(queued[i] == event);
        assert(after.history[view.history.len() + orphans.len() + i] == event);
    }
}

/// Pending commands are either kept or completed as lost, each of them once.
proof fn lemma_split<C>(pending: Seq<PendingCompletion<C>>, owned: Seq<bool>)
    requires
        owned.len() >= pending.len(),
    ensures
        model::still_owned(pending, owned).len() + model::orphan_events(pending, owned).len()
            == pending.len(),
        forall|i: int|
            0 <= i < pending.len() && owned[i] ==> model::still_owned(pending, owned).contains(
                #[trigger] pending[i],
            ),
        forall|i: int|
            0 <= i < pending.len() && !owned[i] ==> model::orphan_events(pending, owned).contains(
                PortEvent::Completed {
                    completion: (#[trigger] pending[i]).completion,
                    result: lost(pending[i].kind),
                },
            ),
    decreases pending.len(),
{
    if pending.len() > 0 {
        let rest = pending.drop_last();
        lemma_split(rest, owned);
        let last = pending.len() - 1;
        let kept = model::still_owned(rest, owned);
        let gone = model::orphan_events(rest, owned);
        assert forall|i: int| 0 <= i < pending.len() && owned[i] implies model::still_owned(
            pending,
            owned,
        ).contains(#[trigger] pending[i]) by {
            if i < last {
                assert(rest[i] == pending[i]);
                let k = choose|k: int| 0 <= k < kept.len() && kept[k] == pending[i];
                assert(model::still_owned(pending, owned)[k] == pending[i]);
            } else {
                assert(model::still_owned(pending, owned)[kept.len() as int] == pending[i]);
            }
        }
        assert forall|i: int| 0 <= i < pending.len() && !owned[i] implies model::orphan_events(
            pending,
            owned,
        ).contains(
            PortEvent::Completed {
                completion: (#[trigger] pending[i]).completion,
                result: lost(pending[i].kind),
            },
        ) by {
            let event = PortEvent::Completed {
                completion: pending[i].completion,
                result: lost(pending[i].kind),
            };
            if i < last {
                assert(rest[i] == pending[i]);
                let k = choose|k: int| 0 <= k < gone.len() && gone[k] == event;
                assert(model::orphan_events(pending, owned)[k] == event);
            } else {
                assert(model::orphan_events(pending, owned)[gone.len() as int] == event);
            }
        }
    }
}

/// Result of a command of this kind whose connection was lost.
pub open spec fn lost(kind: CompletionKind) -> DriverCommandResult {
    match kind {
        CompletionKind::Control => DriverCommandResult::Control(
            Err(OperationError::ConnectionLost),
        ),
        CompletionKind::Send => DriverCommandResult::Send(Err(OperationError::ConnectionLost)),
        CompletionKind::Request => DriverCommandResult::Request(
            Err(OperationError::ConnectionLost),
        ),
    }
}

/// Result that returns a command with everything that it carried.
pub open spec fn returned(kind: AcceptedCommandKind, error: OperationError) -> DriverCommandResult {
    match kind {
        AcceptedCommandKind::Reply { intent, token, body } => DriverCommandResult::ReplyRejected {
            intent,
            token,
            body,
            error,
        },
        AcceptedCommandKind::Send(message) => DriverCommandResult::PrimaryRejected {
            message,
            reply_expected: false,
            error,
        },
        AcceptedCommandKind::Request(message) => DriverCommandResult::PrimaryRejected {
            message,
            reply_expected: true,
            error,
        },
        AcceptedCommandKind::Control(_) => DriverCommandResult::Control(Err(error)),
    }
}

/// The transport is closed exactly where the generation closes and no write holds it
/// open, at once; otherwise nothing happens.
pub proof fn law_transport_closes_when_nothing_holds_it<C>(
    view: DriverView<C>,
    after: DriverView<C>,
)
    requires
        model::finished(view, after),
    ensures
        (view.closing matches Some(state) && state.barrier_write_id is None)
            && !view.transport_closed ==> {
            &&& after.transport_closed
            &&& after.history.len() > view.history.len()
            &&& after.history[view.history.len() as int] is TransportClosed
            &&& after.queue.len() == 0
        },
        !((view.closing matches Some(state) && state.barrier_write_id is None)
            && !view.transport_closed) ==> after == view,
        after.closing == view.closing,
{
}

/// Time advances in the core exactly where the Driver is open and the core's deadline
/// is not later than now.
pub proof fn law_due_deadlines_advance_time<C>(
    view: DriverView<C>,
    deadline: Option<MonoTime>,
    now: MonoTime,
    after: DriverView<C>,
)
    requires
        model::well_formed(view),
        model::deadline_processed(view, deadline, now, after),
    ensures
        view.closing is None && (deadline matches Some(due) && due.nanos <= now.nanos) ==> {
            &&& after.history.len() > view.history.len()
            &&& after.history[view.history.len() as int] matches PortEvent::CoreCalled {
                input,
                ..
            } && input == (CoreInput::AdvanceTime { now })
        },
        !(view.closing is None && (deadline matches Some(due) && due.nanos <= now.nanos)) ==> after
            == view,
{
    if view.closing is None && (deadline matches Some(due) && due.nanos <= now.nanos) {
        law_core_hears_the_input(view, CoreInput::AdvanceTime { now }, false, now, after);
    }
}

/// Every control intent is its own core command, and a command reaches the core under
/// its identity with exactly what the application gave: the message, or the answer
/// with its capability, its kind and its text.
pub proof fn law_command_reaches_the_core_unchanged(
    command_id: CommandId,
    kind: AcceptedCommandKind,
    now: MonoTime,
)
    ensures
        match kind {
            AcceptedCommandKind::Reply { intent, token, body } => model::command_input(
                command_id,
                kind,
                now,
            ) == (CoreInput::Reply { command_id, capability: token.capability, intent, body, now }),
            AcceptedCommandKind::Send(message) => model::command_input(command_id, kind, now) == (
            CoreInput::Command { command_id, kind: CoreCommandKind::Send(message), now }),
            AcceptedCommandKind::Request(message) => model::command_input(command_id, kind, now)
                == (CoreInput::Command {
                command_id,
                kind: CoreCommandKind::Request(message),
                now,
            }),
            AcceptedCommandKind::Control(intent) => model::command_input(command_id, kind, now)
                matches CoreInput::Command { command_id: id, kind: core, now: at } && id
                == command_id && at == now && match intent {
                ControlIntent::Select => core is Select,
                ControlIntent::Deselect => core is Deselect,
                ControlIntent::Linktest => core is Linktest,
                ControlIntent::Separate => core is Separate,
            },
        },
{
}

/// Commands leave the queue in the order in which they came, each with its own charge,
/// and an accepted one goes behind all others.
pub proof fn law_commands_are_first_come_first_served<C>(
    view: DriverView<C>,
    kind: AcceptedCommandKind,
    completion: C,
    charge: usize,
)
    requires
        model::well_formed(view),
        view.command_bytes + charge <= usize::MAX,
    ensures
        ({
            let after = model::accepted(view, kind, completion, charge);
            &&& after.queue.len() == view.queue.len() + 1
            &&& after.queue.drop_last() == view.queue
            &&& after.queue.last().kind == kind
            &&& after.queue.last().completion == completion
            &&& after.queue.last().byte_charge == charge
            &&& after.command_bytes == view.command_bytes + charge
            &&& after == (DriverView {
                queue: after.queue,
                command_bytes: after.command_bytes,
                ..view
            })
        }),
        view.queue.len() > 0 ==> {
            let after = model::dequeued(view);
            &&& after.queue == view.queue.skip(1)
            &&& after.command_bytes == view.command_bytes - view.queue[0].byte_charge
            &&& after == (DriverView {
                queue: after.queue,
                command_bytes: after.command_bytes,
                ..view
            })
        },
{
    let after = model::accepted(view, kind, completion, charge);
    assert(after.queue.drop_last() =~= view.queue);
    if view.queue.len() > 0 {
        assert(model::dequeued(view).queue =~= view.queue.skip(1));
        lemma_charges(view.queue.drop_first());
    }
}

/// Charges are never negative.
proof fn lemma_charges<C>(queue: Seq<AcceptedCommand<C>>)
    ensures
        model::charges(queue) >= 0,
    decreases queue.len(),
{
    if queue.len() > 0 {
        lemma_charges(queue.drop_first());
    }
}

/// A command that enters the core waits under the next identity, behind all others,
/// with its own endpoint and for a result of its own kind: a send's for a send and for
/// an answer to the peer, a request's for a request, and a control result for a
/// control procedure and for a capability that is given up.
pub proof fn law_entering_command_waits_for_its_result<C>(
    view: DriverView<C>,
    command: AcceptedCommand<C>,
    value: u64,
)
    ensures
        ({
            let after = model::entering(view, command, value);
            &&& after.pending.len() == view.pending.len() + 1
            &&& after.pending.drop_last() == view.pending
            &&& after.pending.last().command_id.value == value
            &&& after.pending.last().completion == command.completion
            &&& after.pending.last().kind == match command.kind {
                AcceptedCommandKind::Reply { intent, .. } => match intent {
                    ReplyIntent::Secondary => CompletionKind::Send,
                    ReplyIntent::Abort => CompletionKind::Send,
                    ReplyIntent::Abandon => CompletionKind::Control,
                },
                AcceptedCommandKind::Control(_) => CompletionKind::Control,
                AcceptedCommandKind::Send(_) => CompletionKind::Send,
                AcceptedCommandKind::Request(_) => CompletionKind::Request,
            }
            &&& value < u64::MAX ==> after.next_command_id == Some((value + 1) as u64)
            &&& value == u64::MAX ==> after.next_command_id is None
            &&& after.queue == view.queue && after.history == view.history
        }),
{
    assert(model::entering(view, command, value).pending.drop_last() =~= view.pending);
}

/// Sends, requests and answers to the peer write a Data frame, and nothing else does;
/// the frame carries the text of the message, or of a normal Secondary. Only the
/// answers among them wait for a core that takes none.
pub proof fn law_data_commands_write_their_text(kind: AcceptedCommandKind)
    ensures
        kind.writes_data() <==> match kind {
            AcceptedCommandKind::Reply { intent, .. } => intent is Secondary || intent is Abort,
            AcceptedCommandKind::Control(_) => false,
            AcceptedCommandKind::Send(_) => true,
            AcceptedCommandKind::Request(_) => true,
        },
        kind.answers_peer() <==> (kind matches AcceptedCommandKind::Reply { intent, .. } && (
        intent is Secondary || intent is Abort)),
        match kind {
            AcceptedCommandKind::Reply { intent, body, .. } => kind.frame_body() == if
                intent is Secondary {
                body
            } else {
                None
            },
            AcceptedCommandKind::Control(_) => kind.frame_body() is None,
            AcceptedCommandKind::Send(message) => kind.frame_body() == message.body,
            AcceptedCommandKind::Request(message) => kind.frame_body() == message.body,
        },
{
}

/// A refused command comes back with everything that it carried, so that it can be
/// submitted again.
pub proof fn law_refused_command_comes_back<C>(
    view: DriverView<C>,
    command: AcceptedCommand<C>,
    error: OperationError,
)
    ensures
        model::given_back(view, command, error).history == view.history.push(
            PortEvent::Completed {
                completion: command.completion,
                result: returned(command.kind, error),
            },
        ),
        model::given_back(view, command, error) == (DriverView {
            history: model::given_back(view, command, error).history,
            ..view
        }),
{
}

/// An answer that the core takes no longer is given back as draining. Any other
/// command that writes Data first reserves its frame with its text, and is given back
/// with the Writer's refusal where that fails.
pub proof fn law_command_is_executed<C>(
    view: DriverView<C>,
    command: AcceptedCommand<C>,
    blocked: bool,
    now: MonoTime,
    after: DriverView<C>,
)
    requires
        model::executed(view, command, blocked, now, after),
    ensures
        ({
            let answers = command.kind matches AcceptedCommandKind::Reply { intent, .. }
                && !(intent is Abandon);
            let writes = answers || command.kind is Send || command.kind is Request;
            let text = match command.kind {
                AcceptedCommandKind::Reply { intent, body, .. } => if intent is Secondary {
                    body
                } else {
                    None
                },
                AcceptedCommandKind::Control(_) => None,
                AcceptedCommandKind::Send(message) => message.body,
                AcceptedCommandKind::Request(message) => message.body,
            };
            &&& answers && blocked ==> after == model::given_back(
                view,
                command,
                OperationError::Draining,
            )
            &&& !(answers && blocked) && !writes ==> model::entered(
                view,
                command,
                false,
                now,
                after,
            )
            &&& !(answers && blocked) && writes ==> exists|failure: Option<OperationError>|
                {
                    let asked = view.logged(PortEvent::Reserved { body: text, failure });
                    &&& #[trigger] model::reserved(view, command, failure, now, after)
                    &&& failure is None ==> model::entered(asked, command, true, now, after)
                    &&& failure is Some && failure->0 != OperationError::ConnectionLost ==> after
                        == model::given_back(asked, command, failure->0)
                }
        }),
{
    law_data_commands_write_their_text(command.kind);
    if !(command.kind.answers_peer() && blocked) && command.kind.writes_data() {
        let failure = choose|failure: Option<OperationError>| #[trigger]
            model::reserved(view, command, failure, now, after);
        assert(model::reserved(view, command, failure, now, after));
    }
}

/// A Writer that has stopped gives the command back as lost and ends the session: the
/// core hears of a lost transport, and the generation closes.
pub proof fn law_stopped_writer_ends_the_session<C>(
    view: DriverView<C>,
    command: AcceptedCommand<C>,
    now: MonoTime,
    after: DriverView<C>,
)
    requires
        model::reserved(view, command, Some(OperationError::ConnectionLost), now, after),
    ensures
        exists|refused: DriverView<C>, middle: DriverView<C>|
            {
                &&& #[trigger] model::failed_over(
                    refused,
                    GenerationCloseReason::TransportLost,
                    None,
                    now,
                    middle,
                )
                &&& model::finished(middle, after)
                &&& refused.history.last() == (PortEvent::Completed {
                    completion: command.completion,
                    result: returned(command.kind, OperationError::ConnectionLost),
                })
                &&& refused.history.len() == view.history.len() + 2
            },
{
    let lost: Option<OperationError> = Some(OperationError::ConnectionLost);
    let asked = view.logged(
        PortEvent::Reserved { body: command.kind.frame_body(), failure: lost },
    );
    let refused = model::given_back(asked, command, OperationError::ConnectionLost);
    let middle = choose|middle: DriverView<C>| #[trigger]
        model::failed_over(refused, GenerationCloseReason::TransportLost, None, now, middle)
            && model::finished(middle, after);
    assert(model::failed_over(refused, GenerationCloseReason::TransportLost, None, now, middle));
}

/// A command is charged for its text, its header and its length prefix. It is refused
/// as too large exactly where text and header exceed the Message Length, and for want
/// of room exactly where the charge exceeds what is left of the byte budget.
pub proof fn law_charge_is_the_frame_length<C>(view: DriverView<C>, body: Option<SecsItem>)
    requires
        view.command_byte_capacity <= usize::MAX,
    ensures
        ({
            let text = match body {
                Some(item) => item.encoded@.len() as int,
                None => 0int,
            };
            let charge = model::charge_of(view, body);
            &&& charge is Ok <==> text + 10 <= view.maximum_message_length && text + 14
                + view.command_bytes <= view.command_byte_capacity
            &&& charge matches Ok(bytes) ==> bytes == text + 14
            &&& charge == Err::<usize, _>(OperationError::Backpressure) <==> text + 10
                <= view.maximum_message_length && text + 14 + view.command_bytes
                > view.command_byte_capacity
            &&& text + 10 > view.maximum_message_length ==> (charge matches Err(
                OperationError::OutboundFrameTooLarge { text_length, maximum_message_length },
            ) && (text <= usize::MAX ==> text_length == text) && maximum_message_length
                == view.maximum_message_length)
        }),
{
}

/// Control commands are admitted exactly by an open Driver that is not draining and
/// has a free slot; primaries also need a charge that fits. The first obstacle is the
/// one that is reported.
pub proof fn law_admission_of_commands<C>(view: DriverView<C>, message: PrimaryMessage)
    ensures
        ({
            let control = driver::control_refusal(view);
            let data = driver::data_refusal(view, message);
            let closing = view.closing is Some;
            let draining = view.shutdown_draining;
            let full = view.queue.len() >= view.command_capacity;
            let charge = model::charge_of(view, message.body);
            &&& control == Some(ControlAdmissionErrorKind::Closing) <==> closing
            &&& control == Some(ControlAdmissionErrorKind::Draining) <==> !closing && draining
            &&& control == Some(ControlAdmissionErrorKind::Full) <==> !closing && !draining && full
            &&& control is None <==> !closing && !draining && !full
            &&& data == Some(DataAdmissionErrorKind::Closing) <==> closing
            &&& data == Some(DataAdmissionErrorKind::Draining) <==> !closing && draining
            &&& data == Some(DataAdmissionErrorKind::Full) <==> !closing && !draining && (full
                || charge == Err::<usize, _>(OperationError::Backpressure))
            &&& data is None <==> !closing && !draining && !full && charge is Ok
            &&& data matches Some(DataAdmissionErrorKind::Invalid(error)) ==> charge == Err::<
                usize,
                _,
            >(error)
        }),
{
}

/// An answer is admitted exactly by an open Driver whose core takes answers, for a
/// token of this Driver and this generation, with a normal Secondary only where one is
/// possible, a free slot and a charge that fits. Giving a capability up does not wait
/// for the core. The first obstacle is the one that is reported.
pub proof fn law_admission_of_answers<C>(
    view: DriverView<C>,
    intent: ReplyIntent,
    token: ReplyToken,
    body: Option<SecsItem>,
    blocked: bool,
)
    ensures
        ({
            let refusal = driver::reply_refusal(view, intent, token, body, blocked);
            let closing = view.closing is Some;
            let held = !(intent is Abandon) && blocked;
            let own = token.owner == view.owner && token.generation == view.generation;
            let impossible = intent is Secondary && !token.normal_secondary;
            let full = view.queue.len() >= view.command_capacity;
            let charge = model::charge_of(view, body);
            &&& closing ==> refusal == Some(OperationError::ConnectionLost)
            &&& !closing && held ==> refusal == Some(OperationError::Draining)
            &&& !closing && !held && !own ==> refusal == Some(
                OperationError::ReplyCapabilityUnavailable,
            )
            &&& !closing && !held && own && impossible ==> refusal == Some(
                OperationError::ReplyRequiresAbort,
            )
            &&& !closing && !held && own && !impossible && full ==> refusal == Some(
                OperationError::Backpressure,
            )
            &&& !closing && !held && own && !impossible && !full ==> match charge {
                Ok(_) => refusal is None,
                Err(error) => refusal == Some(error),
            }
        }),
{
}

/// A settled write is no longer outstanding, and holds the transport open no longer;
/// every other write still does.
pub proof fn law_settled_write_lets_go<C>(view: DriverView<C>, write_id: WriteId, other: WriteId)
    ensures
        ({
            let after = model::write_settled(view, write_id);
            &&& !after.admitted.contains_key(write_id.value)
            &&& other.value != write_id.value ==> (after.admitted.contains_key(other.value)
                <==> view.admitted.contains_key(other.value))
            &&& view.closing is None ==> after.closing is None
            &&& view.closing matches Some(state) ==> {
                &&& after.closing matches Some(later) && later.reason == state.reason
                &&& state.barrier_write_id == Some(write_id)
                    ==> after.closing->0.barrier_write_id is None
                &&& state.barrier_write_id != Some(write_id) ==> after.closing->0.barrier_write_id
                    == state.barrier_write_id
            }
            &&& after.history == view.history && after.pending == view.pending && after.queue
                == view.queue
        }),
        ({
            let after = model::writer_gone(view);
            &&& forall|id: u64| !(#[trigger] after.admitted.contains_key(id))
            &&& view.closing matches Some(state) ==> after.closing matches Some(later)
                && later.reason == state.reason && later.barrier_write_id is None
            &&& after.history == view.history && after.pending == view.pending
        }),
{
}

/// The terminal fact of a frame reaches the core as it was reported, after due
/// deadlines when it is a commit.
pub proof fn law_write_outcome_reaches_the_core<C>(
    view: DriverView<C>,
    write_id: WriteId,
    outcome: WriteOutcome,
    occurred_at: MonoTime,
    now: MonoTime,
    after: DriverView<C>,
)
    requires
        model::well_formed(view),
        !(outcome is Committed),
        driver::outcome_presented(view, write_id, outcome, occurred_at, now, after),
    ensures
        after.history.len() > view.history.len(),
        after.history[view.history.len() as int] matches PortEvent::CoreCalled { input, .. }
            && input == (CoreInput::WriteOutcome { write_id, outcome, occurred_at, now }),
{
    let input = CoreInput::WriteOutcome { write_id, outcome, occurred_at, now };
    let (ready, actions, middle) = choose|
        ready: DriverView<C>,
        actions: Seq<CoreAction>,
        middle: DriverView<C>,
    |
        {
            &&& #[trigger] driver::outcome_ready(view, outcome, now, ready)
            &&& #[trigger] model::absorbed(
                ready.asked(input, actions),
                false,
                actions,
                None,
                now,
                middle,
            )
            &&& model::finished(model::write_settled(middle, write_id), after)
        };
    laws::lemma_logged(view, PortEvent::CoreCalled { input, actions });
    laws::lemma_absorbed(view.asked(input, actions), false, actions, None, now, middle);
    laws::lemma_write_settled(middle, write_id);
    let settled = model::write_settled(middle, write_id);
    laws::lemma_finished(settled, after);
    let asked = view.asked(input, actions);
    assert(asked.history[view.history.len() as int] == middle.history[view.history.len() as int]);
    assert(settled.history[view.history.len() as int] == after.history[view.history.len() as int]);
}

/// A malformed frame is reported to the application with the generation, the bytes of
/// its header as they were received, what is wrong with it and the decoder's failure;
/// the core hears of the same violation.
pub proof fn law_violation_is_reported_as_received<C>(
    view: DriverView<C>,
    step: DecodeStep,
    raw: Option<[u8; 10]>,
)
    requires
        step is HeaderViolation || step is PayloadViolation,
        step matches DecodeStep::PayloadViolation { header, .. } ==> header.stream.value() < 128,
    ensures
        ({
            let report = driver::violation_report(view, step, raw);
            &&& report.context.generation == view.generation
            &&& raw matches Some(bytes) ==> report.context.header == bytes
            &&& match step {
                DecodeStep::HeaderViolation { header, kind } => {
                    &&& raw is None ==> report.context.header == header
                    &&& report.kind == InboundViolationKind::Header(kind)
                    &&& report.source is None
                    &&& driver::violation_of(step) == (InboundViolation::Header { header, kind })
                },
                DecodeStep::PayloadViolation { header, kind, source } => {
                    &&& raw is None ==> tells(report.context.header@, header)
                    &&& report.kind == InboundViolationKind::Payload(kind)
                    &&& report.source == Some(source)
                    &&& driver::violation_of(step) == (InboundViolation::Payload { header, kind })
                },
                _ => true,
            }
        }),
{
    if let DecodeStep::PayloadViolation { header, .. } = step {
        law_data_header_reads_back(header);
    }
}

/// A closing Driver takes no frame. In an open one, after due deadlines, a malformed
/// frame adds its report behind the others and the core hears of the violation; where
/// there is no room for the report the generation closes for backpressure.
pub proof fn law_malformed_frame_is_handled<C>(
    view: DriverView<C>,
    step: DecodeStep,
    raw: Option<[u8; 10]>,
    now: MonoTime,
    r: bool,
    after: DriverView<C>,
)
    requires
        step is HeaderViolation || step is PayloadViolation,
        driver::decode_step_handled(view, step, raw, now, r, after),
    ensures
        view.closing is Some ==> after == view && !r,
        exists|ready: DriverView<C>|
            {
                &&& #[trigger] model::deadlines_processed(view, now, ready)
                &&& r <==> ready.closing is None && ready.protocol_errors.len()
                    < ready.protocol_error_capacity
                &&& ready.closing is Some ==> after == ready
                &&& ready.closing is None && !r ==> model::shut_down(
                    ready,
                    GenerationCloseReason::ApplicationBackpressure,
                    None,
                    now,
                    after,
                )
                &&& r ==> exists|reported: DriverView<C>|
                    {
                        &&& reported.protocol_errors.len() == ready.protocol_errors.len() + 1
                        &&& reported.protocol_errors.drop_last() == ready.protocol_errors
                        &&& reported.protocol_errors.last() == driver::violation_report(
                            ready,
                            step,
                            raw,
                        )
                        &&& reported.history == ready.history
                        &&& #[trigger] model::answered(
                            reported,
                            CoreInput::Violation { violation: driver::violation_of(step), now },
                            false,
                            now,
                            after,
                        )
                    }
            },
{
    let ready = choose|ready: DriverView<C>|
        {
            &&& #[trigger] model::deadlines_processed(view, now, ready)
            &&& r == (ready.closing is None && ready.protocol_errors.len()
                < ready.protocol_error_capacity)
            &&& if ready.closing is Some {
                after == ready
            } else if ready.protocol_errors.len() >= ready.protocol_error_capacity {
                model::shut_down(
                    ready,
                    GenerationCloseReason::ApplicationBackpressure,
                    None,
                    now,
                    after,
                )
            } else {
                model::answered(
                    DriverView {
                        protocol_errors: ready.protocol_errors.push(
                            driver::violation_report(ready, step, raw),
                        ),
                        ..ready
                    },
                    CoreInput::Violation { violation: driver::violation_of(step), now },
                    false,
                    now,
                    after,
                )
            }
        };
    if r {
        let reported = DriverView {
            protocol_errors: ready.protocol_errors.push(
                driver::violation_report(ready, step, raw),
            ),
            ..ready
        };
        assert(reported.protocol_errors.drop_last() =~= ready.protocol_errors);
        assert(model::answered(
            reported,
            CoreInput::Violation { violation: driver::violation_of(step), now },
            false,
            now,
            after,
        ));
    }
    assert(model::deadlines_processed(view, now, ready));
}

/// A complete message reaches an open core as it was received, after due deadlines; a
/// closing Driver takes none, and an incomplete frame is a broken invariant.
pub proof fn law_message_reaches_the_core<C>(
    view: DriverView<C>,
    step: DecodeStep,
    raw: Option<[u8; 10]>,
    now: MonoTime,
    r: bool,
    after: DriverView<C>,
)
    requires
        driver::decode_step_handled(view, step, raw, now, r, after),
    ensures
        step matches DecodeStep::Message(message) ==> exists|ready: DriverView<C>|
            {
                &&& #[trigger] model::deadlines_processed(view, now, ready)
                &&& r <==> ready.closing is None
                &&& !r ==> after == ready
                &&& r ==> exists|middle: DriverView<C>|
                    {
                        &&& #[trigger] model::answered(
                            ready,
                            CoreInput::Message { message, now },
                            false,
                            now,
                            middle,
                        )
                        &&& middle.history.is_prefix_of(after.history)
                        &&& after == (DriverView { history: after.history, ..middle })
                    }
            },
        step is NeedMore ==> !r && exists|ready: DriverView<C>|
            {
                &&& #[trigger] model::deadlines_processed(view, now, ready)
                &&& ready.closing is Some ==> after == ready
                &&& ready.closing is None ==> model::shut_down(
                    ready,
                    GenerationCloseReason::RuntimeInvariant,
                    None,
                    now,
                    after,
                )
            },
{
    if let DecodeStep::Message(message) = step {
        let ready = choose|ready: DriverView<C>|
            {
                &&& #[trigger] model::deadlines_processed(view, now, ready)
                &&& r == ready.closing is None
                &&& !r ==> after == ready
                &&& r ==> exists|middle: DriverView<C>|
                    {
                        &&& #[trigger] model::answered(
                            ready,
                            CoreInput::Message { message, now },
                            false,
                            now,
                            middle,
                        )
                        &&& exists|notice: Option<ProtocolNotice>|
                            after == #[trigger] driver::notice_passed_on(middle, notice)
                    }
            };
        if r {
            let middle = choose|middle: DriverView<C>|
                {
                    &&& #[trigger] model::answered(
                        ready,
                        CoreInput::Message { message, now },
                        false,
                        now,
                        middle,
                    )
                    &&& exists|notice: Option<ProtocolNotice>|
                        after == #[trigger] driver::notice_passed_on(middle, notice)
                };
            let notice = choose|notice: Option<ProtocolNotice>|
                after == #[trigger] driver::notice_passed_on(middle, notice);
            assert(after == driver::notice_passed_on(middle, notice));
            assert(model::answered(
                ready,
                CoreInput::Message { message, now },
                false,
                now,
                middle,
            ));
        }
        assert(model::deadlines_processed(view, now, ready));
    }
}

/// What the core noticed while it handled a message is published, that and nothing
/// else, and nothing is published where it noticed nothing.
pub proof fn law_notice_is_published<C>(view: DriverView<C>, notice: Option<ProtocolNotice>)
    ensures
        ({
            let after = driver::notice_passed_on(view, notice);
            &&& after == (DriverView { history: after.history, ..view })
            &&& after.history[view.history.len() as int] == PortEvent::<C>::NoticeTaken(notice)
            &&& notice is None ==> after.history.len() == view.history.len() + 1
            &&& notice matches Some(seen) ==> after.history.len() == view.history.len() + 2
                && after.history.last() == PortEvent::<C>::Noticed(seen)
        }),
{
}

/// A graceful drain is over exactly when nothing is queued, the core owns no command
/// and no capability, and no frame is outstanding.
pub proof fn law_drain_waits_for_everything<C>(
    view: DriverView<C>,
    open_commands: usize,
    reply_capabilities: usize,
)
    ensures
        model::drain_complete(view, open_commands, reply_capabilities) <==> {
            &&& view.queue.len() == 0
            &&& open_commands == 0
            &&& reply_capabilities == 0
            &&& forall|id: u64| !(#[trigger] view.admitted.contains_key(id))
        },
{
    if forall|id: u64| !(#[trigger] view.admitted.contains_key(id)) {
        assert(view.admitted =~= Map::<u64, WireSequence>::empty());
    }
}

/// A new Driver of an endpoint has done nothing, is open, and has exactly the
/// endpoint's capacities.
pub proof fn law_new_driver_takes_the_configured_capacities<C>(
    generation: ConnectionGeneration,
    owner: u64,
    config: EndpointConfig,
)
    ensures
        ({
            let view = driver::initial::<C>(generation, owner, driver::configured_limits(config));
            &&& view.generation == generation && view.owner == owner
            &&& view.command_capacity == config.limits.command_capacity
            &&& view.command_byte_capacity == config.limits.command_bytes
            &&& view.inbound_capacity == config.limits.application_event_capacity
            &&& view.protocol_error_capacity == config.limits.protocol_error_capacity
            &&& view.maximum_message_length == config.limits.max_message_length
            &&& view.queue.len() == 0 && view.pending.len() == 0 && view.inbound.len() == 0
            &&& view.protocol_errors.len() == 0 && view.history.len() == 0 && view.command_bytes
                == 0
            &&& view.closing is None && !view.transport_closed && !view.shutdown_draining
            &&& view.next_command_id == Some(0u64)
            &&& forall|id: u64| !(#[trigger] view.admitted.contains_key(id))
        }),
{
}

/// Due deadlines come before a command. An open Driver then drives the oldest accepted
/// command, if there is one, and a closing one drives none. Only an answer to the peer
/// asks the core whether it takes any.
pub proof fn law_oldest_command_is_driven<C>(
    view: DriverView<C>,
    now: MonoTime,
    r: bool,
    after: DriverView<C>,
)
    requires
        driver::command_driven(view, now, r, after),
    ensures
        view.closing is Some ==> !r && after == view,
        exists|ready: DriverView<C>|
            {
                &&& #[trigger] model::deadlines_processed(view, now, ready)
                &&& r <==> ready.closing is None && ready.queue.len() > 0
                &&& !r ==> after == ready
                &&& r ==> exists|blocked: bool, asked: DriverView<C>|
                    {
                        &&& #[trigger] model::executed(
                            asked,
                            ready.queue[0],
                            blocked,
                            now,
                            after,
                        )
                        &&& asked.queue == ready.queue.skip(1)
                        &&& asked.pending == ready.pending
                        &&& asked.history == if ready.queue[0].kind matches
                            AcceptedCommandKind::Reply { intent, .. } && !(intent is Abandon) {
                            ready.history.push(PortEvent::RepliesAsked(blocked))
                        } else {
                            ready.history
                        }
                    }
            },
{
    let ready = choose|ready: DriverView<C>|
        {
            &&& #[trigger] model::deadlines_processed(view, now, ready)
            &&& r == (ready.closing is None && ready.queue.len() > 0)
            &&& !r ==> after == ready
            &&& r ==> exists|blocked: bool| #[trigger]
                model::executed(
                    model::dequeued(model::blocking_asked(ready, ready.queue[0], blocked)),
                    ready.queue[0],
                    blocked,
                    now,
                    after,
                )
        };
    if r {
        let blocked = choose|blocked: bool| #[trigger]
            model::executed(
                model::dequeued(model::blocking_asked(ready, ready.queue[0], blocked)),
                ready.queue[0],
                blocked,
                now,
                after,
            );
        let asked = model::dequeued(model::blocking_asked(ready, ready.queue[0], blocked));
        assert(asked.queue =~= ready.queue.skip(1));
        assert(model::executed(asked, ready.queue[0], blocked, now, after));
    }
    assert(model::deadlines_processed(view, now, ready));
}

/// A command that enters the core is heard by it first of all, under the identity that
/// it waits for. Without an identity left the command is given back as lost and the
/// generation closes for a broken invariant.
pub proof fn law_entering_command_is_heard<C>(
    view: DriverView<C>,
    permit: bool,
    now: MonoTime,
    after: DriverView<C>,
)
    requires
        model::well_formed(view),
        view.queue.len() > 0,
        model::entered(model::dequeued(view), view.queue[0], permit, now, after),
    ensures
        view.next_command_id matches Some(value) ==> {
            &&& after.history.len() > view.history.len()
            &&& after.history[view.history.len() as int] matches PortEvent::CoreCalled {
                input,
                ..
            } && input == model::command_input(CommandId { value }, view.queue[0].kind, now)
        },
        view.next_command_id is None ==> exists|release: Result<(), DataPermitError>| #[trigger]
            model::shut_down(
                model::given_back(
                    model::released(model::dequeued(view), permit, release),
                    view.queue[0],
                    OperationError::ConnectionLost,
                ),
                GenerationCloseReason::RuntimeInvariant,
                None,
                now,
                after,
            ),
{
    if let Some(value) = view.next_command_id {
        laws::lemma_entering(view, value);
        let entering = model::entering(model::dequeued(view), view.queue[0], value);
        law_core_hears_the_input(
            entering,
            model::command_input(CommandId { value }, view.queue[0].kind, now),
            permit,
            now,
            after,
        );
    }
}

/// A reservation is given back exactly where there is one.
pub proof fn law_only_reservations_are_given_back<C>(
    view: DriverView<C>,
    permit: bool,
    answer: Result<(), DataPermitError>,
)
    ensures
        !permit ==> model::released(view, permit, answer) == view,
        permit ==> model::released(view, permit, answer) == (DriverView {
            history: view.history.push(PortEvent::Released { answer }),
            ..view
        }),
{
}

/// A refused answer comes back whole and changes nothing; an accepted one goes behind all
/// others with its own charge.
pub proof fn law_answer_is_taken_or_comes_back<C>(
    view: DriverView<C>,
    intent: ReplyIntent,
    token: ReplyToken,
    body: Option<SecsItem>,
    completion: C,
    blocked: bool,
    r: Result<(), (C, DriverCommandResult)>,
    after: DriverView<C>,
)
    requires
        driver::reply_accepted(view, intent, token, body, completion, blocked, r, after),
    ensures
        r is Err ==> {
            &&& after == view
            &&& r->Err_0.0 == completion
            &&& r->Err_0.1 matches DriverCommandResult::ReplyRejected {
                intent: kind,
                token: back,
                body: text,
                error,
            } && kind == intent && back == token && text == body && Some(error)
                == driver::reply_refusal(view, intent, token, body, blocked)
        },
        r is Ok ==> {
            &&& driver::reply_refusal(view, intent, token, body, blocked) is None
            &&& after.queue.len() == view.queue.len() + 1
            &&& after.queue.last().kind == (AcceptedCommandKind::Reply { intent, token, body })
            &&& after.queue.last().completion == completion
            &&& after.queue.last().byte_charge == 14 + match body {
                Some(item) => item.encoded@.len(),
                None => 0,
            }
            &&& after.pending == view.pending && after.history == view.history
        },
{
    law_charge_is_the_frame_length(view, body);
}

/// A batch has its effect, and where it fails the session ends for the given reason, or
/// else for that of the failure.
pub proof fn law_failed_batch_ends_the_session<C>(
    view: DriverView<C>,
    permit: bool,
    actions: Seq<CoreAction>,
    first_reason: Option<GenerationCloseReason>,
    now: MonoTime,
    after: DriverView<C>,
)
    requires
        model::absorbed(view, permit, actions, first_reason, now, after),
    ensures
        exists|middle: DriverView<C>, failure: Option<ActionApplicationFailure>|
            {
                &&& #[trigger] model::batch(view, permit, actions, middle, failure)
                &&& failure is None ==> after == middle
                &&& failure is Some && first_reason is Some ==> model::failed_over(
                    middle,
                    first_reason->0,
                    model::failure_report(failure->0).1,
                    now,
                    after,
                )
                &&& failure is Some && first_reason is None ==> model::failed_over(
                    middle,
                    model::failure_report(failure->0).0,
                    model::failure_report(failure->0).1,
                    now,
                    after,
                )
            },
{
}

/// When the Writer is gone the core is told to settle every write, no write is
/// outstanding, the transport is closed and nothing waits to be driven. A generation that
/// was open closes first, for a broken invariant.
pub proof fn law_writer_end_settles_everything<C>(
    view: DriverView<C>,
    now: MonoTime,
    after: DriverView<C>,
)
    requires
        model::well_formed(view),
        model::calm(view),
        driver::writer_finalized(view, now, after),
    ensures
        forall|id: u64| !(#[trigger] after.admitted.contains_key(id)),
        after.transport_closed,
        after.queue.len() == 0,
        after.closing matches Some(state) && state.barrier_write_id is None,
        view.closing matches Some(before) ==> {
            &&& after.closing->0.reason == before.reason
            &&& after.history.len() > view.history.len()
            &&& after.history[view.history.len() as int] matches PortEvent::CoreCalled {
                input,
                ..
            } && input == (CoreInput::FinalizeWriter { now })
        },
        view.closing is None ==> after.history.len() > view.history.len() && (
        after.history[view.history.len() as int] matches PortEvent::CoreCalled { input, .. }
            && input == (CoreInput::Shutdown {
            reason: GenerationCloseReason::RuntimeInvariant,
            failed_write_id: None,
            now,
        })),
{
    driver::lemma_writer_finalized(view, now, after);
    let (closed, actions, middle, finished) = choose|
        closed: DriverView<C>,
        actions: Seq<CoreAction>,
        middle: DriverView<C>,
        finished: DriverView<C>,
    |
        {
            &&& #[trigger] driver::closed_first(view, now, closed)
            &&& #[trigger] model::absorbed(
                closed.asked(CoreInput::FinalizeWriter { now }, actions),
                false,
                actions,
                None,
                now,
                middle,
            )
            &&& #[trigger] model::finished(model::writer_gone(middle), finished)
            &&& model::drains(finished, after)
        };
    let input = CoreInput::FinalizeWriter { now };
    let at = view.history.len() as int;
    if view.closing is None {
        law_shutdown_tells_the_core(
            view,
            GenerationCloseReason::RuntimeInvariant,
            None,
            now,
            closed,
        );
        laws::lemma_shut_down(view, GenerationCloseReason::RuntimeInvariant, None, now, closed);
    }
    laws::lemma_logged(closed, PortEvent::CoreCalled { input, actions });
    let asked = closed.asked(input, actions);
    laws::lemma_absorbed(asked, false, actions, None, now, middle);
    laws::lemma_writer_gone(middle);
    laws::lemma_finished(model::writer_gone(middle), finished);
    laws::lemma_finished_keeps_admitted(model::writer_gone(middle), finished);
    assert(asked.history[at] == middle.history[at]);
    assert(middle.history[at] == finished.history[at]);
    let owned = choose|owned: Seq<bool>|
        owned.len() == finished.pending.len() && after == #[trigger] model::drained(
            model::surveyed(finished, owned),
            owned,
        );
    assert(finished.history[at] == after.history[at]);
}

/// A commit is presented after due deadlines, any other outcome at once; either way the
/// core hears of exactly that outcome, and the frame is settled.
pub proof fn law_commit_waits_for_deadlines<C>(
    view: DriverView<C>,
    write_id: WriteId,
    outcome: WriteOutcome,
    occurred_at: MonoTime,
    now: MonoTime,
    after: DriverView<C>,
)
    requires
        driver::outcome_presented(view, write_id, outcome, occurred_at, now, after),
    ensures
        exists|ready: DriverView<C>, actions: Seq<CoreAction>, middle: DriverView<C>|
            {
                &&& outcome is Committed ==> model::deadlines_processed(view, now, ready)
                &&& !(outcome is Committed) ==> ready == view
                &&& #[trigger] model::absorbed(
                    ready.asked(
                        CoreInput::WriteOutcome { write_id, outcome, occurred_at, now },
                        actions,
                    ),
                    false,
                    actions,
                    None,
                    now,
                    middle,
                )
                &&& #[trigger] model::finished(model::write_settled(middle, write_id), after)
            },
{
    let (ready, actions, middle) = choose|
        ready: DriverView<C>,
        actions: Seq<CoreAction>,
        middle: DriverView<C>,
    |
        {
            &&& #[trigger] driver::outcome_ready(view, outcome, now, ready)
            &&& #[trigger] model::absorbed(
                ready.asked(
                    CoreInput::WriteOutcome { write_id, outcome, occurred_at, now },
                    actions,
                ),
                false,
                actions,
                None,
                now,
                middle,
            )
            &&& model::finished(model::write_settled(middle, write_id), after)
        };
    assert(model::absorbed(
        ready.asked(CoreInput::WriteOutcome { write_id, outcome, occurred_at, now }, actions),
        false,
        actions,
        None,
        now,
        middle,
    ));
    assert(model::finished(model::write_settled(middle, write_id), after));
}

/// An open core is asked for its deadline before ordinary input, and the one that it
/// names is processed; a closing Driver asks nothing.
pub proof fn law_core_is_asked_for_its_deadline<C>(
    view: DriverView<C>,
    now: MonoTime,
    after: DriverView<C>,
)
    requires
        model::deadlines_processed(view, now, after),
    ensures
        view.closing is Some ==> after == view,
        view.closing is None ==> exists|deadline: Option<MonoTime>, asked: DriverView<C>|
            {
                &&& asked.history == view.history.push(PortEvent::DeadlineAsked(deadline))
                &&& asked == (DriverView { history: asked.history, ..view })
                &&& #[trigger] model::deadline_processed(asked, deadline, now, after)
            },
{
    if view.closing is None {
        let deadline = choose|deadline: Option<MonoTime>| #[trigger]
            model::deadline_processed(
                view.logged(PortEvent::DeadlineAsked(deadline)),
                deadline,
                now,
                after,
            );
        let asked = view.logged(PortEvent::DeadlineAsked(deadline));
        assert(model::deadline_processed(asked, deadline, now, after));
    }
}

/// A batch without a failure executed all of its actions, one answer for each.
pub proof fn law_batch_executes_every_action<C>(
    view: DriverView<C>,
    permit: bool,
    actions: Seq<CoreAction>,
    after: DriverView<C>,
    failure: Option<ActionApplicationFailure>,
)
    requires
        model::batch(view, permit, actions, after, failure),
    ensures
        exists|answers: Seq<Answer>, release: Result<(), DataPermitError>|
            {
                let progress = model::run(view, permit, actions, answers);
                &&& answers.len() <= actions.len()
                &&& progress.failure is None ==> answers.len() == actions.len()
                &&& (after, failure) == #[trigger] model::settled_permit(
                    model::run(view, permit, actions, answers),
                    release,
                )
            },
{
    let (answers, release) = choose|answers: Seq<Answer>, release: Result<(), DataPermitError>|
        model::batch_by(view, permit, actions, answers, release, after, failure);
    let progress = model::run(view, permit, actions, answers);
    assert((after, failure) == model::settled_permit(progress, release));
}

/// Before pending commands are given up the core is asked about each of them, by its
/// identity and in order.
pub proof fn law_core_is_asked_about_every_command<C>(
    view: DriverView<C>,
    owned: Seq<bool>,
    i: int,
)
    requires
        0 <= i < view.pending.len(),
    ensures
        ({
            let after = model::surveyed(view, owned);
            &&& after.history.len() == view.history.len() + 1
            &&& after.history.last() matches PortEvent::OwnershipAsked { commands, owned: answers }
                && answers == owned && commands.len() == view.pending.len() && commands[i]
                == view.pending[i].command_id
            &&& after.pending == view.pending && after.queue == view.queue
        }),
{
}

/// A drain stops new commands and nothing else.
pub proof fn law_draining_only_stops_admission<C>(view: DriverView<C>)
    ensures
        model::draining(view).shutdown_draining,
        model::draining(view) == (DriverView { shutdown_draining: true, ..view }),
{
}

} // verus!
