//! What the rounds of a generation promise, said in terms of reasons, deadlines and
//! facts of the transport.

use crate::config::{ConnectionMode, EndpointConfig};
use crate::generation::driver::command::AcceptedCommandKind;
use crate::generation::driver::driver;
use crate::generation::driver::effects;
use crate::generation::driver::laws;
use crate::generation::driver::model;
use crate::generation::driver::model::{CoreInput, DriverView, PortEvent};
use crate::generation::runtime;
use crate::generation::runtime::{
    CloseDeadlines, RoundChoice, RoundInput, RuntimeCompletion, RuntimeView, SessionExit,
    ShutdownDrain, ShutdownPolicy,
};
use crate::generation::transport::bounded_writer::WriterReport;
use crate::generation::transport::io::ReadFailure;
use crate::generation::transport::tasks::{CleanupResult, IoEvent, ReaderEnd};
use crate::api::ControlIntent;
use crate::model::runtime::{CommunicationsTimeoutKind, GenerationCloseReason, MonoTime};
use tokio::time::Instant;
use vstd::prelude::*;

verus! {

/// The end of the Reader has its close reason: a missed T8 is a communications timeout,
/// a bad length prefix a protocol violation, a crash and a deadline beyond the clock a
/// broken invariant, and everything else a lost transport. The Writer's end is a lost
/// transport where it was regular, and a broken invariant otherwise.
pub proof fn law_task_ends_have_their_reasons(end: ReaderEnd, regular: bool)
    ensures
        ({
            let reason = runtime::reader_reason(end);
            &&& reason == GenerationCloseReason::CommunicationsTimeout(
                CommunicationsTimeoutKind::T8,
            ) <==> end == ReaderEnd::Failed(ReadFailure::IntercharacterTimeout)
            &&& reason == GenerationCloseReason::ProtocolViolation <==> (end matches
                ReaderEnd::Failed(failure) && failure is Framing)
            &&& reason == GenerationCloseReason::RuntimeInvariant <==> end is Crashed || end
                == ReaderEnd::Failed(ReadFailure::DeadlineOverflow)
            &&& reason == GenerationCloseReason::TransportLost <==> end is Finished || (end matches
                ReaderEnd::Failed(failure) && (failure is EndOfStream || failure is Transport))
        }),
        runtime::writer_reason(regular) == GenerationCloseReason::TransportLost <==> regular,
        runtime::writer_reason(regular) == GenerationCloseReason::RuntimeInvariant <==> !regular,
{
}

/// The time budget of closing comes from the configuration, each part from its own
/// entry.
pub proof fn law_closing_takes_the_configured_times(config: EndpointConfig)
    ensures
        runtime::configured_policy(config).drain == config.runtime.drain,
        runtime::configured_policy(config).shutdown == config.runtime.shutdown,
        runtime::configured_policy(config).cleanup == config.runtime.cleanup,
{
}

/// A new generation tells its core of the connection at time zero, before anything
/// else. One that selects by itself then has exactly one command, a Select that nobody
/// waits for, unless it could not be accepted; any other has none.
pub proof fn law_generation_starts_connected<C>(
    driver: DriverView<RuntimeCompletion<C>>,
    selects: bool,
    after: DriverView<RuntimeCompletion<C>>,
)
    requires
        model::well_formed(driver),
        driver.closing is None,
        driver.queue.len() == 0,
        runtime::started(driver, selects, after),
    ensures
        exists|connected: DriverView<RuntimeCompletion<C>>|
            {
                let refused = connected.closing is Some || connected.shutdown_draining
                    || connected.queue.len() >= connected.command_capacity;
                &&& #[trigger] runtime::connects(driver, connected)
                &&& connected.history.len() > driver.history.len()
                &&& connected.history[driver.history.len() as int] matches PortEvent::CoreCalled {
                    input: CoreInput::Connected { now },
                    ..
                } && now.nanos == 0
                &&& !selects ==> after == connected
                &&& selects && !refused ==> {
                    &&& after.queue.len() == connected.queue.len() + 1
                    &&& after.queue.last().kind == AcceptedCommandKind::Control(
                        ControlIntent::Select,
                    )
                    &&& after.queue.last().completion is Internal
                }
                &&& selects && refused ==> after.transport_closed
            },
{
    let connected = choose|connected: DriverView<RuntimeCompletion<C>>|
        {
            &&& #[trigger] runtime::connects(driver, connected)
            &&& if !selects {
                after == connected
            } else if driver::control_refusal(connected) is Some {
                model::shut_down(
                    connected,
                    GenerationCloseReason::RuntimeInvariant,
                    None,
                    MonoTime { nanos: 0 },
                    after,
                )
            } else {
                after == model::accepted(
                    connected,
                    AcceptedCommandKind::Control(ControlIntent::Select),
                    RuntimeCompletion::Internal,
                    0,
                )
            }
        };
    let now = MonoTime { nanos: 0 };
    effects::law_core_hears_the_input(driver, CoreInput::Connected { now }, false, now, connected);
    laws::lemma_answered(driver, CoreInput::Connected { now }, false, now, connected);
    if selects && driver::control_refusal(connected) is Some {
        laws::lemma_shut_down(connected, GenerationCloseReason::RuntimeInvariant, None, now, after);
    }
    assert(runtime::connects(driver, connected));
}

/// A graceful close ends admission at once and keeps what was accepted. It remembers
/// its reason, ends draining at the earlier of its two deadlines and itself at the
/// later stage's own; without both deadlines it closes at once for a broken invariant;
/// and a generation that closes already is left alone.
pub proof fn law_graceful_close_begins<C>(
    view: RuntimeView<C>,
    reason: GenerationCloseReason,
    deadlines: CloseDeadlines,
    now: MonoTime,
    after: RuntimeView<C>,
)
    requires
        model::well_formed(view.driver),
        runtime::gracefully_closing(view, reason, deadlines, now, after),
    ensures
        view.shutdown is Some || view.driver.closing is Some ==> after == view,
        view.shutdown is None && view.driver.closing is None && deadlines.drain is Some
            && deadlines.shutdown is Some ==> {
            &&& after.driver.shutdown_draining
            &&& after.driver.queue == view.driver.queue
            &&& after.driver.pending == view.driver.pending
            &&& after.driver.closing is None
            &&& after.shutdown matches Some(drain) && drain.reason == reason && !drain.finalizing
                && Some(drain.shutdown_deadline) == deadlines.shutdown
                && drain.drain_deadline.nanos <= drain.shutdown_deadline.nanos
                && drain.drain_deadline.nanos <= deadlines.drain->0.nanos && (Some(
                drain.drain_deadline,
            ) == deadlines.drain || Some(drain.drain_deadline) == deadlines.shutdown)
        },
        view.shutdown is None && view.driver.closing is None && (deadlines.drain is None
            || deadlines.shutdown is None) ==> {
            &&& after.shutdown is None
            &&& after.driver.transport_closed
            &&& after.driver.history.len() > view.driver.history.len()
            &&& after.driver.history[view.driver.history.len() as int] matches
                PortEvent::CoreCalled { input, .. } && input == (CoreInput::Shutdown {
                reason: GenerationCloseReason::RuntimeInvariant,
                failed_write_id: None,
                now,
            })
        },
        after.policy == view.policy,
        after.prefer_command == view.prefer_command,
{
    if view.shutdown is None && view.driver.closing is None && (deadlines.drain is None
        || deadlines.shutdown is None) {
        effects::law_shutdown_tells_the_core(
            model::draining(view.driver),
            GenerationCloseReason::RuntimeInvariant,
            None,
            now,
            after.driver,
        );
    }
}

/// At its own deadline a graceful close ends at once, for its own reason. Before that
/// it leaves draining, once, at the drain deadline or when nothing is left to wait for,
/// and the core is asked to end the session for that reason. Otherwise it waits.
pub proof fn law_graceful_close_moves_on<C>(
    view: RuntimeView<C>,
    drain: ShutdownDrain,
    drained: bool,
    now: MonoTime,
    after: RuntimeView<C>,
)
    requires
        model::well_formed(view.driver),
        view.shutdown == Some(drain),
        runtime::shutdown_advanced(view, drained, now, after),
    ensures
        ({
            let over = now.nanos >= drain.shutdown_deadline.nanos;
            let leaves = !over && !drain.finalizing && (now.nanos >= drain.drain_deadline.nanos
                || drained);
            &&& over ==> {
                &&& after.driver.transport_closed
                &&& after.driver.history.len() > view.driver.history.len()
                &&& after.driver.history[view.driver.history.len() as int] matches
                    PortEvent::CoreCalled { input, .. } && input == (CoreInput::Shutdown {
                    reason: drain.reason,
                    failed_write_id: None,
                    now,
                })
                &&& after.shutdown == view.shutdown
            }
            &&& leaves ==> {
                &&& after.shutdown matches Some(later) && later.finalizing && later.reason
                    == drain.reason && later.drain_deadline == drain.drain_deadline
                    && later.shutdown_deadline == drain.shutdown_deadline
                &&& after.driver.history.len() > view.driver.history.len()
                &&& after.driver.history[view.driver.history.len() as int] matches
                    PortEvent::CoreCalled { input, .. } && input == (CoreInput::FinishDrain {
                    reason: drain.reason,
                    now,
                })
            }
            &&& !over && !leaves ==> after == view
        }),
        view.shutdown is None ==> after == view,
{
    if now.nanos >= drain.shutdown_deadline.nanos {
        effects::law_shutdown_tells_the_core(view.driver, drain.reason, None, now, after.driver);
    } else if !drain.finalizing && (now.nanos >= drain.drain_deadline.nanos || drained) {
        law_drain_end_reaches_the_core(view.driver, drain.reason, now, after.driver);
    }
}

/// The core is told to end a drained session, for the reason of the drain.
pub proof fn law_drain_end_reaches_the_core<C>(
    view: DriverView<C>,
    reason: GenerationCloseReason,
    now: MonoTime,
    after: DriverView<C>,
)
    requires
        model::well_formed(view),
        driver::drain_finished(view, reason, now, after),
    ensures
        after.history.len() > view.history.len(),
        after.history[view.history.len() as int] matches PortEvent::CoreCalled { input, .. }
            && input == (CoreInput::FinishDrain { reason, now }),
        view.closing matches Some(before) ==> after.closing matches Some(later) && later.reason
            == before.reason,
{
    let input = CoreInput::FinishDrain { reason, now };
    let gated = model::draining(view);
    let (actions, middle) = choose|
        actions: Seq<crate::generation::driver::ports::CoreAction>,
        middle: DriverView<C>,
    |
        {
            &&& #[trigger] model::absorbed(
                gated.asked(input, actions),
                false,
                actions,
                Some(reason),
                now,
                middle,
            )
            &&& model::finished(middle, after)
        };
    laws::lemma_logged(gated, PortEvent::CoreCalled { input, actions });
    laws::lemma_absorbed(gated.asked(input, actions), false, actions, Some(reason), now, middle);
    laws::lemma_finished(middle, after);
    let asked = gated.asked(input, actions);
    assert(asked.history[view.history.len() as int] == middle.history[view.history.len() as int]);
    assert(middle.history[view.history.len() as int] == after.history[view.history.len() as int]);
}

/// A drain is only asked about where the answer matters: while it has not ended and
/// neither of its deadlines has come.
pub proof fn law_drain_is_asked_about_in_time(drain: ShutdownDrain, now: MonoTime)
    ensures
        runtime::drain_waits(Some(drain), now) <==> !drain.finalizing && now.nanos
            < drain.drain_deadline.nanos && now.nanos < drain.shutdown_deadline.nanos,
        !runtime::drain_waits(None, now),
{
}

/// A write report that matches an outstanding admission settles that frame with its own
/// outcome; any other one is a broken invariant.
pub proof fn law_write_report_must_match<C>(
    view: DriverView<C>,
    report: WriterReport,
    now: MonoTime,
    after: DriverView<C>,
)
    requires
        model::well_formed(view),
        runtime::write_applied(view, report, now, after),
    ensures
        ({
            let matching = view.admitted.contains_key(report.write_id.value)
                && view.admitted[report.write_id.value] == report.sequence;
            &&& matching ==> driver::outcome_presented(
                view,
                report.write_id,
                report.outcome,
                report.occurred_at,
                now,
                after,
            )
            &&& !matching ==> after.transport_closed && after.history.len() > view.history.len() && (
            after.history[view.history.len() as int] matches PortEvent::CoreCalled { input, .. }
                && input == (CoreInput::Shutdown {
                reason: GenerationCloseReason::RuntimeInvariant,
                failed_write_id: None,
                now,
            }))
        }),
{
    if !(view.admitted.contains_key(report.write_id.value)
        && view.admitted[report.write_id.value] == report.sequence) {
        effects::law_shutdown_tells_the_core(
            view,
            GenerationCloseReason::RuntimeInvariant,
            None,
            now,
            after,
        );
    }
}

/// A frame from the future, and the loss of both tasks, are broken invariants; a frame
/// is otherwise decoded with the header that was received; and the end of the Reader
/// closes for its reason.
pub proof fn law_transport_facts_reach_the_driver<C>(
    view: DriverView<C>,
    event: Option<IoEvent>,
    now: MonoTime,
    after: DriverView<C>,
)
    requires
        model::well_formed(view),
        runtime::io_applied(view, event, now, after),
    ensures
        ({
            let shut = |reason: GenerationCloseReason|
                after.transport_closed && after.history.len() > view.history.len() && (
                after.history[view.history.len() as int] matches PortEvent::CoreCalled {
                    input,
                    ..
                } && input == (CoreInput::Shutdown { reason, failed_write_id: None, now }));
            match event {
                None => shut(GenerationCloseReason::RuntimeInvariant),
                Some(IoEvent::Read(report)) => {
                    &&& report.frame.occurred_at.nanos > now.nanos ==> shut(
                        GenerationCloseReason::RuntimeInvariant,
                    )
                    &&& report.frame.occurred_at.nanos <= now.nanos ==> exists|handled: bool|
                        #[trigger]
                        driver::decode_step_handled(
                            view,
                            report.frame.decoded,
                            Some(report.frame.header),
                            now,
                            handled,
                            after,
                        )
                },
                Some(IoEvent::Write(report)) => runtime::write_applied(view, report, now, after),
                Some(IoEvent::ReaderStopped(end)) => shut(runtime::reader_reason(end)),
                Some(IoEvent::WriterStopped(regular)) => exists|closed: DriverView<C>|
                    {
                        &&& #[trigger] model::shut_down(
                            view,
                            runtime::writer_reason(regular),
                            None,
                            now,
                            closed,
                        )
                        &&& driver::writer_finalized(closed, now, after)
                    },
            }
        }),
{
    match event {
        None => effects::law_shutdown_tells_the_core(
            view,
            GenerationCloseReason::RuntimeInvariant,
            None,
            now,
            after,
        ),
        Some(IoEvent::Read(report)) => {
            if report.frame.occurred_at.nanos > now.nanos {
                effects::law_shutdown_tells_the_core(
                    view,
                    GenerationCloseReason::RuntimeInvariant,
                    None,
                    now,
                    after,
                );
            }
        },
        Some(IoEvent::ReaderStopped(end)) => effects::law_shutdown_tells_the_core(
            view,
            runtime::reader_reason(end),
            None,
            now,
            after,
        ),
        _ => {},
    }
}

/// What the application can take bounds the deliveries of a round: primaries and errors,
/// each by its own number. Where that is not known the bounds stay.
pub proof fn law_rounds_are_sized<C>(view: RuntimeView<C>, capacity: Option<(usize, usize)>)
    ensures
        ({
            let after = runtime::sized(view, capacity);
            &&& capacity is None ==> after == view
            &&& capacity matches Some((primaries, errors)) ==> {
                &&& after.driver.inbound_capacity == primaries
                &&& after.driver.protocol_error_capacity == errors
                &&& after.driver == (DriverView {
                    inbound_capacity: primaries,
                    protocol_error_capacity: errors,
                    ..view.driver
                })
                &&& after.shutdown == view.shutdown && after.policy == view.policy
                    && after.prefer_command == view.prefer_command
            }
        }),
{
}

/// After transport work a waiting command goes first, and after a command it does not;
/// time and the end of a drain do not change whose turn it is. A round of transport
/// work and one of a command leave a graceful close as it is.
pub proof fn law_turns_change_with_the_round<C>(
    view: RuntimeView<C>,
    event: Option<IoEvent>,
    now: MonoTime,
    after: RuntimeView<C>,
)
    ensures
        runtime::round_applied(view, RoundInput::Io(event), now, after) ==> after.prefer_command
            && after.shutdown == view.shutdown && runtime::io_applied(
            view.driver,
            event,
            now,
            after.driver,
        ),
        runtime::round_applied(view, RoundInput::Command, now, after) ==> !after.prefer_command
            && after.shutdown == view.shutdown && exists|driven: bool| #[trigger]
            driver::command_driven(view.driver, now, driven, after.driver),
        runtime::round_applied(view, RoundInput::Shutdown, now, after) ==> after.prefer_command
            == view.prefer_command,
        runtime::round_applied(view, RoundInput::Timer, now, after) ==> after.prefer_command
            == view.prefer_command,
{
}

/// A timer round lets time advance in an open core and leaves a closing one alone.
pub proof fn law_time_reaches_an_open_core<C>(
    view: DriverView<C>,
    now: MonoTime,
    after: DriverView<C>,
)
    requires
        model::well_formed(view),
        runtime::time_advanced(view, now, after),
    ensures
        view.closing is Some ==> after == view,
        view.closing is None ==> after.history.len() > view.history.len() && (
        after.history[view.history.len() as int] matches PortEvent::CoreCalled { input, .. }
            && input == (CoreInput::AdvanceTime { now })),
{
    if view.closing is None {
        effects::law_core_hears_the_input(view, CoreInput::AdvanceTime { now }, false, now, after);
    }
}

/// The next deadline is the earliest of the core's and that of a graceful close, which
/// is the drain's until the drain has ended and the whole close's afterwards.
pub proof fn law_next_deadline_is_the_earliest<C>(view: RuntimeView<C>, core: Option<MonoTime>)
    ensures
        ({
            let next = runtime::deadline_of(view, core);
            let own = match view.shutdown {
                Some(drain) => Some(
                    if drain.finalizing {
                        drain.shutdown_deadline
                    } else {
                        drain.drain_deadline
                    },
                ),
                None => None,
            };
            &&& next is None <==> core is None && own is None
            &&& next is Some ==> next == core || next == own
            &&& next is Some && core is Some ==> next->0.nanos <= core->0.nanos
            &&& next is Some && own is Some ==> next->0.nanos <= own->0.nanos
        }),
{
}

/// A passed deadline goes before everything, a finished drain before a command, and a
/// command before the transport only where it is its turn; without a fact of the
/// transport a waiting command goes next, and without one the generation waits.
pub proof fn law_round_order<C>(
    view: RuntimeView<C>,
    due: bool,
    drained: bool,
    event: Option<Option<IoEvent>>,
)
    ensures
        ({
            let choice = runtime::choice_of(view, due, drained);
            let leaving = drained && (view.shutdown matches Some(drain) && !drain.finalizing);
            let turn = view.prefer_command && view.driver.queue.len() > 0;
            &&& due ==> choice == RoundChoice::Ready(RoundInput::Timer)
            &&& !due && leaving ==> choice == RoundChoice::Ready(RoundInput::Shutdown)
            &&& !due && !leaving && turn ==> choice == RoundChoice::Ready(RoundInput::Command)
            &&& !due && !leaving && !turn ==> choice == RoundChoice::PollIo
        }),
        event matches Some(fact) ==> runtime::choice_after_io(view, event) == RoundChoice::Ready(
            RoundInput::Io(fact),
        ),
        event is None && view.driver.queue.len() > 0 ==> runtime::choice_after_io(view, event)
            == RoundChoice::Ready(RoundInput::Command),
        event is None && view.driver.queue.len() == 0 ==> runtime::choice_after_io(view, event)
            == RoundChoice::Wait,
{
}

/// The exit names the generation, the cleanup and the first close reason; a generation
/// that never closed reports the given one. A joined Writer settles every write, and
/// without a joined Writer nothing changes.
pub proof fn law_exit_reports_the_first_reason<C>(
    view: RuntimeView<C>,
    reason: GenerationCloseReason,
    joined: bool,
    cleanup: CleanupResult,
    now: MonoTime,
    after: RuntimeView<C>,
    exit: SessionExit,
)
    requires
        view.valid(),
        runtime::close_finished(view, reason, joined, cleanup, now, after, exit),
    ensures
        exit.generation == view.driver.generation,
        exit.cleanup == cleanup,
        view.driver.closing matches Some(state) ==> exit.reason == state.reason,
        !joined ==> after == view,
        !joined && view.driver.closing is None ==> exit.reason == reason,
        joined ==> after.driver.transport_closed,
        after.shutdown == view.shutdown,
{
    if joined {
        driver::lemma_writer_finalized(view.driver, now, after.driver);
    }
}

/// The last cleanup is for the first close reason, else for that of the graceful close,
/// else for a broken invariant. It gives up when its own time is over, at once where
/// the clock does not reach that, and never after the end of a graceful close.
pub proof fn law_last_cleanup_is_bounded<C>(
    view: RuntimeView<C>,
    end: Option<MonoTime>,
    now: MonoTime,
)
    ensures
        view.driver.closing matches Some(state) ==> runtime::finish_reason(view) == state.reason,
        view.driver.closing is None ==> (view.shutdown matches Some(drain)
            ==> runtime::finish_reason(view) == drain.reason),
        view.driver.closing is None && view.shutdown is None ==> runtime::finish_reason(view)
            == GenerationCloseReason::RuntimeInvariant,
        ({
            let deadline = runtime::finish_deadline(view, end, now);
            let own = match end {
                Some(end) => end,
                None => now,
            };
            &&& deadline.nanos <= own.nanos
            &&& view.shutdown is None ==> deadline == own
            &&& view.shutdown matches Some(drain) ==> {
                &&& deadline.nanos <= drain.shutdown_deadline.nanos
                &&& deadline == own || deadline == drain.shutdown_deadline
            }
        }),
        end matches Some(until) ==> runtime::cleanup_end(end, now) == until,
        end is None ==> runtime::cleanup_end(end, now) == now,
{
}

/// Another cleanup closes the generation once more, for the reason that it closed for.
pub proof fn law_recovery_tells_the_core<C>(
    view: RuntimeView<C>,
    now: MonoTime,
    after: RuntimeView<C>,
    reason: GenerationCloseReason,
)
    requires
        view.valid(),
        runtime::recovery_begun(view, now, after, reason),
    ensures
        view.driver.closing matches Some(state) ==> reason == state.reason,
        view.driver.closing is None ==> reason == GenerationCloseReason::RuntimeInvariant,
        after.driver.history.len() > view.driver.history.len(),
        after.driver.history[view.driver.history.len() as int] matches PortEvent::CoreCalled {
            input,
            ..
        } && input == (CoreInput::Shutdown { reason, failed_write_id: None, now }),
        after.driver.transport_closed,
        after.shutdown == view.shutdown,
{
    effects::law_shutdown_tells_the_core(view.driver, reason, None, now, after.driver);
}

/// The deadlines of a graceful close lie the configured spans ahead: draining ends after
/// the time for draining, and the close after the time for the whole close.
pub proof fn law_close_deadlines_lie_ahead(
    epoch: Instant,
    policy: ShutdownPolicy,
    now: MonoTime,
    deadlines: CloseDeadlines,
)
    requires
        runtime::deadlines_told(epoch, policy, now, deadlines),
    ensures
        deadlines.drain matches Some(time) ==> time.nanos == now.nanos + policy.drain,
        deadlines.shutdown matches Some(time) ==> time.nanos == now.nanos + policy.shutdown,
{
}

/// What is urgent goes before an outside command: in an open generation the fact of the
/// transport is applied first, and then, where the transport is still open, the due
/// deadlines; a generation whose transport is closed is left alone.
pub proof fn law_urgent_facts_precede_deadlines<C>(
    view: RuntimeView<C>,
    terminal: Option<IoEvent>,
    now: MonoTime,
    after: RuntimeView<C>,
)
    requires
        runtime::priority_processed(view, terminal, now, after),
    ensures
        view.driver.transport_closed ==> after == view,
        !view.driver.transport_closed ==> exists|middle: RuntimeView<C>|
            {
                &&& #[trigger] runtime::urgent_applied(view, terminal, now, middle)
                &&& terminal is None ==> middle == view
                &&& terminal matches Some(event) ==> runtime::round_applied(
                    view,
                    RoundInput::Io(Some(event)),
                    now,
                    middle,
                )
                &&& middle.driver.transport_closed ==> after == middle
                &&& !middle.driver.transport_closed ==> runtime::round_applied(
                    middle,
                    RoundInput::Timer,
                    now,
                    after,
                )
            },
{
}

/// In a timer round time advances before a graceful close moves on; in the round of a
/// finished drain only the close moves on.
pub proof fn law_time_advances_before_the_close<C>(
    view: RuntimeView<C>,
    now: MonoTime,
    after: RuntimeView<C>,
)
    ensures
        runtime::round_applied(view, RoundInput::Timer, now, after) ==> exists|
            middle: DriverView<RuntimeCompletion<C>>,
        | #[trigger]
            runtime::time_advanced(view.driver, now, middle) && runtime::shutdown_moved(
                view.with_driver(middle),
                now,
                after,
            ),
        runtime::round_applied(view, RoundInput::Shutdown, now, after) ==> runtime::shutdown_moved(
            view,
            now,
            after,
        ),
{
}

/// While a drain waits the core is asked what is left, and the close moves on by its
/// answer; otherwise it moves on without asking, as if something were left.
pub proof fn law_close_moves_on_by_the_answer<C>(
    view: RuntimeView<C>,
    now: MonoTime,
    after: RuntimeView<C>,
)
    requires
        runtime::shutdown_moved(view, now, after),
    ensures
        view.shutdown is None ==> after == view,
        !runtime::drain_waits(view.shutdown, now) ==> runtime::shutdown_advanced(
            view,
            false,
            now,
            after,
        ),
        runtime::drain_waits(view.shutdown, now) ==> exists|
            drained: bool,
            asked: DriverView<RuntimeCompletion<C>>,
            open_commands: usize,
            reply_capabilities: usize,
        |
            {
                &&& asked.history == view.driver.history.push(
                    #[trigger] asked_about::<RuntimeCompletion<C>>(
                        open_commands,
                        reply_capabilities,
                    ),
                )
                &&& drained == model::drain_complete(
                    view.driver,
                    open_commands,
                    reply_capabilities,
                )
                &&& #[trigger] runtime::shutdown_advanced(
                    view.with_driver(asked),
                    drained,
                    now,
                    after,
                )
            },
{
    if runtime::drain_waits(view.shutdown, now) {
        let (drained, asked) = choose|drained: bool, asked: DriverView<RuntimeCompletion<C>>|
            {
                &&& #[trigger] driver::drain_asked(view.driver, drained, asked)
                &&& runtime::shutdown_advanced(view.with_driver(asked), drained, now, after)
            };
        let (open_commands, reply_capabilities) = choose|
            open_commands: usize,
            reply_capabilities: usize,
        |
            {
                &&& asked == #[trigger] view.driver.logged(
                    PortEvent::DrainAsked { open_commands, reply_capabilities },
                )
                &&& drained == model::drain_complete(
                    view.driver,
                    open_commands,
                    reply_capabilities,
                )
            };
        assert(asked.history == view.driver.history.push(
            asked_about::<RuntimeCompletion<C>>(open_commands, reply_capabilities),
        ));
        assert(runtime::shutdown_advanced(view.with_driver(asked), drained, now, after));
    }
}

/// The question what a drain waits for, with the core's answer.
pub open spec fn asked_about<C>(open_commands: usize, reply_capabilities: usize) -> PortEvent<C> {
    PortEvent::DrainAsked { open_commands, reply_capabilities }
}

/// Only an active side whose configuration asks for it selects by itself.
pub proof fn law_only_an_active_side_selects_by_itself(
    mode: ConnectionMode,
    auto_select: bool,
    r: bool,
)
    requires
        call_ensures(runtime::selects_by_itself, (mode, auto_select), r),
    ensures
        r <==> mode is Active && auto_select,
{
}

} // verus!
