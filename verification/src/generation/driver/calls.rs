//! What it means that an entry of the Driver's history was a call: the port itself
//! was called, with these arguments, and gave this answer.

use crate::generation::driver::model::{CoreInput, PortEvent};
use crate::error::OperationError;
use crate::generation::driver::ports::{
    CommandCompletion, CoreActions, ProtocolNotice, SessionCore, SessionStateObserver,
    TransportCloser,
};
use crate::generation::transport::writer::{
    DataPermitError, OutboundFrame, ReservedDataAdmissionError, WriteAdmissionError, WriterIngress,
};
use crate::lifecycle::state::SessionState;
use crate::model::ids::{ConnectionGeneration, WireSequence};
use crate::secs2::SecsItem;
use vstd::prelude::*;

verus! {

/// The core and the ports of a Driver at one moment.
pub struct Ports<Core, Writer: WriterIngress, Observer, Closer> {
    /// Protocol core.
    pub core: Core,
    /// Writer entrance.
    pub writer: Writer,
    /// Observer of states and diagnostics.
    pub observer: Observer,
    /// Physical transport close.
    pub closer: Closer,
    /// Data reservation in the Driver's hands.
    pub reservation: Option<Writer::DataPermit>,
}

/// Calls the core with this input, and returns its answer with the core before and
/// after the call.
pub fn call_core<Core: SessionCore>(core: &mut Core, input: CoreInput) -> (r: (
    CoreActions,
    Ghost<(Core, Core)>,
))
    ensures
        r.1@ == (*old(core), *final(core)),
        match input {
            CoreInput::Connected { now } => exists|asked: &mut Core, answer: CoreActions|
                {
                    &&& #[trigger] call_ensures(Core::on_connected, (asked, now), answer)
                    &&& answer == r.0
                    &&& *asked == *old(core)
                    &&& *final(asked) == *final(core)
                },
            CoreInput::Command { command_id, kind, now } => exists|
                asked: &mut Core,
                answer: CoreActions,
            |
                {
                    &&& #[trigger] call_ensures(
                        Core::on_command,
                        (asked, command_id, kind, now),
                        answer,
                    )
                    &&& answer == r.0
                    &&& *asked == *old(core)
                    &&& *final(asked) == *final(core)
                },
            CoreInput::Reply { command_id, capability, intent, body, now } => exists|
                asked: &mut Core,
                answer: CoreActions,
            |
                {
                    &&& #[trigger] call_ensures(
                        Core::on_reply,
                        (asked, command_id, capability, intent, body, now),
                        answer,
                    )
                    &&& answer == r.0
                    &&& *asked == *old(core)
                    &&& *final(asked) == *final(core)
                },
            CoreInput::Message { message, now } => exists|asked: &mut Core, answer: CoreActions|
                {
                    &&& #[trigger] call_ensures(Core::on_message, (asked, message, now), answer)
                    &&& answer == r.0
                    &&& *asked == *old(core)
                    &&& *final(asked) == *final(core)
                },
            CoreInput::Violation { violation, now } => exists|asked: &mut Core, answer: CoreActions|
                {
                    &&& #[trigger] call_ensures(
                        Core::on_inbound_violation,
                        (asked, violation, now),
                        answer,
                    )
                    &&& answer == r.0
                    &&& *asked == *old(core)
                    &&& *final(asked) == *final(core)
                },
            CoreInput::WriteOutcome { write_id, outcome, occurred_at, now } => exists|
                asked: &mut Core,
                answer: CoreActions,
            |
                {
                    &&& #[trigger] call_ensures(
                        Core::on_write_outcome_at,
                        (asked, write_id, outcome, occurred_at, now),
                        answer,
                    )
                    &&& answer == r.0
                    &&& *asked == *old(core)
                    &&& *final(asked) == *final(core)
                },
            CoreInput::Shutdown { reason, failed_write_id, now } => exists|
                asked: &mut Core,
                answer: CoreActions,
            |
                {
                    &&& #[trigger] call_ensures(
                        Core::on_shutdown,
                        (asked, reason, failed_write_id, now),
                        answer,
                    )
                    &&& answer == r.0
                    &&& *asked == *old(core)
                    &&& *final(asked) == *final(core)
                },
            CoreInput::FinishDrain { reason, now } => exists|asked: &mut Core, answer: CoreActions|
                {
                    &&& #[trigger] call_ensures(
                        Core::finish_shutdown_drain,
                        (asked, reason, now),
                        answer,
                    )
                    &&& answer == r.0
                    &&& *asked == *old(core)
                    &&& *final(asked) == *final(core)
                },
            CoreInput::FinalizeWriter { now } => exists|asked: &mut Core, answer: CoreActions|
                {
                    &&& #[trigger] call_ensures(Core::finalize_writer, (asked, now), answer)
                    &&& answer == r.0
                    &&& *asked == *old(core)
                    &&& *final(asked) == *final(core)
                },
            CoreInput::AdvanceTime { now } => exists|asked: &mut Core, answer: CoreActions|
                {
                    &&& #[trigger] call_ensures(Core::advance_time, (asked, now), answer)
                    &&& answer == r.0
                    &&& *asked == *old(core)
                    &&& *final(asked) == *final(core)
                },
        },
{
    let ghost before = *core;
    let actions = match input {
        CoreInput::Connected { now } => core.on_connected(now),
        CoreInput::Command { command_id, kind, now } => core.on_command(command_id, kind, now),
        CoreInput::Reply { command_id, capability, intent, body, now } => core.on_reply(
            command_id,
            capability,
            intent,
            body,
            now,
        ),
        CoreInput::Message { message, now } => core.on_message(message, now),
        CoreInput::Violation { violation, now } => core.on_inbound_violation(violation, now),
        CoreInput::WriteOutcome { write_id, outcome, occurred_at, now } => core.on_write_outcome_at(
            write_id,
            outcome,
            occurred_at,
            now,
        ),
        CoreInput::Shutdown { reason, failed_write_id, now } => core.on_shutdown(
            reason,
            failed_write_id,
            now,
        ),
        CoreInput::FinishDrain { reason, now } => core.finish_shutdown_drain(reason, now),
        CoreInput::FinalizeWriter { now } => core.finalize_writer(now),
        CoreInput::AdvanceTime { now } => core.advance_time(now),
    };
    let ghost after = *core;
    (actions, Ghost((before, after)))
}

/// Takes the core's diagnostic, and returns it with the core before and after.
pub fn take_notice<Core: SessionCore>(
    core: &mut Core,
) -> (r: (Option<ProtocolNotice>, Ghost<(Core, Core)>))
    ensures
        r.1@ == (*old(core), *final(core)),
        exists|asked: &mut Core, answer: Option<ProtocolNotice>|
            {
                &&& #[trigger] call_ensures(Core::take_notice, (asked,), answer)
                &&& answer == r.0
                &&& *asked == *old(core)
                &&& *final(asked) == *final(core)
            },
{
    let ghost before = *core;
    let answer = core.take_notice();
    let ghost after = *core;
    (answer, Ghost((before, after)))
}

/// Asks the Writer for a reservation, and returns its answer with the Writer before
/// and after.
pub fn reserve_message<Writer: WriterIngress>(
    writer: &mut Writer,
    body: &Option<SecsItem>,
) -> (r: (Result<Writer::DataPermit, OperationError>, Ghost<(Writer, Writer)>))
    ensures
        r.1@ == (*old(writer), *final(writer)),
        exists|asked: &mut Writer, answer: Result<Writer::DataPermit, OperationError>|
            {
                &&& #[trigger] call_ensures(Writer::try_reserve_message, (asked, body), answer)
                &&& answer == r.0
                &&& *asked == *old(writer)
                &&& *final(asked) == *final(writer)
            },
{
    let ghost before = *writer;
    let answer = writer.try_reserve_message(body);
    let ghost after = *writer;
    (answer, Ghost((before, after)))
}

/// Hands a control frame to the Writer, and returns its answer with the Writer
/// before and after.
pub fn hand_control<Writer: WriterIngress>(
    writer: &mut Writer,
    frame: OutboundFrame,
) -> (r: (Result<WireSequence, WriteAdmissionError>, Ghost<(Writer, Writer)>))
    ensures
        r.1@ == (*old(writer), *final(writer)),
        exists|asked: &mut Writer, answer: Result<WireSequence, WriteAdmissionError>|
            {
                &&& #[trigger] call_ensures(Writer::try_admit, (asked, frame), answer)
                &&& answer == r.0
                &&& *asked == *old(writer)
                &&& *final(asked) == *final(writer)
            },
{
    let ghost before = *writer;
    let answer = writer.try_admit(frame);
    let ghost after = *writer;
    (answer, Ghost((before, after)))
}

/// Hands a Data frame with its reservation to the Writer, and returns its answer
/// with the Writer before and after.
pub fn hand_data<Writer: WriterIngress>(
    writer: &mut Writer,
    permit: Writer::DataPermit,
    frame: OutboundFrame,
) -> (r: (Result<WireSequence, ReservedDataAdmissionError>, Ghost<(Writer, Writer)>))
    ensures
        r.1@ == (*old(writer), *final(writer)),
        exists|asked: &mut Writer, answer: Result<WireSequence, ReservedDataAdmissionError>|
            {
                &&& #[trigger] call_ensures(
                    Writer::admit_reserved_data,
                    (asked, permit, frame),
                    answer,
                )
                &&& answer == r.0
                &&& *asked == *old(writer)
                &&& *final(asked) == *final(writer)
            },
{
    let ghost before = *writer;
    let answer = writer.admit_reserved_data(permit, frame);
    let ghost after = *writer;
    (answer, Ghost((before, after)))
}

/// Gives a reservation back to the Writer, and returns its answer with the Writer
/// before and after.
pub fn release_data<Writer: WriterIngress>(
    writer: &mut Writer,
    permit: Writer::DataPermit,
) -> (r: (Result<(), DataPermitError>, Ghost<(Writer, Writer)>))
    ensures
        r.1@ == (*old(writer), *final(writer)),
        exists|asked: &mut Writer, answer: Result<(), DataPermitError>|
            {
                &&& #[trigger] call_ensures(Writer::release_data, (asked, permit), answer)
                &&& answer == r.0
                &&& *asked == *old(writer)
                &&& *final(asked) == *final(writer)
            },
{
    let ghost before = *writer;
    let answer = writer.release_data(permit);
    let ghost after = *writer;
    (answer, Ghost((before, after)))
}

/// Publishes a state, and returns the observer before and after.
pub fn observe<Observer: SessionStateObserver>(
    observer: &mut Observer,
    state: SessionState,
) -> (r: Ghost<(Observer, Observer)>)
    ensures
        r@ == (*old(observer), *final(observer)),
        exists|asked: &mut Observer|
            {
                &&& #[trigger] call_ensures(Observer::observe, (asked, state), ())
                &&& *asked == *old(observer)
                &&& *final(asked) == *final(observer)
            },
{
    let ghost before = *observer;
    observer.observe(state);
    let ghost after = *observer;
    Ghost((before, after))
}

/// Publishes a diagnostic, and returns the observer before and after.
pub fn publish_notice<Observer: SessionStateObserver>(
    observer: &mut Observer,
    generation: ConnectionGeneration,
    notice: ProtocolNotice,
) -> (r: Ghost<(Observer, Observer)>)
    ensures
        r@ == (*old(observer), *final(observer)),
        exists|asked: &mut Observer|
            {
                &&& #[trigger] call_ensures(Observer::notice, (asked, generation, notice), ())
                &&& *asked == *old(observer)
                &&& *final(asked) == *final(observer)
            },
{
    let ghost before = *observer;
    observer.notice(generation, notice);
    let ghost after = *observer;
    Ghost((before, after))
}

/// Closes the transport, and returns the closer before and after.
pub fn close<Closer: TransportCloser>(closer: &mut Closer) -> (r: Ghost<(Closer, Closer)>)
    ensures
        r@ == (*old(closer), *final(closer)),
        exists|asked: &mut Closer|
            {
                &&& #[trigger] call_ensures(Closer::close, (asked,), ())
                &&& *asked == *old(closer)
                &&& *final(asked) == *final(closer)
            },
{
    let ghost before = *closer;
    closer.close();
    let ghost after = *closer;
    Ghost((before, after))
}

/// The entry was a call that led from the ports `before` to the ports `after`.
/// Every port that the call is not made to stays as it is. A reservation that the
/// Writer made is the one that is handed over with a Data frame or given back.
pub open spec fn called<Core, Writer, Observer, Completion, Closer>(
    generation: ConnectionGeneration,
    before: Ports<Core, Writer, Observer, Closer>,
    event: PortEvent<Completion>,
    after: Ports<Core, Writer, Observer, Closer>,
) -> bool where
    Core: SessionCore,
    Writer: WriterIngress,
    Observer: SessionStateObserver,
    Completion: CommandCompletion,
    Closer: TransportCloser,
 {
    match event {
        PortEvent::CoreCalled { input, actions } => {
            &&& after == (Ports { core: after.core, ..before })
            &&& exists|core: &mut Core, answer: CoreActions|
                {
                    &&& #[trigger] call_ensures(
                        call_core::<Core>,
                        (core, input),
                        (answer, Ghost((before.core, after.core))),
                    )
                    &&& answer@ == actions
                }
        },
        PortEvent::DeadlineAsked(deadline) => {
            &&& after == before
            &&& call_ensures(Core::next_deadline, (&before.core,), deadline)
        },
        PortEvent::RepliesAsked(blocked) => {
            &&& after == before
            &&& call_ensures(Core::replies_blocked, (&before.core,), blocked)
        },
        PortEvent::OwnershipAsked { commands, owned } => {
            &&& after == before
            &&& owned.len() == commands.len()
            &&& forall|i: int|
                0 <= i < owned.len() ==> call_ensures(
                    Core::owns_command,
                    (&before.core, #[trigger] commands[i]),
                    owned[i],
                )
        },
        PortEvent::DrainAsked { open_commands, reply_capabilities } => {
            &&& after == before
            &&& call_ensures(Core::open_command_count, (&before.core,), open_commands)
            &&& call_ensures(Core::reply_capability_count, (&before.core,), reply_capabilities)
        },
        PortEvent::NoticeTaken(notice) => {
            &&& after == (Ports { core: after.core, ..before })
            &&& exists|core: &mut Core|
                #[trigger] call_ensures(
                    take_notice::<Core>,
                    (core,),
                    (notice, Ghost((before.core, after.core))),
                )
        },
        PortEvent::Reserved { body, failure: None } => {
            &&& after == (Ports {
                writer: after.writer,
                reservation: after.reservation,
                ..before
            })
            &&& exists|writer: &mut Writer, permit: Writer::DataPermit|
                {
                    &&& #[trigger] call_ensures(
                        reserve_message::<Writer>,
                        (writer, &body),
                        (Ok(permit), Ghost((before.writer, after.writer))),
                    )
                    &&& after.reservation == Some(permit)
                }
        },
        PortEvent::Reserved { body, failure: Some(error) } => {
            &&& after == (Ports { writer: after.writer, ..before })
            &&& exists|writer: &mut Writer|
                #[trigger] call_ensures(
                    reserve_message::<Writer>,
                    (writer, &body),
                    (Err(error), Ghost((before.writer, after.writer))),
                )
        },
        PortEvent::ControlHanded { write_id, message, answer } => {
            &&& after == (Ports { writer: after.writer, ..before })
            &&& exists|writer: &mut Writer|
                #[trigger] call_ensures(
                    hand_control::<Writer>,
                    (writer, OutboundFrame { write_id, message }),
                    (answer, Ghost((before.writer, after.writer))),
                )
        },
        PortEvent::DataHanded { write_id, message, answer } => {
            &&& before.reservation is Some
            &&& after == (Ports { writer: after.writer, reservation: None, ..before })
            &&& exists|writer: &mut Writer|
                #[trigger] call_ensures(
                    hand_data::<Writer>,
                    (writer, before.reservation->0, OutboundFrame { write_id, message }),
                    (answer, Ghost((before.writer, after.writer))),
                )
        },
        PortEvent::Released { answer } => {
            &&& before.reservation is Some
            &&& after == (Ports { writer: after.writer, reservation: None, ..before })
            &&& exists|writer: &mut Writer|
                #[trigger] call_ensures(
                    release_data::<Writer>,
                    (writer, before.reservation->0),
                    (answer, Ghost((before.writer, after.writer))),
                )
        },
        PortEvent::Observed(state) => {
            &&& after == (Ports { observer: after.observer, ..before })
            &&& exists|observer: &mut Observer|
                #[trigger] call_ensures(
                    observe::<Observer>,
                    (observer, state),
                    Ghost((before.observer, after.observer)),
                )
        },
        PortEvent::Noticed(notice) => {
            &&& after == (Ports { observer: after.observer, ..before })
            &&& exists|observer: &mut Observer|
                #[trigger] call_ensures(
                    publish_notice::<Observer>,
                    (observer, generation, notice),
                    Ghost((before.observer, after.observer)),
                )
        },
        PortEvent::Completed { completion, result } => {
            &&& after == before
            &&& call_ensures(Completion::complete, (completion, result), ())
        },
        PortEvent::TransportClosed => {
            &&& after == (Ports { closer: after.closer, ..before })
            &&& exists|closer: &mut Closer|
                #[trigger] call_ensures(
                    close::<Closer>,
                    (closer,),
                    Ghost((before.closer, after.closer)),
                )
        },
    }
}

/// Entry `i` of a history was a call that led from the ports before it to the
/// ports after it.
pub open spec fn entry_called<Core, Writer, Observer, Completion, Closer>(
    generation: ConnectionGeneration,
    passed: Seq<Ports<Core, Writer, Observer, Closer>>,
    history: Seq<PortEvent<Completion>>,
    i: int,
) -> bool where
    Core: SessionCore,
    Writer: WriterIngress,
    Observer: SessionStateObserver,
    Completion: CommandCompletion,
    Closer: TransportCloser,
 {
    called(generation, passed[i], history[i], passed[i + 1])
}

/// Every entry of a history was a call, in this order; `passed` are the ports
/// before the first entry and after each one.
pub open spec fn all_called<Core, Writer, Observer, Completion, Closer>(
    generation: ConnectionGeneration,
    passed: Seq<Ports<Core, Writer, Observer, Closer>>,
    history: Seq<PortEvent<Completion>>,
) -> bool where
    Core: SessionCore,
    Writer: WriterIngress,
    Observer: SessionStateObserver,
    Completion: CommandCompletion,
    Closer: TransportCloser,
 {
    &&& passed.len() == history.len() + 1
    &&& forall|i: int|
        0 <= i < history.len() ==> #[trigger] entry_called(generation, passed, history, i)
}

/// One more call continues a history of calls.
pub proof fn lemma_one_more<Core, Writer, Observer, Completion, Closer>(
    generation: ConnectionGeneration,
    passed: Seq<Ports<Core, Writer, Observer, Closer>>,
    history: Seq<PortEvent<Completion>>,
    event: PortEvent<Completion>,
    after: Ports<Core, Writer, Observer, Closer>,
) where
    Core: SessionCore,
    Writer: WriterIngress,
    Observer: SessionStateObserver,
    Completion: CommandCompletion,
    Closer: TransportCloser,

    requires
        all_called(generation, passed, history),
        called(generation, passed.last(), event, after),
    ensures
        all_called(generation, passed.push(after), history.push(event)),
{
    assert forall|i: int| 0 <= i < history.push(event).len() implies #[trigger] entry_called(
        generation,
        passed.push(after),
        history.push(event),
        i,
    ) by {
        if i < history.len() {
            assert(entry_called(generation, passed, history, i));
        }
    }
}

} // verus!
