//! What framing, the Reader, the Writer and their tasks promise, said in terms of
//! bytes, bounds and answers.

use crate::config::EndpointConfig;
use crate::error::OperationError;
use crate::generation::transport::bounded_reader;
use crate::generation::transport::bounded_writer;
use crate::generation::transport::bounded_writer::{
    BoundedWriter, ControlAnswers, DataAnswers, PreparedData, QueuedFrame, WriterLimits,
    WriterPolicy, WriterProgress, WriterReport, WriterWorker,
};
use crate::generation::transport::io;
use crate::generation::transport::io::{
    FramingFault, IoErrorKind, ReadEvent, ReadFailure, ReadStep, WriteEvent,
};
use crate::generation::transport::tasks;
use crate::generation::transport::tasks::{
    CleanupPoison, CleanupResult, CleanupStep, IoEvent, IoTasks, Polled, ReaderEnd, Selection,
    TerminalStep,
};
use crate::generation::transport::bounded_reader::{ReaderReport, ReaderWorker, ReservationEnd};
use crate::generation::transport::writer;
use crate::generation::transport::writer::{
    DataReserveError, OutboundFrame, ReservedDataAdmissionError, WriteAdmissionError,
};
use crate::model::runtime::{MonoTime, TransportFault, TransportFaultKind, WriteOutcome};
use crate::protocol::laws::law_control_frame_reads_back;
use crate::protocol::message::ProtocolMessage;
use crate::protocol::violation::{DecodeStep, FrameReadProgress};
use crate::secs2::SecsItem;
use crate::sync::channel;
use crate::sync::clock;
use crate::sync::semaphore;
use tokio::sync::mpsc;
use tokio::time::Instant;
use vstd::prelude::*;

verus! {

/// Operating-system failures keep their category.
pub proof fn law_faults_keep_their_category(kind: IoErrorKind)
    ensures
        io::spec_transport_fault(kind).kind == TransportFaultKind::ConnectionReset
            <==> kind is ConnectionReset,
        io::spec_transport_fault(kind).kind == TransportFaultKind::BrokenPipe
            <==> kind is BrokenPipe,
        io::spec_transport_fault(kind).kind == TransportFaultKind::UnexpectedEof
            <==> kind is UnexpectedEof,
        io::spec_transport_fault(kind).kind == TransportFaultKind::TimedOut <==> kind is TimedOut,
        io::spec_transport_fault(kind).kind == TransportFaultKind::WriteZero
            <==> kind is WriteZero,
        io::spec_transport_fault(kind).kind == TransportFaultKind::Other <==> kind is Other,
{
}

/// The header of a frame is its ten bytes behind the length prefix, known as soon as
/// they have arrived.
pub proof fn law_header_follows_the_prefix(bytes: Seq<u8>)
    ensures
        io::header_of(bytes) is Some <==> bytes.len() >= 14,
        io::header_of(bytes) matches Some(header) ==> header.len() == 10 && forall|i: int|
            0 <= i < 10 ==> #[trigger] header[i] == bytes[i + 4],
{
}

/// A reader asks for no more bytes than the current frame still needs, and never for
/// more than one chunk. It waits without a deadline where no frame has begun, and
/// until T8 after the last byte where one has; a T8 that the clock does not reach ends
/// reading. A framing fault ends reading too, and a complete frame comes out with its
/// header and the time.
pub proof fn law_reader_asks_for_what_is_missing(
    last: Option<MonoTime>,
    header: Option<[u8; 10]>,
    decoded: Result<DecodeStep, FramingFault>,
    t8_end: Option<MonoTime>,
    now: MonoTime,
)
    requires
        io::decodable(header, decoded),
    ensures
        ({
            let step = io::read_step(last, header, decoded, t8_end, now);
            match decoded {
                Err(fault) => step == ReadStep::Failed(ReadFailure::Framing(fault)),
                Ok(DecodeStep::NeedMore(progress)) => {
                    let missing = match progress {
                        FrameReadProgress::AwaitingLength { bytes_seen } => 4 - bytes_seen,
                        FrameReadProgress::PartialBody { target_length, bytes_seen } => {
                            target_length - bytes_seen
                        },
                    };
                    if last is Some && t8_end is None {
                        step == ReadStep::Failed(ReadFailure::DeadlineOverflow)
                    } else {
                        step matches ReadStep::Await { amount, deadline, progress: at } && at
                            == progress && amount <= missing && amount <= 8192 && (amount == missing
                            || amount == 8192) && (last is None ==> deadline is None) && (
                        last is Some ==> deadline == t8_end)
                    }
                },
                Ok(frame) => step matches ReadStep::Frame(read) && Some(read.header) == header
                    && read.decoded == frame && read.occurred_at == now,
            }
        }),
        io::progress_kept(last, decoded) == if decoded is Ok && !(decoded->Ok_0 is NeedMore) {
            None
        } else {
            last
        },
{
}

/// A frame commits exactly when the transport has accepted all of it. Cancellation, a
/// passed deadline, a failure and a transport that accepts nothing end the write: as
/// not written where nothing was accepted before, and as indeterminate otherwise.
pub proof fn law_write_ends_by_what_was_accepted(length: nat, offset: nat, event: WriteEvent)
    requires
        offset < length,
        event matches WriteEvent::Accepted(count) ==> offset + count <= length,
    ensures
        ({
            let outcome = io::write_step(length, offset, event);
            let ended = |kind: TransportFaultKind|
                if offset == 0 {
                    outcome == Some(WriteOutcome::NotWritten(TransportFault { kind }))
                } else {
                    outcome == Some(WriteOutcome::Indeterminate(TransportFault { kind }))
                };
            match event {
                WriteEvent::Cancelled => ended(TransportFaultKind::Cancelled),
                WriteEvent::DeadlinePassed => ended(TransportFaultKind::TimedOut),
                WriteEvent::Failed(kind) => ended(io::spec_transport_fault(kind).kind),
                WriteEvent::Accepted(count) => {
                    &&& count == 0 ==> ended(TransportFaultKind::WriteZero)
                    &&& count > 0 && offset + count == length ==> outcome == Some(
                        WriteOutcome::Committed,
                    )
                    &&& count > 0 && offset + count < length ==> outcome is None
                },
            }
        }),
        io::accepted_by(event) == match event {
            WriteEvent::Accepted(count) => count as nat,
            _ => 0,
        },
{
}

/// A Reader reserves room for the largest message with its length prefix, and is
/// refused exactly where that cannot be counted, where its queue or its byte budget
/// cannot hold it, or where T8 is zero or beyond its clock.
pub proof fn law_reader_bounds(
    max_message_length: usize,
    t8: u128,
    capacity: usize,
    wire_bytes: u32,
    reached: bool,
)
    ensures
        ({
            let refusal = bounded_reader::reader_refusal(
                max_message_length,
                t8,
                capacity,
                wire_bytes,
                reached,
            );
            let countable = max_message_length + 4 <= u32::MAX && max_message_length + 4
                <= usize::MAX;
            let roomy = 0 < capacity <= crate::sync::semaphore::MAX_PERMITS && wire_bytes
                >= max_message_length + 4 && wire_bytes <= crate::sync::semaphore::MAX_PERMITS;
            &&& refusal is None <==> countable && roomy && t8 != 0 && reached
            &&& !countable ==> refusal == Some("Reader frame reservation is not representable"@)
            &&& countable && !roomy ==> refusal == Some(
                "Reader capacity cannot hold a maximum frame"@,
            )
            &&& countable && roomy && (t8 == 0 || !reached) ==> refusal == Some(
                "Reader T8 is not representable"@,
            )
            &&& countable ==> (bounded_reader::frame_reservation(max_message_length) matches Some(
                bytes,
            ) && bytes == max_message_length + 4)
        }),
{
}

/// A Writer is refused exactly where its lanes cannot be counted or represented, where
/// its byte budget does not hold one bare header with its prefix, or where one of its
/// times is zero or beyond its clock.
pub proof fn law_writer_bounds(
    limits: WriterLimits,
    policy: WriterPolicy,
    residence: bool,
    write: bool,
)
    ensures
        ({
            let refusal = bounded_writer::writer_refusal(limits, policy, residence, write);
            let lanes = limits.data_lane_capacity + limits.critical_lane_capacity;
            let bounded = lanes <= crate::sync::semaphore::MAX_PERMITS && 14 <= policy.data_bytes
                <= crate::sync::semaphore::MAX_PERMITS;
            let timely = policy.residence != 0 && policy.active_write != 0 && residence && write;
            &&& refusal is None <==> lanes <= usize::MAX && bounded && timely
            &&& lanes > usize::MAX ==> refusal == Some("Writer capacity overflow"@)
            &&& lanes <= usize::MAX && !bounded ==> refusal == Some(
                "Writer capacity is not representable"@,
            )
            &&& lanes <= usize::MAX && bounded && !timely ==> refusal == Some(
                "Writer deadline is not representable"@,
            )
        }),
{
}

/// The Writer of an endpoint takes its lanes, its Message Length, its byte budget and
/// its two times from the configuration, each from its own entry.
pub proof fn law_writer_takes_the_configured_bounds(config: EndpointConfig)
    ensures
        bounded_writer::configured_limits(config).data_lane_capacity
            == config.limits.data_lane_capacity,
        bounded_writer::configured_limits(config).critical_lane_capacity
            == config.limits.critical_lane_capacity,
        bounded_writer::configured_limits(config).max_message_length
            == config.limits.max_message_length,
        bounded_writer::configured_policy(config).data_bytes == config.runtime.write_bytes,
        bounded_writer::configured_policy(config).residence == config.runtime.residence,
        bounded_writer::configured_policy(config).active_write == config.runtime.write,
{
}

/// A message can be reserved exactly where the Writer runs, its text fits into the
/// Message Length and into what can be counted, and the lane, the byte budget and the
/// FIFO grant it. A stopped Writer is a lost connection, a text that never fits is too
/// large, and everything else is a matter of trying again.
pub proof fn law_reservation_follows_the_answers(
    writer: BoundedWriter,
    body: Option<SecsItem>,
    answers: DataAnswers,
)
    ensures
        ({
            let refusal = writer.reservation_refusal(body, answers);
            let text = match body {
                Some(item) => item.encoded@.len() as int,
                None => 0int,
            };
            let fits = text + 10 <= writer.limits().max_message_length;
            let countable = text + 14 <= u32::MAX && text + 14 <= usize::MAX;
            &&& answers.closed ==> refusal == Some(OperationError::ConnectionLost)
            &&& !answers.closed && !fits ==> (refusal matches Some(
                OperationError::OutboundFrameTooLarge { text_length, maximum_message_length },
            ) && maximum_message_length == writer.limits().max_message_length && (text
                <= usize::MAX ==> text_length == text))
            &&& !answers.closed && fits && !countable ==> refusal == Some(
                OperationError::Backpressure,
            )
            &&& !answers.closed && fits && countable && (answers.slot is None
                || answers.bytes is None) ==> refusal == Some(OperationError::Backpressure)
            &&& !answers.closed && fits && countable && answers.slot is Some
                && answers.bytes is Some && answers.position is None ==> refusal == Some(
                if answers.closed_since {
                    OperationError::ConnectionLost
                } else {
                    OperationError::Backpressure
                },
            )
            &&& refusal is None <==> !answers.closed && fits && countable && answers.slot is Some
                && answers.bytes is Some && answers.position is Some
        }),
{
}

/// A frame gets the next position and its deadline, or none where positions or the
/// clock are exhausted; positions go up one by one.
pub proof fn law_positions_go_up_one_by_one(
    writer: BoundedWriter,
    deadline: Option<MonoTime>,
    raw: u64,
)
    ensures
        writer.admission(deadline) is Some <==> deadline is Some && writer.next() is Some,
        writer.admission(deadline) matches Some((sequence, until)) ==> Some(sequence.value)
            == writer.next() && Some(until) == deadline,
        raw < u64::MAX ==> bounded_writer::successor(raw) == Some((raw + 1) as u64),
        raw == u64::MAX ==> bounded_writer::successor(raw) is None,
{
}

/// A reserved Data frame is admitted exactly where its permit is of this Writer, the
/// Writer runs, the message is a Data message, its frame has a header and fits, and a
/// position with a deadline is left. Only a stopped Writer counts as closed.
pub proof fn law_data_admission_follows_the_permit(
    writer: BoundedWriter,
    permit: PreparedData,
    message: ProtocolMessage,
    closed: bool,
    deadline: Option<MonoTime>,
)
    ensures
        ({
            let refusal = writer.data_refusal(permit, message, closed, deadline);
            let own = permit.owner == writer.identity();
            let length = permit.bytes@.len();
            &&& refusal == Some(ReservedDataAdmissionError::Closed) <==> own && closed
            &&& refusal is None <==> own && !closed && message is Data && 14 <= length <= u32::MAX
                && length - 4 <= writer.limits().max_message_length && deadline is Some
                && writer.next() is Some
        }),
{
}

/// A control frame is admitted exactly where the Writer runs, its lane and the FIFO
/// grant it, and a position with a deadline is left. A full lane and a full FIFO are
/// reported as full, a stopped Writer as closed.
pub proof fn law_control_admission_follows_the_answers(
    writer: BoundedWriter,
    message: ProtocolMessage,
    answers: ControlAnswers,
    deadline: Option<MonoTime>,
)
    ensures
        ({
            let refusal = writer.control_refusal(message, answers, deadline);
            let control = message is Control;
            &&& !control ==> refusal == Some(WriteAdmissionError::Invariant)
            &&& control && answers.closed ==> refusal == Some(WriteAdmissionError::Closed)
            &&& control && !answers.closed && answers.slot is None ==> refusal == Some(
                WriteAdmissionError::Full,
            )
            &&& control && !answers.closed && answers.slot is Some && answers.position is None
                ==> refusal == Some(
                if answers.closed_since {
                    WriteAdmissionError::Closed
                } else {
                    WriteAdmissionError::Full
                },
            )
            &&& control && !answers.closed && answers.slot is Some && answers.position is Some && (
            deadline is None || writer.next() is None) ==> refusal == Some(
                WriteAdmissionError::Invariant,
            )
            &&& refusal is None <==> control && !answers.closed && answers.slot is Some
                && answers.position is Some && deadline is Some && writer.next() is Some
        }),
{
}

/// What is claimed for a Data message is one slot of the Data lane and exactly the bytes
/// of its frame, text and fourteen more, each out of its own budget; a control frame
/// claims one slot of the control lane and no bytes.
pub proof fn law_frames_claim_their_own_budgets(
    writer: BoundedWriter,
    body: Option<SecsItem>,
    data: DataAnswers,
    message: ProtocolMessage,
    control: ControlAnswers,
)
    requires
        writer.data_asked(body, data),
        writer.control_asked(message, control),
        (match body {
            Some(item) => item.encoded@.len() as int,
            None => 0int,
        }) + 14 <= u32::MAX,
    ensures
        data.slot matches Some(slot) ==> semaphore::issuer(slot) == writer.lanes().data_slots
            && semaphore::held(slot) == 1,
        data.bytes matches Some(bytes) ==> semaphore::issuer(bytes) == writer.lanes().data_bytes
            && semaphore::held(bytes) == 14 + match body {
            Some(item) => item.encoded@.len(),
            None => 0,
        },
        control.slot matches Some(slot) ==> semaphore::issuer(slot) == writer.lanes().control_slots
            && semaphore::held(slot) == 1,
{
}

/// An admitted Data frame stands in the FIFO under its own identity, at the next
/// position, with the charge of its permit; it is as long as was reserved, tells that
/// length, and its text is the reserved one.
pub proof fn law_admitted_data_frame_is_complete(
    writer: BoundedWriter,
    permit: PreparedData,
    frame: OutboundFrame,
    deadline: Option<MonoTime>,
    queued: QueuedFrame,
)
    requires
        writer.data_queued(permit, frame, deadline, queued),
        frame.message is Data,
        frame.message->Data_0.header.stream.value() < 128,
        14 <= permit.bytes@.len() <= u32::MAX,
    ensures
        queued.write_id == frame.write_id,
        Some(queued.sequence.value) == writer.next(),
        Some(queued.deadline) == deadline,
        queued.charge == permit.charge,
        queued.bytes@.len() == permit.bytes@.len(),
        queued.bytes@[0] * 0x100_0000 + queued.bytes@[1] * 0x1_0000 + queued.bytes@[2] * 0x100
            + queued.bytes@[3] == queued.bytes@.len() - 4,
        queued.bytes@[7] == frame.message->Data_0.header.function.value,
        queued.bytes@[10] * 0x100_0000 + queued.bytes@[11] * 0x1_0000 + queued.bytes@[12] * 0x100
            + queued.bytes@[13] == frame.message->Data_0.header.system_bytes.value,
        forall|i: int|
            14 <= i < permit.bytes@.len() ==> #[trigger] queued.bytes@[i] == permit.bytes@[i],
{
    let text = permit.bytes@.skip(14);
    bounded_writer::law_frame_tells_its_length(frame.message->Data_0.header, text);
    assert forall|i: int| 14 <= i < permit.bytes@.len() implies #[trigger] queued.bytes@[i]
        == permit.bytes@[i] by {
        assert(queued.bytes@[(i - 14) + 14] == text[i - 14]);
    }
}

/// An admitted control frame stands in the FIFO under its own identity, at the next
/// position, with the slot that was claimed and no bytes, as the fourteen bytes of its
/// message.
pub proof fn law_admitted_control_frame_is_complete(
    writer: BoundedWriter,
    frame: OutboundFrame,
    answers: ControlAnswers,
    deadline: Option<MonoTime>,
    queued: QueuedFrame,
)
    requires
        writer.control_queued(frame, answers, deadline, queued),
        frame.message is Control,
    ensures
        queued.write_id == frame.write_id,
        Some(queued.sequence.value) == writer.next(),
        Some(queued.deadline) == deadline,
        Some(queued.charge.slot) == answers.slot,
        queued.charge.bytes is None,
        queued.bytes@.len() == 14,
        queued.bytes@[3] == 10,
{
    law_control_frame_reads_back(frame.message->Control_0);
}

/// The two failures of a slot-only reservation are a busy Writer and a lost connection.
pub proof fn law_slot_failures(error: DataReserveError)
    ensures
        writer::spec_reserve_failure(error) == OperationError::Backpressure <==> error is Full,
        writer::spec_reserve_failure(error) == OperationError::ConnectionLost <==> error is Closed,
{
}

/// The Writer may write a frame until the earlier of its residence deadline and the end
/// of an active write. Once writing has failed no frame touches the transport, and each
/// is reported as not written with the first fault. Anything but a commit is a failure.
pub proof fn law_writer_stops_at_the_first_fault(
    progress: WriterProgress,
    deadline: MonoTime,
    active: Option<MonoTime>,
    outcome: WriteOutcome,
)
    ensures
        ({
            let begun = progress.begun(deadline, active);
            &&& progress.terminal matches Some(fault) ==> begun == Err::<MonoTime, _>(
                WriteOutcome::NotWritten(fault),
            )
            &&& progress.terminal is None && active is None ==> begun == Err::<MonoTime, _>(
                WriteOutcome::NotWritten(TransportFault { kind: TransportFaultKind::TimedOut }),
            )
            &&& progress.terminal is None && active is Some ==> (begun matches Ok(until)
                && until.nanos <= deadline.nanos && until.nanos <= active->0.nanos && (until
                == deadline || Some(until) == active))
        }),
        progress.settled(outcome).policy == progress.policy,
        progress.settled(outcome).terminal == match outcome {
            WriteOutcome::Committed => progress.terminal,
            WriteOutcome::NotWritten(fault) => Some(fault),
            WriteOutcome::Indeterminate(fault) => Some(fault),
        },
{
}

/// The tasks are looked at in a fixed order: reports of the Reader where none waits,
/// then reports of the Writer where none waits. What is found is kept, and a closed
/// queue is remembered until the next look.
pub proof fn law_sources_are_looked_at_in_order(
    tasks: IoTasks,
    reads: Polled<ReaderReport>,
    writes: Polled<WriterReport>,
)
    ensures
        ({
            let (begun, step) = tasks::terminal_begun(tasks);
            &&& step is PollReads <==> tasks.reader && tasks.pending_read is None
            &&& step is PollWrites ==> tasks.writer && tasks.pending_write is None
            &&& step is PollReads ==> !begun.read_closed && !begun.write_closed
            &&& begun.reader == tasks.reader && begun.writer == tasks.writer && begun.poison
                == tasks.poison && begun.prefer_read == tasks.prefer_read
        }),
        ({
            let read = tasks::reads_taken(tasks, reads);
            &&& reads matches Polled::Ready(report) ==> read.pending_read == Some(report)
            &&& !(reads is Ready) ==> read.pending_read == tasks.pending_read
            &&& reads is Closed ==> read.read_closed
            &&& !(reads is Closed) ==> read.read_closed == tasks.read_closed
            &&& read.pending_write == tasks.pending_write && read.write_closed
                == tasks.write_closed && read.poison == tasks.poison
        }),
        ({
            let written = tasks::writes_taken(tasks, writes);
            &&& writes matches Polled::Ready(report) ==> written.pending_write == Some(report)
            &&& !(writes is Ready) ==> written.pending_write == tasks.pending_write
            &&& writes is Closed ==> written.write_closed
            &&& !(writes is Closed) ==> written.write_closed == tasks.write_closed
            &&& written.pending_read == tasks.pending_read && written.read_closed
                == tasks.read_closed && written.poison == tasks.poison
        }),
{
}

/// After the reports, a write that failed comes first; then the end of a Reader whose
/// queue is closed, and then that of a Writer whose queue is closed.
pub proof fn law_urgent_facts_have_their_order(tasks: IoTasks)
    ensures
        ({
            let (after, step) = tasks::after_writes(tasks);
            let urgent = tasks.pending_write matches Some(report) && !(
            report.outcome is Committed);
            &&& urgent ==> {
                &&& step matches TerminalStep::Done(Some(IoEvent::Write(report))) && Some(report)
                    == tasks.pending_write
                &&& after.pending_write is None
            }
            &&& !urgent && tasks.read_closed ==> step is JoinReader && after == tasks
            &&& !urgent && !tasks.read_closed && tasks.write_closed ==> step is JoinWriter && after
                == tasks
            &&& !urgent && !tasks.read_closed && !tasks.write_closed ==> step == TerminalStep::Done(
                None,
            ) && after == tasks
        }),
{
}

/// The end of a task is reported once, as it was; a task that did not end regularly
/// poisons the cleanup, unless it is poisoned already. A task that did not end is
/// passed over.
pub proof fn law_task_ends_are_reported(
    tasks: IoTasks,
    end: Option<ReaderEnd>,
    regular: Option<bool>,
)
    ensures
        ({
            let (after, step) = tasks::reader_joined(tasks, end);
            &&& end matches Some(how) ==> {
                &&& !after.reader
                &&& step == TerminalStep::Done(Some(IoEvent::ReaderStopped(how)))
                &&& how is Crashed && tasks.poison is None ==> after.poison == Some(
                    CleanupPoison::InvariantViolation,
                )
                &&& !(how is Crashed) || tasks.poison is Some ==> after.poison == tasks.poison
                &&& after.writer == tasks.writer
            }
            &&& end is None ==> after == tasks && (step is JoinWriter <==> tasks.write_closed) && (
            !tasks.write_closed ==> step == TerminalStep::Done(None))
        }),
        ({
            let (after, step) = tasks::writer_joined(tasks, regular);
            &&& regular matches Some(how) ==> {
                &&& !after.writer
                &&& step == TerminalStep::Done(Some(IoEvent::WriterStopped(how)))
                &&& !how && tasks.poison is None ==> after.poison == Some(
                    CleanupPoison::InvariantViolation,
                )
                &&& how || tasks.poison is Some ==> after.poison == tasks.poison
                &&& after.reader == tasks.reader
            }
            &&& regular is None ==> after == tasks && step == TerminalStep::Done(None)
        }),
{
}

/// Ordinary reports come out one at a time, unchanged; without any the tasks are
/// finished exactly when both were joined.
pub proof fn law_ordinary_reports_come_out(tasks: IoTasks)
    ensures
        ({
            let (after, selection) = tasks::ordinary(tasks);
            let read = tasks.pending_read is Some && (tasks.prefer_read
                || tasks.pending_write is None);
            &&& read ==> {
                &&& selection matches Selection::Event(IoEvent::Read(report)) && Some(report)
                    == tasks.pending_read
                &&& after.pending_read is None && after.pending_write == tasks.pending_write
                &&& !after.prefer_read
            }
            &&& !read && tasks.pending_write is Some ==> {
                &&& selection matches Selection::Event(IoEvent::Write(report)) && Some(report)
                    == tasks.pending_write
                &&& after.pending_write is None && after.pending_read == tasks.pending_read
                &&& after.prefer_read
            }
            &&& tasks.pending_read is None && tasks.pending_write is None ==> {
                &&& after == tasks
                &&& selection is Finished <==> !tasks.reader && !tasks.writer
                &&& selection is Wait <==> tasks.reader || tasks.writer
            }
        }),
{
}

/// A cleanup is finished when both tasks were joined, and gives up at its deadline and
/// not before; giving up poisons it, and the first poison is the one reported.
pub proof fn law_cleanup_is_bounded(tasks: IoTasks, now: MonoTime, deadline: MonoTime)
    ensures
        ({
            let (after, step) = tasks::cleanup_next(tasks, now, deadline);
            let joined = !tasks.reader && !tasks.writer;
            &&& step == CleanupStep::Finished <==> joined
            &&& step == CleanupStep::Abort <==> !joined && now.nanos >= deadline.nanos
            &&& step == CleanupStep::Wait <==> !joined && now.nanos < deadline.nanos
            &&& step != CleanupStep::Abort ==> after == tasks
            &&& step == CleanupStep::Abort ==> after.poison == match tasks.poison {
                Some(first) => Some(first),
                None => Some(CleanupPoison::TaskDidNotStop),
            }
        }),
        tasks::result_of(tasks) == CleanupResult::Clean <==> tasks.poison is None,
        tasks.poison matches Some(poison) ==> tasks::result_of(tasks) == CleanupResult::Poisoned(
            poison,
        ),
{
}

/// The residence of a frame ends the configured span after the moment of its admission.
pub proof fn law_residence_is_counted_from_admission(
    writer: BoundedWriter,
    deadline: Option<MonoTime>,
)
    requires
        writer.deadline_set(deadline),
    ensures
        exists|now: MonoTime|
            {
                &&& #[trigger] clock::showed(writer.started(), now)
                &&& deadline matches Some(time) ==> time.nanos == now.nanos
                    + writer.policy().residence
            },
{
    let now = choose|now: MonoTime|
        {
            &&& #[trigger] clock::showed(writer.started(), now)
            &&& clock::deadline_told(writer.started(), now, writer.policy().residence, deadline)
        };
    assert(clock::showed(writer.started(), now));
}

/// T8 is counted from the last byte of a partial frame, and does not run without one.
pub proof fn law_t8_is_counted_from_the_last_byte(
    reader: io::FrameReader,
    t8: u128,
    t8_end: Option<MonoTime>,
)
    requires
        reader.t8_told(t8, t8_end),
    ensures
        reader.progressed() is None ==> t8_end is None,
        reader.progressed() matches Some(last) ==> (t8_end matches Some(time) ==> time.nanos
            == last.nanos + t8),
{
}

/// A permit names its Writer, holds the claimed slot, bytes and position, and has the
/// encoded text behind room for prefix and header.
pub proof fn law_permit_holds_what_was_claimed(
    writer: BoundedWriter,
    body: Option<SecsItem>,
    answers: DataAnswers,
    r: Result<PreparedData, OperationError>,
)
    requires
        writer.reservation(body, answers, r),
    ensures
        r matches Ok(permit) ==> {
            &&& permit.owner == writer.identity()
            &&& Some(permit.queue) == answers.position
            &&& Some(permit.charge.slot) == answers.slot
            &&& permit.charge.bytes == answers.bytes
            &&& permit.bytes@.len() == 14 + match body {
                Some(item) => item.encoded@.len(),
                None => 0,
            }
            &&& body matches Some(item) ==> permit.bytes@.skip(14) == item.encoded@
        },
        r matches Err(error) ==> writer.reservation_refusal(body, answers) == Some(error),
{
    if let Ok(permit) = r {
        if let Some(item) = body {
            assert(permit.bytes@.skip(14) =~= item.encoded@);
        }
    }
}

/// A Writer that was built has its bounds: both queues hold as many frames as both lanes
/// together, each lane and the byte budget are as large as configured, its positions
/// start with zero and nothing was handed over.
pub proof fn law_built_writer_has_its_bounds(
    owner: u64,
    limits: WriterLimits,
    policy: WriterPolicy,
    epoch: Instant,
    parts: (BoundedWriter, WriterWorker, mpsc::Receiver<WriterReport>),
)
    requires
        bounded_writer::writer_built(owner, limits, policy, epoch, Ok(parts)),
        limits.data_lane_capacity + limits.critical_lane_capacity <= usize::MAX,
    ensures
        ({
            let (writer, worker, consumer) = parts;
            let both = (limits.data_lane_capacity + limits.critical_lane_capacity) as usize;
            &&& channel::made_with(both, writer.fifo(), worker.queue)
            &&& channel::made_with(both, worker.reports, consumer)
            &&& semaphore::limit(writer.lanes().data_slots) == limits.data_lane_capacity
            &&& semaphore::limit(writer.lanes().control_slots) == limits.critical_lane_capacity
            &&& semaphore::limit(writer.lanes().data_bytes) == policy.data_bytes
            &&& writer.next() == Some(0u64)
            &&& writer.handed().len() == 0
            &&& writer.identity() == owner && writer.limits() == limits && writer.policy() == policy
            &&& writer.started() == epoch && worker.epoch == epoch
            &&& worker.progress.policy == policy && worker.progress.terminal is None
        }),
{
}

/// A Reader that was built has its bounds: its queue and its slots hold as many frames as
/// asked for, its budget all the bytes, and each frame reserves room for the largest
/// message with its prefix.
pub proof fn law_built_reader_has_its_bounds(
    max_message_length: usize,
    epoch: Instant,
    t8: u128,
    capacity: usize,
    wire_bytes: u32,
    parts: (ReaderWorker, mpsc::Receiver<ReaderReport>),
)
    requires
        bounded_reader::reader_built(
            max_message_length,
            epoch,
            t8,
            capacity,
            wire_bytes,
            Ok(parts),
        ),
    ensures
        ({
            let (worker, consumer) = parts;
            &&& channel::made_with(capacity, worker.reports, consumer)
            &&& worker.frame_bytes == max_message_length + 4
            &&& worker.t8 == t8
            &&& semaphore::limit(worker.bytes) == wire_bytes
            &&& semaphore::limit(worker.slots) == capacity
            &&& worker.reader.bytes().len() == 0
            &&& worker.reader.progressed() is None
            &&& worker.reader.started() == epoch
        }),
{
}

/// A recovery changes nothing but the poison, and only where everything was released.
pub proof fn law_recovery_only_clears_the_poison(tasks: IoTasks, queues_empty: bool)
    ensures
        ({
            let after = tasks::recovered(tasks, queues_empty);
            let released = !tasks.reader && !tasks.writer && tasks.pending_read is None
                && tasks.pending_write is None && queues_empty;
            &&& released ==> after.poison is None
            &&& !released ==> after == tasks
            &&& after == (IoTasks { poison: after.poison, ..tasks })
        }),
{
}

/// Reading ends by what happened: a cancellation and a failure are faults of the
/// transport, a passed deadline is a missed T8, and receiving nothing is the end of the
/// stream at the point that was reached. Received bytes never end it.
pub proof fn law_reading_ends_by_what_happened(
    event: ReadEvent<'_>,
    progress: FrameReadProgress,
)
    ensures
        ({
            let end = io::read_end(event, progress);
            &&& end is None <==> (event matches ReadEvent::Received(bytes) && bytes@.len() > 0)
            &&& end == Some(ReadFailure::EndOfStream { progress }) <==> (event matches
                ReadEvent::Received(bytes) && bytes@.len() == 0)
            &&& end == Some(ReadFailure::IntercharacterTimeout) <==> event is DeadlinePassed
            &&& event is Cancelled ==> end == Some(
                ReadFailure::Transport(TransportFault { kind: TransportFaultKind::Cancelled }),
            )
            &&& event matches ReadEvent::Failed(kind) ==> (end matches Some(
                ReadFailure::Transport(fault),
            ) && fault == io::spec_transport_fault(kind))
        }),
{
}

/// A cancelled Writer starts no further frame, and says so by its first fault.
pub proof fn law_cancelled_writer_starts_nothing(
    progress: WriterProgress,
    deadline: MonoTime,
    active: Option<MonoTime>,
)
    ensures
        ({
            let after = progress.cancelled();
            let fault = match progress.terminal {
                Some(first) => first,
                None => TransportFault { kind: TransportFaultKind::Cancelled },
            };
            &&& after.begun(deadline, active) == Err::<MonoTime, _>(WriteOutcome::NotWritten(fault))
            &&& after.policy == progress.policy
        }),
{
}

/// Whatever was in the way of room for a frame, the Reader reads on only where there is
/// room; only a cancellation is reported as a failure.
pub proof fn law_reader_reads_on_only_with_room(
    end: ReservationEnd,
    r: Option<Result<(), ReadFailure>>,
)
    requires
        call_ensures(bounded_reader::after_reservation, (end,), r),
    ensures
        r is None <==> end is Reserved,
        (r matches Some(ended) && ended is Err) <==> end is Cancelled,
        r matches Some(Err(failure)) ==> failure == ReadFailure::Transport(
            TransportFault { kind: TransportFaultKind::Cancelled },
        ),
{
}

/// A report names the frame that it is about, and carries its position, its claims and
/// the outcome.
pub proof fn law_report_is_about_its_frame(
    entry: QueuedFrame,
    outcome: WriteOutcome,
    occurred_at: MonoTime,
    report: WriterReport,
)
    requires
        call_ensures(bounded_writer::report, (entry, outcome, occurred_at), report),
    ensures
        report.write_id == entry.write_id,
        report.sequence == entry.sequence,
        report.charge == entry.charge,
        report.outcome == outcome,
        report.occurred_at == occurred_at,
{
}

/// Tasks start alive, unpoisoned and with nothing pending.
pub proof fn law_tasks_start_alive(made: IoTasks)
    requires
        call_ensures(IoTasks::new, (), made),
    ensures
        made.reader && made.writer,
        made.poison is None,
        made.pending_read is None && made.pending_write is None,
        !made.read_closed && !made.write_closed,
        tasks::result_of(made) == CleanupResult::Clean,
        forall|joined: bool| call_ensures(IoTasks::writer_joined, (&made,), joined) ==> !joined,
{
}

} // verus!
