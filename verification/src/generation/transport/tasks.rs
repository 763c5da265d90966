//! Selection among the events of the Reader and Writer tasks, and the proof that
//! both have stopped.

use crate::generation::transport::bounded_reader::ReaderReport;
use crate::generation::transport::bounded_writer::WriterReport;
use crate::generation::transport::io::ReadFailure;
use crate::model::runtime::{MonoTime, WriteOutcome};
use vstd::prelude::*;

verus! {

/// Why cleanup cannot be proved.
#[derive(Clone, Copy, Debug, PartialEq, Eq, Structural)]
pub enum CleanupPoison {
    /// A task did not stop in time.
    TaskDidNotStop,
    /// A task ended by a panic or was aborted.
    InvariantViolation,
}

/// Whether all resources of a generation are proved released.
#[derive(Clone, Copy, Debug, PartialEq, Eq, Structural)]
pub enum CleanupResult {
    /// Both tasks stopped.
    Clean,
    /// They are not known to have stopped.
    Poisoned(CleanupPoison),
}

/// How the Reader task ended.
#[derive(Clone, Copy, Debug, PartialEq, Eq, Structural)]
pub enum ReaderEnd {
    /// The task panicked or was aborted.
    Crashed,
    /// Nobody took reports any more.
    Finished,
    /// Reading failed.
    Failed(ReadFailure),
}

/// One fact of the transport tasks.
pub enum IoEvent {
    /// A decoded frame.
    Read(ReaderReport),
    /// A settled write.
    Write(WriterReport),
    /// The end of the Reader.
    ReaderStopped(ReaderEnd),
    /// The end of the Writer, and whether it ended regularly.
    WriterStopped(bool),
}

/// Answer of a report queue that was looked at without waiting.
pub enum Polled<Report> {
    /// The oldest report.
    Ready(Report),
    /// The task will send no more reports.
    Closed,
    /// Nothing yet.
    Pending,
}

/// Next thing to look at while searching for an urgent event.
pub enum TerminalStep {
    /// Look at the Reader's queue.
    PollReads,
    /// Look at the Writer's queue.
    PollWrites,
    /// Look whether the Reader task ended.
    JoinReader,
    /// Look whether the Writer task ended.
    JoinWriter,
    /// The search is over.
    Done(Option<IoEvent>),
}

/// Outcome of a search among all events.
pub enum Selection {
    /// An event.
    Event(IoEvent),
    /// Both tasks are gone.
    Finished,
    /// Nothing yet.
    Wait,
}

/// What cleanup does next.
#[derive(Clone, Copy, Debug, PartialEq, Eq, Structural)]
pub enum CleanupStep {
    /// Both tasks stopped.
    Finished,
    /// The deadline passed; abort the tasks.
    Abort,
    /// Wait for the next event.
    Wait,
}

/// A settled write that did not reach the peer in full.
pub open spec fn failed(report: WriterReport) -> bool {
    report.outcome != WriteOutcome::Committed
}

/// Custody of the Reader and Writer tasks of one generation.
pub struct IoTasks {
    /// The Reader was not joined yet.
    pub reader: bool,
    /// The Writer was not joined yet.
    pub writer: bool,
    /// First reason why cleanup cannot be proved.
    pub poison: Option<CleanupPoison>,
    /// Frame taken from its queue and not handed out yet.
    pub pending_read: Option<ReaderReport>,
    /// Report taken from its queue and not handed out yet.
    pub pending_write: Option<WriterReport>,
    /// The next ordinary event is a frame when both are there.
    pub prefer_read: bool,
    /// The current search found the Reader's queue closed.
    pub read_closed: bool,
    /// The current search found the Writer's queue closed.
    pub write_closed: bool,
}

impl IoTasks {
    /// Takes custody of two running tasks.
    pub fn new() -> (r: Self)
        ensures
            r == (IoTasks {
                reader: true,
                writer: true,
                poison: None,
                pending_read: None,
                pending_write: None,
                prefer_read: true,
                read_closed: false,
                write_closed: false,
            }),
    {
        IoTasks {
            reader: true,
            writer: true,
            poison: None,
            pending_read: None,
            pending_write: None,
            prefer_read: true,
            read_closed: false,
            write_closed: false,
        }
    }

    /// Returns whether the Writer was joined.
    pub fn writer_joined(&self) -> (r: bool)
        ensures
            r == !self.writer,
    {
        !self.writer
    }

    /// Starts a search for an urgent event: a failed write, then the end of the
    /// Reader, then the end of the Writer.
    pub fn begin_terminal(&mut self) -> (r: TerminalStep)
        ensures
            (*final(self), r) == terminal_begun(*old(self)),
    {
        self.read_closed = false;
        self.write_closed = false;
        if self.reader && self.pending_read.is_none() {
            TerminalStep::PollReads
        } else {
            self.search_writes()
        }
    }

    /// Goes on after the Reader's queue was looked at.
    pub fn on_reads(&mut self, polled: Polled<ReaderReport>) -> (r: TerminalStep)
        ensures
            (*final(self), r) == after_reads(reads_taken(*old(self), polled)),
    {
        match polled {
            Polled::Ready(report) => {
                self.pending_read = Some(report);
            },
            Polled::Closed => {
                self.read_closed = true;
            },
            Polled::Pending => {},
        }
        self.search_writes()
    }

    /// Goes on after the Writer's queue was looked at.
    pub fn on_writes(&mut self, polled: Polled<WriterReport>) -> (r: TerminalStep)
        ensures
            (*final(self), r) == after_writes(writes_taken(*old(self), polled)),
    {
        match polled {
            Polled::Ready(report) => {
                self.pending_write = Some(report);
            },
            Polled::Closed => {
                self.write_closed = true;
            },
            Polled::Pending => {},
        }
        self.search_failure()
    }

    /// Goes on after the Reader task was looked at.
    pub fn on_reader_join(&mut self, end: Option<ReaderEnd>) -> (r: TerminalStep)
        ensures
            (*final(self), r) == reader_joined(*old(self), end),
    {
        match end {
            Some(end) => {
                self.reader = false;
                if matches!(end, ReaderEnd::Crashed) {
                    self.poison_with(CleanupPoison::InvariantViolation);
                }
                TerminalStep::Done(Some(IoEvent::ReaderStopped(end)))
            },
            None => self.search_writer_end(),
        }
    }

    /// Goes on after the Writer task was looked at.
    pub fn on_writer_join(&mut self, regular: Option<bool>) -> (r: TerminalStep)
        ensures
            (*final(self), r) == writer_joined(*old(self), regular),
    {
        match regular {
            Some(regular) => {
                self.writer = false;
                if !regular {
                    self.poison_with(CleanupPoison::InvariantViolation);
                }
                TerminalStep::Done(Some(IoEvent::WriterStopped(regular)))
            },
            None => TerminalStep::Done(None),
        }
    }

    fn search_writes(&mut self) -> (r: TerminalStep)
        ensures
            (*final(self), r) == after_reads(*old(self)),
    {
        if self.writer && self.pending_write.is_none() {
            TerminalStep::PollWrites
        } else {
            self.search_failure()
        }
    }

    fn search_failure(&mut self) -> (r: TerminalStep)
        ensures
            (*final(self), r) == after_writes(*old(self)),
    {
        let urgent = match &self.pending_write {
            Some(report) => !matches!(report.outcome, WriteOutcome::Committed),
            None => false,
        };
        if urgent {
            match self.pending_write.take() {
                Some(report) => TerminalStep::Done(Some(IoEvent::Write(report))),
                None => TerminalStep::Done(None),
            }
        } else if self.read_closed {
            TerminalStep::JoinReader
        } else {
            self.search_writer_end()
        }
    }

    fn search_writer_end(&self) -> (r: TerminalStep)
        ensures
            r == after_reader(*self).1,
            *self == after_reader(*self).0,
    {
        if self.write_closed {
            TerminalStep::JoinWriter
        } else {
            TerminalStep::Done(None)
        }
    }

    fn poison_with(&mut self, poison: CleanupPoison)
        ensures
            *final(self) == poisoned(*old(self), poison),
    {
        if self.poison.is_none() {
            self.poison = Some(poison);
        }
    }

    /// Selects an ordinary event when nothing urgent was found. Frames and write
    /// reports take turns.
    pub fn select_ordinary(&mut self) -> (r: Selection)
        ensures
            (*final(self), r) == ordinary(*old(self)),
    {
        if self.pending_read.is_some() && (self.prefer_read || self.pending_write.is_none()) {
            self.prefer_read = false;
            return match self.pending_read.take() {
                Some(report) => Selection::Event(IoEvent::Read(report)),
                None => Selection::Wait,
            };
        }
        if self.pending_write.is_some() {
            self.prefer_read = true;
            return match self.pending_write.take() {
                Some(report) => Selection::Event(IoEvent::Write(report)),
                None => Selection::Wait,
            };
        }
        if !self.reader && !self.writer {
            Selection::Finished
        } else {
            Selection::Wait
        }
    }

    /// Decides what a cleanup with this deadline does at `now`. A cleanup that
    /// runs out of time is not proved.
    pub fn cleanup_step(&mut self, now: MonoTime, deadline: MonoTime) -> (r: CleanupStep)
        ensures
            (*final(self), r) == cleanup_next(*old(self), now, deadline),
    {
        if !self.reader && !self.writer {
            CleanupStep::Finished
        } else if now.nanos >= deadline.nanos {
            self.poison_with(CleanupPoison::TaskDidNotStop);
            CleanupStep::Abort
        } else {
            CleanupStep::Wait
        }
    }

    /// Returns what cleanup proved.
    pub fn cleanup_result(&self) -> (r: CleanupResult)
        ensures
            r == result_of(*self),
    {
        match self.poison {
            Some(poison) => CleanupResult::Poisoned(poison),
            None => CleanupResult::Clean,
        }
    }

    /// Tries cleanup once more after an unproved one; `queues_empty` is whether
    /// both report queues are drained. Both tasks joined and nothing left over
    /// proves it.
    pub fn recover(&mut self, queues_empty: bool) -> (r: CleanupResult)
        ensures
            *final(self) == recovered(*old(self), queues_empty),
            r == result_of(*final(self)),
    {
        if !self.reader && !self.writer && self.pending_read.is_none()
            && self.pending_write.is_none() && queues_empty {
            self.poison = None;
        }
        self.cleanup_result()
    }
}

/// A cleanup ends when both tasks were joined or its deadline passed.
pub open spec fn cleanup_next(tasks: IoTasks, now: MonoTime, deadline: MonoTime) -> (
    IoTasks,
    CleanupStep,
) {
    if !tasks.reader && !tasks.writer {
        (tasks, CleanupStep::Finished)
    } else if now.nanos >= deadline.nanos {
        (poisoned(tasks, CleanupPoison::TaskDidNotStop), CleanupStep::Abort)
    } else {
        (tasks, CleanupStep::Wait)
    }
}

/// The first reason stays.
pub open spec fn poisoned(tasks: IoTasks, poison: CleanupPoison) -> IoTasks {
    IoTasks {
        poison: match tasks.poison {
            Some(first) => Some(first),
            None => Some(poison),
        },
        ..tasks
    }
}

/// What cleanup proved.
pub open spec fn result_of(tasks: IoTasks) -> CleanupResult {
    match tasks.poison {
        Some(poison) => CleanupResult::Poisoned(poison),
        None => CleanupResult::Clean,
    }
}

/// Both tasks were joined and no report is left over.
pub open spec fn released(tasks: IoTasks, queues_empty: bool) -> bool {
    !tasks.reader && !tasks.writer && tasks.pending_read is None && tasks.pending_write is None
        && queues_empty
}

/// Both tasks joined and nothing left over ends the doubt.
pub open spec fn recovered(tasks: IoTasks, queues_empty: bool) -> IoTasks {
    if released(tasks, queues_empty) {
        IoTasks { poison: None, ..tasks }
    } else {
        tasks
    }
}

/// A search begins with the queue of every task whose oldest report is unknown.
pub open spec fn terminal_begun(tasks: IoTasks) -> (IoTasks, TerminalStep) {
    let fresh = IoTasks { read_closed: false, write_closed: false, ..tasks };
    if fresh.reader && fresh.pending_read is None {
        (fresh, TerminalStep::PollReads)
    } else {
        after_reads(fresh)
    }
}

/// A frame is kept until it is handed out.
pub open spec fn reads_taken(tasks: IoTasks, polled: Polled<ReaderReport>) -> IoTasks {
    match polled {
        Polled::Ready(report) => IoTasks { pending_read: Some(report), ..tasks },
        Polled::Closed => IoTasks { read_closed: true, ..tasks },
        Polled::Pending => tasks,
    }
}

/// A write report is kept until it is handed out.
pub open spec fn writes_taken(tasks: IoTasks, polled: Polled<WriterReport>) -> IoTasks {
    match polled {
        Polled::Ready(report) => IoTasks { pending_write: Some(report), ..tasks },
        Polled::Closed => IoTasks { write_closed: true, ..tasks },
        Polled::Pending => tasks,
    }
}

/// The Writer's queue follows.
pub open spec fn after_reads(tasks: IoTasks) -> (IoTasks, TerminalStep) {
    if tasks.writer && tasks.pending_write is None {
        (tasks, TerminalStep::PollWrites)
    } else {
        after_writes(tasks)
    }
}

/// A failed write ends the search; the end of the Reader follows.
pub open spec fn after_writes(tasks: IoTasks) -> (IoTasks, TerminalStep) {
    if tasks.pending_write is Some && failed(tasks.pending_write->0) {
        (
            IoTasks { pending_write: None, ..tasks },
            TerminalStep::Done(Some(IoEvent::Write(tasks.pending_write->0))),
        )
    } else if tasks.read_closed {
        (tasks, TerminalStep::JoinReader)
    } else {
        after_reader(tasks)
    }
}

/// The end of the Writer follows.
pub open spec fn after_reader(tasks: IoTasks) -> (IoTasks, TerminalStep) {
    if tasks.write_closed {
        (tasks, TerminalStep::JoinWriter)
    } else {
        (tasks, TerminalStep::Done(None))
    }
}

/// A joined Reader ends the search; a crash cannot be cleaned up by proof.
pub open spec fn reader_joined(tasks: IoTasks, end: Option<ReaderEnd>) -> (IoTasks, TerminalStep) {
    match end {
        Some(end) => {
            let joined = IoTasks { reader: false, ..tasks };
            (
                if end == ReaderEnd::Crashed {
                    poisoned(joined, CleanupPoison::InvariantViolation)
                } else {
                    joined
                },
                TerminalStep::Done(Some(IoEvent::ReaderStopped(end))),
            )
        },
        None => after_reader(tasks),
    }
}

/// A joined Writer ends the search; a crash cannot be cleaned up by proof.
pub open spec fn writer_joined(tasks: IoTasks, regular: Option<bool>) -> (IoTasks, TerminalStep) {
    match regular {
        Some(regular) => {
            let joined = IoTasks { writer: false, ..tasks };
            (
                if !regular {
                    poisoned(joined, CleanupPoison::InvariantViolation)
                } else {
                    joined
                },
                TerminalStep::Done(Some(IoEvent::WriterStopped(regular))),
            )
        },
        None => (tasks, TerminalStep::Done(None)),
    }
}

/// Frames and write reports take turns; without either the tasks are waited for
/// until both are gone.
pub open spec fn ordinary(tasks: IoTasks) -> (IoTasks, Selection) {
    if tasks.pending_read is Some && (tasks.prefer_read || tasks.pending_write is None) {
        (
            IoTasks { prefer_read: false, pending_read: None, ..tasks },
            Selection::Event(IoEvent::Read(tasks.pending_read->0)),
        )
    } else if tasks.pending_write is Some {
        (
            IoTasks { prefer_read: true, pending_write: None, ..tasks },
            Selection::Event(IoEvent::Write(tasks.pending_write->0)),
        )
    } else if !tasks.reader && !tasks.writer {
        (tasks, Selection::Finished)
    } else {
        (tasks, Selection::Wait)
    }
}

/// Ordinary events alternate: with a frame and a write report both waiting, two
/// selections hand out both, whichever goes first.
pub proof fn law_ordinary_sources_alternate(tasks: IoTasks)
    requires
        tasks.pending_read is Some,
        tasks.pending_write is Some,
    ensures
        ({
            let (middle, first) = ordinary(tasks);
            let (after, second) = ordinary(middle);
            &&& after.pending_read is None
            &&& after.pending_write is None
            &&& after.prefer_read == tasks.prefer_read
            &&& tasks.prefer_read ==> first == Selection::Event(
                IoEvent::Read(tasks.pending_read->0),
            ) && second == Selection::Event(IoEvent::Write(tasks.pending_write->0))
            &&& !tasks.prefer_read ==> first == Selection::Event(
                IoEvent::Write(tasks.pending_write->0),
            ) && second == Selection::Event(IoEvent::Read(tasks.pending_read->0))
        }),
{
}

/// A failed write is handed out before the end of either task is even looked at,
/// and before any frame.
pub proof fn law_failed_write_is_first(tasks: IoTasks)
    requires
        tasks.pending_write is Some,
        failed(tasks.pending_write->0),
    ensures
        after_reads(tasks).1 == TerminalStep::Done(Some(IoEvent::Write(tasks.pending_write->0))),
        after_reads(tasks).0.pending_read == tasks.pending_read,
{
}

/// A report that was taken from its queue stays in custody until it is handed
/// out: joining a task never discards one.
pub proof fn law_joining_keeps_reports(
    tasks: IoTasks,
    end: Option<ReaderEnd>,
    regular: Option<bool>,
)
    ensures
        reader_joined(tasks, end).0.pending_read == tasks.pending_read,
        reader_joined(tasks, end).0.pending_write == tasks.pending_write,
        writer_joined(tasks, regular).0.pending_read == tasks.pending_read,
        writer_joined(tasks, regular).0.pending_write == tasks.pending_write,
{
}

/// Reports come before the end of their task: a search looks at the end of the
/// Reader only after it found the frames exhausted, and at the end of the Writer
/// only after it found the write reports exhausted.
pub proof fn law_reports_precede_ends(
    tasks: IoTasks,
    reads: Polled<ReaderReport>,
    writes: Polled<WriterReport>,
    end: Option<ReaderEnd>,
)
    ensures
        ({
            let (looked, step) = searched(tasks, reads, writes);
            let (joined, next) = reader_joined(looked, end);
            &&& step is JoinReader ==> looked.pending_read is None && reads is Closed
            &&& step is JoinWriter ==> looked.pending_write is None && writes is Closed
            &&& step is JoinReader && next is JoinWriter ==> joined.pending_write is None
                && writes is Closed
        }),
{
}

/// A search up to the point where the queues were looked at.
pub open spec fn searched(
    tasks: IoTasks,
    reads: Polled<ReaderReport>,
    writes: Polled<WriterReport>,
) -> (IoTasks, TerminalStep) {
    let (begun, first) = terminal_begun(tasks);
    let (read, second) = if first is PollReads {
        after_reads(reads_taken(begun, reads))
    } else {
        (begun, first)
    };
    if second is PollWrites {
        after_writes(writes_taken(read, writes))
    } else {
        (read, second)
    }
}

/// A cleanup that is over proves both tasks joined or says why it does not, and
/// the first reason stays through every later cleanup.
pub proof fn law_clean_means_joined(tasks: IoTasks, now: MonoTime, deadline: MonoTime)
    ensures
        ({
            let (after, step) = cleanup_next(tasks, now, deadline);
            &&& step != CleanupStep::Wait && result_of(after) == CleanupResult::Clean ==> !after.reader
                && !after.writer
            &&& tasks.poison is Some ==> result_of(after) == result_of(tasks)
        }),
{
}

/// A recovery proves the release of both tasks and of every report, and nothing
/// less ends the doubt.
pub proof fn law_recovery_needs_proof(tasks: IoTasks, queues_empty: bool)
    requires
        tasks.poison is Some,
    ensures
        result_of(recovered(tasks, queues_empty)) == CleanupResult::Clean <==> !tasks.reader
            && !tasks.writer && tasks.pending_read is None && tasks.pending_write is None
            && queues_empty,
{
}

} // verus!
