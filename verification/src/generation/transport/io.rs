//! Framed reading and writing of one TCP stream: which bytes are awaited until
//! when, and what is visible to the peer when a write ends.

use crate::generation::transport::buffer;
use crate::generation::transport::buffer::{append, bytes_of, empty_buffer};
use crate::model::runtime::{MonoTime, TransportFault, TransportFaultKind, WriteOutcome};
use crate::protocol::violation::{DecodeStep, FrameReadProgress};
use crate::sync::clock;
use crate::sync::clock::deadline_after;
use bytes::BytesMut;
use tokio::time::Instant;
use vstd::prelude::*;

verus! {

/// Bytes asked of the transport at once.
pub const READ_CHUNK: usize = 8192;

/// A length prefix that no frame of this endpoint can have.
#[derive(Clone, Copy, Debug, PartialEq, Eq, Structural)]
pub struct FramingFault {
    /// Declared Message Length.
    pub declared_length: u32,
}

/// Category of an operating-system I/O failure.
#[derive(Clone, Copy, Debug, PartialEq, Eq, Structural)]
pub enum IoErrorKind {
    /// The peer reset the connection.
    ConnectionReset,
    /// The peer no longer reads.
    BrokenPipe,
    /// The stream ended early.
    UnexpectedEof,
    /// The operation timed out.
    TimedOut,
    /// The transport accepted no byte.
    WriteZero,
    /// Any other category.
    Other,
}

/// Transport fault of an I/O failure.
pub open spec fn spec_transport_fault(kind: IoErrorKind) -> TransportFault {
    TransportFault {
        kind: match kind {
            IoErrorKind::ConnectionReset => TransportFaultKind::ConnectionReset,
            IoErrorKind::BrokenPipe => TransportFaultKind::BrokenPipe,
            IoErrorKind::UnexpectedEof => TransportFaultKind::UnexpectedEof,
            IoErrorKind::TimedOut => TransportFaultKind::TimedOut,
            IoErrorKind::WriteZero => TransportFaultKind::WriteZero,
            IoErrorKind::Other => TransportFaultKind::Other,
        },
    }
}

/// Returns the transport fault of an I/O failure.
pub fn transport_fault(kind: IoErrorKind) -> (r: TransportFault)
    ensures
        r == spec_transport_fault(kind),
{
    TransportFault::new(
        match kind {
            IoErrorKind::ConnectionReset => TransportFaultKind::ConnectionReset,
            IoErrorKind::BrokenPipe => TransportFaultKind::BrokenPipe,
            IoErrorKind::UnexpectedEof => TransportFaultKind::UnexpectedEof,
            IoErrorKind::TimedOut => TransportFaultKind::TimedOut,
            IoErrorKind::WriteZero => TransportFaultKind::WriteZero,
            IoErrorKind::Other => TransportFaultKind::Other,
        },
    )
}

/// A complete frame and the time at which it was decoded.
#[derive(Debug, PartialEq, Eq)]
pub struct ReadFrame {
    /// Ten-byte header as received.
    pub header: [u8; 10],
    /// Message or violation; never an incomplete frame.
    pub decoded: DecodeStep,
    /// Time at which the frame was complete.
    pub occurred_at: MonoTime,
}

/// Why reading ended for good.
#[derive(Clone, Copy, Debug, PartialEq, Eq, Structural)]
pub enum ReadFailure {
    /// The peer ended the stream.
    EndOfStream {
        /// Framing position at which it ended.
        progress: FrameReadProgress,
    },
    /// A length prefix was not acceptable.
    Framing(FramingFault),
    /// The transport failed or reading was cancelled.
    Transport(TransportFault),
    /// A partial frame made no progress within T8.
    IntercharacterTimeout,
    /// T8 cannot be represented on the clock.
    DeadlineOverflow,
}

/// What the reader needs next.
#[derive(Debug, PartialEq, Eq)]
pub enum ReadStep {
    /// A complete frame.
    Frame(ReadFrame),
    /// The end of reading.
    Failed(ReadFailure),
    /// More bytes.
    Await {
        /// Most bytes to read.
        amount: usize,
        /// Time until which some byte must arrive.
        deadline: Option<MonoTime>,
        /// Framing position.
        progress: FrameReadProgress,
    },
}

/// What happened while the reader waited for bytes.
#[derive(Debug)]
pub enum ReadEvent<'a> {
    /// Reading was cancelled.
    Cancelled,
    /// The deadline passed.
    DeadlinePassed,
    /// The transport failed.
    Failed(IoErrorKind),
    /// The transport delivered these bytes; none at the end of the stream.
    Received(&'a [u8]),
}

/// Bytes that an incomplete frame still needs.
pub open spec fn missing(progress: FrameReadProgress) -> int {
    match progress {
        FrameReadProgress::AwaitingLength { bytes_seen } => 4 - bytes_seen,
        FrameReadProgress::PartialBody { target_length, bytes_seen } => target_length
            - bytes_seen,
    }
}

/// Header within the bytes of a frame: it follows the four-byte length prefix.
pub open spec fn header_of(bytes: Seq<u8>) -> Option<Seq<u8>> {
    if bytes.len() >= 14 {
        Some(bytes.subrange(4, 14))
    } else {
        None
    }
}

/// Time until which a byte must arrive, given the end of T8 after the last byte of
/// a partial frame, when the clock reaches it.
pub open spec fn read_deadline(last_progress: Option<MonoTime>, t8_end: Option<MonoTime>) -> Result<
    Option<MonoTime>,
    ReadFailure,
> {
    if last_progress is Some && t8_end is None {
        Err(ReadFailure::DeadlineOverflow)
    } else if last_progress is Some {
        Ok(t8_end)
    } else {
        Ok(None)
    }
}

/// What the reader needs after the decoder looked at the received bytes.
pub open spec fn read_step(
    last_progress: Option<MonoTime>,
    header: Option<[u8; 10]>,
    decoded: Result<DecodeStep, FramingFault>,
    t8_end: Option<MonoTime>,
    now: MonoTime,
) -> ReadStep {
    match decoded {
        Err(fault) => ReadStep::Failed(ReadFailure::Framing(fault)),
        Ok(DecodeStep::NeedMore(progress)) => match read_deadline(last_progress, t8_end) {
            Ok(deadline) => ReadStep::Await {
                amount: if missing(progress) <= READ_CHUNK {
                    missing(progress) as usize
                } else {
                    READ_CHUNK
                },
                deadline,
                progress,
            },
            Err(failure) => ReadStep::Failed(failure),
        },
        Ok(step) => ReadStep::Frame(
            ReadFrame { header: header->0, decoded: step, occurred_at: now },
        ),
    }
}

/// T8 position after the decoder looked at the received bytes: a complete frame
/// ends it.
pub open spec fn progress_kept(
    last_progress: Option<MonoTime>,
    decoded: Result<DecodeStep, FramingFault>,
) -> Option<MonoTime> {
    match decoded {
        Err(_) => last_progress,
        Ok(DecodeStep::NeedMore(_)) => last_progress,
        Ok(_) => None,
    }
}

/// What the decoder may report of a frame whose header is this one.
pub open spec fn decodable(
    header: Option<[u8; 10]>,
    decoded: Result<DecodeStep, FramingFault>,
) -> bool {
    match decoded {
        Ok(DecodeStep::NeedMore(progress)) => missing(progress) >= 0,
        Ok(_) => header is Some,
        Err(_) => true,
    }
}

/// One generation's received bytes and T8 position.
pub struct FrameReader {
    buffer: BytesMut,
    last_progress: Option<MonoTime>,
    epoch: Instant,
}

impl FrameReader {
    /// Received bytes that were not decoded yet.
    pub closed spec fn bytes(&self) -> Seq<u8> {
        buffer::contents(self.buffer)
    }

    /// Time of the last received byte, while a frame is incomplete.
    pub closed spec fn progressed(&self) -> Option<MonoTime> {
        self.last_progress
    }

    /// Start of the reader's clock.
    pub closed spec fn started(&self) -> Instant {
        self.epoch
    }

    /// T8 after the last byte of a partial frame ends at this time, or the clock
    /// does not reach that.
    pub open spec fn t8_told(&self, t8: u128, t8_end: Option<MonoTime>) -> bool {
        match self.progressed() {
            Some(last) => clock::deadline_told(self.started(), last, t8, t8_end),
            None => t8_end is None,
        }
    }

    /// Creates a reader that received nothing.
    pub fn new(epoch: Instant) -> (r: Self)
        ensures
            r.bytes() == Seq::<u8>::empty(),
            r.progressed() is None,
            r.started() == epoch,
    {
        FrameReader { buffer: empty_buffer(), last_progress: None, epoch }
    }

    /// Lends the received bytes to the decoder, which takes complete frames out.
    pub fn buffer_mut(&mut self) -> (r: &mut BytesMut)
        ensures
            buffer::contents(*r) == old(self).bytes(),
            final(self).bytes() == buffer::contents(*final(r)),
            final(self).progressed() == old(self).progressed(),
            final(self).started() == old(self).started(),
    {
        &mut self.buffer
    }

    /// Returns the ten-byte header of the first frame once it has arrived.
    pub fn header(&self) -> (r: Option<[u8; 10]>)
        ensures
            match header_of(self.bytes()) {
                Some(header) => r is Some && r->0@ == header,
                None => r is None,
            },
    {
        let bytes = bytes_of(&self.buffer);
        if bytes.len() < 14 {
            return None;
        }
        let header = [
            bytes[4],
            bytes[5],
            bytes[6],
            bytes[7],
            bytes[8],
            bytes[9],
            bytes[10],
            bytes[11],
            bytes[12],
            bytes[13],
        ];
        assert(header@ =~= self.bytes().subrange(4, 14));
        Some(header)
    }

    /// Continues after the decoder looked at the received bytes; `header` is the
    /// header that they began with before.
    pub fn on_decoded(
        &mut self,
        header: Option<[u8; 10]>,
        decoded: Result<DecodeStep, FramingFault>,
        t8: u128,
        now: MonoTime,
    ) -> (r: ReadStep)
        requires
            decodable(header, decoded),
        ensures
            final(self).bytes() == old(self).bytes(),
            final(self).started() == old(self).started(),
            final(self).progressed() == progress_kept(old(self).progressed(), decoded),
            exists|t8_end: Option<MonoTime>|
                {
                    &&& #[trigger] old(self).t8_told(t8, t8_end)
                    &&& r == read_step(old(self).progressed(), header, decoded, t8_end, now)
                },
    {
        let t8_end = match self.last_progress {
            Some(last) => deadline_after(&self.epoch, last, t8),
            None => None,
        };
        assert(self.t8_told(t8, t8_end));
        self.on_decoded_until(header, decoded, t8_end, now)
    }

    /// Continues after the decoder looked at the received bytes; `t8_end` is the
    /// end of T8 after the last byte of a partial frame, when the clock reaches it.
    pub fn on_decoded_until(
        &mut self,
        header: Option<[u8; 10]>,
        decoded: Result<DecodeStep, FramingFault>,
        t8_end: Option<MonoTime>,
        now: MonoTime,
    ) -> (r: ReadStep)
        requires
            decodable(header, decoded),
        ensures
            final(self).bytes() == old(self).bytes(),
            final(self).started() == old(self).started(),
            final(self).progressed() == progress_kept(old(self).progressed(), decoded),
            r == read_step(old(self).progressed(), header, decoded, t8_end, now),
    {
        let decoded = match decoded {
            Ok(step) => step,
            Err(fault) => {
                return ReadStep::Failed(ReadFailure::Framing(fault));
            },
        };
        let progress = match &decoded {
            DecodeStep::NeedMore(progress) => *progress,
            _ => {
                self.last_progress = None;
                let header = header.unwrap();
                return ReadStep::Frame(ReadFrame { header, decoded, occurred_at: now });
            },
        };
        let needed: usize = match progress {
            FrameReadProgress::AwaitingLength { bytes_seen } => 4 - bytes_seen as usize,
            FrameReadProgress::PartialBody { target_length, bytes_seen } => target_length
                - bytes_seen,
        };
        let deadline = match self.last_progress {
            None => None,
            Some(_) => match t8_end {
                Some(deadline) => Some(deadline),
                None => {
                    return ReadStep::Failed(ReadFailure::DeadlineOverflow);
                },
            },
        };
        let amount: usize = if needed <= READ_CHUNK {
            needed
        } else {
            READ_CHUNK
        };
        ReadStep::Await { amount, deadline, progress }
    }

    /// Takes what happened while waiting. Received bytes restart T8.
    pub fn on_event(
        &mut self,
        event: ReadEvent<'_>,
        progress: FrameReadProgress,
        now: MonoTime,
    ) -> (r: Result<(), ReadFailure>)
        requires
            event matches ReadEvent::Received(bytes) ==> old(self).bytes().len() + bytes@.len()
                <= isize::MAX,
        ensures
            r is Ok <==> read_end(event, progress) is None,
            r matches Err(failure) ==> read_end(event, progress) == Some(failure),
            r is Err ==> final(self).bytes() == old(self).bytes() && final(self).progressed()
                == old(self).progressed(),
            r is Ok ==> event is Received && final(self).bytes() == old(self).bytes()
                + event->Received_0@ && final(self).progressed() == Some(now),
            final(self).started() == old(self).started(),
    {
        match event {
            ReadEvent::Cancelled => Err(
                ReadFailure::Transport(TransportFault::new(TransportFaultKind::Cancelled)),
            ),
            ReadEvent::DeadlinePassed => Err(ReadFailure::IntercharacterTimeout),
            ReadEvent::Failed(kind) => Err(ReadFailure::Transport(transport_fault(kind))),
            ReadEvent::Received(bytes) => {
                if bytes.len() == 0 {
                    return Err(ReadFailure::EndOfStream { progress });
                }
                append(&mut self.buffer, bytes);
                self.last_progress = Some(now);
                Ok(())
            },
        }
    }
}

/// Failure that ends reading, where an event does: nothing received is the end of the
/// stream.
pub open spec fn read_end(event: ReadEvent<'_>, progress: FrameReadProgress) -> Option<
    ReadFailure,
> {
    match event {
        ReadEvent::Cancelled => Some(
            ReadFailure::Transport(TransportFault { kind: TransportFaultKind::Cancelled }),
        ),
        ReadEvent::DeadlinePassed => Some(ReadFailure::IntercharacterTimeout),
        ReadEvent::Failed(kind) => Some(ReadFailure::Transport(spec_transport_fault(kind))),
        ReadEvent::Received(bytes) => if bytes@.len() == 0 {
            Some(ReadFailure::EndOfStream { progress })
        } else {
            None
        },
    }
}

/// What happened while a frame waited to be written.
#[derive(Clone, Copy, Debug, PartialEq, Eq, Structural)]
pub enum WriteEvent {
    /// Writing was cancelled.
    Cancelled,
    /// The deadline passed.
    DeadlinePassed,
    /// The transport failed.
    Failed(IoErrorKind),
    /// The transport accepted this many bytes.
    Accepted(usize),
}

/// Outcome of a write that failed with `offset` bytes accepted.
pub open spec fn spec_failed_write(offset: int, fault: TransportFault) -> WriteOutcome {
    if offset == 0 {
        WriteOutcome::NotWritten(fault)
    } else {
        WriteOutcome::Indeterminate(fault)
    }
}

/// Returns the outcome of a write that failed with `offset` bytes accepted.
pub fn failed_write(offset: usize, fault: TransportFault) -> (r: WriteOutcome)
    ensures
        r == spec_failed_write(offset as int, fault),
{
    if offset == 0 {
        WriteOutcome::NotWritten(fault)
    } else {
        WriteOutcome::Indeterminate(fault)
    }
}

/// Fault of an event that ends a write early; accepting no byte is one.
pub open spec fn write_fault(event: WriteEvent) -> Option<TransportFault> {
    match event {
        WriteEvent::Cancelled => Some(TransportFault { kind: TransportFaultKind::Cancelled }),
        WriteEvent::DeadlinePassed => Some(TransportFault { kind: TransportFaultKind::TimedOut }),
        WriteEvent::Failed(kind) => Some(spec_transport_fault(kind)),
        WriteEvent::Accepted(count) => if count == 0 {
            Some(TransportFault { kind: TransportFaultKind::WriteZero })
        } else {
            None
        },
    }
}

/// One frame on its way to the transport.
#[derive(Clone, Copy, Debug, PartialEq, Eq, Structural)]
pub struct FrameWrite {
    length: usize,
    offset: usize,
}

impl FrameWrite {
    /// Bytes of the frame.
    pub closed spec fn length(&self) -> nat {
        self.length as nat
    }

    /// Bytes that the transport accepted.
    pub closed spec fn accepted(&self) -> nat {
        self.offset as nat
    }

    /// No more was accepted than the frame has.
    pub open spec fn valid(&self) -> bool {
        self.accepted() <= self.length()
    }

    /// Starts a frame of `length` bytes.
    pub fn new(length: usize) -> (r: Self)
        ensures
            r.length() == length,
            r.accepted() == 0,
            r.valid(),
    {
        FrameWrite { length, offset: 0 }
    }

    /// Returns how many bytes the transport accepted.
    pub fn offset(&self) -> (r: usize)
        ensures
            r == self.accepted(),
    {
        self.offset
    }

    /// Returns whether the whole frame was accepted.
    pub fn is_complete(&self) -> (r: bool)
        requires
            self.valid(),
        ensures
            r == (self.accepted() == self.length()),
    {
        self.offset >= self.length
    }

    /// Takes what happened to the rest of the frame. The write ends when
    /// everything was accepted or nothing more will be.
    pub fn on_event(&mut self, event: WriteEvent) -> (r: Option<WriteOutcome>)
        requires
            old(self).valid(),
            event matches WriteEvent::Accepted(count) ==> old(self).accepted() + count
                <= old(self).length(),
        ensures
            final(self).valid(),
            final(self).length() == old(self).length(),
            final(self).accepted() == old(self).accepted() + accepted_by(event),
            r == write_step(old(self).length(), old(self).accepted(), event),
    {
        let fault = match event {
            WriteEvent::Cancelled => TransportFault::new(TransportFaultKind::Cancelled),
            WriteEvent::DeadlinePassed => TransportFault::new(TransportFaultKind::TimedOut),
            WriteEvent::Failed(kind) => transport_fault(kind),
            WriteEvent::Accepted(count) => {
                if count != 0 {
                    self.offset = self.offset + count;
                    return if self.offset >= self.length {
                        Some(WriteOutcome::Committed)
                    } else {
                        None
                    };
                }
                TransportFault::new(TransportFaultKind::WriteZero)
            },
        };
        Some(failed_write(self.offset, fault))
    }
}

/// Bytes that an event reports as accepted.
pub open spec fn accepted_by(event: WriteEvent) -> nat {
    match event {
        WriteEvent::Accepted(count) => count as nat,
        _ => 0,
    }
}

/// Outcome owed for an event at `offset` of a frame of `length` bytes, if it ends
/// the write.
pub open spec fn write_step(length: nat, offset: nat, event: WriteEvent) -> Option<WriteOutcome> {
    match write_fault(event) {
        Some(fault) => Some(spec_failed_write(offset as int, fault)),
        None => if offset + accepted_by(event) == length {
            Some(WriteOutcome::Committed)
        } else {
            None
        },
    }
}

/// Bytes accepted over a series of events.
pub open spec fn accepted_over(events: Seq<WriteEvent>) -> nat
    decreases events.len(),
{
    if events.len() == 0 {
        0
    } else {
        accepted_over(events.drop_last()) + accepted_by(events.last())
    }
}

/// Outcome of a frame of `length` bytes after a series of events: that of the
/// first event that ends the write.
pub open spec fn outcome_over(length: nat, events: Seq<WriteEvent>) -> Option<WriteOutcome>
    decreases events.len(),
{
    if events.len() == 0 {
        None
    } else {
        let before = outcome_over(length, events.drop_last());
        match before {
            Some(_) => before,
            None => write_step(length, accepted_over(events.drop_last()), events.last()),
        }
    }
}

/// A write ends as committed exactly when the transport accepted every byte, as
/// not written only when it accepted none, and as indeterminate only when it
/// accepted some but not all.
pub proof fn law_outcome_is_visibility(length: nat, events: Seq<WriteEvent>)
    requires
        events.len() > 0,
        outcome_over(length, events.drop_last()) is None,
        accepted_over(events) <= length,
        length > 0,
    ensures
        match outcome_over(length, events) {
            Some(WriteOutcome::Committed) => accepted_over(events) == length,
            Some(WriteOutcome::NotWritten(_)) => accepted_over(events) == 0,
            Some(WriteOutcome::Indeterminate(_)) => 0 < accepted_over(events) < length,
            None => accepted_over(events) < length,
        },
{
    lemma_open_write(length, events.drop_last());
}

/// A write that did not end has bytes left.
proof fn lemma_open_write(length: nat, events: Seq<WriteEvent>)
    requires
        outcome_over(length, events) is None,
        accepted_over(events) <= length,
        length > 0,
    ensures
        accepted_over(events) < length,
    decreases events.len(),
{
    if events.len() > 0 {
        lemma_open_write(length, events.drop_last());
    }
}

} // verus!
