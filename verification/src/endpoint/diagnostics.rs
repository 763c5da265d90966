//! Best-effort diagnostics, apart from reliable delivery.

use crate::error::TimeoutKind;
use crate::generation::driver::ports::ProtocolNotice;
use crate::lifecycle::state::ConnectionCloseReason;
use crate::model::ids::ConnectionGeneration;
use crate::model::runtime::{CommunicationsTimeoutKind, GenerationCloseReason};
use crate::sync::channel;
use crate::sync::channel::{bounded_queue, try_send, Refused};
use crate::sync::semaphore::MAX_PERMITS;
use tokio::sync::mpsc;
use vstd::prelude::*;

verus! {

/// Observation of a running endpoint.
#[derive(Clone, Debug, PartialEq, Eq)]
#[non_exhaustive]
pub enum DiagnosticEvent {
    /// A generation finished its bounded cleanup.
    ConnectionClosed {
        /// Generation that ended.
        generation: ConnectionGeneration,
        /// Why it ended.
        reason: ConnectionCloseReason,
        /// Whether its resources are proved released.
        clean: bool,
    },
    /// A connection attempt failed before there was a generation.
    ConnectionAttemptFailed {
        /// Description of the failure.
        message: String,
    },
    /// A protocol observation that owns no message.
    Protocol {
        /// Generation that observed it.
        generation: ConnectionGeneration,
        /// Observation.
        notice: ProtocolNotice,
    },
}

/// One delivered observation with its publication sequence.
#[derive(Clone, Debug, PartialEq, Eq)]
pub struct DiagnosticRecord {
    /// Attempt that the record belongs to; gaps are omitted observations.
    pub sequence: u64,
    /// Observation.
    pub event: DiagnosticEvent,
}

impl DiagnosticRecord {
    /// Returns the publication sequence.
    pub fn sequence(&self) -> (r: u64)
        ensures
            r == self.sequence,
    {
        self.sequence
    }

    /// Returns the observation.
    pub fn event(&self) -> (r: &DiagnosticEvent)
        ensures
            *r == self.event,
    {
        &self.event
    }

    /// Takes the observation out of the record.
    pub fn into_event(self) -> (r: DiagnosticEvent)
        ensures
            r == self.event,
    {
        self.event
    }
}

/// Publication counters: the next sequence, and how many attempts were omitted.
#[derive(Clone, Copy, Debug, PartialEq, Eq, Structural)]
pub struct DiagnosticCounters {
    /// Sequence of the next attempt; none once sequences are exhausted.
    pub next: Option<u64>,
    /// Omitted attempts, up to the largest representable count.
    pub dropped: u64,
}

/// Counters before the first attempt.
pub open spec fn fresh_counters() -> DiagnosticCounters {
    DiagnosticCounters { next: Some(0), dropped: 0 }
}

/// Counters after one attempt, given whether a consumer took the record. Without
/// a sequence there is no record to take.
pub open spec fn attempted(counters: DiagnosticCounters, taken: bool) -> DiagnosticCounters {
    DiagnosticCounters {
        next: match counters.next {
            Some(sequence) => if sequence == u64::MAX {
                None
            } else {
                Some((sequence + 1) as u64)
            },
            None => None,
        },
        dropped: if taken && counters.next is Some {
            counters.dropped
        } else if counters.dropped == u64::MAX {
            u64::MAX
        } else {
            (counters.dropped + 1) as u64
        },
    }
}

impl DiagnosticCounters {
    /// Starts counting.
    pub fn new() -> (r: Self)
        ensures
            r == fresh_counters(),
    {
        DiagnosticCounters { next: Some(0), dropped: 0 }
    }

    /// Takes the sequence of the next attempt.
    pub fn take_sequence(&mut self) -> (r: Option<u64>)
        ensures
            r == old(self).next,
            final(self).next == attempted(*old(self), true).next,
            final(self).dropped == old(self).dropped,
    {
        let sequence = self.next;
        self.next = match sequence {
            Some(sequence) => sequence.checked_add(1),
            None => None,
        };
        sequence
    }

    /// Counts an omitted attempt.
    pub fn count_loss(&mut self)
        ensures
            final(self).next == old(self).next,
            final(self).dropped == attempted(*old(self), false).dropped,
    {
        self.dropped = if self.dropped == u64::MAX {
            u64::MAX
        } else {
            self.dropped + 1
        };
    }
}

/// Records taken after one more publication.
pub open spec fn recorded(
    records: Seq<DiagnosticRecord>,
    counters: DiagnosticCounters,
    event: DiagnosticEvent,
    taken: bool,
) -> Seq<DiagnosticRecord> {
    match counters.next {
        Some(sequence) if taken => records.push(DiagnosticRecord { sequence, event }),
        _ => records,
    }
}

/// Publisher of observations; it never waits.
pub struct DiagnosticPublisher {
    records: mpsc::Sender<DiagnosticRecord>,
    counters: DiagnosticCounters,
    taken: Ghost<Seq<DiagnosticRecord>>,
}

impl DiagnosticPublisher {
    /// Publication counters.
    pub closed spec fn counts(&self) -> DiagnosticCounters {
        self.counters
    }

    /// Every record that the stream took, in order.
    pub closed spec fn published(&self) -> Seq<DiagnosticRecord> {
        self.taken@
    }

    /// The stream gave this answer when the record was offered to it.
    pub closed spec fn offered(
        &self,
        record: DiagnosticRecord,
        answer: Result<(), Refused<DiagnosticRecord>>,
    ) -> bool {
        call_ensures(try_send::<DiagnosticRecord>, (&self.records, record), answer)
    }

    /// The observation was offered to the stream under the next sequence, and the
    /// stream took it or not; without a sequence nothing is offered.
    pub open spec fn published_as(&self, event: DiagnosticEvent, taken: bool) -> bool {
        match self.counts().next {
            Some(sequence) => exists|answer: Result<(), Refused<DiagnosticRecord>>|
                {
                    &&& #[trigger] self.offered(DiagnosticRecord { sequence, event }, answer)
                    &&& taken == (answer is Ok)
                },
            None => !taken,
        }
    }

    /// The stream takes what is published here, out of a queue of this bound.
    pub closed spec fn feeds(
        &self,
        stream: mpsc::Receiver<DiagnosticRecord>,
        capacity: usize,
    ) -> bool {
        channel::made_with(capacity, self.records, stream)
    }

    /// Both publishers feed the same stream.
    pub closed spec fn same_stream(&self, other: Self) -> bool {
        self.records == other.records
    }

    /// Creates a publisher with its bounded stream.
    pub fn new(capacity: usize) -> (r: (Self, mpsc::Receiver<DiagnosticRecord>))
        requires
            0 < capacity <= MAX_PERMITS,
        ensures
            r.0.counts() == fresh_counters(),
            r.0.published() == Seq::<DiagnosticRecord>::empty(),
            r.0.feeds(r.1, capacity),
    {
        let (records, receiver) = bounded_queue(capacity);
        (
            DiagnosticPublisher {
                records,
                counters: DiagnosticCounters::new(),
                taken: Ghost(Seq::empty()),
            },
            receiver,
        )
    }

    /// Publishes once. Whether a consumer takes the record is up to the stream;
    /// every attempt consumes a sequence, and an attempt that is not taken is
    /// counted.
    pub fn publish(&mut self, event: DiagnosticEvent)
        ensures
            final(self).same_stream(*old(self)),
            exists|taken: bool|
                {
                    &&& old(self).published_as(event, taken)
                    &&& final(self).counts() == #[trigger] attempted(old(self).counts(), taken)
                    &&& final(self).published() == recorded(
                        old(self).published(),
                        old(self).counts(),
                        event,
                        taken,
                    )
                },
    {
        let ghost before = self.counters;
        let ghost log = self.taken@;
        let ghost observation = event;
        let ghost start = *self;
        let sequence = self.counters.take_sequence();
        let taken = match sequence {
            Some(sequence) => {
                let record = DiagnosticRecord { sequence, event };
                let ghost put = record;
                let answer = try_send(&self.records, record);
                assert(start.offered(put, answer));
                answer.is_ok()
            },
            None => false,
        };
        assert(start.published_as(observation, taken));
        if !taken {
            self.counters.count_loss();
        }
        self.taken = Ghost(recorded(log, before, observation, taken));
        assert(self.counters == attempted(before, taken));
    }

    /// Returns how many observations were omitted.
    pub fn dropped_count(&self) -> (r: u64)
        ensures
            r == self.counts().dropped,
    {
        self.counters.dropped
    }
}

/// Public classification of a close reason.
pub open spec fn public_reason(reason: GenerationCloseReason) -> ConnectionCloseReason {
    match reason {
        GenerationCloseReason::LocalStop => ConnectionCloseReason::LocalStop,
        GenerationCloseReason::LocalDisconnect => ConnectionCloseReason::LocalDisconnect,
        GenerationCloseReason::LocalSeparate => ConnectionCloseReason::LocalSeparate,
        GenerationCloseReason::SeparateReceived => ConnectionCloseReason::SeparateReceived,
        GenerationCloseReason::TransportLost => ConnectionCloseReason::TransportLost,
        GenerationCloseReason::ProtocolViolation => ConnectionCloseReason::ProtocolViolation,
        GenerationCloseReason::ControlBackpressure => ConnectionCloseReason::ControlBackpressure,
        GenerationCloseReason::ApplicationBackpressure => {
            ConnectionCloseReason::ApplicationBackpressure
        },
        GenerationCloseReason::SystemBytesExhausted => ConnectionCloseReason::SystemBytesExhausted,
        GenerationCloseReason::RuntimeInvariant => ConnectionCloseReason::RuntimeInvariant,
        GenerationCloseReason::CommunicationsTimeout(timer) => {
            ConnectionCloseReason::CommunicationsTimeout(
                match timer {
                    CommunicationsTimeoutKind::T6 => TimeoutKind::T6,
                    CommunicationsTimeoutKind::T7 => TimeoutKind::T7,
                    CommunicationsTimeoutKind::T8 => TimeoutKind::T8,
                },
            )
        },
    }
}

/// Returns the public classification of a close reason.
pub fn close_reason(reason: GenerationCloseReason) -> (r: ConnectionCloseReason)
    ensures
        r == public_reason(reason),
{
    match reason {
        GenerationCloseReason::LocalStop => ConnectionCloseReason::LocalStop,
        GenerationCloseReason::LocalDisconnect => ConnectionCloseReason::LocalDisconnect,
        GenerationCloseReason::LocalSeparate => ConnectionCloseReason::LocalSeparate,
        GenerationCloseReason::SeparateReceived => ConnectionCloseReason::SeparateReceived,
        GenerationCloseReason::TransportLost => ConnectionCloseReason::TransportLost,
        GenerationCloseReason::ProtocolViolation => ConnectionCloseReason::ProtocolViolation,
        GenerationCloseReason::ControlBackpressure => ConnectionCloseReason::ControlBackpressure,
        GenerationCloseReason::ApplicationBackpressure => {
            ConnectionCloseReason::ApplicationBackpressure
        },
        GenerationCloseReason::SystemBytesExhausted => ConnectionCloseReason::SystemBytesExhausted,
        GenerationCloseReason::RuntimeInvariant => ConnectionCloseReason::RuntimeInvariant,
        GenerationCloseReason::CommunicationsTimeout(timer) => {
            ConnectionCloseReason::CommunicationsTimeout(
                match timer {
                    CommunicationsTimeoutKind::T6 => TimeoutKind::T6,
                    CommunicationsTimeoutKind::T7 => TimeoutKind::T7,
                    CommunicationsTimeoutKind::T8 => TimeoutKind::T8,
                },
            )
        },
    }
}

/// Counters after a series of attempts.
pub open spec fn attempted_all(counters: DiagnosticCounters, taken: Seq<bool>) -> DiagnosticCounters
    decreases taken.len(),
{
    if taken.len() == 0 {
        counters
    } else {
        attempted(attempted_all(counters, taken.drop_last()), taken.last())
    }
}

/// Attempts that no consumer took.
pub open spec fn omitted(taken: Seq<bool>) -> nat
    decreases taken.len(),
{
    if taken.len() == 0 {
        0
    } else {
        omitted(taken.drop_last()) + if taken.last() {
            0nat
        } else {
            1nat
        }
    }
}

/// Sequences number the attempts and never come back, and every omitted
/// observation is counted: as long as the counters can represent it, the next
/// sequence is the number of attempts and the loss count is the number of
/// attempts that were not taken.
pub proof fn law_every_omission_is_counted(taken: Seq<bool>)
    requires
        taken.len() <= u64::MAX,
    ensures
        attempted_all(fresh_counters(), taken).next == Some(taken.len() as u64),
        attempted_all(fresh_counters(), taken).dropped == omitted(taken),
        omitted(taken) <= taken.len(),
    decreases taken.len(),
{
    if taken.len() > 0 {
        law_every_omission_is_counted(taken.drop_last());
    }
}

/// Records carry ascending sequences below the next one.
pub open spec fn ascending(records: Seq<DiagnosticRecord>, counters: DiagnosticCounters) -> bool {
    &&& forall|i: int, j: int|
        0 <= i < j < records.len() ==> (#[trigger] records[i]).sequence < (
        #[trigger] records[j]).sequence
    &&& counters.next matches Some(next) ==> forall|i: int|
        0 <= i < records.len() ==> (#[trigger] records[i]).sequence < next
}

/// Records keep publication order: their sequences strictly increase, and a gap
/// in them stands for records that were omitted.
pub proof fn law_records_keep_order(
    records: Seq<DiagnosticRecord>,
    counters: DiagnosticCounters,
    event: DiagnosticEvent,
    taken: bool,
)
    requires
        ascending(records, counters),
    ensures
        ascending(Seq::<DiagnosticRecord>::empty(), fresh_counters()),
        ascending(recorded(records, counters, event, taken), attempted(counters, taken)),
{
}

/// Records that the stream took out of a series of publications.
pub open spec fn recorded_all(events: Seq<DiagnosticEvent>, taken: Seq<bool>) -> Seq<
    DiagnosticRecord,
>
    decreases taken.len(),
{
    if taken.len() == 0 {
        Seq::empty()
    } else {
        recorded(
            recorded_all(events.drop_last(), taken.drop_last()),
            attempted_all(fresh_counters(), taken.drop_last()),
            events.last(),
            taken.last(),
        )
    }
}

/// Publications `from` up to but not including `to` were all omitted.
pub open spec fn all_omitted(taken: Seq<bool>, from: int, to: int) -> bool {
    forall|j: int| from <= j < to ==> !#[trigger] taken[j]
}

/// Every record stands for its own publication, and between one record and the next
/// everything was omitted.
pub open spec fn accounted(
    events: Seq<DiagnosticEvent>,
    taken: Seq<bool>,
    records: Seq<DiagnosticRecord>,
) -> bool {
    &&& forall|k: int|
        0 <= k < records.len() ==> {
            &&& (#[trigger] records[k]).sequence < taken.len()
            &&& taken[records[k].sequence as int]
            &&& records[k].event == events[records[k].sequence as int]
        }
    &&& forall|k: int, next: int|
        0 <= k < records.len() && next == k + 1 && next < records.len() ==> {
            &&& (#[trigger] records[k]).sequence < (#[trigger] records[next]).sequence
            &&& all_omitted(
                taken,
                records[k].sequence + 1,
                records[next].sequence as int,
            )
        }
    &&& if records.len() == 0 {
        all_omitted(taken, 0, taken.len() as int)
    } else {
        &&& all_omitted(taken, 0, records[0].sequence as int)
        &&& all_omitted(taken, records.last().sequence + 1, taken.len() as int)
    }
}

proof fn lemma_accounted(events: Seq<DiagnosticEvent>, taken: Seq<bool>)
    requires
        events.len() == taken.len(),
        taken.len() <= u64::MAX,
    ensures
        accounted(events, taken, recorded_all(events, taken)),
    decreases taken.len(),
{
    if taken.len() > 0 {
        let before = taken.drop_last();
        let earlier = events.drop_last();
        lemma_accounted(earlier, before);
        law_every_omission_is_counted(before);
        let old_records = recorded_all(earlier, before);
        let records = recorded_all(events, taken);
        let n = before.len() as int;
        assert(forall|j: int| 0 <= j < n ==> taken[j] == before[j] && events[j] == earlier[j]);
        assert forall|from: int, to: int| 0 <= from && to <= n && #[trigger] all_omitted(
            before,
            from,
            to,
        ) implies all_omitted(taken, from, to) by {
            assert forall|j: int| from <= j < to implies !#[trigger] taken[j] by {
                assert(!before[j]);
            }
        }
        if old_records.len() > 0 {
            assert(all_omitted(before, 0, old_records[0].sequence as int));
            assert(all_omitted(before, old_records.last().sequence + 1, n));
        } else {
            assert(all_omitted(before, 0, n));
        }
        assert forall|k: int, next: int|
            0 <= k < records.len() && next == k + 1 && next < records.len() implies {
            &&& (#[trigger] records[k]).sequence < (#[trigger] records[next]).sequence
            &&& all_omitted(taken, records[k].sequence + 1, records[next].sequence as int)
        } by {
            if next < old_records.len() {
                assert(old_records[k] == records[k] && old_records[next] == records[next]);
                assert(all_omitted(
                    before,
                    old_records[k].sequence + 1,
                    old_records[next].sequence as int,
                ));
            }
        }
        assert forall|k: int| 0 <= k < records.len() implies {
            &&& (#[trigger] records[k]).sequence < taken.len()
            &&& taken[records[k].sequence as int]
            &&& records[k].event == events[records[k].sequence as int]
        } by {
            if k < old_records.len() {
                assert(old_records[k] == records[k]);
            }
        }
    }
}

proof fn lemma_omitted_all(taken: Seq<bool>)
    requires
        all_omitted(taken, 0, taken.len() as int),
    ensures
        omitted(taken) == taken.len(),
    decreases taken.len(),
{
    if taken.len() > 0 {
        assert(!taken[taken.len() - 1]);
        assert forall|j: int| 0 <= j < taken.drop_last().len() implies !#[trigger]
            taken.drop_last()[j] by {
            assert(!taken[j]);
        }
        lemma_omitted_all(taken.drop_last());
    }
}

/// A consumer sees every loss: between a record and the next one that the stream
/// took, the sequences rise and their gap is the number of publications in between
/// that were omitted. Each record carries the observation that was published under
/// its sequence, unchanged.
pub proof fn law_gaps_are_omissions(events: Seq<DiagnosticEvent>, taken: Seq<bool>, k: int)
    requires
        events.len() == taken.len(),
        taken.len() <= u64::MAX,
        0 <= k,
        k + 1 < recorded_all(events, taken).len(),
    ensures
        ({
            let a = recorded_all(events, taken)[k];
            let b = recorded_all(events, taken)[k + 1];
            &&& a.sequence < b.sequence
            &&& b.sequence - a.sequence - 1 == omitted(
                taken.subrange(a.sequence + 1, b.sequence as int),
            )
            &&& a.event == events[a.sequence as int]
            &&& b.event == events[b.sequence as int]
        }),
{
    lemma_accounted(events, taken);
    let records = recorded_all(events, taken);
    let next = k + 1;
    let a = records[k];
    let b = records[next];
    let gap = taken.subrange(a.sequence + 1, b.sequence as int);
    assert(all_omitted(taken, a.sequence + 1, b.sequence as int));
    assert forall|j: int| 0 <= j < gap.len() implies !#[trigger] gap[j] by {
        assert(!taken[a.sequence + 1 + j]);
    }
    lemma_omitted_all(gap);
}

/// The record that the stream takes for a publication is offered under the next
/// sequence and holds exactly the observation that was published.
pub proof fn law_record_holds_its_event(publisher: DiagnosticPublisher, event: DiagnosticEvent)
    requires
        publisher.published_as(event, true),
    ensures
        exists|record: DiagnosticRecord, answer: Result<(), Refused<DiagnosticRecord>>|
            {
                &&& #[trigger] publisher.offered(record, answer)
                &&& answer is Ok
                &&& record.event == event
                &&& Some(record.sequence) == publisher.counts().next
            },
{
}

/// Exhausted sequences never start over: from then on every attempt is an
/// omission.
pub proof fn law_exhaustion_only_counts(counters: DiagnosticCounters, taken: bool)
    requires
        counters.next is None,
    ensures
        attempted(counters, taken).next is None,
        counters.dropped < u64::MAX ==> attempted(counters, taken).dropped == counters.dropped + 1,
{
}

/// Different close reasons stay different in public.
pub proof fn law_public_reason_is_faithful(a: GenerationCloseReason, b: GenerationCloseReason)
    ensures
        public_reason(a) == public_reason(b) ==> a == b,
{
}

} // verus!
