//! Values exchanged between the protocol core and the generation runtime.

use crate::error::TimeoutKind;
use crate::model::ids::{TimerId, WriteId};
use vstd::prelude::*;

verus! {

/// Identity and kind of one armed timer.
#[derive(Clone, Copy, Debug, PartialEq, Eq, Hash, Structural)]
pub struct TimerToken {
    /// Identity of the timer.
    pub id: TimerId,
    /// Protocol role of the timer.
    pub kind: TimeoutKind,
}

impl TimerToken {
    /// Pairs a timer identity with its role.
    pub fn new(id: TimerId, kind: TimeoutKind) -> (r: Self)
        ensures
            r == (TimerToken { id, kind }),
    {
        TimerToken { id, kind }
    }

    /// Returns the identity of the timer.
    pub fn id(self) -> (r: TimerId)
        ensures
            r == self.id,
    {
        self.id
    }

    /// Returns the role of the timer.
    pub fn kind(self) -> (r: TimeoutKind)
        ensures
            r == self.kind,
    {
        self.kind
    }
}

/// Time since the epoch of a generation.
#[derive(Clone, Copy, Debug, PartialEq, Eq, Hash, Structural)]
pub struct MonoTime {
    /// Elapsed nanoseconds.
    pub nanos: u128,
}

impl MonoTime {
    /// Wraps elapsed nanoseconds.
    pub fn from_nanos(nanos: u128) -> (r: Self)
        ensures
            r.nanos == nanos,
    {
        MonoTime { nanos }
    }

    /// Time `nanos` later, when it can be counted.
    pub open spec fn spec_after(self, nanos: u128) -> Option<MonoTime> {
        if self.nanos + nanos <= u128::MAX {
            Some(MonoTime { nanos: (self.nanos + nanos) as u128 })
        } else {
            None
        }
    }

    /// Returns the time `nanos` later, when it can be counted.
    pub fn checked_add(self, nanos: u128) -> (r: Option<MonoTime>)
        ensures
            r == self.spec_after(nanos),
    {
        if nanos <= u128::MAX - self.nanos {
            Some(MonoTime { nanos: self.nanos + nanos })
        } else {
            None
        }
    }

    /// Earlier of two times.
    pub open spec fn spec_earlier(self, other: MonoTime) -> MonoTime {
        if self.nanos <= other.nanos {
            self
        } else {
            other
        }
    }

    /// Returns the earlier of two times.
    pub fn earlier(self, other: MonoTime) -> (r: MonoTime)
        ensures
            r == self.spec_earlier(other),
    {
        if self.nanos <= other.nanos {
            self
        } else {
            other
        }
    }
}

/// Category of a transport failure.
#[derive(Clone, Copy, Debug, PartialEq, Eq, Structural)]
pub enum TransportFaultKind {
    /// The peer reset the connection.
    ConnectionReset,
    /// The peer no longer reads.
    BrokenPipe,
    /// The stream ended inside a frame.
    UnexpectedEof,
    /// A write deadline passed.
    TimedOut,
    /// The transport accepted no byte.
    WriteZero,
    /// The local side cancelled the work.
    Cancelled,
    /// Any other failure.
    Other,
}

/// Failure of the byte transport.
#[derive(Clone, Copy, Debug, PartialEq, Eq, Structural)]
pub struct TransportFault {
    /// Category of the failure.
    pub kind: TransportFaultKind,
}

impl TransportFault {
    /// Wraps a failure category.
    pub fn new(kind: TransportFaultKind) -> (r: Self)
        ensures
            r.kind == kind,
    {
        TransportFault { kind }
    }

    /// Returns the failure category.
    pub fn kind(self) -> (r: TransportFaultKind)
        ensures
            r == self.kind,
    {
        self.kind
    }
}

/// Terminal fact of one admitted frame.
#[derive(Clone, Copy, Debug, PartialEq, Eq, Structural)]
pub enum WriteOutcome {
    /// The whole frame reached the transport.
    Committed,
    /// No byte reached the transport.
    NotWritten(TransportFault),
    /// Some bytes reached the transport.
    Indeterminate(TransportFault),
}

/// Write that must settle before the transport may close.
#[derive(Clone, Copy, Debug, PartialEq, Eq, Structural)]
pub enum CloseBarrier {
    /// The transport may close at once.
    Immediate,
    /// The transport stays open until this write has settled.
    AfterWrite(WriteId),
}

/// Communications timer that ended a generation.
#[derive(Clone, Copy, Debug, PartialEq, Eq, Structural)]
pub enum CommunicationsTimeoutKind {
    /// Control-transaction reply timeout.
    T6,
    /// Maximum `NotSelected` tenure.
    T7,
    /// Inter-byte timeout.
    T8,
}

/// Why a generation closes.
#[derive(Clone, Copy, Debug, PartialEq, Eq, Structural)]
pub enum GenerationCloseReason {
    /// The application stopped the endpoint.
    LocalStop,
    /// The application disconnected the generation.
    LocalDisconnect,
    /// The application separated the session.
    LocalSeparate,
    /// The peer separated the session.
    SeparateReceived,
    /// The transport failed or ended.
    TransportLost,
    /// The peer violated the protocol.
    ProtocolViolation,
    /// A control frame found no Writer capacity.
    ControlBackpressure,
    /// The application did not keep up with delivery.
    ApplicationBackpressure,
    /// No System Bytes were left.
    SystemBytesExhausted,
    /// An internal invariant failed.
    RuntimeInvariant,
    /// A communications timer expired.
    CommunicationsTimeout(CommunicationsTimeoutKind),
}

/// A later time is later by exactly the span, and the earlier of two times is one of
/// them and not after the other.
pub proof fn law_times_are_added_and_compared(a: MonoTime, b: MonoTime, nanos: u128)
    ensures
        a.spec_after(nanos) matches Some(later) ==> later.nanos == a.nanos + nanos,
        a.spec_after(nanos) is None <==> a.nanos + nanos > u128::MAX,
        a.spec_earlier(b) == a || a.spec_earlier(b) == b,
        a.spec_earlier(b).nanos <= a.nanos,
        a.spec_earlier(b).nanos <= b.nanos,
{
}

} // verus!
