//! Operation classes, visibility and the structured decisions returned by the
//! transaction registry.

use crate::error::TimeoutKind;
use crate::model::ids::{Function, OperationId, SystemBytes};
use crate::model::runtime::TimerToken;
use crate::protocol::message::DataMessage;
use crate::session_core::transaction::matcher::{MismatchField, ResponseMatcher};
use vstd::prelude::*;

verus! {

/// Invalid registry configuration.
#[derive(Clone, Copy, Debug, PartialEq, Eq, Structural)]
pub enum RegistryBuildError {
    /// At least one request must be able to be pending.
    ZeroRequestCapacity,
    /// At least one tombstone must be retained.
    ZeroTombstoneCapacity,
}

/// Why a reservation left the registry unchanged.
#[derive(Clone, Copy, Debug, PartialEq, Eq, Structural)]
pub enum ReserveError {
    /// Generation close has fenced new operations.
    Closing,
    /// The operation already owns a live entry.
    DuplicateOperation {
        /// Operation that is already live.
        operation_id: OperationId,
    },
    /// Every request slot is taken.
    RequestCapacityExhausted {
        /// Configured number of request slots.
        capacity: usize,
    },
    /// The single control slot is taken.
    ControlSlotOccupied {
        /// Control transaction that holds the slot.
        pending: ControlKind,
    },
    /// The request function cannot be answered by F+1.
    InvalidPrimaryFunction {
        /// Rejected function.
        function: Function,
    },
    /// Every non-zero System Bytes value is occupied.
    SystemBytesExhausted,
    /// Occupancy bookkeeping disagreed with itself.
    OccupancyInvariantViolation,
}

/// Operation that awaits no response.
#[derive(Clone, Copy, Debug, PartialEq, Eq, Structural)]
pub enum OneWayKind {
    /// Data message with W clear.
    Data,
    /// Separate.req.
    Separate,
}

/// Control transaction that awaits a response.
#[derive(Clone, Copy, Debug, PartialEq, Eq, Structural)]
pub enum ControlKind {
    /// Select.req.
    Select,
    /// Deselect.req.
    Deselect,
    /// Linktest.req.
    Linktest,
}

/// Class of a live operation.
#[derive(Clone, Copy, Debug, PartialEq, Eq, Structural)]
pub enum OperationClass {
    /// Data request awaiting its Secondary.
    Request,
    /// Operation that awaits no response.
    OneWay(OneWayKind),
    /// Control transaction awaiting its response.
    Control(ControlKind),
}

/// What the peer may have seen of an operation's frame.
#[derive(Clone, Copy, Debug, PartialEq, Eq, Structural)]
pub enum OperationVisibility {
    /// No byte reached the transport.
    NotVisible,
    /// Some byte may have reached the transport.
    MayBeVisible,
    /// The whole frame reached the transport.
    Committed,
}

impl OperationVisibility {
    /// The peer may still answer an operation in this state.
    pub open spec fn leaves_tombstone(self) -> bool {
        self != OperationVisibility::NotVisible
    }

    /// Returns whether the peer may still answer after the operation ended.
    pub fn needs_tombstone(self) -> (r: bool)
        ensures
            r == self.leaves_tombstone(),
    {
        !matches!(self, OperationVisibility::NotVisible)
    }
}

/// Terminal fact retained in a tombstone.
#[derive(Clone, Copy, Debug, PartialEq, Eq, Structural)]
pub enum TombstoneCategory {
    /// The exact Secondary arrived.
    ResponseMatched,
    /// The peer aborted with F0.
    AbortReceived,
    /// T3 expired.
    T3Expired,
    /// The write failed before completion although it may have been visible.
    NotWrittenAfterVisibility,
    /// Delivery could not be determined.
    DeliveryIndeterminate,
    /// The generation closed after the frame may have been visible.
    ClosedAfterVisibility,
    /// A one-way frame was committed.
    OneWayCommitted,
    /// The exact control response arrived.
    ControlResponseMatched,
    /// T6 expired.
    ControlExpired,
    /// The peer answered with Reject.req.
    PeerRejected,
}

/// How a late peer message relates to the retained terminal fact.
#[derive(Clone, Copy, Debug, PartialEq, Eq, Structural)]
pub enum TombstoneArrival {
    /// It repeats the message that ended the operation.
    Duplicate,
    /// It arrived after the operation had ended otherwise.
    Late,
}

/// Live operation as the registry tracks it.
#[derive(Clone, Copy, Debug, PartialEq, Eq, Structural)]
pub struct LiveOperation {
    /// Transaction correlation value.
    pub system_bytes: SystemBytes,
    /// Class of the operation.
    pub class: OperationClass,
    /// What the peer may have seen.
    pub visibility: OperationVisibility,
    /// Armed response timer.
    pub timer: Option<TimerToken>,
    /// Response contract of a request.
    pub matcher: Option<ResponseMatcher>,
}

/// What a tombstone still recognizes.
#[derive(Clone, Copy, Debug, PartialEq, Eq, Structural)]
pub enum TombstoneSubject {
    /// Ended request with its response contract.
    Request(ResponseMatcher),
    /// Ended one-way operation.
    OneWay(OneWayKind),
    /// Ended control transaction.
    Control(ControlKind),
}

/// Bounded record of an ended operation whose peer messages may still arrive.
#[derive(Clone, Copy, Debug, PartialEq, Eq, Structural)]
pub struct Tombstone {
    /// Operation that ended.
    pub operation_id: OperationId,
    /// Correlation value it keeps occupied.
    pub system_bytes: SystemBytes,
    /// What is still recognized.
    pub subject: TombstoneSubject,
    /// How the operation ended.
    pub category: TombstoneCategory,
}

/// Reserved request identity.
#[derive(Clone, Copy, Debug, PartialEq, Eq, Structural)]
pub struct ReservedRequest {
    /// Operation that owns the reservation.
    pub operation_id: OperationId,
    /// Allocated correlation value.
    pub system_bytes: SystemBytes,
}

impl ReservedRequest {
    /// Returns the operation that owns the reservation.
    pub fn operation_id(self) -> (r: OperationId)
        ensures
            r == self.operation_id,
    {
        self.operation_id
    }

    /// Returns the allocated correlation value.
    pub fn system_bytes(self) -> (r: SystemBytes)
        ensures
            r == self.system_bytes,
    {
        self.system_bytes
    }
}

/// Reserved one-way identity.
#[derive(Clone, Copy, Debug, PartialEq, Eq, Structural)]
pub struct ReservedOneWay {
    /// Operation that owns the reservation.
    pub operation_id: OperationId,
    /// Allocated correlation value.
    pub system_bytes: SystemBytes,
    /// Kind of the one-way operation.
    pub kind: OneWayKind,
}

impl ReservedOneWay {
    /// Returns the operation that owns the reservation.
    pub fn operation_id(self) -> (r: OperationId)
        ensures
            r == self.operation_id,
    {
        self.operation_id
    }

    /// Returns the allocated correlation value.
    pub fn system_bytes(self) -> (r: SystemBytes)
        ensures
            r == self.system_bytes,
    {
        self.system_bytes
    }

    /// Returns the kind of the one-way operation.
    pub fn kind(self) -> (r: OneWayKind)
        ensures
            r == self.kind,
    {
        self.kind
    }
}

/// Reserved control identity.
#[derive(Clone, Copy, Debug, PartialEq, Eq, Structural)]
pub struct ReservedControl {
    /// Operation that owns the reservation.
    pub operation_id: OperationId,
    /// Allocated correlation value.
    pub system_bytes: SystemBytes,
    /// Kind of the control transaction.
    pub kind: ControlKind,
}

impl ReservedControl {
    /// Returns the operation that owns the reservation.
    pub fn operation_id(self) -> (r: OperationId)
        ensures
            r == self.operation_id,
    {
        self.operation_id
    }

    /// Returns the allocated correlation value.
    pub fn system_bytes(self) -> (r: SystemBytes)
        ensures
            r == self.system_bytes,
    {
        self.system_bytes
    }

    /// Returns the kind of the control transaction.
    pub fn kind(self) -> (r: ControlKind)
        ensures
            r == self.kind,
    {
        self.kind
    }
}

/// Effect of reporting that a frame may have become visible.
#[derive(Clone, Copy, Debug, PartialEq, Eq, Structural)]
pub enum MarkVisibleDecision {
    /// The operation became possibly visible.
    Marked {
        /// Class of the operation.
        class: OperationClass,
    },
    /// The operation was already at least possibly visible.
    Unchanged {
        /// Class of the operation.
        class: OperationClass,
        /// Retained visibility.
        visibility: OperationVisibility,
    },
    /// The operation has ended.
    AlreadyTerminal {
        /// How it ended.
        category: TombstoneCategory,
    },
    /// The operation was never reserved or is no longer retained.
    UnknownOperation,
}

/// Effect of reporting a committed request or control frame.
#[derive(Clone, Copy, Debug, PartialEq, Eq, Structural)]
pub enum CommitDecision {
    /// The response timer must be armed.
    ArmTimer {
        /// Operation whose frame was committed.
        operation_id: OperationId,
        /// Its correlation value.
        system_bytes: SystemBytes,
        /// Its class.
        class: OperationClass,
        /// Timer that it now owns.
        token: TimerToken,
    },
    /// The operation already owns a timer.
    AlreadyCommitted {
        /// Timer that it owns.
        token: TimerToken,
    },
    /// The operation has ended.
    AlreadyTerminal {
        /// How it ended.
        category: TombstoneCategory,
    },
    /// One-way operations own no timer.
    WrongOperationKind {
        /// Class of the operation.
        actual: OperationClass,
    },
    /// The token has the wrong role for the operation.
    WrongTimerKind {
        /// Role that the operation needs.
        expected: TimeoutKind,
        /// Role of the supplied token.
        actual: TimeoutKind,
    },
    /// Another operation owns the token.
    TimerTokenInUse {
        /// Token that is owned already.
        token: TimerToken,
    },
    /// The operation was never reserved or is no longer retained.
    UnknownOperation,
}

/// Effect of finishing an operation from its write outcome.
#[derive(Clone, Copy, Debug, PartialEq, Eq, Structural)]
pub enum FinishDecision {
    /// The live operation was removed.
    Finished {
        /// Operation that ended.
        operation_id: OperationId,
        /// Its correlation value.
        system_bytes: SystemBytes,
        /// Its class.
        class: OperationClass,
        /// What the peer may have seen.
        visibility: OperationVisibility,
        /// Timer to cancel.
        cancel_timer: Option<TimerToken>,
        /// Retained terminal fact.
        tombstone: Option<TombstoneCategory>,
    },
    /// The operation has ended before.
    AlreadyTerminal {
        /// How it ended.
        category: TombstoneCategory,
    },
    /// Only one-way operations end by their commit.
    WrongOperationKind {
        /// Class of the operation.
        actual: OperationClass,
    },
    /// The operation was never reserved or is no longer retained.
    UnknownOperation,
}

/// Effect of finishing an operation that the peer rejected.
#[derive(Clone, Copy, Debug, PartialEq, Eq, Structural)]
pub enum PeerRejectFinishDecision {
    /// The operation has ended before.
    AlreadyTerminal {
        /// How it ended.
        category: TombstoneCategory,
    },
}

/// Match found before the request frame was committed.
#[derive(Clone, Copy, Debug, PartialEq, Eq, Structural)]
pub enum PrematureDataMatch {
    /// The exact Secondary arrived early.
    Secondary,
}

/// Effect of a timer expiry.
#[derive(Clone, Copy, Debug, PartialEq, Eq, Structural)]
pub enum ExpiryDecision {
    /// The owning operation timed out.
    Expired {
        /// Operation that timed out.
        operation_id: OperationId,
        /// Its correlation value.
        system_bytes: SystemBytes,
        /// Its class.
        class: OperationClass,
        /// What the peer may have seen.
        visibility: OperationVisibility,
    },
    /// The token has the wrong role.
    WrongTimerKind {
        /// Role that this expiry handles.
        expected: TimeoutKind,
        /// Role of the supplied token.
        actual: TimeoutKind,
    },
    /// No live operation owns the token.
    Stale,
}

/// Entry whose System Bytes a non-matching Data message carried.
#[derive(Clone, Copy, Debug, PartialEq, Eq, Structural)]
pub enum CollisionSource {
    /// A live request whose contract rejected the message.
    LiveRequest {
        /// First rejecting field.
        field: MismatchField,
    },
    /// A live one-way operation.
    LiveOneWay {
        /// Kind of the operation.
        kind: OneWayKind,
    },
    /// The live control transaction.
    LiveControl {
        /// Kind of the transaction.
        kind: ControlKind,
    },
    /// An ended request whose contract rejected the message.
    RequestTombstone {
        /// How the request ended.
        category: TombstoneCategory,
        /// First rejecting field.
        field: MismatchField,
    },
    /// Another ended operation.
    Tombstone {
        /// How the operation ended.
        category: TombstoneCategory,
    },
}

/// Classification of one inbound Data message.
#[derive(Clone, Debug, PartialEq, Eq)]
pub enum InboundDataDecision {
    /// Odd function: a peer primary.
    PrimaryCandidate {
        /// The message.
        message: DataMessage,
    },
    /// The exact Secondary of a live request.
    MatchedSecondary {
        /// Request that ended.
        operation_id: OperationId,
        /// The message.
        message: DataMessage,
        /// T3 to cancel.
        cancel_t3: Option<TimerToken>,
        /// What the peer may have seen.
        visibility: OperationVisibility,
    },
    /// The header-only F0 abort of a live request.
    Aborted {
        /// Request that ended.
        operation_id: OperationId,
        /// The message.
        message: DataMessage,
        /// T3 to cancel.
        cancel_t3: Option<TimerToken>,
        /// What the peer may have seen.
        visibility: OperationVisibility,
    },
    /// A response to an ended request.
    Tombstoned {
        /// Request that had ended.
        operation_id: OperationId,
        /// The message.
        message: DataMessage,
        /// How the request ended.
        category: TombstoneCategory,
        /// Relation of the message to that end.
        arrival: TombstoneArrival,
    },
    /// System Bytes are known but the message does not match.
    Mismatch {
        /// The message.
        message: DataMessage,
        /// Entry that holds the System Bytes.
        collision: CollisionSource,
    },
    /// Even function with unknown System Bytes.
    OrphanSecondary {
        /// The message.
        message: DataMessage,
    },
}

/// Entry that a non-matching control response collided with.
#[derive(Clone, Copy, Debug, PartialEq, Eq, Structural)]
pub enum ControlCollision {
    /// The live control transaction.
    Live {
        /// Kind of the transaction.
        kind: ControlKind,
        /// Its correlation value.
        system_bytes: SystemBytes,
    },
    /// An ended control transaction of another kind.
    Tombstone {
        /// Kind of the ended transaction.
        kind: ControlKind,
        /// How it ended.
        category: TombstoneCategory,
    },
    /// An ended operation that was no control transaction.
    OtherTombstone {
        /// How it ended.
        category: TombstoneCategory,
    },
}

/// Classification of one inbound control response.
#[derive(Clone, Copy, Debug, PartialEq, Eq, Structural)]
pub enum ControlTakeDecision {
    /// The response of the live control transaction.
    Matched {
        /// Transaction that ended.
        operation_id: OperationId,
        /// Its correlation value.
        system_bytes: SystemBytes,
        /// Its kind.
        kind: ControlKind,
        /// T6 to cancel.
        cancel_t6: Option<TimerToken>,
        /// What the peer may have seen.
        visibility: OperationVisibility,
    },
    /// A response to an ended control transaction.
    Tombstoned {
        /// Transaction that had ended.
        operation_id: OperationId,
        /// How it ended.
        category: TombstoneCategory,
        /// Relation of the response to that end.
        arrival: TombstoneArrival,
    },
    /// The response matches no control transaction.
    Mismatch {
        /// Entry that it collided with.
        collision: ControlCollision,
    },
    /// No control transaction is pending or retained.
    NoPending,
}

/// One operation ended by generation close.
#[derive(Clone, Copy, Debug, PartialEq, Eq, Structural)]
pub struct CloseOperation {
    /// Operation that ended.
    pub operation_id: OperationId,
    /// Its correlation value.
    pub system_bytes: SystemBytes,
    /// Its class.
    pub class: OperationClass,
    /// Timer to cancel.
    pub cancel_timer: Option<TimerToken>,
    /// What the peer may have seen.
    pub visibility: OperationVisibility,
    /// Retained terminal fact.
    pub tombstone: Option<TombstoneCategory>,
}

impl CloseOperation {
    /// Returns the operation that ended.
    pub fn operation_id(self) -> (r: OperationId)
        ensures
            r == self.operation_id,
    {
        self.operation_id
    }

    /// Returns its correlation value.
    pub fn system_bytes(self) -> (r: SystemBytes)
        ensures
            r == self.system_bytes,
    {
        self.system_bytes
    }

    /// Returns its class.
    pub fn class(self) -> (r: OperationClass)
        ensures
            r == self.class,
    {
        self.class
    }

    /// Returns the timer to cancel.
    pub fn cancel_timer(self) -> (r: Option<TimerToken>)
        ensures
            r == self.cancel_timer,
    {
        self.cancel_timer
    }

    /// Returns what the peer may have seen.
    pub fn visibility(self) -> (r: OperationVisibility)
        ensures
            r == self.visibility,
    {
        self.visibility
    }

    /// Returns the retained terminal fact.
    pub fn tombstone(self) -> (r: Option<TombstoneCategory>)
        ensures
            r == self.tombstone,
    {
        self.tombstone
    }
}

/// Operations ended by one close request.
#[derive(Clone, Debug, PartialEq, Eq)]
pub struct CloseDecision {
    /// Whether this request started the close.
    pub began_close: bool,
    /// Ended operations in ascending operation order.
    pub operations: Vec<CloseOperation>,
}

impl CloseDecision {
    /// Returns whether this request started the close.
    pub fn began_close(&self) -> (r: bool)
        ensures
            r == self.began_close,
    {
        self.began_close
    }

    /// Returns the ended operations.
    pub fn operations(&self) -> (r: &[CloseOperation])
        ensures
            r@ == self.operations@,
    {
        self.operations.as_slice()
    }

    /// Returns the ended operations by value.
    pub fn into_operations(self) -> (r: Vec<CloseOperation>)
        ensures
            r == self.operations,
    {
        self.operations
    }
}

} // verus!
