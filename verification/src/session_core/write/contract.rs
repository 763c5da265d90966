//! Write reservations and the terminal facts that end them.

use crate::model::ids::{OperationId, WriteId};
use crate::model::runtime::WriteOutcome;
use vstd::prelude::*;

verus! {

/// Selection transition that a peer response commits when its bytes may be
/// written.
#[derive(Clone, Copy, Debug, PartialEq, Eq, Structural)]
pub enum PeerResponseCommit {
    /// The response changes no selection state.
    Unchanged,
    /// The session becomes selected.
    Select,
    /// The session becomes not selected.
    Deselect,
}

/// Why the scheduler rejected a write.
#[derive(Clone, Copy, Debug, PartialEq, Eq, Structural)]
pub enum ScheduleFailure {
    /// The lane has no free slot.
    CapacityExhausted,
    /// The scheduler has stopped.
    Closed,
}

/// Independently bounded scheduler lane.
#[derive(Clone, Copy, Debug, PartialEq, Eq, Structural)]
pub enum WriteClass {
    /// Control frames.
    Critical,
    /// Data frames.
    Data,
}

/// Semantic transition deferred to one exact writer fence. When the write ends
/// without committing it, the hook comes back and the generation must close.
#[derive(Clone, Copy, Debug, PartialEq, Eq, Structural)]
pub enum BeginWriteHook {
    /// Commit a peer control response before its bytes are authorized.
    PeerResponse(PeerResponseCommit),
}

/// Immutable description under which one outbound frame is reserved.
#[derive(Clone, Copy, Debug, PartialEq, Eq, Structural)]
pub struct WriteSpec {
    /// Identity of the outbound frame.
    pub write_id: WriteId,
    /// Operation that owns the frame.
    pub operation_id: OperationId,
    /// Scheduler lane that the frame occupies.
    pub class: WriteClass,
    /// Work deferred until the exact fence.
    pub begin_hook: Option<BeginWriteHook>,
}

impl WriteSpec {
    /// Creates a complete reservation description.
    pub fn new(
        write_id: WriteId,
        operation_id: OperationId,
        class: WriteClass,
        begin_hook: Option<BeginWriteHook>,
    ) -> (r: Self)
        ensures
            r == (WriteSpec { write_id, operation_id, class, begin_hook }),
    {
        WriteSpec { write_id, operation_id, class, begin_hook }
    }

    /// Returns the write identity.
    pub fn write_id(self) -> (r: WriteId)
        ensures
            r == self.write_id,
    {
        self.write_id
    }

    /// Returns the owning operation.
    pub fn operation_id(self) -> (r: OperationId)
        ensures
            r == self.operation_id,
    {
        self.operation_id
    }

    /// Returns the scheduler lane.
    pub fn class(self) -> (r: WriteClass)
        ensures
            r == self.class,
    {
        self.class
    }

    /// Returns the deferred work.
    pub fn begin_hook(self) -> (r: Option<BeginWriteHook>)
        ensures
            r == self.begin_hook,
    {
        self.begin_hook
    }
}

/// Resolution of a validated writer fence.
#[derive(Clone, Copy, Debug, PartialEq, Eq, Structural)]
pub enum FenceResolution {
    /// The transport may be used.
    Proceed,
    /// The write ends without becoming visible.
    Abort,
}

/// Diagnostic phase of a write.
#[derive(Clone, Copy, Debug, PartialEq, Eq, Structural)]
pub enum WritePhase {
    /// Registered, waiting for the scheduler.
    Scheduling,
    /// Assigned a wire position.
    Queued,
    /// Stopped at its fence.
    Fenced,
    /// Authorized.
    Proceeded,
    /// Rejected, waiting for its cancellation.
    Aborting,
}

/// Terminal source of a write.
#[derive(Clone, Copy, Debug, PartialEq, Eq, Structural)]
pub enum WriteTerminalOutcome {
    /// The scheduler rejected the write.
    ScheduleFailed {
        /// Why it was rejected.
        failure: ScheduleFailure,
        /// Transition that never reached its fence; its presence requires the
        /// generation to close.
        uncommitted_hook: Option<BeginWriteHook>,
    },
    /// A resolved fence reached its visibility outcome.
    Finished {
        /// Visibility of the frame.
        result: WriteOutcome,
        /// Transition not committed before the write ended; its presence requires
        /// the generation to close.
        uncommitted_hook: Option<BeginWriteHook>,
    },
}

} // verus!
