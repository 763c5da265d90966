//! The session core and the ports around the Driver. Their answers are the
//! environment's choice, so nothing is claimed of them here.

use crate::api::ReplyIntent;
use crate::error::OperationError;
use crate::generation::driver::command::{CoreCommandKind, DriverCommandResult};
use crate::lifecycle::state::SessionState;
use crate::model::ids::{CommandId, ConnectionGeneration, WriteId};
use crate::model::runtime::{CloseBarrier, GenerationCloseReason, MonoTime, WriteOutcome};
use crate::protocol::header::DataHeader;
use crate::protocol::message::{DataMessage, ProtocolMessage};
use crate::protocol::violation::InboundViolation;
use crate::secs2::SecsItem;
use std::collections::VecDeque;
use vstd::prelude::*;

verus! {

/// Result that the core reports for a command.
#[derive(Debug, PartialEq, Eq)]
pub enum CoreCommandResult {
    /// Control result.
    Control(Result<(), OperationError>),
    /// Send result: the committed write, or why there is none.
    Send(Result<WriteId, OperationError>),
    /// Request result: the matched Secondary, or why there is none.
    Request(Result<DataMessage, OperationError>),
    /// T3 of the request with this header expired.
    RequestTimedOut(DataHeader),
}

/// One ordered effect requested by the core.
#[derive(Debug, PartialEq, Eq)]
pub enum CoreAction {
    /// Deliver a peer primary, with the capability to answer it.
    DeliverPrimary {
        /// The message.
        message: DataMessage,
        /// Core capability, when the peer expects a reply.
        capability: Option<u64>,
    },
    /// Write a frame.
    SendFrame {
        /// Identity under which the outcome is reported.
        write_id: WriteId,
        /// Message to write.
        message: ProtocolMessage,
    },
    /// Publish a selection state.
    SessionStateChanged(SessionState),
    /// Complete a command.
    CompleteCommand {
        /// Identity of the command.
        command_id: CommandId,
        /// Its result.
        result: CoreCommandResult,
    },
    /// Close the generation.
    CloseGeneration {
        /// Why it closes.
        reason: GenerationCloseReason,
        /// Write that must settle first.
        barrier: CloseBarrier,
    },
}

/// Ordered batch of core effects.
pub type CoreActions = VecDeque<CoreAction>;

/// Diagnostic that the core noticed while handling a message.
#[derive(Clone, Copy, Debug, PartialEq, Eq, Structural)]
pub enum ProtocolNotice {
    /// The peer sent Reject.req.
    RejectReceived {
        /// Reject reason.
        reason: u8,
    },
    /// The peer separated with a nonstandard Control Session ID.
    NonstandardSeparate {
        /// Received Session ID.
        session_id: u16,
    },
    /// A response arrived that matches no open transaction.
    UnexpectedResponse,
}

/// Runtime-neutral protocol core of one generation.
pub trait SessionCore {
    /// The transport is connected.
    fn on_connected(&mut self, now: MonoTime) -> CoreActions;

    /// Executes a control, send or request command.
    fn on_command(&mut self, command_id: CommandId, kind: CoreCommandKind, now: MonoTime) -> CoreActions;

    /// Executes a reply command.
    fn on_reply(
        &mut self,
        command_id: CommandId,
        capability: u64,
        intent: ReplyIntent,
        body: Option<SecsItem>,
        now: MonoTime,
    ) -> CoreActions;

    /// Handles a valid inbound message.
    fn on_message(&mut self, message: ProtocolMessage, now: MonoTime) -> CoreActions;

    /// Handles a malformed inbound message.
    fn on_inbound_violation(&mut self, violation: InboundViolation, now: MonoTime) -> CoreActions;

    /// Handles the terminal fact of an admitted frame.
    fn on_write_outcome_at(
        &mut self,
        write_id: WriteId,
        outcome: WriteOutcome,
        occurred_at: MonoTime,
        now: MonoTime,
    ) -> CoreActions;

    /// Ends the session; `failed_write_id` names a frame that was never admitted.
    fn on_shutdown(
        &mut self,
        reason: GenerationCloseReason,
        failed_write_id: Option<WriteId>,
        now: MonoTime,
    ) -> CoreActions;

    /// Ends the session after a graceful drain.
    fn finish_shutdown_drain(&mut self, reason: GenerationCloseReason, now: MonoTime) -> CoreActions;

    /// Settles every write whose outcome never came.
    fn finalize_writer(&mut self, now: MonoTime) -> CoreActions;

    /// Handles every deadline that is due.
    fn advance_time(&mut self, now: MonoTime) -> CoreActions;

    /// Returns the next deadline.
    fn next_deadline(&self) -> Option<MonoTime>;

    /// Returns whether replies must not follow an outstanding Deselect.req.
    fn replies_blocked(&self) -> bool;

    /// Returns the number of commands that the core still owns.
    fn open_command_count(&self) -> usize;

    /// Returns the number of unanswered reply capabilities.
    fn reply_capability_count(&self) -> usize;

    /// Returns whether the core still owns a command.
    fn owns_command(&self, command_id: CommandId) -> bool;

    /// Returns the selection state.
    fn state(&self) -> Option<SessionState>;

    /// Takes the diagnostic of the last message.
    fn take_notice(&mut self) -> Option<ProtocolNotice>;
}

/// Single-use endpoint that receives the result of a command.
pub trait CommandCompletion {
    /// Delivers the result.
    fn complete(self, result: DriverCommandResult);
}

/// Observer of published session states and diagnostics.
pub trait SessionStateObserver {
    /// Observes a published state.
    fn observe(&mut self, state: SessionState);

    /// Observes a diagnostic.
    fn notice(&mut self, generation: ConnectionGeneration, notice: ProtocolNotice);
}

/// Physical transport close.
pub trait TransportCloser {
    /// Closes the transport.
    fn close(&mut self);
}

} // verus!
