//! Accepted commands, their typed results, and admission failures.

use crate::api::{ControlIntent, PrimaryMessage, ReplyIntent, ReplyToken, SecondaryMessage, SendReceipt};
use crate::error::OperationError;
use crate::model::ids::CommandId;
use crate::secs2::SecsItem;
use vstd::prelude::*;

verus! {

/// Command that the session core executes.
#[derive(Debug, PartialEq, Eq)]
pub enum CoreCommandKind {
    /// Select the session.
    Select,
    /// Deselect the session.
    Deselect,
    /// Probe the connection.
    Linktest,
    /// Separate the session.
    Separate,
    /// Send a primary that expects no reply.
    Send(PrimaryMessage),
    /// Send a primary and await its Secondary.
    Request(PrimaryMessage),
}

/// Typed result delivered to a completion endpoint.
#[derive(Debug, PartialEq, Eq)]
pub enum DriverCommandResult {
    /// A primary failed before the core consumed it.
    PrimaryRejected {
        /// The unconsumed primary.
        message: PrimaryMessage,
        /// The primary was a request.
        reply_expected: bool,
        /// Why it failed.
        error: OperationError,
    },
    /// A reply failed before the core consumed it.
    ReplyRejected {
        /// The attempted reply.
        intent: ReplyIntent,
        /// The unconsumed token.
        token: ReplyToken,
        /// The unconsumed body.
        body: Option<SecsItem>,
        /// Why it failed.
        error: OperationError,
    },
    /// Result of a control command or an abandoned reply.
    Control(Result<(), OperationError>),
    /// Result of a send, a reply or an abort.
    Send(Result<SendReceipt, OperationError>),
    /// Result of a request.
    Request(Result<SecondaryMessage, OperationError>),
}

/// Result type that a completion endpoint expects.
#[derive(Clone, Copy, Debug, PartialEq, Eq, Structural)]
pub enum CompletionKind {
    /// Control result.
    Control,
    /// Send result.
    Send,
    /// Request result.
    Request,
}

impl CompletionKind {
    /// Result owed when the connection ended first.
    pub open spec fn lost(self) -> DriverCommandResult {
        match self {
            CompletionKind::Control => DriverCommandResult::Control(
                Err(OperationError::ConnectionLost),
            ),
            CompletionKind::Send => DriverCommandResult::Send(Err(OperationError::ConnectionLost)),
            CompletionKind::Request => DriverCommandResult::Request(
                Err(OperationError::ConnectionLost),
            ),
        }
    }

    /// Returns the result owed when the connection ended first.
    pub fn connection_lost_result(self) -> (r: DriverCommandResult)
        ensures
            r == self.lost(),
    {
        match self {
            CompletionKind::Control => DriverCommandResult::Control(
                Err(OperationError::ConnectionLost),
            ),
            CompletionKind::Send => DriverCommandResult::Send(Err(OperationError::ConnectionLost)),
            CompletionKind::Request => DriverCommandResult::Request(
                Err(OperationError::ConnectionLost),
            ),
        }
    }
}

/// Command waiting in the accepted FIFO.
#[derive(Debug, PartialEq, Eq)]
pub enum AcceptedCommandKind {
    /// Reply to a peer primary.
    Reply {
        /// What to do with the token.
        intent: ReplyIntent,
        /// Right to answer.
        token: ReplyToken,
        /// Body of a Secondary.
        body: Option<SecsItem>,
    },
    /// Control operation.
    Control(ControlIntent),
    /// Primary that expects no reply.
    Send(PrimaryMessage),
    /// Primary that awaits its Secondary.
    Request(PrimaryMessage),
}

impl AcceptedCommandKind {
    /// Result type of the command.
    pub open spec fn spec_completion_kind(self) -> CompletionKind {
        match self {
            AcceptedCommandKind::Reply { intent, .. } => if intent == ReplyIntent::Abandon {
                CompletionKind::Control
            } else {
                CompletionKind::Send
            },
            AcceptedCommandKind::Control(_) => CompletionKind::Control,
            AcceptedCommandKind::Send(_) => CompletionKind::Send,
            AcceptedCommandKind::Request(_) => CompletionKind::Request,
        }
    }

    /// Returns the result type of the command.
    pub fn completion_kind(&self) -> (r: CompletionKind)
        ensures
            r == self.spec_completion_kind(),
    {
        match self {
            AcceptedCommandKind::Reply { intent, .. } => match intent {
                ReplyIntent::Abandon => CompletionKind::Control,
                _ => CompletionKind::Send,
            },
            AcceptedCommandKind::Control(_) => CompletionKind::Control,
            AcceptedCommandKind::Send(_) => CompletionKind::Send,
            AcceptedCommandKind::Request(_) => CompletionKind::Request,
        }
    }

    /// The command writes a Data frame.
    pub open spec fn writes_data(self) -> bool {
        match self {
            AcceptedCommandKind::Reply { intent, .. } => intent != ReplyIntent::Abandon,
            AcceptedCommandKind::Control(_) => false,
            AcceptedCommandKind::Send(_) => true,
            AcceptedCommandKind::Request(_) => true,
        }
    }

    /// Returns whether the command needs a Data reservation.
    pub fn requires_data_permit(&self) -> (r: bool)
        ensures
            r == self.writes_data(),
    {
        match self {
            AcceptedCommandKind::Reply { intent, .. } => match intent {
                ReplyIntent::Abandon => false,
                _ => true,
            },
            AcceptedCommandKind::Control(_) => false,
            AcceptedCommandKind::Send(_) => true,
            AcceptedCommandKind::Request(_) => true,
        }
    }

    /// The command answers a peer primary with a frame.
    pub open spec fn answers_peer(self) -> bool {
        self is Reply && self->intent != ReplyIntent::Abandon
    }

    /// Returns whether the command answers a peer primary with a frame.
    pub fn is_answer(&self) -> (r: bool)
        ensures
            r == self.answers_peer(),
    {
        match self {
            AcceptedCommandKind::Reply { intent, .. } => match intent {
                ReplyIntent::Abandon => false,
                _ => true,
            },
            _ => false,
        }
    }

    /// Body of the Data frame that the command writes.
    pub open spec fn frame_body(self) -> Option<SecsItem> {
        match self {
            AcceptedCommandKind::Reply { intent, body, .. } => if intent == ReplyIntent::Secondary {
                body
            } else {
                None
            },
            AcceptedCommandKind::Control(_) => None,
            AcceptedCommandKind::Send(message) => message.body,
            AcceptedCommandKind::Request(message) => message.body,
        }
    }

    /// Result that gives the unconsumed command back.
    pub open spec fn spec_rejected(self, error: OperationError) -> DriverCommandResult {
        match self {
            AcceptedCommandKind::Reply { intent, token, body } => {
                DriverCommandResult::ReplyRejected { intent, token, body, error }
            },
            AcceptedCommandKind::Send(message) => DriverCommandResult::PrimaryRejected {
                message,
                reply_expected: false,
                error,
            },
            AcceptedCommandKind::Request(message) => DriverCommandResult::PrimaryRejected {
                message,
                reply_expected: true,
                error,
            },
            AcceptedCommandKind::Control(_) => DriverCommandResult::Control(Err(error)),
        }
    }

    /// Returns the result that gives the unconsumed command back.
    pub fn rejected(self, error: OperationError) -> (r: DriverCommandResult)
        ensures
            r == self.spec_rejected(error),
    {
        match self {
            AcceptedCommandKind::Reply { intent, token, body } => {
                DriverCommandResult::ReplyRejected { intent, token, body, error }
            },
            AcceptedCommandKind::Send(message) => DriverCommandResult::PrimaryRejected {
                message,
                reply_expected: false,
                error,
            },
            AcceptedCommandKind::Request(message) => DriverCommandResult::PrimaryRejected {
                message,
                reply_expected: true,
                error,
            },
            AcceptedCommandKind::Control(_) => DriverCommandResult::Control(Err(error)),
        }
    }
}

/// Accepted command with its completion endpoint and byte charge.
pub struct AcceptedCommand<Completion> {
    /// Bytes charged to the command budget while the command waits.
    pub byte_charge: usize,
    /// The command.
    pub kind: AcceptedCommandKind,
    /// Endpoint that receives the result.
    pub completion: Completion,
}

/// Completion endpoint of a command that the core owns.
pub struct PendingCompletion<Completion> {
    /// Identity of the command.
    pub command_id: CommandId,
    /// Result type that the endpoint expects.
    pub kind: CompletionKind,
    /// Endpoint consumed only after successful result materialization.
    pub completion: Completion,
}

/// Why a control command was not accepted.
#[derive(Clone, Copy, Debug, PartialEq, Eq, Structural)]
pub enum ControlAdmissionErrorKind {
    /// Graceful shutdown accepts no new commands.
    Draining,
    /// The intent has no core command.
    UnsupportedIntent,
    /// The generation is closing.
    Closing,
    /// The command FIFO is full.
    Full,
}

/// Why a Data command was not accepted.
#[derive(Clone, Debug, PartialEq, Eq)]
pub enum DataAdmissionErrorKind {
    /// Graceful shutdown accepts no new commands.
    Draining,
    /// The generation is closing.
    Closing,
    /// The command FIFO or its byte budget is full.
    Full,
    /// The message can never be sent.
    Invalid(OperationError),
}

/// Refused control command with its unconsumed inputs.
pub struct ControlAdmissionError<Completion> {
    /// Why the command was refused.
    pub kind: ControlAdmissionErrorKind,
    /// The refused intent.
    pub intent: ControlIntent,
    /// The unconsumed endpoint.
    pub completion: Completion,
}

impl<Completion> ControlAdmissionError<Completion> {
    /// Returns why the command was refused.
    pub fn kind(&self) -> (r: ControlAdmissionErrorKind)
        ensures
            r == self.kind,
    {
        self.kind
    }

    /// Returns the refused intent.
    pub fn intent(&self) -> (r: ControlIntent)
        ensures
            r == self.intent,
    {
        self.intent
    }

    /// Returns the unconsumed inputs.
    pub fn into_parts(self) -> (r: (ControlIntent, Completion))
        ensures
            r == (self.intent, self.completion),
    {
        (self.intent, self.completion)
    }
}

/// Refused Data command with its unconsumed inputs.
pub struct DataAdmissionError<Completion> {
    /// Why the command was refused.
    pub kind: DataAdmissionErrorKind,
    /// The unconsumed message.
    pub message: PrimaryMessage,
    /// The unconsumed endpoint.
    pub completion: Completion,
}

impl<Completion> DataAdmissionError<Completion> {
    /// Returns why the command was refused.
    pub fn kind(&self) -> (r: &DataAdmissionErrorKind)
        ensures
            *r == self.kind,
    {
        &self.kind
    }

    /// Returns the unconsumed message.
    pub fn message(&self) -> (r: &PrimaryMessage)
        ensures
            *r == self.message,
    {
        &self.message
    }

    /// Returns the unconsumed inputs.
    pub fn into_parts(self) -> (r: (PrimaryMessage, Completion))
        ensures
            r == (self.message, self.completion),
    {
        (self.message, self.completion)
    }
}

} // verus!
