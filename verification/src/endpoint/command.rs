//! Commands on their way from a handle to the runtime, and their answers.

use crate::api::{
    ControlIntent, PrimaryMessage, ReplyIntent, ReplyToken, SecondaryMessage, SendReceipt,
};
use crate::endpoint::error::EndpointError;
use crate::generation::driver::command::DriverCommandResult;
use crate::model::ids::ConnectionGeneration;
use crate::secs2::SecsItem;
use crate::sync::channel::answer;
use tokio::sync::{oneshot, OwnedSemaphorePermit};
use vstd::prelude::*;

verus! {

/// Address of a listening socket.
#[derive(Clone, Copy, Debug, PartialEq, Eq)]
pub enum ListenAddress {
    /// An IPv4 address.
    V4 {
        /// Address bytes.
        octets: [u8; 4],
        /// Port.
        port: u16,
    },
    /// An IPv6 address.
    V6 {
        /// Address bytes.
        octets: [u8; 16],
        /// Port.
        port: u16,
        /// Flow information.
        flow_info: u32,
        /// Scope.
        scope_id: u32,
    },
}

/// Acknowledgement that the endpoint runs.
#[derive(Clone, Copy, Debug, PartialEq, Eq)]
pub struct StartReceipt {
    /// Bound address of a passive endpoint, with the assigned port.
    pub local_address: Option<ListenAddress>,
}

impl StartReceipt {
    /// Returns the listener address; an active endpoint has none.
    pub fn local_address(self) -> (r: Option<ListenAddress>)
        ensures
            r == self.local_address,
    {
        self.local_address
    }
}

/// What an application asks of the endpoint, bound to the connection that was
/// visible at that time.
#[derive(Debug, PartialEq, Eq)]
pub enum LifecycleIntent {
    /// Answer a peer's primary.
    Reply {
        /// Connection that carries the answer.
        generation: ConnectionGeneration,
        /// Kind of the answer.
        intent: ReplyIntent,
        /// Capability to answer.
        token: ReplyToken,
        /// Text of a normal Secondary.
        body: Option<SecsItem>,
    },
    /// Send a primary.
    Data {
        /// Connection that carries the primary.
        generation: ConnectionGeneration,
        /// Primary to send.
        message: PrimaryMessage,
        /// Whether a Secondary is awaited.
        reply_expected: bool,
    },
    /// Run a control procedure.
    Control(ConnectionGeneration, ControlIntent),
    /// Run the endpoint.
    Start,
    /// Stop the endpoint, or recover it from a failed cleanup.
    Stop,
    /// Replace the connection, if there was one.
    Disconnect(Option<ConnectionGeneration>),
}

/// Acknowledgement of a command.
#[derive(Debug, PartialEq, Eq)]
pub enum LifecycleReceipt {
    /// The core did not take the reply; its inputs come back.
    RejectedReply {
        /// Kind of the answer.
        intent: ReplyIntent,
        /// Unconsumed capability.
        token: ReplyToken,
        /// Text of the answer.
        body: Option<SecsItem>,
        /// Why it was not taken.
        error: EndpointError,
    },
    /// A send was written in full.
    Sent(SendReceipt),
    /// A request received its Secondary.
    Secondary(SecondaryMessage),
    /// The core did not take the primary; it comes back.
    RejectedPrimary {
        /// Unconsumed primary.
        message: PrimaryMessage,
        /// Why it was not taken.
        error: EndpointError,
    },
    /// The endpoint runs.
    Started(StartReceipt),
    /// The command took effect.
    Closed,
}

/// Answer to a command.
pub type Acknowledgement = Result<LifecycleReceipt, EndpointError>;

/// The way back to a waiting application, with the budget that the command holds
/// until it is answered.
pub struct Envelope {
    /// Waiting application.
    pub completion: oneshot::Sender<Acknowledgement>,
    /// Slot among the commands in flight.
    pub permit: OwnedSemaphorePermit,
    /// Bytes of a message.
    pub bytes: Option<OwnedSemaphorePermit>,
}

impl Envelope {
    /// The waiting application was sent this answer.
    pub closed spec fn completed(self, result: Acknowledgement) -> bool {
        exists|back: Result<(), Acknowledgement>| #[trigger]
            call_ensures(answer::<Acknowledgement>, (self.completion, result), back)
    }

    /// Answers the application and releases the budget. An application that no
    /// longer waits is not an error.
    pub fn complete(self, result: Acknowledgement)
        ensures
            self.completed(result),
    {
        let _ = answer(self.completion, result);
    }
}

/// One command in flight.
pub struct LifecycleCommand {
    /// What is asked.
    pub intent: LifecycleIntent,
    /// The way back.
    pub envelope: Envelope,
}

/// Acknowledgement owed for the Driver's result.
pub open spec fn receipt_of(result: DriverCommandResult) -> Acknowledgement {
    match result {
        DriverCommandResult::PrimaryRejected { message, error, .. } => Ok(
            LifecycleReceipt::RejectedPrimary { message, error: EndpointError::Operation(error) },
        ),
        DriverCommandResult::Control(Ok(_)) => Ok(LifecycleReceipt::Closed),
        DriverCommandResult::Control(Err(error)) => Err(EndpointError::Operation(error)),
        DriverCommandResult::Send(Ok(receipt)) => Ok(LifecycleReceipt::Sent(receipt)),
        DriverCommandResult::Send(Err(error)) => Err(EndpointError::Operation(error)),
        DriverCommandResult::Request(Ok(message)) => Ok(LifecycleReceipt::Secondary(message)),
        DriverCommandResult::Request(Err(error)) => Err(EndpointError::Operation(error)),
        DriverCommandResult::ReplyRejected { intent, token, body, error } => Ok(
            LifecycleReceipt::RejectedReply {
                intent,
                token,
                body,
                error: EndpointError::Operation(error),
            },
        ),
    }
}

/// Returns the acknowledgement owed for the Driver's result.
pub fn receipt(result: DriverCommandResult) -> (r: Acknowledgement)
    ensures
        r == receipt_of(result),
{
    match result {
        DriverCommandResult::PrimaryRejected { message, error, .. } => Ok(
            LifecycleReceipt::RejectedPrimary { message, error: EndpointError::Operation(error) },
        ),
        DriverCommandResult::Control(result) => match result {
            Ok(()) => Ok(LifecycleReceipt::Closed),
            Err(error) => Err(EndpointError::Operation(error)),
        },
        DriverCommandResult::Send(result) => match result {
            Ok(receipt) => Ok(LifecycleReceipt::Sent(receipt)),
            Err(error) => Err(EndpointError::Operation(error)),
        },
        DriverCommandResult::Request(result) => match result {
            Ok(message) => Ok(LifecycleReceipt::Secondary(message)),
            Err(error) => Err(EndpointError::Operation(error)),
        },
        DriverCommandResult::ReplyRejected { intent, token, body, error } => Ok(
            LifecycleReceipt::RejectedReply {
                intent,
                token,
                body,
                error: EndpointError::Operation(error),
            },
        ),
    }
}

/// Acknowledgement owed for a command that the runtime never took up.
pub open spec fn stopped_receipt_of(intent: LifecycleIntent) -> Acknowledgement {
    match intent {
        LifecycleIntent::Reply { intent, token, body, .. } => Ok(
            LifecycleReceipt::RejectedReply {
                intent,
                token,
                body,
                error: EndpointError::RuntimeStopped,
            },
        ),
        LifecycleIntent::Data { message, .. } => Ok(
            LifecycleReceipt::RejectedPrimary { message, error: EndpointError::RuntimeStopped },
        ),
        _ => Err(EndpointError::RuntimeStopped),
    }
}

/// Returns the acknowledgement owed for a command that the runtime never took up.
pub fn stopped_receipt(intent: LifecycleIntent) -> (r: Acknowledgement)
    ensures
        r == stopped_receipt_of(intent),
{
    match intent {
        LifecycleIntent::Reply { intent, token, body, .. } => Ok(
            LifecycleReceipt::RejectedReply {
                intent,
                token,
                body,
                error: EndpointError::RuntimeStopped,
            },
        ),
        LifecycleIntent::Data { message, .. } => Ok(
            LifecycleReceipt::RejectedPrimary { message, error: EndpointError::RuntimeStopped },
        ),
        _ => Err(EndpointError::RuntimeStopped),
    }
}

} // verus!
