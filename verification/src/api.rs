//! Messages, tokens and receipts exchanged with the application.

use crate::model::ids::{ConnectionGeneration, Function, Stream};
use crate::protocol::header::DataHeader;
use crate::protocol::violation::InboundViolationKind;
use crate::secs2::{SecsItem, SecsItemError};
use vstd::prelude::*;

verus! {

/// Control operation requested by the application.
#[derive(Clone, Copy, Debug, PartialEq, Eq, Structural)]
pub enum ControlIntent {
    /// Select the session.
    Select,
    /// Deselect the session.
    Deselect,
    /// Probe the connection.
    Linktest,
    /// Separate the session.
    Separate,
}

/// What the application does with a reply token.
#[derive(Clone, Copy, Debug, PartialEq, Eq, Structural)]
pub enum ReplyIntent {
    /// Answer with the F+1 Secondary.
    Secondary,
    /// Answer with the header-only F0 abort.
    Abort,
    /// Give the token back unanswered.
    Abandon,
}

/// Generation and exact header of one message.
#[derive(Clone, Copy, Debug, PartialEq, Eq)]
pub struct MessageContext {
    /// Generation that carried the message.
    pub generation: ConnectionGeneration,
    /// Ten header bytes as they stood on the wire.
    pub header: [u8; 10],
}

impl MessageContext {
    /// Records a raw header.
    pub fn from_header(generation: ConnectionGeneration, header: [u8; 10]) -> (r: Self)
        ensures
            r == (MessageContext { generation, header }),
    {
        MessageContext { generation, header }
    }

    /// Records the wire form of a Data header.
    pub fn from_data(generation: ConnectionGeneration, header: DataHeader) -> (r: Self)
        ensures
            r == data_context(generation, header),
    {
        MessageContext { generation, header: header.to_bytes() }
    }

    /// Returns the generation that carried the message.
    pub fn generation(&self) -> (r: ConnectionGeneration)
        ensures
            r == self.generation,
    {
        self.generation
    }

    /// Returns the ten header bytes.
    pub fn header(&self) -> (r: &[u8; 10])
        ensures
            *r == self.header,
    {
        &self.header
    }
}

/// Context of a Data message.
pub open spec fn data_context(
    generation: ConnectionGeneration,
    header: DataHeader,
) -> MessageContext {
    MessageContext { generation, header: header.wire() }
}

/// Primary message of the application or the peer.
#[derive(Clone, Debug, PartialEq, Eq)]
pub struct PrimaryMessage {
    /// SECS stream.
    pub stream: Stream,
    /// SECS function.
    pub function: Function,
    /// Message text.
    pub body: Option<SecsItem>,
}

impl PrimaryMessage {
    /// Collects the parts of a primary.
    pub fn new(stream: Stream, function: Function, body: Option<SecsItem>) -> (r: Self)
        ensures
            r == (PrimaryMessage { stream, function, body }),
    {
        PrimaryMessage { stream, function, body }
    }

    /// Returns the message text.
    pub fn body(&self) -> (r: &Option<SecsItem>)
        ensures
            *r == self.body,
    {
        &self.body
    }
}

/// Secondary message that answered a request.
#[derive(Clone, Debug, PartialEq, Eq)]
pub struct SecondaryMessage {
    /// SECS stream.
    pub stream: Stream,
    /// SECS function.
    pub function: Function,
    /// Message text.
    pub body: Option<SecsItem>,
    /// Generation and header of the message.
    pub context: MessageContext,
}

impl SecondaryMessage {
    /// Collects the parts of a Secondary.
    pub fn new(
        stream: Stream,
        function: Function,
        body: Option<SecsItem>,
        context: MessageContext,
    ) -> (r: Self)
        ensures
            r == (SecondaryMessage { stream, function, body, context }),
    {
        SecondaryMessage { stream, function, body, context }
    }
}

/// Proof that a frame of this generation reached the transport.
#[derive(Clone, Copy, Debug, PartialEq, Eq, Structural)]
pub struct SendReceipt {
    /// Generation that carried the frame.
    pub generation: ConnectionGeneration,
}

impl SendReceipt {
    /// Records the generation that carried the frame.
    pub fn new(generation: ConnectionGeneration) -> (r: Self)
        ensures
            r.generation == generation,
    {
        SendReceipt { generation }
    }

    /// Returns the generation that carried the frame.
    pub fn generation(self) -> (r: ConnectionGeneration)
        ensures
            r == self.generation,
    {
        self.generation
    }
}

/// Exclusive right to answer one peer primary.
#[derive(Debug, PartialEq, Eq)]
pub struct ReplyToken {
    /// Driver that minted the token.
    pub owner: u64,
    /// Core capability that the token stands for.
    pub capability: u64,
    /// Generation that carried the primary.
    pub generation: ConnectionGeneration,
    /// The primary has an F+1 Secondary.
    pub normal_secondary: bool,
}

impl ReplyToken {
    /// Mints the token of a Core capability.
    pub fn from_core(
        owner: u64,
        capability: u64,
        generation: ConnectionGeneration,
        normal_secondary: bool,
    ) -> (r: Self)
        ensures
            r == (ReplyToken { owner, capability, generation, normal_secondary }),
    {
        ReplyToken { owner, capability, generation, normal_secondary }
    }

    /// `owner` minted the token in `generation`.
    pub open spec fn spec_belongs_to(self, owner: u64, generation: ConnectionGeneration) -> bool {
        self.owner == owner && self.generation == generation
    }

    /// Returns whether `owner` minted the token in `generation`.
    pub fn belongs_to(&self, owner: u64, generation: ConnectionGeneration) -> (r: bool)
        ensures
            r == self.spec_belongs_to(owner, generation),
    {
        self.owner == owner && self.generation.value == generation.value
    }

    /// Returns whether the primary has an F+1 Secondary.
    pub fn normal_secondary_available(&self) -> (r: bool)
        ensures
            r == self.normal_secondary,
    {
        self.normal_secondary
    }
}

/// Right that comes with a delivered primary.
#[derive(Debug, PartialEq, Eq)]
pub enum InboundToken {
    /// The peer expects a reply.
    Reply(ReplyToken),
    /// The peer expects none.
    Data,
}

/// Peer primary delivered to the application.
#[derive(Debug, PartialEq, Eq)]
pub struct InboundPrimary {
    /// The message.
    pub message: PrimaryMessage,
    /// Right to answer it.
    pub token: InboundToken,
    /// Generation and header of the message.
    pub context: MessageContext,
}

impl InboundPrimary {
    /// Collects the parts of a delivered primary.
    pub fn new(message: PrimaryMessage, token: InboundToken, context: MessageContext) -> (r: Self)
        ensures
            r == (InboundPrimary { message, token, context }),
    {
        InboundPrimary { message, token, context }
    }

    /// Returns the message.
    pub fn message(&self) -> (r: &PrimaryMessage)
        ensures
            *r == self.message,
    {
        &self.message
    }

    /// Returns generation and header of the message.
    pub fn context(&self) -> (r: &MessageContext)
        ensures
            *r == self.context,
    {
        &self.context
    }

    /// Splits the delivery into message and token.
    pub fn into_parts(self) -> (r: (PrimaryMessage, InboundToken))
        ensures
            r == (self.message, self.token),
    {
        (self.message, self.token)
    }
}

/// Malformed inbound message reported to the application.
#[derive(Debug, PartialEq, Eq)]
pub struct InboundProtocolError {
    /// Generation and header of the message.
    pub context: MessageContext,
    /// What was violated.
    pub kind: InboundViolationKind,
    /// Failure of the SECS-II decoder, for a payload violation.
    pub source: Option<SecsItemError>,
}

impl InboundProtocolError {
    /// Collects the parts of a report.
    pub fn new(
        context: MessageContext,
        kind: InboundViolationKind,
        source: Option<SecsItemError>,
    ) -> (r: Self)
        ensures
            r == (InboundProtocolError { context, kind, source }),
    {
        InboundProtocolError { context, kind, source }
    }
}

/// A token can be used by the Driver that minted it, in its generation, and by no other.
pub proof fn law_tokens_have_one_home(
    token: ReplyToken,
    owner: u64,
    generation: ConnectionGeneration,
)
    ensures
        token.spec_belongs_to(owner, generation) <==> token.owner == owner && token.generation
            == generation,
{
}

} // verus!
