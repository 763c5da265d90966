//! Violations found while decoding inbound frames.

use crate::protocol::header::DataHeader;
use crate::protocol::message::ProtocolMessage;
use crate::secs2::SecsItemError;
use vstd::prelude::*;

verus! {

/// Header rule that an inbound frame broke.
#[derive(Clone, Copy, Debug, PartialEq, Eq, Structural)]
pub enum HeaderViolationKind {
    /// The session type is unknown.
    UnknownSessionType {
        /// Received session type.
        s_type: u8,
    },
    /// The presentation type is unknown.
    UnknownPresentationType {
        /// Received presentation type.
        p_type: u8,
    },
    /// A header byte holds a value that the message type forbids.
    InvalidField {
        /// Index of the header byte.
        index: u8,
    },
}

/// Payload rule that an inbound Data message broke.
#[derive(Clone, Copy, Debug, PartialEq, Eq, Structural)]
pub enum PayloadViolationKind {
    /// The message text is no SECS-II item.
    MalformedSecs2,
    /// The message text exceeds a decoder limit.
    ResourceLimitExceeded,
}

/// Rule that an inbound message broke.
#[derive(Clone, Copy, Debug, PartialEq, Eq, Structural)]
pub enum InboundViolationKind {
    /// A header rule.
    Header(HeaderViolationKind),
    /// A payload rule.
    Payload(PayloadViolationKind),
}

/// Violation handed to the protocol core.
#[derive(Clone, Copy, Debug, PartialEq, Eq)]
pub enum InboundViolation {
    /// A header rule was broken.
    Header {
        /// Received header bytes.
        header: [u8; 10],
        /// Broken rule.
        kind: HeaderViolationKind,
    },
    /// A payload rule was broken.
    Payload {
        /// Validated Data header.
        header: DataHeader,
        /// Broken rule.
        kind: PayloadViolationKind,
    },
}

/// Result of decoding the front of the inbound byte stream.
#[derive(Debug, PartialEq, Eq)]
pub enum DecodeStep {
    /// One valid message.
    Message(ProtocolMessage),
    /// One complete frame with a broken header.
    HeaderViolation {
        /// Received header bytes.
        header: [u8; 10],
        /// Broken rule.
        kind: HeaderViolationKind,
    },
    /// One complete Data frame with a broken payload.
    PayloadViolation {
        /// Validated Data header.
        header: DataHeader,
        /// Broken rule.
        kind: PayloadViolationKind,
        /// Failure of the SECS-II decoder.
        source: SecsItemError,
    },
    /// More bytes are needed to complete the frame.
    NeedMore(FrameReadProgress),
}

/// How far the current frame has been received.
#[derive(Clone, Copy, Debug, PartialEq, Eq, Structural)]
pub enum FrameReadProgress {
    /// The four-byte length prefix is incomplete.
    AwaitingLength {
        /// Received prefix bytes.
        bytes_seen: u8,
    },
    /// The message is incomplete.
    PartialBody {
        /// Message Length announced by the prefix.
        target_length: usize,
        /// Received message bytes.
        bytes_seen: usize,
    },
}

} // verus!
