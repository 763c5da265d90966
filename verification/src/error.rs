//! Failures reported at the protocol and endpoint boundaries.

use crate::api::MessageContext;
use crate::model::ids::Function;
use crate::secs2::SecsItemError;
use crate::text::{after_decimal, after_text, around_decimal, around_text};
use vstd::prelude::*;

verus! {

/// Invalid protocol identifier values.
#[derive(Clone, Debug, PartialEq, Eq)]
pub enum IdentifierError {
    /// A Data-message Session ID used the control-only `0xFFFF` value.
    ReservedControlSession,
    /// A stream value exceeded the seven bits available beside the W-bit.
    StreamOutOfRange {
        /// Supplied stream value.
        value: u8,
    },
}

impl IdentifierError {
    /// Text shown for the error.
    pub open spec fn spec_message(self) -> Seq<char> {
        match self {
            IdentifierError::ReservedControlSession => {
                "HSMS session id 0xFFFF is reserved for control messages"@
            },
            IdentifierError::StreamOutOfRange { value } => {
                "SECS stream "@ + crate::text::spec_decimal(value as nat)
                    + " is outside the seven-bit range 0..=127"@
            },
        }
    }

    /// Returns the text shown for the error.
    pub fn message(&self) -> (r: String)
        ensures
            r@ == self.spec_message(),
    {
        match self {
            IdentifierError::ReservedControlSession => {
                "HSMS session id 0xFFFF is reserved for control messages".to_owned()
            },
            IdentifierError::StreamOutOfRange { value } => around_decimal(
                "SECS stream ",
                *value as u64,
                " is outside the seven-bit range 0..=127",
            ),
        }
    }
}

/// Invalid endpoint configuration.
#[derive(Clone, Debug, PartialEq, Eq)]
pub enum ConfigError {
    /// A mandatory or enabled timer was configured with zero duration.
    ZeroDuration {
        /// Name of the invalid timer field.
        field: &'static str,
    },
    /// A bounded queue or registry was configured with zero capacity.
    ZeroCapacity {
        /// Name of the invalid capacity field.
        field: &'static str,
    },
    /// The configured Message Length cannot contain the mandatory HSMS header.
    MessageLengthTooSmall {
        /// Supplied maximum Message Length.
        value: usize,
    },
    /// The configured Message Length cannot fit in E37's four-byte prefix.
    MessageLengthTooLarge {
        /// Supplied maximum Message Length.
        value: usize,
    },
    /// The nested SECS-II decoding policy was invalid.
    InvalidSecs2Limits(SecsItemError),
    /// A runtime budget or deadline cannot be honoured.
    RuntimePolicy {
        /// What cannot be honoured.
        description: &'static str,
    },
}

impl ConfigError {
    /// Text shown for the error.
    pub open spec fn spec_message(self) -> Seq<char> {
        match self {
            ConfigError::ZeroDuration { field } => {
                "duration `"@ + field@ + "` must be greater than zero"@
            },
            ConfigError::ZeroCapacity { field } => {
                "capacity `"@ + field@ + "` must be greater than zero"@
            },
            ConfigError::MessageLengthTooSmall { value } => {
                "maximum HSMS message length "@ + crate::text::spec_decimal(value as nat)
                    + " is smaller than the 10-byte header"@
            },
            ConfigError::MessageLengthTooLarge { value } => {
                "maximum HSMS message length "@ + crate::text::spec_decimal(value as nat)
                    + " exceeds the four-byte length field"@
            },
            ConfigError::InvalidSecs2Limits(error) => error.description@,
            ConfigError::RuntimePolicy { description } => description@,
        }
    }

    /// Returns the text shown for the error.
    pub fn message(&self) -> (r: String)
        ensures
            r@ == self.spec_message(),
    {
        match self {
            ConfigError::ZeroDuration { field } => around_text(
                "duration `",
                field,
                "` must be greater than zero",
            ),
            ConfigError::ZeroCapacity { field } => around_text(
                "capacity `",
                field,
                "` must be greater than zero",
            ),
            ConfigError::MessageLengthTooSmall { value } => around_decimal(
                "maximum HSMS message length ",
                *value as u64,
                " is smaller than the 10-byte header",
            ),
            ConfigError::MessageLengthTooLarge { value } => around_decimal(
                "maximum HSMS message length ",
                *value as u64,
                " exceeds the four-byte length field",
            ),
            ConfigError::InvalidSecs2Limits(error) => error.description.clone(),
            ConfigError::RuntimePolicy { description } => (*description).to_owned(),
        }
    }
}

/// Timer kinds visible at the protocol and endpoint boundaries.
#[derive(Clone, Copy, Debug, PartialEq, Eq, Hash, Structural)]
pub enum TimeoutKind {
    /// TCP connection-attempt timeout.
    Connect,
    /// Data-message reply timeout.
    T3,
    /// Active reconnect-delay timer.
    T5,
    /// Control-transaction reply timeout.
    T6,
    /// Maximum duration of one contiguous `NotSelected` tenure.
    T7,
    /// Inter-byte timeout while receiving one HSMS message.
    T8,
    /// Library-configured idle Linktest interval.
    Linktest,
    /// Local drain interval of a deselect or shutdown.
    Drain,
}

impl TimeoutKind {
    /// Name of the timer.
    pub open spec fn spec_name(self) -> Seq<char> {
        match self {
            TimeoutKind::Connect => "Connect"@,
            TimeoutKind::T3 => "T3"@,
            TimeoutKind::T5 => "T5"@,
            TimeoutKind::T6 => "T6"@,
            TimeoutKind::T7 => "T7"@,
            TimeoutKind::T8 => "T8"@,
            TimeoutKind::Linktest => "Linktest"@,
            TimeoutKind::Drain => "Drain"@,
        }
    }

    /// Returns the name of the timer.
    pub fn name(self) -> (r: &'static str)
        ensures
            r@ == self.spec_name(),
    {
        match self {
            TimeoutKind::Connect => "Connect",
            TimeoutKind::T3 => "T3",
            TimeoutKind::T5 => "T5",
            TimeoutKind::T6 => "T6",
            TimeoutKind::T7 => "T7",
            TimeoutKind::T8 => "T8",
            TimeoutKind::Linktest => "Linktest",
            TimeoutKind::Drain => "Drain",
        }
    }
}

/// Non-zero status or reason byte reported by the peer.
#[derive(Clone, Copy, Debug, PartialEq, Eq, Hash, Structural)]
pub struct NonZeroStatus {
    value: u8,
}

impl NonZeroStatus {
    /// Raw status byte.
    pub closed spec fn value(self) -> u8 {
        self.value
    }

    #[verifier::type_invariant]
    spec fn non_zero(self) -> bool {
        self.value != 0
    }

    /// Accepts every byte but zero, which means success on the wire.
    pub fn new(value: u8) -> (r: Option<Self>)
        ensures
            value == 0 <==> r is None,
            r is Some ==> r->0.value() == value,
    {
        if value == 0 {
            None
        } else {
            Some(NonZeroStatus { value })
        }
    }

    /// Returns the raw status byte.
    pub fn get(self) -> (r: u8)
        ensures
            r == self.value(),
            r != 0,
    {
        proof {
            use_type_invariant(&self);
        }
        self.value
    }
}

/// A protocol-level failure that is independent of transport implementation.
#[derive(Clone, Debug, PartialEq, Eq)]
pub enum ProtocolError {
    /// An application attempted to use an even or zero SECS function as a
    /// primary message.
    InvalidPrimaryFunction {
        /// Function value rejected by primary-message validation.
        function: Function,
    },
    /// An inbound message violated an HSMS protocol rule.
    Violation {
        /// Stable diagnostic suitable for application logging.
        description: String,
    },
    /// A candidate Secondary failed the pending transaction's response matcher.
    ResponseMismatch,
    /// Protocol state changed before a transaction could complete normally.
    TransactionAborted,
}

impl ProtocolError {
    /// Text shown for the error.
    pub open spec fn spec_message(self) -> Seq<char> {
        match self {
            ProtocolError::InvalidPrimaryFunction { function } => {
                "SECS function Function("@ + crate::text::spec_decimal(function.value as nat)
                    + ") is not a valid primary function"@
            },
            ProtocolError::Violation { description } => {
                "HSMS protocol violation: "@ + description@
            },
            ProtocolError::ResponseMismatch => {
                "received response does not match the pending transaction"@
            },
            ProtocolError::TransactionAborted => "HSMS transaction was aborted"@,
        }
    }

    /// Returns the text shown for the error.
    pub fn message(&self) -> (r: String)
        ensures
            r@ == self.spec_message(),
    {
        match self {
            ProtocolError::InvalidPrimaryFunction { function } => around_decimal(
                "SECS function Function(",
                function.get() as u64,
                ") is not a valid primary function",
            ),
            ProtocolError::Violation { description } => after_text(
                "HSMS protocol violation: ",
                description.as_str(),
            ),
            ProtocolError::ResponseMismatch => {
                "received response does not match the pending transaction".to_owned()
            },
            ProtocolError::TransactionAborted => "HSMS transaction was aborted".to_owned(),
        }
    }
}

/// Failure returned by a typed endpoint operation.
#[derive(Clone, Debug, PartialEq, Eq)]
pub enum OperationError {
    /// The logical endpoint has not been started.
    NotRunning,
    /// The endpoint is running but has no usable TCP generation.
    NotConnected,
    /// A Data operation was attempted outside the Selected state.
    NotSelected,
    /// A previously accepted operation was aborted because the session left
    /// the Selected state.
    SessionDeselected,
    /// Shutdown has closed admission for this operation class.
    Draining,
    /// Cleanup could not prove that the previous generation released resources.
    Faulted,
    /// The operation targets a TCP incarnation that is no longer current.
    StaleConnectionGeneration,
    /// Admission could not reserve all bounded resources atomically.
    Backpressure,
    /// The peer returned a non-success `Select.rsp` status.
    SelectRejected {
        /// Exact non-zero E37 Select status, including extension values.
        status: NonZeroStatus,
    },
    /// The peer returned a non-success `Deselect.rsp` status.
    DeselectRejected {
        /// Exact non-zero E37 Deselect status, including extension values.
        status: NonZeroStatus,
    },
    /// A reply token was stale, already consumed, or no longer registered.
    ReplyCapabilityUnavailable,
    /// An F255 primary has no F+1 Secondary and can only be aborted.
    ReplyRequiresAbort,
    /// The peer sent `Reject.req` for work associated with this operation.
    PeerRejected {
        /// Exact non-zero E37 Reject reason, including extension values.
        reason: NonZeroStatus,
    },
    /// The operation exceeded the named protocol or runtime deadline.
    Timeout(TimeoutKind),
    /// No Secondary arrived within T3.
    RequestTimeout {
        /// Generation and header of the request.
        context: MessageContext,
    },
    /// The message body could not be encoded.
    Encode(SecsItemError),
    /// The encoded message exceeds the configured Message Length.
    OutboundFrameTooLarge {
        /// Wire bytes of the message text.
        text_length: usize,
        /// Configured maximum Message Length.
        maximum_message_length: usize,
    },
    /// The TCP generation ended before a deterministic completion was available.
    ConnectionLost,
    /// A failed partial write may already be visible to the peer.
    DeliveryIndeterminate,
    /// The owning endpoint runtime is no longer executing.
    RuntimeStopped,
    /// A protocol decision prevented successful completion.
    Protocol(ProtocolError),
}

impl OperationError {
    /// Text shown for the error.
    pub open spec fn spec_message(self) -> Seq<char> {
        match self {
            OperationError::NotRunning => "HSMS endpoint is not running"@,
            OperationError::NotConnected => "HSMS endpoint has no open TCP generation"@,
            OperationError::NotSelected => "HSMS session is not selected"@,
            OperationError::SessionDeselected => {
                "HSMS session was deselected before the operation completed"@
            },
            OperationError::Draining => {
                "HSMS endpoint is draining and no longer accepts this operation"@
            },
            OperationError::Faulted => {
                "HSMS endpoint is faulted and must be stopped before restart"@
            },
            OperationError::StaleConnectionGeneration => {
                "operation belongs to a stale TCP generation"@
            },
            OperationError::Backpressure => "operation was rejected by bounded admission"@,
            OperationError::SelectRejected { status } => {
                "peer rejected Select.req with E37 status "@ + crate::text::spec_decimal(
                    status.value() as nat,
                )
            },
            OperationError::DeselectRejected { status } => {
                "peer rejected Deselect.req with E37 status "@ + crate::text::spec_decimal(
                    status.value() as nat,
                )
            },
            OperationError::ReplyCapabilityUnavailable => "reply capability is unavailable"@,
            OperationError::ReplyRequiresAbort => {
                "an F255 primary can only be answered by an abort"@
            },
            OperationError::PeerRejected { reason } => {
                "peer rejected the operation with E37 reason "@ + crate::text::spec_decimal(
                    reason.value() as nat,
                )
            },
            OperationError::Timeout(kind) => "HSMS "@ + kind.spec_name() + " timeout"@,
            OperationError::RequestTimeout { context } => {
                "HSMS T3 timeout in generation "@ + crate::text::spec_decimal(
                    context.generation.value as nat,
                )
            },
            OperationError::Encode(error) => error.description@,
            OperationError::OutboundFrameTooLarge { text_length, maximum_message_length } => {
                "message text of "@ + crate::text::spec_decimal(text_length as nat)
                    + " bytes exceeds the maximum HSMS message length "@
                    + crate::text::spec_decimal(maximum_message_length as nat)
            },
            OperationError::ConnectionLost => {
                "TCP generation closed before the operation completed"@
            },
            OperationError::DeliveryIndeterminate => {
                "frame visibility is indeterminate because the write failed after it may be visible"@
            },
            OperationError::RuntimeStopped => "HSMS runtime has stopped"@,
            OperationError::Protocol(error) => error.spec_message(),
        }
    }

    /// Returns the text shown for the error.
    pub fn message(&self) -> (r: String)
        ensures
            r@ == self.spec_message(),
    {
        match self {
            OperationError::NotRunning => "HSMS endpoint is not running".to_owned(),
            OperationError::NotConnected => {
                "HSMS endpoint has no open TCP generation".to_owned()
            },
            OperationError::NotSelected => "HSMS session is not selected".to_owned(),
            OperationError::SessionDeselected => {
                "HSMS session was deselected before the operation completed".to_owned()
            },
            OperationError::Draining => {
                "HSMS endpoint is draining and no longer accepts this operation".to_owned()
            },
            OperationError::Faulted => {
                "HSMS endpoint is faulted and must be stopped before restart".to_owned()
            },
            OperationError::StaleConnectionGeneration => {
                "operation belongs to a stale TCP generation".to_owned()
            },
            OperationError::Backpressure => {
                "operation was rejected by bounded admission".to_owned()
            },
            OperationError::SelectRejected { status } => after_decimal(
                "peer rejected Select.req with E37 status ",
                status.get() as u64,
            ),
            OperationError::DeselectRejected { status } => after_decimal(
                "peer rejected Deselect.req with E37 status ",
                status.get() as u64,
            ),
            OperationError::ReplyCapabilityUnavailable => {
                "reply capability is unavailable".to_owned()
            },
            OperationError::ReplyRequiresAbort => {
                "an F255 primary can only be answered by an abort".to_owned()
            },
            OperationError::PeerRejected { reason } => after_decimal(
                "peer rejected the operation with E37 reason ",
                reason.get() as u64,
            ),
            OperationError::Timeout(kind) => around_text("HSMS ", kind.name(), " timeout"),
            OperationError::RequestTimeout { context } => after_decimal(
                "HSMS T3 timeout in generation ",
                context.generation.value,
            ),
            OperationError::Encode(error) => error.description.clone(),
            OperationError::OutboundFrameTooLarge { text_length, maximum_message_length } => {
                let mut text = around_decimal(
                    "message text of ",
                    *text_length as u64,
                    " bytes exceeds the maximum HSMS message length ",
                );
                text.append(crate::text::decimal(*maximum_message_length as u64).as_str());
                text
            },
            OperationError::ConnectionLost => {
                "TCP generation closed before the operation completed".to_owned()
            },
            OperationError::DeliveryIndeterminate => {
                "frame visibility is indeterminate because the write failed after it may be visible".to_owned()
            },
            OperationError::RuntimeStopped => "HSMS runtime has stopped".to_owned(),
            OperationError::Protocol(error) => error.message(),
        }
    }
}

/// The text of an error that carries numbers ends with them or holds them between its
/// words, in decimal; a nested error speaks for itself.
pub proof fn law_texts_carry_their_numbers(
    status: NonZeroStatus,
    context: MessageContext,
    text_length: usize,
    maximum_message_length: usize,
    kind: TimeoutKind,
    item: SecsItemError,
    nested: ProtocolError,
)
    ensures
        (OperationError::SelectRejected { status }).spec_message()
            == "peer rejected Select.req with E37 status "@ + crate::text::spec_decimal(
            status.value() as nat,
        ),
        (OperationError::DeselectRejected { status }).spec_message()
            == "peer rejected Deselect.req with E37 status "@ + crate::text::spec_decimal(
            status.value() as nat,
        ),
        (OperationError::PeerRejected { reason: status }).spec_message()
            == "peer rejected the operation with E37 reason "@ + crate::text::spec_decimal(
            status.value() as nat,
        ),
        (OperationError::RequestTimeout { context }).spec_message()
            == "HSMS T3 timeout in generation "@ + crate::text::spec_decimal(
            context.generation.value as nat,
        ),
        (OperationError::OutboundFrameTooLarge {
            text_length,
            maximum_message_length,
        }).spec_message() == "message text of "@ + crate::text::spec_decimal(text_length as nat)
            + " bytes exceeds the maximum HSMS message length "@ + crate::text::spec_decimal(
            maximum_message_length as nat,
        ),
        OperationError::Timeout(kind).spec_message() == "HSMS "@ + kind.spec_name() + " timeout"@,
        OperationError::Encode(item).spec_message() == item.description@,
        OperationError::Protocol(nested).spec_message() == nested.spec_message(),
{
}

/// The texts of refused values show the values.
pub proof fn law_texts_show_the_refused_value(
    number: u8,
    value: usize,
    field: &'static str,
    function: Function,
    description: String,
)
    ensures
        (IdentifierError::StreamOutOfRange { value: number }).spec_message() == "SECS stream "@
            + crate::text::spec_decimal(number as nat) + " is outside the seven-bit range 0..=127"@,
        (ConfigError::ZeroDuration { field }).spec_message() == "duration `"@ + field@
            + "` must be greater than zero"@,
        (ConfigError::ZeroCapacity { field }).spec_message() == "capacity `"@ + field@
            + "` must be greater than zero"@,
        (ConfigError::MessageLengthTooSmall { value }).spec_message()
            == "maximum HSMS message length "@ + crate::text::spec_decimal(value as nat)
            + " is smaller than the 10-byte header"@,
        (ConfigError::MessageLengthTooLarge { value }).spec_message()
            == "maximum HSMS message length "@ + crate::text::spec_decimal(value as nat)
            + " exceeds the four-byte length field"@,
        (ProtocolError::InvalidPrimaryFunction { function }).spec_message()
            == "SECS function Function("@ + crate::text::spec_decimal(function.value as nat)
            + ") is not a valid primary function"@,
        (ProtocolError::Violation { description }).spec_message() == "HSMS protocol violation: "@
            + description@,
{
}

/// A status is zero only for success, so only zero is refused; the others are read back.
pub proof fn law_only_zero_is_no_failure(value: u8, status: Option<NonZeroStatus>)
    requires
        call_ensures(NonZeroStatus::new, (value,), status),
    ensures
        status is None <==> value == 0,
        status matches Some(kept) ==> forall|back: u8|
            call_ensures(NonZeroStatus::get, (kept,), back) ==> back == value,
{
}

} // verus!
