//! Texts of failures, identifiers and time values.

use hsms::api::MessageContext;
use hsms::error::{
    ConfigError, IdentifierError, NonZeroStatus, OperationError, ProtocolError, TimeoutKind,
};
use hsms::model::ids::{ConnectionGeneration, Function, SessionId, Stream};
use hsms::model::runtime::MonoTime;
use hsms::secs2::SecsItemError;
use hsms::text::decimal;

/// Identifiers refuse what the wire reserves or cannot hold.
#[test]
fn identifiers_are_validated() {
    assert_eq!(
        SessionId::new(0xffff),
        Err(IdentifierError::ReservedControlSession)
    );
    assert_eq!(SessionId::new(0xfffe).unwrap().get(), 0xfffe);
    assert_eq!(Stream::new(127).unwrap().get(), 127);
    let error = Stream::new(128).unwrap_err();
    assert_eq!(error, IdentifierError::StreamOutOfRange { value: 128 });
    assert_eq!(
        error.message(),
        "SECS stream 128 is outside the seven-bit range 0..=127"
    );
    assert_eq!(
        IdentifierError::ReservedControlSession.message(),
        "HSMS session id 0xFFFF is reserved for control messages"
    );
    assert!(NonZeroStatus::new(0).is_none());
    assert_eq!(NonZeroStatus::new(255).unwrap().get(), 255);
}

/// Configuration failures name their field or value.
#[test]
fn config_failures_have_texts() {
    let pairs = [
        (
            ConfigError::ZeroDuration { field: "t3" },
            "duration `t3` must be greater than zero",
        ),
        (
            ConfigError::ZeroCapacity { field: "commands" },
            "capacity `commands` must be greater than zero",
        ),
        (
            ConfigError::MessageLengthTooSmall { value: 9 },
            "maximum HSMS message length 9 is smaller than the 10-byte header",
        ),
        (
            ConfigError::MessageLengthTooLarge { value: 4294967296 },
            "maximum HSMS message length 4294967296 exceeds the four-byte length field",
        ),
        (
            ConfigError::InvalidSecs2Limits(SecsItemError {
                description: "depth".to_string(),
            }),
            "depth",
        ),
        (
            ConfigError::RuntimePolicy {
                description: "policy",
            },
            "policy",
        ),
    ];
    for (error, text) in pairs {
        assert_eq!(error.message(), text);
    }
}

/// Operation failures have stable texts.
#[test]
fn operation_failures_have_texts() {
    let status = NonZeroStatus::new(3).unwrap();
    let pairs = [
        (OperationError::NotRunning, "HSMS endpoint is not running"),
        (
            OperationError::NotConnected,
            "HSMS endpoint has no open TCP generation",
        ),
        (OperationError::NotSelected, "HSMS session is not selected"),
        (
            OperationError::SessionDeselected,
            "HSMS session was deselected before the operation completed",
        ),
        (
            OperationError::Draining,
            "HSMS endpoint is draining and no longer accepts this operation",
        ),
        (
            OperationError::Faulted,
            "HSMS endpoint is faulted and must be stopped before restart",
        ),
        (
            OperationError::StaleConnectionGeneration,
            "operation belongs to a stale TCP generation",
        ),
        (
            OperationError::Backpressure,
            "operation was rejected by bounded admission",
        ),
        (
            OperationError::SelectRejected { status },
            "peer rejected Select.req with E37 status 3",
        ),
        (
            OperationError::DeselectRejected { status },
            "peer rejected Deselect.req with E37 status 3",
        ),
        (
            OperationError::ReplyCapabilityUnavailable,
            "reply capability is unavailable",
        ),
        (
            OperationError::ReplyRequiresAbort,
            "an F255 primary can only be answered by an abort",
        ),
        (
            OperationError::PeerRejected { reason: status },
            "peer rejected the operation with E37 reason 3",
        ),
        (
            OperationError::Timeout(TimeoutKind::T6),
            "HSMS T6 timeout",
        ),
        (
            OperationError::RequestTimeout {
                context: MessageContext::from_header(ConnectionGeneration::new(12), [0; 10]),
            },
            "HSMS T3 timeout in generation 12",
        ),
        (
            OperationError::Encode(SecsItemError {
                description: "too deep".to_string(),
            }),
            "too deep",
        ),
        (
            OperationError::OutboundFrameTooLarge {
                text_length: 91,
                maximum_message_length: 100,
            },
            "message text of 91 bytes exceeds the maximum HSMS message length 100",
        ),
        (
            OperationError::ConnectionLost,
            "TCP generation closed before the operation completed",
        ),
        (
            OperationError::DeliveryIndeterminate,
            "frame visibility is indeterminate because the write failed after it may be visible",
        ),
        (OperationError::RuntimeStopped, "HSMS runtime has stopped"),
        (
            OperationError::Protocol(ProtocolError::InvalidPrimaryFunction {
                function: Function::new(2),
            }),
            "SECS function Function(2) is not a valid primary function",
        ),
        (
            OperationError::Protocol(ProtocolError::Violation {
                description: "length".to_string(),
            }),
            "HSMS protocol violation: length",
        ),
        (
            OperationError::Protocol(ProtocolError::ResponseMismatch),
            "received response does not match the pending transaction",
        ),
        (
            OperationError::Protocol(ProtocolError::TransactionAborted),
            "HSMS transaction was aborted",
        ),
    ];
    for (error, text) in pairs {
        assert_eq!(error.message(), text);
    }
}

/// Timer names are those of the standard.
#[test]
fn timers_have_names() {
    let pairs = [
        (TimeoutKind::Connect, "Connect"),
        (TimeoutKind::T3, "T3"),
        (TimeoutKind::T5, "T5"),
        (TimeoutKind::T6, "T6"),
        (TimeoutKind::T7, "T7"),
        (TimeoutKind::T8, "T8"),
        (TimeoutKind::Linktest, "Linktest"),
        (TimeoutKind::Drain, "Drain"),
    ];
    for (kind, name) in pairs {
        assert_eq!(kind.name(), name);
    }
}

/// Numbers are written without leading zeros, and time never wraps.
#[test]
fn numbers_and_times_are_exact() {
    assert_eq!(decimal(0), "0");
    assert_eq!(decimal(1090), "1090");
    assert_eq!(decimal(u64::MAX), "18446744073709551615");
    let late = MonoTime::from_nanos(u128::MAX);
    assert_eq!(late.checked_add(0), Some(late));
    assert_eq!(late.checked_add(1), None);
    assert_eq!(
        MonoTime::from_nanos(1).checked_add(1 << 64),
        Some(MonoTime::from_nanos((1 << 64) + 1))
    );
    assert_eq!(
        late.earlier(MonoTime::from_nanos(5)),
        MonoTime::from_nanos(5)
    );
}
