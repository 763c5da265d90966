//! Compiles and evaluates the complete response contract for one W=1 Data
//! request. Matching is pure and checks every E37 correlation field rather
//! than treating System Bytes alone as sufficient.

use crate::model::ids::{Function, SessionId, Stream, SystemBytes};
use crate::protocol::header::DataHeader;
use vstd::prelude::*;

verus! {

/// Why a local request function could not produce a response matcher.
#[derive(Clone, Copy, Debug, PartialEq, Eq, Structural)]
pub enum MatcherBuildError {
    /// Request functions must be odd and within the locally supported 1..=253 range.
    InvalidPrimaryFunction {
        /// Function rejected while compiling the matcher.
        function: Function,
    },
}

/// First response-contract field that rejected an inbound candidate.
#[derive(Clone, Copy, Debug, PartialEq, Eq, Structural)]
pub enum MismatchField {
    /// Candidate carried different System Bytes.
    SystemBytes,
    /// Candidate carried a different Data Session ID.
    SessionId,
    /// Candidate carried a different SECS stream.
    Stream,
    /// Candidate carried neither expected F+1 nor F0.
    Function,
    /// Candidate set W=true even though replies, including F0 aborts, require W=false.
    ReplyExpected,
    /// Candidate carried Message Text even though E5 defines SxF0 as header-only.
    MessageText,
}

/// Result of comparing one even-function Data response candidate to a compiled matcher.
#[derive(Clone, Copy, Debug, PartialEq, Eq, Structural)]
pub enum MatcherDecision {
    /// Header is the exact expected F+1 Secondary.
    Secondary,
    /// Candidate is a header-only SxF0 abort for this exact transaction.
    Abort,
    /// Candidate failed one required response-contract field.
    Mismatch {
        /// First field whose value rejected the candidate.
        field: MismatchField,
    },
}

/// Complete immutable response contract compiled before request scheduling.
#[derive(Clone, Copy, Debug, PartialEq, Eq, Structural)]
pub struct ResponseMatcher {
    /// Locally allocated transaction correlation value.
    pub system_bytes: SystemBytes,
    /// Data Session ID that the peer must echo.
    pub session_id: SessionId,
    /// SECS stream that the peer must echo.
    pub stream: Stream,
    /// Even response function derived from the valid primary function.
    pub expected_function: Function,
}

/// A function that a local W=1 primary may carry: odd and at most 253.
pub open spec fn valid_request_function(function: Function) -> bool {
    function.value % 2 == 1 && function.value <= 253
}

/// First field of `candidate` that breaks the response contract, in the order
/// System Bytes, Session ID, stream, W-bit, message text of an F0, function.
pub open spec fn first_mismatch(
    matcher: ResponseMatcher,
    candidate: DataHeader,
    has_message_text: bool,
) -> Option<MismatchField> {
    if candidate.system_bytes.value != matcher.system_bytes.value {
        Some(MismatchField::SystemBytes)
    } else if candidate.session_id.value() != matcher.session_id.value() {
        Some(MismatchField::SessionId)
    } else if candidate.stream.value() != matcher.stream.value() {
        Some(MismatchField::Stream)
    } else if candidate.reply_expected {
        Some(MismatchField::ReplyExpected)
    } else if candidate.function.value == 0 {
        if has_message_text {
            Some(MismatchField::MessageText)
        } else {
            None
        }
    } else if candidate.function.value != matcher.expected_function.value {
        Some(MismatchField::Function)
    } else {
        None
    }
}

/// Decision owed to `candidate`: its first mismatch, else an abort for F0, else
/// the expected Secondary.
pub open spec fn match_response(
    matcher: ResponseMatcher,
    candidate: DataHeader,
    has_message_text: bool,
) -> MatcherDecision {
    match first_mismatch(matcher, candidate, has_message_text) {
        Some(field) => MatcherDecision::Mismatch { field },
        None => if candidate.function.value == 0 {
            MatcherDecision::Abort
        } else {
            MatcherDecision::Secondary
        },
    }
}

/// Matcher compiled for a valid primary: it echoes the correlation fields and
/// expects F+1.
pub open spec fn compiled(
    system_bytes: SystemBytes,
    session_id: SessionId,
    stream: Stream,
    primary_function: Function,
) -> ResponseMatcher {
    ResponseMatcher {
        system_bytes,
        session_id,
        stream,
        expected_function: Function { value: (primary_function.value + 1) as u8 },
    }
}

impl ResponseMatcher {
    /// Compiles the exact response contract for a local W=1 primary.
    ///
    /// `primary_function` must be odd and between one and 253 inclusive. The
    /// returned matcher requires matching System Bytes, Session ID, stream,
    /// F+1, and W=false; it also recognizes same-transaction F0 as an abort.
    pub fn compile(
        system_bytes: SystemBytes,
        session_id: SessionId,
        stream: Stream,
        primary_function: Function,
    ) -> (r: Result<Self, MatcherBuildError>)
        ensures
            valid_request_function(primary_function) ==> r == Ok::<_, MatcherBuildError>(
                compiled(system_bytes, session_id, stream, primary_function),
            ),
            !valid_request_function(primary_function) ==> r == Err::<Self, _>(
                MatcherBuildError::InvalidPrimaryFunction { function: primary_function },
            ),
    {
        let function: u8 = primary_function.get();
        if function == 0 || function > 253 || function % 2 == 0 {
            return Err(MatcherBuildError::InvalidPrimaryFunction { function: primary_function });
        }
        Ok(
            ResponseMatcher {
                system_bytes,
                session_id,
                stream,
                expected_function: Function::new(function + 1),
            },
        )
    }

    /// Compares one inbound Data candidate against the complete response contract.
    ///
    /// `candidate` supplies the validated Data header and `has_message_text`
    /// records whether a message body is present. The returned decision
    /// identifies an exact F+1 Secondary, a header-only F0 abort, or the first
    /// mismatched contract field. Message Text is constrained only for F0;
    /// normal F+1 body semantics remain the upper message layer's responsibility.
    pub fn classify(self, candidate: DataHeader, has_message_text: bool) -> (r: MatcherDecision)
        ensures
            r == match_response(self, candidate, has_message_text),
    {
        if candidate.system_bytes().get() != self.system_bytes.get() {
            return MatcherDecision::Mismatch { field: MismatchField::SystemBytes };
        }
        if candidate.session_id().get() != self.session_id.get() {
            return MatcherDecision::Mismatch { field: MismatchField::SessionId };
        }
        if candidate.stream().get() != self.stream.get() {
            return MatcherDecision::Mismatch { field: MismatchField::Stream };
        }
        if candidate.reply_expected() {
            return MatcherDecision::Mismatch { field: MismatchField::ReplyExpected };
        }
        if candidate.function().get() == 0 {
            if has_message_text {
                return MatcherDecision::Mismatch { field: MismatchField::MessageText };
            }
            return MatcherDecision::Abort;
        }
        if candidate.function().get() != self.expected_function.get() {
            return MatcherDecision::Mismatch { field: MismatchField::Function };
        }
        MatcherDecision::Secondary
    }

    /// Returns the transaction's locally allocated System Bytes.
    pub fn system_bytes(self) -> (r: SystemBytes)
        ensures
            r == self.system_bytes,
    {
        self.system_bytes
    }

    /// Returns the Data Session ID required of a response.
    pub fn session_id(self) -> (r: SessionId)
        ensures
            r == self.session_id,
    {
        self.session_id
    }

    /// Returns the SECS stream required of a response.
    pub fn stream(self) -> (r: Stream)
        ensures
            r == self.stream,
    {
        self.stream
    }

    /// Returns the compiled even F+1 response function.
    pub fn expected_function(self) -> (r: Function)
        ensures
            r == self.expected_function,
    {
        self.expected_function
    }
}

/// A compiled matcher accepts a candidate as the Secondary of `primary` exactly
/// when every correlation field is echoed, the function is F+1 and W is clear.
pub proof fn law_secondary_is_exact(primary: DataHeader, candidate: DataHeader, text: bool)
    requires
        valid_request_function(primary.function),
    ensures
        match_response(
            compiled(
                primary.system_bytes,
                primary.session_id,
                primary.stream,
                primary.function,
            ),
            candidate,
            text,
        ) == MatcherDecision::Secondary <==> {
            &&& candidate.system_bytes.value == primary.system_bytes.value
            &&& candidate.session_id.value() == primary.session_id.value()
            &&& candidate.stream.value() == primary.stream.value()
            &&& candidate.function.value == primary.function.value + 1
            &&& !candidate.reply_expected
        },
{
}

/// A compiled matcher accepts a candidate as an abort exactly when it is a
/// header-only F0 with W clear that echoes every correlation field.
pub proof fn law_abort_is_exact(matcher: ResponseMatcher, candidate: DataHeader, text: bool)
    ensures
        match_response(matcher, candidate, text) == MatcherDecision::Abort <==> {
            &&& candidate.system_bytes.value == matcher.system_bytes.value
            &&& candidate.session_id.value() == matcher.session_id.value()
            &&& candidate.stream.value() == matcher.stream.value()
            &&& candidate.function.value == 0
            &&& !candidate.reply_expected
            &&& !text
        },
{
}

} // verus!
