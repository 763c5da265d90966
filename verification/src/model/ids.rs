//! Typed protocol and runtime identifiers.

use crate::error::IdentifierError;
use vstd::prelude::*;

verus! {

/// System Bytes correlating one HSMS transaction.
#[derive(Clone, Copy, Debug, PartialEq, Eq, Hash, Structural)]
pub struct SystemBytes {
    /// Four-byte correlation value in host order.
    pub value: u32,
}

impl SystemBytes {
    /// Wraps a raw four-byte correlation value.
    pub fn new(value: u32) -> (r: Self)
        ensures
            r.value == value,
    {
        SystemBytes { value }
    }

    /// Returns the raw four-byte correlation value.
    pub fn get(self) -> (r: u32)
        ensures
            r == self.value,
    {
        self.value
    }
}

/// Session ID of a Data message; `0xFFFF` is reserved for control messages.
#[derive(Clone, Copy, Debug, PartialEq, Eq, Hash, Structural)]
pub struct SessionId {
    value: u16,
}

impl SessionId {
    /// Raw Session ID.
    pub closed spec fn value(self) -> u16 {
        self.value
    }

    #[verifier::type_invariant]
    spec fn in_range(self) -> bool {
        self.value != 0xFFFF
    }

    /// Accepts every Session ID but the control-only `0xFFFF`.
    pub fn new(value: u16) -> (r: Result<Self, IdentifierError>)
        ensures
            value == 0xFFFF <==> r == Err::<Self, _>(IdentifierError::ReservedControlSession),
            value != 0xFFFF ==> r is Ok && r->Ok_0.value() == value,
    {
        if value == 0xFFFF {
            Err(IdentifierError::ReservedControlSession)
        } else {
            Ok(SessionId { value })
        }
    }

    /// Returns the raw Session ID.
    pub fn get(self) -> (r: u16)
        ensures
            r == self.value(),
            r != 0xFFFF,
    {
        proof {
            use_type_invariant(&self);
        }
        self.value
    }
}

/// Seven-bit SECS stream.
#[derive(Clone, Copy, Debug, PartialEq, Eq, Hash, Structural)]
pub struct Stream {
    value: u8,
}

impl Stream {
    /// Raw stream number.
    pub closed spec fn value(self) -> u8 {
        self.value
    }

    #[verifier::type_invariant]
    spec fn in_range(self) -> bool {
        self.value <= 127
    }

    /// Accepts a stream that fits beside the W-bit.
    pub fn new(value: u8) -> (r: Result<Self, IdentifierError>)
        ensures
            value > 127 <==> r == Err::<Self, _>(IdentifierError::StreamOutOfRange { value }),
            value <= 127 ==> r is Ok && r->Ok_0.value() == value,
    {
        if value > 127 {
            Err(IdentifierError::StreamOutOfRange { value })
        } else {
            Ok(Stream { value })
        }
    }

    /// Returns the raw stream number.
    pub fn get(self) -> (r: u8)
        ensures
            r == self.value(),
            r <= 127,
    {
        proof {
            use_type_invariant(&self);
        }
        self.value
    }
}

/// Eight-bit SECS function.
#[derive(Clone, Copy, Debug, PartialEq, Eq, Hash, Structural)]
pub struct Function {
    /// Raw function number.
    pub value: u8,
}

impl Function {
    /// Wraps a raw function number.
    pub fn new(value: u8) -> (r: Self)
        ensures
            r.value == value,
    {
        Function { value }
    }

    /// Returns the raw function number.
    pub fn get(self) -> (r: u8)
        ensures
            r == self.value,
    {
        self.value
    }
}

/// Identity of one locally started protocol operation.
#[derive(Clone, Copy, Debug, PartialEq, Eq, Hash, Structural)]
pub struct OperationId {
    /// Raw operation number.
    pub value: u64,
}

impl OperationId {
    /// Wraps a raw operation number.
    pub fn new(value: u64) -> (r: Self)
        ensures
            r.value == value,
    {
        OperationId { value }
    }

    /// Returns the raw operation number.
    pub fn get(self) -> (r: u64)
        ensures
            r == self.value,
    {
        self.value
    }
}

/// Identity of one frame handed to the Writer.
#[derive(Clone, Copy, Debug, PartialEq, Eq, Hash, Structural)]
pub struct WriteId {
    /// Raw write number.
    pub value: u64,
}

impl WriteId {
    /// Wraps a raw write number.
    pub fn new(value: u64) -> (r: Self)
        ensures
            r.value == value,
    {
        WriteId { value }
    }

    /// Returns the raw write number.
    pub fn get(self) -> (r: u64)
        ensures
            r == self.value,
    {
        self.value
    }
}

/// Identity of one accepted endpoint command.
#[derive(Clone, Copy, Debug, PartialEq, Eq, Hash, Structural)]
pub struct CommandId {
    /// Raw command number.
    pub value: u64,
}

impl CommandId {
    /// Wraps a raw command number.
    pub fn new(value: u64) -> (r: Self)
        ensures
            r.value == value,
    {
        CommandId { value }
    }

    /// Returns the raw command number.
    pub fn get(self) -> (r: u64)
        ensures
            r == self.value,
    {
        self.value
    }
}

/// Identity of one armed timer.
#[derive(Clone, Copy, Debug, PartialEq, Eq, Hash, Structural)]
pub struct TimerId {
    /// Raw timer number.
    pub value: u64,
}

impl TimerId {
    /// Wraps a raw timer number.
    pub fn new(value: u64) -> (r: Self)
        ensures
            r.value == value,
    {
        TimerId { value }
    }

    /// Returns the raw timer number.
    pub fn get(self) -> (r: u64)
        ensures
            r == self.value,
    {
        self.value
    }
}

/// Position of one admitted frame in the total wire order of a generation.
#[derive(Clone, Copy, Debug, PartialEq, Eq, Hash, Structural)]
pub struct WireSequence {
    /// Raw position.
    pub value: u64,
}

impl WireSequence {
    /// Wraps a raw position.
    pub fn new(value: u64) -> (r: Self)
        ensures
            r.value == value,
    {
        WireSequence { value }
    }

    /// Returns the raw position.
    pub fn get(self) -> (r: u64)
        ensures
            r == self.value,
    {
        self.value
    }
}

/// Monotonic revision of the published endpoint state.
#[derive(Clone, Copy, Debug, PartialEq, Eq, Hash, Structural)]
pub struct LifecycleSequence {
    /// Raw revision.
    pub value: u64,
}

impl LifecycleSequence {
    /// Wraps a raw revision.
    pub fn new(value: u64) -> (r: Self)
        ensures
            r.value == value,
    {
        LifecycleSequence { value }
    }

    /// Returns the raw revision.
    pub fn get(self) -> (r: u64)
        ensures
            r == self.value,
    {
        self.value
    }
}

/// Identity of one TCP incarnation of the endpoint.
#[derive(Clone, Copy, Debug, PartialEq, Eq, Hash, Structural)]
pub struct ConnectionGeneration {
    /// Raw generation number.
    pub value: u64,
}

impl ConnectionGeneration {
    /// Wraps a raw generation number.
    pub fn new(value: u64) -> (r: Self)
        ensures
            r.value == value,
    {
        ConnectionGeneration { value }
    }

    /// Returns the raw generation number.
    pub fn get(self) -> (r: u64)
        ensures
            r == self.value,
    {
        self.value
    }
}

/// Every Session ID but the reserved one, and every stream of seven bits, is taken and
/// read back unchanged; the others are refused.
pub proof fn law_identifiers_are_checked_and_read_back(
    session: u16,
    session_id: Result<SessionId, IdentifierError>,
    stream_value: u8,
    stream: Result<Stream, IdentifierError>,
)
    requires
        call_ensures(SessionId::new, (session,), session_id),
        call_ensures(Stream::new, (stream_value,), stream),
    ensures
        session_id is Err <==> session == 0xFFFF,
        session_id matches Ok(id) ==> forall|back: u16|
            call_ensures(SessionId::get, (id,), back) ==> back == session,
        stream is Err <==> stream_value >= 128,
        stream matches Ok(id) ==> forall|back: u8|
            call_ensures(Stream::get, (id,), back) ==> back == stream_value,
        stream matches Err(error) ==> error == (IdentifierError::StreamOutOfRange {
            value: stream_value,
        }),
{
}

/// The numbers of the other identifiers are read back unchanged.
pub proof fn law_numbers_are_read_back(
    value: u64,
    generation: ConnectionGeneration,
    operation_id: OperationId,
    write_id: WriteId,
    command_id: CommandId,
    timer_id: TimerId,
    sequence: WireSequence,
    back: u64,
)
    ensures
        call_ensures(ConnectionGeneration::new, (value,), generation) && call_ensures(
            ConnectionGeneration::get,
            (generation,),
            back,
        ) ==> back == value,
        call_ensures(OperationId::new, (value,), operation_id) && call_ensures(
            OperationId::get,
            (operation_id,),
            back,
        ) ==> back == value,
        call_ensures(WriteId::new, (value,), write_id) && call_ensures(
            WriteId::get,
            (write_id,),
            back,
        ) ==> back == value,
        call_ensures(CommandId::new, (value,), command_id) && call_ensures(
            CommandId::get,
            (command_id,),
            back,
        ) ==> back == value,
        call_ensures(TimerId::new, (value,), timer_id) && call_ensures(
            TimerId::get,
            (timer_id,),
            back,
        ) ==> back == value,
        call_ensures(WireSequence::new, (value,), sequence) && call_ensures(
            WireSequence::get,
            (sequence,),
            back,
        ) ==> back == value,
{
}

} // verus!
