//! Semantic frames and the ingress through which they reach the Writer.

use crate::error::OperationError;
use crate::model::ids::{WireSequence, WriteId};
use crate::protocol::message::ProtocolMessage;
use crate::secs2::SecsItem;
use vstd::prelude::*;

verus! {

/// One message handed to the Writer under its write identity.
#[derive(Debug, PartialEq, Eq)]
pub struct OutboundFrame {
    /// Identity under which the Writer reports the outcome.
    pub write_id: WriteId,
    /// Message to write.
    pub message: ProtocolMessage,
}

impl OutboundFrame {
    /// Joins a message with its write identity.
    pub fn new(write_id: WriteId, message: ProtocolMessage) -> (r: Self)
        ensures
            r == (OutboundFrame { write_id, message }),
    {
        OutboundFrame { write_id, message }
    }

    /// Returns the write identity.
    pub fn write_id(&self) -> (r: WriteId)
        ensures
            r == self.write_id,
    {
        self.write_id
    }

    /// Returns the message.
    pub fn message(&self) -> (r: &ProtocolMessage)
        ensures
            *r == self.message,
    {
        &self.message
    }

    /// Splits the frame into identity and message.
    pub fn into_parts(self) -> (r: (WriteId, ProtocolMessage))
        ensures
            r == (self.write_id, self.message),
    {
        (self.write_id, self.message)
    }
}

/// Why a control frame was not admitted.
#[derive(Clone, Copy, Debug, PartialEq, Eq, Structural)]
pub enum WriteAdmissionError {
    /// The control lane is full.
    Full,
    /// The Writer has stopped.
    Closed,
    /// The frame or the Writer state is inconsistent.
    Invariant,
}

/// Why no Data slot could be reserved.
#[derive(Clone, Copy, Debug, PartialEq, Eq, Structural)]
pub enum DataReserveError {
    /// The Data lane is full.
    Full,
    /// The Writer has stopped.
    Closed,
}

/// Why a Data permit could not be given back.
#[derive(Clone, Copy, Debug, PartialEq, Eq, Structural)]
pub enum DataPermitError {
    /// The permit belongs to another Writer.
    Invariant,
}

/// Why a reserved Data frame was not admitted.
#[derive(Clone, Copy, Debug, PartialEq, Eq, Structural)]
pub enum ReservedDataAdmissionError {
    /// The Writer has stopped.
    Closed,
    /// The permit, the frame or the Writer state is inconsistent.
    Invariant,
}

/// Operation error owed for a failed Data reservation.
pub open spec fn spec_reserve_failure(error: DataReserveError) -> OperationError {
    match error {
        DataReserveError::Full => OperationError::Backpressure,
        DataReserveError::Closed => OperationError::ConnectionLost,
    }
}

/// Returns the operation error owed for a failed Data reservation.
pub fn reserve_failure(error: DataReserveError) -> (r: OperationError)
    ensures
        r == spec_reserve_failure(error),
{
    match error {
        DataReserveError::Full => OperationError::Backpressure,
        DataReserveError::Closed => OperationError::ConnectionLost,
    }
}

/// Synchronous, bounded entrance to the Writer. Every answer depends on the
/// Writer's own progress, so nothing is claimed of it here.
pub trait WriterIngress: Sized {
    /// Single-use reservation of one Data slot.
    type DataPermit;

    /// Reserves what a Data message with this body needs. A Writer that only counts
    /// slots reserves one, whatever the body is.
    fn try_reserve_message(&mut self, _body: &Option<SecsItem>) -> (r: Result<
        Self::DataPermit,
        OperationError,
    >)
        default_ensures
            exists|writer: &mut Self, reserved: Result<Self::DataPermit, DataReserveError>|
                {
                    &&& *writer == *old(self)
                    &&& *final(writer) == *final(self)
                    &&& #[trigger] call_ensures(Self::try_reserve_data, (writer,), reserved)
                    &&& r == match reserved {
                        Ok(permit) => Ok(permit),
                        Err(error) => Err(spec_reserve_failure(error)),
                    }
                },
    {
        match self.try_reserve_data() {
            Ok(permit) => Ok(permit),
            Err(error) => Err(reserve_failure(error)),
        }
    }

    /// Reserves one Data slot.
    fn try_reserve_data(&mut self) -> Result<Self::DataPermit, DataReserveError>;

    /// Gives back an unused reservation.
    fn release_data(&mut self, permit: Self::DataPermit) -> Result<(), DataPermitError>;

    /// Hands over one Data frame against its reservation.
    fn admit_reserved_data(
        &mut self,
        permit: Self::DataPermit,
        frame: OutboundFrame,
    ) -> Result<WireSequence, ReservedDataAdmissionError>;

    /// Hands over one control frame.
    fn try_admit(&mut self, frame: OutboundFrame) -> Result<WireSequence, WriteAdmissionError>;
}

} // verus!
