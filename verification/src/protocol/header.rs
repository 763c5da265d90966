//! Data header fields and their ten-byte wire form.

use crate::model::ids::{Function, SessionId, Stream, SystemBytes};
use vstd::prelude::*;

verus! {

/// Header of one HSMS Data message.
#[derive(Clone, Copy, Debug, PartialEq, Eq, Structural)]
pub struct DataHeader {
    /// Data Session ID.
    pub session_id: SessionId,
    /// SECS stream.
    pub stream: Stream,
    /// SECS function.
    pub function: Function,
    /// W-bit: the sender expects a reply.
    pub reply_expected: bool,
    /// Transaction correlation value.
    pub system_bytes: SystemBytes,
}

impl DataHeader {
    /// Collects the fields of a Data header.
    pub fn new(
        session_id: SessionId,
        stream: Stream,
        function: Function,
        reply_expected: bool,
        system_bytes: SystemBytes,
    ) -> (r: Self)
        ensures
            r == (DataHeader { session_id, stream, function, reply_expected, system_bytes }),
    {
        DataHeader { session_id, stream, function, reply_expected, system_bytes }
    }

    /// Returns the Data Session ID.
    pub fn session_id(&self) -> (r: SessionId)
        ensures
            r == self.session_id,
    {
        self.session_id
    }

    /// Returns the SECS stream.
    pub fn stream(&self) -> (r: Stream)
        ensures
            r == self.stream,
    {
        self.stream
    }

    /// Returns the SECS function.
    pub fn function(&self) -> (r: Function)
        ensures
            r == self.function,
    {
        self.function
    }

    /// Returns the W-bit.
    pub fn reply_expected(&self) -> (r: bool)
        ensures
            r == self.reply_expected,
    {
        self.reply_expected
    }

    /// Returns the transaction correlation value.
    pub fn system_bytes(&self) -> (r: SystemBytes)
        ensures
            r == self.system_bytes,
    {
        self.system_bytes
    }

    /// Wire form of the header: Session ID, W-bit and stream, function, the two
    /// zero type bytes of a Data message, System Bytes; multi-byte fields are
    /// big-endian.
    pub open spec fn wire(self) -> [u8; 10] {
        let session = self.session_id.value();
        let system = self.system_bytes.value;
        [
            (session / 256) as u8,
            (session % 256) as u8,
            (self.stream.value() + if self.reply_expected {
                128int
            } else {
                0int
            }) as u8,
            self.function.value,
            0u8,
            0u8,
            (system / 0x100_0000) as u8,
            (system / 0x1_0000 % 256) as u8,
            (system / 0x100 % 256) as u8,
            (system % 256) as u8,
        ]
    }

    /// Writes the ten-byte wire form of the header.
    pub fn to_bytes(&self) -> (r: [u8; 10])
        ensures
            r == self.wire(),
    {
        let session: u16 = self.session_id.get();
        let stream: u8 = self.stream.get();
        let system: u32 = self.system_bytes.get();
        let w_bit: u8 = if self.reply_expected {
            128
        } else {
            0
        };
        let r: [u8; 10] = [
            (session / 256) as u8,
            (session % 256) as u8,
            stream + w_bit,
            self.function.get(),
            0,
            0,
            (system / 0x100_0000) as u8,
            (system / 0x1_0000 % 256) as u8,
            (system / 0x100 % 256) as u8,
            (system % 256) as u8,
        ];
        assert(r =~= self.wire());
        r
    }
}

} // verus!
