//! Semantic HSMS messages.

use crate::error::NonZeroStatus;
use crate::model::ids::SystemBytes;
use crate::protocol::header::DataHeader;
use crate::secs2::SecsItem;
use vstd::prelude::*;

verus! {

/// One HSMS Data message.
#[derive(Clone, Debug, PartialEq, Eq)]
pub struct DataMessage {
    /// Validated Data header.
    pub header: DataHeader,
    /// Message text, absent from a header-only message.
    pub body: Option<SecsItem>,
}

impl DataMessage {
    /// Joins a header with its message text.
    pub fn new(header: DataHeader, body: Option<SecsItem>) -> (r: Self)
        ensures
            r == (DataMessage { header, body }),
    {
        DataMessage { header, body }
    }

    /// Returns the Data header.
    pub fn header(&self) -> (r: DataHeader)
        ensures
            r == self.header,
    {
        self.header
    }

    /// Returns the message text.
    pub fn body(&self) -> (r: &Option<SecsItem>)
        ensures
            *r == self.body,
    {
        &self.body
    }

    /// Splits the message into header and text.
    pub fn into_parts(self) -> (r: (DataHeader, Option<SecsItem>))
        ensures
            r == (self.header, self.body),
    {
        (self.header, self.body)
    }
}

/// One HSMS control message.
#[derive(Clone, Copy, Debug, PartialEq, Eq, Structural)]
pub enum ControlMessage {
    /// Select.req.
    SelectRequest {
        /// Control Session ID.
        session_id: u16,
        /// Transaction correlation value.
        system_bytes: SystemBytes,
    },
    /// Select.rsp.
    SelectResponse {
        /// Control Session ID.
        session_id: u16,
        /// Select status, zero on success.
        status: u8,
        /// Transaction correlation value.
        system_bytes: SystemBytes,
    },
    /// Deselect.req.
    DeselectRequest {
        /// Control Session ID.
        session_id: u16,
        /// Transaction correlation value.
        system_bytes: SystemBytes,
    },
    /// Deselect.rsp.
    DeselectResponse {
        /// Control Session ID.
        session_id: u16,
        /// Deselect status, zero on success.
        status: u8,
        /// Transaction correlation value.
        system_bytes: SystemBytes,
    },
    /// Linktest.req.
    LinktestRequest {
        /// Transaction correlation value.
        system_bytes: SystemBytes,
    },
    /// Linktest.rsp.
    LinktestResponse {
        /// Transaction correlation value.
        system_bytes: SystemBytes,
    },
    /// Reject.req.
    RejectRequest {
        /// Control Session ID.
        session_id: u16,
        /// Header byte that the reason refers to.
        header_byte_2: u8,
        /// Reject reason.
        reason: NonZeroStatus,
        /// Transaction correlation value.
        system_bytes: SystemBytes,
    },
    /// Separate.req.
    SeparateRequest {
        /// Control Session ID.
        session_id: u16,
        /// Transaction correlation value.
        system_bytes: SystemBytes,
    },
}

/// Two bytes of a session identity, most significant first.
pub open spec fn session_bytes(session_id: u16) -> Seq<u8> {
    seq![(session_id / 256) as u8, (session_id % 256) as u8]
}

/// Four bytes of a number, most significant first.
pub open spec fn big_endian(value: u32) -> Seq<u8> {
    seq![
        (value / 0x100_0000) as u8,
        ((value / 0x1_0000) % 256) as u8,
        ((value / 256) % 256) as u8,
        (value % 256) as u8,
    ]
}

/// Returns the four bytes of a number, most significant first.
pub fn big_endian_bytes(value: u32) -> (r: [u8; 4])
    ensures
        r@ == big_endian(value),
{
    let r = [
        (value / 0x100_0000) as u8,
        ((value / 0x1_0000) % 256) as u8,
        ((value / 256) % 256) as u8,
        (value % 256) as u8,
    ];
    assert(r@ =~= big_endian(value));
    r
}

impl ControlMessage {
    /// Session identity, header bytes 2 and 3, session type and System Bytes of
    /// the message.
    pub open spec fn fields(self) -> (u16, u8, u8, u8, u32) {
        match self {
            ControlMessage::SelectRequest { session_id, system_bytes } => (
                session_id,
                0,
                0,
                1,
                system_bytes.value,
            ),
            ControlMessage::SelectResponse { session_id, status, system_bytes } => (
                session_id,
                0,
                status,
                2,
                system_bytes.value,
            ),
            ControlMessage::DeselectRequest { session_id, system_bytes } => (
                session_id,
                0,
                0,
                3,
                system_bytes.value,
            ),
            ControlMessage::DeselectResponse { session_id, status, system_bytes } => (
                session_id,
                0,
                status,
                4,
                system_bytes.value,
            ),
            ControlMessage::LinktestRequest { system_bytes } => (
                0xffff,
                0,
                0,
                5,
                system_bytes.value,
            ),
            ControlMessage::LinktestResponse { system_bytes } => (
                0xffff,
                0,
                0,
                6,
                system_bytes.value,
            ),
            ControlMessage::RejectRequest { session_id, header_byte_2, reason, system_bytes } => (
                session_id,
                header_byte_2,
                reason.value(),
                7,
                system_bytes.value,
            ),
            ControlMessage::SeparateRequest { session_id, system_bytes } => (
                session_id,
                0,
                0,
                9,
                system_bytes.value,
            ),
        }
    }

    /// Frame of the message: the length prefix of a bare header, the session
    /// identity, header bytes 2 and 3, presentation type 0, the session type and
    /// the System Bytes.
    pub open spec fn frame(self) -> Seq<u8> {
        let (session_id, byte_2, byte_3, s_type, system_bytes) = self.fields();
        big_endian(10) + session_bytes(session_id) + seq![byte_2, byte_3, 0, s_type] + big_endian(
            system_bytes,
        )
    }

    /// Returns the frame of the message.
    pub fn encode(&self) -> (r: Vec<u8>)
        ensures
            r@ == self.frame(),
            r@.len() == 14,
    {
        let (session_id, byte_2, byte_3, s_type, system_bytes): (u16, u8, u8, u8, u32) =
            match self {
            ControlMessage::SelectRequest { session_id, system_bytes } => (
                *session_id,
                0,
                0,
                1,
                system_bytes.value,
            ),
            ControlMessage::SelectResponse { session_id, status, system_bytes } => (
                *session_id,
                0,
                *status,
                2,
                system_bytes.value,
            ),
            ControlMessage::DeselectRequest { session_id, system_bytes } => (
                *session_id,
                0,
                0,
                3,
                system_bytes.value,
            ),
            ControlMessage::DeselectResponse { session_id, status, system_bytes } => (
                *session_id,
                0,
                *status,
                4,
                system_bytes.value,
            ),
            ControlMessage::LinktestRequest { system_bytes } => (
                0xffff,
                0,
                0,
                5,
                system_bytes.value,
            ),
            ControlMessage::LinktestResponse { system_bytes } => (
                0xffff,
                0,
                0,
                6,
                system_bytes.value,
            ),
            ControlMessage::RejectRequest { session_id, header_byte_2, reason, system_bytes } => (
                *session_id,
                *header_byte_2,
                reason.get(),
                7,
                system_bytes.value,
            ),
            ControlMessage::SeparateRequest { session_id, system_bytes } => (
                *session_id,
                0,
                0,
                9,
                system_bytes.value,
            ),
        };
        let length = big_endian_bytes(10);
        let system = big_endian_bytes(system_bytes);
        let frame = vec![
            length[0],
            length[1],
            length[2],
            length[3],
            (session_id / 256) as u8,
            (session_id % 256) as u8,
            byte_2,
            byte_3,
            0,
            s_type,
            system[0],
            system[1],
            system[2],
            system[3],
        ];
        assert(frame@ =~= self.frame());
        frame
    }
}

/// One semantic HSMS message.
#[derive(Clone, Debug, PartialEq, Eq)]
pub enum ProtocolMessage {
    /// Control message.
    Control(ControlMessage),
    /// Data message.
    Data(DataMessage),
}

} // verus!
