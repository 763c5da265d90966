//! What can be read back from the bytes of a header and of a frame.

use crate::model::ids::{Function, SessionId, Stream, SystemBytes};
use crate::protocol::header::DataHeader;
use crate::protocol::message;
use crate::protocol::message::{ControlMessage, DataMessage};
use crate::secs2::SecsItem;
use vstd::prelude::*;

verus! {

/// A number is read back from its four bytes.
pub proof fn law_number_reads_back(value: u32)
    ensures
        message::big_endian(value).len() == 4,
        message::big_endian(value)[0] * 0x100_0000 + message::big_endian(value)[1] * 0x1_0000
            + message::big_endian(value)[2] * 0x100 + message::big_endian(value)[3] == value,
{
    let v = value as int;
    assert(v / 0x100_0000 < 256);
    assert(v == (v / 0x100_0000) * 0x100_0000 + (v / 0x1_0000 % 256) * 0x1_0000 + (v / 0x100 % 256)
        * 0x100 + v % 256);
}

/// Every field of a Data header is read back from its ten bytes: the Session ID
/// from the first two, the W-bit and the stream from the third, the function from
/// the fourth, and the System Bytes from the last four. Both type bytes are zero.
pub proof fn law_data_header_reads_back(header: DataHeader)
    requires
        header.stream.value() < 128,
    ensures
        header.wire()@.len() == 10,
        header.wire()@[0] * 256 + header.wire()@[1] == header.session_id.value(),
        header.wire()@[2] >= 128 <==> header.reply_expected,
        header.wire()@[2] % 128 == header.stream.value(),
        header.wire()@[3] == header.function.value,
        header.wire()@[4] == 0,
        header.wire()@[5] == 0,
        header.wire()@[6] * 0x100_0000 + header.wire()@[7] * 0x1_0000 + header.wire()@[8] * 0x100
            + header.wire()@[9] == header.system_bytes.value,
{
    let v = header.system_bytes.value as int;
    assert(v / 0x100_0000 < 256);
    assert(v == (v / 0x100_0000) * 0x100_0000 + (v / 0x1_0000 % 256) * 0x1_0000 + (v / 0x100 % 256)
        * 0x100 + v % 256);
    let session = header.session_id.value() as int;
    assert(session / 256 < 256);
    assert(session == (session / 256) * 256 + session % 256);
}

/// Headers that differ in any field differ on the wire.
pub proof fn law_data_header_is_unambiguous(a: DataHeader, b: DataHeader)
    requires
        a.stream.value() < 128,
        b.stream.value() < 128,
        a.wire()@ == b.wire()@,
    ensures
        a.session_id.value() == b.session_id.value(),
        a.stream.value() == b.stream.value(),
        a.function.value == b.function.value,
        a.reply_expected == b.reply_expected,
        a.system_bytes.value == b.system_bytes.value,
{
    law_data_header_reads_back(a);
    law_data_header_reads_back(b);
}

/// Every control frame is a bare header of fourteen bytes: a Message Length of ten,
/// presentation type zero, and the session type of its kind. Its System Bytes, its
/// Session ID and what else its kind carries are read back from it.
pub proof fn law_control_frame_reads_back(control: ControlMessage)
    ensures
        ({
            let frame = control.frame();
            let session = frame[4] * 256 + frame[5];
            let system = frame[10] * 0x100_0000 + frame[11] * 0x1_0000 + frame[12] * 0x100
                + frame[13];
            &&& frame.len() == 14
            &&& frame[0] == 0 && frame[1] == 0 && frame[2] == 0 && frame[3] == 10
            &&& frame[8] == 0
            &&& match control {
                ControlMessage::SelectRequest { session_id, system_bytes } => frame[9] == 1
                    && frame[6] == 0 && frame[7] == 0 && session == session_id && system
                    == system_bytes.value,
                ControlMessage::SelectResponse { session_id, status, system_bytes } => frame[9]
                    == 2 && frame[6] == 0 && frame[7] == status && session == session_id && system
                    == system_bytes.value,
                ControlMessage::DeselectRequest { session_id, system_bytes } => frame[9] == 3
                    && frame[6] == 0 && frame[7] == 0 && session == session_id && system
                    == system_bytes.value,
                ControlMessage::DeselectResponse { session_id, status, system_bytes } => frame[9]
                    == 4 && frame[6] == 0 && frame[7] == status && session == session_id && system
                    == system_bytes.value,
                ControlMessage::LinktestRequest { system_bytes } => frame[9] == 5 && frame[6] == 0
                    && frame[7] == 0 && session == 0xffff && system == system_bytes.value,
                ControlMessage::LinktestResponse { system_bytes } => frame[9] == 6 && frame[6] == 0
                    && frame[7] == 0 && session == 0xffff && system == system_bytes.value,
                ControlMessage::RejectRequest {
                    session_id,
                    header_byte_2,
                    reason,
                    system_bytes,
                } => frame[9] == 7 && frame[6] == header_byte_2 && frame[7] == reason.value()
                    && session == session_id && system == system_bytes.value,
                ControlMessage::SeparateRequest { session_id, system_bytes } => frame[9] == 9
                    && frame[6] == 0 && frame[7] == 0 && session == session_id && system
                    == system_bytes.value,
            }
        }),
{
    let frame = control.frame();
    let (session_id, byte_2, byte_3, s_type, system_bytes) = control.fields();
    let session = session_id as int;
    assert(session / 256 < 256);
    assert(session == (session / 256) * 256 + session % 256);
    law_number_reads_back(system_bytes);
    law_number_reads_back(10);
    assert(frame[10] == message::big_endian(system_bytes)[0]);
    assert(frame[11] == message::big_endian(system_bytes)[1]);
    assert(frame[12] == message::big_endian(system_bytes)[2]);
    assert(frame[13] == message::big_endian(system_bytes)[3]);
    assert(frame[4] == message::session_bytes(session_id)[0]);
    assert(frame[5] == message::session_bytes(session_id)[1]);
    assert(frame[6] == byte_2 && frame[7] == byte_3 && frame[8] == 0 && frame[9] == s_type);
}

/// A header gives back the fields that it was made of.
pub proof fn law_header_keeps_its_fields(
    session_id: SessionId,
    stream: Stream,
    function: Function,
    reply_expected: bool,
    system_bytes: SystemBytes,
    header: DataHeader,
)
    requires
        call_ensures(
            DataHeader::new,
            (session_id, stream, function, reply_expected, system_bytes),
            header,
        ),
    ensures
        forall|back: SessionId|
            call_ensures(DataHeader::session_id, (&header,), back) ==> back == session_id,
        forall|back: Stream| call_ensures(DataHeader::stream, (&header,), back) ==> back == stream,
        forall|back: Function|
            call_ensures(DataHeader::function, (&header,), back) ==> back == function,
        forall|back: bool|
            call_ensures(DataHeader::reply_expected, (&header,), back) ==> back == reply_expected,
        forall|back: SystemBytes|
            call_ensures(DataHeader::system_bytes, (&header,), back) ==> back == system_bytes,
{
}

/// A message gives back the header and the body that it was made of.
pub proof fn law_message_keeps_its_parts(
    header: DataHeader,
    body: Option<SecsItem>,
    made: DataMessage,
)
    requires
        call_ensures(DataMessage::new, (header, body), made),
    ensures
        forall|back: (DataHeader, Option<SecsItem>)|
            call_ensures(DataMessage::into_parts, (made,), back) ==> back == (header, body),
        forall|back: DataHeader|
            call_ensures(DataMessage::header, (&made,), back) ==> back == header,
{
}

} // verus!
