//! Scripted transports: framing positions, T8, and what a write leaves visible.

use bytes::BytesMut;
use hsms::generation::transport::io::{
    failed_write, transport_fault, FrameReader, FrameWrite, FramingFault, IoErrorKind, ReadEvent,
    ReadFailure, ReadFrame, ReadStep, WriteEvent, READ_CHUNK,
};
use hsms::model::ids::SystemBytes;
use hsms::model::runtime::{MonoTime, TransportFault, TransportFaultKind, WriteOutcome};
use hsms::protocol::message::{ControlMessage, ProtocolMessage};
use hsms::protocol::violation::{DecodeStep, FrameReadProgress};
use tokio::time::Instant;

const LINKTEST: &[u8] = &[
    0, 0, 0, 10, 255, 255, 0, 0, 0, 5, 0x12, 0x34, 0x56, 0x78,
];

const T8: u128 = 1_000_000_000;

fn at(millis: u128) -> MonoTime {
    MonoTime::from_nanos(millis * 1_000_000)
}

/// Decodes Linktest requests, which is all that the scripts send.
fn decode(buffer: &mut BytesMut) -> Result<DecodeStep, FramingFault> {
    if buffer.len() < 4 {
        return Ok(DecodeStep::NeedMore(FrameReadProgress::AwaitingLength {
            bytes_seen: buffer.len() as u8,
        }));
    }
    let declared_length = u32::from_be_bytes([buffer[0], buffer[1], buffer[2], buffer[3]]);
    if declared_length != 10 {
        return Err(FramingFault { declared_length });
    }
    if buffer.len() < 14 {
        return Ok(DecodeStep::NeedMore(FrameReadProgress::PartialBody {
            target_length: 10,
            bytes_seen: buffer.len() - 4,
        }));
    }
    let frame = buffer.split_to(14);
    Ok(DecodeStep::Message(ProtocolMessage::Control(
        ControlMessage::LinktestRequest {
            system_bytes: SystemBytes::new(u32::from_be_bytes([
                frame[10], frame[11], frame[12], frame[13],
            ])),
        },
    )))
}

fn step(reader: &mut FrameReader, now: MonoTime) -> ReadStep {
    let header = reader.header();
    let decoded = decode(reader.buffer_mut());
    reader.on_decoded(header, decoded, T8, now)
}

/// Reads one frame from a source that holds all of its bytes and then ends.
fn next(reader: &mut FrameReader, source: &mut &[u8]) -> Result<ReadFrame, ReadFailure> {
    loop {
        match step(reader, at(0)) {
            ReadStep::Frame(frame) => return Ok(frame),
            ReadStep::Failed(failure) => return Err(failure),
            ReadStep::Await {
                amount, progress, ..
            } => {
                let taken = amount.min(source.len());
                let (now, rest) = source.split_at(taken);
                *source = rest;
                reader.on_event(ReadEvent::Received(now), progress, at(0))?;
            }
        }
    }
}

fn assert_linktest(frame: &ReadFrame) {
    assert_eq!(frame.header.as_slice(), &LINKTEST[4..]);
    assert_eq!(
        frame.decoded,
        DecodeStep::Message(ProtocolMessage::Control(ControlMessage::LinktestRequest {
            system_bytes: SystemBytes::new(0x12345678),
        }))
    );
}

/// Writes LINKTEST against a script and returns the outcome and the bytes that
/// the transport took.
fn write(events: &[WriteEvent]) -> (WriteOutcome, Vec<u8>) {
    let mut write = FrameWrite::new(LINKTEST.len());
    let mut bytes = Vec::new();
    for event in events.iter().copied() {
        if let WriteEvent::Accepted(count) = event {
            bytes.extend_from_slice(&LINKTEST[write.offset()..write.offset() + count]);
        }
        if let Some(outcome) = write.on_event(event) {
            return (outcome, bytes);
        }
        assert!(!write.is_complete());
    }
    let rest = LINKTEST.len() - write.offset();
    bytes.extend_from_slice(&LINKTEST[write.offset()..]);
    let outcome = write.on_event(WriteEvent::Accepted(rest)).unwrap();
    assert!(write.is_complete());
    (outcome, bytes)
}

/// Short writes are committed with the exact frame.
#[test]
fn short_writes_commit_exact_frame() {
    let (outcome, bytes) = write(&[
        WriteEvent::Accepted(1),
        WriteEvent::Accepted(2),
        WriteEvent::Accepted(3),
    ]);
    assert_eq!(outcome, WriteOutcome::Committed);
    assert_eq!(bytes, LINKTEST);
}

/// Every fault keeps whether bytes were visible.
#[test]
fn write_fault_matrix_preserves_visibility() {
    for progress in [0, 1, 7, 13] {
        for fault in [
            WriteEvent::Failed(IoErrorKind::BrokenPipe),
            WriteEvent::Accepted(0),
        ] {
            let mut events = Vec::new();
            if progress > 0 {
                events.push(WriteEvent::Accepted(progress));
            }
            events.push(fault);
            let (outcome, bytes) = write(&events);
            assert_eq!(bytes, &LINKTEST[..progress]);
            if progress == 0 {
                assert!(matches!(outcome, WriteOutcome::NotWritten(_)));
            } else {
                assert!(matches!(outcome, WriteOutcome::Indeterminate(_)));
            }
        }
    }
}

/// Cancelling after the first byte leaves the delivery open.
#[test]
fn cancellation_after_write_is_indeterminate() {
    let (outcome, bytes) = write(&[WriteEvent::Accepted(2), WriteEvent::Cancelled]);
    assert_eq!(
        outcome,
        WriteOutcome::Indeterminate(TransportFault::new(TransportFaultKind::Cancelled))
    );
    assert_eq!(bytes, &LINKTEST[..2]);
}

/// Cancelling before the first byte proves that nothing was written.
#[test]
fn cancellation_before_write_proves_zero_bytes() {
    let (outcome, bytes) = write(&[WriteEvent::Cancelled]);
    assert_eq!(
        outcome,
        WriteOutcome::NotWritten(TransportFault::new(TransportFaultKind::Cancelled))
    );
    assert!(bytes.is_empty());
}

/// The deadline keeps how far the write came.
#[test]
fn write_timeout_preserves_offset() {
    for progress in [0, 3] {
        let mut events = Vec::new();
        if progress > 0 {
            events.push(WriteEvent::Accepted(progress));
        }
        events.push(WriteEvent::DeadlinePassed);
        let (outcome, _) = write(&events);
        let fault = TransportFault::new(TransportFaultKind::TimedOut);
        assert_eq!(
            outcome,
            if progress == 0 {
                WriteOutcome::NotWritten(fault)
            } else {
                WriteOutcome::Indeterminate(fault)
            }
        );
    }
}

/// Each read stops at a frame boundary, and the end comes after the messages.
#[test]
fn reader_respects_boundaries_and_reports_eof_after_messages() {
    let bytes = [LINKTEST, LINKTEST].concat();
    let mut source = bytes.as_slice();
    let mut reader = FrameReader::new(Instant::now());
    assert_linktest(&next(&mut reader, &mut source).unwrap());
    assert_eq!(source.len(), LINKTEST.len());
    assert_linktest(&next(&mut reader, &mut source).unwrap());
    assert_eq!(
        next(&mut reader, &mut source),
        Err(ReadFailure::EndOfStream {
            progress: FrameReadProgress::AwaitingLength { bytes_seen: 0 }
        })
    );
}

/// The end of the stream names the exact framing position.
#[test]
fn eof_reports_exact_partial_prefix_or_body_position() {
    for length in 0..LINKTEST.len() {
        let mut source = &LINKTEST[..length];
        let mut reader = FrameReader::new(Instant::now());
        let expected = if length < 4 {
            FrameReadProgress::AwaitingLength {
                bytes_seen: length as u8,
            }
        } else {
            FrameReadProgress::PartialBody {
                target_length: 10,
                bytes_seen: length - 4,
            }
        };
        assert_eq!(
            next(&mut reader, &mut source).unwrap_err(),
            ReadFailure::EndOfStream { progress: expected }
        );
    }
}

/// A bad length is final before any byte of the body is read.
#[test]
fn bad_length_is_terminal_before_body_read() {
    for bytes in [&[0, 0, 0, 9][..], &[255, 255, 255, 255][..]] {
        let mut source = bytes;
        let mut reader = FrameReader::new(Instant::now());
        assert!(matches!(
            next(&mut reader, &mut source),
            Err(ReadFailure::Framing(_))
        ));
        assert_eq!(reader.buffer_mut().len(), 4);
        assert!(matches!(
            next(&mut reader, &mut source),
            Err(ReadFailure::Framing(_))
        ));
    }
}

/// A partial prefix and a partial body both wait no longer than T8.
#[test]
fn partial_prefix_and_body_have_t8() {
    for count in [1, 2, 3, 4, 9, 13] {
        let mut reader = FrameReader::new(Instant::now());
        let ReadStep::Await {
            deadline, progress, ..
        } = step(&mut reader, at(0))
        else {
            panic!("nothing was received");
        };
        assert_eq!(deadline, None);
        reader
            .on_event(ReadEvent::Received(&LINKTEST[..count]), progress, at(250))
            .unwrap();
        let ReadStep::Await {
            deadline, progress, ..
        } = step(&mut reader, at(250))
        else {
            panic!("the frame is incomplete");
        };
        assert_eq!(deadline, Some(at(1250)));
        assert_eq!(
            reader.on_event(ReadEvent::DeadlinePassed, progress, at(1250)),
            Err(ReadFailure::IntercharacterTimeout)
        );
    }
}

/// A reader without a partial frame has no deadline.
#[test]
fn idle_reader_does_not_start_t8() {
    let mut reader = FrameReader::new(Instant::now());
    for millis in [0, 2000] {
        assert_eq!(
            step(&mut reader, at(millis)),
            ReadStep::Await {
                amount: 4,
                deadline: None,
                progress: FrameReadProgress::AwaitingLength { bytes_seen: 0 },
            }
        );
    }
}

/// Every received byte starts T8 again, and a complete frame ends it.
#[test]
fn byte_progress_refreshes_t8() {
    let mut reader = FrameReader::new(Instant::now());
    let mut now = 0;
    for byte in LINKTEST {
        let ReadStep::Await { progress, .. } = step(&mut reader, at(now)) else {
            panic!("the frame is incomplete");
        };
        now += 500;
        reader
            .on_event(
                ReadEvent::Received(std::slice::from_ref(byte)),
                progress,
                at(now),
            )
            .unwrap();
        if now < 7000 {
            assert!(matches!(
                step(&mut reader, at(now)),
                ReadStep::Await { deadline: Some(deadline), .. }
                    if deadline == at(now + 1000)
            ));
        }
    }
    let ReadStep::Frame(frame) = step(&mut reader, at(now)) else {
        panic!("the frame is complete");
    };
    assert_eq!(frame.occurred_at, at(7000));
    assert_linktest(&frame);
    assert!(matches!(
        step(&mut reader, at(now)),
        ReadStep::Await { deadline: None, .. }
    ));
}

/// Giving up a wait keeps the partial frame for the next one.
#[test]
fn dropped_read_future_retains_partial_frame() {
    let mut reader = FrameReader::new(Instant::now());
    let progress = FrameReadProgress::AwaitingLength { bytes_seen: 0 };
    reader
        .on_event(ReadEvent::Received(&LINKTEST[..5]), progress, at(0))
        .unwrap();
    assert!(matches!(step(&mut reader, at(0)), ReadStep::Await { .. }));
    assert_eq!(reader.buffer_mut().as_ref(), &LINKTEST[..5]);
    let mut source = &LINKTEST[5..];
    assert_linktest(&next(&mut reader, &mut source).unwrap());
}

/// Cancellation and transport failures leave what was received in place.
#[test]
fn read_failures_name_their_cause() {
    let mut reader = FrameReader::new(Instant::now());
    let progress = FrameReadProgress::AwaitingLength { bytes_seen: 2 };
    reader
        .on_event(ReadEvent::Received(&LINKTEST[..2]), progress, at(0))
        .unwrap();
    assert_eq!(
        reader.on_event(ReadEvent::Cancelled, progress, at(1)),
        Err(ReadFailure::Transport(TransportFault::new(
            TransportFaultKind::Cancelled
        )))
    );
    assert_eq!(
        reader.on_event(
            ReadEvent::Failed(IoErrorKind::ConnectionReset),
            progress,
            at(1)
        ),
        Err(ReadFailure::Transport(TransportFault::new(
            TransportFaultKind::ConnectionReset
        )))
    );
    assert_eq!(reader.buffer_mut().as_ref(), &LINKTEST[..2]);
    assert_eq!(reader.header(), None);
}

/// A T8 whose end the clock does not reach ends reading; one that is merely long
/// does not.
#[test]
fn unrepresentable_t8_fails() {
    let waiting = || Ok(DecodeStep::NeedMore(FrameReadProgress::AwaitingLength { bytes_seen: 1 }));
    let mut reader = FrameReader::new(Instant::now());
    let progress = FrameReadProgress::AwaitingLength { bytes_seen: 0 };
    reader
        .on_event(ReadEvent::Received(&[0]), progress, at(5))
        .unwrap();
    assert_eq!(
        reader.on_decoded(None, waiting(), u128::MAX, at(5)),
        ReadStep::Failed(ReadFailure::DeadlineOverflow)
    );
    let long = 1 << 70;
    assert!(matches!(
        reader.on_decoded(None, waiting(), long, at(5)),
        ReadStep::Await { deadline: Some(time), .. } if time.nanos == long + 5_000_000
    ));
    assert_eq!(
        reader.on_decoded_until(None, waiting(), None, at(5)),
        ReadStep::Failed(ReadFailure::DeadlineOverflow)
    );
    assert!(matches!(
        reader.on_decoded_until(None, waiting(), Some(at(9)), at(5)),
        ReadStep::Await { deadline: Some(time), .. } if time == at(9)
    ));
}

/// A long body is asked for in bounded chunks.
#[test]
fn reads_are_chunked() {
    let mut reader = FrameReader::new(Instant::now());
    let step = reader.on_decoded(
        None,
        Ok(DecodeStep::NeedMore(FrameReadProgress::PartialBody {
            target_length: READ_CHUNK + 11,
            bytes_seen: 10,
        })),
        T8,
        at(0),
    );
    assert!(matches!(
        step,
        ReadStep::Await {
            amount: READ_CHUNK,
            ..
        }
    ));
}

/// Operating-system failures keep their category.
#[test]
fn io_failures_map_to_faults() {
    let pairs = [
        (
            IoErrorKind::ConnectionReset,
            TransportFaultKind::ConnectionReset,
        ),
        (IoErrorKind::BrokenPipe, TransportFaultKind::BrokenPipe),
        (
            IoErrorKind::UnexpectedEof,
            TransportFaultKind::UnexpectedEof,
        ),
        (IoErrorKind::TimedOut, TransportFaultKind::TimedOut),
        (IoErrorKind::WriteZero, TransportFaultKind::WriteZero),
        (IoErrorKind::Other, TransportFaultKind::Other),
    ];
    for (kind, fault) in pairs {
        let fault = TransportFault::new(fault);
        assert_eq!(transport_fault(kind), fault);
        assert_eq!(failed_write(0, fault), WriteOutcome::NotWritten(fault));
        assert_eq!(failed_write(1, fault), WriteOutcome::Indeterminate(fault));
    }
}
