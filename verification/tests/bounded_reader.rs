//! Bounded production of decoded frames on real queues and semaphores.

use hsms::config::{ConnectionMode, EndpointConfig, EndpointLimits, RuntimePolicy};
use hsms::error::ConfigError;
use hsms::generation::transport::bounded_reader::{
    after_reservation, reader_reservation, ReaderReport, ReaderWorker, ReservationEnd,
};
use hsms::generation::transport::io::{
    FramingFault, ReadEvent, ReadFailure, ReadFrame, ReadStep,
};
use hsms::model::ids::SystemBytes;
use hsms::model::runtime::{MonoTime, TransportFault, TransportFaultKind};
use hsms::protocol::message::{ControlMessage, ProtocolMessage};
use hsms::protocol::violation::{DecodeStep, FrameReadProgress};
use hsms::sync::semaphore::MAX_PERMITS;
use tokio::sync::mpsc;
use tokio::time::Instant;

const LINKTEST: [u8; 14] = [0, 0, 0, 10, 255, 255, 0, 0, 0, 5, 0, 0, 0, 7];
const SECOND: u128 = 1_000_000_000;

fn build(capacity: usize, bytes: u32) -> (ReaderWorker, mpsc::Receiver<ReaderReport>) {
    match ReaderWorker::new(10, Instant::now(), SECOND, capacity, bytes) {
        Ok(parts) => parts,
        Err(description) => panic!("{}", description),
    }
}

fn decode(worker: &mut ReaderWorker) -> Result<DecodeStep, FramingFault> {
    let buffer = worker.reader.buffer_mut();
    if buffer.len() < 4 {
        return Ok(DecodeStep::NeedMore(FrameReadProgress::AwaitingLength {
            bytes_seen: buffer.len() as u8,
        }));
    }
    if buffer[3] != 10 {
        return Err(FramingFault {
            declared_length: u32::from_be_bytes([buffer[0], buffer[1], buffer[2], buffer[3]]),
        });
    }
    if buffer.len() < 14 {
        return Ok(DecodeStep::NeedMore(FrameReadProgress::PartialBody {
            target_length: 10,
            bytes_seen: buffer.len() - 4,
        }));
    }
    let frame = buffer.split_to(14);
    Ok(DecodeStep::Message(ProtocolMessage::Control(
        ControlMessage::LinktestRequest {
            system_bytes: SystemBytes::new(frame[13].into()),
        },
    )))
}

/// Reads one frame of `source`; `None` where a bound or missing bytes stop it.
fn produce(worker: &mut ReaderWorker, source: &mut &[u8]) -> Option<Result<(), ReadFailure>> {
    let bytes = worker
        .bytes
        .clone()
        .try_acquire_many_owned(worker.frame_bytes)
        .ok()?;
    let slot = worker.slots.clone().try_acquire_owned().ok()?;
    assert_eq!(after_reservation(ReservationEnd::Reserved), None);
    loop {
        let header = worker.reader.header();
        let decoded = decode(worker);
        match worker
            .reader
            .on_decoded(header, decoded, worker.t8, MonoTime::from_nanos(0))
        {
            ReadStep::Frame(frame) => {
                let report = ReaderReport { frame, bytes, slot };
                assert!(worker.reports.try_send(report).is_ok());
                return Some(Ok(()));
            }
            ReadStep::Failed(failure) => return Some(Err(failure)),
            ReadStep::Await {
                amount, progress, ..
            } => {
                let (now, rest) = source.split_at(amount.min(source.len()));
                if now.is_empty() {
                    return None;
                }
                *source = rest;
                let event = ReadEvent::Received(now);
                if let Err(failure) = worker.reader.on_event(event, progress, MonoTime::from_nanos(0)) {
                    return Some(Err(failure));
                }
            }
        }
    }
}

fn assert_linktest(frame: &ReadFrame) {
    assert_eq!(
        frame.decoded,
        DecodeStep::Message(ProtocolMessage::Control(ControlMessage::LinktestRequest {
            system_bytes: SystemBytes::new(7),
        }))
    );
}

/// Byte pressure stops reading at a frame boundary, where no T8 runs.
#[test]
fn byte_pressure_pauses_at_frame_boundary_without_t8() {
    let (mut worker, mut reports) = build(2, 14);
    let bytes = [LINKTEST, LINKTEST].concat();
    let mut source = bytes.as_slice();
    assert_eq!(produce(&mut worker, &mut source), Some(Ok(())));
    let first = reports.try_recv().ok().unwrap();
    assert_linktest(&first.frame);
    assert_eq!(produce(&mut worker, &mut source), None);
    assert_eq!(source.len(), 14);
    assert!(reports.try_recv().is_err());
    let waiting = DecodeStep::NeedMore(FrameReadProgress::AwaitingLength { bytes_seen: 0 });
    assert!(matches!(
        worker
            .reader
            .on_decoded(None, Ok(waiting), worker.t8, MonoTime::from_nanos(1 << 64)),
        ReadStep::Await { deadline: None, .. }
    ));
    drop(first);
    assert_eq!(produce(&mut worker, &mut source), Some(Ok(())));
    assert_linktest(&reports.try_recv().ok().unwrap().frame);
    assert_eq!(
        after_reservation(ReservationEnd::Cancelled),
        Some(Err(ReaderWorker::cancelled_failure()))
    );
}

/// Count pressure keeps its bound, and cancelling does not wait for the
/// consumer.
#[test]
fn count_pressure_and_cancellation_do_not_depend_on_consumer_progress() {
    let (mut worker, mut reports) = build(1, 28);
    let bytes = [LINKTEST, LINKTEST].concat();
    let mut source = bytes.as_slice();
    assert_eq!(produce(&mut worker, &mut source), Some(Ok(())));
    let retained = reports.try_recv().ok().unwrap();
    assert_eq!(produce(&mut worker, &mut source), None);
    assert!(reports.try_recv().is_err());
    assert_eq!(
        after_reservation(ReservationEnd::Cancelled),
        Some(Err(ReadFailure::Transport(TransportFault::new(
            TransportFaultKind::Cancelled
        ))))
    );
    drop(worker);
    assert_linktest(&retained.frame);
    assert!(reports.try_recv().is_err());
}

/// A timed-out partial frame leaves the complete one before it available.
#[test]
fn partial_frame_timeout_keeps_prior_complete_frame_available() {
    let (mut worker, mut reports) = build(2, 28);
    let mut bytes = LINKTEST.to_vec();
    bytes.push(0);
    let mut source = bytes.as_slice();
    assert_eq!(produce(&mut worker, &mut source), Some(Ok(())));
    assert_eq!(produce(&mut worker, &mut source), None);
    let progress = FrameReadProgress::AwaitingLength { bytes_seen: 1 };
    assert_eq!(
        worker
            .reader
            .on_event(ReadEvent::DeadlinePassed, progress, MonoTime::from_nanos(0)),
        Err(ReadFailure::IntercharacterTimeout)
    );
    drop(worker);
    assert_linktest(&reports.try_recv().ok().unwrap().frame);
    assert!(reports.try_recv().is_err());
}

/// A consumer that leaves ends reading in order.
#[test]
fn consumer_drop_releases_read_half_promptly() {
    let (worker, reports) = build(1, 14);
    drop(reports);
    assert!(worker.reports.is_closed());
    assert_eq!(
        after_reservation(ReservationEnd::ConsumerGone),
        Some(Ok(()))
    );
    assert_eq!(after_reservation(ReservationEnd::Refused), Some(Ok(())));
}

/// A bad prefix ends reading with its framing fault.
#[test]
fn invalid_prefix_is_returned_as_terminal_framing_fault() {
    let (mut worker, mut reports) = build(1, 14);
    let mut source = &[0, 0, 0, 9][..];
    assert_eq!(
        produce(&mut worker, &mut source),
        Some(Err(ReadFailure::Framing(FramingFault { declared_length: 9 })))
    );
    drop(worker);
    assert!(reports.try_recv().is_err());
}

/// A byte budget that no maximum frame fits into is refused.
#[test]
fn insufficient_frame_budget_is_rejected_at_construction() {
    let epoch = Instant::now();
    assert!(ReaderWorker::new(16 * 1024 * 1024, epoch, SECOND, 1, 14).is_err());
    let refused = |length, t8, capacity, bytes| match ReaderWorker::new(
        length, epoch, t8, capacity, bytes,
    ) {
        Ok(_) => panic!("the bounds must be refused"),
        Err(description) => description,
    };
    assert_eq!(
        refused(usize::MAX, SECOND, 1, 14),
        "Reader frame reservation is not representable"
    );
    assert_eq!(
        refused(u32::MAX as usize, SECOND, 1, 14),
        "Reader frame reservation is not representable"
    );
    for (capacity, bytes) in [(0, 14), (MAX_PERMITS + 1, 14), (1, 13)] {
        assert_eq!(
            refused(10, SECOND, capacity, bytes),
            "Reader capacity cannot hold a maximum frame"
        );
    }
    for t8 in [0, u128::MAX] {
        assert_eq!(refused(10, t8, 1, 14), "Reader T8 is not representable");
    }
    assert_eq!(
        reader_reservation(10, SECOND, 1, 14, false),
        Err("Reader T8 is not representable")
    );
    assert_eq!(reader_reservation(10, SECOND, 1, 14, true), Ok(14));
    assert!(ReaderWorker::new(10, epoch, 1 << 64, 1, 14).is_ok());
}

/// The configuration of an endpoint bounds its Reader: one frame at a time.
#[test]
fn configured_reader_takes_its_bounds() {
    let config = EndpointConfig {
        mode: ConnectionMode::Passive,
        limits: EndpointLimits {
            max_message_length: 30,
            command_capacity: 2,
            reply_capacity: 1,
            application_event_capacity: 2,
            protocol_error_capacity: 1,
            diagnostic_capacity: 2,
            command_bytes: 40,
            reply_bytes: 20,
            primary_queue_bytes: 40,
            data_lane_capacity: 2,
            critical_lane_capacity: 1,
        },
        t8: 5 * SECOND,
        runtime: RuntimePolicy {
            auto_select: true,
            write_bytes: 100,
            inbound_bytes: 64,
            residence: SECOND,
            write: SECOND,
            drain: SECOND,
            cleanup: SECOND,
            shutdown: SECOND,
        },
    };
    let (worker, _reports) = ReaderWorker::from_config(&config, Instant::now())
        .ok()
        .unwrap();
    assert_eq!(worker.frame_bytes, 34);
    assert_eq!(worker.t8, 5 * SECOND);
    assert_eq!(worker.reports.max_capacity(), 1);
    assert_eq!(worker.slots.available_permits(), 1);
    assert_eq!(worker.bytes.available_permits(), 64);
    let mut narrow = config;
    narrow.runtime.inbound_bytes = 33;
    assert_eq!(
        ReaderWorker::from_config(&narrow, Instant::now()).err(),
        Some(ConfigError::RuntimePolicy {
            description: "Reader capacity cannot hold a maximum frame"
        })
    );
    let mut empty = config;
    empty.limits.reply_capacity = 0;
    assert_eq!(
        ReaderWorker::from_config(&empty, Instant::now()).err(),
        Some(ConfigError::ZeroCapacity {
            field: "reply_capacity"
        })
    );
}
