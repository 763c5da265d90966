//! Bounded production of decoded frames.

use crate::config::EndpointConfig;
use crate::error::ConfigError;
use crate::generation::transport::io::{FrameReader, ReadFailure, ReadFrame};
use crate::model::runtime::{TransportFault, TransportFaultKind};
use crate::sync::channel;
use crate::sync::channel::bounded_queue;
use crate::sync::clock;
use crate::sync::clock::reaches;
use crate::sync::semaphore;
use crate::sync::semaphore::{new_semaphore, MAX_PERMITS};
use std::sync::Arc;
use tokio::sync::{mpsc, OwnedSemaphorePermit, Semaphore};
use tokio::time::Instant;
use vstd::prelude::*;

verus! {

/// One frame with the reservations that it holds until the Driver drops it.
pub struct ReaderReport {
    /// Decoded frame.
    pub frame: ReadFrame,
    /// Bytes of a maximum frame.
    pub bytes: OwnedSemaphorePermit,
    /// Slot among undelivered frames.
    pub slot: OwnedSemaphorePermit,
}

/// Bytes reserved before a frame is read: the largest message with its length
/// prefix.
pub open spec fn frame_reservation(max_message_length: usize) -> Option<u32> {
    if max_message_length + 4 <= usize::MAX && max_message_length + 4 <= u32::MAX {
        Some((max_message_length + 4) as u32)
    } else {
        None
    }
}

/// Why a Reader cannot be created, if anything speaks against it, given whether its
/// clock reaches the end of a first T8.
pub open spec fn reader_refusal(
    max_message_length: usize,
    t8: u128,
    capacity: usize,
    wire_bytes: u32,
    t8_reached: bool,
) -> Option<Seq<char>> {
    match frame_reservation(max_message_length) {
        None => Some("Reader frame reservation is not representable"@),
        Some(frame_bytes) => if capacity == 0 || capacity > MAX_PERMITS || wire_bytes < frame_bytes
            || wire_bytes > MAX_PERMITS {
            Some("Reader capacity cannot hold a maximum frame"@)
        } else if t8 == 0 || !t8_reached {
            Some("Reader T8 is not representable"@)
        } else {
            None
        },
    }
}

/// Returns the bytes reserved before a frame is read, or why the Reader cannot be
/// created, given whether its clock reaches the end of a first T8.
pub fn reader_reservation(
    max_message_length: usize,
    t8: u128,
    capacity: usize,
    wire_bytes: u32,
    t8_reached: bool,
) -> (r: Result<u32, &'static str>)
    ensures
        ({
            let refusal = reader_refusal(
                max_message_length,
                t8,
                capacity,
                wire_bytes,
                t8_reached,
            );
            match r {
                Ok(bytes) => refusal is None && frame_reservation(max_message_length) == Some(
                    bytes,
                ),
                Err(description) => refusal == Some(description@),
            }
        }),
{
    let frame_bytes: u32 = match max_message_length.checked_add(4) {
        Some(bytes) if bytes <= u32::MAX as usize => bytes as u32,
        _ => {
            return Err("Reader frame reservation is not representable");
        },
    };
    if capacity == 0 || capacity > MAX_PERMITS || wire_bytes < frame_bytes || wire_bytes as usize
        > MAX_PERMITS {
        return Err("Reader capacity cannot hold a maximum frame");
    }
    if t8 == 0 || !t8_reached {
        return Err("Reader T8 is not representable");
    }
    Ok(frame_bytes)
}

/// Reader task of one generation with its bounded report queue.
pub struct ReaderWorker {
    /// Framing position.
    pub reader: FrameReader,
    /// Queue of decoded frames.
    pub reports: mpsc::Sender<ReaderReport>,
    /// Aggregate frame bytes.
    pub bytes: Arc<Semaphore>,
    /// Undelivered frames.
    pub slots: Arc<Semaphore>,
    /// Bytes reserved before each frame.
    pub frame_bytes: u32,
    /// Inter-byte timeout in nanoseconds.
    pub t8: u128,
}

/// A Reader with the queue of its reports was made as asked, or refused for the
/// reason that is owed.
pub open spec fn reader_built(
    max_message_length: usize,
    epoch: Instant,
    t8: u128,
    capacity: usize,
    wire_bytes: u32,
    r: Result<(ReaderWorker, mpsc::Receiver<ReaderReport>), &'static str>,
) -> bool {
    &&& exists|t8_reached: bool|
        {
            let refusal = reader_refusal(
                max_message_length,
                t8,
                capacity,
                wire_bytes,
                t8_reached,
            );
            &&& #[trigger] clock::reach_told(epoch, t8, t8_reached)
            &&& match r {
                Err(description) => refusal == Some(description@),
                Ok(_) => refusal is None,
            }
        }
    &&& r matches Ok((worker, consumer)) ==> {
        &&& channel::made_with(capacity, worker.reports, consumer)
        &&& Some(worker.frame_bytes) == frame_reservation(max_message_length)
        &&& worker.t8 == t8
        &&& semaphore::limit(worker.bytes) == wire_bytes
        &&& semaphore::limit(worker.slots) == capacity
        &&& worker.reader.bytes() == Seq::<u8>::empty()
        &&& worker.reader.progressed() is None
        &&& worker.reader.started() == epoch
    }
}

impl ReaderWorker {
    /// Creates a Reader from the configuration of its endpoint. One frame waits for
    /// the Driver at a time.
    pub fn from_config(config: &EndpointConfig, epoch: Instant) -> (r: Result<
        (Self, mpsc::Receiver<ReaderReport>),
        ConfigError,
    >)
        ensures
            if config.valid() {
                exists|built: Result<(Self, mpsc::Receiver<ReaderReport>), &'static str>|
                    {
                        &&& #[trigger] reader_built(
                            config.limits.max_message_length,
                            epoch,
                            config.t8,
                            1,
                            config.runtime.inbound_bytes,
                            built,
                        )
                        &&& r == match built {
                            Ok(parts) => Ok(parts),
                            Err(description) => Err(ConfigError::RuntimePolicy { description }),
                        }
                    }
            } else {
                r matches Err(error) && config.refused(error)
            },
    {
        match config.validate() {
            Ok(()) => {},
            Err(error) => {
                return Err(error);
            },
        }
        let built = Self::new(
            config.limits.max_message_length,
            epoch,
            config.t8,
            1,
            config.runtime.inbound_bytes,
        );
        assert(reader_built(
            config.limits.max_message_length,
            epoch,
            config.t8,
            1,
            config.runtime.inbound_bytes,
            built,
        ));
        match built {
            Ok(parts) => Ok(parts),
            Err(description) => Err(ConfigError::RuntimePolicy { description }),
        }
    }

    /// Creates a Reader whose queue and byte budget can hold a maximum frame. Its
    /// clock starts at `epoch`.
    pub fn new(
        max_message_length: usize,
        epoch: Instant,
        t8: u128,
        capacity: usize,
        wire_bytes: u32,
    ) -> (r: Result<(Self, mpsc::Receiver<ReaderReport>), &'static str>)
        ensures
            reader_built(max_message_length, epoch, t8, capacity, wire_bytes, r),
    {
        let t8_reached = reaches(&epoch, t8);
        let frame_bytes: u32 = match reader_reservation(
            max_message_length,
            t8,
            capacity,
            wire_bytes,
            t8_reached,
        ) {
            Ok(bytes) => bytes,
            Err(description) => {
                return Err(description);
            },
        };
        let (reports, consumer) = bounded_queue(capacity);
        Ok(
            (
                ReaderWorker {
                    reader: FrameReader::new(epoch),
                    reports,
                    bytes: new_semaphore(wire_bytes as usize),
                    slots: new_semaphore(capacity),
                    frame_bytes,
                    t8,
                },
                consumer,
            ),
        )
    }

    /// Returns the failure of a cancelled Reader.
    pub fn cancelled_failure() -> (r: ReadFailure)
        ensures
            r == ReadFailure::Transport(
                TransportFault { kind: TransportFaultKind::Cancelled },
            ),
    {
        ReadFailure::Transport(TransportFault::new(TransportFaultKind::Cancelled))
    }
}

/// How the wait for a frame's reservations ended.
#[derive(Clone, Copy, Debug, PartialEq, Eq, Structural)]
pub enum ReservationEnd {
    /// Reading was cancelled.
    Cancelled,
    /// Nobody takes reports any more.
    ConsumerGone,
    /// A budget was closed.
    Refused,
    /// Everything was reserved.
    Reserved,
}

/// Returns how the Reader ends after a wait for reservations, or nothing when it
/// may read a frame.
pub fn after_reservation(end: ReservationEnd) -> (r: Option<Result<(), ReadFailure>>)
    ensures
        r == match end {
            ReservationEnd::Cancelled => Some(
                Err::<(), ReadFailure>(
                    ReadFailure::Transport(
                        TransportFault { kind: TransportFaultKind::Cancelled },
                    ),
                ),
            ),
            ReservationEnd::ConsumerGone => Some(Ok(())),
            ReservationEnd::Refused => Some(Ok(())),
            ReservationEnd::Reserved => None,
        },
{
    match end {
        ReservationEnd::Cancelled => Some(Err(ReaderWorker::cancelled_failure())),
        ReservationEnd::ConsumerGone => Some(Ok(())),
        ReservationEnd::Refused => Some(Ok(())),
        ReservationEnd::Reserved => None,
    }
}

} // verus!
