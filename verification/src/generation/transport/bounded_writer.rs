//! Bounded admission of outbound frames and the progress of the single Writer.

use crate::config::EndpointConfig;
use crate::error::{ConfigError, OperationError};
use crate::generation::transport::writer::{
    DataPermitError, DataReserveError, OutboundFrame, ReservedDataAdmissionError,
    WriteAdmissionError, WriterIngress,
};
use crate::model::ids::{WireSequence, WriteId};
use crate::model::runtime::{MonoTime, TransportFault, TransportFaultKind, WriteOutcome};
use crate::protocol::header::DataHeader;
use crate::protocol::message;
use crate::protocol::message::{big_endian_bytes, ProtocolMessage};
use crate::secs2::{text_length, SecsItem};
use crate::sync::channel;
use crate::sync::channel::{is_closed, bounded_queue, send_reserved, try_reserve_owned};
use crate::sync::clock;
use crate::sync::clock::{deadline_after, reaches, time_since};
use crate::sync::semaphore;
use crate::sync::semaphore::{new_semaphore, try_claim, try_reserve, MAX_PERMITS};
use std::sync::Arc;
use tokio::sync::{mpsc, OwnedSemaphorePermit, Semaphore};
use tokio::time::Instant;
use vstd::prelude::*;

verus! {

/// Capacities of the Writer's lanes.
#[derive(Clone, Copy, Debug, PartialEq, Eq, Structural)]
pub struct WriterLimits {
    /// Slots for Data frames.
    pub data_lane_capacity: usize,
    /// Slots for control frames.
    pub critical_lane_capacity: usize,
    /// Largest Message Length.
    pub max_message_length: usize,
}

/// Byte and time budget of the Writer; times are in nanoseconds.
#[derive(Clone, Copy, Debug, PartialEq, Eq, Structural)]
pub struct WriterPolicy {
    /// Aggregate bytes of admitted Data frames.
    pub data_bytes: u32,
    /// Longest time from admission to completion.
    pub residence: u128,
    /// Longest time of one active write.
    pub active_write: u128,
}

/// Lane capacities of the Writer of an endpoint.
pub open spec fn configured_limits(config: EndpointConfig) -> WriterLimits {
    WriterLimits {
        data_lane_capacity: config.limits.data_lane_capacity,
        critical_lane_capacity: config.limits.critical_lane_capacity,
        max_message_length: config.limits.max_message_length,
    }
}

/// Byte and time budget of the Writer of an endpoint.
pub open spec fn configured_policy(config: EndpointConfig) -> WriterPolicy {
    WriterPolicy {
        data_bytes: config.runtime.write_bytes,
        residence: config.runtime.residence,
        active_write: config.runtime.write,
    }
}

/// Capacity that a frame holds from admission until its report is dropped.
pub struct Charge {
    /// Slot of the frame's lane.
    pub slot: OwnedSemaphorePermit,
    /// Bytes of a Data frame.
    pub bytes: Option<OwnedSemaphorePermit>,
}

/// An admitted frame in the common FIFO.
pub struct QueuedFrame {
    /// Identity under which the outcome is reported.
    pub write_id: WriteId,
    /// Admission position.
    pub sequence: WireSequence,
    /// Complete wire image.
    pub bytes: Vec<u8>,
    /// Time until which the frame must be written.
    pub deadline: MonoTime,
    /// Capacity held by the frame.
    pub charge: Charge,
}

/// Prepared Data permit, good for one admission by its own Writer.
pub struct PreparedData {
    /// Writer that made the permit.
    pub owner: u64,
    /// Reserved FIFO slot.
    pub queue: mpsc::OwnedPermit<QueuedFrame>,
    /// Room for prefix and header, followed by the encoded text.
    pub bytes: Vec<u8>,
    /// Reserved capacity.
    pub charge: Charge,
}

/// Terminal report of one admitted frame.
pub struct WriterReport {
    /// Identity of the frame.
    pub write_id: WriteId,
    /// Admission position of the frame.
    pub sequence: WireSequence,
    /// What the peer can have seen.
    pub outcome: WriteOutcome,
    /// When the outcome was known.
    pub occurred_at: MonoTime,
    /// Capacity released when the report is dropped.
    pub charge: Charge,
}

/// Why a Writer cannot be created, if anything speaks against it, given whether
/// its clock reaches the end of a first residence and of a first write.
pub open spec fn writer_refusal(
    limits: WriterLimits,
    policy: WriterPolicy,
    residence_reached: bool,
    write_reached: bool,
) -> Option<Seq<char>> {
    let count = limits.data_lane_capacity + limits.critical_lane_capacity;
    if count > usize::MAX {
        Some("Writer capacity overflow"@)
    } else if count > MAX_PERMITS || policy.data_bytes < 14 || policy.data_bytes > MAX_PERMITS {
        Some("Writer capacity is not representable"@)
    } else if policy.residence == 0 || policy.active_write == 0 || !residence_reached
        || !write_reached {
        Some("Writer deadline is not representable"@)
    } else {
        None
    }
}

/// Returns the capacity of a Writer's FIFO, or why the Writer cannot be created,
/// given whether its clock reaches the end of a first residence and of a first
/// write.
pub fn writer_capacity(
    limits: &WriterLimits,
    policy: &WriterPolicy,
    residence_reached: bool,
    write_reached: bool,
) -> (r: Result<usize, &'static str>)
    ensures
        match r {
            Ok(count) => {
                &&& writer_refusal(*limits, *policy, residence_reached, write_reached) is None
                &&& count == limits.data_lane_capacity + limits.critical_lane_capacity
            },
            Err(description) => writer_refusal(
                *limits,
                *policy,
                residence_reached,
                write_reached,
            ) == Some(description@),
        },
{
    let count: usize = match limits.data_lane_capacity.checked_add(limits.critical_lane_capacity) {
        Some(count) => count,
        None => {
            return Err("Writer capacity overflow");
        },
    };
    if count > MAX_PERMITS || policy.data_bytes < 14 || policy.data_bytes as usize > MAX_PERMITS {
        return Err("Writer capacity is not representable");
    }
    if policy.residence == 0 || policy.active_write == 0 || !residence_reached || !write_reached {
        return Err("Writer deadline is not representable");
    }
    Ok(count)
}

/// Reserved room for prefix and header, followed by the encoded text.
pub open spec fn prepared(body: Option<SecsItem>) -> Seq<u8> {
    Seq::new(14, |i: int| 0u8) + text_bytes(body)
}

/// Encoded message text.
pub open spec fn text_bytes(body: Option<SecsItem>) -> Seq<u8> {
    match body {
        Some(item) => item.encoded@,
        None => Seq::empty(),
    }
}

/// Wire image of a Data message: length prefix, header and text.
pub open spec fn data_frame(header: DataHeader, text: Seq<u8>) -> Seq<u8> {
    message::big_endian((text.len() + 10) as u32) + header.wire()@ + text
}

/// Returns reserved room for prefix and header, followed by the encoded text.
pub fn prepare(body: &Option<SecsItem>) -> (r: Vec<u8>)
    ensures
        r@ == prepared(*body),
{
    let mut bytes: Vec<u8> = vec![0, 0, 0, 0, 0, 0, 0, 0, 0, 0, 0, 0, 0, 0];
    match body {
        Some(item) => {
            bytes.extend_from_slice(item.encoded.as_slice());
        },
        None => {},
    }
    assert(bytes@ =~= prepared(*body));
    bytes
}

/// Writes prefix and header into prepared bytes.
pub fn complete_frame(bytes: Vec<u8>, header: DataHeader) -> (r: Vec<u8>)
    requires
        14 <= bytes@.len() <= u32::MAX,
    ensures
        r@ == data_frame(header, bytes@.skip(14)),
{
    let mut frame = bytes;
    let ghost text = bytes@.skip(14);
    let length = big_endian_bytes((frame.len() - 4) as u32);
    let wire = header.to_bytes();
    let mut i: usize = 0;
    while i < 4
        invariant
            i <= 4,
            frame@.len() == bytes@.len(),
            bytes@.len() >= 14,
            forall|j: int| 0 <= j < i ==> frame@[j] == length@[j],
            forall|j: int| i <= j < bytes@.len() ==> frame@[j] == bytes@[j],
        decreases 4 - i,
    {
        frame.set(i, length[i]);
        i = i + 1;
    }
    let mut k: usize = 0;
    while k < 10
        invariant
            k <= 10,
            frame@.len() == bytes@.len(),
            bytes@.len() >= 14,
            forall|j: int| 0 <= j < 4 ==> frame@[j] == length@[j],
            forall|j: int| 0 <= j < k ==> frame@[j + 4] == wire@[j],
            forall|j: int| 4 + k <= j < bytes@.len() ==> frame@[j] == bytes@[j],
        decreases 10 - k,
    {
        frame.set(k + 4, wire[k]);
        k = k + 1;
    }
    proof {
        assert forall|j: int| 4 <= j < 14 implies frame@[j] == #[trigger] data_frame(
            header,
            text,
        )[j] by {
            assert(frame@[(j - 4) + 4] == wire@[j - 4]);
        }
        assert(frame@ =~= data_frame(header, text));
    }
    frame
}

/// A frame says how long it is: its first four bytes, read as one number with the
/// most significant byte first, are the number of bytes that follow them. Behind the
/// prefix come the header's fields, and then the text, byte for byte.
pub proof fn law_frame_tells_its_length(header: DataHeader, text: Seq<u8>)
    requires
        text.len() + 14 <= u32::MAX,
        header.stream.value() < 128,
    ensures
        ({
            let frame = data_frame(header, text);
            &&& frame.len() == text.len() + 14
            &&& frame[0] * 0x100_0000 + frame[1] * 0x1_0000 + frame[2] * 0x100 + frame[3]
                == frame.len() - 4
            &&& frame[4] * 256 + frame[5] == header.session_id.value()
            &&& frame[6] >= 128 <==> header.reply_expected
            &&& frame[6] % 128 == header.stream.value()
            &&& frame[7] == header.function.value
            &&& frame[8] == 0 && frame[9] == 0
            &&& frame[10] * 0x100_0000 + frame[11] * 0x1_0000 + frame[12] * 0x100 + frame[13]
                == header.system_bytes.value
            &&& forall|i: int| 0 <= i < text.len() ==> #[trigger] frame[i + 14] == text[i]
        }),
{
    let frame = data_frame(header, text);
    let prefix = message::big_endian((text.len() + 10) as u32);
    crate::protocol::laws::law_number_reads_back((text.len() + 10) as u32);
    crate::protocol::laws::law_data_header_reads_back(header);
    assert(frame[0] == prefix[0] && frame[1] == prefix[1] && frame[2] == prefix[2] && frame[3]
        == prefix[3]);
    assert forall|j: int| 0 <= j < 10 implies #[trigger] header.wire()@[j] == frame[j + 4] by {}
    assert(frame[4] == header.wire()@[0] && frame[5] == header.wire()@[1] && frame[6]
        == header.wire()@[2] && frame[7] == header.wire()@[3] && frame[8] == header.wire()@[4]
        && frame[9] == header.wire()@[5] && frame[10] == header.wire()@[6] && frame[11]
        == header.wire()@[7] && frame[12] == header.wire()@[8] && frame[13] == header.wire()@[9]);
}

/// Preparing a message keeps its text: behind room for a prefix and a header of
/// fourteen bytes stands the encoded body, byte for byte, and the frame that is
/// completed from it carries exactly that text.
pub proof fn law_prepared_text_is_written(header: DataHeader, body: Option<SecsItem>)
    ensures
        prepared(body).len() == 14 + match body {
            Some(item) => item.encoded@.len(),
            None => 0,
        },
        body matches Some(item) ==> prepared(body).skip(14) == item.encoded@,
        body is None ==> prepared(body).skip(14).len() == 0,
        data_frame(header, prepared(body).skip(14)).skip(14) == match body {
            Some(item) => item.encoded@,
            None => Seq::empty(),
        },
        crate::secs2::spec_text_length(body) + 14 == data_frame(
            header,
            prepared(body).skip(14),
        ).len(),
{
    let text = text_bytes(body);
    assert(prepared(body).skip(14) =~= text);
    assert(data_frame(header, text).skip(14) =~= text);
}

/// What the outside objects answered while a Data message was reserved.
pub struct DataAnswers {
    /// The Writer had stopped before.
    pub closed: bool,
    /// Claimed Data slot.
    pub slot: Option<OwnedSemaphorePermit>,
    /// Claimed wire bytes.
    pub bytes: Option<OwnedSemaphorePermit>,
    /// Claimed FIFO position.
    pub position: Option<mpsc::OwnedPermit<QueuedFrame>>,
    /// The Writer had stopped by the time no position was free.
    pub closed_since: bool,
}

/// What the outside objects answered while a control frame was admitted.
pub struct ControlAnswers {
    /// The Writer had stopped before.
    pub closed: bool,
    /// Claimed control slot.
    pub slot: Option<OwnedSemaphorePermit>,
    /// Claimed FIFO position.
    pub position: Option<mpsc::OwnedPermit<QueuedFrame>>,
    /// The Writer had stopped by the time no position was free.
    pub closed_since: bool,
}

/// Budgets of the Writer's lanes.
pub struct Lanes {
    /// Slots for control frames.
    pub control_slots: Arc<Semaphore>,
    /// Slots for Data frames.
    pub data_slots: Arc<Semaphore>,
    /// Aggregate bytes of Data frames.
    pub data_bytes: Arc<Semaphore>,
}

/// Single-owner entrance to the Writer of one generation.
pub struct BoundedWriter {
    owner: u64,
    queue: mpsc::Sender<QueuedFrame>,
    control_slots: Arc<Semaphore>,
    data_slots: Arc<Semaphore>,
    data_bytes: Arc<Semaphore>,
    limits: WriterLimits,
    policy: WriterPolicy,
    epoch: Instant,
    next_sequence: Option<u64>,
    handed: Ghost<Seq<QueuedFrame>>,
}

/// The frame was put into this position of the FIFO.
pub closed spec fn placed(
    position: mpsc::OwnedPermit<QueuedFrame>,
    queued: QueuedFrame,
) -> bool {
    call_ensures(send_reserved::<QueuedFrame>, (position, queued), ())
}

/// Successor of a position; the last position has none.
pub open spec fn successor(raw: u64) -> Option<u64> {
    if raw == u64::MAX {
        None
    } else {
        Some((raw + 1) as u64)
    }
}

/// The frames of a FIFO stand at the positions 0, 1, 2 and so on, and `next` is the
/// position behind them.
pub open spec fn in_wire_order(handed: Seq<QueuedFrame>, next: Option<u64>) -> bool {
    &&& forall|i: int| 0 <= i < handed.len() ==> (#[trigger] handed[i]).sequence.value == i
    &&& next == if handed.len() <= u64::MAX {
        Some(handed.len() as u64)
    } else {
        None
    }
}

impl BoundedWriter {
    /// Every frame that was put into the FIFO, in order.
    pub closed spec fn handed(&self) -> Seq<QueuedFrame> {
        self.handed@
    }

    /// Common FIFO of both lanes.
    pub closed spec fn fifo(&self) -> mpsc::Sender<QueuedFrame> {
        self.queue
    }

    /// Start of the Writer's clock.
    pub closed spec fn started(&self) -> Instant {
        self.epoch
    }

    /// Budgets of the lanes.
    pub closed spec fn lanes(&self) -> Lanes {
        Lanes {
            control_slots: self.control_slots,
            data_slots: self.data_slots,
            data_bytes: self.data_bytes,
        }
    }

    /// Next admission position, none once they are exhausted.
    pub closed spec fn next(&self) -> Option<u64> {
        self.next_sequence
    }

    /// Identity that the Writer puts into its permits.
    pub closed spec fn identity(&self) -> u64 {
        self.owner
    }

    /// Lane capacities.
    pub closed spec fn limits(&self) -> WriterLimits {
        self.limits
    }

    /// Byte and time budget.
    pub closed spec fn policy(&self) -> WriterPolicy {
        self.policy
    }

    /// Creates a Writer entrance from the configuration of its endpoint.
    pub fn from_config(owner: u64, config: &EndpointConfig, epoch: Instant) -> (r: Result<
        (Self, WriterWorker, mpsc::Receiver<WriterReport>),
        ConfigError,
    >)
        requires
            config.limits.data_lane_capacity + config.limits.critical_lane_capacity > 0,
        ensures
            if config.valid() {
                exists|
                    built: Result<
                        (Self, WriterWorker, mpsc::Receiver<WriterReport>),
                        &'static str,
                    >,
                |
                    {
                        &&& #[trigger] writer_built(
                            owner,
                            configured_limits(*config),
                            configured_policy(*config),
                            epoch,
                            built,
                        )
                        &&& r == match built {
                            Ok(parts) => Ok(parts),
                            Err(description) => Err(ConfigError::RuntimePolicy { description }),
                        }
                    }
            } else {
                r matches Err(error) && config.refused(error)
            },
    {
        match config.validate() {
            Ok(()) => {},
            Err(error) => {
                return Err(error);
            },
        }
        let limits = WriterLimits {
            data_lane_capacity: config.limits.data_lane_capacity,
            critical_lane_capacity: config.limits.critical_lane_capacity,
            max_message_length: config.limits.max_message_length,
        };
        let policy = WriterPolicy {
            data_bytes: config.runtime.write_bytes,
            residence: config.runtime.residence,
            active_write: config.runtime.write,
        };
        let built = Self::new(owner, limits, policy, epoch);
        assert(writer_built(
            owner,
            configured_limits(*config),
            configured_policy(*config),
            epoch,
            built,
        ));
        match built {
            Ok(parts) => Ok(parts),
            Err(description) => Err(ConfigError::RuntimePolicy { description }),
        }
    }

    /// Creates a Writer entrance with the worker behind it and the queue of its
    /// reports. `owner` is the identity of this Writer among all others.
    pub fn new(
        owner: u64,
        limits: WriterLimits,
        policy: WriterPolicy,
        epoch: Instant,
    ) -> (r: Result<(Self, WriterWorker, mpsc::Receiver<WriterReport>), &'static str>)
        requires
            limits.data_lane_capacity + limits.critical_lane_capacity > 0,
        ensures
            writer_built(owner, limits, policy, epoch, r),
    {
        let residence_reached = reaches(&epoch, policy.residence);
        let write_reached = reaches(&epoch, policy.active_write);
        let count: usize = match writer_capacity(
            &limits,
            &policy,
            residence_reached,
            write_reached,
        ) {
            Ok(count) => count,
            Err(description) => {
                return Err(description);
            },
        };
        let (frames, receiver) = bounded_queue(count);
        let (reports, consumer) = bounded_queue(count);
        Ok(
            (
                BoundedWriter {
                    owner,
                    queue: frames,
                    control_slots: new_semaphore(limits.critical_lane_capacity),
                    data_slots: new_semaphore(limits.data_lane_capacity),
                    data_bytes: new_semaphore(policy.data_bytes as usize),
                    limits,
                    policy,
                    epoch,
                    next_sequence: Some(0),
                    handed: Ghost(Seq::empty()),
                },
                WriterWorker {
                    queue: receiver,
                    reports,
                    epoch,
                    progress: WriterProgress { policy, terminal: None },
                },
                consumer,
            ),
        )
    }

    /// Place in the wire order of a frame that must be written until `deadline`.
    pub open spec fn admission(&self, deadline: Option<MonoTime>) -> Option<
        (WireSequence, MonoTime),
    > {
        match (deadline, self.next()) {
            (Some(deadline), Some(raw)) => Some((WireSequence { value: raw }, deadline)),
            _ => None,
        }
    }

    /// Takes the next admission position for a frame that must be written until
    /// `deadline`. Nothing is taken when the clock does not reach that time.
    pub fn admission_until(&mut self, deadline: Option<MonoTime>) -> (r: Option<
        (WireSequence, MonoTime),
    >)
        ensures
            r == old(self).admission(deadline),
            r is None ==> *final(self) == *old(self),
            r is Some ==> final(self).next() == successor(old(self).next()->0),
            final(self).identity() == old(self).identity(),
            final(self).limits() == old(self).limits(),
            final(self).policy() == old(self).policy(),
            final(self).lanes() == old(self).lanes(),
            final(self).fifo() == old(self).fifo(),
            final(self).started() == old(self).started(),
            final(self).handed() == old(self).handed(),
    {
        let deadline = match deadline {
            Some(deadline) => deadline,
            None => {
                return None;
            },
        };
        let raw = match self.next_sequence {
            Some(raw) => raw,
            None => {
                return None;
            },
        };
        self.next_sequence = raw.checked_add(1);
        Some((WireSequence::new(raw), deadline))
    }

    /// Why a message with this body can never be written, if anything speaks
    /// against it.
    pub open spec fn size_refusal(&self, body: Option<SecsItem>) -> Option<OperationError> {
        let text = crate::secs2::spec_text_length(body);
        if text + 10 > self.limits().max_message_length {
            Some(
                OperationError::OutboundFrameTooLarge {
                    text_length: text as usize,
                    maximum_message_length: self.limits().max_message_length,
                },
            )
        } else if text + 14 > usize::MAX || text + 14 > u32::MAX {
            Some(OperationError::Backpressure)
        } else {
            None
        }
    }

    /// Returns the wire length of a message with this body, or why it can never
    /// be written.
    pub fn planned_length(&self, body: &Option<SecsItem>) -> (r: Result<u32, OperationError>)
        ensures
            r == match self.size_refusal(*body) {
                Some(error) => Err(error),
                None => Ok((crate::secs2::spec_text_length(*body) + 14) as u32),
            },
    {
        let text = text_length(body);
        let maximum = self.limits.max_message_length;
        if maximum < 10 || text > maximum - 10 {
            return Err(
                OperationError::OutboundFrameTooLarge {
                    text_length: text,
                    maximum_message_length: maximum,
                },
            );
        }
        match text.checked_add(14) {
            Some(length) if length <= u32::MAX as usize => Ok(length as u32),
            _ => Err(OperationError::Backpressure),
        }
    }

    /// Why a message is not reserved, given what the Writer, the Data lane, the
    /// byte budget and the FIFO answered, if anything speaks against it.
    pub open spec fn reservation_refusal(
        &self,
        body: Option<SecsItem>,
        answers: DataAnswers,
    ) -> Option<OperationError> {
        if answers.closed {
            Some(OperationError::ConnectionLost)
        } else {
            match self.size_refusal(body) {
                Some(error) => Some(error),
                None => if answers.slot is None || answers.bytes is None {
                    Some(OperationError::Backpressure)
                } else if answers.position is None {
                    Some(
                        if answers.closed_since {
                            OperationError::ConnectionLost
                        } else {
                            OperationError::Backpressure
                        },
                    )
                } else {
                    None
                },
            }
        }
    }

    /// The permit, or the refusal, that is owed for these answers.
    pub open spec fn reservation(
        &self,
        body: Option<SecsItem>,
        answers: DataAnswers,
        r: Result<PreparedData, OperationError>,
    ) -> bool {
        match r {
            Ok(permit) => {
                &&& self.reservation_refusal(body, answers) is None
                &&& permit.owner == self.identity()
                &&& permit.bytes@ == prepared(body)
                &&& Some(permit.queue) == answers.position
                &&& Some(permit.charge.slot) == answers.slot
                &&& permit.charge.bytes == answers.bytes
            },
            Err(error) => self.reservation_refusal(body, answers) == Some(error),
        }
    }

    /// Makes the permit of a message from what the Writer, the lane, the budget
    /// and the FIFO answered.
    pub fn reserve_with(&self, body: &Option<SecsItem>, answers: DataAnswers) -> (r: Result<
        PreparedData,
        OperationError,
    >)
        ensures
            self.reservation(*body, answers, r),
    {
        if answers.closed {
            return Err(OperationError::ConnectionLost);
        }
        match self.planned_length(body) {
            Ok(_) => {},
            Err(error) => {
                return Err(error);
            },
        }
        match (answers.slot, answers.bytes) {
            (Some(slot), Some(bytes)) => match answers.position {
                Some(position) => Ok(
                    PreparedData {
                        owner: self.owner,
                        queue: position,
                        bytes: prepare(body),
                        charge: Charge { slot, bytes: Some(bytes) },
                    },
                ),
                None => Err(
                    if answers.closed_since {
                        OperationError::ConnectionLost
                    } else {
                        OperationError::Backpressure
                    },
                ),
            },
            _ => Err(OperationError::Backpressure),
        }
    }

    /// Why a reserved Data frame is refused, if anything speaks against
    /// it.
    pub open spec fn data_refusal(
        &self,
        permit: PreparedData,
        message: ProtocolMessage,
        closed: bool,
        deadline: Option<MonoTime>,
    ) -> Option<ReservedDataAdmissionError> {
        if permit.owner != self.identity() {
            Some(ReservedDataAdmissionError::Invariant)
        } else if closed {
            Some(ReservedDataAdmissionError::Closed)
        } else if message is Control || permit.bytes@.len() < 14 || permit.bytes@.len() > u32::MAX
            || permit.bytes@.len() - 4 > self.limits().max_message_length || self.admission(
            deadline,
        ) is None {
            Some(ReservedDataAdmissionError::Invariant)
        } else {
            None
        }
    }

    /// FIFO entry of a Data frame that is admitted against its permit: the
    /// wire image of its header and of the reserved text, at the next position.
    pub open spec fn data_queued(
        &self,
        permit: PreparedData,
        frame: OutboundFrame,
        deadline: Option<MonoTime>,
        queued: QueuedFrame,
    ) -> bool {
        &&& self.admission(deadline) == Some((queued.sequence, queued.deadline))
        &&& queued.write_id == frame.write_id
        &&& queued.bytes@ == data_frame(frame.message->Data_0.header, permit.bytes@.skip(14))
        &&& queued.charge == permit.charge
    }

    /// Completes a reserved Data frame and gives it its place in the wire order.
    pub fn plan_data(
        &mut self,
        permit: PreparedData,
        frame: OutboundFrame,
        closed: bool,
        deadline: Option<MonoTime>,
    ) -> (r: Result<(mpsc::OwnedPermit<QueuedFrame>, QueuedFrame), ReservedDataAdmissionError>)
        ensures
            match r {
                Ok((position, queued)) => {
                    &&& old(self).data_refusal(permit, frame.message, closed, deadline) is None
                    &&& old(self).data_queued(permit, frame, deadline, queued)
                    &&& position == permit.queue
                    &&& final(self).next() == successor(queued.sequence.value)
                },
                Err(error) => old(self).data_refusal(permit, frame.message, closed, deadline)
                    == Some(error) && final(self).next() == old(self).next(),
            },
            final(self).identity() == old(self).identity(),
            final(self).limits() == old(self).limits(),
            final(self).policy() == old(self).policy(),
            final(self).lanes() == old(self).lanes(),
            final(self).fifo() == old(self).fifo(),
            final(self).started() == old(self).started(),
            final(self).handed() == old(self).handed(),
    {
        if permit.owner != self.owner {
            return Err(ReservedDataAdmissionError::Invariant);
        }
        if closed {
            return Err(ReservedDataAdmissionError::Closed);
        }
        let (write_id, message) = frame.into_parts();
        let message = match message {
            ProtocolMessage::Data(message) => message,
            ProtocolMessage::Control(_) => {
                return Err(ReservedDataAdmissionError::Invariant);
            },
        };
        if permit.bytes.len() < 14 || permit.bytes.len() > u32::MAX as usize
            || permit.bytes.len() - 4 > self.limits.max_message_length {
            return Err(ReservedDataAdmissionError::Invariant);
        }
        match self.admission_until(deadline) {
            None => Err(ReservedDataAdmissionError::Invariant),
            Some((sequence, deadline)) => {
                let bytes = complete_frame(permit.bytes, message.header());
                Ok(
                    (
                        permit.queue,
                        QueuedFrame { write_id, sequence, bytes, deadline, charge: permit.charge },
                    ),
                )
            },
        }
    }

    /// Why a control frame is refused, given what the Writer, the
    /// control lane and the FIFO answered, if anything speaks against it.
    pub open spec fn control_refusal(
        &self,
        message: ProtocolMessage,
        answers: ControlAnswers,
        deadline: Option<MonoTime>,
    ) -> Option<WriteAdmissionError> {
        if message is Data {
            Some(WriteAdmissionError::Invariant)
        } else if answers.closed {
            Some(WriteAdmissionError::Closed)
        } else if answers.slot is None {
            Some(WriteAdmissionError::Full)
        } else if answers.position is None {
            Some(
                if answers.closed_since {
                    WriteAdmissionError::Closed
                } else {
                    WriteAdmissionError::Full
                },
            )
        } else if self.admission(deadline) is None {
            Some(WriteAdmissionError::Invariant)
        } else {
            None
        }
    }

    /// FIFO entry of a control frame that is admitted: its wire image, at
    /// the next position.
    pub open spec fn control_queued(
        &self,
        frame: OutboundFrame,
        answers: ControlAnswers,
        deadline: Option<MonoTime>,
        queued: QueuedFrame,
    ) -> bool {
        &&& self.admission(deadline) == Some((queued.sequence, queued.deadline))
        &&& queued.write_id == frame.write_id
        &&& queued.bytes@ == frame.message->Control_0.frame()
        &&& Some(queued.charge.slot) == answers.slot
        &&& queued.charge.bytes is None
    }

    /// Encodes a control frame and gives it its place in the wire order.
    pub fn plan_control(
        &mut self,
        frame: OutboundFrame,
        answers: ControlAnswers,
        deadline: Option<MonoTime>,
    ) -> (r: Result<(mpsc::OwnedPermit<QueuedFrame>, QueuedFrame), WriteAdmissionError>)
        ensures
            match r {
                Ok((position, queued)) => {
                    &&& old(self).control_refusal(frame.message, answers, deadline) is None
                    &&& old(self).control_queued(frame, answers, deadline, queued)
                    &&& Some(position) == answers.position
                    &&& final(self).next() == successor(queued.sequence.value)
                },
                Err(error) => old(self).control_refusal(frame.message, answers, deadline) == Some(
                    error,
                ) && final(self).next() == old(self).next(),
            },
            final(self).identity() == old(self).identity(),
            final(self).limits() == old(self).limits(),
            final(self).policy() == old(self).policy(),
            final(self).lanes() == old(self).lanes(),
            final(self).fifo() == old(self).fifo(),
            final(self).started() == old(self).started(),
            final(self).handed() == old(self).handed(),
    {
        let (write_id, message) = frame.into_parts();
        let message = match message {
            ProtocolMessage::Control(message) => message,
            ProtocolMessage::Data(_) => {
                return Err(WriteAdmissionError::Invariant);
            },
        };
        if answers.closed {
            return Err(WriteAdmissionError::Closed);
        }
        let slot = match answers.slot {
            Some(slot) => slot,
            None => {
                return Err(WriteAdmissionError::Full);
            },
        };
        let position = match answers.position {
            Some(position) => position,
            None => {
                return Err(
                    if answers.closed_since {
                        WriteAdmissionError::Closed
                    } else {
                        WriteAdmissionError::Full
                    },
                );
            },
        };
        match self.admission_until(deadline) {
            None => Err(WriteAdmissionError::Invariant),
            Some((sequence, deadline)) => Ok(
                (
                    position,
                    QueuedFrame {
                        write_id,
                        sequence,
                        bytes: message.encode(),
                        deadline,
                        charge: Charge { slot, bytes: None },
                    },
                ),
            ),
        }
    }

    /// Puts a frame into its reserved FIFO position.
    fn enqueue(&mut self, position: mpsc::OwnedPermit<QueuedFrame>, queued: QueuedFrame)
        ensures
            placed(position, queued),
            final(self).handed() == old(self).handed().push(queued),
            final(self).next() == old(self).next(),
            final(self).identity() == old(self).identity(),
            final(self).limits() == old(self).limits(),
            final(self).policy() == old(self).policy(),
            final(self).lanes() == old(self).lanes(),
            final(self).fifo() == old(self).fifo(),
            final(self).started() == old(self).started(),
    {
        self.handed = Ghost(self.handed@.push(queued));
        send_reserved(position, queued);
    }

    /// A Data frame stands behind everything that was put into the FIFO before and
    /// the position is the one that it took, or nothing was put there and the
    /// refusal is the one owed.
    pub open spec fn data_admitted(
        &self,
        permit: PreparedData,
        frame: OutboundFrame,
        closed: bool,
        deadline: Option<MonoTime>,
        r: Result<WireSequence, ReservedDataAdmissionError>,
        after: Seq<QueuedFrame>,
    ) -> bool {
        match r {
            Ok(sequence) => {
                &&& self.data_refusal(permit, frame.message, closed, deadline) is None
                &&& after.len() == self.handed().len() + 1
                &&& after.drop_last() == self.handed()
                &&& self.data_queued(permit, frame, deadline, after.last())
                &&& placed(permit.queue, after.last())
                &&& after.last().sequence == sequence
            },
            Err(error) => {
                &&& self.data_refusal(permit, frame.message, closed, deadline) == Some(error)
                &&& after == self.handed()
            },
        }
    }

    /// A control frame stands behind everything that was put into the FIFO before
    /// and the position is the one that it took, or nothing was put there and the
    /// refusal is the one owed.
    pub open spec fn control_admitted(
        &self,
        frame: OutboundFrame,
        answers: ControlAnswers,
        deadline: Option<MonoTime>,
        r: Result<WireSequence, WriteAdmissionError>,
        after: Seq<QueuedFrame>,
    ) -> bool {
        match r {
            Ok(sequence) => {
                &&& self.control_refusal(frame.message, answers, deadline) is None
                &&& after.len() == self.handed().len() + 1
                &&& after.drop_last() == self.handed()
                &&& self.control_queued(frame, answers, deadline, after.last())
                &&& placed(answers.position->0, after.last())
                &&& after.last().sequence == sequence
            },
            Err(error) => {
                &&& self.control_refusal(frame.message, answers, deadline) == Some(error)
                &&& after == self.handed()
            },
        }
    }

    /// The FIFO said whether the Writer has stopped when it was asked.
    pub closed spec fn stop_reported(&self, stopped: bool) -> bool {
        call_ensures(is_closed::<QueuedFrame>, (&self.queue,), stopped)
    }

    /// The FIFO gave this answer when a position was claimed.
    pub closed spec fn position_answered(
        &self,
        position: Option<mpsc::OwnedPermit<QueuedFrame>>,
    ) -> bool {
        call_ensures(try_reserve_owned::<QueuedFrame>, (&self.queue,), position)
    }

    /// The residence of a frame that is admitted now ends at this time, by the
    /// Writer's clock, or cannot be told on it.
    pub open spec fn deadline_set(&self, deadline: Option<MonoTime>) -> bool {
        exists|now: MonoTime|
            {
                &&& #[trigger] clock::showed(self.started(), now)
                &&& clock::deadline_told(
                    self.started(),
                    now,
                    self.policy().residence,
                    deadline,
                )
            }
    }

    /// Returns when the residence of a frame that is admitted now ends.
    fn residence_end(&self) -> (r: Option<MonoTime>)
        ensures
            self.deadline_set(r),
    {
        let now = time_since(&self.epoch);
        let deadline = deadline_after(&self.epoch, now, self.policy.residence);
        assert(clock::showed(self.started(), now));
        deadline
    }

    /// These are the answers that the FIFO, the Data lane and the byte budget gave
    /// for a message with this body, as far as they were asked: one slot, exactly
    /// the bytes of the wire image, and a position.
    pub open spec fn data_asked(&self, body: Option<SecsItem>, answers: DataAnswers) -> bool {
        let open = !answers.closed && self.size_refusal(body) is None;
        let length = (crate::secs2::spec_text_length(body) + 14) as u32;
        &&& self.stop_reported(answers.closed)
        &&& open ==> semaphore::slot_answered(self.lanes().data_slots, answers.slot)
        &&& open && answers.slot is Some ==> call_ensures(
            try_reserve,
            (&self.lanes().data_bytes, length),
            answers.bytes,
        )
        &&& open && answers.slot is Some && answers.bytes is Some ==> self.position_answered(
            answers.position,
        )
        &&& open && answers.slot is Some && answers.bytes is Some && answers.position is None
            ==> self.stop_reported(answers.closed_since)
        &&& answers.slot matches Some(slot) ==> {
            &&& semaphore::issuer(slot) == self.lanes().data_slots
            &&& semaphore::held(slot) == 1
        }
        &&& answers.bytes matches Some(bytes) ==> {
            &&& semaphore::issuer(bytes) == self.lanes().data_bytes
            &&& semaphore::held(bytes) == length
        }
    }

    /// These are the answers that the FIFO and the control lane gave for a control
    /// frame, as far as they were asked: one slot and a position.
    pub open spec fn control_asked(
        &self,
        message: ProtocolMessage,
        answers: ControlAnswers,
    ) -> bool {
        let open = message is Control && !answers.closed;
        &&& message is Control ==> self.stop_reported(answers.closed)
        &&& open ==> semaphore::slot_answered(self.lanes().control_slots, answers.slot)
        &&& open && answers.slot is Some ==> self.position_answered(answers.position)
        &&& open && answers.slot is Some && answers.position is None ==> self.stop_reported(
            answers.closed_since,
        )
        &&& answers.slot matches Some(slot) ==> {
            &&& semaphore::issuer(slot) == self.lanes().control_slots
            &&& semaphore::held(slot) == 1
        }
    }
}

impl WriterIngress for BoundedWriter {
    type DataPermit = PreparedData;

    /// Reserves a slot, the bytes and a FIFO position, and encodes the text. A
    /// stopped Writer and a body that does not fit are told apart from a Writer
    /// that is busy.
    fn try_reserve_message(&mut self, body: &Option<SecsItem>) -> (r: Result<
        PreparedData,
        OperationError,
    >)
        ensures
            *final(self) == *old(self),
            exists|answers: DataAnswers|
                old(self).data_asked(*body, answers) && #[trigger] old(self).reservation(
                    *body,
                    answers,
                    r,
                ),
    {
        let closed = is_closed(&self.queue);
        let mut slot: Option<OwnedSemaphorePermit> = None;
        let mut bytes: Option<OwnedSemaphorePermit> = None;
        let mut position: Option<mpsc::OwnedPermit<QueuedFrame>> = None;
        let mut closed_since = closed;
        if !closed {
            match self.planned_length(body) {
                Ok(length) => {
                    slot = try_claim(&self.data_slots);
                    if slot.is_some() {
                        bytes = try_reserve(&self.data_bytes, length);
                    }
                    if bytes.is_some() {
                        position = try_reserve_owned(&self.queue);
                        closed_since = position.is_none() && is_closed(&self.queue);
                    }
                },
                Err(_) => {},
            }
        }
        let answers = DataAnswers { closed, slot, bytes, position, closed_since };
        assert(self.data_asked(*body, answers));
        self.reserve_with(body, answers)
    }

    /// Reserves what a header-only Data message needs.
    fn try_reserve_data(&mut self) -> (r: Result<PreparedData, DataReserveError>)
        ensures
            *final(self) == *old(self),
            exists|answers: DataAnswers, reserved: Result<PreparedData, OperationError>|
                {
                    &&& old(self).data_asked(None, answers)
                    &&& #[trigger] old(self).reservation(None, answers, reserved)
                    &&& r == match reserved {
                        Ok(permit) => Ok(permit),
                        Err(OperationError::ConnectionLost) => Err(DataReserveError::Closed),
                        Err(_) => Err(DataReserveError::Full),
                    }
                },
    {
        match self.try_reserve_message(&None) {
            Ok(permit) => Ok(permit),
            Err(error) => match error {
                OperationError::ConnectionLost => Err(DataReserveError::Closed),
                _ => Err(DataReserveError::Full),
            },
        }
    }

    /// Gives back a permit of this Writer; a foreign permit is refused. Its slot,
    /// bytes and FIFO position return with it either way.
    fn release_data(&mut self, permit: PreparedData) -> (r: Result<(), DataPermitError>)
        ensures
            *final(self) == *old(self),
            r is Ok <==> permit.owner == old(self).identity(),
    {
        if permit.owner != self.owner {
            Err(DataPermitError::Invariant)
        } else {
            Ok(())
        }
    }

    /// Hands over a Data frame against its permit. A success takes the next
    /// admission position; a refusal takes none.
    fn admit_reserved_data(&mut self, permit: PreparedData, frame: OutboundFrame) -> (r: Result<
        WireSequence,
        ReservedDataAdmissionError,
    >)
        ensures
            exists|closed: bool, deadline: Option<MonoTime>|
                {
                    &&& old(self).stop_reported(closed)
                    &&& old(self).deadline_set(deadline)
                    &&& #[trigger] old(self).data_admitted(
                        permit,
                        frame,
                        closed,
                        deadline,
                        r,
                        final(self).handed(),
                    )
                },
            final(self).next() == match r {
                Ok(sequence) => successor(sequence.value),
                Err(_) => old(self).next(),
            },
            final(self).identity() == old(self).identity(),
            final(self).limits() == old(self).limits(),
            final(self).policy() == old(self).policy(),
            final(self).lanes() == old(self).lanes(),
            final(self).fifo() == old(self).fifo(),
            final(self).started() == old(self).started(),
    {
        let closed = is_closed(&self.queue);
        let deadline = self.residence_end();
        let ghost start = *self;
        match self.plan_data(permit, frame, closed, deadline) {
            Ok((position, queued)) => {
                let sequence = queued.sequence;
                self.enqueue(position, queued);
                assert(self.handed().drop_last() =~= start.handed());
                assert(start.data_admitted(
                    permit,
                    frame,
                    closed,
                    deadline,
                    Ok(sequence),
                    self.handed(),
                ));
                Ok(sequence)
            },
            Err(error) => {
                assert(start.data_admitted(
                    permit,
                    frame,
                    closed,
                    deadline,
                    Err(error),
                    self.handed(),
                ));
                Err(error)
            },
        }
    }

    /// Hands over a control frame. A success takes the next admission position; a
    /// refusal takes none.
    fn try_admit(&mut self, frame: OutboundFrame) -> (r: Result<WireSequence, WriteAdmissionError>)
        ensures
            exists|answers: ControlAnswers, deadline: Option<MonoTime>|
                {
                    &&& old(self).control_asked(frame.message, answers)
                    &&& old(self).deadline_set(deadline)
                    &&& #[trigger] old(self).control_admitted(
                        frame,
                        answers,
                        deadline,
                        r,
                        final(self).handed(),
                    )
                },
            final(self).next() == match r {
                Ok(sequence) => successor(sequence.value),
                Err(_) => old(self).next(),
            },
            final(self).identity() == old(self).identity(),
            final(self).limits() == old(self).limits(),
            final(self).policy() == old(self).policy(),
            final(self).lanes() == old(self).lanes(),
            final(self).fifo() == old(self).fifo(),
            final(self).started() == old(self).started(),
    {
        let mut slot: Option<OwnedSemaphorePermit> = None;
        let mut position: Option<mpsc::OwnedPermit<QueuedFrame>> = None;
        let mut closed = false;
        let mut closed_since = false;
        match &frame.message {
            ProtocolMessage::Control(_) => {
                closed = is_closed(&self.queue);
                if !closed {
                    slot = try_claim(&self.control_slots);
                }
                if slot.is_some() {
                    position = try_reserve_owned(&self.queue);
                    closed_since = position.is_none() && is_closed(&self.queue);
                }
            },
            ProtocolMessage::Data(_) => {},
        }
        let deadline = self.residence_end();
        let answers = ControlAnswers { closed, slot, position, closed_since };
        let ghost start = *self;
        let ghost given = answers;
        assert(start.control_asked(frame.message, given));
        match self.plan_control(frame, answers, deadline) {
            Ok((position, queued)) => {
                let sequence = queued.sequence;
                self.enqueue(position, queued);
                assert(self.handed().drop_last() =~= start.handed());
                assert(start.control_admitted(frame, given, deadline, Ok(sequence), self.handed()));
                Ok(sequence)
            },
            Err(error) => {
                assert(start.control_admitted(frame, given, deadline, Err(error), self.handed()));
                Err(error)
            },
        }
    }
}

/// Admission position is wire order: admitting a Data frame keeps every frame of
/// the FIFO at its position and puts the new one behind them.
pub proof fn law_data_keeps_wire_order(
    writer: BoundedWriter,
    permit: PreparedData,
    frame: OutboundFrame,
    closed: bool,
    deadline: Option<MonoTime>,
    r: Result<WireSequence, ReservedDataAdmissionError>,
    after: Seq<QueuedFrame>,
)
    requires
        in_wire_order(writer.handed(), writer.next()),
        writer.data_admitted(permit, frame, closed, deadline, r, after),
    ensures
        in_wire_order(
            after,
            match r {
                Ok(sequence) => successor(sequence.value),
                Err(_) => writer.next(),
            },
        ),
        r matches Ok(sequence) ==> sequence.value == writer.handed().len(),
{
    lemma_appended(writer.handed(), writer.next(), after);
}

/// Control frames share the one wire order: admitting one keeps every frame of the
/// FIFO at its position and puts the new one behind them.
pub proof fn law_control_keeps_wire_order(
    writer: BoundedWriter,
    frame: OutboundFrame,
    answers: ControlAnswers,
    deadline: Option<MonoTime>,
    r: Result<WireSequence, WriteAdmissionError>,
    after: Seq<QueuedFrame>,
)
    requires
        in_wire_order(writer.handed(), writer.next()),
        writer.control_admitted(frame, answers, deadline, r, after),
    ensures
        in_wire_order(
            after,
            match r {
                Ok(sequence) => successor(sequence.value),
                Err(_) => writer.next(),
            },
        ),
        r matches Ok(sequence) ==> sequence.value == writer.handed().len(),
{
    lemma_appended(writer.handed(), writer.next(), after);
}

/// One more frame at the next position keeps the wire order.
proof fn lemma_appended(before: Seq<QueuedFrame>, next: Option<u64>, after: Seq<QueuedFrame>)
    requires
        in_wire_order(before, next),
    ensures
        after.len() == before.len() + 1 && after.drop_last() == before && next == Some(
            after.last().sequence.value,
        ) ==> in_wire_order(after, successor(after.last().sequence.value)),
{
    if after.len() == before.len() + 1 && after.drop_last() == before && next == Some(
        after.last().sequence.value,
    ) {
        assert forall|i: int| 0 <= i < after.len() implies (#[trigger] after[i]).sequence.value
            == i by {
            if i < before.len() {
                assert(after.drop_last()[i] == after[i]);
            }
        }
    }
}

/// A Writer with its worker and the queue of its reports was made as asked, or
/// refused for the reason that is owed.
pub open spec fn writer_built(
    owner: u64,
    limits: WriterLimits,
    policy: WriterPolicy,
    epoch: Instant,
    r: Result<(BoundedWriter, WriterWorker, mpsc::Receiver<WriterReport>), &'static str>,
) -> bool {
    let count = (limits.data_lane_capacity + limits.critical_lane_capacity) as usize;
    &&& exists|residence_reached: bool, write_reached: bool|
        {
            let refusal = writer_refusal(limits, policy, residence_reached, write_reached);
            &&& #[trigger] clock::reach_told(epoch, policy.residence, residence_reached)
            &&& #[trigger] clock::reach_told(epoch, policy.active_write, write_reached)
            &&& match r {
                Err(description) => refusal == Some(description@),
                Ok(_) => refusal is None,
            }
        }
    &&& r matches Ok((writer, worker, consumer)) ==> {
        &&& channel::made_with(count, writer.fifo(), worker.queue)
        &&& channel::made_with(count, worker.reports, consumer)
        &&& worker.epoch == epoch
        &&& worker.progress == (WriterProgress { policy, terminal: None })
        &&& writer.next() == Some(0u64)
        &&& writer.identity() == owner
        &&& writer.limits() == limits
        &&& writer.policy() == policy
        &&& writer.started() == epoch
        &&& writer.handed() == Seq::<QueuedFrame>::empty()
        &&& in_wire_order(writer.handed(), writer.next())
        &&& semaphore::limit(writer.lanes().control_slots) == limits.critical_lane_capacity
        &&& semaphore::limit(writer.lanes().data_slots) == limits.data_lane_capacity
        &&& semaphore::limit(writer.lanes().data_bytes) == policy.data_bytes
    }
}

/// Sole write-half task with its bounded report queue.
pub struct WriterWorker {
    /// Common admission FIFO.
    pub queue: mpsc::Receiver<QueuedFrame>,
    /// Queue of terminal reports.
    pub reports: mpsc::Sender<WriterReport>,
    /// Start of the Writer's clock.
    pub epoch: Instant,
    /// Decisions about the frames.
    pub progress: WriterProgress,
}

impl WriterWorker {
    /// Begins the next frame of the FIFO at this time by the Writer's clock.
    pub fn begin(&self, deadline: MonoTime, now: MonoTime) -> (r: Result<MonoTime, WriteOutcome>)
        ensures
            exists|active: Option<MonoTime>|
                {
                    &&& #[trigger] clock::deadline_told(
                        self.epoch,
                        now,
                        self.progress.policy.active_write,
                        active,
                    )
                    &&& r == self.progress.begun(deadline, active)
                },
    {
        let active = deadline_after(&self.epoch, now, self.progress.policy.active_write);
        self.progress.begin(deadline, active)
    }
}

/// Decisions of the Writer about the frames of its FIFO.
#[derive(Clone, Copy, Debug, PartialEq, Eq, Structural)]
pub struct WriterProgress {
    /// Byte and time budget.
    pub policy: WriterPolicy,
    /// Fault that ended writing for good.
    pub terminal: Option<TransportFault>,
}

impl WriterProgress {
    /// Starts a Writer that may use the transport.
    pub fn new(policy: WriterPolicy) -> (r: Self)
        ensures
            r == (WriterProgress { policy, terminal: None }),
    {
        WriterProgress { policy, terminal: None }
    }

    /// Progress after a cancellation: the first fault stays.
    pub open spec fn cancelled(self) -> WriterProgress {
        WriterProgress {
            terminal: match self.terminal {
                Some(fault) => Some(fault),
                None => Some(TransportFault { kind: TransportFaultKind::Cancelled }),
            },
            ..self
        }
    }

    /// Cancels writing. Whoever cancels first decides the fault.
    pub fn on_cancelled(&mut self)
        ensures
            *final(self) == old(self).cancelled(),
    {
        if self.terminal.is_none() {
            self.terminal = Some(TransportFault::new(TransportFaultKind::Cancelled));
        }
    }

    /// What is owed to the next frame: the time until which it may be written, or
    /// an outcome without touching the transport. `active` is the end of an active
    /// write, when the clock reaches it.
    pub open spec fn begun(self, deadline: MonoTime, active: Option<MonoTime>) -> Result<
        MonoTime,
        WriteOutcome,
    > {
        match self.terminal {
            Some(fault) => Err(WriteOutcome::NotWritten(fault)),
            None => match active {
                Some(active) => Ok(deadline.spec_earlier(active)),
                None => Err(
                    WriteOutcome::NotWritten(TransportFault { kind: TransportFaultKind::TimedOut }),
                ),
            },
        }
    }

    /// Begins the next frame of the FIFO; `active` is the end of an active write,
    /// when the clock reaches it.
    pub fn begin(&self, deadline: MonoTime, active: Option<MonoTime>) -> (r: Result<
        MonoTime,
        WriteOutcome,
    >)
        ensures
            r == self.begun(deadline, active),
    {
        match self.terminal {
            Some(fault) => Err(WriteOutcome::NotWritten(fault)),
            None => match active {
                Some(active) => Ok(deadline.earlier(active)),
                None => Err(
                    WriteOutcome::NotWritten(TransportFault::new(TransportFaultKind::TimedOut)),
                ),
            },
        }
    }

    /// Writing after a frame ended: anything but a commit ends it for good.
    pub open spec fn settled(self, outcome: WriteOutcome) -> WriterProgress {
        WriterProgress {
            terminal: match outcome {
                WriteOutcome::Committed => self.terminal,
                WriteOutcome::NotWritten(fault) => Some(fault),
                WriteOutcome::Indeterminate(fault) => Some(fault),
            },
            ..self
        }
    }

    /// Settles a frame and returns whether the FIFO must be closed.
    pub fn settle(&mut self, outcome: WriteOutcome) -> (r: bool)
        ensures
            *final(self) == old(self).settled(outcome),
            r == (outcome != WriteOutcome::Committed),
    {
        match outcome {
            WriteOutcome::Committed => false,
            WriteOutcome::NotWritten(fault) => {
                self.terminal = Some(fault);
                true
            },
            WriteOutcome::Indeterminate(fault) => {
                self.terminal = Some(fault);
                true
            },
        }
    }
}

/// Builds the terminal report of a frame.
pub fn report(entry: QueuedFrame, outcome: WriteOutcome, occurred_at: MonoTime) -> (r: WriterReport)
    ensures
        r == (WriterReport {
            write_id: entry.write_id,
            sequence: entry.sequence,
            outcome,
            occurred_at,
            charge: entry.charge,
        }),
{
    WriterReport {
        write_id: entry.write_id,
        sequence: entry.sequence,
        outcome,
        occurred_at,
        charge: entry.charge,
    }
}

/// Progress after the frames with these outcomes.
pub open spec fn settled_all(progress: WriterProgress, outcomes: Seq<WriteOutcome>) -> WriterProgress
    decreases outcomes.len(),
{
    if outcomes.len() == 0 {
        progress
    } else {
        settled_all(progress, outcomes.drop_last()).settled(outcomes.last())
    }
}

/// Every outcome is the one that the Writer owes: without a usable transport, or
/// whatever the transport said.
pub open spec fn owed(
    progress: WriterProgress,
    outcomes: Seq<WriteOutcome>,
    deadlines: Seq<MonoTime>,
    ends: Seq<Option<MonoTime>>,
) -> bool {
    &&& deadlines.len() == outcomes.len()
    &&& ends.len() == outcomes.len()
    &&& forall|i: int|
        0 <= i < outcomes.len() ==> (settled_all(progress, #[trigger] outcomes.take(i)).begun(
            deadlines[i],
            ends[i],
        ) matches Err(outcome) ==> outcomes[i] == outcome)
}

/// After the first frame that did not commit no later frame touches the
/// transport: each is reported as not written, with the first fault.
pub proof fn law_first_failure_ends_writing(
    progress: WriterProgress,
    outcomes: Seq<WriteOutcome>,
    deadlines: Seq<MonoTime>,
    ends: Seq<Option<MonoTime>>,
    first: int,
    later: int,
)
    requires
        owed(progress, outcomes, deadlines, ends),
        0 <= first < later < outcomes.len(),
        outcomes[first] != WriteOutcome::Committed,
    ensures
        outcomes[later] == WriteOutcome::NotWritten(
            match outcomes[first] {
                WriteOutcome::NotWritten(fault) => fault,
                WriteOutcome::Indeterminate(fault) => fault,
                WriteOutcome::Committed => arbitrary(),
            },
        ),
    decreases later,
{
    lemma_terminal_stays(progress, outcomes, deadlines, ends, first, later);
}

/// The fault of the first failed frame stays until the `later` frame.
proof fn lemma_terminal_stays(
    progress: WriterProgress,
    outcomes: Seq<WriteOutcome>,
    deadlines: Seq<MonoTime>,
    ends: Seq<Option<MonoTime>>,
    first: int,
    later: int,
)
    requires
        owed(progress, outcomes, deadlines, ends),
        0 <= first < later < outcomes.len(),
        outcomes[first] != WriteOutcome::Committed,
    ensures
        settled_all(progress, outcomes.take(later)).terminal == Some(
            match outcomes[first] {
                WriteOutcome::NotWritten(fault) => fault,
                WriteOutcome::Indeterminate(fault) => fault,
                WriteOutcome::Committed => arbitrary(),
            },
        ),
    decreases later,
{
    assert(outcomes.take(later).drop_last() =~= outcomes.take(later - 1));
    if first < later - 1 {
        lemma_terminal_stays(progress, outcomes, deadlines, ends, first, later - 1);
        assert(settled_all(progress, outcomes.take(later - 1)).begun(
            deadlines[later - 1],
            ends[later - 1],
        ) is Err);
    }
}

} // verus!
