//! Bounded delivery of primaries and protocol errors to one consumer.

use crate::api::{InboundPrimary, InboundProtocolError};
use crate::config::EndpointConfig;
use crate::secs2::{text_length, SecsItem};
use crate::sync::channel;
use crate::sync::channel::{capacity, is_closed, bounded_queue, try_send, Refused};
use crate::sync::semaphore;
use crate::sync::semaphore::{new_semaphore, try_reserve};
use std::sync::Arc;
use tokio::sync::{mpsc, OwnedSemaphorePermit, Semaphore};
use vstd::prelude::*;

verus! {

/// A delivered primary with the bytes that it holds until it is received.
pub struct QueuedPrimary {
    /// Delivered primary.
    pub primary: InboundPrimary,
    /// Bytes of the queue budget.
    pub bytes: OwnedSemaphorePermit,
}

impl QueuedPrimary {
    /// Releases the bytes and returns the primary.
    pub fn into_primary(self) -> (r: InboundPrimary)
        ensures
            r == self.primary,
    {
        self.primary
    }
}

/// Exclusive receiver of one endpoint.
pub struct HsmsReceiver {
    /// Ordered primaries.
    pub primaries: mpsc::Receiver<QueuedPrimary>,
    /// Protocol errors, independent of the primaries.
    pub errors: mpsc::Receiver<InboundProtocolError>,
}

/// Exclusive stream of primaries.
pub struct PrimaryReceiver {
    /// Ordered primaries.
    pub inner: mpsc::Receiver<QueuedPrimary>,
}

/// Exclusive stream of protocol errors.
pub struct ProtocolErrorReceiver {
    /// Protocol errors.
    pub inner: mpsc::Receiver<InboundProtocolError>,
}

impl HsmsReceiver {
    /// Splits the receiver so that two tasks can consume the streams.
    pub fn split(self) -> (r: (PrimaryReceiver, ProtocolErrorReceiver))
        ensures
            r.0.inner == self.primaries,
            r.1.inner == self.errors,
    {
        (PrimaryReceiver { inner: self.primaries }, ProtocolErrorReceiver { inner: self.errors })
    }
}

/// Queue bytes of a primary with this body: text, header and length prefix.
pub open spec fn queue_charge_of(body: Option<SecsItem>) -> Option<u32> {
    let text = crate::secs2::spec_text_length(body);
    if text + 14 <= usize::MAX && text + 14 <= u32::MAX {
        Some((text + 14) as u32)
    } else {
        None
    }
}

/// Returns the queue bytes of a primary with this body.
pub fn queue_charge(body: &Option<SecsItem>) -> (r: Option<u32>)
    ensures
        r == queue_charge_of(*body),
{
    match text_length(body).checked_add(14) {
        Some(length) if length <= u32::MAX as usize => Some(length as u32),
        _ => None,
    }
}

/// Slots that can be used: none of a stream that nobody reads.
pub open spec fn usable_of(closed: bool, slots: usize) -> usize {
    if closed {
        0
    } else {
        slots
    }
}

/// Returns the slots that can be used: none of a stream that nobody reads.
pub fn usable(closed: bool, slots: usize) -> (r: usize)
    ensures
        r == usable_of(closed, slots),
{
    if closed {
        0
    } else {
        slots
    }
}

/// Everything that the queues took, in order.
pub struct DeliveryView {
    /// Primaries with their charges.
    pub primaries: Seq<QueuedPrimary>,
    /// Protocol errors.
    pub errors: Seq<InboundProtocolError>,
}

/// Primaries of queue entries.
pub open spec fn primaries_of(queued: Seq<QueuedPrimary>) -> Seq<InboundPrimary> {
    queued.map_values(|entry: QueuedPrimary| entry.primary)
}

/// A queue entry holds exactly its charge out of the budget.
pub open spec fn charged(budget: Arc<Semaphore>, entry: QueuedPrimary) -> bool {
    &&& semaphore::issuer(entry.bytes) == budget
    &&& queue_charge_of(entry.primary.message.body) matches Some(charge) && semaphore::held(
        entry.bytes,
    ) == charge
}

/// A primary was taken with exactly its charge out of the budget, or nothing
/// changed.
pub open spec fn primary_delivered(
    budget: Arc<Semaphore>,
    before: DeliveryView,
    primary: InboundPrimary,
    taken: bool,
    after: DeliveryView,
) -> bool {
    if taken {
        &&& after.errors == before.errors
        &&& after.primaries.len() == before.primaries.len() + 1
        &&& after.primaries.drop_last() == before.primaries
        &&& after.primaries.last().primary == primary
        &&& charged(budget, after.primaries.last())
    } else {
        after == before
    }
}

/// The runtime's side of delivery.
pub struct Delivery {
    primaries: mpsc::Sender<QueuedPrimary>,
    errors: mpsc::Sender<InboundProtocolError>,
    bytes: Arc<Semaphore>,
    taken: Ghost<DeliveryView>,
}

impl View for Delivery {
    type V = DeliveryView;

    closed spec fn view(&self) -> DeliveryView {
        self.taken@
    }
}

impl Delivery {
    /// Bytes that queued primaries hold.
    pub closed spec fn budget(&self) -> Arc<Semaphore> {
        self.bytes
    }

    /// The receiver takes what is delivered here, from queues of the configured
    /// bounds.
    pub closed spec fn feeds(&self, receiver: HsmsReceiver, config: EndpointConfig) -> bool {
        &&& channel::made_with(
            config.limits.application_event_capacity,
            self.primaries,
            receiver.primaries,
        )
        &&& channel::made_with(
            config.limits.protocol_error_capacity,
            self.errors,
            receiver.errors,
        )
    }

    /// Both deliver into the same queues.
    pub closed spec fn same_queues(&self, other: Self) -> bool {
        self.primaries == other.primaries && self.errors == other.errors
    }

    /// The queue of primaries said whether it was closed and how many slots were
    /// free when it was asked.
    pub closed spec fn primaries_report(&self, closed: bool, slots: usize) -> bool {
        &&& call_ensures(is_closed::<QueuedPrimary>, (&self.primaries,), closed)
        &&& call_ensures(capacity::<QueuedPrimary>, (&self.primaries,), slots)
    }

    /// The queue of errors said whether it was closed and how many slots were free
    /// when it was asked.
    pub closed spec fn errors_report(&self, closed: bool, slots: usize) -> bool {
        &&& call_ensures(is_closed::<InboundProtocolError>, (&self.errors,), closed)
        &&& call_ensures(capacity::<InboundProtocolError>, (&self.errors,), slots)
    }

    /// The queue of primaries gave this answer when the entry was offered to it.
    pub closed spec fn primary_offered(
        &self,
        entry: QueuedPrimary,
        answer: Result<(), Refused<QueuedPrimary>>,
    ) -> bool {
        call_ensures(try_send::<QueuedPrimary>, (&self.primaries, entry), answer)
    }

    /// The queue of errors gave this answer when the error was offered to it.
    pub closed spec fn error_offered(
        &self,
        error: InboundProtocolError,
        answer: Result<(), Refused<InboundProtocolError>>,
    ) -> bool {
        call_ensures(try_send::<InboundProtocolError>, (&self.errors, error), answer)
    }

    /// Outcome of a primary: it fails when its bytes cannot be counted, when the
    /// budget does not grant them, or when the queue does not take the entry that
    /// holds them; otherwise it is delivered.
    pub open spec fn primary_settled(&self, primary: InboundPrimary, taken: bool) -> bool {
        match queue_charge_of(primary.message.body) {
            None => !taken,
            Some(charge) => exists|bytes: Option<OwnedSemaphorePermit>|
                {
                    &&& #[trigger] call_ensures(try_reserve, (&self.budget(), charge), bytes)
                    &&& match bytes {
                        None => !taken,
                        Some(bytes) => exists|answer: Result<(), Refused<QueuedPrimary>>|
                            {
                                &&& #[trigger] self.primary_offered(
                                    QueuedPrimary { primary, bytes },
                                    answer,
                                )
                                &&& taken <==> answer is Ok
                            },
                    }
                },
        }
    }

    /// Outcome of a protocol error: it is delivered exactly when the queue takes it.
    pub open spec fn error_settled(&self, error: InboundProtocolError, taken: bool) -> bool {
        exists|answer: Result<(), Refused<InboundProtocolError>>| #[trigger]
            self.error_offered(error, answer) && (taken <==> answer is Ok)
    }

    /// What settles with the same queues and the same budget settles here too.
    pub proof fn lemma_same_queues(&self, other: Self)
        requires
            self.same_queues(other),
            self.budget() == other.budget(),
        ensures
            forall|primary: InboundPrimary, taken: bool| #[trigger]
                self.primary_settled(primary, taken) ==> other.primary_settled(primary, taken),
            forall|error: InboundProtocolError, taken: bool| #[trigger]
                self.error_settled(error, taken) ==> other.error_settled(error, taken),
            forall|third: Self| #[trigger] other.same_queues(third) ==> self.same_queues(third),
    {
        assert forall|primary: InboundPrimary, taken: bool| #[trigger]
            self.primary_settled(primary, taken) implies other.primary_settled(primary, taken) by {
            if let Some(charge) = queue_charge_of(primary.message.body) {
                let bytes = choose|bytes: Option<OwnedSemaphorePermit>|
                    {
                        &&& #[trigger] call_ensures(try_reserve, (&self.budget(), charge), bytes)
                        &&& match bytes {
                            None => !taken,
                            Some(bytes) => exists|answer: Result<(), Refused<QueuedPrimary>>|
                                {
                                    &&& #[trigger] self.primary_offered(
                                        QueuedPrimary { primary, bytes },
                                        answer,
                                    )
                                    &&& taken <==> answer is Ok
                                },
                        }
                    };
                assert(call_ensures(try_reserve, (&other.budget(), charge), bytes));
                if let Some(granted) = bytes {
                    let entry = QueuedPrimary { primary, bytes: granted };
                    let answer = choose|answer: Result<(), Refused<QueuedPrimary>>|
                        #[trigger] self.primary_offered(entry, answer) && (taken <==> answer is Ok);
                    assert(other.primary_offered(entry, answer));
                }
            }
        }
        assert forall|error: InboundProtocolError, taken: bool| #[trigger]
            self.error_settled(error, taken) implies other.error_settled(error, taken) by {
            let answer = choose|answer: Result<(), Refused<InboundProtocolError>>| #[trigger]
                self.error_offered(error, answer) && (taken <==> answer is Ok);
            assert(other.error_offered(error, answer));
        }
    }

    /// Both queues are their own.
    pub proof fn lemma_own_queues(&self)
        ensures
            self.same_queues(*self),
    {
    }

    /// Creates both queues of a valid configuration.
    pub fn new(config: &EndpointConfig) -> (r: (Self, HsmsReceiver))
        requires
            config.valid(),
        ensures
            r.0@ == (DeliveryView { primaries: Seq::empty(), errors: Seq::empty() }),
            semaphore::limit(r.0.budget()) == config.limits.primary_queue_bytes,
            r.0.feeds(r.1, *config),
    {
        let (primaries, primary_receiver) = bounded_queue(config.limits.application_event_capacity);
        let (errors, error_receiver) = bounded_queue(config.limits.protocol_error_capacity);
        (
            Delivery {
                primaries,
                errors,
                bytes: new_semaphore(config.limits.primary_queue_bytes as usize),
                taken: Ghost(DeliveryView { primaries: Seq::empty(), errors: Seq::empty() }),
            },
            HsmsReceiver { primaries: primary_receiver, errors: error_receiver },
        )
    }

    /// Returns the usable slots of both queues right now. Their consumers decide.
    pub fn capacity(&self) -> (r: (usize, usize))
        ensures
            exists|closed: bool, slots: usize| #[trigger]
                self.primaries_report(closed, slots) && r.0 == usable_of(closed, slots),
            exists|closed: bool, slots: usize| #[trigger]
                self.errors_report(closed, slots) && r.1 == usable_of(closed, slots),
    {
        let closed = is_closed(&self.primaries);
        let slots = capacity(&self.primaries);
        assert(self.primaries_report(closed, slots));
        let unread = is_closed(&self.errors);
        let room = capacity(&self.errors);
        assert(self.errors_report(unread, room));
        (usable(closed, slots), usable(unread, room))
    }

    /// Delivers one primary without waiting. A primary whose bytes no queue can
    /// hold is never delivered; otherwise the queue and its budget decide.
    pub fn primary(&mut self, primary: InboundPrimary) -> (r: Result<(), ()>)
        ensures
            old(self).primary_settled(primary, r is Ok),
            primary_delivered(old(self).budget(), old(self)@, primary, r is Ok, final(self)@),
            final(self).budget() == old(self).budget(),
            final(self).same_queues(*old(self)),
    {
        let charge = match queue_charge(primary.message().body()) {
            Some(charge) => charge,
            None => {
                return Err(());
            },
        };
        let claim = try_reserve(&self.bytes, charge);
        assert(call_ensures(try_reserve, (&self.budget(), charge), claim));
        let bytes = match claim {
            Some(bytes) => bytes,
            None => {
                return Err(());
            },
        };
        let queued = QueuedPrimary { primary, bytes };
        let ghost before = self.taken@;
        let ghost entry = queued;
        let answer = try_send(&self.primaries, queued);
        assert(self.primary_offered(entry, answer));
        match answer {
            Ok(()) => {
                self.taken = Ghost(
                    DeliveryView { primaries: before.primaries.push(entry), ..before },
                );
                assert(self@.primaries.drop_last() =~= before.primaries);
                Ok(())
            },
            Err(_) => Err(()),
        }
    }

    /// Delivers one protocol error without waiting; the queue decides.
    pub fn error(&mut self, error: InboundProtocolError) -> (r: Result<(), ()>)
        ensures
            old(self).error_settled(error, r is Ok),
            final(self)@ == if r is Ok {
                DeliveryView { errors: old(self)@.errors.push(error), ..old(self)@ }
            } else {
                old(self)@
            },
            final(self).budget() == old(self).budget(),
            final(self).same_queues(*old(self)),
    {
        let ghost before = self.taken@;
        let ghost entry = error;
        let answer = try_send(&self.errors, error);
        assert(self.error_offered(entry, answer));
        match answer {
            Ok(()) => {
                self.taken = Ghost(DeliveryView { errors: before.errors.push(entry), ..before });
                Ok(())
            },
            Err(_) => Err(()),
        }
    }
}

} // verus!
