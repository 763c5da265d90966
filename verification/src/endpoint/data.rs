//! Admission of primaries, and failures that return the primary.

use crate::api::{PrimaryMessage, SecondaryMessage, SendReceipt};
use crate::endpoint::command::{Acknowledgement, LifecycleIntent, LifecycleReceipt};
use crate::endpoint::error::EndpointError;
use crate::endpoint::handle;
use crate::endpoint::handle::{refuse_handover, Budgets, HsmsHandle, Handover, Observed, Ticket};
use crate::lifecycle::state::GenerationSlotSnapshot;
use crate::model::ids::ConnectionGeneration;
use crate::sync::semaphore;
use crate::sync::semaphore::{try_claim, try_reserve};
use tokio::sync::OwnedSemaphorePermit;
use vstd::prelude::*;

verus! {

/// Failure of a primary, with the message when the core never owned it.
#[derive(Debug, PartialEq, Eq)]
pub struct MessageError {
    /// Why the operation failed.
    pub error: EndpointError,
    /// Unconsumed primary.
    pub message: Option<PrimaryMessage>,
}

impl MessageError {
    /// Returns why the operation failed.
    pub fn error(&self) -> (r: &EndpointError)
        ensures
            *r == self.error,
    {
        &self.error
    }

    /// Returns the unconsumed primary, if the core never owned it.
    pub fn message(&self) -> (r: Option<&PrimaryMessage>)
        ensures
            match self.message {
                Some(message) => r == Some(&message),
                None => r is None,
            },
    {
        match &self.message {
            Some(message) => Some(message),
            None => None,
        }
    }

    /// Returns the failure and the unconsumed primary.
    pub fn into_parts(self) -> (r: (EndpointError, Option<PrimaryMessage>))
        ensures
            r == (self.error, self.message),
    {
        (self.error, self.message)
    }

    /// Builds a failure that returns the primary.
    pub fn rejected(error: EndpointError, message: PrimaryMessage) -> (r: Self)
        ensures
            r == (MessageError { error, message: Some(message) }),
    {
        MessageError { error, message: Some(message) }
    }

    /// Returns the text shown for the failure.
    pub fn text(&self) -> (r: String)
        ensures
            r@ == self.error.spec_message(),
    {
        self.error.message()
    }
}

/// Connection of a primary; a draining one takes none.
pub open spec fn primary_target(slot: GenerationSlotSnapshot) -> Result<
    ConnectionGeneration,
    EndpointError,
> {
    match slot {
        GenerationSlotSnapshot::Open(generation) => Ok(generation),
        GenerationSlotSnapshot::Draining(_) => Err(EndpointError::Draining),
        GenerationSlotSnapshot::Vacant => Err(EndpointError::NotConnected),
    }
}

/// Returns the connection of a primary.
pub fn primary_route(slot: GenerationSlotSnapshot) -> (r: Result<
    ConnectionGeneration,
    EndpointError,
>)
    ensures
        r == primary_target(slot),
{
    match slot {
        GenerationSlotSnapshot::Open(generation) => Ok(generation),
        GenerationSlotSnapshot::Draining(_) => Err(EndpointError::Draining),
        GenerationSlotSnapshot::Vacant => Err(EndpointError::NotConnected),
    }
}

/// Refusal owed for a primary: the runtime, the connection, the command slots,
/// the message itself, the byte budget and the queue are asked in this order.
pub open spec fn primary_refusal(
    maximum_message_length: usize,
    message: PrimaryMessage,
    observed: Observed,
) -> Option<EndpointError> {
    if observed.closed {
        Some(EndpointError::RuntimeStopped)
    } else {
        match primary_target(observed.slot) {
            Err(error) => Some(error),
            Ok(_) => if !observed.counted {
                Some(EndpointError::Backpressure)
            } else {
                match handle::wire_charge(maximum_message_length, message.body) {
                    Err(error) => Some(error),
                    Ok(_) => if !observed.charged {
                        Some(EndpointError::Backpressure)
                    } else {
                        handle::handover_refusal(observed.handover)
                    },
                }
            },
        }
    }
}

/// A primary is either handed over, bound to the visible connection, or comes
/// back unchanged.
pub open spec fn primary_admitted(
    budgets: Budgets,
    maximum_message_length: usize,
    message: PrimaryMessage,
    reply_expected: bool,
    observed: Observed,
    r: Result<Ticket, MessageError>,
) -> bool {
    match primary_refusal(maximum_message_length, message, observed) {
        Some(error) => r == Err::<Ticket, MessageError>(
            MessageError { error, message: Some(message) },
        ),
        None => r is Ok && r->Ok_0.carries(
            budgets,
            LifecycleIntent::Data {
                generation: primary_target(observed.slot)->Ok_0,
                message,
                reply_expected,
            },
            Some(handle::wire_charge(maximum_message_length, message.body)->Ok_0),
        ),
    }
}

impl HsmsHandle {
    /// What was observed while a primary was admitted is what the queue, the state,
    /// the slots and the bytes answered, as far as they were asked.
    pub open spec fn primary_observed(
        &self,
        message: PrimaryMessage,
        reply_expected: bool,
        observed: Observed,
    ) -> bool {
        let target = primary_target(observed.slot);
        let charge = handle::wire_charge(self.maximum(), message.body);
        &&& self.stop_reported(observed.closed)
        &&& self.slot_seen(observed.slot)
        &&& !observed.closed && target is Ok ==> self.slot_claimed(
            self.budgets().slots,
            observed.counted,
        )
        &&& !observed.closed && target is Ok && observed.counted && charge is Ok
            ==> self.bytes_claimed(self.budgets().bytes, charge->Ok_0, observed.charged)
        &&& !observed.closed && target is Ok && observed.counted && charge is Ok
            && observed.charged ==> self.received(
            LifecycleIntent::Data { generation: target->Ok_0, message, reply_expected },
            observed.handover,
        )
    }

    /// Admits a primary on the visible connection, or returns it.
    pub fn submit_primary(&self, message: PrimaryMessage, reply_expected: bool) -> (r: Result<
        Ticket,
        MessageError,
    >)
        ensures
            exists|observed: Observed|
                {
                    &&& self.primary_observed(message, reply_expected, observed)
                    &&& #[trigger] primary_admitted(
                        self.budgets(),
                        self.maximum(),
                        message,
                        reply_expected,
                        observed,
                        r,
                    )
                },
            r matches Ok(ticket) ==> self.took(ticket),
    {
        proof {
            self.lemma_budgets();
        }
        let ghost asked = message;
        let closed = self.is_stopped();
        let slot = self.visible_slot();
        let mut permit: Option<OwnedSemaphorePermit> = None;
        let mut bytes: Option<OwnedSemaphorePermit> = None;
        if !closed && primary_route(slot).is_ok() {
            permit = try_claim(&self.slots);
            assert(semaphore::slot_answered(self.budgets().slots, permit));
            if permit.is_some() {
                match self.primary_charge(&message) {
                    Ok(charge) => {
                        bytes = try_reserve(&self.bytes, charge);
                        assert(call_ensures(
                            try_reserve,
                            (&self.budgets().bytes, charge),
                            bytes,
                        ));
                    },
                    Err(_) => {},
                }
            }
        }
        let observed = Observed {
            closed,
            slot,
            counted: permit.is_some(),
            charged: bytes.is_some(),
            handover: Handover::Taken,
        };
        match self.refuse_primary(&message, observed) {
            Some(error) => {
                let r = Err(MessageError::rejected(error, message));
                assert(self.primary_observed(asked, reply_expected, observed));
                assert(primary_admitted(
                    self.budgets(),
                    self.maximum(),
                    asked,
                    reply_expected,
                    observed,
                    r,
                ));
                return r;
            },
            None => {},
        }
        let generation = primary_route(slot);
        match (generation, permit) {
            (Ok(generation), Some(permit)) => {
                let intent = LifecycleIntent::Data { generation, message, reply_expected };
                let (handover, result) = self.hand_over(intent, permit, bytes);
                let ghost handed = Observed { handover, ..observed };
                let r = match result {
                    Ok(ticket) => Ok(ticket),
                    Err((LifecycleIntent::Data { message, .. }, error)) => Err(
                        MessageError::rejected(error, message),
                    ),
                    Err((_, error)) => Err(MessageError { error, message: None }),
                };
                assert(self.primary_observed(asked, reply_expected, handed));
                assert(primary_admitted(
                    self.budgets(),
                    self.maximum(),
                    asked,
                    reply_expected,
                    handed,
                    r,
                ));
                r
            },
            _ => Err(MessageError::rejected(EndpointError::Backpressure, message)),
        }
    }

    /// Returns the wire bytes charged for a primary.
    pub fn primary_charge(&self, message: &PrimaryMessage) -> (r: Result<u32, EndpointError>)
        ensures
            r == handle::wire_charge(self.maximum(), message.body),
    {
        self.message_charge(message.body())
    }

    /// Returns why a primary is refused, given what was observed.
    pub fn refuse_primary(&self, message: &PrimaryMessage, observed: Observed) -> (r: Option<
        EndpointError,
    >)
        ensures
            r == primary_refusal(self.maximum(), *message, observed),
    {
        if observed.closed {
            return Some(EndpointError::RuntimeStopped);
        }
        match primary_route(observed.slot) {
            Err(error) => Some(error),
            Ok(_) => {
                if !observed.counted {
                    return Some(EndpointError::Backpressure);
                }
                match self.primary_charge(message) {
                    Err(error) => Some(error),
                    Ok(_) => if !observed.charged {
                        Some(EndpointError::Backpressure)
                    } else {
                        refuse_handover(observed.handover)
                    },
                }
            },
        }
    }
}

/// Outcome owed for the answer to a primary: only a primary that the core never
/// owned comes back.
pub open spec fn primary_outcome(answer: Option<Acknowledgement>) -> Result<
    LifecycleReceipt,
    MessageError,
> {
    match answer {
        Some(Ok(LifecycleReceipt::RejectedPrimary { message, error })) => Err(
            MessageError { error, message: Some(message) },
        ),
        Some(Ok(receipt)) => Ok(receipt),
        Some(Err(error)) => Err(MessageError { error, message: None }),
        None => Err(MessageError { error: EndpointError::RuntimeStopped, message: None }),
    }
}

/// Returns the outcome of an answered primary.
pub fn settle_primary(answer: Option<Acknowledgement>) -> (r: Result<
    LifecycleReceipt,
    MessageError,
>)
    ensures
        r == primary_outcome(answer),
{
    match answer {
        Some(Ok(LifecycleReceipt::RejectedPrimary { message, error })) => Err(
            MessageError::rejected(error, message),
        ),
        Some(Ok(receipt)) => Ok(receipt),
        Some(Err(error)) => Err(MessageError { error, message: None }),
        None => Err(MessageError { error: EndpointError::RuntimeStopped, message: None }),
    }
}

/// Returns the result of a send: its receipt proves the local write, not the
/// peer's processing.
pub fn settle_send(answer: Option<Acknowledgement>) -> (r: Result<SendReceipt, MessageError>)
    requires
        primary_outcome(answer) matches Ok(receipt) ==> receipt is Sent,
    ensures
        r == match primary_outcome(answer) {
            Ok(receipt) => Ok(receipt->Sent_0),
            Err(error) => Err(error),
        },
{
    match settle_primary(answer) {
        Ok(LifecycleReceipt::Sent(receipt)) => Ok(receipt),
        Ok(_) => Err(MessageError { error: EndpointError::RuntimeStopped, message: None }),
        Err(error) => Err(error),
    }
}

/// Returns the result of a request: its matched Secondary.
pub fn settle_request(answer: Option<Acknowledgement>) -> (r: Result<
    SecondaryMessage,
    MessageError,
>)
    requires
        primary_outcome(answer) matches Ok(receipt) ==> receipt is Secondary,
    ensures
        r == match primary_outcome(answer) {
            Ok(receipt) => Ok(receipt->Secondary_0),
            Err(error) => Err(error),
        },
{
    match settle_primary(answer) {
        Ok(LifecycleReceipt::Secondary(message)) => Ok(message),
        Ok(_) => Err(MessageError { error: EndpointError::RuntimeStopped, message: None }),
        Err(error) => Err(error),
    }
}

/// A primary is never lost on the way in: whatever the budgets and the queue
/// answer, it is handed over exactly as given or comes back exactly as given.
pub proof fn law_primary_is_conserved(
    budgets: Budgets,
    maximum_message_length: usize,
    message: PrimaryMessage,
    reply_expected: bool,
    observed: Observed,
    r: Result<Ticket, MessageError>,
)
    requires
        primary_admitted(budgets, maximum_message_length, message, reply_expected, observed, r),
    ensures
        match r {
            Ok(ticket) => ticket.intent@ is Data && ticket.intent@->Data_message == message
                && ticket.intent@->reply_expected == reply_expected,
            Err(error) => error.message == Some(message),
        },
{
}

/// A primary is never admitted on a connection that drains or is missing.
pub proof fn law_primary_needs_an_open_connection(
    budgets: Budgets,
    maximum_message_length: usize,
    message: PrimaryMessage,
    reply_expected: bool,
    observed: Observed,
    r: Result<Ticket, MessageError>,
)
    requires
        primary_admitted(budgets, maximum_message_length, message, reply_expected, observed, r),
        r is Ok,
    ensures
        observed.slot is Open,
        r->Ok_0.intent@->Data_generation == observed.slot->Open_0,
{
}

} // verus!
