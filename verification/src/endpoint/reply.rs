//! Single-use replies, and failures that return the capability.

use crate::api::{ReplyIntent, ReplyToken, SendReceipt};
use crate::endpoint::command::{Acknowledgement, LifecycleIntent, LifecycleReceipt};
use crate::endpoint::error::EndpointError;
use crate::endpoint::handle;
use crate::endpoint::handle::{
    control_route, refuse_handover, Budgets, Handover, HsmsHandle, Observed, Ticket,
};
use crate::error::OperationError;
use crate::secs2::SecsItem;
use crate::sync::semaphore;
use crate::sync::semaphore::{try_claim, try_reserve};
use tokio::sync::OwnedSemaphorePermit;
use vstd::prelude::*;

verus! {

/// Stable category of a reply that the core never owned.
#[derive(Clone, Copy, Debug, PartialEq, Eq, Structural)]
pub enum ReplyAdmissionReason {
    /// The runtime ended.
    RuntimeStopped,
    /// There is no connection.
    NotConnected,
    /// A close is under way.
    Draining,
    /// A budget is exhausted.
    Backpressure,
    /// The connection was replaced.
    StaleConnectionGeneration,
    /// The endpoint is faulted.
    Faulted,
    /// The primary can only be aborted.
    ReplyRequiresAbort,
    /// The reply cannot be sent as it is.
    InvalidMessage,
    /// The capability is not registered any more.
    CapabilityUnavailable,
}

/// Inputs of a reply that the core never owned.
#[derive(Debug, PartialEq, Eq)]
pub struct ReplyAdmissionError {
    /// Category of the refusal.
    pub reason: ReplyAdmissionReason,
    /// Kind of the answer.
    pub intent: ReplyIntent,
    /// Unconsumed capability.
    pub token: ReplyToken,
    /// Text of a normal Secondary.
    pub body: Option<SecsItem>,
}

impl ReplyAdmissionError {
    /// Returns the category of the refusal.
    pub fn reason(&self) -> (r: ReplyAdmissionReason)
        ensures
            r == self.reason,
    {
        self.reason
    }

    /// Returns the unconsumed capability and text.
    pub fn into_parts(self) -> (r: (ReplyToken, Option<SecsItem>))
        ensures
            r == (self.token, self.body),
    {
        (self.token, self.body)
    }
}

/// Failure of a reply, with its inputs when the core never owned them.
#[derive(Debug, PartialEq, Eq)]
pub struct ReplyError {
    /// Why the operation failed.
    pub error: EndpointError,
    /// Unconsumed inputs.
    pub admission: Option<ReplyAdmissionError>,
}

/// Category of a refusal.
pub open spec fn admission_reason(error: EndpointError) -> ReplyAdmissionReason {
    match error {
        EndpointError::RuntimeStopped => ReplyAdmissionReason::RuntimeStopped,
        EndpointError::NotConnected => ReplyAdmissionReason::NotConnected,
        EndpointError::Draining => ReplyAdmissionReason::Draining,
        EndpointError::Operation(OperationError::Draining) => ReplyAdmissionReason::Draining,
        EndpointError::Backpressure => ReplyAdmissionReason::Backpressure,
        EndpointError::Operation(OperationError::Backpressure) => {
            ReplyAdmissionReason::Backpressure
        },
        EndpointError::StaleConnectionGeneration => {
            ReplyAdmissionReason::StaleConnectionGeneration
        },
        EndpointError::Faulted => ReplyAdmissionReason::Faulted,
        EndpointError::Operation(OperationError::ReplyRequiresAbort) => {
            ReplyAdmissionReason::ReplyRequiresAbort
        },
        EndpointError::Operation(OperationError::Encode(_)) => ReplyAdmissionReason::InvalidMessage,
        EndpointError::Operation(OperationError::OutboundFrameTooLarge { .. }) => {
            ReplyAdmissionReason::InvalidMessage
        },
        _ => ReplyAdmissionReason::CapabilityUnavailable,
    }
}

/// Failure that returns the inputs of a reply; only a normal Secondary has text.
pub open spec fn reply_rejected(
    error: EndpointError,
    intent: ReplyIntent,
    token: ReplyToken,
    body: Option<SecsItem>,
) -> ReplyError {
    ReplyError {
        error,
        admission: Some(
            ReplyAdmissionError {
                reason: admission_reason(error),
                intent,
                token,
                body: if intent == ReplyIntent::Secondary {
                    body
                } else {
                    None
                },
            },
        ),
    }
}

impl ReplyError {
    /// Returns why the operation failed.
    pub fn error(&self) -> (r: &EndpointError)
        ensures
            *r == self.error,
    {
        &self.error
    }

    /// Returns the unconsumed inputs, if the core never owned them.
    pub fn admission(&self) -> (r: Option<&ReplyAdmissionError>)
        ensures
            match self.admission {
                Some(admission) => r == Some(&admission),
                None => r is None,
            },
    {
        match &self.admission {
            Some(admission) => Some(admission),
            None => None,
        }
    }

    /// Returns the failure and the unconsumed inputs.
    pub fn into_parts(self) -> (r: (EndpointError, Option<ReplyAdmissionError>))
        ensures
            r == (self.error, self.admission),
    {
        (self.error, self.admission)
    }

    /// Builds a failure that returns the inputs.
    pub fn rejected(
        error: EndpointError,
        intent: ReplyIntent,
        token: ReplyToken,
        body: Option<SecsItem>,
    ) -> (r: Self)
        ensures
            r == reply_rejected(error, intent, token, body),
    {
        let reason = match &error {
            EndpointError::RuntimeStopped => ReplyAdmissionReason::RuntimeStopped,
            EndpointError::NotConnected => ReplyAdmissionReason::NotConnected,
            EndpointError::Draining => ReplyAdmissionReason::Draining,
            EndpointError::Backpressure => ReplyAdmissionReason::Backpressure,
            EndpointError::StaleConnectionGeneration => {
                ReplyAdmissionReason::StaleConnectionGeneration
            },
            EndpointError::Faulted => ReplyAdmissionReason::Faulted,
            EndpointError::Operation(operation) => match operation {
                OperationError::Draining => ReplyAdmissionReason::Draining,
                OperationError::Backpressure => ReplyAdmissionReason::Backpressure,
                OperationError::ReplyRequiresAbort => ReplyAdmissionReason::ReplyRequiresAbort,
                OperationError::Encode(_) => ReplyAdmissionReason::InvalidMessage,
                OperationError::OutboundFrameTooLarge { .. } => {
                    ReplyAdmissionReason::InvalidMessage
                },
                _ => ReplyAdmissionReason::CapabilityUnavailable,
            },
            _ => ReplyAdmissionReason::CapabilityUnavailable,
        };
        let body = match intent {
            ReplyIntent::Secondary => body,
            _ => None,
        };
        ReplyError {
            error,
            admission: Some(ReplyAdmissionError { reason, intent, token, body }),
        }
    }

    /// Returns the text shown for the failure.
    pub fn text(&self) -> (r: String)
        ensures
            r@ == self.error.spec_message(),
    {
        self.error.message()
    }
}

/// Refusal owed for a reply: the runtime, the connection, the capability, the
/// reply slots, the message itself, the byte budget and the queue are asked in
/// this order. Giving a capability up takes no bytes.
pub open spec fn reply_refusal(
    maximum_message_length: usize,
    intent: ReplyIntent,
    token: ReplyToken,
    body: Option<SecsItem>,
    observed: Observed,
) -> Option<EndpointError> {
    if observed.closed {
        Some(EndpointError::RuntimeStopped)
    } else {
        match handle::control_target(observed.slot, false) {
            Err(error) => Some(error),
            Ok(_) => if intent == ReplyIntent::Secondary && !token.normal_secondary {
                Some(EndpointError::Operation(OperationError::ReplyRequiresAbort))
            } else if !observed.counted {
                Some(EndpointError::Backpressure)
            } else {
                match reply_charge(maximum_message_length, intent, body) {
                    Err(error) => Some(error),
                    Ok(None) => handle::handover_refusal(observed.handover),
                    Ok(Some(_)) => if !observed.charged {
                        Some(EndpointError::Backpressure)
                    } else {
                        handle::handover_refusal(observed.handover)
                    },
                }
            },
        }
    }
}

/// Bytes of a reply, or why it can never be sent. Giving a capability up takes
/// none, but its text is checked all the same.
pub open spec fn reply_charge(
    maximum_message_length: usize,
    intent: ReplyIntent,
    body: Option<SecsItem>,
) -> Result<Option<u32>, EndpointError> {
    match handle::wire_charge(maximum_message_length, body) {
        Ok(charge) => Ok(
            if intent == ReplyIntent::Abandon {
                None
            } else {
                Some(charge)
            },
        ),
        Err(error) => if intent == ReplyIntent::Abandon && error == EndpointError::Backpressure {
            Ok(None)
        } else {
            Err(error)
        },
    }
}

/// A reply is either handed over, bound to the visible connection, or its inputs
/// come back.
pub open spec fn reply_admitted(
    budgets: Budgets,
    maximum_message_length: usize,
    intent: ReplyIntent,
    token: ReplyToken,
    body: Option<SecsItem>,
    observed: Observed,
    r: Result<Ticket, ReplyError>,
) -> bool {
    match reply_refusal(maximum_message_length, intent, token, body, observed) {
        Some(error) => r == Err::<Ticket, ReplyError>(reply_rejected(error, intent, token, body)),
        None => r is Ok && r->Ok_0.carries(
            budgets,
            LifecycleIntent::Reply {
                generation: handle::control_target(observed.slot, false)->Ok_0,
                intent,
                token,
                body,
            },
            reply_charge(maximum_message_length, intent, body)->Ok_0,
        ),
    }
}

impl HsmsHandle {
    /// Returns the bytes of a reply, or why it can never be sent.
    pub fn reply_bytes(&self, intent: ReplyIntent, body: &Option<SecsItem>) -> (r: Result<
        Option<u32>,
        EndpointError,
    >)
        ensures
            r == reply_charge(self.maximum(), intent, *body),
    {
        match self.message_charge(body) {
            Ok(charge) => match intent {
                ReplyIntent::Abandon => Ok(None),
                _ => Ok(Some(charge)),
            },
            Err(error) => match intent {
                ReplyIntent::Abandon => match error {
                    EndpointError::Backpressure => Ok(None),
                    error => Err(error),
                },
                _ => Err(error),
            },
        }
    }

    /// What was observed while a reply was admitted is what the queue, the state,
    /// the slots and the bytes answered, as far as they were asked.
    pub open spec fn reply_observed(
        &self,
        intent: ReplyIntent,
        token: ReplyToken,
        body: Option<SecsItem>,
        observed: Observed,
    ) -> bool {
        let target = handle::control_target(observed.slot, false);
        let answerable = intent != ReplyIntent::Secondary || token.normal_secondary;
        let open = !observed.closed && target is Ok && answerable;
        let charge = reply_charge(self.maximum(), intent, body);
        &&& self.stop_reported(observed.closed)
        &&& self.slot_seen(observed.slot)
        &&& open ==> self.slot_claimed(self.budgets().reply_slots, observed.counted)
        &&& open && observed.counted && charge is Ok && charge->Ok_0 is Some
            ==> self.bytes_claimed(
            self.budgets().reply_bytes,
            charge->Ok_0->0,
            observed.charged,
        )
        &&& open && observed.counted && charge is Ok && (charge->Ok_0 is None || observed.charged)
            ==> self.received(
            LifecycleIntent::Reply { generation: target->Ok_0, intent, token, body },
            observed.handover,
        )
    }

    /// Admits a reply on the visible connection, or returns its inputs.
    pub fn submit_reply(&self, intent: ReplyIntent, token: ReplyToken, body: Option<SecsItem>) -> (r:
        Result<Ticket, ReplyError>)
        ensures
            exists|observed: Observed|
                {
                    &&& self.reply_observed(intent, token, body, observed)
                    &&& #[trigger] reply_admitted(
                        self.budgets(),
                        self.maximum(),
                        intent,
                        token,
                        body,
                        observed,
                        r,
                    )
                },
            r matches Ok(ticket) ==> self.took(ticket),
    {
        proof {
            self.lemma_budgets();
        }
        let ghost given = token;
        let ghost text = body;
        let closed = self.is_stopped();
        let slot = self.visible_slot();
        let mut permit: Option<OwnedSemaphorePermit> = None;
        let mut bytes: Option<OwnedSemaphorePermit> = None;
        let answerable = intent != ReplyIntent::Secondary || token.normal_secondary_available();
        if !closed && control_route(slot, false).is_ok() && answerable {
            permit = try_claim(&self.reply_slots);
            assert(semaphore::slot_answered(self.budgets().reply_slots, permit));
            if permit.is_some() {
                match self.reply_bytes(intent, &body) {
                    Ok(Some(charge)) => {
                        bytes = try_reserve(&self.reply_bytes, charge);
                        assert(call_ensures(
                            try_reserve,
                            (&self.budgets().reply_bytes, charge),
                            bytes,
                        ));
                    },
                    _ => {},
                }
            }
        }
        let observed = Observed {
            closed,
            slot,
            counted: permit.is_some(),
            charged: bytes.is_some(),
            handover: Handover::Taken,
        };
        match self.refuse_reply(intent, &token, &body, observed) {
            Some(error) => {
                let r = Err(ReplyError::rejected(error, intent, token, body));
                assert(self.reply_observed(intent, given, text, observed));
                assert(reply_admitted(
                    self.budgets(),
                    self.maximum(),
                    intent,
                    given,
                    text,
                    observed,
                    r,
                ));
                return r;
            },
            None => {},
        }
        let generation = control_route(slot, false);
        match (generation, permit) {
            (Ok(generation), Some(permit)) => {
                let asked = LifecycleIntent::Reply { generation, intent, token, body };
                let (handover, result) = self.hand_over(asked, permit, bytes);
                let ghost handed = Observed { handover, ..observed };
                let r = match result {
                    Ok(ticket) => Ok(ticket),
                    Err((LifecycleIntent::Reply { intent, token, body, .. }, error)) => Err(
                        ReplyError::rejected(error, intent, token, body),
                    ),
                    Err((_, error)) => Err(ReplyError { error, admission: None }),
                };
                assert(self.reply_observed(intent, given, text, handed));
                assert(reply_admitted(
                    self.budgets(),
                    self.maximum(),
                    intent,
                    given,
                    text,
                    handed,
                    r,
                ));
                r
            },
            _ => Err(ReplyError::rejected(EndpointError::Backpressure, intent, token, body)),
        }
    }

    /// Returns why a reply is refused, given what was observed.
    pub fn refuse_reply(
        &self,
        intent: ReplyIntent,
        token: &ReplyToken,
        body: &Option<SecsItem>,
        observed: Observed,
    ) -> (r: Option<EndpointError>)
        ensures
            r == reply_refusal(self.maximum(), intent, *token, *body, observed),
    {
        if observed.closed {
            return Some(EndpointError::RuntimeStopped);
        }
        match control_route(observed.slot, false) {
            Err(error) => Some(error),
            Ok(_) => {
                if intent == ReplyIntent::Secondary && !token.normal_secondary_available() {
                    return Some(EndpointError::Operation(OperationError::ReplyRequiresAbort));
                }
                if !observed.counted {
                    return Some(EndpointError::Backpressure);
                }
                match self.reply_bytes(intent, body) {
                    Err(error) => Some(error),
                    Ok(Some(_)) => if !observed.charged {
                        Some(EndpointError::Backpressure)
                    } else {
                        refuse_handover(observed.handover)
                    },
                    Ok(None) => refuse_handover(observed.handover),
                }
            },
        }
    }
}

/// Outcome owed for the answer to a reply: only inputs that the core never owned
/// come back.
pub open spec fn reply_outcome(answer: Option<Acknowledgement>) -> Result<
    LifecycleReceipt,
    ReplyError,
> {
    match answer {
        Some(Ok(LifecycleReceipt::RejectedReply { intent, token, body, error })) => Err(
            reply_rejected(error, intent, token, body),
        ),
        Some(Ok(receipt)) => Ok(receipt),
        Some(Err(error)) => Err(ReplyError { error, admission: None }),
        None => Err(ReplyError { error: EndpointError::RuntimeStopped, admission: None }),
    }
}

/// Returns the outcome of an answered reply.
pub fn settle_reply(answer: Option<Acknowledgement>) -> (r: Result<LifecycleReceipt, ReplyError>)
    ensures
        r == reply_outcome(answer),
{
    match answer {
        Some(Ok(LifecycleReceipt::RejectedReply { intent, token, body, error })) => Err(
            ReplyError::rejected(error, intent, token, body),
        ),
        Some(Ok(receipt)) => Ok(receipt),
        Some(Err(error)) => Err(ReplyError { error, admission: None }),
        None => Err(ReplyError { error: EndpointError::RuntimeStopped, admission: None }),
    }
}

/// Returns the result of a written reply or abort.
pub fn settle_written(answer: Option<Acknowledgement>) -> (r: Result<SendReceipt, ReplyError>)
    requires
        reply_outcome(answer) matches Ok(receipt) ==> receipt is Sent,
    ensures
        r == match reply_outcome(answer) {
            Ok(receipt) => Ok(receipt->Sent_0),
            Err(error) => Err(error),
        },
{
    match settle_reply(answer) {
        Ok(LifecycleReceipt::Sent(receipt)) => Ok(receipt),
        Ok(_) => Err(ReplyError { error: EndpointError::RuntimeStopped, admission: None }),
        Err(error) => Err(error),
    }
}

/// A capability is never lost on the way in: whatever the budgets and the queue
/// answer, it is handed over exactly as given or comes back exactly as given.
pub proof fn law_capability_is_conserved(
    budgets: Budgets,
    maximum_message_length: usize,
    intent: ReplyIntent,
    token: ReplyToken,
    body: Option<SecsItem>,
    observed: Observed,
    r: Result<Ticket, ReplyError>,
)
    requires
        reply_admitted(budgets, maximum_message_length, intent, token, body, observed, r),
    ensures
        match r {
            Ok(ticket) => ticket.intent@ is Reply && ticket.intent@->token == token
                && ticket.intent@->body == body,
            Err(error) => error.admission is Some && error.admission->0.token == token
                && error.admission->0.intent == intent && (intent == ReplyIntent::Secondary
                ==> error.admission->0.body == body),
        },
{
}

} // verus!
