//! The Driver itself.

use crate::api::{
    ControlIntent, InboundPrimary, InboundProtocolError, InboundToken, MessageContext,
    PrimaryMessage, ReplyIntent, ReplyToken, SecondaryMessage, SendReceipt,
};
use crate::config::EndpointConfig;
use crate::error::{ConfigError, OperationError};
use crate::generation::driver::calls;
use crate::generation::driver::calls::Ports;
use crate::generation::driver::command::{
    AcceptedCommand, AcceptedCommandKind, CompletionKind, ControlAdmissionError,
    ControlAdmissionErrorKind, CoreCommandKind, DataAdmissionError, DataAdmissionErrorKind,
    DriverCommandResult, PendingCompletion,
};
use crate::generation::driver::laws;
use crate::generation::driver::model;
use crate::generation::driver::model::{
    ActionApplicationFailure, Answer, ClosingState, CoreInput, DriverView, PortEvent,
};
use crate::generation::driver::ports::{
    CommandCompletion, CoreAction, CoreActions, CoreCommandResult, ProtocolNotice, SessionCore,
    SessionStateObserver, TransportCloser,
};
use crate::generation::transport::writer::{
    DataPermitError, OutboundFrame, ReservedDataAdmissionError, WriteAdmissionError, WriterIngress,
};
use crate::lifecycle::state::SessionState;
use crate::model::ids::{CommandId, ConnectionGeneration, WireSequence, WriteId};
use crate::model::runtime::{CloseBarrier, GenerationCloseReason, MonoTime, WriteOutcome};
use crate::protocol::message::ProtocolMessage;
use crate::protocol::violation::{DecodeStep, InboundViolation, InboundViolationKind};
use crate::secs2::{text_length, SecsItem};
use std::collections::{HashMap, VecDeque};
use vstd::prelude::*;

verus! {

broadcast use vstd::std_specs::hash::group_hash_axioms;

/// Bounds of one Driver.
#[derive(Clone, Copy, Debug, PartialEq, Eq, Structural)]
pub struct DriverLimits {
    /// Maximum number of accepted commands.
    pub command_capacity: usize,
    /// Byte budget of the accepted commands.
    pub command_byte_capacity: usize,
    /// Maximum number of undelivered primaries.
    pub inbound_capacity: usize,
    /// Maximum number of undelivered protocol errors.
    pub protocol_error_capacity: usize,
    /// Largest Message Length.
    pub maximum_message_length: usize,
}

/// Capacities of the Driver of an endpoint.
pub open spec fn configured_limits(config: EndpointConfig) -> DriverLimits {
    DriverLimits {
        command_capacity: config.limits.command_capacity,
        command_byte_capacity: config.limits.command_bytes as usize,
        inbound_capacity: config.limits.application_event_capacity,
        protocol_error_capacity: config.limits.protocol_error_capacity,
        maximum_message_length: config.limits.max_message_length,
    }
}

/// Returns the capacities of the Driver of an endpoint.
pub fn driver_limits(config: &EndpointConfig) -> (r: DriverLimits)
    ensures
        r == configured_limits(*config),
{
    DriverLimits {
        command_capacity: config.limits.command_capacity,
        command_byte_capacity: config.limits.command_bytes as usize,
        inbound_capacity: config.limits.application_event_capacity,
        protocol_error_capacity: config.limits.protocol_error_capacity,
        maximum_message_length: config.limits.max_message_length,
    }
}

/// Single owner of one generation's protocol execution.
pub struct SessionDriver<Core, Writer: WriterIngress, Observer, Completion, Closer> {
    generation: ConnectionGeneration,
    owner: u64,
    inbound: VecDeque<InboundPrimary>,
    inbound_capacity: usize,
    protocol_errors: VecDeque<InboundProtocolError>,
    protocol_error_capacity: usize,
    core: Core,
    writer: Writer,
    observer: Observer,
    closer: Closer,
    accepted_commands: VecDeque<AcceptedCommand<Completion>>,
    command_capacity: usize,
    command_byte_capacity: usize,
    command_bytes: usize,
    shutdown_draining: bool,
    maximum_message_length: usize,
    completions: VecDeque<PendingCompletion<Completion>>,
    admitted_writes: HashMap<u64, WireSequence>,
    next_command_id: Option<u64>,
    closing: Option<ClosingState>,
    transport_closed: bool,
    history: Ghost<Seq<PortEvent<Completion>>>,
    passed: Ghost<Seq<Ports<Core, Writer, Observer, Closer>>>,
    reservation: Ghost<Option<Writer::DataPermit>>,
}

impl<Core, Writer: WriterIngress, Observer, Completion, Closer> View for SessionDriver<
    Core,
    Writer,
    Observer,
    Completion,
    Closer,
> {
    type V = DriverView<Completion>;

    closed spec fn view(&self) -> DriverView<Completion> {
        DriverView {
            generation: self.generation,
            owner: self.owner,
            inbound: self.inbound@,
            inbound_capacity: self.inbound_capacity,
            protocol_errors: self.protocol_errors@,
            protocol_error_capacity: self.protocol_error_capacity,
            queue: self.accepted_commands@,
            command_capacity: self.command_capacity,
            command_byte_capacity: self.command_byte_capacity,
            command_bytes: self.command_bytes,
            shutdown_draining: self.shutdown_draining,
            maximum_message_length: self.maximum_message_length,
            pending: self.completions@,
            admitted: self.admitted_writes@,
            next_command_id: self.next_command_id,
            closing: self.closing,
            transport_closed: self.transport_closed,
            history: self.history@,
        }
    }
}

impl<Core, Writer, Observer, Completion, Closer> SessionDriver<
    Core,
    Writer,
    Observer,
    Completion,
    Closer,
> where
    Core: SessionCore,
    Writer: WriterIngress,
    Observer: SessionStateObserver,
    Completion: CommandCompletion,
    Closer: TransportCloser,
 {
    /// Creates a Driver with the capacities of its endpoint.
    pub fn from_config(
        generation: ConnectionGeneration,
        owner: u64,
        config: &EndpointConfig,
        core: Core,
        writer: Writer,
        observer: Observer,
        closer: Closer,
    ) -> (r: Result<Self, ConfigError>)
        ensures
            match r {
                Ok(driver) => {
                    &&& config.valid()
                    &&& model::well_formed(driver@)
                    &&& model::calm(driver@)
                    &&& driver@ == initial::<Completion>(
                        generation,
                        owner,
                        configured_limits(*config),
                    )
                    &&& driver.settled()
                    &&& driver.passed() == seq![
                        Ports { core, writer, observer, closer, reservation: None },
                    ]
                },
                Err(error) => config.refused(error),
            },
    {
        match config.validate() {
            Ok(()) => {},
            Err(error) => {
                return Err(error);
            },
        }
        Ok(
            Self::new(generation, owner, core, writer, observer, closer, driver_limits(config)),
        )
    }

    /// Creates a Driver over its core and ports. `owner` names the Driver in the
    /// reply tokens that it mints.
    pub fn new(
        generation: ConnectionGeneration,
        owner: u64,
        core: Core,
        writer: Writer,
        observer: Observer,
        closer: Closer,
        limits: DriverLimits,
    ) -> (r: Self)
        ensures
            model::well_formed(r@),
            model::calm(r@),
            r@ == initial::<Completion>(generation, owner, limits),
            r.settled(),
            r.passed() == seq![Ports { core, writer, observer, closer, reservation: None }],
            r.ports() == (Ports { core, writer, observer, closer, reservation: None }),
    {
        let ghost ports = Ports { core, writer, observer, closer, reservation: None };
        SessionDriver {
            generation,
            owner,
            inbound: VecDeque::new(),
            inbound_capacity: limits.inbound_capacity,
            protocol_errors: VecDeque::new(),
            protocol_error_capacity: limits.protocol_error_capacity,
            core,
            writer,
            observer,
            closer,
            accepted_commands: VecDeque::new(),
            command_capacity: limits.command_capacity,
            command_byte_capacity: limits.command_byte_capacity,
            command_bytes: 0,
            shutdown_draining: false,
            maximum_message_length: limits.maximum_message_length,
            completions: VecDeque::new(),
            admitted_writes: HashMap::new(),
            next_command_id: Some(0),
            closing: None,
            transport_closed: false,
            history: Ghost(Seq::empty()),
            passed: Ghost(Seq::empty().push(ports)),
            reservation: Ghost(None),
        }
    }

    /// The core and the ports as they are now.
    pub closed spec fn ports(&self) -> Ports<Core, Writer, Observer, Closer> {
        Ports {
            core: self.core,
            writer: self.writer,
            observer: self.observer,
            closer: self.closer,
            reservation: self.reservation@,
        }
    }

    /// The core and the ports before the first entry of the history and after each
    /// one.
    pub closed spec fn passed(&self) -> Seq<Ports<Core, Writer, Observer, Closer>> {
        self.passed@
    }

    /// Every entry of the history was a call, each made to the ports as the one
    /// before left them, and the last one left them as they are now.
    pub open spec fn traced(&self) -> bool {
        &&& calls::all_called(self@.generation, self.passed(), self@.history)
        &&& self.passed().last() == self.ports()
    }

    /// The history is traced and no reservation is in the Driver's hands.
    pub open spec fn settled(&self) -> bool {
        self.traced() && self.ports().reservation is None
    }

    /// The calls of `before` stand and more may have followed.
    pub open spec fn continues(&self, before: Self) -> bool {
        before.passed().is_prefix_of(self.passed())
    }

    /// No port was called since `before`.
    pub open spec fn untouched(&self, before: Self) -> bool {
        self.passed() == before.passed() && self.ports() == before.ports()
    }

    /// Returns the core command of a control intent.
    pub fn core_command_kind(intent: ControlIntent) -> (r: Option<CoreCommandKind>)
        ensures
            r == Some(model::control_command(intent)),
    {
        match intent {
            ControlIntent::Select => Some(CoreCommandKind::Select),
            ControlIntent::Deselect => Some(CoreCommandKind::Deselect),
            ControlIntent::Linktest => Some(CoreCommandKind::Linktest),
            ControlIntent::Separate => Some(CoreCommandKind::Separate),
        }
    }

    /// Accepts a control command into the FIFO, or returns its inputs.
    pub fn try_accept_control(&mut self, intent: ControlIntent, completion: Completion) -> (r:
        Result<(), ControlAdmissionError<Completion>>)
        requires
            model::well_formed(old(self)@),
        ensures
            final(self).untouched(*old(self)),
            model::well_formed(final(self)@),
            match control_refusal(old(self)@) {
                Some(kind) => {
                    &&& r == Err::<(), _>(ControlAdmissionError { kind, intent, completion })
                    &&& final(self)@ == old(self)@
                },
                None => {
                    &&& r is Ok
                    &&& final(self)@ == model::accepted(
                        old(self)@,
                        AcceptedCommandKind::Control(intent),
                        completion,
                        0,
                    )
                },
            },
    {
        if self.closing.is_some() {
            return Err(
                ControlAdmissionError {
                    kind: ControlAdmissionErrorKind::Closing,
                    intent,
                    completion,
                },
            );
        }
        if Self::core_command_kind(intent).is_none() {
            return Err(
                ControlAdmissionError {
                    kind: ControlAdmissionErrorKind::UnsupportedIntent,
                    intent,
                    completion,
                },
            );
        }
        if self.shutdown_draining {
            return Err(
                ControlAdmissionError {
                    kind: ControlAdmissionErrorKind::Draining,
                    intent,
                    completion,
                },
            );
        }
        if self.accepted_commands.len() >= self.command_capacity {
            return Err(
                ControlAdmissionError { kind: ControlAdmissionErrorKind::Full, intent, completion },
            );
        }
        proof {
            lemma_charges_push(
                self.accepted_commands@,
                AcceptedCommand {
                    byte_charge: 0,
                    kind: AcceptedCommandKind::Control(intent),
                    completion,
                },
            );
        }
        self.accepted_commands.push_back(
            AcceptedCommand {
                byte_charge: 0,
                kind: AcceptedCommandKind::Control(intent),
                completion,
            },
        );
        Ok(())
    }

    /// Accepts a primary that expects no reply, or returns its inputs.
    pub fn try_accept_send(&mut self, message: PrimaryMessage, completion: Completion) -> (r:
        Result<(), DataAdmissionError<Completion>>)
        requires
            model::well_formed(old(self)@),
        ensures
            final(self).untouched(*old(self)),
            model::well_formed(final(self)@),
            match data_refusal(old(self)@, message) {
                Some(kind) => {
                    &&& r == Err::<(), _>(DataAdmissionError { kind, message, completion })
                    &&& final(self)@ == old(self)@
                },
                None => {
                    &&& r is Ok
                    &&& final(self)@ == model::accepted(
                        old(self)@,
                        AcceptedCommandKind::Send(message),
                        completion,
                        model::charge_of(old(self)@, message.body)->Ok_0,
                    )
                },
            },
    {
        self.try_accept_data(message, completion, false)
    }

    /// Accepts a primary that awaits its Secondary, or returns its inputs.
    pub fn try_accept_request(&mut self, message: PrimaryMessage, completion: Completion) -> (r:
        Result<(), DataAdmissionError<Completion>>)
        requires
            model::well_formed(old(self)@),
        ensures
            final(self).untouched(*old(self)),
            model::well_formed(final(self)@),
            match data_refusal(old(self)@, message) {
                Some(kind) => {
                    &&& r == Err::<(), _>(DataAdmissionError { kind, message, completion })
                    &&& final(self)@ == old(self)@
                },
                None => {
                    &&& r is Ok
                    &&& final(self)@ == model::accepted(
                        old(self)@,
                        AcceptedCommandKind::Request(message),
                        completion,
                        model::charge_of(old(self)@, message.body)->Ok_0,
                    )
                },
            },
    {
        self.try_accept_data(message, completion, true)
    }

    /// Accepts a primary within the FIFO and its byte budget.
    fn try_accept_data(
        &mut self,
        message: PrimaryMessage,
        completion: Completion,
        reply_expected: bool,
    ) -> (r: Result<(), DataAdmissionError<Completion>>)
        requires
            model::well_formed(old(self)@),
        ensures
            final(self).untouched(*old(self)),
            model::well_formed(final(self)@),
            match data_refusal(old(self)@, message) {
                Some(kind) => {
                    &&& r == Err::<(), _>(DataAdmissionError { kind, message, completion })
                    &&& final(self)@ == old(self)@
                },
                None => {
                    &&& r is Ok
                    &&& final(self)@ == model::accepted(
                        old(self)@,
                        if reply_expected {
                            AcceptedCommandKind::Request(message)
                        } else {
                            AcceptedCommandKind::Send(message)
                        },
                        completion,
                        model::charge_of(old(self)@, message.body)->Ok_0,
                    )
                },
            },
    {
        if self.closing.is_some() {
            return Err(
                DataAdmissionError { kind: DataAdmissionErrorKind::Closing, message, completion },
            );
        }
        if self.shutdown_draining {
            return Err(
                DataAdmissionError { kind: DataAdmissionErrorKind::Draining, message, completion },
            );
        }
        if self.accepted_commands.len() >= self.command_capacity {
            return Err(
                DataAdmissionError { kind: DataAdmissionErrorKind::Full, message, completion },
            );
        }
        let byte_charge: usize = match self.command_charge(message.body()) {
            Ok(charge) => charge,
            Err(error) => {
                let kind = match error {
                    OperationError::Backpressure => DataAdmissionErrorKind::Full,
                    error => DataAdmissionErrorKind::Invalid(error),
                };
                return Err(DataAdmissionError { kind, message, completion });
            },
        };
        let kind = if reply_expected {
            AcceptedCommandKind::Request(message)
        } else {
            AcceptedCommandKind::Send(message)
        };
        proof {
            lemma_charges_push(
                self.accepted_commands@,
                AcceptedCommand { byte_charge, kind, completion },
            );
        }
        self.command_bytes = self.command_bytes + byte_charge;
        self.accepted_commands.push_back(AcceptedCommand { byte_charge, kind, completion });
        Ok(())
    }

    /// The core said whether it blocks answers when it was asked; an open Driver
    /// asks for every answer that is written.
    pub open spec fn blocking_reported(&self, intent: ReplyIntent, blocked: bool) -> bool {
        self@.closing is None && intent != ReplyIntent::Abandon ==> call_ensures(
            Core::replies_blocked,
            (&self.core_port(),),
            blocked,
        )
    }

    /// Accepts a reply within the FIFO and its byte budget, or returns its
    /// inputs. Whether the core blocks answers is the core's decision.
    pub fn try_accept_reply(
        &mut self,
        intent: ReplyIntent,
        token: ReplyToken,
        body: Option<SecsItem>,
        completion: Completion,
    ) -> (r: Result<(), (Completion, DriverCommandResult)>)
        requires
            model::well_formed(old(self)@),
        ensures
            final(self).untouched(*old(self)),
            model::well_formed(final(self)@),
            exists|blocked: bool|
                {
                    &&& old(self).blocking_reported(intent, blocked)
                    &&& #[trigger] reply_accepted(
                        old(self)@,
                        intent,
                        token,
                        body,
                        completion,
                        blocked,
                        r,
                        final(self)@,
                    )
                },
    {
        let blocked = if self.closing.is_some() {
            false
        } else {
            match intent {
                ReplyIntent::Abandon => false,
                _ => self.core.replies_blocked(),
            }
        };
        let refused = if self.closing.is_some() {
            Some(OperationError::ConnectionLost)
        } else if blocked {
            Some(OperationError::Draining)
        } else if !token.belongs_to(self.owner, self.generation) {
            Some(OperationError::ReplyCapabilityUnavailable)
        } else if intent == ReplyIntent::Secondary && !token.normal_secondary_available() {
            Some(OperationError::ReplyRequiresAbort)
        } else if self.accepted_commands.len() >= self.command_capacity {
            Some(OperationError::Backpressure)
        } else {
            None
        };
        let charge = match refused {
            Some(error) => Err(error),
            None => self.command_charge(&body),
        };
        let kind = AcceptedCommandKind::Reply { intent, token, body };
        let byte_charge: usize = match charge {
            Ok(charge) => charge,
            Err(error) => {
                let ghost result = kind.spec_rejected(error);
                let r = Err((completion, kind.rejected(error)));
                assert(reply_accepted(
                    old(self)@,
                    intent,
                    token,
                    body,
                    completion,
                    blocked,
                    r,
                    self@,
                ));
                return r;
            },
        };
        proof {
            lemma_charges_push(
                self.accepted_commands@,
                AcceptedCommand { byte_charge, kind, completion },
            );
        }
        self.command_bytes = self.command_bytes + byte_charge;
        self.accepted_commands.push_back(AcceptedCommand { byte_charge, kind, completion });
        assert(reply_accepted(
            old(self)@,
            intent,
            token,
            body,
            completion,
            blocked,
            Ok::<(), (Completion, DriverCommandResult)>(()),
            self@,
        ));
        Ok(())
    }

    /// Returns the byte charge of a command with this body.
    fn command_charge(&self, body: &Option<SecsItem>) -> (r: Result<usize, OperationError>)
        ensures
            r == model::charge_of(self@, *body),
    {
        let text: usize = text_length(body);
        let too_large = OperationError::OutboundFrameTooLarge {
            text_length: text,
            maximum_message_length: self.maximum_message_length,
        };
        let message_length: usize = match text.checked_add(10) {
            Some(length) => length,
            None => {
                return Err(too_large);
            },
        };
        if message_length > self.maximum_message_length {
            return Err(too_large);
        }
        let charge: usize = match message_length.checked_add(4) {
            Some(charge) => charge,
            None => {
                return Err(OperationError::Backpressure);
            },
        };
        if charge > self.command_byte_capacity.saturating_sub(self.command_bytes) {
            return Err(OperationError::Backpressure);
        }
        Ok(charge)
    }

    /// Appends one port call to the history.
    fn log(&mut self, event: Ghost<PortEvent<Completion>>)
        requires
            calls::all_called(old(self)@.generation, old(self).passed(), old(self)@.history),
            calls::called(
                old(self)@.generation,
                old(self).passed().last(),
                event@,
                old(self).ports(),
            ),
        ensures
            final(self)@ == old(self)@.logged(event@),
            final(self).traced(),
            final(self).continues(*old(self)),
            final(self).ports() == old(self).ports(),
    {
        proof {
            calls::lemma_one_more(
                self@.generation,
                self.passed(),
                self@.history,
                event@,
                self.ports(),
            );
        }
        self.passed = Ghost(self.passed@.push(self.ports()));
        self.history = Ghost(self.history@.push(event@));
    }

    /// Serves a completion endpoint.
    fn serve(&mut self, completion: Completion, result: DriverCommandResult)
        requires
            old(self).traced(),
        ensures
            final(self)@ == old(self)@.logged(PortEvent::Completed { completion, result }),
            final(self).traced(),
            final(self).continues(*old(self)),
            final(self).ports() == old(self).ports(),
    {
        let ghost event = PortEvent::Completed { completion, result };
        completion.complete(result);
        self.log(Ghost(event));
    }

    /// Finds a pending command.
    fn pending_position(&self, command_id: CommandId) -> (r: usize)
        ensures
            r == model::position(self@.pending, command_id.value),
            r <= self@.pending.len(),
    {
        let ghost all = self.completions@;
        assert(all.skip(0) =~= all);
        let mut i: usize = 0;
        while i < self.completions.len()
            invariant
                i <= self.completions@.len(),
                all == self.completions@,
                model::position(all, command_id.value) == i + model::position(
                    all.skip(i as int),
                    command_id.value,
                ),
            decreases self.completions@.len() - i,
        {
            proof {
                assert(all.skip(i as int)[0] == all[i as int]);
                assert(all.skip(i as int).drop_first() =~= all.skip(i + 1));
            }
            if self.completions[i].command_id.value == command_id.value {
                return i;
            }
            i = i + 1;
        }
        i
    }

    /// Turns a core result into the typed result of its endpoint; a result of the
    /// wrong type, or a commit of a write that is not outstanding, does not fit.
    fn materialize_result(&self, kind: CompletionKind, result: CoreCommandResult) -> (r: Option<
        DriverCommandResult,
    >)
        ensures
            r == model::materialized(kind, result, self@.generation, self@.admitted),
    {
        match kind {
            CompletionKind::Control => match result {
                CoreCommandResult::Control(outcome) => Some(DriverCommandResult::Control(outcome)),
                _ => None,
            },
            CompletionKind::Send => match result {
                CoreCommandResult::Send(Ok(write_id)) => if self.has_admitted_write(write_id) {
                    Some(DriverCommandResult::Send(Ok(SendReceipt::new(self.generation))))
                } else {
                    None
                },
                CoreCommandResult::Send(Err(error)) => Some(DriverCommandResult::Send(Err(error))),
                _ => None,
            },
            CompletionKind::Request => match result {
                CoreCommandResult::Request(Ok(matched)) => {
                    let (header, body) = matched.into_parts();
                    Some(
                        DriverCommandResult::Request(
                            Ok(
                                SecondaryMessage::new(
                                    header.stream(),
                                    header.function(),
                                    body,
                                    MessageContext::from_data(self.generation, header),
                                ),
                            ),
                        ),
                    )
                },
                CoreCommandResult::Request(Err(error)) => Some(
                    DriverCommandResult::Request(Err(error)),
                ),
                CoreCommandResult::RequestTimedOut(header) => Some(
                    DriverCommandResult::Request(
                        Err(
                            OperationError::RequestTimeout {
                                context: MessageContext::from_data(self.generation, header),
                            },
                        ),
                    ),
                ),
                _ => None,
            },
        }
    }

    /// Returns whether the outcome of an admitted frame is outstanding.
    pub fn has_admitted_write(&self, write_id: WriteId) -> (r: bool)
        ensures
            r == self@.admitted.contains_key(write_id.value),
    {
        self.admitted_writes.contains_key(&write_id.value)
    }

    /// Returns the wire order of an outstanding frame.
    pub fn wire_sequence(&self, write_id: WriteId) -> (r: Option<WireSequence>)
        ensures
            r is Some <==> self@.admitted.contains_key(write_id.value),
            r is Some ==> r->0 == self@.admitted[write_id.value],
    {
        match self.admitted_writes.get(&write_id.value) {
            Some(sequence) => Some(*sequence),
            None => None,
        }
    }

    /// Records a frame that the Writer took.
    fn record_admission(&mut self, write_id: WriteId, sequence: WireSequence) -> (r: Result<
        (),
        ActionApplicationFailure,
    >)
        ensures
            final(self).untouched(*old(self)),
            forall|permit: bool| #[trigger]
                model::taken(old(self)@, permit, write_id, sequence) == (model::Progress {
                    view: final(self)@,
                    permit,
                    failure: failure_of(r),
                }),
    {
        if self.admitted_writes.contains_key(&write_id.value) {
            Err(ActionApplicationFailure::DuplicateOrUnknownCompletion)
        } else {
            self.admitted_writes.insert(write_id.value, sequence);
            Ok(())
        }
    }

    /// Performs one core action. The unused reservation comes back.
    fn apply_action(&mut self, action: CoreAction, permit: Option<Writer::DataPermit>) -> (r: (
        Result<(), ActionApplicationFailure>,
        Option<Writer::DataPermit>,
        Ghost<Answer>,
    ))
        requires
            old(self).traced(),
            old(self).ports().reservation == permit,
        ensures
            final(self).traced(),
            final(self).continues(*old(self)),
            final(self).ports().reservation == r.1,
            model::act(old(self)@, permit is Some, action, r.2@) == (model::Progress {
                view: final(self)@,
                permit: r.1 is Some,
                failure: failure_of(r.0),
            }),
    {
        let ghost unasked = Answer {
            control: Err(WriteAdmissionError::Invariant),
            data: Err(ReservedDataAdmissionError::Invariant),
        };
        match action {
            CoreAction::DeliverPrimary { message, capability } => {
                if self.inbound.len() >= self.inbound_capacity {
                    (Err(ActionApplicationFailure::InboundFull), permit, Ghost(unasked))
                } else {
                    let (header, body) = message.into_parts();
                    let context = MessageContext::from_data(self.generation, header);
                    let token = match capability {
                        Some(id) => InboundToken::Reply(
                            ReplyToken::from_core(
                                self.owner,
                                id,
                                self.generation,
                                header.function().get() < u8::MAX,
                            ),
                        ),
                        None => InboundToken::Data,
                    };
                    self.inbound.push_back(
                        InboundPrimary::new(
                            PrimaryMessage::new(header.stream(), header.function(), body),
                            token,
                            context,
                        ),
                    );
                    (Ok(()), permit, Ghost(unasked))
                }
            },
            CoreAction::SendFrame { write_id, message } => {
                let ghost copy = message;
                let is_control = matches!(&message, ProtocolMessage::Control(_));
                let frame = OutboundFrame::new(write_id, message);
                if is_control {
                    let (answer, _) = calls::hand_control(&mut self.writer, frame);
                    self.log(
                        Ghost(PortEvent::ControlHanded { write_id, message: copy, answer }),
                    );
                    let ghost given = Answer { control: answer, data: unasked.data };
                    let r = match answer {
                        Ok(sequence) => self.record_admission(write_id, sequence),
                        Err(error) => Err(
                            ActionApplicationFailure::ControlWriteAdmission { write_id, error },
                        ),
                    };
                    (r, permit, Ghost(given))
                } else {
                    match permit {
                        None => (
                            Err(ActionApplicationFailure::MissingOrMultipleDataFrame { write_id }),
                            None,
                            Ghost(unasked),
                        ),
                        Some(permit) => {
                            let (answer, _) = calls::hand_data(&mut self.writer, permit, frame);
                            self.reservation = Ghost(None);
                            self.log(
                                Ghost(PortEvent::DataHanded { write_id, message: copy, answer }),
                            );
                            let ghost given = Answer { control: unasked.control, data: answer };
                            let r = match answer {
                                Ok(sequence) => self.record_admission(write_id, sequence),
                                Err(error) => Err(
                                    ActionApplicationFailure::ReservedDataAdmission {
                                        write_id,
                                        error,
                                    },
                                ),
                            };
                            (r, None, Ghost(given))
                        },
                    }
                }
            },
            CoreAction::SessionStateChanged(state) => {
                calls::observe(&mut self.observer, state);
                self.log(Ghost(PortEvent::Observed(state)));
                (Ok(()), permit, Ghost(unasked))
            },
            CoreAction::CompleteCommand { command_id, result } => {
                let i: usize = self.pending_position(command_id);
                if i >= self.completions.len() {
                    return (
                        Err(ActionApplicationFailure::DuplicateOrUnknownCompletion),
                        permit,
                        Ghost(unasked),
                    );
                }
                let kind = self.completions[i].kind;
                match self.materialize_result(kind, result) {
                    None => (
                        Err(ActionApplicationFailure::InvalidCompletionResult),
                        permit,
                        Ghost(unasked),
                    ),
                    Some(delivered) => {
                        let ghost before = self.completions@;
                        if let Some(pending) = self.completions.remove(i) {
                            assert(self.completions@ =~= before.remove(i as int));
                            self.serve(pending.completion, delivered);
                        }
                        (Ok(()), permit, Ghost(unasked))
                    },
                }
            },
            CoreAction::CloseGeneration { reason, barrier } => {
                self.begin_closing(reason, barrier);
                (Ok(()), permit, Ghost(unasked))
            },
        }
    }

    /// Applies an action batch in order, up to its first failure, and gives an
    /// unused reservation back.
    fn apply_action_batch(
        &mut self,
        actions: CoreActions,
        data_permit: Option<Writer::DataPermit>,
    ) -> (r: Result<(), ActionApplicationFailure>)
        requires
            old(self).traced(),
            old(self).ports().reservation == data_permit,
        ensures
            final(self).settled(),
            final(self).continues(*old(self)),
            model::batch(
                old(self)@,
                data_permit is Some,
                actions@,
                final(self)@,
                failure_of(r),
            ),
    {
        let ghost start = self@;
        let ghost begun = *self;
        let ghost all = actions@;
        let ghost held = data_permit is Some;
        let ghost mut answers: Seq<Answer> = Seq::empty();
        let mut actions = actions;
        let mut permit = data_permit;
        let mut result: Result<(), ActionApplicationFailure> = Ok(());
        let mut done = false;
        assert(all.skip(0) =~= all);
        while !done
            invariant
                self.traced(),
                self.continues(begun),
                self.ports().reservation == permit,
                answers.len() <= all.len(),
                actions@ == all.skip(answers.len() as int),
                model::run(start, held, all, answers) == (model::Progress {
                    view: self@,
                    permit: permit is Some,
                    failure: failure_of(result),
                }),
                done ==> result is Err || answers.len() == all.len(),
                !done ==> result is Ok,
            decreases all.len() - answers.len(), if done { 0int } else { 1int },
        {
            match actions.pop_front() {
                None => {
                    done = true;
                },
                Some(action) => {
                    let (step, rest, Ghost(answer)) = self.apply_action(action, permit);
                    permit = rest;
                    proof {
                        let before = answers;
                        answers = answers.push(answer);
                        assert(answers.drop_last() =~= before);
                        assert(action == all[before.len() as int]);
                        assert(actions@ =~= all.skip(answers.len() as int));
                    }
                    if step.is_err() {
                        done = true;
                    }
                    result = step;
                },
            }
        }
        let ghost progress = model::run(start, held, all, answers);
        if let Some(unused) = permit {
            let (answer, _) = calls::release_data(&mut self.writer, unused);
            self.reservation = Ghost(None);
            self.log(Ghost(PortEvent::Released { answer }));
            let r = match answer {
                Ok(()) => result,
                Err(error) => Err(ActionApplicationFailure::DataPermitRelease(error)),
            };
            assert(model::batch_by(start, held, all, answers, answer, self@, failure_of(r)));
            r
        } else {
            assert(model::batch_by(start, held, all, answers, Ok(()), self@, failure_of(result)));
            result
        }
    }

    /// Retains the first reason, allowing terminal shutdown to remove a barrier.
    fn begin_closing(&mut self, reason: GenerationCloseReason, barrier: CloseBarrier)
        ensures
            final(self).untouched(*old(self)),
            final(self)@ == old(self)@.closing_with(reason, barrier),
    {
        self.closing = match self.closing {
            Some(state) => Some(
                ClosingState {
                    reason: state.reason,
                    barrier_write_id: match barrier {
                        CloseBarrier::Immediate => None,
                        CloseBarrier::AfterWrite(_) => state.barrier_write_id,
                    },
                },
            ),
            None => Some(
                ClosingState {
                    reason,
                    barrier_write_id: match barrier {
                        CloseBarrier::Immediate => None,
                        CloseBarrier::AfterWrite(write_id) => Some(write_id),
                    },
                },
            ),
        };
    }

    /// Marks a settled write as satisfying the close barrier.
    fn satisfy_close_barrier(&mut self, write_id: WriteId)
        ensures
            final(self).untouched(*old(self)),
            final(self)@ == (DriverView {
                closing: model::barrier_after(old(self)@.closing, write_id),
                ..old(self)@
            }),
    {
        if let Some(state) = self.closing {
            if let Some(barrier) = state.barrier_write_id {
                if barrier.value == write_id.value {
                    self.closing = Some(
                        ClosingState { reason: state.reason, barrier_write_id: None },
                    );
                }
            }
        }
    }

    /// Performs the single transport close once no write barrier remains.
    fn finish_close_if_ready(&mut self)
        requires
            old(self).settled(),
            model::well_formed(old(self)@),
        ensures
            final(self).settled(),
            final(self).continues(*old(self)),
            model::finished(old(self)@, final(self)@),
            model::well_formed(final(self)@),
            model::advances(old(self)@, final(self)@),
            model::calm(final(self)@),
    {
        let ghost start = self@;
        let ready = match self.closing {
            Some(state) => state.barrier_write_id.is_none(),
            None => false,
        };
        if ready && !self.transport_closed {
            calls::close(&mut self.closer);
            self.log(Ghost(PortEvent::TransportClosed));
            self.transport_closed = true;
            self.drain_accepted_commands();
        }
        proof {
            laws::lemma_finished(start, self@);
        }
    }

    /// Completes every command that the core no longer owns, and gives every
    /// accepted command back, as lost.
    fn drain_accepted_commands(&mut self)
        requires
            old(self).settled(),
            old(self)@.command_bytes == model::charges(old(self)@.queue),
        ensures
            final(self).settled(),
            final(self).continues(*old(self)),
            model::drains(old(self)@, final(self)@),
    {
        let ghost begun = *self;
        let ghost commands = model::identities(self@.pending);
        let mut owned: Vec<bool> = Vec::new();
        let mut i: usize = 0;
        while i < self.completions.len()
            invariant
                i <= self.completions@.len(),
                owned@.len() == i,
                *self == begun,
                commands == model::identities(begun@.pending),
                forall|k: int|
                    0 <= k < i ==> call_ensures(
                        Core::owns_command,
                        (&begun.core_port(), #[trigger] commands[k]),
                        owned@[k],
                    ),
            decreases self.completions@.len() - i,
        {
            let command_id = self.completions[i].command_id;
            assert(commands[i as int] == command_id);
            owned.push(self.core.owns_command(command_id));
            i = i + 1;
        }
        self.log(Ghost(PortEvent::OwnershipAsked { commands, owned: owned@ }));
        let ghost start = self@;
        assert(start == model::surveyed(begun@, owned@));
        let mut kept: VecDeque<PendingCompletion<Completion>> = VecDeque::new();
        let ghost pending = start.pending;
        let mut j: usize = 0;
        assert(pending.take(0) =~= Seq::empty());
        assert(pending.skip(0) =~= pending);
        assert(start.history + Seq::<PortEvent<Completion>>::empty() =~= start.history);
        while j < owned.len()
            invariant
                self.settled(),
                self.continues(begun),
                j <= owned@.len(),
                owned@.len() == pending.len(),
                pending == start.pending,
                self@ == (DriverView {
                    pending: pending.skip(j as int),
                    history: start.history + model::orphan_events(pending.take(j as int), owned@),
                    ..start
                }),
                kept@ == model::still_owned(pending.take(j as int), owned@),
            decreases owned@.len() - j,
        {
            let ghost before = self@;
            proof {
                assert(pending.skip(j as int)[0] == pending[j as int]);
                assert(pending.take(j + 1).drop_last() =~= pending.take(j as int));
                assert(pending.take(j + 1).last() == pending[j as int]);
            }
            if let Some(entry) = self.completions.pop_front() {
                proof {
                    assert(self.completions@ =~= pending.skip(j + 1));
                }
                if owned[j] {
                    kept.push_back(entry);
                } else {
                    let result = entry.kind.connection_lost_result();
                    self.serve(entry.completion, result);
                }
            }
            proof {
                assert(self@.history =~= start.history + model::orphan_events(
                    pending.take(j + 1),
                    owned@,
                ));
            }
            j = j + 1;
        }
        assert(pending.take(j as int) =~= pending);
        self.completions = kept;
        let ghost middle = self@;
        let ghost queue = start.queue;
        let ghost mut k: int = 0;
        assert(queue.skip(0) =~= queue);
        assert(model::queue_events(queue.take(0)) =~= Seq::empty());
        assert(middle.history + Seq::<PortEvent<Completion>>::empty() =~= middle.history);
        let mut drained = false;
        while !drained
            invariant
                self.settled(),
                self.continues(begun),
                0 <= k <= queue.len(),
                self@ == (DriverView {
                    queue: queue.skip(k),
                    command_bytes: self.command_bytes,
                    history: middle.history + model::queue_events(queue.take(k)),
                    ..middle
                }),
                self.command_bytes == model::charges(queue.skip(k)),
                drained ==> k == queue.len(),
            decreases queue.len() - k, if drained { 0int } else { 1int },
        {
            proof {
                if k < queue.len() {
                    assert(queue.skip(k)[0] == queue[k]);
                    assert(queue.skip(k).drop_first() =~= queue.skip(k + 1));
                    assert(queue.take(k + 1) =~= queue.take(k).push(queue[k]));
                    assert(model::queue_events(queue.take(k + 1)) =~= model::queue_events(
                        queue.take(k),
                    ).push(
                        PortEvent::Completed {
                            completion: queue[k].completion,
                            result: queue[k].kind.spec_rejected(OperationError::ConnectionLost),
                        },
                    ));
                    lemma_charges_non_negative(queue.skip(k + 1));
                }
            }
            match self.accepted_commands.pop_front() {
                None => {
                    drained = true;
                },
                Some(accepted) => {
                    assert(self.accepted_commands@ =~= queue.skip(k + 1));
                    self.command_bytes = self.command_bytes - accepted.byte_charge;
                    let result = accepted.kind.rejected(OperationError::ConnectionLost);
                    self.serve(accepted.completion, result);
                    proof {
                        assert(self@.history =~= middle.history + model::queue_events(
                            queue.take(k + 1),
                        ));
                        k = k + 1;
                    }
                },
            }
        }
        proof {
            assert(queue.take(k) =~= queue);
            assert(queue.skip(k) =~= Seq::empty());
            assert(self@.queue =~= Seq::empty());
            assert(self@ == model::drained(start, owned@));
        }
    }

    /// Reports a batch failure to the core and closes at once.
    fn handle_action_failure_with_reason(
        &mut self,
        failure: ActionApplicationFailure,
        now: MonoTime,
        first_reason: Option<GenerationCloseReason>,
    )
        requires
            old(self).settled(),
        ensures
            final(self).settled(),
            final(self).continues(*old(self)),
            model::failed_over(
                old(self)@,
                match first_reason {
                    Some(reason) => reason,
                    None => model::failure_report(failure).0,
                },
                model::failure_report(failure).1,
                now,
                final(self)@,
            ),
    {
        let (reason, failed_write_id) = failure_report(failure);
        let reported = match first_reason {
            Some(first) => first,
            None => reason,
        };
        self.shutdown_after_driver_failure(reported, failed_write_id, now);
    }

    /// Lets the core end the session after a Driver failure and closes at once.
    fn shutdown_after_driver_failure(
        &mut self,
        reason: GenerationCloseReason,
        failed_write_id: Option<WriteId>,
        now: MonoTime,
    )
        requires
            old(self).settled(),
        ensures
            final(self).settled(),
            final(self).continues(*old(self)),
            model::failed_over(old(self)@, reason, failed_write_id, now, final(self)@),
    {
        let ghost start = self@;
        let (actions, _) = calls::call_core(
            &mut self.core,
            CoreInput::Shutdown { reason, failed_write_id, now },
        );
        let ghost answered = actions@;
        self.log(
            Ghost(
                PortEvent::CoreCalled {
                    input: CoreInput::Shutdown { reason, failed_write_id, now },
                    actions: answered,
                },
            ),
        );
        let applied = self.apply_action_batch(actions, None);
        let ghost middle = self@;
        proof {
            assert(model::batch(
                start.asked(CoreInput::Shutdown { reason, failed_write_id, now }, answered),
                false,
                answered,
                middle,
                failure_of(applied),
            ));
        }
        if applied.is_err() {
            self.begin_closing(GenerationCloseReason::RuntimeInvariant, CloseBarrier::Immediate);
        }
        self.begin_closing(reason, CloseBarrier::Immediate);
    }

    /// Applies a batch; its failure ends the session.
    fn absorb(
        &mut self,
        actions: CoreActions,
        data_permit: Option<Writer::DataPermit>,
        first_reason: Option<GenerationCloseReason>,
        now: MonoTime,
    )
        requires
            old(self).traced(),
            old(self).ports().reservation == data_permit,
            model::well_formed(old(self)@),
        ensures
            final(self).settled(),
            final(self).continues(*old(self)),
            model::absorbed(
                old(self)@,
                data_permit is Some,
                actions@,
                first_reason,
                now,
                final(self)@,
            ),
            model::well_formed(final(self)@),
            model::advances(old(self)@, final(self)@),
    {
        let ghost start = self@;
        let ghost held = data_permit is Some;
        let ghost all = actions@;
        let applied = self.apply_action_batch(actions, data_permit);
        assert(model::batch(start, held, all, self@, failure_of(applied)));
        if let Err(failure) = applied {
            self.handle_action_failure_with_reason(failure, now, first_reason);
        }
        proof {
            laws::lemma_absorbed(start, held, all, first_reason, now, self@);
        }
    }

    /// Applies a batch and closes the transport when that is due.
    fn apply_actions(
        &mut self,
        actions: CoreActions,
        data_permit: Option<Writer::DataPermit>,
        now: MonoTime,
    )
        requires
            old(self).traced(),
            old(self).ports().reservation == data_permit,
            model::well_formed(old(self)@),
        ensures
            final(self).settled(),
            final(self).continues(*old(self)),
            model::applied(old(self)@, data_permit is Some, actions@, now, final(self)@),
            model::well_formed(final(self)@),
            model::advances(old(self)@, final(self)@),
            model::calm(final(self)@),
    {
        let ghost start = self@;
        let ghost held = data_permit is Some;
        let ghost all = actions@;
        self.absorb(actions, data_permit, None, now);
        let ghost middle = self@;
        self.finish_close_if_ready();
        proof {
            assert(model::absorbed(start, held, all, None, now, middle));
            laws::lemma_applied(start, held, all, now, self@);
        }
    }

    /// Presents the connected transport to the core; a closing Driver ignores it.
    pub fn on_connected(&mut self, now: MonoTime) -> (r: bool)
        requires
            old(self).settled(),
            model::well_formed(old(self)@),
            model::calm(old(self)@),
        ensures
            final(self).settled(),
            final(self).continues(*old(self)),
            r == old(self)@.closing is None,
            !r ==> final(self)@ == old(self)@,
            r ==> model::answered(
                old(self)@,
                CoreInput::Connected { now },
                false,
                now,
                final(self)@,
            ),
            model::well_formed(final(self)@),
            model::advances(old(self)@, final(self)@),
            model::calm(final(self)@),
    {
        if self.closing.is_some() {
            return false;
        }
        let ghost start = self@;
        let (actions, _) = calls::call_core(&mut self.core, CoreInput::Connected { now });
        let ghost answered = actions@;
        self.log(
            Ghost(
                PortEvent::CoreCalled { input: CoreInput::Connected { now }, actions: answered },
            ),
        );
        proof {
            laws::lemma_logged(
                start,
                PortEvent::CoreCalled { input: CoreInput::Connected { now }, actions: answered },
            );
        }
        self.apply_actions(actions, None, now);
        proof {
            assert(model::applied(
                start.asked(CoreInput::Connected { now }, answered),
                false,
                answered,
                now,
                self@,
            ));
        }
        true
    }

    /// Lets time advance; a closing Driver ignores it.
    pub fn advance_time(&mut self, now: MonoTime) -> (r: bool)
        requires
            old(self).settled(),
            model::well_formed(old(self)@),
            model::calm(old(self)@),
        ensures
            final(self).settled(),
            final(self).continues(*old(self)),
            r == old(self)@.closing is None,
            !r ==> final(self)@ == old(self)@,
            r ==> model::answered(
                old(self)@,
                CoreInput::AdvanceTime { now },
                false,
                now,
                final(self)@,
            ),
            model::well_formed(final(self)@),
            model::advances(old(self)@, final(self)@),
            model::calm(final(self)@),
    {
        if self.closing.is_some() {
            return false;
        }
        let ghost start = self@;
        let (actions, _) = calls::call_core(&mut self.core, CoreInput::AdvanceTime { now });
        let ghost answered = actions@;
        self.log(
            Ghost(
                PortEvent::CoreCalled { input: CoreInput::AdvanceTime { now }, actions: answered },
            ),
        );
        proof {
            laws::lemma_logged(
                start,
                PortEvent::CoreCalled { input: CoreInput::AdvanceTime { now }, actions: answered },
            );
        }
        self.apply_actions(actions, None, now);
        proof {
            assert(model::applied(
                start.asked(CoreInput::AdvanceTime { now }, answered),
                false,
                answered,
                now,
                self@,
            ));
        }
        true
    }

    /// Lets time advance when the deadline that the core reported is due. A
    /// closing Driver ignores deadlines.
    pub fn process_deadline(&mut self, deadline: Option<MonoTime>, now: MonoTime)
        requires
            old(self).settled(),
            model::well_formed(old(self)@),
            model::calm(old(self)@),
        ensures
            final(self).settled(),
            final(self).continues(*old(self)),
            model::deadline_processed(old(self)@, deadline, now, final(self)@),
            model::well_formed(final(self)@),
            model::advances(old(self)@, final(self)@),
            model::calm(final(self)@),
    {
        if self.closing.is_some() {
            return;
        }
        let due = match deadline {
            Some(deadline) => deadline.nanos <= now.nanos,
            None => false,
        };
        if due {
            self.advance_time(now);
        }
    }

    /// Applies an already-due timer batch before ordinary input.
    fn process_due_deadlines(&mut self, now: MonoTime)
        requires
            old(self).settled(),
            model::well_formed(old(self)@),
            model::calm(old(self)@),
        ensures
            final(self).settled(),
            final(self).continues(*old(self)),
            model::deadlines_processed(old(self)@, now, final(self)@),
            model::well_formed(final(self)@),
            model::advances(old(self)@, final(self)@),
            model::calm(final(self)@),
    {
        if self.closing.is_some() {
            return;
        }
        let ghost start = self@;
        let deadline = self.core.next_deadline();
        let ghost event = PortEvent::DeadlineAsked(deadline);
        self.log(Ghost(event));
        proof {
            laws::lemma_logged(start, event);
        }
        self.process_deadline(deadline, now);
        assert(model::deadline_processed(start.logged(event), deadline, now, self@));
    }

    /// Presents a terminal shutdown reason to the core and closes at once.
    ///
    /// `failed_write_id` is given only for a frame that the Writer never admitted
    /// and for which it will report no outcome.
    pub fn on_shutdown(
        &mut self,
        reason: GenerationCloseReason,
        failed_write_id: Option<WriteId>,
        now: MonoTime,
    )
        requires
            old(self).settled(),
            model::well_formed(old(self)@),
        ensures
            final(self).settled(),
            final(self).continues(*old(self)),
            model::shut_down(old(self)@, reason, failed_write_id, now, final(self)@),
            model::well_formed(final(self)@),
            model::advances(old(self)@, final(self)@),
            model::calm(final(self)@),
            final(self)@.transport_closed,
    {
        let ghost start = self@;
        let ghost input = CoreInput::Shutdown { reason, failed_write_id, now };
        let (actions, _) = calls::call_core(
            &mut self.core,
            CoreInput::Shutdown { reason, failed_write_id, now },
        );
        let ghost answered = actions@;
        self.log(Ghost(PortEvent::CoreCalled { input, actions: answered }));
        proof {
            laws::lemma_logged(start, PortEvent::CoreCalled { input, actions: answered });
        }
        self.absorb(actions, None, None, now);
        let ghost middle = self@;
        proof {
            laws::lemma_closing_with(middle, reason, CloseBarrier::Immediate);
        }
        self.begin_closing(reason, CloseBarrier::Immediate);
        self.finish_close_if_ready();
        proof {
            assert(model::absorbed(
                start.asked(input, answered),
                false,
                answered,
                None,
                now,
                middle,
            ));
            laws::lemma_shut_down(start, reason, failed_write_id, now, self@);
        }
    }

    /// Allocates the next command identity; the last one is used once and never
    /// wraps.
    fn allocate_command_id(&mut self) -> (r: Option<CommandId>)
        ensures
            final(self).untouched(*old(self)),
            r is Some <==> old(self)@.next_command_id is Some,
            r is Some ==> r->0.value == old(self)@.next_command_id->0 && final(self)@
                == (DriverView {
                next_command_id: if r->0.value == u64::MAX {
                    None
                } else {
                    Some((r->0.value + 1) as u64)
                },
                ..old(self)@
            }),
            r is None ==> final(self)@ == old(self)@,
    {
        match self.next_command_id {
            Some(value) => {
                self.next_command_id = value.checked_add(1);
                Some(CommandId::new(value))
            },
            None => None,
        }
    }

    /// Executes the oldest accepted command and returns whether there was one.
    /// Due deadlines come first.
    pub fn drive_next_command(&mut self, now: MonoTime) -> (r: bool)
        requires
            old(self).settled(),
            model::well_formed(old(self)@),
            model::calm(old(self)@),
        ensures
            final(self).settled(),
            final(self).continues(*old(self)),
            command_driven(old(self)@, now, r, final(self)@),
            model::well_formed(final(self)@),
            model::advances(old(self)@, final(self)@),
            model::calm(final(self)@),
    {
        let ghost start = self@;
        self.process_due_deadlines(now);
        let ghost ready = self@;
        if self.closing.is_some() {
            assert(model::deadlines_processed(start, now, ready));
            return false;
        }
        let accepted = match self.accepted_commands.pop_front() {
            Some(accepted) => accepted,
            None => {
                assert(model::deadlines_processed(start, now, ready));
                return false;
            },
        };
        proof {
            lemma_charges_non_negative(ready.queue.drop_first());
            assert(self.accepted_commands@ =~= ready.queue.drop_first());
        }
        self.command_bytes = self.command_bytes - accepted.byte_charge;
        assert(self@ == model::dequeued(ready));
        let mut replies_blocked = false;
        if accepted.kind.is_answer() {
            replies_blocked = self.core.replies_blocked();
            let ghost event = PortEvent::RepliesAsked(replies_blocked);
            self.log(Ghost(event));
            proof {
                laws::lemma_logged(ready, event);
            }
        }
        let ghost asked = model::blocking_asked(ready, accepted, replies_blocked);
        assert(self@ == model::dequeued(asked));
        self.execute(accepted, replies_blocked, now, Ghost(asked));
        proof {
            laws::lemma_executed(asked, replies_blocked, now, self@);
            assert(model::deadlines_processed(start, now, ready));
        }
        true
    }

    /// Executes a dequeued command; `replies_blocked` is whether the core takes no
    /// answers.
    fn execute(
        &mut self,
        accepted: AcceptedCommand<Completion>,
        replies_blocked: bool,
        now: MonoTime,
        ready: Ghost<DriverView<Completion>>,
    )
        requires
            old(self).settled(),
            model::well_formed(ready@),
            ready@.queue.len() > 0,
            accepted == ready@.queue[0],
            old(self)@ == model::dequeued(ready@),
        ensures
            final(self).settled(),
            final(self).continues(*old(self)),
            model::executed(old(self)@, accepted, replies_blocked, now, final(self)@),
    {
        let ghost start = self@;
        let ghost command = accepted;
        if accepted.kind.is_answer() && replies_blocked {
            let result = accepted.kind.rejected(OperationError::Draining);
            self.serve(accepted.completion, result);
            return;
        }
        if !accepted.kind.requires_data_permit() {
            self.enter(accepted, None, now, ready);
            return;
        }
        let body = match &accepted.kind {
            AcceptedCommandKind::Reply { intent, body, .. } => match intent {
                ReplyIntent::Secondary => body,
                _ => &None,
            },
            AcceptedCommandKind::Send(message) => message.body(),
            AcceptedCommandKind::Request(message) => message.body(),
            AcceptedCommandKind::Control(_) => &None,
        };
        assert(*body == command.kind.frame_body());
        let (reserved, _) = calls::reserve_message(&mut self.writer, body);
        match reserved {
            Ok(permit) => {
                let ghost event = PortEvent::Reserved {
                    body: command.kind.frame_body(),
                    failure: None,
                };
                self.reservation = Ghost(Some(permit));
                self.log(Ghost(event));
                proof {
                    laws::lemma_logged(ready@, event);
                    assert(self@ == model::dequeued(ready@.logged(event)));
                }
                self.enter(accepted, Some(permit), now, Ghost(ready@.logged(event)));
                assert(model::reserved(start, command, None, now, self@));
            },
            Err(error) => {
                let ghost event = PortEvent::Reserved {
                    body: command.kind.frame_body(),
                    failure: Some(error),
                };
                self.log(Ghost(event));
                let lost = matches!(&error, OperationError::ConnectionLost);
                let ghost refusal = error;
                let result = accepted.kind.rejected(error);
                self.serve(accepted.completion, result);
                let ghost refused = self@;
                proof {
                    assert(refused == model::given_back(start.logged(event), command, refusal));
                    laws::lemma_logged(ready@, event);
                    assert(start.logged(event) == model::dequeued(ready@.logged(event)));
                    laws::lemma_given_back(ready@.logged(event), refusal);
                }
                if lost {
                    self.shutdown_after_driver_failure(
                        GenerationCloseReason::TransportLost,
                        None,
                        now,
                    );
                    let ghost middle = self@;
                    proof {
                        assert(model::failed_over(
                            refused,
                            GenerationCloseReason::TransportLost,
                            None,
                            now,
                            middle,
                        ));
                        laws::lemma_failed_over(
                            refused,
                            GenerationCloseReason::TransportLost,
                            None,
                            now,
                            middle,
                        );
                    }
                    self.finish_close_if_ready();
                }
                assert(model::reserved(start, command, Some(refusal), now, self@));
            },
        }
    }

    /// Enters a dequeued command into the core under the next identity.
    fn enter(
        &mut self,
        accepted: AcceptedCommand<Completion>,
        permit: Option<Writer::DataPermit>,
        now: MonoTime,
        ready: Ghost<DriverView<Completion>>,
    )
        requires
            old(self).traced(),
            old(self).ports().reservation == permit,
            model::well_formed(ready@),
            ready@.queue.len() > 0,
            accepted == ready@.queue[0],
            old(self)@ == model::dequeued(ready@),
        ensures
            final(self).settled(),
            final(self).continues(*old(self)),
            model::entered(old(self)@, accepted, permit is Some, now, final(self)@),
    {
        let ghost start = self@;
        let ghost held = permit is Some;
        let ghost command = accepted;
        let completion_kind = accepted.kind.completion_kind();
        match self.allocate_command_id() {
            None => {
                let mut ghost_release: Ghost<Result<(), DataPermitError>> = Ghost(Ok(()));
                if let Some(permit) = permit {
                    let (answer, _) = calls::release_data(&mut self.writer, permit);
                    self.reservation = Ghost(None);
                    self.log(Ghost(PortEvent::Released { answer }));
                    ghost_release = Ghost(answer);
                }
                let ghost release = ghost_release@;
                assert(self@ == model::released(start, held, release));
                let result = accepted.kind.rejected(OperationError::ConnectionLost);
                self.serve(accepted.completion, result);
                proof {
                    let base = model::released(ready@, held, release);
                    if held {
                        laws::lemma_logged(ready@, PortEvent::Released { answer: release });
                    }
                    assert(model::released(start, held, release) == model::dequeued(base));
                    laws::lemma_given_back(base, OperationError::ConnectionLost);
                }
                let ghost refused = self@;
                self.on_shutdown(GenerationCloseReason::RuntimeInvariant, None, now);
                assert(model::shut_down(
                    model::given_back(
                        model::released(start, held, release),
                        command,
                        OperationError::ConnectionLost,
                    ),
                    GenerationCloseReason::RuntimeInvariant,
                    None,
                    now,
                    self@,
                ));
            },
            Some(command_id) => {
                let kind = accepted.kind;
                self.completions.push_back(
                    PendingCompletion {
                        command_id,
                        kind: completion_kind,
                        completion: accepted.completion,
                    },
                );
                let ghost input = model::command_input(command_id, command.kind, now);
                let ghost entering = self@;
                proof {
                    laws::lemma_entering(ready@, command_id.value);
                    assert(entering == model::entering(start, command, command_id.value));
                }
                let asked = match kind {
                    AcceptedCommandKind::Reply { intent, token, body } => CoreInput::Reply {
                        command_id,
                        capability: token.capability,
                        intent,
                        body,
                        now,
                    },
                    AcceptedCommandKind::Control(intent) => {
                        let kind = match intent {
                            ControlIntent::Select => CoreCommandKind::Select,
                            ControlIntent::Deselect => CoreCommandKind::Deselect,
                            ControlIntent::Linktest => CoreCommandKind::Linktest,
                            ControlIntent::Separate => CoreCommandKind::Separate,
                        };
                        CoreInput::Command { command_id, kind, now }
                    },
                    AcceptedCommandKind::Send(message) => CoreInput::Command {
                        command_id,
                        kind: CoreCommandKind::Send(message),
                        now,
                    },
                    AcceptedCommandKind::Request(message) => CoreInput::Command {
                        command_id,
                        kind: CoreCommandKind::Request(message),
                        now,
                    },
                };
                assert(asked == input);
                let (actions, _) = calls::call_core(&mut self.core, asked);
                let ghost answered = actions@;
                self.log(Ghost(PortEvent::CoreCalled { input, actions: answered }));
                proof {
                    laws::lemma_logged(
                        entering,
                        PortEvent::CoreCalled { input, actions: answered },
                    );
                }
                self.apply_actions(actions, permit, now);
                proof {
                    assert(model::applied(
                        entering.asked(input, answered),
                        held,
                        answered,
                        now,
                        self@,
                    ));
                }
            },
        }
    }

    /// Presents a valid message to the core; a closing Driver ignores it. Due
    /// deadlines come first.
    pub fn on_message(&mut self, message: ProtocolMessage, now: MonoTime) -> (r: bool)
        requires
            old(self).settled(),
            model::well_formed(old(self)@),
            model::calm(old(self)@),
        ensures
            final(self).settled(),
            final(self).continues(*old(self)),
            message_handled(old(self)@, message, now, r, final(self)@),
            model::well_formed(final(self)@),
            model::advances(old(self)@, final(self)@),
            model::calm(final(self)@),
    {
        let ghost start = self@;
        self.process_due_deadlines(now);
        let ghost ready = self@;
        assert(model::deadlines_processed(start, now, ready));
        if self.closing.is_some() {
            return false;
        }
        let ghost input = CoreInput::Message { message, now };
        let (actions, _) = calls::call_core(&mut self.core, CoreInput::Message { message, now });
        let ghost answered = actions@;
        self.log(Ghost(PortEvent::CoreCalled { input, actions: answered }));
        proof {
            laws::lemma_logged(ready, PortEvent::CoreCalled { input, actions: answered });
        }
        self.apply_actions(actions, None, now);
        let ghost middle = self@;
        proof {
            assert(model::applied(ready.asked(input, answered), false, answered, now, middle));
            assert(model::answered(ready, input, false, now, middle));
        }
        let (taken, _) = calls::take_notice(&mut self.core);
        let ghost event = PortEvent::NoticeTaken(taken);
        self.log(Ghost(event));
        proof {
            laws::lemma_logged(middle, event);
        }
        if let Some(notice) = taken {
            calls::publish_notice(&mut self.observer, self.generation, notice);
            self.log(Ghost(PortEvent::Noticed(notice)));
            proof {
                laws::lemma_logged(middle.logged(event), PortEvent::Noticed(notice));
            }
        }
        assert(self@ == notice_passed_on(middle, taken));
        true
    }

    /// Presents a decoded frame to the core. A malformed frame is reported to the
    /// application under its raw header; when the application does not keep up,
    /// the generation closes.
    pub fn on_decode_step_with_header(
        &mut self,
        step: DecodeStep,
        raw_header: Option<[u8; 10]>,
        now: MonoTime,
    ) -> (r: bool)
        requires
            old(self).settled(),
            model::well_formed(old(self)@),
            model::calm(old(self)@),
        ensures
            final(self).settled(),
            final(self).continues(*old(self)),
            decode_step_handled(old(self)@, step, raw_header, now, r, final(self)@),
            model::well_formed(final(self)@),
            model::advances(old(self)@, final(self)@),
            model::calm(final(self)@),
    {
        let ghost start = self@;
        let (violation, decoded_header, kind, source) = match step {
            DecodeStep::Message(message) => {
                return self.on_message(message, now);
            },
            DecodeStep::NeedMore(_) => {
                self.process_due_deadlines(now);
                let ghost ready = self@;
                assert(model::deadlines_processed(start, now, ready));
                if self.closing.is_none() {
                    self.on_shutdown(GenerationCloseReason::RuntimeInvariant, None, now);
                }
                return false;
            },
            DecodeStep::HeaderViolation { header, kind } => (
                InboundViolation::Header { header, kind },
                header,
                InboundViolationKind::Header(kind),
                None,
            ),
            DecodeStep::PayloadViolation { header, kind, source } => (
                InboundViolation::Payload { header, kind },
                header.to_bytes(),
                InboundViolationKind::Payload(kind),
                Some(source),
            ),
        };
        self.process_due_deadlines(now);
        let ghost ready = self@;
        assert(model::deadlines_processed(start, now, ready));
        if self.closing.is_some() {
            return false;
        }
        if self.protocol_errors.len() >= self.protocol_error_capacity {
            self.on_shutdown(GenerationCloseReason::ApplicationBackpressure, None, now);
            return false;
        }
        let header = match raw_header {
            Some(header) => header,
            None => decoded_header,
        };
        let context = MessageContext::from_header(self.generation, header);
        self.protocol_errors.push_back(InboundProtocolError::new(context, kind, source));
        let ghost reported = self@;
        let ghost input = CoreInput::Violation { violation, now };
        let (actions, _) = calls::call_core(
            &mut self.core,
            CoreInput::Violation { violation, now },
        );
        let ghost answered = actions@;
        self.log(Ghost(PortEvent::CoreCalled { input, actions: answered }));
        proof {
            laws::lemma_logged(reported, PortEvent::CoreCalled { input, actions: answered });
        }
        self.apply_actions(actions, None, now);
        proof {
            assert(model::applied(reported.asked(input, answered), false, answered, now, self@));
            assert(model::answered(reported, input, false, now, self@));
        }
        true
    }

    /// Presents the terminal fact of an admitted frame to the core; the frame no
    /// longer holds the transport open. Due deadlines precede a commit.
    pub fn on_write_outcome_at(
        &mut self,
        write_id: WriteId,
        outcome: WriteOutcome,
        occurred_at: MonoTime,
        now: MonoTime,
    )
        requires
            old(self).settled(),
            model::well_formed(old(self)@),
            model::calm(old(self)@),
        ensures
            final(self).settled(),
            final(self).continues(*old(self)),
            outcome_presented(old(self)@, write_id, outcome, occurred_at, now, final(self)@),
            model::well_formed(final(self)@),
            model::advances(old(self)@, final(self)@),
            model::calm(final(self)@),
    {
        let ghost start = self@;
        if matches!(outcome, WriteOutcome::Committed) {
            self.process_due_deadlines(now);
        }
        let ghost ready = self@;
        let ghost input = CoreInput::WriteOutcome { write_id, outcome, occurred_at, now };
        let (actions, _) = calls::call_core(
            &mut self.core,
            CoreInput::WriteOutcome { write_id, outcome, occurred_at, now },
        );
        let ghost answered = actions@;
        self.log(Ghost(PortEvent::CoreCalled { input, actions: answered }));
        proof {
            laws::lemma_logged(ready, PortEvent::CoreCalled { input, actions: answered });
        }
        self.absorb(actions, None, None, now);
        let ghost middle = self@;
        self.admitted_writes.remove(&write_id.value);
        self.satisfy_close_barrier(write_id);
        proof {
            assert(self@ == model::write_settled(middle, write_id));
            laws::lemma_write_settled(middle, write_id);
        }
        self.finish_close_if_ready();
        proof {
            assert(outcome_ready(start, outcome, now, ready));
            assert(model::absorbed(
                ready.asked(input, answered),
                false,
                answered,
                None,
                now,
                middle,
            ));
        }
    }

    /// Stops accepting commands for a graceful close.
    pub fn begin_shutdown_drain(&mut self)
        requires
            model::well_formed(old(self)@),
        ensures
            final(self).untouched(*old(self)),
            final(self)@ == model::draining(old(self)@),
            model::well_formed(final(self)@),
    {
        self.shutdown_draining = true;
    }

    /// Returns whether a graceful drain has nothing left to wait for when the core
    /// owns this many commands and reply capabilities.
    pub fn drained_with(&self, open_commands: usize, reply_capabilities: usize) -> (r: bool)
        ensures
            r == model::drain_complete(self@, open_commands, reply_capabilities),
    {
        proof {
            if self.admitted_writes@.len() == 0 {
                assert(self.admitted_writes@ =~= Map::<u64, WireSequence>::empty());
            }
        }
        self.accepted_commands.len() == 0 && open_commands == 0 && reply_capabilities == 0
            && self.admitted_writes.len() == 0
    }

    /// By what the core answered when it was asked, a graceful drain has something
    /// left to wait for or not.
    pub open spec fn drain_reported(&self, drained: bool) -> bool {
        exists|open_commands: usize, reply_capabilities: usize|
            {
                &&& #[trigger] call_ensures(
                    Core::open_command_count,
                    (&self.core_port(),),
                    open_commands,
                )
                &&& #[trigger] call_ensures(
                    Core::reply_capability_count,
                    (&self.core_port(),),
                    reply_capabilities,
                )
                &&& drained == model::drain_complete(self@, open_commands, reply_capabilities)
            }
    }

    /// Returns whether a graceful drain has nothing left to wait for. The core
    /// counts the commands and reply capabilities that it owns.
    pub fn shutdown_drain_ready(&self) -> (r: bool)
        ensures
            self.drain_reported(r),
    {
        let open_commands = self.core.open_command_count();
        let reply_capabilities = self.core.reply_capability_count();
        assert(call_ensures(Core::open_command_count, (&self.core_port(),), open_commands));
        assert(call_ensures(
            Core::reply_capability_count,
            (&self.core_port(),),
            reply_capabilities,
        ));
        self.drained_with(open_commands, reply_capabilities)
    }

    /// Asks the core what a graceful drain waits for, and returns whether there is
    /// nothing left.
    pub fn ask_drained(&mut self) -> (r: bool)
        requires
            old(self).settled(),
            model::well_formed(old(self)@),
        ensures
            final(self).settled(),
            final(self).continues(*old(self)),
            model::well_formed(final(self)@),
            model::advances(old(self)@, final(self)@),
            drain_asked(old(self)@, r, final(self)@),
    {
        let open_commands = self.core.open_command_count();
        let reply_capabilities = self.core.reply_capability_count();
        let ghost start = self@;
        let ghost event = PortEvent::DrainAsked { open_commands, reply_capabilities };
        self.log(Ghost(event));
        proof {
            laws::lemma_logged(start, event);
            assert(self@ == start.logged(
                PortEvent::DrainAsked { open_commands, reply_capabilities },
            ));
        }
        self.drained_with(open_commands, reply_capabilities)
    }

    /// Ends the session after a graceful drain, under the drain's own reason even
    /// when its last frame cannot be admitted.
    pub fn finish_shutdown_drain(&mut self, reason: GenerationCloseReason, now: MonoTime)
        requires
            old(self).settled(),
            model::well_formed(old(self)@),
            model::calm(old(self)@),
        ensures
            final(self).settled(),
            final(self).continues(*old(self)),
            drain_finished(old(self)@, reason, now, final(self)@),
            model::well_formed(final(self)@),
            model::advances(old(self)@, final(self)@),
            model::calm(final(self)@),
    {
        self.shutdown_draining = true;
        let ghost start = self@;
        let ghost input = CoreInput::FinishDrain { reason, now };
        let (actions, _) = calls::call_core(
            &mut self.core,
            CoreInput::FinishDrain { reason, now },
        );
        let ghost answered = actions@;
        self.log(Ghost(PortEvent::CoreCalled { input, actions: answered }));
        proof {
            laws::lemma_logged(start, PortEvent::CoreCalled { input, actions: answered });
        }
        self.absorb(actions, None, Some(reason), now);
        let ghost middle = self@;
        self.finish_close_if_ready();
        proof {
            assert(model::absorbed(
                start.asked(input, answered),
                false,
                answered,
                Some(reason),
                now,
                middle,
            ));
        }
    }

    /// Finalizes settlement only after Writer exit and draining its outcome FIFO.
    ///
    /// The runtime must prove task termination before calling. Any missing write
    /// outcome becomes conservatively indeterminate; queued work never wrote.
    pub fn on_writer_stopped(&mut self, now: MonoTime)
        requires
            old(self).settled(),
            model::well_formed(old(self)@),
            model::calm(old(self)@),
        ensures
            final(self).settled(),
            final(self).continues(*old(self)),
            writer_finalized(old(self)@, now, final(self)@),
            model::well_formed(final(self)@),
            model::advances(old(self)@, final(self)@),
            model::calm(final(self)@),
            final(self)@.transport_closed,
            final(self)@.queue.len() == 0,
            final(self)@.admitted == Map::<u64, WireSequence>::empty(),
    {
        let ghost start = self@;
        if self.closing.is_none() {
            self.on_shutdown(GenerationCloseReason::RuntimeInvariant, None, now);
        }
        let ghost closed = self@;
        let ghost input = CoreInput::FinalizeWriter { now };
        let (actions, _) = calls::call_core(&mut self.core, CoreInput::FinalizeWriter { now });
        let ghost answered = actions@;
        self.log(Ghost(PortEvent::CoreCalled { input, actions: answered }));
        proof {
            laws::lemma_logged(closed, PortEvent::CoreCalled { input, actions: answered });
        }
        self.absorb(actions, None, None, now);
        let ghost middle = self@;
        self.admitted_writes.clear();
        self.closing = match self.closing {
            Some(state) => Some(ClosingState { reason: state.reason, barrier_write_id: None }),
            None => None,
        };
        proof {
            assert(self@ == model::writer_gone(middle));
            laws::lemma_writer_gone(middle);
        }
        self.finish_close_if_ready();
        let ghost finished = self@;
        self.drain_accepted_commands();
        proof {
            let owned = choose|owned: Seq<bool>|
                owned.len() == finished.pending.len() && self@ == #[trigger] model::drained(
                    model::surveyed(finished, owned),
                    owned,
                );
            let asked = model::surveyed(finished, owned);
            laws::lemma_logged(finished, asked.history.last());
            laws::lemma_drained(asked, owned);
            laws::lemma_advances_trans(finished, asked, self@);
            laws::lemma_finished_keeps_admitted(model::writer_gone(middle), finished);
            assert(closed_first(start, now, closed));
            assert(model::absorbed(
                closed.asked(input, answered),
                false,
                answered,
                None,
                now,
                middle,
            ));
        }
    }

    /// Bounds deliveries by what the application can take.
    pub fn set_delivery_capacity(&mut self, primaries: usize, errors: usize)
        requires
            model::well_formed(old(self)@),
        ensures
            final(self).untouched(*old(self)),
            final(self)@ == (DriverView {
                inbound_capacity: primaries,
                protocol_error_capacity: errors,
                ..old(self)@
            }),
            model::well_formed(final(self)@),
    {
        self.inbound_capacity = primaries;
        self.protocol_error_capacity = errors;
    }

    /// Takes the oldest undelivered protocol error.
    pub fn take_protocol_error(&mut self) -> (r: Option<InboundProtocolError>)
        requires
            model::well_formed(old(self)@),
        ensures
            final(self).untouched(*old(self)),
            model::well_formed(final(self)@),
            old(self)@.protocol_errors.len() == 0 ==> r is None && final(self)@ == old(self)@,
            old(self)@.protocol_errors.len() > 0 ==> {
                &&& r == Some(old(self)@.protocol_errors[0])
                &&& final(self)@ == (DriverView {
                    protocol_errors: old(self)@.protocol_errors.drop_first(),
                    ..old(self)@
                })
            },
    {
        let ghost before = self.protocol_errors@;
        let taken = self.protocol_errors.pop_front();
        proof {
            if before.len() > 0 {
                assert(self.protocol_errors@ =~= before.drop_first());
            }
        }
        taken
    }

    /// Takes the oldest undelivered primary.
    pub fn take_inbound(&mut self) -> (r: Option<InboundPrimary>)
        requires
            model::well_formed(old(self)@),
        ensures
            final(self).untouched(*old(self)),
            model::well_formed(final(self)@),
            old(self)@.inbound.len() == 0 ==> r is None && final(self)@ == old(self)@,
            old(self)@.inbound.len() > 0 ==> {
                &&& r == Some(old(self)@.inbound[0])
                &&& final(self)@ == (DriverView {
                    inbound: old(self)@.inbound.drop_first(),
                    ..old(self)@
                })
            },
    {
        let ghost before = self.inbound@;
        let taken = self.inbound.pop_front();
        proof {
            if before.len() > 0 {
                assert(self.inbound@ =~= before.drop_first());
            }
        }
        taken
    }

    /// Protocol core that the Driver executes.
    pub open spec fn core_port(&self) -> Core {
        self.ports().core
    }

    /// Returns the core's selection state.
    pub fn state(&self) -> (r: Option<SessionState>)
        ensures
            call_ensures(Core::state, (&self.core_port(),), r),
    {
        self.core.state()
    }

    /// Returns the core's next deadline.
    pub fn next_deadline(&self) -> (r: Option<MonoTime>)
        ensures
            call_ensures(Core::next_deadline, (&self.core_port(),), r),
    {
        self.core.next_deadline()
    }

    /// Returns the number of accepted commands.
    pub fn queued_command_count(&self) -> (r: usize)
        ensures
            r == self@.queue.len(),
    {
        self.accepted_commands.len()
    }

    /// Returns the number of commands that the core owns.
    pub fn pending_completion_count(&self) -> (r: usize)
        ensures
            r == self@.pending.len(),
    {
        self.completions.len()
    }

    /// Returns the identity of the next command that enters the core.
    pub fn next_command_id(&self) -> (r: Option<CommandId>)
        ensures
            r == match self@.next_command_id {
                Some(value) => Some(CommandId { value }),
                None => None,
            },
    {
        match self.next_command_id {
            Some(value) => Some(CommandId::new(value)),
            None => None,
        }
    }

    /// Skips command identities up to `next`, which becomes the next one.
    pub fn skip_command_ids(&mut self, next: CommandId)
        requires
            model::well_formed(old(self)@),
            old(self)@.next_command_id is Some,
            old(self)@.next_command_id->0 <= next.value,
        ensures
            final(self).untouched(*old(self)),
            final(self)@ == (DriverView { next_command_id: Some(next.value), ..old(self)@ }),
            model::well_formed(final(self)@),
            model::advances(old(self)@, final(self)@),
    {
        self.next_command_id = Some(next.get());
    }

    /// Returns the bytes charged by the accepted commands.
    pub fn command_bytes(&self) -> (r: usize)
        ensures
            r == self@.command_bytes,
    {
        self.command_bytes
    }

    /// Returns the first close reason.
    pub fn close_reason(&self) -> (r: Option<GenerationCloseReason>)
        ensures
            r == match self@.closing {
                Some(state) => Some(state.reason),
                None => None,
            },
    {
        match self.closing {
            Some(state) => Some(state.reason),
            None => None,
        }
    }

    /// Returns whether the transport was closed.
    pub fn transport_closed(&self) -> (r: bool)
        ensures
            r == self@.transport_closed,
    {
        self.transport_closed
    }

    /// Returns the generation that the Driver executes.
    pub fn generation(&self) -> (r: ConnectionGeneration)
        ensures
            r == self@.generation,
    {
        self.generation
    }

    /// Writer of the Driver.
    pub open spec fn writer_port(&self) -> Writer {
        self.ports().writer
    }

    /// Returns the Writer.
    pub fn writer(&self) -> (r: &Writer)
        ensures
            *r == self.writer_port(),
    {
        &self.writer
    }
}

/// The history is what was done: every entry is a call that was made to the core or
/// a port as the entry before left it, and the last one left them as they are now.
pub proof fn law_history_was_done<Core, Writer, Observer, Completion, Closer>(
    driver: SessionDriver<Core, Writer, Observer, Completion, Closer>,
    i: int,
) where
    Core: SessionCore,
    Writer: WriterIngress,
    Observer: SessionStateObserver,
    Completion: CommandCompletion,
    Closer: TransportCloser,

    requires
        driver.traced(),
        0 <= i < driver@.history.len(),
    ensures
        calls::called(
            driver@.generation,
            driver.passed()[i],
            driver@.history[i],
            driver.passed()[i + 1],
        ),
        i + 1 == driver@.history.len() ==> driver.passed()[i + 1] == driver.ports(),
        driver@.history[i] matches PortEvent::Completed { completion, result } ==> call_ensures(
            Completion::complete,
            (completion, result),
            (),
        ),
{
    assert(calls::entry_called(driver@.generation, driver.passed(), driver@.history, i));
}

/// The closer itself is called at most once in the life of a Driver: an entry that
/// is no close leaves it as it was, and there is a close exactly when the transport
/// is closed.
pub proof fn law_closer_is_called_once<Core, Writer, Observer, Completion, Closer>(
    driver: SessionDriver<Core, Writer, Observer, Completion, Closer>,
) where
    Core: SessionCore,
    Writer: WriterIngress,
    Observer: SessionStateObserver,
    Completion: CommandCompletion,
    Closer: TransportCloser,

    requires
        driver.traced(),
        model::well_formed(driver@),
    ensures
        model::closes(driver@.history) == if driver@.transport_closed {
            1nat
        } else {
            0nat
        },
        forall|i: int|
            0 <= i < driver@.history.len() && !(#[trigger] driver@.history[i] is TransportClosed)
                ==> driver.passed()[i + 1].closer == driver.passed()[i].closer,
        forall|i: int|
            0 <= i < driver@.history.len() && #[trigger] driver@.history[i] is TransportClosed
                ==> exists|closer: &mut Closer| #[trigger]
                call_ensures(
                    calls::close::<Closer>,
                    (closer,),
                    Ghost((driver.passed()[i].closer, driver.passed()[i + 1].closer)),
                ),
{
    assert forall|i: int|
        0 <= i < driver@.history.len() && !(#[trigger] driver@.history[i] is TransportClosed)
        implies driver.passed()[i + 1].closer == driver.passed()[i].closer by {
        assert(calls::entry_called(driver@.generation, driver.passed(), driver@.history, i));
    }
    assert forall|i: int|
        0 <= i < driver@.history.len() && #[trigger] driver@.history[i] is TransportClosed
        implies exists|closer: &mut Closer| #[trigger]
        call_ensures(
            calls::close::<Closer>,
            (closer,),
            Ghost((driver.passed()[i].closer, driver.passed()[i + 1].closer)),
        ) by {
        assert(calls::entry_called(driver@.generation, driver.passed(), driver@.history, i));
    }
}

/// Failure carried by a batch result.
pub open spec fn failure_of(
    result: Result<(), ActionApplicationFailure>,
) -> Option<ActionApplicationFailure> {
    match result {
        Ok(_) => None,
        Err(failure) => Some(failure),
    }
}

/// State of a Driver that has done nothing yet.
pub open spec fn initial<C>(
    generation: ConnectionGeneration,
    owner: u64,
    limits: DriverLimits,
) -> DriverView<C> {
    DriverView {
        generation,
        owner,
        inbound: Seq::empty(),
        inbound_capacity: limits.inbound_capacity,
        protocol_errors: Seq::empty(),
        protocol_error_capacity: limits.protocol_error_capacity,
        queue: Seq::empty(),
        command_capacity: limits.command_capacity,
        command_byte_capacity: limits.command_byte_capacity,
        command_bytes: 0,
        shutdown_draining: false,
        maximum_message_length: limits.maximum_message_length,
        pending: Seq::empty(),
        admitted: Map::empty(),
        next_command_id: Some(0),
        closing: None,
        transport_closed: false,
        history: Seq::empty(),
    }
}

/// A valid message is presented to an open core, possibly followed by one
/// diagnostic.
pub open spec fn message_handled<C>(
    view: DriverView<C>,
    message: ProtocolMessage,
    now: MonoTime,
    r: bool,
    after: DriverView<C>,
) -> bool {
    exists|ready: DriverView<C>|
        {
            &&& #[trigger] model::deadlines_processed(view, now, ready)
            &&& r == ready.closing is None
            &&& !r ==> after == ready
            &&& r ==> exists|middle: DriverView<C>|
                {
                    &&& #[trigger] model::answered(
                        ready,
                        CoreInput::Message { message, now },
                        false,
                        now,
                        middle,
                    )
                    &&& exists|notice: Option<ProtocolNotice>|
                        after == #[trigger] notice_passed_on(middle, notice)
                }
        }
}

/// State after the core was asked for a diagnostic and the one that it gave, if
/// any, was published.
pub open spec fn notice_passed_on<C>(
    view: DriverView<C>,
    notice: Option<ProtocolNotice>,
) -> DriverView<C> {
    let taken = view.logged(PortEvent::NoticeTaken(notice));
    match notice {
        Some(notice) => taken.logged(PortEvent::Noticed(notice)),
        None => taken,
    }
}

/// The core was asked what a graceful drain waits for, and by its answer there is
/// something left or not.
pub open spec fn drain_asked<C>(view: DriverView<C>, drained: bool, after: DriverView<C>) -> bool {
    exists|open_commands: usize, reply_capabilities: usize|
        {
            &&& after == #[trigger] view.logged(
                PortEvent::DrainAsked { open_commands, reply_capabilities },
            )
            &&& drained == model::drain_complete(view, open_commands, reply_capabilities)
        }
}

/// Report of a malformed frame.
pub open spec fn violation_report<C>(
    view: DriverView<C>,
    step: DecodeStep,
    raw_header: Option<[u8; 10]>,
) -> InboundProtocolError {
    let (decoded, kind, source) = match step {
        DecodeStep::HeaderViolation { header, kind } => (
            header,
            InboundViolationKind::Header(kind),
            None,
        ),
        DecodeStep::PayloadViolation { header, kind, source } => (
            header.wire(),
            InboundViolationKind::Payload(kind),
            Some(source),
        ),
        _ => arbitrary(),
    };
    InboundProtocolError {
        context: MessageContext {
            generation: view.generation,
            header: match raw_header {
                Some(header) => header,
                None => decoded,
            },
        },
        kind,
        source,
    }
}

/// Violation that a malformed frame presents to the core.
pub open spec fn violation_of(step: DecodeStep) -> InboundViolation {
    match step {
        DecodeStep::HeaderViolation { header, kind } => InboundViolation::Header { header, kind },
        DecodeStep::PayloadViolation { header, kind, .. } => InboundViolation::Payload {
            header,
            kind,
        },
        _ => arbitrary(),
    }
}

/// A decoded frame is presented to an open core. An incomplete frame is an
/// invariant failure; a malformed one is reported, unless the application does
/// not keep up.
pub open spec fn decode_step_handled<C>(
    view: DriverView<C>,
    step: DecodeStep,
    raw_header: Option<[u8; 10]>,
    now: MonoTime,
    r: bool,
    after: DriverView<C>,
) -> bool {
    match step {
        DecodeStep::Message(message) => message_handled(view, message, now, r, after),
        DecodeStep::NeedMore(_) => !r && exists|ready: DriverView<C>|
            {
                &&& #[trigger] model::deadlines_processed(view, now, ready)
                &&& if ready.closing is Some {
                    after == ready
                } else {
                    model::shut_down(
                        ready,
                        GenerationCloseReason::RuntimeInvariant,
                        None,
                        now,
                        after,
                    )
                }
            },
        _ => exists|ready: DriverView<C>|
            {
                &&& #[trigger] model::deadlines_processed(view, now, ready)
                &&& r == (ready.closing is None && ready.protocol_errors.len()
                    < ready.protocol_error_capacity)
                &&& if ready.closing is Some {
                    after == ready
                } else if ready.protocol_errors.len() >= ready.protocol_error_capacity {
                    model::shut_down(
                        ready,
                        GenerationCloseReason::ApplicationBackpressure,
                        None,
                        now,
                        after,
                    )
                } else {
                    model::answered(
                        DriverView {
                            protocol_errors: ready.protocol_errors.push(
                                violation_report(ready, step, raw_header),
                            ),
                            ..ready
                        },
                        CoreInput::Violation { violation: violation_of(step), now },
                        false,
                        now,
                        after,
                    )
                }
            },
    }
}

/// Due deadlines precede a commit; any other outcome is presented at once.
pub open spec fn outcome_ready<C>(
    view: DriverView<C>,
    outcome: WriteOutcome,
    now: MonoTime,
    ready: DriverView<C>,
) -> bool {
    if outcome == WriteOutcome::Committed {
        model::deadlines_processed(view, now, ready)
    } else {
        ready == view
    }
}

/// An open generation is shut down first.
pub open spec fn closed_first<C>(
    view: DriverView<C>,
    now: MonoTime,
    closed: DriverView<C>,
) -> bool {
    if view.closing is Some {
        closed == view
    } else {
        model::shut_down(view, GenerationCloseReason::RuntimeInvariant, None, now, closed)
    }
}

/// Due deadlines come first; an open Driver then executes its oldest accepted
/// command, if there is one.
pub open spec fn command_driven<C>(
    view: DriverView<C>,
    now: MonoTime,
    r: bool,
    after: DriverView<C>,
) -> bool {
    exists|ready: DriverView<C>|
        {
            &&& #[trigger] model::deadlines_processed(view, now, ready)
            &&& r == (ready.closing is None && ready.queue.len() > 0)
            &&& !r ==> after == ready
            &&& r ==> exists|replies_blocked: bool| #[trigger]
                model::executed(
                    model::dequeued(
                        model::blocking_asked(ready, ready.queue[0], replies_blocked),
                    ),
                    ready.queue[0],
                    replies_blocked,
                    now,
                    after,
                )
        }
}

/// The terminal fact of a frame reaches the core; the frame is no longer
/// outstanding and no longer holds the transport open.
pub open spec fn outcome_presented<C>(
    view: DriverView<C>,
    write_id: WriteId,
    outcome: WriteOutcome,
    occurred_at: MonoTime,
    now: MonoTime,
    after: DriverView<C>,
) -> bool {
    exists|ready: DriverView<C>, actions: Seq<CoreAction>, middle: DriverView<C>|
        {
            &&& #[trigger] outcome_ready(view, outcome, now, ready)
            &&& #[trigger] model::absorbed(
                ready.asked(
                    CoreInput::WriteOutcome { write_id, outcome, occurred_at, now },
                    actions,
                ),
                false,
                actions,
                None,
                now,
                middle,
            )
            &&& model::finished(model::write_settled(middle, write_id), after)
        }
}

/// The core ends a drained session; a batch that fails closes the generation
/// under the drain's own reason.
pub open spec fn drain_finished<C>(
    view: DriverView<C>,
    reason: GenerationCloseReason,
    now: MonoTime,
    after: DriverView<C>,
) -> bool {
    exists|actions: Seq<CoreAction>, middle: DriverView<C>|
        {
            &&& #[trigger] model::absorbed(
                model::draining(view).asked(CoreInput::FinishDrain { reason, now }, actions),
                false,
                actions,
                Some(reason),
                now,
                middle,
            )
            &&& model::finished(middle, after)
        }
}

/// The Writer is gone: the generation is closed, the core settles every write,
/// and whatever the core does not own is given back.
pub open spec fn writer_finalized<C>(
    view: DriverView<C>,
    now: MonoTime,
    after: DriverView<C>,
) -> bool {
    exists|
        closed: DriverView<C>,
        actions: Seq<CoreAction>,
        middle: DriverView<C>,
        finished: DriverView<C>,
    |
        {
            &&& #[trigger] closed_first(view, now, closed)
            &&& #[trigger] model::absorbed(
                closed.asked(CoreInput::FinalizeWriter { now }, actions),
                false,
                actions,
                None,
                now,
                middle,
            )
            &&& #[trigger] model::finished(model::writer_gone(middle), finished)
            &&& model::drains(finished, after)
        }
}

/// Finalizing the Writer keeps every promise and ends with a closed transport.
pub proof fn lemma_writer_finalized<C>(view: DriverView<C>, now: MonoTime, after: DriverView<C>)
    requires
        model::well_formed(view),
        model::calm(view),
        writer_finalized(view, now, after),
    ensures
        model::well_formed(after),
        model::advances(view, after),
        after.transport_closed,
{
    let (closed, actions, middle, finished) = choose|
        closed: DriverView<C>,
        actions: Seq<CoreAction>,
        middle: DriverView<C>,
        finished: DriverView<C>,
    |
        {
            &&& #[trigger] closed_first(view, now, closed)
            &&& #[trigger] model::absorbed(
                closed.asked(CoreInput::FinalizeWriter { now }, actions),
                false,
                actions,
                None,
                now,
                middle,
            )
            &&& #[trigger] model::finished(model::writer_gone(middle), finished)
            &&& model::drains(finished, after)
        };
    if view.closing is None {
        laws::lemma_shut_down(view, GenerationCloseReason::RuntimeInvariant, None, now, closed);
    }
    let input = CoreInput::FinalizeWriter { now };
    laws::lemma_logged(closed, PortEvent::CoreCalled { input, actions });
    laws::lemma_absorbed(closed.asked(input, actions), false, actions, None, now, middle);
    laws::lemma_writer_gone(middle);
    laws::lemma_finished(model::writer_gone(middle), finished);
    let owned = choose|owned: Seq<bool>|
        owned.len() == finished.pending.len() && after == #[trigger] model::drained(
            model::surveyed(finished, owned),
            owned,
        );
    let asked = model::surveyed(finished, owned);
    laws::lemma_logged(finished, asked.history.last());
    laws::lemma_drained(asked, owned);
    laws::lemma_advances_trans(finished, asked, after);
    laws::lemma_advances_trans(view, closed, closed.asked(input, actions));
    laws::lemma_advances_trans(view, closed.asked(input, actions), middle);
    laws::lemma_advances_trans(view, middle, model::writer_gone(middle));
    laws::lemma_advances_trans(view, model::writer_gone(middle), finished);
    laws::lemma_advances_trans(view, finished, after);
}

/// Why a control command is refused.
pub open spec fn control_refusal<C>(view: DriverView<C>) -> Option<ControlAdmissionErrorKind> {
    if view.closing is Some {
        Some(ControlAdmissionErrorKind::Closing)
    } else if view.shutdown_draining {
        Some(ControlAdmissionErrorKind::Draining)
    } else if view.queue.len() >= view.command_capacity {
        Some(ControlAdmissionErrorKind::Full)
    } else {
        None
    }
}

/// Why a primary is refused.
pub open spec fn data_refusal<C>(
    view: DriverView<C>,
    message: PrimaryMessage,
) -> Option<DataAdmissionErrorKind> {
    if view.closing is Some {
        Some(DataAdmissionErrorKind::Closing)
    } else if view.shutdown_draining {
        Some(DataAdmissionErrorKind::Draining)
    } else if view.queue.len() >= view.command_capacity {
        Some(DataAdmissionErrorKind::Full)
    } else {
        match model::charge_of(view, message.body) {
            Ok(_) => None,
            Err(OperationError::Backpressure) => Some(DataAdmissionErrorKind::Full),
            Err(error) => Some(DataAdmissionErrorKind::Invalid(error)),
        }
    }
}

/// Why a reply is refused, given whether the core blocks answers.
pub open spec fn reply_refusal<C>(
    view: DriverView<C>,
    intent: ReplyIntent,
    token: ReplyToken,
    body: Option<SecsItem>,
    blocked: bool,
) -> Option<OperationError> {
    if view.closing is Some {
        Some(OperationError::ConnectionLost)
    } else if intent != ReplyIntent::Abandon && blocked {
        Some(OperationError::Draining)
    } else if !token.spec_belongs_to(view.owner, view.generation) {
        Some(OperationError::ReplyCapabilityUnavailable)
    } else if intent == ReplyIntent::Secondary && !token.normal_secondary {
        Some(OperationError::ReplyRequiresAbort)
    } else if view.queue.len() >= view.command_capacity {
        Some(OperationError::Backpressure)
    } else {
        match model::charge_of(view, body) {
            Ok(_) => None,
            Err(error) => Some(error),
        }
    }
}

/// Outcome of a reply, given whether the core blocks answers.
pub open spec fn reply_accepted<C>(
    view: DriverView<C>,
    intent: ReplyIntent,
    token: ReplyToken,
    body: Option<SecsItem>,
    completion: C,
    blocked: bool,
    r: Result<(), (C, DriverCommandResult)>,
    after: DriverView<C>,
) -> bool {
    match reply_refusal(view, intent, token, body, blocked) {
        Some(error) => {
            &&& r == Err::<(), _>(
                (completion, DriverCommandResult::ReplyRejected { intent, token, body, error }),
            )
            &&& after == view
        },
        None => {
            &&& r is Ok
            &&& after == model::accepted(
                view,
                AcceptedCommandKind::Reply { intent, token, body },
                completion,
                model::charge_of(view, body)->Ok_0,
            )
        },
    }
}

/// Returns the close reason and the frame reported to the core for a failure.
fn failure_report(failure: ActionApplicationFailure) -> (r: (
    GenerationCloseReason,
    Option<WriteId>,
))
    ensures
        r == model::failure_report(failure),
{
    match failure {
        ActionApplicationFailure::InboundFull => (
            GenerationCloseReason::ApplicationBackpressure,
            None,
        ),
        ActionApplicationFailure::ControlWriteAdmission { write_id, error } => (
            match error {
                WriteAdmissionError::Full => GenerationCloseReason::ControlBackpressure,
                WriteAdmissionError::Closed => GenerationCloseReason::TransportLost,
                WriteAdmissionError::Invariant => GenerationCloseReason::RuntimeInvariant,
            },
            Some(write_id),
        ),
        ActionApplicationFailure::ReservedDataAdmission { write_id, error } => (
            match error {
                ReservedDataAdmissionError::Closed => GenerationCloseReason::TransportLost,
                ReservedDataAdmissionError::Invariant => GenerationCloseReason::RuntimeInvariant,
            },
            Some(write_id),
        ),
        ActionApplicationFailure::MissingOrMultipleDataFrame { write_id } => (
            GenerationCloseReason::RuntimeInvariant,
            Some(write_id),
        ),
        ActionApplicationFailure::DataPermitRelease(DataPermitError::Invariant) => (
            GenerationCloseReason::RuntimeInvariant,
            None,
        ),
        ActionApplicationFailure::DuplicateOrUnknownCompletion => (
            GenerationCloseReason::RuntimeInvariant,
            None,
        ),
        ActionApplicationFailure::InvalidCompletionResult => (
            GenerationCloseReason::RuntimeInvariant,
            None,
        ),
    }
}

proof fn lemma_charges_non_negative<C>(queue: Seq<AcceptedCommand<C>>)
    ensures
        model::charges(queue) >= 0,
    decreases queue.len(),
{
    if queue.len() != 0 {
        lemma_charges_non_negative(queue.drop_first());
    }
}

proof fn lemma_charges_push<C>(queue: Seq<AcceptedCommand<C>>, command: AcceptedCommand<C>)
    ensures
        model::charges(queue.push(command)) == model::charges(queue) + command.byte_charge,
    decreases queue.len(),
{
    reveal_with_fuel(model::charges, 2);
    if queue.len() == 0 {
        assert(queue.push(command).drop_first() =~= queue);
    } else {
        lemma_charges_push(queue.drop_first(), command);
        assert(queue.push(command).drop_first() =~= queue.drop_first().push(command));
    }
}

} // verus!
