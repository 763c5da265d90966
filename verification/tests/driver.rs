//! Ordered Driver execution against scripted ports: admission, permits, typed
//! completions, write barriers, byte budgets, replies and shutdown.

use hsms::api::{
    ControlIntent, InboundToken, MessageContext, PrimaryMessage, ReplyIntent, ReplyToken,
    SecondaryMessage, SendReceipt,
};
use hsms::error::{NonZeroStatus, OperationError, ProtocolError, TimeoutKind};
use hsms::generation::driver::command::{
    ControlAdmissionErrorKind, CoreCommandKind, DataAdmissionErrorKind, DriverCommandResult,
};
use hsms::generation::driver::driver::{DriverLimits, SessionDriver};
use hsms::generation::driver::ports::{
    CommandCompletion, CoreAction, CoreActions, CoreCommandResult, ProtocolNotice, SessionCore,
    SessionStateObserver, TransportCloser,
};
use hsms::generation::transport::writer::{
    DataPermitError, DataReserveError, OutboundFrame, ReservedDataAdmissionError,
    WriteAdmissionError, WriterIngress,
};
use hsms::lifecycle::state::SessionState;
use hsms::model::ids::{
    CommandId, ConnectionGeneration, Function, SessionId, Stream, SystemBytes, WireSequence,
    WriteId,
};
use hsms::model::runtime::{
    CloseBarrier, CommunicationsTimeoutKind, GenerationCloseReason, MonoTime, TransportFault,
    TransportFaultKind, WriteOutcome,
};
use hsms::protocol::header::DataHeader;
use hsms::protocol::message::{ControlMessage, DataMessage, ProtocolMessage};
use hsms::protocol::violation::{
    DecodeStep, FrameReadProgress, HeaderViolationKind, InboundViolation, InboundViolationKind,
    PayloadViolationKind,
};
use hsms::secs2::{SecsItem, SecsItemError};
use hsms::session_core::transaction::matcher::{MatcherDecision, ResponseMatcher};
use std::cell::{Cell, RefCell};
use std::collections::{BTreeMap, BTreeSet, VecDeque};
use std::rc::Rc;
use std::sync::mpsc::{self, Receiver, Sender};

const SECOND: u128 = 1_000_000_000;

fn seconds(value: u128) -> MonoTime {
    MonoTime::from_nanos(value * SECOND)
}

fn binary(data: &[u8]) -> SecsItem {
    let mut encoded = vec![0x21, data.len() as u8];
    encoded.extend_from_slice(data);
    SecsItem::new(encoded)
}

fn unsigned(data: &[u8]) -> SecsItem {
    let mut encoded = vec![0xa5, data.len() as u8];
    encoded.extend_from_slice(data);
    SecsItem::new(encoded)
}

fn empty_list() -> SecsItem {
    SecsItem::new(vec![0x01, 0])
}

#[derive(Clone, Debug, PartialEq)]
enum TraceEvent {
    ReplyRejected {
        label: &'static str,
        intent: ReplyIntent,
        error: OperationError,
    },
    DataPermitReserved {
        reservation_id: u64,
    },
    DataPermitRejected {
        error: DataReserveError,
    },
    DataPermitConsumed {
        reservation_id: u64,
        write_id: WriteId,
    },
    DataPermitReleased {
        reservation_id: u64,
    },
    WriterAdmitted {
        write_id: WriteId,
        sequence: WireSequence,
        message: ProtocolMessage,
    },
    WriterRejected {
        write_id: WriteId,
        error: WriteAdmissionError,
    },
    ReservedDataRejected {
        write_id: WriteId,
        error: ReservedDataAdmissionError,
    },
    WriterOutcome {
        write_id: WriteId,
        outcome: WriteOutcome,
    },
    InvalidWriterOutcomeInjected {
        write_id: WriteId,
        outcome: WriteOutcome,
    },
    RejectReceived {
        session_id: u16,
        header_byte_2: u8,
        reason: NonZeroStatus,
        system_bytes: SystemBytes,
    },
    NonstandardSeparateReceived {
        session_id: u16,
        system_bytes: SystemBytes,
    },
    StateObserved(SessionState),
    CommandCompleted {
        label: &'static str,
        result: Result<(), OperationError>,
    },
    SendCommandCompleted {
        label: &'static str,
        result: Result<SendReceipt, OperationError>,
    },
    RequestCommandCompleted {
        label: &'static str,
        result: Result<SecondaryMessage, OperationError>,
    },
    TransportClosed,
}

#[derive(Clone, Debug, Default)]
struct SharedTrace {
    events: Rc<RefCell<Vec<TraceEvent>>>,
}

impl SharedTrace {
    fn push(&self, event: TraceEvent) {
        self.events.borrow_mut().push(event);
    }

    fn events(&self) -> Vec<TraceEvent> {
        self.events.borrow().clone()
    }

    fn clear(&self) {
        self.events.borrow_mut().clear();
    }
}

#[derive(Clone, Debug, PartialEq)]
struct AdmittedFrame {
    write_id: WriteId,
    sequence: WireSequence,
    message: ProtocolMessage,
}

struct FakeDataPermit {
    reservation_id: u64,
}

/// Writer with scripted failures. Failures and outcomes are set from outside.
struct FakeWriter {
    next_sequence: u64,
    next_reservation_id: u64,
    control_capacity: Cell<usize>,
    data_capacity: Cell<usize>,
    open_reservations: BTreeSet<u64>,
    admitted: Vec<AdmittedFrame>,
    control_failures: RefCell<VecDeque<WriteAdmissionError>>,
    reserve_failures: RefCell<VecDeque<DataReserveError>>,
    reserved_failures: RefCell<VecDeque<ReservedDataAdmissionError>>,
    outcomes: RefCell<BTreeSet<u64>>,
    trace: SharedTrace,
}

#[derive(Clone, Copy, Debug, PartialEq, Eq)]
enum FakeWriterOutcomeError {
    NotAdmitted,
    Duplicate,
}

impl FakeWriter {
    fn with_capacities(trace: SharedTrace, control: usize, data: usize) -> Self {
        Self {
            next_sequence: 0,
            next_reservation_id: 0,
            control_capacity: Cell::new(control),
            data_capacity: Cell::new(data),
            open_reservations: BTreeSet::new(),
            admitted: Vec::new(),
            control_failures: RefCell::new(VecDeque::new()),
            reserve_failures: RefCell::new(VecDeque::new()),
            reserved_failures: RefCell::new(VecDeque::new()),
            outcomes: RefCell::new(BTreeSet::new()),
            trace,
        }
    }

    fn fail_next_with(&self, error: WriteAdmissionError) {
        self.control_failures.borrow_mut().push_back(error);
    }

    fn fail_next_data_reserve_with(&self, error: DataReserveError) {
        self.reserve_failures.borrow_mut().push_back(error);
    }

    fn fail_next_reserved_data_with(&self, error: ReservedDataAdmissionError) {
        self.reserved_failures.borrow_mut().push_back(error);
    }

    fn admitted(&self) -> &[AdmittedFrame] {
        &self.admitted
    }

    fn emit_outcome(
        &self,
        write_id: WriteId,
        outcome: WriteOutcome,
    ) -> Result<(), FakeWriterOutcomeError> {
        let Some(frame) = self.admitted.iter().find(|frame| frame.write_id == write_id) else {
            return Err(FakeWriterOutcomeError::NotAdmitted);
        };
        if !self.outcomes.borrow_mut().insert(write_id.get()) {
            return Err(FakeWriterOutcomeError::Duplicate);
        }
        match frame.message {
            ProtocolMessage::Control(_) => {
                self.control_capacity.set(self.control_capacity.get() + 1)
            }
            ProtocolMessage::Data(_) => self.data_capacity.set(self.data_capacity.get() + 1),
        }
        self.trace
            .push(TraceEvent::WriterOutcome { write_id, outcome });
        Ok(())
    }

    fn take_in(&mut self, frame: OutboundFrame) -> WireSequence {
        let sequence = WireSequence::new(self.next_sequence);
        self.next_sequence += 1;
        let (write_id, message) = frame.into_parts();
        self.trace.push(TraceEvent::WriterAdmitted {
            write_id,
            sequence,
            message: message.clone(),
        });
        self.admitted.push(AdmittedFrame {
            write_id,
            sequence,
            message,
        });
        sequence
    }
}

impl WriterIngress for FakeWriter {
    type DataPermit = FakeDataPermit;

    fn try_reserve_data(&mut self) -> Result<FakeDataPermit, DataReserveError> {
        let scripted = self.reserve_failures.borrow_mut().pop_front();
        let failure = match scripted {
            Some(error) => Some(error),
            None if self.data_capacity.get() == 0 => Some(DataReserveError::Full),
            None => None,
        };
        if let Some(error) = failure {
            self.trace.push(TraceEvent::DataPermitRejected { error });
            return Err(error);
        }
        let reservation_id = self.next_reservation_id;
        self.next_reservation_id += 1;
        self.data_capacity.set(self.data_capacity.get() - 1);
        assert!(self.open_reservations.insert(reservation_id));
        self.trace
            .push(TraceEvent::DataPermitReserved { reservation_id });
        Ok(FakeDataPermit { reservation_id })
    }

    fn release_data(&mut self, permit: FakeDataPermit) -> Result<(), DataPermitError> {
        if !self.open_reservations.remove(&permit.reservation_id) {
            return Err(DataPermitError::Invariant);
        }
        self.data_capacity.set(self.data_capacity.get() + 1);
        self.trace.push(TraceEvent::DataPermitReleased {
            reservation_id: permit.reservation_id,
        });
        Ok(())
    }

    fn admit_reserved_data(
        &mut self,
        permit: FakeDataPermit,
        frame: OutboundFrame,
    ) -> Result<WireSequence, ReservedDataAdmissionError> {
        if !self.open_reservations.remove(&permit.reservation_id) {
            return Err(ReservedDataAdmissionError::Invariant);
        }
        if let Some(error) = self.reserved_failures.borrow_mut().pop_front() {
            self.data_capacity.set(self.data_capacity.get() + 1);
            self.trace.push(TraceEvent::ReservedDataRejected {
                write_id: frame.write_id(),
                error,
            });
            return Err(error);
        }
        self.trace.push(TraceEvent::DataPermitConsumed {
            reservation_id: permit.reservation_id,
            write_id: frame.write_id(),
        });
        Ok(self.take_in(frame))
    }

    fn try_admit(&mut self, frame: OutboundFrame) -> Result<WireSequence, WriteAdmissionError> {
        let scripted = self.control_failures.borrow_mut().pop_front();
        let failure = match scripted {
            Some(error) => Some(error),
            None if self.control_capacity.get() == 0 => Some(WriteAdmissionError::Full),
            None => None,
        };
        if let Some(error) = failure {
            self.trace.push(TraceEvent::WriterRejected {
                write_id: frame.write_id(),
                error,
            });
            return Err(error);
        }
        self.control_capacity.set(self.control_capacity.get() - 1);
        Ok(self.take_in(frame))
    }
}

#[derive(Clone, Copy, Debug, PartialEq)]
enum Role {
    Control,
    Response,
    Separate(CommandId),
    Send(Option<CommandId>),
    Request,
}

struct LiveRequest {
    command: CommandId,
    header: DataHeader,
    write: WriteId,
    deadline: Option<u128>,
    settled: bool,
    ended: Option<OperationError>,
}

struct LiveControl {
    command: CommandId,
    kind: ControlIntent,
    system_bytes: u32,
    write: WriteId,
    deadline: Option<u128>,
}

/// A small deterministic protocol core over session identity 7: selection,
/// linktest, separate, primaries with T3, and reply capabilities.
struct CoreState {
    state: Option<SessionState>,
    last: u128,
    next_write: Option<u64>,
    next_system_bytes: Option<u32>,
    control: Option<LiveControl>,
    roles: BTreeMap<u64, Role>,
    requests: Vec<LiveRequest>,
    capabilities: BTreeMap<u64, DataHeader>,
    next_capability: u64,
    transaction_capacity: usize,
    tombstones: VecDeque<u32>,
    tombstone_capacity: usize,
    closing: bool,
    idle_check: Option<u128>,
    hold_command: bool,
    injected: Option<Vec<CoreAction>>,
    notice: Option<ProtocolNotice>,
}

#[derive(Clone)]
struct FakeCore {
    inner: Rc<RefCell<CoreState>>,
}

impl FakeCore {
    fn new(transaction_capacity: usize, tombstone_capacity: usize) -> Self {
        Self {
            inner: Rc::new(RefCell::new(CoreState {
                state: None,
                last: 0,
                next_write: Some(0),
                next_system_bytes: Some(0),
                control: None,
                roles: BTreeMap::new(),
                requests: Vec::new(),
                capabilities: BTreeMap::new(),
                next_capability: 0,
                transaction_capacity,
                tombstones: VecDeque::new(),
                tombstone_capacity,
                closing: false,
                idle_check: None,
                hold_command: false,
                injected: None,
                notice: None,
            })),
        }
    }

    fn seed_identifiers(&self, write: Option<u64>, system_bytes: Option<u32>) {
        let mut core = self.inner.borrow_mut();
        core.next_write = write;
        core.next_system_bytes = system_bytes;
    }

    fn inject(&self, actions: Vec<CoreAction>) {
        self.inner.borrow_mut().injected = Some(actions);
    }

    /// Keeps the next command's actions back until the core's next turn.
    fn hold_next_command(&self) {
        self.inner.borrow_mut().hold_command = true;
    }

    fn append_held(&self, action: CoreAction) {
        let mut core = self.inner.borrow_mut();
        core.injected.get_or_insert_with(Vec::new).push(action);
    }

    fn capability_count(&self) -> usize {
        self.inner.borrow().capabilities.len()
    }

    fn pending_data_transaction_count(&self) -> usize {
        self.inner.borrow().live_requests()
    }

    fn tombstone_count(&self) -> usize {
        self.inner.borrow().tombstones.len()
    }

    fn pending_write_count(&self) -> usize {
        self.inner.borrow().roles.len()
    }

    fn open_core_command_count(&self) -> usize {
        self.inner.borrow().open_commands()
    }
}

fn close(reason: GenerationCloseReason) -> CoreAction {
    CoreAction::CloseGeneration {
        reason,
        barrier: CloseBarrier::Immediate,
    }
}

fn complete(command_id: CommandId, result: CoreCommandResult) -> CoreAction {
    CoreAction::CompleteCommand { command_id, result }
}

impl CoreState {
    fn open_commands(&self) -> usize {
        let writes = self
            .roles
            .values()
            .filter(|role| matches!(role, Role::Separate(_) | Role::Send(Some(_))))
            .count();
        writes + self.live_requests() + usize::from(self.control.is_some())
    }

    fn live_requests(&self) -> usize {
        self.requests.iter().filter(|request| !request.settled).count()
    }

    fn frame(&mut self, role: Role, message: ProtocolMessage) -> (WriteId, CoreAction) {
        let value = self.next_write.expect("write identity available");
        self.next_write = value.checked_add(1);
        let write_id = WriteId::new(value);
        self.roles.insert(value, role);
        (write_id, CoreAction::SendFrame { write_id, message })
    }

    fn system_bytes(&mut self) -> Option<u32> {
        let value = self.next_system_bytes?;
        self.next_system_bytes = value.checked_add(1);
        Some(value)
    }

    fn entomb(&mut self, system_bytes: u32) {
        if self.tombstones.len() == self.tombstone_capacity {
            self.tombstones.pop_front();
        }
        self.tombstones.push_back(system_bytes);
    }

    fn data(
        &mut self,
        command: CommandId,
        message: PrimaryMessage,
        reply_expected: bool,
    ) -> Vec<CoreAction> {
        let refuse = |error: OperationError| {
            vec![complete(
                command,
                if reply_expected {
                    CoreCommandResult::Request(Err(error))
                } else {
                    CoreCommandResult::Send(Err(error))
                },
            )]
        };
        match self.state {
            None => return refuse(OperationError::NotConnected),
            Some(SessionState::Selected) => {}
            Some(_) => return refuse(OperationError::NotSelected),
        }
        if message.function.get() % 2 == 0 {
            return refuse(OperationError::Protocol(
                ProtocolError::InvalidPrimaryFunction {
                    function: message.function,
                },
            ));
        }
        if reply_expected && self.live_requests() >= self.transaction_capacity {
            return refuse(OperationError::Backpressure);
        }
        if self.next_write.is_none() {
            let mut actions = refuse(OperationError::ConnectionLost);
            actions.push(close(GenerationCloseReason::RuntimeInvariant));
            return actions;
        }
        let Some(system_bytes) = self.system_bytes() else {
            let mut actions = refuse(OperationError::ConnectionLost);
            actions.push(close(GenerationCloseReason::SystemBytesExhausted));
            return actions;
        };
        let header = DataHeader::new(
            SessionId::new(7).unwrap(),
            message.stream,
            message.function,
            reply_expected,
            SystemBytes::new(system_bytes),
        );
        let role = if reply_expected {
            Role::Request
        } else {
            Role::Send(Some(command))
        };
        let (write, action) = self.frame(
            role,
            ProtocolMessage::Data(DataMessage::new(header, message.body)),
        );
        if reply_expected {
            self.requests.push(LiveRequest {
                command,
                header,
                write,
                deadline: None,
                settled: false,
                ended: None,
            });
        }
        vec![action]
    }

    fn control_command(&mut self, command: CommandId, kind: ControlIntent) -> Vec<CoreAction> {
        let system_bytes = SystemBytes::new(self.system_bytes().expect("control System Bytes"));
        let message = match kind {
            ControlIntent::Select => ControlMessage::SelectRequest {
                session_id: u16::MAX,
                system_bytes,
            },
            ControlIntent::Deselect => ControlMessage::DeselectRequest {
                session_id: u16::MAX,
                system_bytes,
            },
            ControlIntent::Linktest => ControlMessage::LinktestRequest { system_bytes },
            ControlIntent::Separate => ControlMessage::SeparateRequest {
                session_id: u16::MAX,
                system_bytes,
            },
        };
        if kind == ControlIntent::Separate {
            let mut actions = Vec::new();
            if let Some(old) = self.control.take() {
                actions.push(complete(
                    old.command,
                    CoreCommandResult::Control(Err(OperationError::Protocol(
                        ProtocolError::TransactionAborted,
                    ))),
                ));
            }
            let (write, action) =
                self.frame(Role::Separate(command), ProtocolMessage::Control(message));
            actions.push(action);
            actions.push(CoreAction::CloseGeneration {
                reason: GenerationCloseReason::LocalSeparate,
                barrier: CloseBarrier::AfterWrite(write),
            });
            return actions;
        }
        let (write, action) = self.frame(Role::Control, ProtocolMessage::Control(message));
        self.control = Some(LiveControl {
            command,
            kind,
            system_bytes: system_bytes.get(),
            write,
            deadline: None,
        });
        vec![action]
    }

    fn inbound(&mut self, message: DataMessage) -> Vec<CoreAction> {
        let header = message.header();
        if header.function().get() % 2 == 1 {
            let capability = if header.reply_expected() {
                let value = self.next_capability;
                self.next_capability += 1;
                self.capabilities.insert(value, header);
                Some(value)
            } else {
                None
            };
            return vec![CoreAction::DeliverPrimary {
                message,
                capability,
            }];
        }
        let has_text = message.body().is_some();
        let found = self.requests.iter().position(|request| {
            let primary = request.header;
            if primary.function().get() == 255 {
                return !request.settled
                    && header.function().get() == 0
                    && !has_text
                    && header.system_bytes() == primary.system_bytes();
            }
            let matcher = ResponseMatcher::compile(
                primary.system_bytes(),
                primary.session_id(),
                primary.stream(),
                primary.function(),
            )
            .unwrap();
            !request.settled
                && !matches!(
                    matcher.classify(header, has_text),
                    MatcherDecision::Mismatch { .. }
                )
        });
        let Some(index) = found else {
            return Vec::new();
        };
        let command = self.requests[index].command;
        self.requests[index].settled = true;
        let write = self.requests[index].write;
        if !self.roles.contains_key(&write.get()) {
            self.requests.remove(index);
        }
        self.entomb(header.system_bytes().get());
        let result = if header.function().get() == 0 {
            Err(OperationError::Protocol(ProtocolError::TransactionAborted))
        } else {
            Ok(message)
        };
        vec![complete(command, CoreCommandResult::Request(result))]
    }

    fn end_requests(&mut self, error: OperationError) -> Vec<CoreAction> {
        let mut actions = Vec::new();
        let roles = &self.roles;
        for request in &mut self.requests {
            if request.settled {
                continue;
            }
            if roles.contains_key(&request.write.get()) {
                request.ended.get_or_insert(error.clone());
            } else {
                request.settled = true;
                actions.push(complete(
                    request.command,
                    CoreCommandResult::Request(Err(error.clone())),
                ));
            }
        }
        actions
    }

    fn settle_request(
        &mut self,
        write: WriteId,
        outcome: WriteOutcome,
        occurred_at: MonoTime,
        now: MonoTime,
    ) -> Vec<CoreAction> {
        let closing = self.closing;
        let index = self
            .requests
            .iter()
            .position(|request| request.write == write)
            .expect("request of an outstanding write");
        let request = &mut self.requests[index];
        let mut actions = Vec::new();
        let fault = match outcome {
            WriteOutcome::Committed => None,
            WriteOutcome::NotWritten(_) => Some(OperationError::ConnectionLost),
            WriteOutcome::Indeterminate(_) => Some(OperationError::DeliveryIndeterminate),
        };
        let result = match (&fault, &request.ended) {
            (Some(error), _) => Some(error.clone()),
            (None, Some(error)) => Some(error.clone()),
            (None, None) => None,
        };
        if !request.settled {
            match result {
                Some(error) => {
                    request.settled = true;
                    actions.push(complete(
                        request.command,
                        CoreCommandResult::Request(Err(error)),
                    ));
                }
                None => {
                    let deadline = occurred_at.nanos + 45 * SECOND;
                    if deadline <= now.nanos {
                        request.settled = true;
                        actions.push(complete(
                            request.command,
                            CoreCommandResult::RequestTimedOut(request.header),
                        ));
                    } else {
                        request.deadline = Some(deadline);
                    }
                }
            }
        }
        if fault.is_some() && !closing {
            actions.push(close(GenerationCloseReason::TransportLost));
        }
        if self.requests[index].settled {
            self.requests.remove(index);
        }
        actions
    }
}

impl SessionCore for FakeCore {
    fn on_connected(&mut self, now: MonoTime) -> CoreActions {
        let mut core = self.inner.borrow_mut();
        core.last = now.nanos;
        if core.state.is_some() {
            return VecDeque::from(vec![close(GenerationCloseReason::RuntimeInvariant)]);
        }
        core.state = Some(SessionState::NotSelected);
        VecDeque::from(vec![CoreAction::SessionStateChanged(
            SessionState::NotSelected,
        )])
    }

    fn on_command(
        &mut self,
        command_id: CommandId,
        kind: CoreCommandKind,
        _now: MonoTime,
    ) -> CoreActions {
        let mut core = self.inner.borrow_mut();
        let mut actions = match kind {
            CoreCommandKind::Select => core.control_command(command_id, ControlIntent::Select),
            CoreCommandKind::Deselect => core.control_command(command_id, ControlIntent::Deselect),
            CoreCommandKind::Linktest => core.control_command(command_id, ControlIntent::Linktest),
            CoreCommandKind::Separate => core.control_command(command_id, ControlIntent::Separate),
            CoreCommandKind::Send(message) => core.data(command_id, message, false),
            CoreCommandKind::Request(message) => core.data(command_id, message, true),
        };
        if core.hold_command {
            core.hold_command = false;
            core.injected = Some(actions);
            return VecDeque::new();
        }
        if let Some(mut held) = core.injected.take() {
            held.extend(actions);
            actions = held;
        }
        VecDeque::from(actions)
    }

    fn on_reply(
        &mut self,
        command_id: CommandId,
        capability: u64,
        intent: ReplyIntent,
        body: Option<SecsItem>,
        _now: MonoTime,
    ) -> CoreActions {
        let mut core = self.inner.borrow_mut();
        let Some(header) = core.capabilities.remove(&capability) else {
            return VecDeque::from(vec![complete(
                command_id,
                CoreCommandResult::Send(Err(OperationError::ReplyCapabilityUnavailable)),
            )]);
        };
        let (function, body) = match intent {
            ReplyIntent::Abandon => {
                return VecDeque::from(vec![complete(
                    command_id,
                    CoreCommandResult::Control(Ok(())),
                )]);
            }
            ReplyIntent::Secondary => (header.function().get() + 1, body),
            ReplyIntent::Abort => (0, None),
        };
        let reply = DataHeader::new(
            header.session_id(),
            header.stream(),
            Function::new(function),
            false,
            header.system_bytes(),
        );
        let (_, action) = core.frame(
            Role::Send(Some(command_id)),
            ProtocolMessage::Data(DataMessage::new(reply, body)),
        );
        VecDeque::from(vec![action])
    }

    fn on_message(&mut self, message: ProtocolMessage, now: MonoTime) -> CoreActions {
        let mut core = self.inner.borrow_mut();
        let message = match message {
            ProtocolMessage::Data(message) => return VecDeque::from(core.inbound(message)),
            ProtocolMessage::Control(message) => message,
        };
        let actions = match message {
            ControlMessage::SelectRequest {
                session_id,
                system_bytes,
            } => {
                core.state = Some(SessionState::Selected);
                core.idle_check = Some(now.nanos + 30 * SECOND);
                let (_, action) = core.frame(
                    Role::Response,
                    ProtocolMessage::Control(ControlMessage::SelectResponse {
                        session_id,
                        status: 0,
                        system_bytes,
                    }),
                );
                vec![
                    action,
                    CoreAction::SessionStateChanged(SessionState::Selected),
                ]
            }
            ControlMessage::SelectResponse { system_bytes, .. } => {
                let control = core.control.take().expect("pending Select");
                assert_eq!(control.kind, ControlIntent::Select);
                assert_eq!(control.system_bytes, system_bytes.get());
                core.state = Some(SessionState::Selected);
                core.idle_check = Some(now.nanos + 30 * SECOND);
                vec![
                    CoreAction::SessionStateChanged(SessionState::Selected),
                    complete(control.command, CoreCommandResult::Control(Ok(()))),
                ]
            }
            ControlMessage::DeselectResponse { status, .. } => {
                let control = core.control.take().expect("pending Deselect");
                let result = match NonZeroStatus::new(status) {
                    Some(status) => Err(OperationError::DeselectRejected { status }),
                    None => Ok(()),
                };
                vec![complete(control.command, CoreCommandResult::Control(result))]
            }
            ControlMessage::LinktestRequest { system_bytes } => {
                let (_, action) = core.frame(
                    Role::Response,
                    ProtocolMessage::Control(ControlMessage::LinktestResponse { system_bytes }),
                );
                vec![action]
            }
            ControlMessage::RejectRequest {
                system_bytes,
                reason,
                ..
            } => {
                core.notice = Some(ProtocolNotice::RejectReceived {
                    reason: reason.get(),
                });
                let sent = core.next_system_bytes.unwrap_or(0);
                let mut actions = Vec::new();
                if system_bytes.get() < sent {
                    for role in core.roles.values_mut() {
                        if let Role::Send(command) = role {
                            if let Some(command) = command.take() {
                                actions.push(complete(
                                    command,
                                    CoreCommandResult::Send(Err(OperationError::PeerRejected {
                                        reason,
                                    })),
                                ));
                            }
                        }
                    }
                }
                actions
            }
            ControlMessage::SeparateRequest { .. } => {
                core.state = Some(SessionState::NotSelected);
                core.closing = true;
                let mut actions = vec![CoreAction::SessionStateChanged(SessionState::NotSelected)];
                actions.extend(core.end_requests(OperationError::SessionDeselected));
                actions.push(close(GenerationCloseReason::SeparateReceived));
                actions
            }
            _ => Vec::new(),
        };
        VecDeque::from(actions)
    }

    fn on_inbound_violation(&mut self, violation: InboundViolation, _now: MonoTime) -> CoreActions {
        let mut core = self.inner.borrow_mut();
        let InboundViolation::Header { header, kind } = violation else {
            return VecDeque::new();
        };
        let (header_byte_2, reason) = match kind {
            HeaderViolationKind::UnknownSessionType { s_type } => (s_type, 1),
            HeaderViolationKind::UnknownPresentationType { p_type } => (p_type, 2),
            HeaderViolationKind::InvalidField { .. } => return VecDeque::new(),
        };
        let (_, action) = core.frame(
            Role::Response,
            ProtocolMessage::Control(ControlMessage::RejectRequest {
                session_id: u16::from_be_bytes([header[0], header[1]]),
                header_byte_2,
                reason: NonZeroStatus::new(reason).unwrap(),
                system_bytes: SystemBytes::new(u32::from_be_bytes([
                    header[6], header[7], header[8], header[9],
                ])),
            }),
        );
        VecDeque::from(vec![action])
    }

    fn on_write_outcome_at(
        &mut self,
        write_id: WriteId,
        outcome: WriteOutcome,
        occurred_at: MonoTime,
        now: MonoTime,
    ) -> CoreActions {
        let mut core = self.inner.borrow_mut();
        let Some(role) = core.roles.remove(&write_id.get()) else {
            core.closing = true;
            let mut actions = vec![close(GenerationCloseReason::RuntimeInvariant)];
            if let Some(control) = core.control.take() {
                actions.push(complete(
                    control.command,
                    CoreCommandResult::Control(Err(OperationError::ConnectionLost)),
                ));
            }
            actions.extend(core.end_requests(OperationError::ConnectionLost));
            return VecDeque::from(actions);
        };
        let failure = match outcome {
            WriteOutcome::Committed => None,
            WriteOutcome::NotWritten(_) => Some(OperationError::ConnectionLost),
            WriteOutcome::Indeterminate(_) => Some(OperationError::DeliveryIndeterminate),
        };
        let mut actions = Vec::new();
        match role {
            Role::Request => {
                return VecDeque::from(core.settle_request(write_id, outcome, occurred_at, now));
            }
            Role::Separate(command) => actions.push(complete(
                command,
                CoreCommandResult::Control(match failure {
                    None => Ok(()),
                    Some(error) => Err(error),
                }),
            )),
            Role::Send(command) => {
                if let Some(command) = command {
                    actions.push(complete(
                        command,
                        CoreCommandResult::Send(match &failure {
                            None => Ok(write_id),
                            Some(error) => Err(error.clone()),
                        }),
                    ));
                }
                if failure.is_some() {
                    actions.push(close(GenerationCloseReason::TransportLost));
                }
            }
            Role::Response => {
                if failure.is_some() {
                    actions.push(close(GenerationCloseReason::TransportLost));
                }
            }
            Role::Control => match failure {
                None => {
                    if let Some(control) = &mut core.control {
                        if control.write == write_id {
                            control.deadline = Some(occurred_at.nanos + 5 * SECOND);
                        }
                    }
                }
                Some(error) => {
                    if let Some(control) = core.control.take() {
                        actions.push(complete(
                            control.command,
                            CoreCommandResult::Control(Err(error)),
                        ));
                    }
                    actions.push(close(GenerationCloseReason::TransportLost));
                }
            },
        }
        VecDeque::from(actions)
    }

    fn on_shutdown(
        &mut self,
        reason: GenerationCloseReason,
        failed_write_id: Option<WriteId>,
        _now: MonoTime,
    ) -> CoreActions {
        let mut core = self.inner.borrow_mut();
        core.closing = true;
        core.capabilities.clear();
        let refused = if reason == GenerationCloseReason::ControlBackpressure {
            OperationError::Backpressure
        } else {
            OperationError::ConnectionLost
        };
        let mut actions = Vec::new();
        if let Some(write_id) = failed_write_id {
            match core.roles.remove(&write_id.get()) {
                None => actions.push(close(GenerationCloseReason::RuntimeInvariant)),
                Some(Role::Control) => {
                    let control = core.control.take().expect("failed control request");
                    actions.push(complete(
                        control.command,
                        CoreCommandResult::Control(Err(refused)),
                    ));
                }
                Some(Role::Separate(command)) => actions.push(complete(
                    command,
                    CoreCommandResult::Control(Err(refused)),
                )),
                Some(Role::Send(Some(command))) => actions.push(complete(
                    command,
                    CoreCommandResult::Send(Err(OperationError::ConnectionLost)),
                )),
                Some(_) => {}
            }
        }
        if let Some(control) = core.control.take() {
            actions.push(complete(
                control.command,
                CoreCommandResult::Control(Err(OperationError::ConnectionLost)),
            ));
        }
        for role in core.roles.values_mut() {
            if let Role::Separate(command) = role {
                actions.push(complete(
                    *command,
                    CoreCommandResult::Control(Err(OperationError::ConnectionLost)),
                ));
                *role = Role::Response;
            }
        }
        actions.extend(core.end_requests(OperationError::ConnectionLost));
        VecDeque::from(actions)
    }

    fn finish_shutdown_drain(
        &mut self,
        reason: GenerationCloseReason,
        _now: MonoTime,
    ) -> CoreActions {
        let mut core = self.inner.borrow_mut();
        let system_bytes = SystemBytes::new(core.system_bytes().unwrap());
        let (write, action) = core.frame(
            Role::Response,
            ProtocolMessage::Control(ControlMessage::SeparateRequest {
                session_id: u16::MAX,
                system_bytes,
            }),
        );
        VecDeque::from(vec![
            action,
            CoreAction::CloseGeneration {
                reason,
                barrier: CloseBarrier::AfterWrite(write),
            },
        ])
    }

    fn finalize_writer(&mut self, _now: MonoTime) -> CoreActions {
        let mut core = self.inner.borrow_mut();
        let roles = std::mem::take(&mut core.roles);
        let mut actions = Vec::new();
        for role in roles.values() {
            match role {
                Role::Separate(command) => actions.push(complete(
                    *command,
                    CoreCommandResult::Control(Err(OperationError::DeliveryIndeterminate)),
                )),
                Role::Send(Some(command)) => actions.push(complete(
                    *command,
                    CoreCommandResult::Send(Err(OperationError::DeliveryIndeterminate)),
                )),
                _ => {}
            }
        }
        for request in std::mem::take(&mut core.requests) {
            if !request.settled {
                actions.push(complete(
                    request.command,
                    CoreCommandResult::Request(Err(OperationError::DeliveryIndeterminate)),
                ));
            }
        }
        VecDeque::from(actions)
    }

    fn advance_time(&mut self, now: MonoTime) -> CoreActions {
        let mut core = self.inner.borrow_mut();
        if let Some(actions) = core.injected.take() {
            return VecDeque::from(actions);
        }
        if now.nanos < core.last {
            return VecDeque::from(vec![close(GenerationCloseReason::RuntimeInvariant)]);
        }
        core.last = now.nanos;
        if core.idle_check.is_some_and(|due| due <= now.nanos) {
            core.idle_check = Some(now.nanos + 30 * SECOND);
        }
        let mut actions = Vec::new();
        let expired = core
            .control
            .as_ref()
            .is_some_and(|control| control.deadline.is_some_and(|due| due <= now.nanos));
        if expired {
            let control = core.control.take().unwrap();
            actions.push(complete(
                control.command,
                CoreCommandResult::Control(Err(OperationError::Timeout(TimeoutKind::T6))),
            ));
            actions.push(close(GenerationCloseReason::CommunicationsTimeout(
                CommunicationsTimeoutKind::T6,
            )));
        }
        for request in &mut core.requests {
            if !request.settled && request.deadline.is_some_and(|due| due <= now.nanos) {
                request.settled = true;
                actions.push(complete(
                    request.command,
                    CoreCommandResult::RequestTimedOut(request.header),
                ));
            }
        }
        core.requests.retain(|request| !request.settled);
        VecDeque::from(actions)
    }

    fn next_deadline(&self) -> Option<MonoTime> {
        let core = self.inner.borrow();
        let control = core.control.as_ref().and_then(|control| control.deadline);
        let requests = core.requests.iter().filter_map(|request| request.deadline);
        requests
            .chain(control)
            .chain(core.idle_check)
            .min()
            .map(MonoTime::from_nanos)
    }

    fn replies_blocked(&self) -> bool {
        let core = self.inner.borrow();
        core.control
            .as_ref()
            .is_some_and(|control| control.kind == ControlIntent::Deselect)
    }

    fn open_command_count(&self) -> usize {
        self.inner.borrow().open_commands()
    }

    fn reply_capability_count(&self) -> usize {
        self.capability_count()
    }

    fn owns_command(&self, command_id: CommandId) -> bool {
        let core = self.inner.borrow();
        core.roles.values().any(|role| match role {
            Role::Separate(command) | Role::Send(Some(command)) => *command == command_id,
            _ => false,
        }) || core
            .requests
            .iter()
            .any(|request| !request.settled && request.command == command_id)
            || core
                .control
                .as_ref()
                .is_some_and(|control| control.command == command_id)
    }

    fn state(&self) -> Option<SessionState> {
        self.inner.borrow().state
    }

    fn take_notice(&mut self) -> Option<ProtocolNotice> {
        self.inner.borrow_mut().notice.take()
    }
}

struct FakeStateObserver {
    trace: SharedTrace,
    notices: Rc<Cell<usize>>,
}

impl SessionStateObserver for FakeStateObserver {
    fn observe(&mut self, state: SessionState) {
        self.trace.push(TraceEvent::StateObserved(state));
    }

    fn notice(&mut self, generation: ConnectionGeneration, _notice: ProtocolNotice) {
        assert_eq!(generation.get(), 17);
        self.notices.set(self.notices.get() + 1);
    }
}

struct FakeCompletion {
    label: &'static str,
    sender: Sender<DriverCommandResult>,
    trace: SharedTrace,
}

impl FakeCompletion {
    fn channel(
        label: &'static str,
        trace: SharedTrace,
    ) -> (Self, Receiver<DriverCommandResult>) {
        let (sender, receiver) = mpsc::channel();
        (
            Self {
                label,
                sender,
                trace,
            },
            receiver,
        )
    }
}

impl CommandCompletion for FakeCompletion {
    fn complete(self, result: DriverCommandResult) {
        let label = self.label;
        let event = match &result {
            DriverCommandResult::PrimaryRejected {
                reply_expected,
                error,
                ..
            } => {
                if *reply_expected {
                    TraceEvent::RequestCommandCompleted {
                        label,
                        result: Err(error.clone()),
                    }
                } else {
                    TraceEvent::SendCommandCompleted {
                        label,
                        result: Err(error.clone()),
                    }
                }
            }
            DriverCommandResult::ReplyRejected { intent, error, .. } => TraceEvent::ReplyRejected {
                label,
                intent: *intent,
                error: error.clone(),
            },
            DriverCommandResult::Control(result) => TraceEvent::CommandCompleted {
                label,
                result: result.clone(),
            },
            DriverCommandResult::Send(result) => TraceEvent::SendCommandCompleted {
                label,
                result: result.clone(),
            },
            DriverCommandResult::Request(result) => TraceEvent::RequestCommandCompleted {
                label,
                result: result.clone(),
            },
        };
        self.trace.push(event);
        let _ = self.sender.send(result);
    }
}

#[derive(Clone)]
struct FakeTransportCloser {
    closes: Rc<Cell<usize>>,
    trace: SharedTrace,
}

impl FakeTransportCloser {
    fn count(&self) -> usize {
        self.closes.get()
    }
}

impl TransportCloser for FakeTransportCloser {
    fn close(&mut self) {
        self.closes.set(self.closes.get() + 1);
        self.trace.push(TraceEvent::TransportClosed);
    }
}

type FakeDriver =
    SessionDriver<FakeCore, FakeWriter, FakeStateObserver, FakeCompletion, FakeTransportCloser>;

enum HarnessInput {
    Connected,
    AcceptedCommand,
    Reader,
    WriteOutcome {
        write_id: WriteId,
        outcome: WriteOutcome,
    },
    InvalidWriteOutcome {
        write_id: WriteId,
        outcome: WriteOutcome,
    },
    AdvanceTime,
    Shutdown(GenerationCloseReason),
}

#[derive(Default)]
struct FakeReader {
    inputs: VecDeque<ProtocolMessage>,
}

impl FakeReader {
    fn push_message(&mut self, message: ProtocolMessage) {
        self.inputs.push_back(message);
    }
}

struct FakeClock {
    now: MonoTime,
}

impl FakeClock {
    fn now(&self) -> MonoTime {
        self.now
    }

    fn set(&mut self, now: MonoTime) {
        self.now = now;
    }
}

struct DriverHarness {
    driver: FakeDriver,
    core: FakeCore,
    closer: FakeTransportCloser,
    notices: Rc<Cell<usize>>,
    reader: FakeReader,
    clock: FakeClock,
    trace: SharedTrace,
}

const WIDE: DriverLimits = DriverLimits {
    command_capacity: 64,
    command_byte_capacity: 1 << 20,
    inbound_capacity: 64,
    protocol_error_capacity: 64,
    maximum_message_length: 1 << 16,
};

impl DriverHarness {
    fn new() -> Self {
        Self::with_limits(256, 512, 1_024, 1_024)
    }

    fn with_limits(
        transaction_capacity: usize,
        tombstone_capacity: usize,
        control_capacity: usize,
        data_capacity: usize,
    ) -> Self {
        Self::build(
            transaction_capacity,
            tombstone_capacity,
            control_capacity,
            data_capacity,
            WIDE,
            1,
        )
    }

    fn with_driver_limits(limits: DriverLimits) -> Self {
        Self::build(256, 512, 1_024, 1_024, limits, 1)
    }

    fn build(
        transaction_capacity: usize,
        tombstone_capacity: usize,
        control_capacity: usize,
        data_capacity: usize,
        limits: DriverLimits,
        owner: u64,
    ) -> Self {
        let trace = SharedTrace::default();
        let core = FakeCore::new(transaction_capacity, tombstone_capacity);
        let closer = FakeTransportCloser {
            closes: Rc::new(Cell::new(0)),
            trace: trace.clone(),
        };
        let notices = Rc::new(Cell::new(0));
        let driver = SessionDriver::new(
            ConnectionGeneration::new(17),
            owner,
            core.clone(),
            FakeWriter::with_capacities(trace.clone(), control_capacity, data_capacity),
            FakeStateObserver {
                trace: trace.clone(),
                notices: notices.clone(),
            },
            closer.clone(),
            limits,
        );
        Self {
            driver,
            core,
            closer,
            notices,
            reader: FakeReader::default(),
            clock: FakeClock {
                now: MonoTime::from_nanos(0),
            },
            trace,
        }
    }

    fn accept(
        &mut self,
        label: &'static str,
        intent: ControlIntent,
    ) -> Receiver<DriverCommandResult> {
        let (completion, receiver) = FakeCompletion::channel(label, self.trace.clone());
        assert!(self.driver.try_accept_control(intent, completion).is_ok());
        receiver
    }

    fn accept_send(
        &mut self,
        label: &'static str,
        message: PrimaryMessage,
    ) -> Receiver<DriverCommandResult> {
        let (completion, receiver) = FakeCompletion::channel(label, self.trace.clone());
        assert!(self.driver.try_accept_send(message, completion).is_ok());
        receiver
    }

    fn accept_request(
        &mut self,
        label: &'static str,
        message: PrimaryMessage,
    ) -> Receiver<DriverCommandResult> {
        let (completion, receiver) = FakeCompletion::channel(label, self.trace.clone());
        assert!(self.driver.try_accept_request(message, completion).is_ok());
        receiver
    }

    /// Lets the core answer the next clock turn with these actions.
    fn apply_actions(&mut self, actions: Vec<CoreAction>) {
        self.core.inject(actions);
        assert!(self.driver.advance_time(self.clock.now()));
    }

    fn drive_one(&mut self, input: HarnessInput) -> bool {
        let now = self.clock.now();
        match input {
            HarnessInput::Connected => self.driver.on_connected(now),
            HarnessInput::AcceptedCommand => self.driver.drive_next_command(now),
            HarnessInput::Reader => match self.reader.inputs.pop_front() {
                Some(message) => {
                    if let ProtocolMessage::Control(ControlMessage::RejectRequest {
                        session_id,
                        header_byte_2,
                        reason,
                        system_bytes,
                    }) = &message
                    {
                        self.trace.push(TraceEvent::RejectReceived {
                            session_id: *session_id,
                            header_byte_2: *header_byte_2,
                            reason: *reason,
                            system_bytes: *system_bytes,
                        });
                    }
                    if let ProtocolMessage::Control(ControlMessage::SeparateRequest {
                        session_id,
                        system_bytes,
                    }) = &message
                    {
                        if *session_id != u16::MAX {
                            self.trace.push(TraceEvent::NonstandardSeparateReceived {
                                session_id: *session_id,
                                system_bytes: *system_bytes,
                            });
                        }
                    }
                    self.driver.on_message(message, now)
                }
                None => false,
            },
            HarnessInput::WriteOutcome { write_id, outcome } => {
                self.driver
                    .writer()
                    .emit_outcome(write_id, outcome)
                    .expect("one admitted unfinished write");
                self.driver.on_write_outcome_at(write_id, outcome, now, now);
                true
            }
            HarnessInput::InvalidWriteOutcome { write_id, outcome } => {
                self.trace
                    .push(TraceEvent::InvalidWriterOutcomeInjected { write_id, outcome });
                self.driver.on_write_outcome_at(write_id, outcome, now, now);
                true
            }
            HarnessInput::AdvanceTime => self.driver.advance_time(now),
            HarnessInput::Shutdown(reason) => {
                self.driver.on_shutdown(reason, None, now);
                true
            }
        }
    }
}

fn decode(frame: &[u8]) -> DecodeStep {
    let header: [u8; 10] = frame[4..14].try_into().unwrap();
    if header[5] == 99 {
        DecodeStep::HeaderViolation {
            header,
            kind: HeaderViolationKind::UnknownSessionType { s_type: header[5] },
        }
    } else if header[4] != 0 {
        DecodeStep::HeaderViolation {
            header,
            kind: HeaderViolationKind::UnknownPresentationType { p_type: header[4] },
        }
    } else {
        DecodeStep::HeaderViolation {
            header,
            kind: HeaderViolationKind::InvalidField { index: 2 },
        }
    }
}

/// Builds a terminal transport fault with a stable test category.
fn transport_fault() -> TransportFault {
    TransportFault::new(TransportFaultKind::BrokenPipe)
}

/// Extracts a control completion result received without blocking.
fn completion_result(receiver: &Receiver<DriverCommandResult>) -> Result<(), OperationError> {
    let result = receiver
        .try_recv()
        .expect("command must have one completion available");
    let DriverCommandResult::Control(result) = result else {
        panic!("control command must retain its Driver result type");
    };
    result
}

/// Returns the latest admitted frame identity from the fake Writer.
fn last_write_id(harness: &DriverHarness) -> WriteId {
    harness
        .driver
        .writer()
        .admitted()
        .last()
        .expect("scenario must admit one frame")
        .write_id
}

/// Extracts the Session ID and System Bytes from an admitted Select request.
fn active_select_contract(harness: &DriverHarness) -> (u16, SystemBytes, WriteId) {
    let admitted = harness
        .driver
        .writer()
        .admitted()
        .last()
        .expect("active Select must admit its request");
    let ProtocolMessage::Control(ControlMessage::SelectRequest {
        session_id,
        system_bytes,
    }) = admitted.message
    else {
        panic!("latest frame must be Select.req");
    };
    (session_id, system_bytes, admitted.write_id)
}

/// Drives a legal passive Select and commits its response write.
fn enter_selected(harness: &mut DriverHarness) {
    harness
        .reader
        .push_message(ProtocolMessage::Control(ControlMessage::SelectRequest {
            session_id: u16::MAX,
            system_bytes: SystemBytes::new(91),
        }));
    assert!(harness.drive_one(HarnessInput::Reader));
    let response_write = last_write_id(harness);
    assert!(harness.drive_one(HarnessInput::WriteOutcome {
        write_id: response_write,
        outcome: WriteOutcome::Committed,
    }));
    assert_eq!(harness.driver.state(), Some(SessionState::Selected));
}

/// Confirms control intents map exactly to their core procedures.
#[test]
fn control_intents_map_without_expanding_the_b1_vocabulary() {
    type Driver =
        SessionDriver<FakeCore, FakeWriter, FakeStateObserver, FakeCompletion, FakeTransportCloser>;

    assert_eq!(
        Driver::core_command_kind(ControlIntent::Select),
        Some(CoreCommandKind::Select)
    );
    assert_eq!(
        Driver::core_command_kind(ControlIntent::Linktest),
        Some(CoreCommandKind::Linktest)
    );
    assert_eq!(
        Driver::core_command_kind(ControlIntent::Separate),
        Some(CoreCommandKind::Separate)
    );
    assert_eq!(
        Driver::core_command_kind(ControlIntent::Deselect),
        Some(CoreCommandKind::Deselect)
    );
}

/// Confirms first connected publication is unique and repetition fails closed.
#[test]
fn connected_publishes_once_and_repeated_connected_fails_closed() {
    let mut harness = DriverHarness::new();

    assert!(harness.drive_one(HarnessInput::Connected));
    assert_eq!(harness.driver.state(), Some(SessionState::NotSelected));
    assert_eq!(
        harness.trace.events(),
        vec![TraceEvent::StateObserved(SessionState::NotSelected)]
    );

    assert!(harness.drive_one(HarnessInput::Connected));
    assert_eq!(
        harness.driver.close_reason(),
        Some(GenerationCloseReason::RuntimeInvariant)
    );
    assert_eq!(harness.closer.count(), 1);
    assert_eq!(
        harness
            .trace
            .events()
            .iter()
            .filter(|event| matches!(event, TraceEvent::StateObserved(_)))
            .count(),
        1
    );
}

/// Confirms active Select publishes Selected before completing its command.
#[test]
fn active_select_success_orders_state_before_completion_and_accepts_fast_response() {
    let mut harness = DriverHarness::new();
    assert!(harness.drive_one(HarnessInput::Connected));
    let receiver = harness.accept("select", ControlIntent::Select);
    assert!(harness.drive_one(HarnessInput::AcceptedCommand));
    let (session_id, system_bytes, request_write) = active_select_contract(&harness);
    assert_eq!(session_id, u16::MAX);
    harness.trace.clear();

    harness
        .reader
        .push_message(ProtocolMessage::Control(ControlMessage::SelectResponse {
            session_id,
            status: 0,
            system_bytes,
        }));
    assert!(harness.drive_one(HarnessInput::Reader));

    assert_eq!(completion_result(&receiver), Ok(()));
    assert_eq!(
        harness.trace.events(),
        vec![
            TraceEvent::StateObserved(SessionState::Selected),
            TraceEvent::CommandCompleted {
                label: "select",
                result: Ok(()),
            },
        ]
    );
    harness.trace.clear();
    assert!(harness.drive_one(HarnessInput::WriteOutcome {
        write_id: request_write,
        outcome: WriteOutcome::Committed,
    }));
    assert!(receiver.try_recv().is_err());
    assert_eq!(
        harness.trace.events(),
        vec![TraceEvent::WriterOutcome {
            write_id: request_write,
            outcome: WriteOutcome::Committed,
        }]
    );
}

/// Confirms passive Select response admission precedes its Selected observation.
#[test]
fn passive_select_admission_precedes_selected_observation() {
    let mut harness = DriverHarness::new();
    assert!(harness.drive_one(HarnessInput::Connected));
    harness.trace.clear();

    harness
        .reader
        .push_message(ProtocolMessage::Control(ControlMessage::SelectRequest {
            session_id: u16::MAX,
            system_bytes: SystemBytes::new(17),
        }));
    assert!(harness.drive_one(HarnessInput::Reader));

    let events = harness.trace.events();
    assert!(matches!(events[0], TraceEvent::WriterAdmitted { .. }));
    assert_eq!(events[1], TraceEvent::StateObserved(SessionState::Selected));
    assert_eq!(harness.driver.state(), Some(SessionState::Selected));
}

/// Confirms failed passive response admission short-circuits state publication.
#[test]
fn passive_select_admission_failure_closes_without_selected_observation() {
    let mut harness = DriverHarness::new();
    assert!(harness.drive_one(HarnessInput::Connected));
    harness.trace.clear();
    harness
        .driver
        .writer()
        .fail_next_with(WriteAdmissionError::Full);
    harness
        .reader
        .push_message(ProtocolMessage::Control(ControlMessage::SelectRequest {
            session_id: u16::MAX,
            system_bytes: SystemBytes::new(19),
        }));

    assert!(harness.drive_one(HarnessInput::Reader));

    assert_eq!(
        harness.driver.close_reason(),
        Some(GenerationCloseReason::ControlBackpressure)
    );
    assert_eq!(harness.closer.count(), 1);
    assert!(!harness
        .trace
        .events()
        .iter()
        .any(|event| matches!(event, TraceEvent::StateObserved(SessionState::Selected))));
    assert!(matches!(
        harness.trace.events().first(),
        Some(TraceEvent::WriterRejected {
            error: WriteAdmissionError::Full,
            ..
        })
    ));
}

/// Confirms a terminal response-write failure closes without retracting the
/// Selected observation already published after successful admission.
#[test]
fn passive_select_not_written_preserves_historical_selected_observation() {
    let mut harness = DriverHarness::new();
    assert!(harness.drive_one(HarnessInput::Connected));
    harness.trace.clear();
    harness
        .reader
        .push_message(ProtocolMessage::Control(ControlMessage::SelectRequest {
            session_id: u16::MAX,
            system_bytes: SystemBytes::new(21),
        }));
    assert!(harness.drive_one(HarnessInput::Reader));
    let response_write = last_write_id(&harness);

    assert!(harness.drive_one(HarnessInput::WriteOutcome {
        write_id: response_write,
        outcome: WriteOutcome::NotWritten(transport_fault()),
    }));

    assert_eq!(
        harness.driver.close_reason(),
        Some(GenerationCloseReason::TransportLost)
    );
    assert_eq!(harness.closer.count(), 1);
    assert_eq!(
        harness
            .trace
            .events()
            .iter()
            .filter(|event| { **event == TraceEvent::StateObserved(SessionState::Selected) })
            .count(),
        1
    );
}

/// Confirms Full and Closed admission failures map both command completion and
/// generation close reason according to the frozen Control policy.
#[test]
fn request_admission_failures_use_frozen_completion_and_close_mapping() {
    let cases = [
        (
            WriteAdmissionError::Full,
            OperationError::Backpressure,
            GenerationCloseReason::ControlBackpressure,
        ),
        (
            WriteAdmissionError::Closed,
            OperationError::ConnectionLost,
            GenerationCloseReason::TransportLost,
        ),
    ];

    for (admission_error, operation_error, close_reason) in cases {
        let mut harness = DriverHarness::new();
        assert!(harness.drive_one(HarnessInput::Connected));
        let receiver = harness.accept("linktest", ControlIntent::Linktest);
        harness.driver.writer().fail_next_with(admission_error);

        assert!(harness.drive_one(HarnessInput::AcceptedCommand));

        assert_eq!(completion_result(&receiver), Err(operation_error));
        assert_eq!(harness.driver.close_reason(), Some(close_reason));
        assert_eq!(harness.closer.count(), 1);
    }
}

/// Confirms an admission failure for a WriteId unknown to Core locks the
/// RuntimeInvariant reason returned by Core rather than Driver's initial map.
#[test]
fn unknown_failed_write_id_locks_runtime_invariant_as_first_reason() {
    let mut harness = DriverHarness::new();
    harness
        .driver
        .writer()
        .fail_next_with(WriteAdmissionError::Full);
    let mut actions = Vec::new();
    actions.push(CoreAction::SendFrame {
        write_id: WriteId::new(777),
        message: ProtocolMessage::Control(ControlMessage::LinktestResponse {
            system_bytes: SystemBytes::new(41),
        }),
    });

    harness.apply_actions(actions);

    assert_eq!(
        harness.driver.close_reason(),
        Some(GenerationCloseReason::RuntimeInvariant)
    );
    assert_eq!(harness.closer.count(), 1);
}

/// Confirms response-frame backpressure does not misattribute Backpressure to
/// a simultaneous locally initiated Select command.
#[test]
fn simultaneous_select_response_failure_completes_local_command_as_connection_lost() {
    let mut harness = DriverHarness::new();
    assert!(harness.drive_one(HarnessInput::Connected));
    let receiver = harness.accept("local-select", ControlIntent::Select);
    assert!(harness.drive_one(HarnessInput::AcceptedCommand));
    harness
        .driver
        .writer()
        .fail_next_with(WriteAdmissionError::Full);
    harness
        .reader
        .push_message(ProtocolMessage::Control(ControlMessage::SelectRequest {
            session_id: u16::MAX,
            system_bytes: SystemBytes::new(23),
        }));

    assert!(harness.drive_one(HarnessInput::Reader));

    assert_eq!(
        completion_result(&receiver),
        Err(OperationError::ConnectionLost)
    );
    assert_eq!(
        harness.driver.close_reason(),
        Some(GenerationCloseReason::ControlBackpressure)
    );
}

/// Confirms every Separate terminal outcome releases the barrier only after
/// completion actions have been fully applied.
#[test]
fn separate_three_way_terminal_outcomes_complete_before_transport_close() {
    let cases = [
        (WriteOutcome::Committed, Ok(())),
        (
            WriteOutcome::NotWritten(transport_fault()),
            Err(OperationError::ConnectionLost),
        ),
        (
            WriteOutcome::Indeterminate(transport_fault()),
            Err(OperationError::DeliveryIndeterminate),
        ),
    ];

    for (outcome, expected) in cases {
        let mut harness = DriverHarness::new();
        assert!(harness.drive_one(HarnessInput::Connected));
        enter_selected(&mut harness);
        let receiver = harness.accept("separate", ControlIntent::Separate);
        harness.trace.clear();

        assert!(harness.drive_one(HarnessInput::AcceptedCommand));
        let separate_write = last_write_id(&harness);
        assert_eq!(
            harness.driver.close_reason(),
            Some(GenerationCloseReason::LocalSeparate)
        );
        assert_eq!(harness.closer.count(), 0);
        assert!(receiver.try_recv().is_err());

        assert!(harness.drive_one(HarnessInput::WriteOutcome {
            write_id: separate_write,
            outcome,
        }));

        assert_eq!(completion_result(&receiver), expected.clone());
        assert_eq!(harness.closer.count(), 1);
        let events = harness.trace.events();
        let outcome_index = events
            .iter()
            .position(|event| matches!(event, TraceEvent::WriterOutcome { .. }))
            .expect("Separate terminal outcome must enter the shared trace");
        let completion_index = events
            .iter()
            .position(|event| matches!(event, TraceEvent::CommandCompleted { .. }))
            .expect("Separate outcome must complete its command");
        let close_index = events
            .iter()
            .position(|event| *event == TraceEvent::TransportClosed)
            .expect("Separate outcome must release transport close");
        assert!(outcome_index < completion_index);
        assert!(completion_index < close_index);
    }
}

/// Confirms Separate aborts an older transaction before attempting its own
/// admission, and admission failure short-circuits NotSelected publication.
#[test]
fn separate_preemption_completion_precedes_failed_admission() {
    let mut harness = DriverHarness::new();
    assert!(harness.drive_one(HarnessInput::Connected));
    enter_selected(&mut harness);
    let old_receiver = harness.accept("old-linktest", ControlIntent::Linktest);
    assert!(harness.drive_one(HarnessInput::AcceptedCommand));
    let separate_receiver = harness.accept("separate", ControlIntent::Separate);
    harness
        .driver
        .writer()
        .fail_next_with(WriteAdmissionError::Full);
    harness.trace.clear();

    assert!(harness.drive_one(HarnessInput::AcceptedCommand));

    assert_eq!(
        completion_result(&old_receiver),
        Err(OperationError::Protocol(
            ProtocolError::TransactionAborted,
        ))
    );
    assert_eq!(
        completion_result(&separate_receiver),
        Err(OperationError::Backpressure)
    );
    let events = harness.trace.events();
    let old_completion = events
        .iter()
        .position(|event| {
            matches!(
                event,
                TraceEvent::CommandCompleted {
                    label: "old-linktest",
                    ..
                }
            )
        })
        .expect("preempted command must complete");
    let rejected = events
        .iter()
        .position(|event| matches!(event, TraceEvent::WriterRejected { .. }))
        .expect("Separate admission must fail");
    assert!(old_completion < rejected);
    assert!(!events
        .iter()
        .any(|event| matches!(event, TraceEvent::StateObserved(SessionState::NotSelected))));
}

/// Confirms a later terminal fault cannot replace LocalSeparate, closes the
/// transport without waiting for the write barrier, and completes the command once.
#[test]
fn later_fault_preserves_first_close_reason_and_separate_barrier() {
    let mut harness = DriverHarness::new();
    assert!(harness.drive_one(HarnessInput::Connected));
    enter_selected(&mut harness);
    let receiver = harness.accept("separate", ControlIntent::Separate);
    assert!(harness.drive_one(HarnessInput::AcceptedCommand));
    let separate_write = last_write_id(&harness);
    assert_eq!(harness.closer.closes.get(), 0);

    assert!(harness.drive_one(HarnessInput::Shutdown(GenerationCloseReason::TransportLost,)));
    assert_eq!(
        harness.driver.close_reason(),
        Some(GenerationCloseReason::LocalSeparate)
    );
    assert_eq!(harness.closer.closes.get(), 1);
    assert_eq!(
        completion_result(&receiver),
        Err(OperationError::ConnectionLost)
    );

    assert!(harness.drive_one(HarnessInput::WriteOutcome {
        write_id: separate_write,
        outcome: WriteOutcome::Committed,
    }));
    assert_eq!(harness.closer.closes.get(), 1);
    assert_eq!(
        harness.driver.close_reason(),
        Some(GenerationCloseReason::LocalSeparate)
    );
    assert!(receiver.try_recv().is_err());
}

/// Confirms a Reject naming the local Separate remains a trace-only diagnostic
/// while the write barrier and command completion remain unchanged.
#[test]
fn separate_reject_is_traced_without_changing_the_barrier() {
    let mut harness = DriverHarness::new();
    assert!(harness.drive_one(HarnessInput::Connected));
    enter_selected(&mut harness);
    let receiver = harness.accept("separate", ControlIntent::Separate);
    assert!(harness.drive_one(HarnessInput::AcceptedCommand));
    let admitted = harness
        .driver
        .writer()
        .admitted()
        .last()
        .expect("Separate request must be admitted");
    let ProtocolMessage::Control(ControlMessage::SeparateRequest {
        session_id,
        system_bytes,
    }) = admitted.message
    else {
        panic!("latest frame must be Separate.req");
    };
    let separate_write = admitted.write_id;
    harness.trace.clear();
    harness
        .reader
        .push_message(ProtocolMessage::Control(ControlMessage::RejectRequest {
            session_id,
            header_byte_2: 9,
            reason: NonZeroStatus::new(3).unwrap(),
            system_bytes,
        }));

    assert!(!harness.drive_one(HarnessInput::Reader));

    assert_eq!(
        harness.trace.events(),
        vec![TraceEvent::RejectReceived {
            session_id,
            header_byte_2: 9,
            reason: NonZeroStatus::new(3).unwrap(),
            system_bytes,
        }]
    );
    assert!(receiver.try_recv().is_err());
    assert_eq!(harness.closer.count(), 0);
    assert_eq!(
        harness.driver.close_reason(),
        Some(GenerationCloseReason::LocalSeparate)
    );

    assert!(harness.drive_one(HarnessInput::WriteOutcome {
        write_id: separate_write,
        outcome: WriteOutcome::Committed,
    }));
    assert_eq!(completion_result(&receiver), Ok(()));
    assert_eq!(harness.closer.count(), 1);
}

/// Confirms extension and otherwise unknown peer Rejects remain observable
/// diagnostics without producing a frame, completion, state, or close action.
#[test]
fn unknown_extension_reject_is_trace_only() {
    let mut harness = DriverHarness::new();
    assert!(harness.drive_one(HarnessInput::Connected));
    harness.trace.clear();
    let reason = NonZeroStatus::new(0x80).expect("extension Reject reason is non-zero");
    harness
        .reader
        .push_message(ProtocolMessage::Control(ControlMessage::RejectRequest {
            session_id: u16::MAX,
            header_byte_2: 0x7F,
            reason,
            system_bytes: SystemBytes::new(0x1020_3040),
        }));

    assert!(harness.drive_one(HarnessInput::Reader));

    assert_eq!(
        harness.trace.events(),
        vec![TraceEvent::RejectReceived {
            session_id: u16::MAX,
            header_byte_2: 0x7F,
            reason,
            system_bytes: SystemBytes::new(0x1020_3040),
        }]
    );
    assert_eq!(harness.driver.close_reason(), None);
    assert_eq!(harness.closer.count(), 0);
}

/// Confirms a nonstandard Separate Session ID remains diagnostic while the
/// Selected peer-separation behavior still transitions and closes normally.
#[test]
fn nonstandard_peer_separate_is_traced_and_still_terminates_selected() {
    let mut harness = DriverHarness::new();
    assert!(harness.drive_one(HarnessInput::Connected));
    enter_selected(&mut harness);
    harness.trace.clear();
    harness
        .reader
        .push_message(ProtocolMessage::Control(ControlMessage::SeparateRequest {
            session_id: 7,
            system_bytes: SystemBytes::new(0x5566_7788),
        }));

    assert!(harness.drive_one(HarnessInput::Reader));

    assert_eq!(
        harness.trace.events(),
        vec![
            TraceEvent::NonstandardSeparateReceived {
                session_id: 7,
                system_bytes: SystemBytes::new(0x5566_7788),
            },
            TraceEvent::StateObserved(SessionState::NotSelected),
            TraceEvent::TransportClosed,
        ]
    );
    assert_eq!(
        harness.driver.close_reason(),
        Some(GenerationCloseReason::SeparateReceived)
    );
    assert_eq!(harness.closer.count(), 1);
}

/// Confirms each harness turn consumes at most one FIFO Reader input.
#[test]
fn drive_one_consumes_exactly_one_reader_input() {
    let mut harness = DriverHarness::new();
    assert!(harness.drive_one(HarnessInput::Connected));
    for system_bytes in [401, 402] {
        harness
            .reader
            .push_message(ProtocolMessage::Control(ControlMessage::LinktestRequest {
                system_bytes: SystemBytes::new(system_bytes),
            }));
    }

    assert!(harness.drive_one(HarnessInput::Reader));
    assert_eq!(harness.driver.writer().admitted().len(), 1);
    assert!(harness.drive_one(HarnessInput::Reader));
    assert_eq!(harness.driver.writer().admitted().len(), 2);
    assert!(!harness.drive_one(HarnessInput::Reader));
}

/// Confirms unknown and duplicate write outcomes fail closed as runtime invariants.
#[test]
fn unknown_and_duplicate_write_outcomes_fail_closed() {
    let mut unknown = DriverHarness::new();
    assert!(unknown.drive_one(HarnessInput::Connected));
    assert_eq!(
        unknown
            .driver
            .writer()
            .emit_outcome(WriteId::new(999), WriteOutcome::Committed),
        Err(FakeWriterOutcomeError::NotAdmitted)
    );
    assert!(unknown.drive_one(HarnessInput::InvalidWriteOutcome {
        write_id: WriteId::new(999),
        outcome: WriteOutcome::Committed,
    }));
    assert_eq!(
        unknown.driver.close_reason(),
        Some(GenerationCloseReason::RuntimeInvariant)
    );
    assert_eq!(unknown.closer.count(), 1);

    let mut duplicate = DriverHarness::new();
    assert!(duplicate.drive_one(HarnessInput::Connected));
    let receiver = duplicate.accept("linktest", ControlIntent::Linktest);
    assert!(duplicate.drive_one(HarnessInput::AcceptedCommand));
    let write_id = last_write_id(&duplicate);
    assert!(duplicate.drive_one(HarnessInput::WriteOutcome {
        write_id,
        outcome: WriteOutcome::Committed,
    }));
    assert_eq!(
        duplicate
            .driver
            .writer()
            .emit_outcome(write_id, WriteOutcome::Committed),
        Err(FakeWriterOutcomeError::Duplicate)
    );
    assert!(duplicate.drive_one(HarnessInput::InvalidWriteOutcome {
        write_id,
        outcome: WriteOutcome::Committed,
    }));
    assert_eq!(
        duplicate.driver.close_reason(),
        Some(GenerationCloseReason::RuntimeInvariant)
    );
    assert_eq!(
        completion_result(&receiver),
        Err(OperationError::ConnectionLost)
    );
}

/// Confirms a dropped receiver is benign and mixed queued/table drain completes
/// every other accepted command exactly once in stable order.
#[test]
fn receiver_drop_and_mixed_drain_preserve_exactly_once_completion() {
    let mut harness = DriverHarness::new();
    assert!(harness.drive_one(HarnessInput::Connected));
    let dropped = harness.accept("table", ControlIntent::Linktest);
    assert!(harness.drive_one(HarnessInput::AcceptedCommand));
    drop(dropped);
    let queued = harness.accept("queued", ControlIntent::Select);
    harness.trace.clear();

    assert!(harness.drive_one(HarnessInput::Shutdown(GenerationCloseReason::TransportLost,)));

    assert_eq!(harness.driver.pending_completion_count(), 0);
    assert_eq!(harness.driver.queued_command_count(), 0);
    assert_eq!(
        completion_result(&queued),
        Err(OperationError::ConnectionLost)
    );
    let completions: Vec<_> = harness
        .trace
        .events()
        .into_iter()
        .filter(|event| matches!(event, TraceEvent::CommandCompleted { .. }))
        .collect();
    assert_eq!(completions.len(), 2);
    assert!(matches!(
        completions[0],
        TraceEvent::CommandCompleted { label: "table", .. }
    ));
    assert!(matches!(
        completions[1],
        TraceEvent::CommandCompleted {
            label: "queued",
            ..
        }
    ));
}

/// Confirms CommandId allocation uses `u64::MAX` once and then fails closed
/// instead of wrapping the next accepted command to zero.
#[test]
fn command_id_exhaustion_never_wraps_and_drains_every_command_once() {
    let mut harness = DriverHarness::new();
    assert!(harness.drive_one(HarnessInput::Connected));
    harness.driver.skip_command_ids(CommandId::new(u64::MAX));
    let maximum = harness.accept("maximum", ControlIntent::Linktest);
    assert!(harness.drive_one(HarnessInput::AcceptedCommand));
    let exhausted = harness.accept("exhausted", ControlIntent::Select);

    assert!(harness.drive_one(HarnessInput::AcceptedCommand));

    assert_eq!(harness.driver.next_command_id(), None);
    assert_eq!(
        completion_result(&exhausted),
        Err(OperationError::ConnectionLost)
    );
    assert_eq!(
        completion_result(&maximum),
        Err(OperationError::ConnectionLost)
    );
    assert_eq!(
        harness.driver.close_reason(),
        Some(GenerationCloseReason::RuntimeInvariant)
    );
    assert!(maximum.try_recv().is_err());
    assert!(exhausted.try_recv().is_err());
}

/// Confirms duplicate completion fails closed, emits no second notification,
/// and short-circuits ordinary actions later in the injected batch.
#[test]
fn duplicate_completion_is_single_delivery_and_short_circuits_the_batch() {
    let mut harness = DriverHarness::new();
    assert!(harness.drive_one(HarnessInput::Connected));
    let receiver = harness.accept("linktest", ControlIntent::Linktest);
    assert!(harness.drive_one(HarnessInput::AcceptedCommand));
    harness.trace.clear();
    let mut actions = Vec::new();
    actions.push(CoreAction::CompleteCommand {
        command_id: CommandId::new(0),
        result: CoreCommandResult::Control(Ok(())),
    });
    actions.push(CoreAction::CompleteCommand {
        command_id: CommandId::new(0),
        result: CoreCommandResult::Control(Ok(())),
    });
    actions.push(CoreAction::SessionStateChanged(SessionState::Selected));

    harness.apply_actions(actions);

    assert_eq!(completion_result(&receiver), Ok(()));
    assert!(receiver.try_recv().is_err());
    assert_eq!(
        harness.driver.close_reason(),
        Some(GenerationCloseReason::RuntimeInvariant)
    );
    assert!(!harness
        .trace
        .events()
        .iter()
        .any(|event| matches!(event, TraceEvent::StateObserved(SessionState::Selected))));
}

/// Confirms closing refuses new commands and messages without entering Core.
#[test]
fn closing_refuses_new_commands_and_messages() {
    let mut harness = DriverHarness::new();
    assert!(harness.drive_one(HarnessInput::Connected));
    assert!(harness.drive_one(HarnessInput::Shutdown(
        GenerationCloseReason::LocalDisconnect,
    )));
    let (completion, _receiver) =
        FakeCompletion::channel("late", harness.trace.clone());

    let error = harness
        .driver
        .try_accept_control(ControlIntent::Select, completion)
        .expect_err("closing Driver must reject command admission");
    assert_eq!(error.kind(), ControlAdmissionErrorKind::Closing);
    assert_eq!(error.intent(), ControlIntent::Select);
    let message = ProtocolMessage::Control(ControlMessage::LinktestRequest {
        system_bytes: SystemBytes::new(31),
    });
    assert!(!harness.driver.on_message(message, harness.clock.now()));
}

/// Confirms equal time is legal while a backwards clock value fails closed.
#[test]
fn fake_clock_proves_equal_and_backwards_time_behavior_without_sleeping() {
    let mut harness = DriverHarness::new();
    harness
        .clock
        .set(seconds(2));
    assert!(harness.drive_one(HarnessInput::Connected));
    assert_eq!(harness.driver.next_deadline(), None);
    assert!(harness.drive_one(HarnessInput::AdvanceTime));
    harness
        .clock
        .set(seconds(1));
    assert!(harness.drive_one(HarnessInput::AdvanceTime));
    assert_eq!(
        harness.driver.close_reason(),
        Some(GenerationCloseReason::RuntimeInvariant)
    );
}

/// Builds one public Primary with validated stream and the supplied function.
fn primary(stream: u8, function: u8, body: Option<SecsItem>) -> PrimaryMessage {
    PrimaryMessage::new(
        Stream::new(stream).expect("fixture stream must fit seven bits"),
        Function::new(function),
        body,
    )
}

/// Extracts the sole available Control result without blocking.
fn control_result(receiver: &Receiver<DriverCommandResult>) -> Result<(), OperationError> {
    let DriverCommandResult::Control(result) = receiver
        .try_recv()
        .expect("Control command must have one completion available")
    else {
        panic!("Control command must retain its typed Driver result");
    };
    result
}

/// Extracts the sole available Send result without blocking.
fn send_result(receiver: &Receiver<DriverCommandResult>) -> Result<SendReceipt, OperationError> {
    match receiver
        .try_recv()
        .expect("Send command must have one completion available")
    {
        DriverCommandResult::Send(result) => result,
        DriverCommandResult::PrimaryRejected {
            reply_expected: false,
            error,
            ..
        } => Err(error),
        _ => panic!("Send command must retain its typed Driver result"),
    }
}

/// Extracts the sole available Request result without blocking.
fn request_result(
    receiver: &Receiver<DriverCommandResult>,
) -> Result<SecondaryMessage, OperationError> {
    match receiver
        .try_recv()
        .expect("Request command must have one completion available")
    {
        DriverCommandResult::Request(result) => result,
        DriverCommandResult::PrimaryRejected {
            reply_expected: true,
            error,
            ..
        } => Err(error),
        _ => panic!("Request command must retain its typed Driver result"),
    }
}

/// Pre-Core Writer rejection returns the original allocation for both Primary operations.
#[test]
fn writer_reservation_rejection_returns_original_primary() {
    for reply_expected in [false, true] {
        for failure in [DataReserveError::Full, DataReserveError::Closed] {
            let mut harness = DriverHarness::new();
            assert!(harness.drive_one(HarnessInput::Connected));
            enter_selected(&mut harness);
            harness
                .driver
                .writer()
                .fail_next_data_reserve_with(failure);
            let bytes = vec![0xa5_u8, 3, 3, 7, 19];
            let allocation = bytes.as_ptr();
            let original = primary(3, 1, Some(SecsItem::new(bytes)));
            let receiver = if reply_expected {
                harness.accept_request("rejected", original)
            } else {
                harness.accept_send("rejected", original)
            };
            assert!(harness.drive_one(HarnessInput::AcceptedCommand));
            let DriverCommandResult::PrimaryRejected {
                message,
                reply_expected: returned_kind,
                error,
            } = receiver.try_recv().unwrap()
            else {
                panic!("pre-Core failure must return original Primary");
            };
            assert_eq!(returned_kind, reply_expected);
            assert_eq!(
                error,
                match failure {
                    DataReserveError::Full => OperationError::Backpressure,
                    DataReserveError::Closed => OperationError::ConnectionLost,
                }
            );
            let Some(SecsItem { encoded: returned }) = message.body() else {
                panic!("original body retained")
            };
            assert_eq!(returned, &[0xa5, 3, 3, 7, 19]);
            assert_eq!(returned.as_ptr(), allocation);
            assert_eq!(harness.core.pending_data_transaction_count(), 0);
        }
    }
}

/// Returns one admitted Data frame by its zero-based Data-lane order.
fn admitted_data(harness: &DriverHarness, index: usize) -> (WriteId, DataMessage) {
    harness
        .driver
        .writer()
        .admitted()
        .iter()
        .filter_map(|frame| match &frame.message {
            ProtocolMessage::Data(message) => Some((frame.write_id, message.clone())),
            ProtocolMessage::Control(_) => None,
        })
        .nth(index)
        .expect("scenario must admit the requested Data frame")
}

/// Builds an inbound Data message from explicit matcher fields.
fn inbound_data(
    session_id: u16,
    stream: u8,
    function: u8,
    reply_expected: bool,
    system_bytes: u32,
    body: Option<SecsItem>,
) -> ProtocolMessage {
    ProtocolMessage::Data(DataMessage::new(
        DataHeader::new(
            SessionId::new(session_id).expect("fixture Data Session ID must be valid"),
            Stream::new(stream).expect("fixture stream must fit seven bits"),
            Function::new(function),
            reply_expected,
            SystemBytes::new(system_bytes),
        ),
        body,
    ))
}

/// Queues and drives one inbound message as a separate Driver round.
fn drive_message(harness: &mut DriverHarness, message: ProtocolMessage) {
    harness.reader.push_message(message);
    assert!(harness.drive_one(HarnessInput::Reader));
}

/// Confirms disconnected and NotSelected Data commands reserve locally but
/// never admit a frame, and release the unused permit after Core rejection.
#[test]
fn state_rejected_data_commands_release_permit_without_admission() {
    let cases = [
        (false, OperationError::NotConnected),
        (true, OperationError::NotSelected),
    ];

    for (connect_first, expected) in cases {
        let mut harness = DriverHarness::new();
        if connect_first {
            assert!(harness.drive_one(HarnessInput::Connected));
            harness.trace.clear();
        }
        let send = harness.accept_send("send", primary(1, 1, None));

        assert!(harness.drive_one(HarnessInput::AcceptedCommand));

        assert_eq!(send_result(&send), Err(expected));
        assert!(harness.driver.writer().admitted().is_empty());
        assert!(matches!(
            harness.trace.events().as_slice(),
            [
                TraceEvent::DataPermitReserved { .. },
                TraceEvent::SendCommandCompleted { .. },
                TraceEvent::DataPermitReleased { .. }
            ]
        ));
    }
}

/// Confirms Send and Request translate public Primary ownership into Data
/// headers with configured Session ID, allocated System Bytes, and fixed W-bit.
#[test]
fn send_and_request_translate_headers_and_preserve_bodies() {
    let mut harness = DriverHarness::new();
    assert!(harness.drive_one(HarnessInput::Connected));
    enter_selected(&mut harness);
    let typed_empty = Some(unsigned(&[]));
    let send = harness.accept_send("send", primary(3, 1, None));
    let request = harness.accept_request("request", primary(5, 3, typed_empty.clone()));

    assert!(harness.drive_one(HarnessInput::AcceptedCommand));
    assert!(harness.drive_one(HarnessInput::AcceptedCommand));

    let (send_write, sent) = admitted_data(&harness, 0);
    let (request_write, requested) = admitted_data(&harness, 1);
    assert_eq!(sent.header().session_id().get(), 7);
    assert_eq!(sent.header().stream().get(), 3);
    assert_eq!(sent.header().function().get(), 1);
    assert!(!sent.header().reply_expected());
    assert_eq!(sent.header().system_bytes().get(), 0);
    assert_eq!(sent.body(), &None);
    assert_eq!(requested.header().session_id().get(), 7);
    assert_eq!(requested.header().stream().get(), 5);
    assert_eq!(requested.header().function().get(), 3);
    assert!(requested.header().reply_expected());
    assert_eq!(requested.header().system_bytes().get(), 1);
    assert_eq!(requested.body(), &typed_empty);
    let events = harness.trace.events();
    assert_eq!(
        events
            .iter()
            .filter(|event| matches!(event, TraceEvent::DataPermitReserved { .. }))
            .count(),
        2
    );
    assert_eq!(
        events
            .iter()
            .filter(|event| matches!(event, TraceEvent::DataPermitConsumed { .. }))
            .count(),
        2
    );
    assert!(!events
        .iter()
        .any(|event| matches!(event, TraceEvent::DataPermitReleased { .. })));

    assert!(harness.drive_one(HarnessInput::WriteOutcome {
        write_id: send_write,
        outcome: WriteOutcome::Committed,
    }));
    let receipt = send_result(&send).expect("committed Send must return a receipt");
    assert_eq!(receipt.generation().get(), 17);

    assert!(send.try_recv().is_err());
    assert!(request.try_recv().is_err());
    assert!(harness.drive_one(HarnessInput::WriteOutcome {
        write_id: request_write,
        outcome: WriteOutcome::Committed,
    }));
    assert!(request.try_recv().is_err());
}

/// Confirms invalid Primary functions consume no Core protocol identifiers,
/// emit no frame, and release the permit for a following valid command.
#[test]
fn invalid_primary_function_releases_permit_without_allocating_protocol_ids() {
    for function in [0, 2] {
        let mut harness = DriverHarness::new();
        assert!(harness.drive_one(HarnessInput::Connected));
        enter_selected(&mut harness);
        harness.trace.clear();
        let invalid = harness.accept_send("invalid", primary(1, function, None));
        assert!(harness.drive_one(HarnessInput::AcceptedCommand));
        assert_eq!(
            send_result(&invalid),
            Err(OperationError::Protocol(
                ProtocolError::InvalidPrimaryFunction {
                    function: Function::new(function),
                },
            ))
        );
        assert!(harness
            .driver
            .writer()
            .admitted()
            .iter()
            .all(|frame| !matches!(frame.message, ProtocolMessage::Data(_))));
        assert!(harness
            .trace
            .events()
            .iter()
            .any(|event| matches!(event, TraceEvent::DataPermitReleased { .. })));

        let valid = harness.accept_send("valid", primary(1, 1, None));
        assert!(harness.drive_one(HarnessInput::AcceptedCommand));
        let (_, data) = admitted_data(&harness, 0);
        assert_eq!(data.header().system_bytes().get(), 0);
        assert!(valid.try_recv().is_err());
    }
}

/// Confirms Data reservation Full completes only that command with
/// Backpressure, while Closed completes it as ConnectionLost and closes.
#[test]
fn data_reserve_full_and_closed_have_distinct_stable_mappings() {
    let mut full = DriverHarness::new();
    assert!(full.drive_one(HarnessInput::Connected));
    enter_selected(&mut full);
    full.trace.clear();
    full.driver
        .writer()
        .fail_next_data_reserve_with(DataReserveError::Full);
    let full_receiver = full.accept_send("full", primary(1, 1, None));
    assert!(full.drive_one(HarnessInput::AcceptedCommand));
    assert_eq!(
        send_result(&full_receiver),
        Err(OperationError::Backpressure)
    );
    assert_eq!(full.driver.close_reason(), None);
    assert_eq!(
        full.trace.events()[0],
        TraceEvent::DataPermitRejected {
            error: DataReserveError::Full,
        }
    );
    let following = full.accept_send("following", primary(1, 1, None));
    assert!(full.drive_one(HarnessInput::AcceptedCommand));
    let (_, following_data) = admitted_data(&full, 0);
    assert_eq!(following_data.header().system_bytes().get(), 0);
    assert!(following.try_recv().is_err());

    let mut closed = DriverHarness::new();
    assert!(closed.drive_one(HarnessInput::Connected));
    enter_selected(&mut closed);
    closed
        .driver
        .writer()
        .fail_next_data_reserve_with(DataReserveError::Closed);
    let closed_receiver = closed.accept_request("closed", primary(1, 1, None));
    assert!(closed.drive_one(HarnessInput::AcceptedCommand));
    assert_eq!(
        request_result(&closed_receiver),
        Err(OperationError::ConnectionLost)
    );
    assert_eq!(
        closed.driver.close_reason(),
        Some(GenerationCloseReason::TransportLost)
    );
    assert_eq!(closed.closer.count(), 1);
}

/// Confirms closing rejects new Data admission without consuming either the
/// caller's Primary body or its completion endpoint.
#[test]
fn closing_returns_unconsumed_data_admission_values() {
    let mut harness = DriverHarness::new();
    assert!(harness.drive_one(HarnessInput::Connected));
    assert!(harness.drive_one(HarnessInput::Shutdown(
        GenerationCloseReason::LocalDisconnect,
    )));
    let body = Some(unsigned(&[7]));
    let message = primary(2, 1, body.clone());
    let (completion, receiver) =
        FakeCompletion::channel("late", harness.trace.clone());

    let error = harness
        .driver
        .try_accept_request(message, completion)
        .expect_err("closing Driver must return Data admission ownership");

    assert_eq!(error.kind(), &DataAdmissionErrorKind::Closing);
    assert_eq!(error.message().body(), &body);
    let (returned, completion) = error.into_parts();
    assert_eq!(returned.body(), &body);
    drop(completion);
    assert!(receiver.try_recv().is_err());
}

/// Confirms post-reservation Closed and Invariant failures consume the permit,
/// complete the Data command once, and fail the generation closed as specified.
#[test]
fn reserved_data_admission_failures_close_with_stable_reason() {
    let cases = [
        (
            ReservedDataAdmissionError::Closed,
            GenerationCloseReason::TransportLost,
        ),
        (
            ReservedDataAdmissionError::Invariant,
            GenerationCloseReason::RuntimeInvariant,
        ),
    ];

    for (admission_error, close_reason) in cases {
        let mut harness = DriverHarness::new();
        assert!(harness.drive_one(HarnessInput::Connected));
        enter_selected(&mut harness);
        harness
            .driver
            .writer()
            .fail_next_reserved_data_with(admission_error);
        let receiver = harness.accept_send("send", primary(1, 1, None));

        assert!(harness.drive_one(HarnessInput::AcceptedCommand));

        assert_eq!(send_result(&receiver), Err(OperationError::ConnectionLost));
        assert_eq!(harness.driver.close_reason(), Some(close_reason));
        assert_eq!(harness.closer.count(), 1);
        assert!(receiver.try_recv().is_err());
    }
}

/// Confirms Data reservation never consumes Control capacity and both lanes
/// retain frames in their shared FIFO admission order.
#[test]
fn control_and_data_lanes_are_isolated_but_share_wire_order() {
    let mut harness = DriverHarness::with_limits(256, 512, 1, 1);
    assert!(harness.drive_one(HarnessInput::Connected));
    enter_selected(&mut harness);
    let send = harness.accept_send("send", primary(1, 1, None));
    assert!(harness.drive_one(HarnessInput::AcceptedCommand));
    drive_message(
        &mut harness,
        ProtocolMessage::Control(ControlMessage::LinktestRequest {
            system_bytes: SystemBytes::new(77),
        }),
    );

    let admitted = harness.driver.writer().admitted();

    assert!(matches!(admitted[1].message, ProtocolMessage::Data(_)));

    assert!(matches!(admitted[2].message, ProtocolMessage::Control(_)));
    assert!(send.try_recv().is_err());
}

/// Confirms Send maps all writer outcomes and an attributable Reject without
/// duplicate completion when the retained unique outcome arrives later.
#[test]
fn send_outcomes_and_peer_reject_complete_exactly_once() {
    let cases = [
        (
            WriteOutcome::NotWritten(transport_fault()),
            OperationError::ConnectionLost,
        ),
        (
            WriteOutcome::Indeterminate(transport_fault()),
            OperationError::DeliveryIndeterminate,
        ),
    ];
    for (outcome, expected) in cases {
        let mut harness = DriverHarness::new();
        assert!(harness.drive_one(HarnessInput::Connected));
        enter_selected(&mut harness);
        let receiver = harness.accept_send("send", primary(1, 1, None));
        assert!(harness.drive_one(HarnessInput::AcceptedCommand));
        let (write_id, _) = admitted_data(&harness, 0);
        assert!(harness.drive_one(HarnessInput::WriteOutcome { write_id, outcome }));
        assert_eq!(send_result(&receiver), Err(expected));
        assert_eq!(
            harness.driver.close_reason(),
            Some(GenerationCloseReason::TransportLost)
        );
    }

    let mut rejected = DriverHarness::new();
    assert!(rejected.drive_one(HarnessInput::Connected));
    enter_selected(&mut rejected);
    let receiver = rejected.accept_send("send", primary(1, 1, None));
    assert!(rejected.drive_one(HarnessInput::AcceptedCommand));
    let (write_id, data) = admitted_data(&rejected, 0);
    let header = data.header();
    drive_message(
        &mut rejected,
        ProtocolMessage::Control(ControlMessage::RejectRequest {
            session_id: header.session_id().get(),
            header_byte_2: 0,
            reason: NonZeroStatus::new(3).unwrap(),
            system_bytes: header.system_bytes(),
        }),
    );
    assert_eq!(
        send_result(&receiver),
        Err(OperationError::PeerRejected {
            reason: NonZeroStatus::new(3).unwrap(),
        })
    );
    assert!(rejected.drive_one(HarnessInput::WriteOutcome {
        write_id,
        outcome: WriteOutcome::Committed,
    }));
    assert!(receiver.try_recv().is_err());
    assert_eq!(rejected.driver.close_reason(), None);
}

/// Confirms a committed-first Request remains pending before T3 expires and
/// later materializes the matched Secondary including its typed-empty body.
#[test]
fn request_committed_first_waits_and_materializes_secondary() {
    let mut harness = DriverHarness::new();
    assert!(harness.drive_one(HarnessInput::Connected));
    enter_selected(&mut harness);
    let receiver = harness.accept_request("request", primary(4, 3, None));
    assert!(harness.drive_one(HarnessInput::AcceptedCommand));
    let (write_id, data) = admitted_data(&harness, 0);
    assert!(harness.drive_one(HarnessInput::WriteOutcome {
        write_id,
        outcome: WriteOutcome::Committed,
    }));
    harness
        .clock
        .set(seconds(10));
    assert!(harness.drive_one(HarnessInput::AdvanceTime));
    assert!(receiver.try_recv().is_err());
    assert_eq!(
        harness.driver.next_deadline(),
        Some(seconds(30))
    );
    let header = data.header();
    let body = Some(empty_list());
    drive_message(
        &mut harness,
        inbound_data(
            7,
            header.stream().get(),
            4,
            false,
            header.system_bytes().get(),
            body.clone(),
        ),
    );
    let secondary = request_result(&receiver).expect("matching Secondary must succeed");
    assert_eq!(secondary.stream, header.stream());
    assert_eq!(secondary.function, Function::new(4));
    assert_eq!(secondary.body, body);
    assert_eq!(
        secondary.context.header(),
        &[0, 7, 4, 4, 0, 0, 0, 0, 0, 0]
    );
    assert_eq!(secondary.context.generation().get(), 17);
}

/// Uses actual commit time through Driver and gives T3 priority at equality.
#[test]
fn delayed_commit_and_response_boundary_do_not_extend_t3() {
    for processing_seconds in [46, 47] {
        let mut harness = DriverHarness::new();
        assert!(harness.drive_one(HarnessInput::Connected));
        enter_selected(&mut harness);
        let receiver = harness.accept_request("request", primary(1, 1, None));
        assert!(harness.drive_one(HarnessInput::AcceptedCommand));
        let (write_id, data) = admitted_data(&harness, 0);
        harness.driver.on_write_outcome_at(
            write_id,
            WriteOutcome::Committed,
            seconds(2),
            seconds(10),
        );
        assert!(receiver.try_recv().is_err());
        harness
            .clock
            .set(seconds(processing_seconds));
        drive_message(
            &mut harness,
            inbound_data(7, 1, 2, false, data.header().system_bytes().get(), None),
        );
        let result = request_result(&receiver);
        if processing_seconds == 46 {
            assert!(result.is_ok());
        } else {
            assert_eq!(
                result,
                Err(OperationError::RequestTimeout {
                    context: MessageContext::from_data(
                        harness.driver.generation(),
                        data.header()
                    )
                })
            );
        }
        assert!(receiver.try_recv().is_err());
        assert_eq!(harness.core.pending_data_transaction_count(), 0);
        assert_eq!(harness.driver.close_reason(), None);
    }
}

/// A callback delayed past T3 settles timeout in its own Driver action batch.
#[test]
fn overdue_commit_callback_times_out_without_an_extra_clock_turn() {
    let mut harness = DriverHarness::new();
    assert!(harness.drive_one(HarnessInput::Connected));
    enter_selected(&mut harness);
    let receiver = harness.accept_request("request", primary(1, 1, None));
    assert!(harness.drive_one(HarnessInput::AcceptedCommand));
    let (write_id, data) = admitted_data(&harness, 0);
    harness.driver.on_write_outcome_at(
        write_id,
        WriteOutcome::Committed,
        seconds(2),
        seconds(47),
    );
    assert_eq!(
        request_result(&receiver),
        Err(OperationError::RequestTimeout {
            context: MessageContext::from_data(
                harness.driver.generation(),
                data.header()
            )
        })
    );
    assert!(receiver.try_recv().is_err());
    assert!(!harness.driver.has_admitted_write(write_id));
    assert_eq!(harness.driver.close_reason(), None);
}

/// Confirms a fast Secondary completes before the writer outcome, while a
/// later writer fault does not overwrite success but still closes transport.
#[test]
fn fast_secondary_then_writer_fault_preserves_success_and_closes() {
    let mut harness = DriverHarness::new();
    assert!(harness.drive_one(HarnessInput::Connected));
    enter_selected(&mut harness);
    let receiver = harness.accept_request("request", primary(1, 1, None));
    assert!(harness.drive_one(HarnessInput::AcceptedCommand));
    let (write_id, data) = admitted_data(&harness, 0);
    let header = data.header();
    drive_message(
        &mut harness,
        inbound_data(7, 1, 2, false, header.system_bytes().get(), None),
    );
    assert!(request_result(&receiver).is_ok());
    assert_eq!(harness.core.pending_write_count(), 1);

    assert!(harness.drive_one(HarnessInput::WriteOutcome {
        write_id,
        outcome: WriteOutcome::Indeterminate(transport_fault()),
    }));

    assert!(receiver.try_recv().is_err());
    assert_eq!(
        harness.driver.close_reason(),
        Some(GenerationCloseReason::TransportLost)
    );
}

/// Confirms every normal-Secondary header field participates in matching and
/// mismatches leave the Request available for a later exact response.
#[test]
fn request_matcher_rejects_each_wrong_field_then_accepts_exact_secondary() {
    let mut harness = DriverHarness::new();
    assert!(harness.drive_one(HarnessInput::Connected));
    enter_selected(&mut harness);
    let receiver = harness.accept_request("request", primary(3, 5, None));
    assert!(harness.drive_one(HarnessInput::AcceptedCommand));
    let (_, request) = admitted_data(&harness, 0);
    let system_bytes = request.header().system_bytes().get();
    let mismatches = [
        inbound_data(8, 3, 6, false, system_bytes, None),
        inbound_data(7, 3, 6, false, system_bytes + 1, None),
        inbound_data(7, 4, 6, false, system_bytes, None),
        inbound_data(7, 3, 6, true, system_bytes, None),
        inbound_data(7, 3, 8, false, system_bytes, None),
    ];
    for mismatch in mismatches {
        drive_message(&mut harness, mismatch);
        assert!(receiver.try_recv().is_err());
        assert_eq!(harness.core.pending_data_transaction_count(), 1);
    }

    drive_message(
        &mut harness,
        inbound_data(7, 3, 6, false, system_bytes, None),
    );
    assert!(request_result(&receiver).is_ok());
    assert_eq!(harness.core.pending_data_transaction_count(), 0);
}

/// Confirms concurrent Requests can receive Secondary responses and writer
/// outcomes in independent, deliberately reversed orders.
#[test]
fn concurrent_requests_complete_out_of_order_with_outcomes_out_of_order() {
    let mut harness = DriverHarness::new();
    assert!(harness.drive_one(HarnessInput::Connected));
    enter_selected(&mut harness);
    let first = harness.accept_request("first", primary(1, 1, None));
    let second = harness.accept_request("second", primary(2, 3, None));
    assert!(harness.drive_one(HarnessInput::AcceptedCommand));
    assert!(harness.drive_one(HarnessInput::AcceptedCommand));
    let (first_write, first_data) = admitted_data(&harness, 0);
    let (second_write, second_data) = admitted_data(&harness, 1);

    drive_message(
        &mut harness,
        inbound_data(
            7,
            2,
            4,
            false,
            second_data.header().system_bytes().get(),
            None,
        ),
    );
    assert!(request_result(&second).is_ok());
    assert!(first.try_recv().is_err());
    assert!(harness.drive_one(HarnessInput::WriteOutcome {
        write_id: second_write,
        outcome: WriteOutcome::Committed,
    }));
    assert!(harness.drive_one(HarnessInput::WriteOutcome {
        write_id: first_write,
        outcome: WriteOutcome::Committed,
    }));
    drive_message(
        &mut harness,
        inbound_data(
            7,
            1,
            2,
            false,
            first_data.header().system_bytes().get(),
            None,
        ),
    );
    assert!(request_result(&first).is_ok());
}

/// Confirms F255 Request avoids F+1 overflow and terminates only on its exact
/// header-only F0 transaction-abort contract.
#[test]
fn function_255_request_matches_only_header_only_f0_abort() {
    let mut harness = DriverHarness::new();
    assert!(harness.drive_one(HarnessInput::Connected));
    enter_selected(&mut harness);
    let receiver = harness.accept_request("request", primary(7, 255, None));
    assert!(harness.drive_one(HarnessInput::AcceptedCommand));
    let (_, data) = admitted_data(&harness, 0);
    let system_bytes = data.header().system_bytes().get();
    drive_message(
        &mut harness,
        inbound_data(
            7,
            7,
            0,
            false,
            system_bytes,
            Some(empty_list()),
        ),
    );
    assert!(receiver.try_recv().is_err());
    drive_message(
        &mut harness,
        inbound_data(7, 7, 0, false, system_bytes, None),
    );
    assert_eq!(
        request_result(&receiver),
        Err(OperationError::Protocol(ProtocolError::TransactionAborted))
    );
    assert_eq!(harness.core.tombstone_count(), 1);
}

/// Confirms request transaction capacity rejects before frame creation,
/// releases its already reserved permit, and is reusable after completion.
#[test]
fn transaction_capacity_releases_permit_and_recovers_after_response() {
    let mut harness = DriverHarness::with_limits(1, 4, 8, 2);
    assert!(harness.drive_one(HarnessInput::Connected));
    enter_selected(&mut harness);
    let first = harness.accept_request("first", primary(1, 1, None));
    assert!(harness.drive_one(HarnessInput::AcceptedCommand));
    let (_, first_data) = admitted_data(&harness, 0);
    let rejected = harness.accept_request("rejected", primary(2, 1, None));
    harness.trace.clear();
    assert!(harness.drive_one(HarnessInput::AcceptedCommand));
    assert_eq!(request_result(&rejected), Err(OperationError::Backpressure));
    assert_eq!(harness.core.pending_data_transaction_count(), 1);
    assert!(harness
        .trace
        .events()
        .iter()
        .any(|event| matches!(event, TraceEvent::DataPermitReleased { .. })));

    drive_message(
        &mut harness,
        inbound_data(
            7,
            1,
            2,
            false,
            first_data.header().system_bytes().get(),
            None,
        ),
    );
    assert!(request_result(&first).is_ok());
    let third = harness.accept_request("third", primary(3, 1, None));
    assert!(harness.drive_one(HarnessInput::AcceptedCommand));
    assert_eq!(harness.core.pending_data_transaction_count(), 1);
    assert!(third.try_recv().is_err());
}

/// Confirms bounded tombstones isolate duplicate and late Secondary traffic
/// without completing another command or creating an outbound response.
#[test]
fn tombstones_are_bounded_and_late_secondary_is_isolated() {
    let mut harness = DriverHarness::with_limits(4, 1, 8, 4);
    assert!(harness.drive_one(HarnessInput::Connected));
    enter_selected(&mut harness);
    let first = harness.accept_request("first", primary(1, 1, None));
    let second = harness.accept_request("second", primary(2, 1, None));
    assert!(harness.drive_one(HarnessInput::AcceptedCommand));
    assert!(harness.drive_one(HarnessInput::AcceptedCommand));
    let (_, first_data) = admitted_data(&harness, 0);
    let (_, second_data) = admitted_data(&harness, 1);
    let first_response = inbound_data(
        7,
        1,
        2,
        false,
        first_data.header().system_bytes().get(),
        None,
    );
    let second_response = inbound_data(
        7,
        2,
        2,
        false,
        second_data.header().system_bytes().get(),
        None,
    );
    drive_message(&mut harness, first_response.clone());
    assert!(request_result(&first).is_ok());
    drive_message(&mut harness, second_response.clone());
    assert!(request_result(&second).is_ok());
    assert_eq!(harness.core.tombstone_count(), 1);
    let admitted_count = harness.driver.writer().admitted().len();

    drive_message(&mut harness, second_response);
    drive_message(&mut harness, first_response);

    assert_eq!(harness.core.tombstone_count(), 1);
    assert_eq!(harness.driver.writer().admitted().len(), admitted_count);
    assert_eq!(harness.core.open_core_command_count(), 0);
}

/// Confirms peer Separate completes open Data commands as deselected while
/// retained accepted writes still accept their sole late committed outcomes.
#[test]
fn peer_separate_completes_data_but_retains_late_write_outcomes() {
    let mut harness = DriverHarness::new();
    assert!(harness.drive_one(HarnessInput::Connected));
    enter_selected(&mut harness);
    let send = harness.accept_send("send", primary(1, 1, None));
    let request = harness.accept_request("request", primary(2, 1, None));
    assert!(harness.drive_one(HarnessInput::AcceptedCommand));
    assert!(harness.drive_one(HarnessInput::AcceptedCommand));
    let (send_write, _) = admitted_data(&harness, 0);
    let (request_write, _) = admitted_data(&harness, 1);
    drive_message(
        &mut harness,
        ProtocolMessage::Control(ControlMessage::SeparateRequest {
            session_id: u16::MAX,
            system_bytes: SystemBytes::new(999),
        }),
    );
    assert!(send.try_recv().is_err());
    assert!(request.try_recv().is_err());
    assert!(harness.drive_one(HarnessInput::WriteOutcome {
        write_id: request_write,
        outcome: WriteOutcome::Committed,
    }));
    assert!(harness.drive_one(HarnessInput::WriteOutcome {
        write_id: send_write,
        outcome: WriteOutcome::Committed,
    }));
    assert!(send_result(&send).is_ok());
    assert_eq!(
        request_result(&request),
        Err(OperationError::SessionDeselected)
    );
    assert!(send.try_recv().is_err());
    assert!(request.try_recv().is_err());
}

/// Confirms shutdown drains table-owned and queued Control, Send, and Request
/// endpoints with their own result variants in deterministic exactly-once order.
#[test]
fn shutdown_mixed_drain_preserves_typed_exactly_once_results() {
    let mut harness = DriverHarness::new();
    assert!(harness.drive_one(HarnessInput::Connected));
    enter_selected(&mut harness);
    let open_request = harness.accept_request("open-request", primary(1, 1, None));
    assert!(harness.drive_one(HarnessInput::AcceptedCommand));
    let queued_send = harness.accept_send("queued-send", primary(2, 1, None));
    let queued_control = harness.accept("queued-control", ControlIntent::Linktest);
    harness.trace.clear();

    assert!(harness.drive_one(HarnessInput::Shutdown(
        GenerationCloseReason::LocalDisconnect,
    )));

    assert!(open_request.try_recv().is_err());
    harness.driver.on_writer_stopped(harness.clock.now());
    assert_eq!(
        request_result(&open_request),
        Err(OperationError::DeliveryIndeterminate)
    );
    assert_eq!(
        send_result(&queued_send),
        Err(OperationError::ConnectionLost)
    );
    assert_eq!(
        control_result(&queued_control),
        Err(OperationError::ConnectionLost)
    );
    assert_eq!(harness.driver.pending_completion_count(), 0);
    assert_eq!(harness.driver.queued_command_count(), 0);
    let events = harness.trace.events();
    let typed: Vec<_> = events
        .iter()
        .filter(|event| {
            matches!(
                event,
                TraceEvent::CommandCompleted { .. }
                    | TraceEvent::SendCommandCompleted { .. }
                    | TraceEvent::RequestCommandCompleted { .. }
            )
        })
        .collect();
    assert!(matches!(
        typed.as_slice(),
        [
            TraceEvent::SendCommandCompleted {
                label: "queued-send",
                ..
            },
            TraceEvent::CommandCompleted {
                label: "queued-control",
                ..
            },
            TraceEvent::RequestCommandCompleted {
                label: "open-request",
                ..
            }
        ]
    ));
}

/// Shutdown preserves all three visibility facts for pending Sends and Requests.
#[test]
fn shutdown_waits_for_actual_write_visibility_before_typed_settlement() {
    for request in [false, true] {
        for outcome in [
            WriteOutcome::Committed,
            WriteOutcome::NotWritten(transport_fault()),
            WriteOutcome::Indeterminate(transport_fault()),
        ] {
            let mut harness = DriverHarness::new();
            assert!(harness.drive_one(HarnessInput::Connected));
            enter_selected(&mut harness);
            let receiver = if request {
                harness.accept_request("pending", primary(1, 1, None))
            } else {
                harness.accept_send("pending", primary(1, 1, None))
            };
            assert!(harness.drive_one(HarnessInput::AcceptedCommand));
            let (write_id, _) = admitted_data(&harness, 0);
            assert!(harness.drive_one(HarnessInput::Shutdown(
                GenerationCloseReason::LocalDisconnect
            )));
            assert!(receiver.try_recv().is_err());
            assert_eq!(harness.driver.pending_completion_count(), 1);
            assert_eq!(harness.closer.count(), 1);
            assert!(harness.driver.has_admitted_write(write_id));
            assert!(harness.drive_one(HarnessInput::WriteOutcome { write_id, outcome }));
            let expected_error = match outcome {
                WriteOutcome::Indeterminate(_) => OperationError::DeliveryIndeterminate,
                _ => OperationError::ConnectionLost,
            };
            if request {
                assert_eq!(request_result(&receiver), Err(expected_error));
            } else if outcome == WriteOutcome::Committed {
                assert!(send_result(&receiver).is_ok());
            } else {
                assert_eq!(send_result(&receiver), Err(expected_error));
            }
            harness.driver.on_writer_stopped(harness.clock.now());
            harness.driver.on_writer_stopped(harness.clock.now());
            assert!(receiver.try_recv().is_err());
            assert_eq!(harness.core.open_core_command_count(), 0);
            assert_eq!(harness.driver.pending_completion_count(), 0);
            assert_eq!(harness.core.pending_write_count(), 0);
            assert_eq!(harness.closer.count(), 1);
            assert_eq!(
                harness.driver.close_reason(),
                Some(GenerationCloseReason::LocalDisconnect)
            );
        }
    }
}

/// One failed write cannot falsely settle an independent unresolved write.
#[test]
fn writer_fault_keeps_other_write_pending_until_its_own_outcome() {
    let mut harness = DriverHarness::new();
    assert!(harness.drive_one(HarnessInput::Connected));
    enter_selected(&mut harness);
    let first = harness.accept_send("first", primary(1, 1, None));
    let second = harness.accept_send("second", primary(2, 1, None));
    assert!(harness.drive_one(HarnessInput::AcceptedCommand));
    assert!(harness.drive_one(HarnessInput::AcceptedCommand));
    let (first_write, _) = admitted_data(&harness, 0);
    let (second_write, _) = admitted_data(&harness, 1);
    assert!(harness.drive_one(HarnessInput::WriteOutcome {
        write_id: first_write,
        outcome: WriteOutcome::Indeterminate(transport_fault()),
    }));
    assert_eq!(
        send_result(&first),
        Err(OperationError::DeliveryIndeterminate)
    );
    assert!(second.try_recv().is_err());
    assert!(harness.drive_one(HarnessInput::WriteOutcome {
        write_id: second_write,
        outcome: WriteOutcome::NotWritten(transport_fault()),
    }));
    assert_eq!(send_result(&second), Err(OperationError::ConnectionLost));
    assert!(first.try_recv().is_err());
    assert!(second.try_recv().is_err());
    assert_eq!(harness.driver.pending_completion_count(), 0);
}

/// A due control timeout closes transport without erasing a delayed Send commit.
#[test]
fn delayed_send_commit_survives_t6_priority_and_physical_close() {
    let mut harness = DriverHarness::new();
    assert!(harness.drive_one(HarnessInput::Connected));
    enter_selected(&mut harness);
    let probe = harness.accept("probe", ControlIntent::Linktest);
    assert!(harness.drive_one(HarnessInput::AcceptedCommand));
    let probe_write = harness.driver.writer().admitted().last().unwrap().write_id;
    assert!(harness.drive_one(HarnessInput::WriteOutcome {
        write_id: probe_write,
        outcome: WriteOutcome::Committed
    }));
    let send = harness.accept_send("send", primary(1, 1, None));
    assert!(harness.drive_one(HarnessInput::AcceptedCommand));
    let (write_id, _) = admitted_data(&harness, 0);
    harness.driver.on_write_outcome_at(
        write_id,
        WriteOutcome::Committed,
        seconds(1),
        seconds(5),
    );
    assert_eq!(
        control_result(&probe),
        Err(OperationError::Timeout(TimeoutKind::T6))
    );
    assert!(send_result(&send).is_ok());
    assert_eq!(harness.closer.count(), 1);
    assert_eq!(harness.driver.pending_completion_count(), 0);
}

/// Writer finalization does not overwrite a Secondary received before shutdown.
#[test]
fn finalizing_missing_write_outcome_preserves_fast_secondary_success() {
    let mut harness = DriverHarness::new();
    assert!(harness.drive_one(HarnessInput::Connected));
    enter_selected(&mut harness);
    let request = harness.accept_request("request", primary(1, 1, None));
    assert!(harness.drive_one(HarnessInput::AcceptedCommand));
    let (_, message) = admitted_data(&harness, 0);
    drive_message(
        &mut harness,
        inbound_data(7, 1, 2, false, message.header().system_bytes().get(), None),
    );
    assert!(request_result(&request).is_ok());
    assert!(harness.drive_one(HarnessInput::Shutdown(GenerationCloseReason::TransportLost)));
    harness.driver.on_writer_stopped(harness.clock.now());
    assert!(request.try_recv().is_err());
    assert_eq!(harness.core.pending_write_count(), 0);
    assert_eq!(harness.driver.pending_completion_count(), 0);
}

/// Confirms dropping a Send receiver is benign and completion still occurs
/// exactly once in the shared typed trace.
#[test]
fn dropped_send_receiver_does_not_disrupt_completion() {
    let mut harness = DriverHarness::new();
    assert!(harness.drive_one(HarnessInput::Connected));
    enter_selected(&mut harness);
    let receiver = harness.accept_send("dropped", primary(1, 1, None));
    assert!(harness.drive_one(HarnessInput::AcceptedCommand));
    let (write_id, _) = admitted_data(&harness, 0);
    drop(receiver);
    harness.trace.clear();

    assert!(harness.drive_one(HarnessInput::WriteOutcome {
        write_id,
        outcome: WriteOutcome::Committed,
    }));

    assert_eq!(
        harness.trace.events(),
        vec![
            TraceEvent::WriterOutcome {
                write_id,
                outcome: WriteOutcome::Committed,
            },
            TraceEvent::SendCommandCompleted {
                label: "dropped",
                result: Ok(SendReceipt::new(
                    ConnectionGeneration::new(17),
                )),
            },
        ]
    );
}

/// Confirms WriteId and System Bytes use their maximum values once and never
/// wrap; the next Data command fails the generation closed with typed drain.
#[test]
fn data_identifier_allocators_use_maximum_once_then_fail_closed() {
    let mut harness = DriverHarness::new();
    assert!(harness.drive_one(HarnessInput::Connected));
    enter_selected(&mut harness);
    harness.core
        .seed_identifiers(Some(u64::MAX), Some(u32::MAX));
    let maximum = harness.accept_send("maximum", primary(1, 1, None));
    assert!(harness.drive_one(HarnessInput::AcceptedCommand));
    let (write_id, data) = admitted_data(&harness, 0);
    assert_eq!(write_id, WriteId::new(u64::MAX));
    assert_eq!(data.header().system_bytes(), SystemBytes::new(u32::MAX));
    let exhausted = harness.accept_request("exhausted", primary(1, 1, None));

    assert!(harness.drive_one(HarnessInput::AcceptedCommand));

    assert_eq!(
        request_result(&exhausted),
        Err(OperationError::ConnectionLost)
    );
    assert!(maximum.try_recv().is_err());
    harness.driver.on_writer_stopped(harness.clock.now());
    assert_eq!(
        send_result(&maximum),
        Err(OperationError::DeliveryIndeterminate)
    );
    assert_eq!(
        harness.driver.close_reason(),
        Some(GenerationCloseReason::RuntimeInvariant)
    );
}

/// Exhausting System Bytes requests rotation and preserves the final write's fact.
#[test]
fn system_bytes_retirement_keeps_last_send_until_actual_commit() {
    let mut harness = DriverHarness::new();
    assert!(harness.drive_one(HarnessInput::Connected));
    enter_selected(&mut harness);
    harness.core
        .seed_identifiers(Some(10), Some(u32::MAX));
    let last = harness.accept_send("last", primary(1, 1, None));
    assert!(harness.drive_one(HarnessInput::AcceptedCommand));
    let (write_id, message) = admitted_data(&harness, 0);
    assert_eq!(message.header().system_bytes().get(), u32::MAX);
    let exhausted = harness.accept_request("exhausted", primary(1, 1, None));
    assert!(harness.drive_one(HarnessInput::AcceptedCommand));
    assert_eq!(
        request_result(&exhausted),
        Err(OperationError::ConnectionLost)
    );
    assert!(last.try_recv().is_err());
    assert_eq!(
        harness.driver.close_reason(),
        Some(GenerationCloseReason::SystemBytesExhausted)
    );
    assert_eq!(harness.driver.writer().admitted().len(), 2);
    assert!(harness.drive_one(HarnessInput::WriteOutcome {
        write_id,
        outcome: WriteOutcome::Committed
    }));
    assert!(send_result(&last).is_ok());
    harness.driver.on_writer_stopped(harness.clock.now());
    assert_eq!(harness.driver.pending_completion_count(), 0);
    assert_eq!(harness.core.pending_write_count(), 0);
    assert_eq!(harness.closer.count(), 1);
    assert!(last.try_recv().is_err());
    assert!(exhausted.try_recv().is_err());
}

/// Unsupported SType wins over PType and Reject copies the exact received facts.
#[test]
fn malformed_header_priority_and_reject_preserve_original_context() {
    for (p_type, s_type, reason, reference) in [
        (3, 99, NonZeroStatus::new(1).unwrap(), 99),
        (3, 5, NonZeroStatus::new(2).unwrap(), 3),
    ] {
        let mut harness = DriverHarness::new();
        assert!(harness.drive_one(HarnessInput::Connected));
        let frame = [0, 0, 0, 10, 0x12, 0x34, 0, 0, p_type, s_type, 1, 2, 3, 4];
        let decoded = decode(&frame);
        assert!(harness.driver.on_decode_step_with_header(decoded, None, MonoTime::from_nanos(0)));
        let error = harness.driver.take_protocol_error().unwrap();
        assert_eq!(
            error.context.header(),
            <&[u8; 10]>::try_from(&frame[4..]).unwrap()
        );
        let expected = if s_type == 99 {
            HeaderViolationKind::UnknownSessionType { s_type }
        } else {
            HeaderViolationKind::UnknownPresentationType { p_type }
        };
        assert_eq!(error.kind, InboundViolationKind::Header(expected));
        assert!(error.source.is_none());
        let ProtocolMessage::Control(ControlMessage::RejectRequest {
            session_id,
            header_byte_2,
            reason: actual,
            system_bytes,
        }) = harness.driver.writer().admitted().last().unwrap().message
        else {
            panic!("expected Reject");
        };
        assert_eq!(session_id, 0x1234);
        assert_eq!(header_byte_2, reference);
        assert_eq!(actual, reason);
        assert_eq!(system_bytes.get(), 0x01020304);
        assert_eq!(harness.driver.close_reason(), None);
    }
}

/// Error pressure never overwrites earlier reports or consumes Primary capacity.
#[test]
fn reliable_protocol_error_overflow_closes_without_overwriting_prior_report() {
    let mut harness = DriverHarness::with_driver_limits(DriverLimits {
        protocol_error_capacity: 1,
        ..WIDE
    });
    assert!(harness.drive_one(HarnessInput::Connected));
    enter_selected(&mut harness);
    drive_message(&mut harness, inbound_data(7, 1, 1, false, 42, None));
    let bytes = [0, 0, 0, 10, 255, 255, 1, 0, 0, 5, 0, 0, 0, 1];
    assert!(harness.driver.on_decode_step_with_header(
        decode(&bytes),
        None,
        MonoTime::from_nanos(0)
    ));
    assert!(!harness.driver.on_decode_step_with_header(
        decode(&bytes),
        None,
        MonoTime::from_nanos(0)
    ));
    assert_eq!(
        harness.driver.close_reason(),
        Some(GenerationCloseReason::ApplicationBackpressure)
    );
    assert!(harness.driver.take_protocol_error().is_some());
    assert!(harness.driver.take_protocol_error().is_none());
    assert!(harness.driver.take_inbound().is_some());
}

/// Delivers a peer W=1 Primary and extracts its exclusive public reply token.
fn peer_token(harness: &mut DriverHarness, function: u8) -> ReplyToken {
    drive_message(harness, inbound_data(7, 3, function, true, 42, None));
    let event = harness.driver.take_inbound().unwrap();
    assert_eq!(
        event.context().header(),
        &[0, 7, 0x83, function, 0, 0, 0, 0, 0, 42]
    );
    assert_eq!(event.context().generation().get(), 17);
    let (_, InboundToken::Reply(token)) = event.into_parts() else {
        panic!("W=1 must provide reply capability");
    };
    token
}

/// Driver materializes an exclusive token and completes reply from its actual write.
#[test]
fn inbound_token_reply_runs_through_common_command_and_writer_paths() {
    let mut harness = DriverHarness::new();
    assert!(harness.drive_one(HarnessInput::Connected));
    enter_selected(&mut harness);
    let token = peer_token(&mut harness, 3);
    let (completion, receiver) =
        FakeCompletion::channel("reply", harness.trace.clone());
    assert!(harness
        .driver
        .try_accept_reply(
            ReplyIntent::Secondary,
            token,
            Some(binary(&[4])),
            completion
        )
        .is_ok());
    assert!(harness.drive_one(HarnessInput::AcceptedCommand));
    assert!(receiver.try_recv().is_err());
    let (write_id, message) = admitted_data(&harness, 0);
    assert_eq!(message.header().function().get(), 4);
    assert_eq!(message.header().system_bytes().get(), 42);
    assert!(!message.header().reply_expected());
    assert_eq!(harness.core.capability_count(), 0);
    assert!(harness.drive_one(HarnessInput::WriteOutcome {
        write_id,
        outcome: WriteOutcome::Committed
    }));
    assert!(send_result(&receiver).is_ok());
    assert_eq!(harness.driver.close_reason(), None);
}

/// F255 preflight returns the original token, allowing explicit abort or abandon.
#[test]
fn f255_reply_rejection_returns_token_for_abort_or_abandon() {
    for intent in [
        ReplyIntent::Abort,
        ReplyIntent::Abandon,
    ] {
        let mut harness = DriverHarness::new();
        assert!(harness.drive_one(HarnessInput::Connected));
        enter_selected(&mut harness);
        let token = peer_token(&mut harness, 255);
        let (completion, receiver) =
            FakeCompletion::channel("reply", harness.trace.clone());
        let Err((completion, DriverCommandResult::ReplyRejected { token, error, .. })) = harness
            .driver
            .try_accept_reply(ReplyIntent::Secondary, token, None, completion)
        else {
            panic!("normal F255 reply must be rejected");
        };
        assert_eq!(error, OperationError::ReplyRequiresAbort);
        assert!(receiver.try_recv().is_err());
        assert_eq!(harness.core.capability_count(), 1);
        assert!(harness
            .driver
            .try_accept_reply(intent, token, None, completion)
            .is_ok());
        assert!(harness.drive_one(HarnessInput::AcceptedCommand));
        if intent == ReplyIntent::Abandon {
            assert_eq!(control_result(&receiver), Ok(()));
        } else {
            let (write_id, reply) = admitted_data(&harness, 0);
            assert_eq!(reply.header().function().get(), 0);
            assert!(reply.body().is_none());
            assert!(harness.drive_one(HarnessInput::WriteOutcome {
                write_id,
                outcome: WriteOutcome::Committed
            }));
            assert!(send_result(&receiver).is_ok());
        }
        assert_eq!(harness.core.capability_count(), 0);
    }
}

/// Writer saturation returns reply inputs after queue acceptance, before Core use.
#[test]
fn reply_writer_full_retains_capability_and_original_body() {
    let mut harness = DriverHarness::with_limits(4, 4, 4, 0);
    assert!(harness.drive_one(HarnessInput::Connected));
    enter_selected(&mut harness);
    let token = peer_token(&mut harness, 1);
    let (completion, receiver) =
        FakeCompletion::channel("reply", harness.trace.clone());
    let body = Some(binary(&[7]));
    assert!(harness
        .driver
        .try_accept_reply(
            ReplyIntent::Secondary,
            token,
            body.clone(),
            completion
        )
        .is_ok());
    assert!(harness.drive_one(HarnessInput::AcceptedCommand));
    let DriverCommandResult::ReplyRejected {
        token,
        body: returned,
        error,
        ..
    } = receiver.try_recv().unwrap()
    else {
        panic!("pre-Core failure must return token");
    };
    assert_eq!(returned, body);
    assert_eq!(error, OperationError::Backpressure);
    assert_eq!(harness.core.capability_count(), 1);
    assert_eq!(harness.driver.close_reason(), None);
    let (completion, abandoned) =
        FakeCompletion::channel("abandon", harness.trace.clone());
    assert!(harness
        .driver
        .try_accept_reply(ReplyIntent::Abandon, token, None, completion)
        .is_ok());
    assert!(harness.drive_one(HarnessInput::AcceptedCommand));
    assert_eq!(control_result(&abandoned), Ok(()));
}

/// Foreign ownership is rejected without consuming a token; queued close returns it.
#[test]
fn foreign_reply_and_queued_shutdown_preserve_exclusive_token() {
    let mut origin = DriverHarness::new();
    assert!(origin.drive_one(HarnessInput::Connected));
    enter_selected(&mut origin);
    let token = peer_token(&mut origin, 1);
    let mut foreign = DriverHarness::build(256, 512, 1_024, 1_024, WIDE, 2);
    let (completion, receiver) =
        FakeCompletion::channel("reply", origin.trace.clone());
    let Err((completion, DriverCommandResult::ReplyRejected { token, error, .. })) = foreign
        .driver
        .try_accept_reply(ReplyIntent::Secondary, token, None, completion)
    else {
        panic!("foreign token must be rejected");
    };
    assert_eq!(error, OperationError::ReplyCapabilityUnavailable);
    assert!(origin
        .driver
        .try_accept_reply(ReplyIntent::Secondary, token, None, completion)
        .is_ok());
    assert!(origin.drive_one(HarnessInput::Shutdown(GenerationCloseReason::LocalStop)));
    assert!(matches!(
        receiver.try_recv().unwrap(),
        DriverCommandResult::ReplyRejected {
            error: OperationError::ConnectionLost,
            ..
        }
    ));
    assert_eq!(origin.core.capability_count(), 0);
    assert!(receiver.try_recv().is_err());
}

/// Deselect's sent-request barrier returns reply ownership until peer rejection.
#[test]
fn deselect_barrier_returns_reply_token_and_rejection_reopens_admission() {
        let mut harness = DriverHarness::new();
    assert!(harness.drive_one(HarnessInput::Connected));
    enter_selected(&mut harness);
    let deselect = harness.accept("deselect", ControlIntent::Deselect);
    assert!(harness.drive_one(HarnessInput::AcceptedCommand));
    let admitted = harness.driver.writer().admitted().last().unwrap();
    let ProtocolMessage::Control(ControlMessage::DeselectRequest { system_bytes, .. }) =
        admitted.message
    else {
        panic!("Deselect request");
    };
    let token = peer_token(&mut harness, 1);
    let (completion, reply_result) =
        FakeCompletion::channel("reply", harness.trace.clone());
    let Err((completion, DriverCommandResult::ReplyRejected { token, error, .. })) = harness
        .driver
        .try_accept_reply(ReplyIntent::Secondary, token, None, completion)
    else {
        panic!("Data must not follow Deselect.req");
    };
    assert_eq!(error, OperationError::Draining);
    assert_eq!(harness.core.capability_count(), 1);
    drive_message(
        &mut harness,
        ProtocolMessage::Control(ControlMessage::DeselectResponse {
            session_id: u16::MAX,
            system_bytes,
            status: 2,
        }),
    );
    assert!(matches!(
        control_result(&deselect),
        Err(OperationError::DeselectRejected { .. })
    ));
    assert!(harness
        .driver
        .try_accept_reply(ReplyIntent::Secondary, token, None, completion)
        .is_ok());
    assert!(harness.drive_one(HarnessInput::AcceptedCommand));
    let (write_id, _) = admitted_data(&harness, 0);
    assert!(harness.drive_one(HarnessInput::WriteOutcome {
        write_id,
        outcome: WriteOutcome::Committed
    }));
    assert!(send_result(&reply_result).is_ok());
    assert_eq!(harness.driver.close_reason(), None);
}

/// Reliable delivery pressure closes the generation and revokes minted tokens.
#[test]
fn full_inbound_delivery_revokes_new_and_previous_capabilities() {
    let mut harness = DriverHarness::new();
    assert!(harness.drive_one(HarnessInput::Connected));
    enter_selected(&mut harness);
    harness.driver.set_delivery_capacity(1, 1);
    drive_message(&mut harness, inbound_data(7, 1, 1, true, 10, None));
    drive_message(&mut harness, inbound_data(7, 1, 1, true, 11, None));
    assert_eq!(
        harness.driver.close_reason(),
        Some(GenerationCloseReason::ApplicationBackpressure)
    );
    assert_eq!(harness.core.capability_count(), 0);
    assert!(harness.driver.take_inbound().is_some());
    assert!(harness.driver.take_inbound().is_none());
}

/// Graceful close waits for Separate commit and retains its cause over late T8.
#[test]
fn pure_driver_shutdown_drain_preserves_barrier_and_first_reason() {
    let mut harness = DriverHarness::new();
    harness.drive_one(HarnessInput::Connected);
    enter_selected(&mut harness);
    harness.driver.begin_shutdown_drain();
    assert!(harness.driver.shutdown_drain_ready());
    harness
        .driver
        .finish_shutdown_drain(GenerationCloseReason::LocalStop, harness.clock.now());
    assert!(!harness.driver.transport_closed());
    let write_id = harness.driver.writer().admitted().last().unwrap().write_id;
    harness.drive_one(HarnessInput::WriteOutcome {
        write_id,
        outcome: WriteOutcome::Committed,
    });
    assert!(harness.driver.transport_closed());
    harness.driver.on_shutdown(
        GenerationCloseReason::CommunicationsTimeout(
            CommunicationsTimeoutKind::T8,
        ),
        None,
        harness.clock.now(),
    );
    assert_eq!(
        harness.driver.close_reason(),
        Some(GenerationCloseReason::LocalStop)
    );
}

/// Delivery certainty depends on byte visibility, independent of I/O failure category.
#[test]
fn transport_fault_categories_preserve_zero_and_partial_write_distinction() {
    for kind in [
        TransportFaultKind::WriteZero,
        TransportFaultKind::TimedOut,
        TransportFaultKind::Cancelled,
        TransportFaultKind::Other,
    ] {
        for partial in [false, true] {
            let mut harness = DriverHarness::new();
            harness.drive_one(HarnessInput::Connected);
            enter_selected(&mut harness);
            let receiver = harness.accept_send("send", primary(1, 1, None));
            harness.drive_one(HarnessInput::AcceptedCommand);
            let (write_id, _) = admitted_data(&harness, 0);
            let fault = TransportFault::new(kind);
            let outcome = if partial {
                WriteOutcome::Indeterminate(fault)
            } else {
                WriteOutcome::NotWritten(fault)
            };
            harness.drive_one(HarnessInput::WriteOutcome { write_id, outcome });
            assert_eq!(
                send_result(&receiver),
                Err(if partial {
                    OperationError::DeliveryIndeterminate
                } else {
                    OperationError::ConnectionLost
                })
            );
        }
    }
}

/// Byte pressure preserves ownership and releases charges on dequeue and close.
#[test]
fn command_byte_budget_preserves_ownership_and_releases_on_every_exit() {
    let mut harness = DriverHarness::with_driver_limits(DriverLimits {
        command_byte_capacity: 19,
        ..WIDE
    });
    harness.drive_one(HarnessInput::Connected);
    enter_selected(&mut harness);
    let first = harness.accept_send(
        "first",
        primary(1, 1, Some(binary(&[1, 2, 3]))),
    );
    assert_eq!(harness.driver.command_bytes(), 19);
    let next_id = harness.driver.next_command_id();
    let (completion, receiver) =
        FakeCompletion::channel("retry", harness.trace.clone());
    let rejected = match harness
        .driver
        .try_accept_request(primary(1, 1, None), completion)
    {
        Err(error) => error,
        Ok(()) => panic!("encoded byte budget must be enforced"),
    };
    assert_eq!(rejected.kind(), &DataAdmissionErrorKind::Full);
    assert_eq!(harness.driver.next_command_id(), next_id);
    assert!(receiver.try_recv().is_err());
    let _control = harness.accept("linktest", ControlIntent::Linktest);
    assert!(harness.drive_one(HarnessInput::AcceptedCommand));
    assert_eq!(harness.driver.command_bytes(), 0);
    let (message, completion) = rejected.into_parts();
    assert!(harness
        .driver
        .try_accept_request(message, completion)
        .is_ok());
    assert_eq!(harness.driver.command_bytes(), 14);
    harness
        .driver
        .on_shutdown(GenerationCloseReason::LocalStop, None, MonoTime::from_nanos(0));
    assert_eq!(harness.driver.command_bytes(), 0);
    let DriverCommandResult::PrimaryRejected {
        message,
        reply_expected: true,
        error: OperationError::ConnectionLost,
    } = receiver.try_recv().unwrap()
    else {
        panic!("shutdown must return the queued, unconsumed Primary");
    };
    assert_eq!(message, primary(1, 1, None));
    assert!(first.try_recv().is_err());
}

/// A too-large body is returned before queuing or consuming a protocol identity.
#[test]
fn command_wire_limit_rejection_returns_original_body() {
    let mut harness = DriverHarness::with_driver_limits(DriverLimits {
        maximum_message_length: 10,
        ..WIDE
    });
    let message = primary(1, 1, Some(binary(&[3])));
    let (completion, receiver) =
        FakeCompletion::channel("large", harness.trace.clone());
    let error = match harness.driver.try_accept_send(message.clone(), completion) {
        Err(error) => error,
        Ok(()) => panic!("oversized body must be rejected before admission"),
    };
    assert_eq!(
        error.kind(),
        &DataAdmissionErrorKind::Invalid(OperationError::OutboundFrameTooLarge {
            text_length: 3,
            maximum_message_length: 10,
        })
    );
    assert_eq!(error.message(), &message);
    assert_eq!(harness.driver.command_bytes(), 0);
    assert_eq!(harness.driver.next_command_id(), Some(CommandId::new(0)));
    assert!(receiver.try_recv().is_err());
}

/// Reply budget rejection returns the capability for a subsequent accepted retry.
#[test]
fn reply_byte_budget_returns_token_for_retry_after_queue_drain() {
    let mut harness = DriverHarness::with_driver_limits(DriverLimits {
        command_byte_capacity: 19,
        ..WIDE
    });
    harness.drive_one(HarnessInput::Connected);
    enter_selected(&mut harness);
    drive_message(&mut harness, inbound_data(7, 1, 1, true, 42, None));
    let (_, InboundToken::Reply(token)) =
        harness.driver.take_inbound().unwrap().into_parts()
    else {
        panic!("reply capability expected")
    };
    let _first = harness.accept_send("first", primary(1, 1, None));
    let body = Some(binary(&[1, 2, 3]));
    let (completion, receiver) =
        FakeCompletion::channel("reply", harness.trace.clone());
    let (completion, rejected) = harness
        .driver
        .try_accept_reply(
            ReplyIntent::Secondary,
            token,
            body.clone(),
            completion,
        )
        .unwrap_err();
    let DriverCommandResult::ReplyRejected {
        intent,
        token,
        body: returned,
        error,
    } = rejected
    else {
        panic!("reply inputs must be returned")
    };
    assert_eq!(error, OperationError::Backpressure);
    assert_eq!(returned, body);
    assert!(receiver.try_recv().is_err());
    assert_eq!(harness.core.capability_count(), 1);
    harness.drive_one(HarnessInput::AcceptedCommand);
    assert!(harness
        .driver
        .try_accept_reply(intent, token, returned, completion)
        .is_ok());
    assert_eq!(harness.driver.command_bytes(), 19);
    harness.drive_one(HarnessInput::AcceptedCommand);
    assert_eq!(harness.driver.command_bytes(), 0);
    assert_eq!(harness.core.capability_count(), 0);
}

/// A full command queue returns ownership and allows retry after one dequeue.
#[test]
fn command_fifo_bound_preserves_rejected_message_and_completion() {
    let mut harness = DriverHarness::with_driver_limits(DriverLimits {
        command_capacity: 1,
        ..WIDE
    });
    assert!(harness.drive_one(HarnessInput::Connected));
    enter_selected(&mut harness);
    let probe = harness.accept("probe", ControlIntent::Linktest);
    let message = primary(1, 1, Some(binary(&[1, 2, 3])));
    let (completion, receiver) =
        FakeCompletion::channel("send", harness.trace.clone());
    let rejected = match harness.driver.try_accept_send(message.clone(), completion) {
        Err(rejected) => rejected,
        Ok(()) => panic!("full command FIFO must reject"),
    };
    assert_eq!(rejected.kind(), &DataAdmissionErrorKind::Full);
    assert_eq!(rejected.message(), &message);
    assert!(receiver.try_recv().is_err());
    let (message, completion) = rejected.into_parts();
    assert!(harness.drive_one(HarnessInput::AcceptedCommand));
    assert!(harness.driver.try_accept_send(message, completion).is_ok());
    assert!(harness.drive_one(HarnessInput::AcceptedCommand));
    let (write_id, _) = admitted_data(&harness, 0);
    assert!(harness.drive_one(HarnessInput::WriteOutcome {
        write_id,
        outcome: WriteOutcome::Committed
    }));
    assert!(send_result(&receiver).is_ok());
    assert!(probe.try_recv().is_err());
    assert_eq!(harness.driver.close_reason(), None);
}

/// Control and Data share one finite command FIFO and closing takes precedence.
#[test]
fn control_admission_bound_returns_original_unconsumed_endpoint() {
    let mut harness = DriverHarness::with_driver_limits(DriverLimits {
        command_capacity: 1,
        ..WIDE
    });
    let _first = harness.accept_send("send", primary(1, 1, None));
    let (completion, receiver) =
        FakeCompletion::channel("control", harness.trace.clone());
    let rejected = harness
        .driver
        .try_accept_control(ControlIntent::Select, completion)
        .unwrap_err();
    assert_eq!(rejected.kind(), ControlAdmissionErrorKind::Full);
    let (intent, completion) = rejected.into_parts();
    assert_eq!(intent, ControlIntent::Select);
    assert!(receiver.try_recv().is_err());
    harness
        .driver
        .on_shutdown(GenerationCloseReason::LocalStop, None, MonoTime::from_nanos(0));
    let rejected = harness
        .driver
        .try_accept_control(intent, completion)
        .unwrap_err();
    assert_eq!(rejected.kind(), ControlAdmissionErrorKind::Closing);
    assert!(receiver.try_recv().is_err());
}

/// Confirms an incorrect result type or unmapped Send commit leaves the
/// completion endpoint available for typed shutdown instead of dropping it or
/// delivering the malformed result; the remaining batch is not applied.
#[test]
fn invalid_completion_results_preserve_endpoints_for_typed_drain() {
    let malformed_results = [
        CoreCommandResult::Control(Ok(())),
        CoreCommandResult::Send(Ok(WriteId::new(999))),
    ];
    for malformed_result in malformed_results {
        let mut harness = DriverHarness::new();
        assert!(harness.drive_one(HarnessInput::Connected));
        enter_selected(&mut harness);
        let open_send = harness.accept_send("open-send", primary(1, 1, None));
        assert!(harness.drive_one(HarnessInput::AcceptedCommand));
        let queued_request = harness.accept_request("queued-request", primary(2, 1, None));
        harness.trace.clear();
        let mut actions = Vec::new();
        actions.push(CoreAction::CompleteCommand {
            command_id: CommandId::new(0),
            result: malformed_result,
        });
        actions.push(CoreAction::SessionStateChanged(SessionState::NotSelected));

        harness.apply_actions(actions);

        assert!(open_send.try_recv().is_err());
        harness.driver.on_writer_stopped(harness.clock.now());
        assert_eq!(
            send_result(&open_send),
            Err(OperationError::DeliveryIndeterminate)
        );
        assert_eq!(
            request_result(&queued_request),
            Err(OperationError::ConnectionLost)
        );
        assert!(open_send.try_recv().is_err());
        assert!(queued_request.try_recv().is_err());
        assert_eq!(harness.driver.pending_completion_count(), 0);
        assert_eq!(harness.driver.queued_command_count(), 0);
        assert_eq!(harness.core.open_core_command_count(), 0);
        assert_eq!(
            harness.driver.close_reason(),
            Some(GenerationCloseReason::RuntimeInvariant)
        );
        assert_eq!(
            harness.trace.events(),
            vec![
                TraceEvent::TransportClosed,
                TraceEvent::RequestCommandCompleted {
                    label: "queued-request",
                    result: Err(OperationError::ConnectionLost),
                },
                TraceEvent::SendCommandCompleted {
                    label: "open-send",
                    result: Err(OperationError::DeliveryIndeterminate),
                },
            ]
        );
    }
}

/// Confirms Data CommandId exhaustion releases the already reserved permit,
/// does not produce another frame or wrap the ID, and completes open, current,
/// and queued Data commands through their own result types exactly once.
#[test]
fn data_command_id_exhaustion_releases_permit_and_drains_typed_commands() {
    let mut harness = DriverHarness::new();
    assert!(harness.drive_one(HarnessInput::Connected));
    enter_selected(&mut harness);
    harness.driver.skip_command_ids(CommandId::new(u64::MAX));
    let maximum = harness.accept_send("maximum", primary(1, 1, None));
    assert!(harness.drive_one(HarnessInput::AcceptedCommand));
    let exhausted = harness.accept_request("exhausted", primary(2, 1, None));
    let queued = harness.accept_send("queued", primary(3, 1, None));
    harness.trace.clear();

    assert!(harness.drive_one(HarnessInput::AcceptedCommand));

    assert!(maximum.try_recv().is_err());
    harness.driver.on_writer_stopped(harness.clock.now());
    assert_eq!(
        send_result(&maximum),
        Err(OperationError::DeliveryIndeterminate)
    );
    assert_eq!(
        request_result(&exhausted),
        Err(OperationError::ConnectionLost)
    );
    assert_eq!(send_result(&queued), Err(OperationError::ConnectionLost));
    assert!(maximum.try_recv().is_err());
    assert!(exhausted.try_recv().is_err());
    assert!(queued.try_recv().is_err());
    assert_eq!(harness.driver.next_command_id(), None);
    assert_eq!(harness.driver.pending_completion_count(), 0);
    assert_eq!(harness.driver.queued_command_count(), 0);
    assert_eq!(harness.core.open_core_command_count(), 0);
    assert_eq!(harness.driver.writer().admitted().len(), 2);
    assert_eq!(
        harness.driver.close_reason(),
        Some(GenerationCloseReason::RuntimeInvariant)
    );
    assert_eq!(
        harness.trace.events(),
        vec![
            TraceEvent::DataPermitReserved { reservation_id: 1 },
            TraceEvent::DataPermitReleased { reservation_id: 1 },
            TraceEvent::RequestCommandCompleted {
                label: "exhausted",
                result: Err(OperationError::ConnectionLost),
            },
            TraceEvent::TransportClosed,
            TraceEvent::SendCommandCompleted {
                label: "queued",
                result: Err(OperationError::ConnectionLost),
            },
            TraceEvent::SendCommandCompleted {
                label: "maximum",
                result: Err(OperationError::DeliveryIndeterminate),
            },
        ]
    );
}

/// Confirms a core-produced Data frame without its required permit fails
/// closed before Writer admission and drains both table-owned and queued
/// endpoints once, without relying on an unknown WriteId to detect the error.
#[test]
fn data_frame_without_permit_fails_closed_before_admission() {
    let mut harness = DriverHarness::new();
    assert!(harness.drive_one(HarnessInput::Connected));
    enter_selected(&mut harness);
    let open_send = harness.accept_send("open-send", primary(1, 1, None));
    let queued_request = harness.accept_request("queued-request", primary(2, 1, None));
    harness.core.hold_next_command();
    assert!(harness.drive_one(HarnessInput::AcceptedCommand));
    harness
        .core
        .append_held(CoreAction::SessionStateChanged(SessionState::NotSelected));
    assert_eq!(harness.core.pending_write_count(), 1);
    harness.trace.clear();

    assert!(harness.drive_one(HarnessInput::AdvanceTime));

    assert_eq!(send_result(&open_send), Err(OperationError::ConnectionLost));
    assert_eq!(
        request_result(&queued_request),
        Err(OperationError::ConnectionLost)
    );
    assert!(open_send.try_recv().is_err());
    assert!(queued_request.try_recv().is_err());
    assert_eq!(harness.core.pending_write_count(), 0);
    assert_eq!(harness.driver.pending_completion_count(), 0);
    assert_eq!(harness.driver.queued_command_count(), 0);
    assert_eq!(harness.driver.writer().admitted().len(), 1);
    assert_eq!(
        harness.driver.close_reason(),
        Some(GenerationCloseReason::RuntimeInvariant)
    );
    assert_eq!(harness.closer.count(), 1);
    assert_eq!(
        harness.trace.events(),
        vec![
            TraceEvent::SendCommandCompleted {
                label: "open-send",
                result: Err(OperationError::ConnectionLost),
            },
            TraceEvent::TransportClosed,
            TraceEvent::RequestCommandCompleted {
                label: "queued-request",
                result: Err(OperationError::ConnectionLost),
            },
        ]
    );
}

/// Confirms a malformed batch containing two Data frames consumes its sole
/// permit only for the first frame, rejects the second before admission, and
/// retains the first admitted write for its unique late outcome after shutdown.
#[test]
fn multiple_data_frames_in_one_batch_fail_closed_after_single_permit_consumption() {
    let mut harness = DriverHarness::new();
    assert!(harness.drive_one(HarnessInput::Connected));
    enter_selected(&mut harness);
    let first = harness.accept_send("first", primary(1, 1, None));
    let second = harness.accept_request("second", primary(2, 1, None));
    harness.core.hold_next_command();
    assert!(harness.drive_one(HarnessInput::AcceptedCommand));
    harness.trace.clear();

    assert!(harness.drive_one(HarnessInput::AcceptedCommand));

    assert!(first.try_recv().is_err());
    assert_eq!(request_result(&second), Err(OperationError::ConnectionLost));
    assert_eq!(harness.core.pending_write_count(), 1);
    assert_eq!(harness.core.pending_data_transaction_count(), 0);
    assert_eq!(harness.driver.pending_completion_count(), 1);
    assert_eq!(harness.driver.writer().admitted().len(), 2);
    assert_eq!(
        harness.driver.close_reason(),
        Some(GenerationCloseReason::RuntimeInvariant)
    );
    assert_eq!(harness.closer.count(), 1);
    let (write_id, _) = admitted_data(&harness, 0);
    let events = harness.trace.events();
    assert!(matches!(
        events.as_slice(),
        [
            TraceEvent::DataPermitReserved { reservation_id: 1 },
            TraceEvent::DataPermitConsumed {
                reservation_id: 1,
                ..
            },
            TraceEvent::WriterAdmitted { .. },
            TraceEvent::RequestCommandCompleted {
                label: "second",
                ..
            },
            TraceEvent::TransportClosed,
        ]
    ));
    assert!(harness.drive_one(HarnessInput::WriteOutcome {
        write_id,
        outcome: WriteOutcome::Committed,
    }));
    assert_eq!(harness.core.pending_write_count(), 0);
    assert!(send_result(&first).is_ok());
    assert!(first.try_recv().is_err());
    assert!(second.try_recv().is_err());
    assert_eq!(harness.closer.count(), 1);
}

/// Malformed/over-limit Secondary bodies cannot consume the pending request.
#[test]
fn invalid_secondary_retains_transaction_and_detailed_decoder_error() {
    for limited in [false, true] {
        let mut harness = DriverHarness::new();
        assert!(harness.drive_one(HarnessInput::Connected));
        enter_selected(&mut harness);
        let receiver = harness.accept_request("request", primary(1, 1, None));
        assert!(harness.drive_one(HarnessInput::AcceptedCommand));
        let kind = if limited {
            PayloadViolationKind::ResourceLimitExceeded
        } else {
            PayloadViolationKind::MalformedSecs2
        };
        let ProtocolMessage::Data(carrier) = inbound_data(7, 1, 2, false, 0, None) else {
            panic!("a Data frame carries the body");
        };
        let source = SecsItemError {
            description: "body".to_string(),
        };
        assert!(harness.driver.on_decode_step_with_header(
            DecodeStep::PayloadViolation {
                header: carrier.header(),
                kind,
                source: source.clone(),
            },
            None,
            MonoTime::from_nanos(0)
        ));
        let error = harness.driver.take_protocol_error().unwrap();
        assert_eq!(error.kind, InboundViolationKind::Payload(kind));
        assert_eq!(error.context.header(), &carrier.header().to_bytes());
        assert_eq!(error.source, Some(source));
        assert_eq!(harness.core.pending_data_transaction_count(), 1);
        assert!(receiver.try_recv().is_err());
        assert!(harness.driver.take_inbound().is_none());
        drive_message(&mut harness, inbound_data(7, 1, 2, false, 0, None));
        assert!(request_result(&receiver).is_ok());
        assert_eq!(harness.driver.close_reason(), None);
    }
}

/// A retained raw header names the frame of a violation; a protocol message and
/// an unfinished frame leave no report.
#[test]
fn raw_header_names_the_violating_frame() {
    let mut harness = DriverHarness::new();
    assert!(harness.drive_one(HarnessInput::Connected));
    let raw = [0, 7, 1, 2, 0, 0, 0, 0, 0, 9];
    let frame = [0, 0, 0, 10, 255, 255, 1, 0, 0, 5, 0, 0, 0, 1];
    assert!(harness.driver.on_decode_step_with_header(
        decode(&frame),
        Some(raw),
        MonoTime::from_nanos(0)
    ));
    let error = harness.driver.take_protocol_error().unwrap();
    assert_eq!(error.context.header(), &raw);
    assert_eq!(
        error.kind,
        InboundViolationKind::Header(HeaderViolationKind::InvalidField { index: 2 })
    );
    assert!(harness.driver.on_decode_step_with_header(
        DecodeStep::Message(ProtocolMessage::Control(ControlMessage::LinktestRequest {
            system_bytes: SystemBytes::new(3),
        })),
        None,
        MonoTime::from_nanos(0)
    ));
    assert_eq!(
        harness.driver.writer().admitted().last().unwrap().message,
        ProtocolMessage::Control(ControlMessage::LinktestResponse {
            system_bytes: SystemBytes::new(3),
        })
    );
    harness.driver.on_decode_step_with_header(
        DecodeStep::NeedMore(FrameReadProgress::AwaitingLength { bytes_seen: 2 }),
        None,
        MonoTime::from_nanos(0),
    );
    assert!(harness.driver.take_protocol_error().is_none());
}

/// A received Reject reaches the observer as a notice of this generation.
#[test]
fn received_reject_is_noticed_once() {
    let mut harness = DriverHarness::new();
    assert!(harness.drive_one(HarnessInput::Connected));
    drive_message(
        &mut harness,
        ProtocolMessage::Control(ControlMessage::RejectRequest {
            session_id: 7,
            header_byte_2: 0,
            reason: NonZeroStatus::new(3).unwrap(),
            system_bytes: SystemBytes::new(5),
        }),
    );
    assert_eq!(harness.notices.get(), 1);
    assert!(harness.drive_one(HarnessInput::AdvanceTime));
    assert_eq!(harness.notices.get(), 1);
}

/// Draining refuses new primaries and control commands; what was accepted
/// before still runs.
#[test]
fn draining_refuses_new_commands_and_runs_accepted_ones() {
    let mut harness = DriverHarness::new();
    assert!(harness.drive_one(HarnessInput::Connected));
    enter_selected(&mut harness);
    let accepted = harness.accept_send("accepted", primary(1, 1, None));
    harness.driver.begin_shutdown_drain();
    assert!(!harness.driver.shutdown_drain_ready());
    let (completion, _late) = FakeCompletion::channel("late", harness.trace.clone());
    let error = harness
        .driver
        .try_accept_send(primary(1, 1, None), completion)
        .expect_err("draining refuses new primaries");
    assert_eq!(error.kind(), &DataAdmissionErrorKind::Draining);
    let (completion, _late) = FakeCompletion::channel("late", harness.trace.clone());
    let error = harness
        .driver
        .try_accept_control(ControlIntent::Linktest, completion)
        .expect_err("draining refuses new control commands");
    assert_eq!(error.kind(), ControlAdmissionErrorKind::Draining);
    assert!(harness.drive_one(HarnessInput::AcceptedCommand));
    let (write_id, _) = admitted_data(&harness, 0);
    assert!(harness.drive_one(HarnessInput::WriteOutcome {
        write_id,
        outcome: WriteOutcome::Committed,
    }));
    assert!(send_result(&accepted).is_ok());
    assert!(harness.driver.shutdown_drain_ready());
    assert!(!harness.drive_one(HarnessInput::AcceptedCommand));
}

/// Admitted frames take strictly increasing wire sequences, and a settled write
/// keeps none.
#[test]
fn admitted_writes_keep_their_wire_sequence_until_settled() {
    let mut harness = DriverHarness::new();
    assert!(harness.drive_one(HarnessInput::Connected));
    enter_selected(&mut harness);
    let first = harness.accept_send("first", primary(1, 1, None));
    let second = harness.accept_send("second", primary(1, 1, None));
    assert!(harness.drive_one(HarnessInput::AcceptedCommand));
    assert!(harness.drive_one(HarnessInput::AcceptedCommand));
    let (first_write, _) = admitted_data(&harness, 0);
    let (second_write, _) = admitted_data(&harness, 1);
    assert_eq!(
        harness.driver.wire_sequence(first_write),
        Some(WireSequence::new(1))
    );
    assert_eq!(
        harness.driver.wire_sequence(second_write),
        Some(WireSequence::new(2))
    );
    assert!(harness.drive_one(HarnessInput::WriteOutcome {
        write_id: first_write,
        outcome: WriteOutcome::Committed,
    }));
    assert_eq!(harness.driver.wire_sequence(first_write), None);
    assert!(harness.driver.has_admitted_write(second_write));
    assert_eq!(
        send_result(&first),
        Ok(SendReceipt::new(ConnectionGeneration::new(17)))
    );
    assert!(second.try_recv().is_err());
}
