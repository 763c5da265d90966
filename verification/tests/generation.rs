//! Rounds of one generation over a scripted core and the real bounded Writer:
//! priorities, graceful and immediate closes, and settlement of every command.

use hsms::api::{ControlIntent, PrimaryMessage, ReplyIntent};
use hsms::config::{ConnectionMode, EndpointConfig, EndpointLimits, RuntimePolicy};
use hsms::endpoint::command::{LifecycleIntent, LifecycleReceipt};
use hsms::endpoint::handle::{EndpointParts, HsmsEndpoint, Ticket};
use hsms::endpoint::runtime::{deliver, generation_facts, HsmsRuntime, Route, SupervisorFacts};
use hsms::error::{OperationError, TimeoutKind};
use hsms::generation::driver::command::{
    CoreCommandKind, DataAdmissionErrorKind, DriverCommandResult,
};
use hsms::generation::driver::driver::{driver_limits, DriverLimits, SessionDriver};
use hsms::generation::driver::ports::{
    CommandCompletion, CoreAction, CoreActions, CoreCommandResult, ProtocolNotice, SessionCore,
    SessionStateObserver, TransportCloser,
};
use hsms::generation::runtime::{
    reader_close_reason, selects_by_itself, GenerationRuntime, RoundChoice, RoundInput,
    RuntimeCompletion, SessionExit, ShutdownPolicy,
};
use hsms::generation::transport::bounded_reader::ReaderReport;
use hsms::generation::transport::bounded_writer::{
    report, BoundedWriter, QueuedFrame, WriterLimits, WriterPolicy, WriterReport, WriterWorker,
};
use hsms::generation::transport::io::{FramingFault, ReadFailure, ReadFrame};
use hsms::generation::transport::tasks::{CleanupPoison, CleanupResult, IoEvent, ReaderEnd};
use hsms::lifecycle::state::{EndpointPhase, SessionState};
use hsms::model::ids::{
    CommandId, ConnectionGeneration, Function, SessionId, Stream, SystemBytes, WireSequence,
    WriteId,
};
use hsms::model::runtime::{
    CloseBarrier, CommunicationsTimeoutKind, GenerationCloseReason, MonoTime, TransportFault,
    TransportFaultKind, WriteOutcome,
};
use hsms::protocol::header::DataHeader;
use hsms::protocol::message::{ControlMessage, DataMessage, ProtocolMessage};
use hsms::protocol::violation::{
    DecodeStep, FrameReadProgress, HeaderViolationKind, InboundViolation,
};
use hsms::secs2::SecsItem;
use std::cell::{Cell, RefCell};
use std::collections::{BTreeSet, VecDeque};
use std::rc::Rc;
use std::sync::Arc;
use tokio::sync::{mpsc, Semaphore};
use tokio::time::Instant;

#[derive(Default)]
struct Script {
    answers: VecDeque<Vec<CoreAction>>,
    state: Option<SessionState>,
    open_commands: usize,
    capabilities: usize,
    owned: BTreeSet<u64>,
    deadline: Option<MonoTime>,
    shutdowns: Vec<(GenerationCloseReason, Option<WriteId>)>,
    commands: BTreeSet<u64>,
    writes: BTreeSet<u64>,
}

/// Core that answers each call with the next scripted batch.
#[derive(Clone, Default)]
struct ScriptedCore {
    script: Rc<RefCell<Script>>,
}

impl ScriptedCore {
    fn answer(&self, actions: Vec<CoreAction>) {
        self.script.borrow_mut().answers.push_back(actions);
    }

    fn next(&self) -> CoreActions {
        let mut script = self.script.borrow_mut();
        let actions = script.answers.pop_front().unwrap_or_default();
        for action in &actions {
            match action {
                CoreAction::SessionStateChanged(state) => script.state = Some(*state),
                CoreAction::SendFrame { write_id, .. } => {
                    script.writes.insert(write_id.get());
                }
                CoreAction::CompleteCommand { command_id, .. } => {
                    script.commands.remove(&command_id.get());
                }
                _ => {}
            }
        }
        VecDeque::from(actions)
    }
}

impl SessionCore for ScriptedCore {
    fn on_connected(&mut self, _now: MonoTime) -> CoreActions {
        self.next()
    }

    fn on_command(&mut self, id: CommandId, _kind: CoreCommandKind, _now: MonoTime) -> CoreActions {
        self.script.borrow_mut().commands.insert(id.get());
        self.next()
    }

    fn on_reply(
        &mut self,
        _id: CommandId,
        _capability: u64,
        _intent: ReplyIntent,
        _body: Option<SecsItem>,
        _now: MonoTime,
    ) -> CoreActions {
        self.next()
    }

    fn on_message(&mut self, _message: ProtocolMessage, _now: MonoTime) -> CoreActions {
        self.next()
    }

    fn on_inbound_violation(&mut self, _violation: InboundViolation, _now: MonoTime) -> CoreActions {
        self.next()
    }

    fn on_write_outcome_at(
        &mut self,
        write_id: WriteId,
        _outcome: WriteOutcome,
        _occurred_at: MonoTime,
        _now: MonoTime,
    ) -> CoreActions {
        self.script.borrow_mut().writes.remove(&write_id.get());
        self.next()
    }

    fn on_shutdown(
        &mut self,
        reason: GenerationCloseReason,
        failed_write_id: Option<WriteId>,
        _now: MonoTime,
    ) -> CoreActions {
        self.script
            .borrow_mut()
            .shutdowns
            .push((reason, failed_write_id));
        self.next()
    }

    fn finish_shutdown_drain(
        &mut self,
        _reason: GenerationCloseReason,
        _now: MonoTime,
    ) -> CoreActions {
        self.next()
    }

    fn finalize_writer(&mut self, _now: MonoTime) -> CoreActions {
        self.script.borrow_mut().writes.clear();
        self.next()
    }

    fn advance_time(&mut self, _now: MonoTime) -> CoreActions {
        self.next()
    }

    fn next_deadline(&self) -> Option<MonoTime> {
        self.script.borrow().deadline
    }

    fn replies_blocked(&self) -> bool {
        false
    }

    fn open_command_count(&self) -> usize {
        self.script.borrow().open_commands
    }

    fn reply_capability_count(&self) -> usize {
        self.script.borrow().capabilities
    }

    fn owns_command(&self, command_id: CommandId) -> bool {
        self.script.borrow().owned.contains(&command_id.get())
    }

    fn state(&self) -> Option<SessionState> {
        self.script.borrow().state
    }

    fn take_notice(&mut self) -> Option<ProtocolNotice> {
        None
    }
}

struct Observer;

impl SessionStateObserver for Observer {
    fn observe(&mut self, _state: SessionState) {}

    fn notice(&mut self, _generation: ConnectionGeneration, _notice: ProtocolNotice) {}
}

struct Completion {
    sender: std::sync::mpsc::Sender<DriverCommandResult>,
}

impl CommandCompletion for Completion {
    fn complete(self, result: DriverCommandResult) {
        let _ = self.sender.send(result);
    }
}

#[derive(Clone, Default)]
struct Closer {
    closes: Rc<Cell<usize>>,
}

impl TransportCloser for Closer {
    fn close(&mut self) {
        self.closes.set(self.closes.get() + 1);
    }
}

type Runtime = GenerationRuntime<ScriptedCore, BoundedWriter, Observer, Completion, Closer>;

struct Generation {
    runtime: Runtime,
    core: ScriptedCore,
    closer: Closer,
    worker: WriterWorker,
    _reports: mpsc::Receiver<WriterReport>,
    permits: Arc<Semaphore>,
    epoch: Instant,
}

const MILLI: u128 = 1_000_000;

fn at(millis: u128) -> MonoTime {
    MonoTime::from_nanos(millis * MILLI)
}

/// Budgets of a connection that nothing here exhausts.
fn budgets() -> RuntimePolicy {
    RuntimePolicy {
        auto_select: true,
        write_bytes: 100,
        inbound_bytes: 200,
        residence: 30_000 * MILLI,
        write: 1_000 * MILLI,
        drain: 1_000 * MILLI,
        cleanup: 1_000 * MILLI,
        shutdown: 2_000 * MILLI,
    }
}

fn policy(drain: u128, shutdown: u128) -> ShutdownPolicy {
    ShutdownPolicy {
        drain: drain * MILLI,
        shutdown: shutdown * MILLI,
        cleanup: 1_000 * MILLI,
    }
}

fn generation(mode: ConnectionMode, auto_select: bool, policy: ShutdownPolicy) -> Generation {
    let core = ScriptedCore::default();
    core.answer(vec![CoreAction::SessionStateChanged(
        SessionState::NotSelected,
    )]);
    let closer = Closer::default();
    let limits = WriterLimits {
        data_lane_capacity: 2,
        critical_lane_capacity: 1,
        max_message_length: 100,
    };
    let writer_policy = WriterPolicy {
        data_bytes: 100,
        residence: 30_000_000_000,
        active_write: 1_000_000_000,
    };
    let epoch = Instant::now();
    let (writer, worker, reports) =
        match BoundedWriter::new(1, limits, writer_policy, epoch) {
            Ok(parts) => parts,
            Err(description) => panic!("{}", description),
        };
    let driver = SessionDriver::new(
        ConnectionGeneration::new(1),
        1,
        core.clone(),
        writer,
        Observer,
        closer.clone(),
        DriverLimits {
            command_capacity: 4,
            command_byte_capacity: 1000,
            inbound_capacity: 4,
            protocol_error_capacity: 4,
            maximum_message_length: 100,
        },
    );
    Generation {
        runtime: GenerationRuntime::new(driver, policy, mode, auto_select),
        core,
        closer,
        worker,
        _reports: reports,
        permits: Arc::new(Semaphore::new(100)),
        epoch,
    }
}

fn primary() -> PrimaryMessage {
    PrimaryMessage::new(Stream::new(1).unwrap(), Function::new(1), None)
}

fn send_frame(write: u64, message: ControlMessage) -> CoreAction {
    CoreAction::SendFrame {
        write_id: WriteId::new(write),
        message: ProtocolMessage::Control(message),
    }
}

fn send_data(write: u64, reply_expected: bool, system_bytes: u32) -> CoreAction {
    CoreAction::SendFrame {
        write_id: WriteId::new(write),
        message: ProtocolMessage::Data(data(1, reply_expected, system_bytes)),
    }
}

fn data(function: u8, reply_expected: bool, system_bytes: u32) -> DataMessage {
    DataMessage::new(
        DataHeader::new(
            SessionId::new(7).unwrap(),
            Stream::new(1).unwrap(),
            Function::new(function),
            reply_expected,
            SystemBytes::new(system_bytes),
        ),
        None,
    )
}

fn complete(id: u64, result: CoreCommandResult) -> CoreAction {
    CoreAction::CompleteCommand {
        command_id: CommandId::new(id),
        result,
    }
}

fn close(reason: GenerationCloseReason, barrier: CloseBarrier) -> CoreAction {
    CoreAction::CloseGeneration { reason, barrier }
}

fn separate() -> ControlMessage {
    ControlMessage::SeparateRequest {
        session_id: u16::MAX,
        system_bytes: SystemBytes::new(99),
    }
}

fn is_command(choice: RoundChoice) -> bool {
    matches!(choice, RoundChoice::Ready(RoundInput::Command))
}

impl Generation {
    fn round(&mut self, input: RoundInput, now: MonoTime) -> bool {
        self.runtime.apply_round(input, None, now)
    }

    fn frame(&mut self) -> QueuedFrame {
        self.worker.queue.try_recv().ok().unwrap()
    }

    fn read(&mut self, message: ProtocolMessage, now: MonoTime) -> bool {
        let report = self.read_report(message, now);
        self.round(RoundInput::Io(Some(IoEvent::Read(report))), now)
    }

    fn read_report(&self, message: ProtocolMessage, occurred_at: MonoTime) -> ReaderReport {
        ReaderReport {
            frame: ReadFrame {
                header: [0; 10],
                decoded: DecodeStep::Message(message),
                occurred_at,
            },
            bytes: self.permits.clone().try_acquire_owned().unwrap(),
            slot: self.permits.clone().try_acquire_owned().unwrap(),
        }
    }

    fn written(&mut self, entry: QueuedFrame, outcome: WriteOutcome, now: MonoTime) -> bool {
        let report = report(entry, outcome, now);
        self.round(RoundInput::Io(Some(IoEvent::Write(report))), now)
    }

    fn completion() -> (
        RuntimeCompletion<Completion>,
        std::sync::mpsc::Receiver<DriverCommandResult>,
    ) {
        let (sender, receiver) = std::sync::mpsc::channel();
        (
            RuntimeCompletion::Application(Completion { sender }),
            receiver,
        )
    }

    fn accept_send(&mut self) -> std::sync::mpsc::Receiver<DriverCommandResult> {
        let (completion, receiver) = Self::completion();
        assert!(self
            .runtime
            .driver_mut()
            .try_accept_send(primary(), completion)
            .is_ok());
        receiver
    }

    fn accept_request(&mut self) -> std::sync::mpsc::Receiver<DriverCommandResult> {
        let (completion, receiver) = Self::completion();
        assert!(self
            .runtime
            .driver_mut()
            .try_accept_request(primary(), completion)
            .is_ok());
        receiver
    }

    /// Closes at once and finishes with both tasks joined.
    fn close(&mut self, reason: GenerationCloseReason, now: MonoTime) -> SessionExit {
        self.runtime.force_close(reason, now);
        self.runtime
            .finish_close(reason, true, CleanupResult::Clean, now)
    }
}

/// An active generation selects once by itself, in ordinary framing.
#[test]
fn active_auto_select_runs_once_and_matches_independent_response() {
    let mut generation = generation(ConnectionMode::Active, true, policy(1, 2));
    assert_eq!(generation.runtime.driver().queued_command_count(), 1);
    assert!(matches!(
        generation.runtime.select_input(false),
        RoundChoice::PollIo
    ));
    assert!(is_command(generation.runtime.select_after_io(None)));
    generation.core.answer(vec![send_frame(
        0,
        ControlMessage::SelectRequest {
            session_id: u16::MAX,
            system_bytes: SystemBytes::new(0),
        },
    )]);
    assert!(generation.round(RoundInput::Command, at(0)));
    let entry = generation.frame();
    assert_eq!(&entry.bytes[..10], &[0, 0, 0, 10, 255, 255, 0, 0, 0, 1]);
    generation.core.answer(vec![]);
    assert!(generation.written(entry, WriteOutcome::Committed, at(0)));
    generation.core.answer(vec![
        CoreAction::SessionStateChanged(SessionState::Selected),
        complete(0, CoreCommandResult::Control(Ok(()))),
    ]);
    assert!(generation.read(
        ProtocolMessage::Control(ControlMessage::SelectResponse {
            session_id: u16::MAX,
            status: 0,
            system_bytes: SystemBytes::new(0),
        }),
        at(0)
    ));
    assert_eq!(
        generation.runtime.driver().state(),
        Some(SessionState::Selected)
    );
    assert_eq!(generation.runtime.driver().queued_command_count(), 0);
    assert!(generation.core.script.borrow().commands.is_empty());
    let exit = generation.close(GenerationCloseReason::LocalStop, at(1));
    assert_eq!(exit.cleanup, CleanupResult::Clean);
    assert_eq!(exit.generation, ConnectionGeneration::new(1));
    assert_eq!(generation.runtime.driver().pending_completion_count(), 0);
    assert_eq!(generation.closer.closes.get(), 1);
}

/// An automatic Select that is not answered ends by T6, and nobody waits for it.
#[test]
fn automatic_select_timeout_closes_without_application_completion() {
    let mut generation = generation(ConnectionMode::Active, true, policy(1, 2));
    generation.core.answer(vec![send_frame(
        0,
        ControlMessage::SelectRequest {
            session_id: u16::MAX,
            system_bytes: SystemBytes::new(0),
        },
    )]);
    assert!(generation.round(RoundInput::Command, at(0)));
    let entry = generation.frame();
    assert!(generation.written(entry, WriteOutcome::Committed, at(0)));
    generation.core.script.borrow_mut().deadline = Some(at(5000));
    assert_eq!(generation.runtime.next_deadline(), Some(at(5000)));
    generation.core.answer(vec![
        complete(
            0,
            CoreCommandResult::Control(Err(OperationError::Timeout(TimeoutKind::T6))),
        ),
        close(
            GenerationCloseReason::CommunicationsTimeout(CommunicationsTimeoutKind::T6),
            CloseBarrier::Immediate,
        ),
    ]);
    assert!(!generation.round(RoundInput::Timer, at(5000)));
    assert_eq!(
        generation.runtime.driver().close_reason(),
        Some(GenerationCloseReason::CommunicationsTimeout(
            CommunicationsTimeoutKind::T6
        ))
    );
    let exit = generation.close(GenerationCloseReason::LocalStop, at(5000));
    assert_eq!(exit.cleanup, CleanupResult::Clean);
    assert_eq!(generation.runtime.driver().pending_completion_count(), 0);
    assert!(generation.core.script.borrow().writes.is_empty());
}

/// Without automatic Select nothing is queued, and the timers go on.
#[test]
fn active_without_auto_select_does_not_queue_control_work() {
    let mut generation = generation(ConnectionMode::Active, false, policy(1, 2));
    assert_eq!(generation.runtime.driver().queued_command_count(), 0);
    generation.core.answer(vec![close(
        GenerationCloseReason::CommunicationsTimeout(CommunicationsTimeoutKind::T7),
        CloseBarrier::Immediate,
    )]);
    assert!(!generation.round(RoundInput::Timer, at(10_000)));
    assert_eq!(
        generation.runtime.driver().close_reason(),
        Some(GenerationCloseReason::CommunicationsTimeout(
            CommunicationsTimeoutKind::T7
        ))
    );
    assert_eq!(
        generation
            .close(GenerationCloseReason::LocalStop, at(10_000))
            .cleanup,
        CleanupResult::Clean
    );
}

/// T7 is the reason reported, whatever the later close says.
#[test]
fn runtime_drives_t7_and_joins_cancelled_workers() {
    let mut generation = generation(ConnectionMode::Passive, true, policy(1, 2));
    assert_eq!(generation.runtime.driver().queued_command_count(), 0);
    assert!(matches!(
        generation.runtime.select_input(true),
        RoundChoice::Ready(RoundInput::Timer)
    ));
    generation.core.answer(vec![close(
        GenerationCloseReason::CommunicationsTimeout(CommunicationsTimeoutKind::T7),
        CloseBarrier::Immediate,
    )]);
    assert!(!generation.round(RoundInput::Timer, at(10_000)));
    let exit = generation.close(GenerationCloseReason::LocalStop, at(10_000));
    assert_eq!(
        exit.reason,
        GenerationCloseReason::CommunicationsTimeout(CommunicationsTimeoutKind::T7)
    );
    assert_eq!(exit.cleanup, CleanupResult::Clean);
}

/// A Secondary that came before the end of the stream completes its request.
#[test]
fn runtime_select_request_and_fin_preserve_completion() {
    let mut generation = generation(ConnectionMode::Passive, true, policy(1, 2));
    generation.core.answer(vec![
        send_frame(
            0,
            ControlMessage::SelectResponse {
                session_id: u16::MAX,
                status: 0,
                system_bytes: SystemBytes::new(9),
            },
        ),
        CoreAction::SessionStateChanged(SessionState::Selected),
    ]);
    assert!(generation.read(
        ProtocolMessage::Control(ControlMessage::SelectRequest {
            session_id: u16::MAX,
            system_bytes: SystemBytes::new(9),
        }),
        at(0)
    ));
    let select = generation.frame();
    assert_eq!(
        select.bytes,
        [0, 0, 0, 10, 255, 255, 0, 0, 0, 2, 0, 0, 0, 9]
    );
    let receiver = generation.accept_request();
    assert!(is_command(generation.runtime.select_input(false)));
    generation.core.answer(vec![send_data(1, true, 0)]);
    assert!(generation.round(RoundInput::Command, at(0)));
    let request = generation.frame();
    assert_eq!(&request.bytes[..10], &[0, 0, 0, 10, 0, 7, 129, 1, 0, 0]);
    generation.core.answer(vec![complete(
        0,
        CoreCommandResult::Request(Ok(data(2, false, 0))),
    )]);
    assert!(generation.read(ProtocolMessage::Data(data(2, false, 0)), at(0)));
    assert!(!generation.round(
        RoundInput::Io(Some(IoEvent::ReaderStopped(ReaderEnd::Failed(
            ReadFailure::EndOfStream {
                progress: FrameReadProgress::AwaitingLength { bytes_seen: 0 }
            }
        )))),
        at(0)
    ));
    let DriverCommandResult::Request(Ok(secondary)) = receiver.try_recv().unwrap() else {
        panic!("Secondary must precede FIN closure")
    };
    assert_eq!(secondary.function, Function::new(2));
    assert_eq!(
        secondary.context.generation(),
        ConnectionGeneration::new(1)
    );
    let exit = generation.close(GenerationCloseReason::LocalStop, at(0));
    assert_eq!(exit.reason, GenerationCloseReason::TransportLost);
    assert_eq!(exit.cleanup, CleanupResult::Clean);
    assert_eq!(generation.runtime.driver().pending_completion_count(), 0);
    assert!(generation.core.script.borrow().writes.is_empty());
}

/// A stop drains an accepted request, refuses new primaries, and separates last.
#[test]
fn graceful_stop_settles_request_before_tail_separate() {
    let mut generation = generation(ConnectionMode::Active, false, policy(1_000, 2_000));
    let receiver = generation.accept_request();
    generation.core.script.borrow_mut().open_commands = 1;
    assert!(!generation.runtime.is_draining());
    generation
        .runtime
        .begin_graceful_close(GenerationCloseReason::LocalStop, &generation.epoch, at(0));
    assert!(generation.runtime.is_draining());
    let original_deadline = generation.runtime.next_deadline();
    assert_eq!(original_deadline, Some(at(1_000)));
    generation
        .runtime
        .begin_graceful_close(GenerationCloseReason::LocalDisconnect, &generation.epoch, at(500));
    assert_eq!(generation.runtime.next_deadline(), original_deadline);
    let (completion, _receiver) = Generation::completion();
    let rejected = generation
        .runtime
        .driver_mut()
        .try_accept_send(primary(), completion);
    assert!(matches!(
        rejected,
        Err(error) if error.kind() == &DataAdmissionErrorKind::Draining
    ));
    generation.core.answer(vec![send_data(0, true, 5)]);
    assert!(generation.round(RoundInput::Command, at(0)));
    let request = generation.frame();
    assert_eq!(request.bytes[6], 129);
    generation.core.answer(vec![complete(
        0,
        CoreCommandResult::Request(Ok(data(2, false, 5))),
    )]);
    assert!(generation.read(ProtocolMessage::Data(data(2, false, 5)), at(0)));
    assert!(matches!(
        receiver.try_recv().unwrap(),
        DriverCommandResult::Request(Ok(_))
    ));
    assert!(generation.written(request, WriteOutcome::Committed, at(0)));
    generation.core.script.borrow_mut().open_commands = 0;
    assert!(matches!(
        generation.runtime.select_input(false),
        RoundChoice::Ready(RoundInput::Shutdown)
    ));
    generation.core.answer(vec![
        send_frame(1, separate()),
        close(
            GenerationCloseReason::LocalStop,
            CloseBarrier::AfterWrite(WriteId::new(1)),
        ),
    ]);
    assert!(generation.round(RoundInput::Shutdown, at(0)));
    assert_eq!(generation.runtime.next_deadline(), Some(at(2_000)));
    let tail = generation.frame();
    assert_eq!(&tail.bytes[..10], &[0, 0, 0, 10, 255, 255, 0, 0, 0, 9]);
    assert!(!generation.written(tail, WriteOutcome::Committed, at(0)));
    let (reason, _) = generation.runtime.finish_plan(&generation.epoch, at(0));
    assert_eq!(reason, GenerationCloseReason::LocalStop);
    let exit = generation
        .runtime
        .finish_close(reason, true, CleanupResult::Clean, at(0));
    assert_eq!(exit.reason, GenerationCloseReason::LocalStop);
    assert_eq!(exit.cleanup, CleanupResult::Clean);
}

/// A reply capability that the application keeps does not extend the drain.
#[test]
fn graceful_disconnect_expires_drain_with_unanswered_peer_primary() {
    let mut generation = generation(ConnectionMode::Active, false, policy(10, 2_000));
    generation.core.answer(vec![CoreAction::DeliverPrimary {
        message: data(1, true, 42),
        capability: Some(3),
    }]);
    generation.core.script.borrow_mut().capabilities = 1;
    assert!(generation.read(ProtocolMessage::Data(data(1, true, 42)), at(0)));
    assert!(generation.runtime.driver_mut().take_inbound().is_some());
    generation
        .runtime
        .begin_graceful_close(GenerationCloseReason::LocalDisconnect, &generation.epoch, at(0));
    assert!(!generation.runtime.driver().shutdown_drain_ready());
    assert!(matches!(
        generation.runtime.select_input(false),
        RoundChoice::PollIo
    ));
    assert!(matches!(
        generation.runtime.select_after_io(None),
        RoundChoice::Wait
    ));
    assert_eq!(generation.runtime.next_deadline(), Some(at(10)));
    generation.core.answer(vec![]);
    generation.core.answer(vec![
        send_frame(0, separate()),
        close(
            GenerationCloseReason::LocalDisconnect,
            CloseBarrier::AfterWrite(WriteId::new(0)),
        ),
    ]);
    assert!(generation.round(RoundInput::Timer, at(10)));
    let tail = generation.frame();
    assert_eq!(tail.bytes[9], 9);
    assert!(!generation.written(tail, WriteOutcome::Committed, at(11)));
    let exit = generation.close(GenerationCloseReason::LocalStop, at(12));
    assert_eq!(exit.reason, GenerationCloseReason::LocalDisconnect);
    assert_eq!(exit.cleanup, CleanupResult::Clean);
}

/// A report with a wrong wire sequence never counts as a success.
#[test]
fn mismatched_writer_sequence_closes_and_settles_conservatively() {
    let mut generation = generation(ConnectionMode::Active, false, policy(1, 2));
    let receiver = generation.accept_send();
    generation.core.answer(vec![send_data(0, false, 0)]);
    generation.core.script.borrow_mut().owned.insert(0);
    assert!(generation.round(RoundInput::Command, at(0)));
    let entry = generation.frame();
    let mut report = report(entry, WriteOutcome::Committed, at(0));
    report.sequence = WireSequence::new(u64::MAX);
    generation.runtime.apply_write_report(report, at(0));
    assert_eq!(
        generation.runtime.driver().close_reason(),
        Some(GenerationCloseReason::RuntimeInvariant)
    );
    assert!(receiver.try_recv().is_err());
    generation.core.answer(vec![complete(
        0,
        CoreCommandResult::Send(Err(OperationError::DeliveryIndeterminate)),
    )]);
    let exit = generation.runtime.finish_close(
        GenerationCloseReason::LocalStop,
        true,
        CleanupResult::Clean,
        at(0),
    );
    assert_eq!(exit.cleanup, CleanupResult::Clean);
    assert!(matches!(
        receiver.try_recv().unwrap(),
        DriverCommandResult::Send(Err(OperationError::DeliveryIndeterminate))
    ));
}

/// A Writer failure that already happened goes before a stop and keeps what was
/// visible.
#[test]
fn writer_terminal_priority_preserves_zero_and_partial_delivery() {
    for partial in [false, true] {
        let mut generation = generation(ConnectionMode::Active, false, policy(1, 2));
        let receiver = generation.accept_send();
        generation.core.answer(vec![send_data(0, false, 0)]);
        assert!(generation.round(RoundInput::Command, at(0)));
        let entry = generation.frame();
        let fault = TransportFault::new(TransportFaultKind::BrokenPipe);
        let (outcome, expected) = if partial {
            (
                WriteOutcome::Indeterminate(fault),
                OperationError::DeliveryIndeterminate,
            )
        } else {
            (
                WriteOutcome::NotWritten(fault),
                OperationError::ConnectionLost,
            )
        };
        generation.core.answer(vec![
            complete(0, CoreCommandResult::Send(Err(expected.clone()))),
            close(
                GenerationCloseReason::TransportLost,
                CloseBarrier::Immediate,
            ),
        ]);
        let report = report(entry, outcome, at(0));
        generation
            .runtime
            .process_ready_priority(Some(IoEvent::Write(report)), at(0));
        generation
            .runtime
            .begin_graceful_close(GenerationCloseReason::LocalStop, &generation.epoch, at(0));
        assert_eq!(
            generation.runtime.driver().close_reason(),
            Some(GenerationCloseReason::TransportLost)
        );
        let exit = generation.close(GenerationCloseReason::LocalStop, at(0));
        assert_eq!(exit.cleanup, CleanupResult::Clean);
        let DriverCommandResult::Send(Err(error)) = receiver.try_recv().unwrap() else {
            panic!("failed send")
        };
        assert_eq!(error, expected);
    }
}

/// A last Separate that the full control lane refuses does not hold the close.
#[test]
fn full_control_lane_rejects_tail_separate_and_still_cleans_up() {
    let mut generation = generation(ConnectionMode::Active, false, policy(1_000, 3_000));
    let (completion, receiver) = Generation::completion();
    assert!(generation
        .runtime
        .driver_mut()
        .try_accept_control(ControlIntent::Linktest, completion)
        .is_ok());
    generation.core.answer(vec![send_frame(
        0,
        ControlMessage::LinktestRequest {
            system_bytes: SystemBytes::new(3),
        },
    )]);
    assert!(generation.round(RoundInput::Command, at(0)));
    let linktest = generation.frame();
    assert_eq!(linktest.bytes[9], 5);
    generation.core.script.borrow_mut().open_commands = 1;
    generation
        .runtime
        .begin_graceful_close(GenerationCloseReason::LocalStop, &generation.epoch, at(0));
    generation.core.answer(vec![]);
    generation.core.answer(vec![
        send_frame(1, separate()),
        close(
            GenerationCloseReason::LocalStop,
            CloseBarrier::AfterWrite(WriteId::new(1)),
        ),
    ]);
    generation.core.answer(vec![complete(
        0,
        CoreCommandResult::Control(Err(OperationError::ConnectionLost)),
    )]);
    assert!(!generation.round(RoundInput::Timer, at(1_000)));
    let exit = generation.close(GenerationCloseReason::LocalDisconnect, at(1_000));
    assert_eq!(exit.cleanup, CleanupResult::Clean);
    assert_eq!(exit.reason, GenerationCloseReason::LocalStop);
    assert_eq!(
        generation.core.script.borrow().shutdowns[0],
        (GenerationCloseReason::LocalStop, Some(WriteId::new(1)))
    );
    assert!(matches!(
        receiver.try_recv().unwrap(),
        DriverCommandResult::Control(Err(_))
    ));
    assert!(generation.worker.queue.try_recv().is_err());
}

/// The total deadline of a graceful close bounds stalled writes, and only another
/// cleanup proves the release.
#[test]
fn absolute_shutdown_bounds_partial_data_and_separate_writes() {
    for data_first in [false, true] {
        let mut generation = generation(ConnectionMode::Active, false, policy(1_000, 2_000));
        let mut receiver = None;
        let mut stalled = Vec::new();
        if data_first {
            receiver = Some(generation.accept_send());
            generation.core.answer(vec![send_data(0, false, 0)]);
            generation.core.script.borrow_mut().owned.insert(0);
            generation.core.script.borrow_mut().open_commands = 1;
            assert!(generation.round(RoundInput::Command, at(0)));
            stalled.push(generation.frame());
        }
        generation
            .runtime
            .begin_graceful_close(GenerationCloseReason::LocalStop, &generation.epoch, at(0));
        generation.core.answer(vec![]);
        generation.core.answer(vec![
            send_frame(1, separate()),
            close(
                GenerationCloseReason::LocalStop,
                CloseBarrier::AfterWrite(WriteId::new(1)),
            ),
        ]);
        assert!(generation.round(RoundInput::Timer, at(1_000)));
        stalled.push(generation.frame());
        assert_eq!(generation.runtime.next_deadline(), Some(at(2_000)));
        assert!(!generation.round(RoundInput::Timer, at(2_000)));
        assert_eq!(
            generation.runtime.driver().close_reason(),
            Some(GenerationCloseReason::LocalStop)
        );
        assert_eq!(
            generation.runtime.finish_plan(&generation.epoch, at(2_000)),
            (GenerationCloseReason::LocalStop, at(2_000))
        );
        let exit = generation.runtime.finish_close(
            GenerationCloseReason::LocalStop,
            false,
            CleanupResult::Poisoned(CleanupPoison::TaskDidNotStop),
            at(2_000),
        );
        assert!(matches!(exit.cleanup, CleanupResult::Poisoned(_)));
        if let Some(receiver) = &receiver {
            assert!(receiver.try_recv().is_err());
        }
        let reason = generation.runtime.begin_recovery(at(2_000));
        assert_eq!(reason, GenerationCloseReason::LocalStop);
        assert_eq!(generation.runtime.cleanup_deadline(&generation.epoch, at(2_000)), at(3_000));
        let settled = if data_first {
            vec![complete(
                0,
                CoreCommandResult::Send(Err(OperationError::DeliveryIndeterminate)),
            )]
        } else {
            vec![]
        };
        generation.core.answer(settled);
        let recovered =
            generation
                .runtime
                .finish_close(reason, true, CleanupResult::Clean, at(2_000));
        assert_eq!(recovered.cleanup, CleanupResult::Clean);
        assert_eq!(recovered.reason, GenerationCloseReason::LocalStop);
        if let Some(receiver) = &receiver {
            assert!(matches!(
                receiver.try_recv().unwrap(),
                DriverCommandResult::Send(Err(OperationError::DeliveryIndeterminate))
            ));
        }
        assert_eq!(generation.closer.closes.get(), 1);
    }
}

/// An endpoint whose application asked it to stop.
struct QueuedStop {
    parts: EndpointParts,
    endpoint: HsmsRuntime,
    ticket: Ticket,
}

impl QueuedStop {
    fn new(generation: &Generation) -> Self {
        let limits = EndpointLimits {
            command_capacity: 2,
            command_bytes: 100,
            reply_capacity: 1,
            reply_bytes: 100,
            application_event_capacity: 2,
            primary_queue_bytes: 1000,
            protocol_error_capacity: 1,
            diagnostic_capacity: 4,
            max_message_length: 64,
            data_lane_capacity: 2,
            critical_lane_capacity: 1,
        };
        let mut parts = HsmsEndpoint::build(EndpointConfig {
            mode: ConnectionMode::Passive,
            limits,
            t8: 5_000 * MILLI,
            runtime: budgets(),
        })
        .ok()
        .unwrap();
        let (state, _) = tokio::sync::watch::channel(parts.handle.snapshot());
        let state = std::mem::replace(&mut parts.state, state);
        let mut endpoint = HsmsRuntime::new(false, state);
        let facts = SupervisorFacts {
            faulted: false,
            running: true,
            current: Some(generation_facts(&generation.runtime)),
        };
        endpoint.publish_state(facts).unwrap();
        let ticket = parts.handle.submit(LifecycleIntent::Stop).ok().unwrap();
        Self {
            parts,
            endpoint,
            ticket,
        }
    }

    /// Takes the queued stop while this fact of the transport tasks is waiting.
    fn receive(&mut self, generation: &mut Generation, terminal: Option<IoEvent>, now: MonoTime) {
        let command = self.parts.commands.try_recv().ok().unwrap();
        let route = self.endpoint.receive_ready(
            &mut generation.runtime,
            terminal,
            now,
            false,
            true,
            Some(command),
        );
        assert!(matches!(route, Route::StopPending));
        generation
            .runtime
            .begin_graceful_close(GenerationCloseReason::LocalStop, &generation.epoch, now);
    }

    /// Ends the generation; only then the stop is answered, with a clean state.
    fn finish(mut self, generation: &mut Generation, now: MonoTime) {
        assert!(self.ticket.answer.try_recv().is_err());
        let (reason, _) = generation.runtime.finish_plan(&generation.epoch, now);
        let exit = generation
            .runtime
            .finish_close(reason, true, CleanupResult::Clean, now);
        let facts = SupervisorFacts {
            faulted: false,
            running: false,
            current: None,
        };
        let ended =
            self.endpoint
                .end_generation(exit, facts, Vec::new(), &mut self.parts.diagnostics);
        assert!(ended.is_ok());
        assert_eq!(
            self.ticket.answer.try_recv().unwrap(),
            Ok(LifecycleReceipt::Closed)
        );
        let snapshot = self.parts.handle.snapshot();
        assert_eq!(snapshot.phase(), EndpointPhase::StoppedClean);
        assert!(snapshot.last_exit().unwrap().clean());
        let record = self.parts.records.try_recv().unwrap();
        assert_eq!(record.sequence(), 0);
        assert_eq!(record.into_event(), HsmsRuntime::closed_event(exit));
    }
}

/// A Reader that ended before a stop was looked at decides the close reason.
#[test]
fn reader_exit_precedes_queued_endpoint_stop() {
    for malformed in [false, true] {
        let mut generation = generation(ConnectionMode::Passive, true, policy(1, 2));
        let end = if malformed {
            ReaderEnd::Failed(ReadFailure::Framing(FramingFault { declared_length: 0 }))
        } else {
            ReaderEnd::Failed(ReadFailure::EndOfStream {
                progress: FrameReadProgress::AwaitingLength { bytes_seen: 0 },
            })
        };
        let mut stop = QueuedStop::new(&generation);
        stop.receive(&mut generation, Some(IoEvent::ReaderStopped(end)), at(0));
        assert_eq!(
            generation.runtime.driver().close_reason(),
            Some(if malformed {
                GenerationCloseReason::ProtocolViolation
            } else {
                GenerationCloseReason::TransportLost
            })
        );
        stop.finish(&mut generation, at(0));
    }
}

/// A due T7 decides the close reason before a stop is looked at.
#[test]
fn due_t7_precedes_queued_endpoint_stop() {
    let mut generation = generation(ConnectionMode::Passive, true, policy(1, 2));
    generation.core.answer(vec![close(
        GenerationCloseReason::CommunicationsTimeout(CommunicationsTimeoutKind::T7),
        CloseBarrier::Immediate,
    )]);
    let mut stop = QueuedStop::new(&generation);
    stop.receive(&mut generation, None, at(10_000));
    assert_eq!(
        generation.runtime.driver().close_reason(),
        Some(GenerationCloseReason::CommunicationsTimeout(
            CommunicationsTimeoutKind::T7
        ))
    );
    stop.finish(&mut generation, at(10_000));
}

/// Commands and transport work take turns.
#[test]
fn commands_and_io_take_turns() {
    let mut generation = generation(ConnectionMode::Active, false, policy(1, 2));
    let _first = generation.accept_send();
    let _second = generation.accept_send();
    assert!(matches!(
        generation.runtime.select_input(false),
        RoundChoice::PollIo
    ));
    assert!(generation.read(
        ProtocolMessage::Control(ControlMessage::LinktestRequest {
            system_bytes: SystemBytes::new(1),
        }),
        at(0)
    ));
    assert!(is_command(generation.runtime.select_input(false)));
    generation.core.answer(vec![send_data(0, false, 0)]);
    assert!(generation.round(RoundInput::Command, at(0)));
    assert_eq!(generation.runtime.driver().queued_command_count(), 1);
    assert!(matches!(
        generation.runtime.select_input(false),
        RoundChoice::PollIo
    ));
    assert!(matches!(
        generation.runtime.select_after_io(Some(None)),
        RoundChoice::Ready(RoundInput::Io(None))
    ));
}

/// Facts that cannot be true end the generation as invariant failures.
#[test]
fn impossible_facts_close_as_invariant_failures() {
    let mut vanished = generation(ConnectionMode::Active, false, policy(1, 2));
    assert!(!vanished.round(RoundInput::Io(None), at(0)));
    assert_eq!(
        vanished.runtime.driver().close_reason(),
        Some(GenerationCloseReason::RuntimeInvariant)
    );
    let mut early = generation(ConnectionMode::Active, false, policy(1, 2));
    let report = early.read_report(
        ProtocolMessage::Control(ControlMessage::LinktestRequest {
            system_bytes: SystemBytes::new(1),
        }),
        at(5),
    );
    assert!(!early.round(RoundInput::Io(Some(IoEvent::Read(report))), at(4)));
    assert_eq!(
        early.runtime.driver().close_reason(),
        Some(GenerationCloseReason::RuntimeInvariant)
    );
    for (regular, reason) in [
        (true, GenerationCloseReason::TransportLost),
        (false, GenerationCloseReason::RuntimeInvariant),
    ] {
        let mut stopped = generation(ConnectionMode::Active, false, policy(1, 2));
        assert!(!stopped.round(
            RoundInput::Io(Some(IoEvent::WriterStopped(regular))),
            at(0)
        ));
        assert_eq!(stopped.runtime.driver().close_reason(), Some(reason));
    }
}

/// Every end of the Reader has its close reason.
#[test]
fn reader_ends_have_close_reasons() {
    let cases = [
        (ReaderEnd::Crashed, GenerationCloseReason::RuntimeInvariant),
        (ReaderEnd::Finished, GenerationCloseReason::TransportLost),
        (
            ReaderEnd::Failed(ReadFailure::DeadlineOverflow),
            GenerationCloseReason::RuntimeInvariant,
        ),
        (
            ReaderEnd::Failed(ReadFailure::IntercharacterTimeout),
            GenerationCloseReason::CommunicationsTimeout(CommunicationsTimeoutKind::T8),
        ),
        (
            ReaderEnd::Failed(ReadFailure::Transport(TransportFault::new(
                TransportFaultKind::ConnectionReset,
            ))),
            GenerationCloseReason::TransportLost,
        ),
    ];
    for (end, reason) in cases {
        assert_eq!(reader_close_reason(end), reason);
    }
}

/// A graceful close whose deadlines the clock cannot represent is immediate.
#[test]
fn unrepresentable_shutdown_deadline_closes_at_once() {
    let mut generation = generation(
        ConnectionMode::Active,
        false,
        ShutdownPolicy {
            drain: 1,
            shutdown: u128::MAX,
            cleanup: u128::MAX,
        },
    );
    generation
        .runtime
        .begin_graceful_close(GenerationCloseReason::LocalStop, &generation.epoch, at(1));
    assert_eq!(
        generation.runtime.driver().close_reason(),
        Some(GenerationCloseReason::RuntimeInvariant)
    );
    assert_eq!(generation.runtime.cleanup_deadline(&generation.epoch, at(1)), at(1));
    assert!(generation.runtime.driver().transport_closed());
}

/// What the application can take bounds the deliveries of a round.
#[test]
fn delivery_capacity_bounds_a_round() {
    let mut generation = generation(ConnectionMode::Active, false, policy(1, 2));
    generation.core.answer(vec![CoreAction::DeliverPrimary {
        message: data(1, false, 1),
        capability: None,
    }]);
    let report = generation.read_report(ProtocolMessage::Data(data(1, false, 1)), at(0));
    let open = generation.runtime.apply_round(
        RoundInput::Io(Some(IoEvent::Read(report))),
        Some((0, 0)),
        at(0),
    );
    assert!(!open);
    assert_eq!(
        generation.runtime.driver().close_reason(),
        Some(GenerationCloseReason::ApplicationBackpressure)
    );
}

/// Messages reach the application in order; where the budget or a queue refuses one
/// the generation closes, and the other kind is handed out all the same.
#[test]
fn deliveries_reach_the_application_or_close_the_generation() {
    for (events, bytes, errors, got, heard) in [
        (2, 1000, 2, 2, 2),
        (1, 1000, 2, 1, 2),
        (2, 27, 2, 1, 2),
        (2, 1000, 1, 2, 1),
        (1, 1000, 1, 1, 1),
    ] {
        let mut generation = generation(ConnectionMode::Active, false, policy(1, 2));
        for system_bytes in [41, 42] {
            generation.core.answer(vec![CoreAction::DeliverPrimary {
                message: data(1, false, system_bytes),
                capability: None,
            }]);
            assert!(generation.read(ProtocolMessage::Data(data(1, false, system_bytes)), at(0)));
            let header = [0, 7, 1, 1, 0, 0, 0, 0, 0, system_bytes as u8];
            let mut report = generation.read_report(ProtocolMessage::Control(separate()), at(0));
            report.frame.header = header;
            report.frame.decoded = DecodeStep::HeaderViolation {
                header,
                kind: HeaderViolationKind::InvalidField { index: 2 },
            };
            assert!(generation.round(RoundInput::Io(Some(IoEvent::Read(report))), at(0)));
        }
        let mut parts = HsmsEndpoint::build(EndpointConfig {
            mode: ConnectionMode::Active,
            limits: EndpointLimits {
                command_capacity: 2,
                command_bytes: 100,
                reply_capacity: 1,
                reply_bytes: 100,
                application_event_capacity: events,
                primary_queue_bytes: bytes,
                protocol_error_capacity: errors,
                diagnostic_capacity: 4,
                max_message_length: 64,
                data_lane_capacity: 2,
                critical_lane_capacity: 1,
            },
            t8: 5_000 * MILLI,
            runtime: budgets(),
        })
        .ok()
        .unwrap();
        let kept_up = got == 2 && heard == 2;
        assert_eq!(
            deliver(&mut generation.runtime, &mut parts.delivery, at(1)),
            kept_up
        );
        let expected = (!kept_up).then_some(GenerationCloseReason::ApplicationBackpressure);
        assert_eq!(generation.runtime.driver().close_reason(), expected);
        for system_bytes in [41, 42].into_iter().take(got) {
            let queued = parts.receiver.primaries.try_recv().ok().unwrap();
            let context = queued.into_primary().context().header;
            assert_eq!(context[9], system_bytes);
        }
        assert!(parts.receiver.primaries.try_recv().is_err());
        for system_bytes in [41, 42].into_iter().take(heard) {
            let error = parts.receiver.errors.try_recv().ok().unwrap();
            assert_eq!(error.context.header[9], system_bytes);
        }
        assert!(parts.receiver.errors.try_recv().is_err());
    }
}

/// Only the side that opened the connection selects by itself, when it is told to.
#[test]
fn only_an_active_generation_selects_by_itself() {
    for (mode, auto_select, selects) in [
        (ConnectionMode::Active, true, true),
        (ConnectionMode::Active, false, false),
        (ConnectionMode::Passive, true, false),
        (ConnectionMode::Passive, false, false),
    ] {
        assert_eq!(selects_by_itself(mode, auto_select), selects);
        let generation = generation(mode, auto_select, policy(1, 2));
        let queued = generation.runtime.driver().queued_command_count();
        assert_eq!(queued, usize::from(selects));
    }
}

/// One endpoint configuration gives the Driver its capacities and the generation
/// its drain.
#[test]
fn configured_driver_uses_endpoint_capacities_and_drain_policy() {
    let seconds = |seconds: u128| seconds * 1_000 * MILLI;
    let config = EndpointConfig {
        mode: ConnectionMode::Active,
        limits: EndpointLimits {
            max_message_length: 32,
            data_lane_capacity: 2,
            critical_lane_capacity: 2,
            command_capacity: 2,
            application_event_capacity: 1,
            protocol_error_capacity: 3,
            reply_capacity: 1,
            diagnostic_capacity: 1,
            command_bytes: 1000,
            reply_bytes: 1000,
            primary_queue_bytes: 1000,
        },
        t8: seconds(5),
        runtime: RuntimePolicy {
            drain: seconds(2),
            residence: seconds(10),
            write: seconds(10),
            cleanup: seconds(5),
            shutdown: seconds(20),
            ..budgets()
        },
    };
    let limits = driver_limits(&config);
    assert_eq!(limits.command_capacity, 2);
    assert_eq!(limits.inbound_capacity, 1);
    assert_eq!(limits.protocol_error_capacity, 3);
    let core = ScriptedCore::default();
    let (writer, _worker, _reports) = BoundedWriter::from_config(1, &config, Instant::now())
        .ok()
        .unwrap();
    let mut driver = match SessionDriver::<_, _, _, RuntimeCompletion<Completion>, _>::from_config(
        ConnectionGeneration::new(1),
        1,
        &config,
        core.clone(),
        writer,
        Observer,
        Closer::default(),
    ) {
        Ok(driver) => driver,
        Err(error) => panic!("{:?}", error),
    };
    core.answer(vec![CoreAction::SessionStateChanged(
        SessionState::NotSelected,
    )]);
    driver.on_connected(at(0));
    core.answer(vec![
        send_frame(
            0,
            ControlMessage::SelectResponse {
                session_id: u16::MAX,
                status: 0,
                system_bytes: SystemBytes::new(99),
            },
        ),
        CoreAction::SessionStateChanged(SessionState::Selected),
    ]);
    driver.on_message(
        ProtocolMessage::Control(ControlMessage::SelectRequest {
            session_id: u16::MAX,
            system_bytes: SystemBytes::new(99),
        }),
        at(0),
    );
    core.answer(vec![CoreAction::DeliverPrimary {
        message: data(1, true, 42),
        capability: Some(0),
    }]);
    driver.on_message(ProtocolMessage::Data(data(1, true, 42)), at(0));
    let (completion, receiver) = Generation::completion();
    assert!(driver
        .try_accept_control(ControlIntent::Deselect, completion)
        .is_ok());
    core.answer(vec![]);
    assert!(driver.drive_next_command(at(0)));
    core.script.borrow_mut().deadline = Some(MonoTime::from_nanos(config.runtime.drain));
    assert_eq!(driver.next_deadline(), Some(at(2_000)));
    core.answer(vec![complete(
        0,
        CoreCommandResult::Control(Err(OperationError::Timeout(TimeoutKind::Drain))),
    )]);
    driver.advance_time(at(2_000));
    assert!(matches!(
        receiver.try_recv().unwrap(),
        DriverCommandResult::Control(Err(OperationError::Timeout(TimeoutKind::Drain)))
    ));
    assert_eq!(driver.close_reason(), None);
    core.script.borrow_mut().deadline = None;
    core.answer(vec![CoreAction::DeliverPrimary {
        message: data(1, false, 43),
        capability: None,
    }]);
    driver.on_message(ProtocolMessage::Data(data(1, false, 43)), at(2_000));
    assert_eq!(
        driver.close_reason(),
        Some(GenerationCloseReason::ApplicationBackpressure)
    );
}

/// A generation takes everything from the configuration of its endpoint.
#[test]
fn configured_generation_selects_and_drains_by_its_policy() {
    let mut config = EndpointConfig {
        mode: ConnectionMode::Active,
        limits: EndpointLimits {
            max_message_length: 32,
            data_lane_capacity: 2,
            critical_lane_capacity: 2,
            command_capacity: 2,
            application_event_capacity: 1,
            protocol_error_capacity: 3,
            reply_capacity: 1,
            diagnostic_capacity: 1,
            command_bytes: 1000,
            reply_bytes: 1000,
            primary_queue_bytes: 1000,
        },
        t8: 5_000 * MILLI,
        runtime: budgets(),
    };
    let epoch = Instant::now();
    let make = |config: &EndpointConfig| {
        let (writer, _worker, _reports) = BoundedWriter::from_config(1, config, epoch)
            .ok()
            .unwrap();
        Runtime::from_transport(
            ConnectionGeneration::new(9),
            1,
            config,
            ScriptedCore::default(),
            writer,
            Observer,
            Closer::default(),
        )
    };
    let mut runtime = make(&config).ok().unwrap();
    assert_eq!(runtime.generation(), ConnectionGeneration::new(9));
    assert_eq!(runtime.driver().queued_command_count(), 1);
    runtime.begin_graceful_close(GenerationCloseReason::LocalStop, &epoch, at(5));
    assert_eq!(runtime.next_deadline(), Some(at(1_005)));
    assert_eq!(runtime.cleanup_deadline(&epoch, at(1)), at(1_001));
    config.mode = ConnectionMode::Passive;
    let runtime = make(&config).ok().unwrap();
    assert_eq!(runtime.driver().queued_command_count(), 0);
}

/// A cleanup that failed and is repeated keeps the generation and the reason of the
/// exit; only its cleanup is another.
#[test]
fn repeated_cleanup_keeps_the_exit() {
    let mut generation = generation(ConnectionMode::Active, false, policy(1, 2));
    generation
        .runtime
        .force_close(GenerationCloseReason::LocalDisconnect, at(1));
    let poisoned = CleanupResult::Poisoned(CleanupPoison::TaskDidNotStop);
    let first =
        generation
            .runtime
            .finish_close(GenerationCloseReason::LocalStop, false, poisoned, at(2));
    assert_eq!(
        first,
        SessionExit {
            generation: ConnectionGeneration::new(1),
            reason: GenerationCloseReason::LocalDisconnect,
            cleanup: poisoned,
        }
    );
    let reason = generation.runtime.begin_recovery(at(3));
    let second = generation
        .runtime
        .finish_close(reason, true, CleanupResult::Clean, at(4));
    assert_eq!(
        second,
        SessionExit {
            cleanup: CleanupResult::Clean,
            ..first
        }
    );
}
