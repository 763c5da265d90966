//! Decisions of the endpoint runtime: routing of commands, lifecycle state,
//! delivery and the end of a generation.

use crate::api::{ControlIntent, PrimaryMessage, ReplyIntent, ReplyToken};
use crate::endpoint::command;
use crate::endpoint::command::{
    receipt, stopped_receipt, Acknowledgement, Envelope, LifecycleCommand, LifecycleIntent,
    LifecycleReceipt, StartReceipt,
};
use crate::endpoint::diagnostics;
use crate::endpoint::diagnostics::{close_reason, DiagnosticEvent, DiagnosticPublisher};
use crate::endpoint::error::EndpointError;
use crate::endpoint::receiver;
use crate::endpoint::receiver::Delivery;
use crate::error::OperationError;
use crate::generation::driver::command::{
    AcceptedCommandKind, ControlAdmissionErrorKind, DataAdmissionErrorKind, DriverCommandResult,
};
use crate::generation::driver::driver;
use crate::generation::driver::driver::SessionDriver;
use crate::generation::driver::model;
use crate::generation::driver::model::DriverView;
use crate::generation::driver::ports::{
    CommandCompletion, SessionCore, SessionStateObserver, TransportCloser,
};
use crate::generation::runtime as rounds;
use crate::generation::runtime::{
    GenerationRuntime, RuntimeCompletion, RuntimeView, SessionExit,
};
use crate::generation::transport::tasks::{CleanupResult, IoEvent};
use crate::generation::transport::writer::WriterIngress;
use crate::lifecycle::state;
use crate::lifecycle::state::{
    ConnectionExitReport, EndpointPhase, EndpointStateSnapshot, GenerationSlotSnapshot,
    RunningIntent, SessionState,
};
use crate::model::ids::{ConnectionGeneration, LifecycleSequence};
use crate::model::runtime::{GenerationCloseReason, MonoTime};
use crate::secs2::SecsItem;
use crate::sync::channel::replace_latest;
use tokio::sync::watch;
use vstd::prelude::*;

verus! {

/// What the runtime sees of the current generation.
#[derive(Clone, Copy, Debug, PartialEq, Eq, Structural)]
pub struct GenerationFacts {
    /// Identity of the generation.
    pub generation: ConnectionGeneration,
    /// It no longer admits ordinary work.
    pub draining: bool,
    /// Its transport was closed.
    pub transport_closed: bool,
    /// Its selection state.
    pub session: Option<SessionState>,
}

/// What the runtime sees of the connection supervisor.
#[derive(Clone, Copy, Debug, PartialEq, Eq, Structural)]
pub struct SupervisorFacts {
    /// A cleanup was not proved.
    pub faulted: bool,
    /// The application wants the endpoint to run.
    pub running: bool,
    /// Current generation.
    pub current: Option<GenerationFacts>,
}

impl SupervisorFacts {
    /// Identity of the current generation.
    pub open spec fn generation(self) -> Option<ConnectionGeneration> {
        match self.current {
            Some(current) => Some(current.generation),
            None => None,
        }
    }

    /// Returns whether `generation` is the current one.
    pub fn is_current(&self, generation: ConnectionGeneration) -> (r: bool)
        ensures
            r == (self.generation() == Some(generation)),
    {
        match self.current {
            Some(current) => current.generation.value == generation.value,
            None => false,
        }
    }
}

/// What becomes of a command.
pub enum Route {
    /// The last handle is gone: stop and leave.
    Quit,
    /// The command was answered.
    Answered,
    /// Hand a reply to the current generation.
    Reply {
        /// The way back.
        envelope: Envelope,
        /// Kind of the answer.
        intent: ReplyIntent,
        /// Capability to answer.
        token: ReplyToken,
        /// Text of a normal Secondary.
        body: Option<SecsItem>,
    },
    /// Hand a primary to the current generation.
    Data {
        /// The way back.
        envelope: Envelope,
        /// Primary to send.
        message: PrimaryMessage,
        /// Whether a Secondary is awaited.
        reply_expected: bool,
    },
    /// Hand a control procedure to the current generation.
    Control {
        /// The way back.
        envelope: Envelope,
        /// Procedure to run.
        intent: ControlIntent,
    },
    /// Publish the state, then answer.
    Settle {
        /// The way back.
        envelope: Envelope,
        /// Answer.
        result: Acknowledgement,
    },
    /// Start the supervisor, publish the state, then answer.
    Start(Envelope),
    /// Stop the supervisor and clean up once more.
    Recover(Envelope),
    /// Stop the supervisor, publish the state, then answer.
    Stop(Envelope),
    /// Stop the supervisor; the answer follows the end of the generation.
    StopPending,
    /// Disconnect; the answer follows the end of the generation.
    DisconnectPending,
}

/// State of the runtime.
pub struct RuntimeState {
    /// Close commands that wait for the end of the generation.
    pub pending: Seq<Envelope>,
    /// The endpoint opens connections itself.
    pub active: bool,
    /// The last handle is gone.
    pub quitting: bool,
    /// Latest published state.
    pub published: EndpointStateSnapshot,
    /// Latest exit.
    pub last_exit: Option<ConnectionExitReport>,
    /// States published and answers given, in order.
    pub told: Seq<Told>,
}

/// Something that the runtime told the application.
pub enum Told {
    /// A state was published.
    Published(EndpointStateSnapshot),
    /// A command was answered.
    Answered(Envelope, Acknowledgement),
}

/// This state was put into the cell.
pub closed spec fn put_into(
    cell: watch::Sender<EndpointStateSnapshot>,
    snapshot: EndpointStateSnapshot,
) -> bool {
    call_ensures(replace_latest::<EndpointStateSnapshot>, (&cell, snapshot), ())
}

/// What was told was done: the state was put into the cell, or the answer was sent
/// to the application that waits for it.
pub open spec fn done(cell: watch::Sender<EndpointStateSnapshot>, told: Told) -> bool {
    match told {
        Told::Published(snapshot) => put_into(cell, snapshot),
        Told::Answered(envelope, result) => envelope.completed(result),
    }
}

impl RuntimeState {
    /// State after one more answer.
    pub open spec fn answered(self, envelope: Envelope, result: Acknowledgement) -> RuntimeState {
        RuntimeState { told: self.told.push(Told::Answered(envelope, result)), ..self }
    }

    /// State after these answers.
    pub open spec fn answered_all(self, answers: Seq<(Envelope, Acknowledgement)>) -> RuntimeState {
        RuntimeState { told: self.told + answers_told(answers), ..self }
    }

    /// State after a snapshot was published.
    pub open spec fn publishing(self, snapshot: EndpointStateSnapshot) -> RuntimeState {
        RuntimeState {
            published: snapshot,
            told: self.told.push(Told::Published(snapshot)),
            ..self
        }
    }

    /// State after one more close command waits.
    pub open spec fn waiting(self, envelope: Envelope) -> RuntimeState {
        RuntimeState { pending: self.pending.push(envelope), ..self }
    }
}

/// A series of answers as the application hears it.
pub open spec fn answers_told(answers: Seq<(Envelope, Acknowledgement)>) -> Seq<Told> {
    answers.map_values(
        |answer: (Envelope, Acknowledgement)| Told::Answered(answer.0, answer.1),
    )
}

/// Why a message for `generation` does not reach the current generation.
pub open spec fn route_refusal(
    facts: SupervisorFacts,
    generation: ConnectionGeneration,
) -> Option<EndpointError> {
    if facts.faulted {
        Some(EndpointError::Faulted)
    } else if facts.generation() != Some(generation) {
        Some(EndpointError::StaleConnectionGeneration)
    } else {
        None
    }
}

/// Routing of one command; no command means that the last handle is gone.
pub open spec fn routed(
    view: RuntimeState,
    facts: SupervisorFacts,
    command: Option<LifecycleCommand>,
) -> (RuntimeState, Route) {
    match command {
        None => (RuntimeState { quitting: true, ..view }, Route::Quit),
        Some(LifecycleCommand { intent, envelope }) => match intent {
            LifecycleIntent::Reply { generation, intent, token, body } => match route_refusal(
                facts,
                generation,
            ) {
                Some(error) => (
                    view.answered(
                        envelope,
                        Ok(LifecycleReceipt::RejectedReply { intent, token, body, error }),
                    ),
                    Route::Answered,
                ),
                None => (view, Route::Reply { envelope, intent, token, body }),
            },
            LifecycleIntent::Data { generation, message, reply_expected } => match route_refusal(
                facts,
                generation,
            ) {
                Some(error) => (
                    view.answered(
                        envelope,
                        Ok(LifecycleReceipt::RejectedPrimary { message, error }),
                    ),
                    Route::Answered,
                ),
                None => (view, Route::Data { envelope, message, reply_expected }),
            },
            LifecycleIntent::Control(generation, intent) => match route_refusal(
                facts,
                generation,
            ) {
                Some(error) => (view.answered(envelope, Err(error)), Route::Answered),
                None => (view, Route::Control { envelope, intent }),
            },
            LifecycleIntent::Start => if view.pending.len() != 0 {
                (view, Route::Settle { envelope, result: Err(EndpointError::Draining) })
            } else {
                (view, Route::Start(envelope))
            },
            LifecycleIntent::Stop => if facts.faulted {
                (view, Route::Recover(envelope))
            } else if facts.current is None {
                (view, Route::Stop(envelope))
            } else {
                (view.waiting(envelope), Route::StopPending)
            },
            LifecycleIntent::Disconnect(generation) => if generation is None {
                (view.answered(envelope, Ok(LifecycleReceipt::Closed)), Route::Answered)
            } else if generation != facts.generation() {
                (
                    view.answered(envelope, Err(EndpointError::StaleConnectionGeneration)),
                    Route::Answered,
                )
            } else if facts.faulted {
                (view.answered(envelope, Err(EndpointError::Faulted)), Route::Answered)
            } else {
                (view.waiting(envelope), Route::DisconnectPending)
            },
        },
    }
}

/// Next thing that the runtime does.
#[derive(Debug, PartialEq, Eq)]
pub enum RuntimeStep {
    /// Finish the closed generation.
    FinishGeneration,
    /// Leave.
    Return(Result<(), EndpointError>),
    /// Wait for a command.
    AwaitCommand,
    /// Execute the current generation, and take commands meanwhile if `commands`.
    Execute {
        /// Whether commands are taken.
        commands: bool,
    },
    /// Connect, and take commands meanwhile.
    Connect,
}

/// Next thing that a runtime does after it published.
pub open spec fn step_of(quitting: bool, facts: SupervisorFacts) -> RuntimeStep {
    if !facts.faulted && facts.current is Some && facts.current->0.transport_closed {
        RuntimeStep::FinishGeneration
    } else if quitting && facts.faulted {
        RuntimeStep::Return(Err(EndpointError::CleanupUnproven))
    } else if quitting && facts.current is None {
        RuntimeStep::Return(Ok(()))
    } else if facts.faulted || (!facts.running && facts.current is None) {
        RuntimeStep::AwaitCommand
    } else if facts.current is Some {
        RuntimeStep::Execute { commands: !quitting }
    } else {
        RuntimeStep::Connect
    }
}

/// Snapshot that the facts call for, under a given sequence.
pub open spec fn observed_state(
    facts: SupervisorFacts,
    last_exit: Option<ConnectionExitReport>,
    sequence: u64,
) -> EndpointStateSnapshot {
    let draining = facts.current is Some && facts.current->0.draining;
    EndpointStateSnapshot {
        desired: if facts.running {
            RunningIntent::Running
        } else {
            RunningIntent::Stopped
        },
        phase: if facts.faulted {
            EndpointPhase::Faulted
        } else if draining {
            EndpointPhase::Draining
        } else if facts.running {
            EndpointPhase::Running
        } else {
            EndpointPhase::StoppedClean
        },
        generation: match facts.current {
            None => GenerationSlotSnapshot::Vacant,
            Some(current) => if draining {
                GenerationSlotSnapshot::Draining(current.generation)
            } else {
                GenerationSlotSnapshot::Open(current.generation)
            },
        },
        sequence,
        session: match facts.current {
            None => None,
            Some(current) => current.session,
        },
        last_exit,
    }
}

/// Next state to publish: none when nothing changed, an error when revisions are
/// exhausted.
pub open spec fn next_published(
    published: EndpointStateSnapshot,
    facts: SupervisorFacts,
    last_exit: Option<ConnectionExitReport>,
) -> Result<Option<EndpointStateSnapshot>, EndpointError> {
    if published == observed_state(facts, last_exit, published.sequence) {
        Ok(None)
    } else if published.sequence == u64::MAX {
        Err(EndpointError::IdentifierExhausted)
    } else {
        Ok(Some(observed_state(facts, last_exit, (published.sequence + 1) as u64)))
    }
}

/// State after the next snapshot, if there is one, was published.
pub open spec fn shown(view: RuntimeState, next: Option<EndpointStateSnapshot>) -> RuntimeState {
    match next {
        Some(snapshot) => view.publishing(snapshot),
        None => view,
    }
}

/// Last state of a runtime that is dropped with a generation in custody.
pub open spec fn last_state(view: RuntimeState, facts: SupervisorFacts) -> Option<
    EndpointStateSnapshot,
> {
    if facts.current is None {
        None
    } else {
        Some(
            EndpointStateSnapshot {
                desired: RunningIntent::Stopped,
                phase: EndpointPhase::Faulted,
                generation: view.published.generation,
                sequence: if view.published.sequence == u64::MAX {
                    u64::MAX
                } else {
                    (view.published.sequence + 1) as u64
                },
                session: Some(SessionState::Closed),
                last_exit: view.last_exit,
            },
        )
    }
}

/// Refusals of commands that no runtime takes any more.
pub open spec fn stopped_answers(queued: Seq<LifecycleCommand>) -> Seq<(Envelope, Acknowledgement)> {
    queued.map_values(
        |queued: LifecycleCommand|
            (queued.envelope, command::stopped_receipt_of(queued.intent)),
    )
}

/// Public report of an exit.
pub open spec fn exit_report(exit: SessionExit) -> ConnectionExitReport {
    ConnectionExitReport {
        generation: exit.generation,
        reason: diagnostics::public_reason(exit.reason),
        clean: exit.cleanup == CleanupResult::Clean,
    }
}

/// Answer of a close command after the end of its generation.
pub open spec fn closed_answer(clean: bool) -> Acknowledgement {
    if clean {
        Ok(LifecycleReceipt::Closed)
    } else {
        Err(EndpointError::CleanupUnproven)
    }
}

/// Answer of a stop that recovered from an unproved cleanup.
pub open spec fn recovery_answer(exit: Result<Option<SessionExit>, EndpointError>) -> Acknowledgement {
    match exit {
        Err(error) => Err(error),
        Ok(None) => Ok(LifecycleReceipt::Closed),
        Ok(Some(exit)) => closed_answer(exit.cleanup == CleanupResult::Clean),
    }
}

/// State after the exit of a generation was recorded.
pub open spec fn ended(view: RuntimeState, exit: SessionExit) -> RuntimeState {
    RuntimeState { last_exit: Some(exit_report(exit)), ..view }
}

/// State after a recovery ended.
pub open spec fn recovered(
    view: RuntimeState,
    exit: Result<Option<SessionExit>, EndpointError>,
) -> RuntimeState {
    match exit {
        Ok(Some(exit)) => ended(view, exit),
        _ => view,
    }
}

/// State after every waiting close command was answered, in the order in which they
/// came.
pub open spec fn released(view: RuntimeState, clean: bool) -> RuntimeState {
    RuntimeState {
        pending: Seq::empty(),
        ..view.answered_all(
            view.pending.map_values(|envelope: Envelope| (envelope, closed_answer(clean))),
        )
    }
}

/// Observation of a finished generation.
pub open spec fn closed_observation(exit: SessionExit) -> DiagnosticEvent {
    DiagnosticEvent::ConnectionClosed {
        generation: exit.generation,
        reason: diagnostics::public_reason(exit.reason),
        clean: exit.cleanup == CleanupResult::Clean,
    }
}

/// What the runtime sees of a generation whose core reported this selection state.
pub open spec fn facts_of<C>(
    view: RuntimeView<C>,
    session: Option<SessionState>,
) -> GenerationFacts {
    GenerationFacts {
        generation: view.driver.generation,
        draining: view.shutdown is Some || view.driver.closing is Some,
        transport_closed: view.driver.transport_closed,
        session,
    }
}

/// Returns what the runtime sees of a generation. The core reports its selection
/// state.
pub fn generation_facts<Core, Writer, Observer, Completion, Closer>(
    generation: &GenerationRuntime<Core, Writer, Observer, Completion, Closer>,
) -> (r: GenerationFacts) where
    Core: SessionCore,
    Writer: WriterIngress,
    Observer: SessionStateObserver,
    Completion: CommandCompletion,
    Closer: TransportCloser,

    ensures
        exists|session: Option<SessionState>|
            {
                &&& call_ensures(
                    Core::state,
                    (&generation.session().core_port(),),
                    session,
                )
                &&& r == #[trigger] facts_of(generation@, session)
            },
{
    let session = generation.driver().state();
    let facts = GenerationFacts {
        generation: generation.generation(),
        draining: generation.is_draining(),
        transport_closed: generation.driver().transport_closed(),
        session,
    };
    assert(facts == facts_of(generation@, session));
    facts
}

/// Decisions of one endpoint's runtime.
pub struct HsmsRuntime {
    pending: Vec<Envelope>,
    active: bool,
    quitting: bool,
    published: EndpointStateSnapshot,
    last_exit: Option<ConnectionExitReport>,
    state: watch::Sender<EndpointStateSnapshot>,
    told: Ghost<Seq<Told>>,
}

impl View for HsmsRuntime {
    type V = RuntimeState;

    closed spec fn view(&self) -> RuntimeState {
        RuntimeState {
            pending: self.pending@,
            active: self.active,
            quitting: self.quitting,
            published: self.published,
            last_exit: self.last_exit,
            told: self.told@,
        }
    }
}

impl HsmsRuntime {
    /// Creates the runtime of a stopped endpoint, which publishes to `state`.
    pub fn new(active: bool, state: watch::Sender<EndpointStateSnapshot>) -> (r: Self)
        ensures
            r@ == (RuntimeState {
                pending: Seq::empty(),
                active,
                quitting: false,
                published: state::initial_snapshot(),
                last_exit: None,
                told: Seq::empty(),
            }),
            r.cell() == state,
    {
        HsmsRuntime {
            pending: Vec::new(),
            active,
            quitting: false,
            published: EndpointStateSnapshot::stopped_clean(),
            last_exit: None,
            state,
            told: Ghost(Seq::empty()),
        }
    }

    /// Cell that holds the published state.
    pub closed spec fn cell(&self) -> watch::Sender<EndpointStateSnapshot> {
        self.state
    }

    /// Since `before` only more was told, and all of it was done: every state was
    /// put into the cell and every answer was sent to the application that waits
    /// for it.
    pub open spec fn kept_word(&self, before: Self) -> bool {
        &&& self.cell() == before.cell()
        &&& before@.told.len() <= self@.told.len()
        &&& forall|i: int| 0 <= i < before@.told.len() ==> self@.told[i] == before@.told[i]
        &&& forall|i: int|
            before@.told.len() <= i < self@.told.len() ==> done(
                self.cell(),
                #[trigger] self@.told[i],
            )
    }

    /// Answers a command.
    pub fn answer(&mut self, envelope: Envelope, result: Acknowledgement)
        ensures
            final(self)@ == old(self)@.answered(envelope, result),
            final(self).kept_word(*old(self)),
            envelope.completed(result),
    {
        self.told = Ghost(self.told@.push(Told::Answered(envelope, result)));
        envelope.complete(result);
    }

    /// Decides what the runtime does next.
    pub fn next_step(&self, facts: SupervisorFacts) -> (r: RuntimeStep)
        ensures
            r == step_of(self@.quitting, facts),
    {
        let closed = match facts.current {
            Some(current) => current.transport_closed,
            None => false,
        };
        if !facts.faulted && closed {
            RuntimeStep::FinishGeneration
        } else if self.quitting && facts.faulted {
            RuntimeStep::Return(Err(EndpointError::CleanupUnproven))
        } else if self.quitting && facts.current.is_none() {
            RuntimeStep::Return(Ok(()))
        } else if facts.faulted || (!facts.running && facts.current.is_none()) {
            RuntimeStep::AwaitCommand
        } else if facts.current.is_some() {
            RuntimeStep::Execute { commands: !self.quitting }
        } else {
            RuntimeStep::Connect
        }
    }

    /// Routes one command; no command means that the last handle is gone.
    pub fn receive(&mut self, facts: SupervisorFacts, command: Option<LifecycleCommand>) -> (r:
        Route)
        ensures
            final(self).kept_word(*old(self)),
            (final(self)@, r) == routed(old(self)@, facts, command),
    {
        let LifecycleCommand { intent, envelope } = match command {
            Some(command) => command,
            None => {
                self.quitting = true;
                return Route::Quit;
            },
        };
        match intent {
            LifecycleIntent::Reply { generation, intent, token, body } => {
                match Self::refusal(facts, generation) {
                    Some(error) => {
                        self.answer(
                            envelope,
                            Ok(LifecycleReceipt::RejectedReply { intent, token, body, error }),
                        );
                        Route::Answered
                    },
                    None => Route::Reply { envelope, intent, token, body },
                }
            },
            LifecycleIntent::Data { generation, message, reply_expected } => {
                match Self::refusal(facts, generation) {
                    Some(error) => {
                        self.answer(
                            envelope,
                            Ok(LifecycleReceipt::RejectedPrimary { message, error }),
                        );
                        Route::Answered
                    },
                    None => Route::Data { envelope, message, reply_expected },
                }
            },
            LifecycleIntent::Control(generation, intent) => {
                match Self::refusal(facts, generation) {
                    Some(error) => {
                        self.answer(envelope, Err(error));
                        Route::Answered
                    },
                    None => Route::Control { envelope, intent },
                }
            },
            LifecycleIntent::Start => if self.pending.len() != 0 {
                Route::Settle { envelope, result: Err(EndpointError::Draining) }
            } else {
                Route::Start(envelope)
            },
            LifecycleIntent::Stop => {
                if facts.faulted {
                    Route::Recover(envelope)
                } else if facts.current.is_none() {
                    Route::Stop(envelope)
                } else {
                    self.pending.push(envelope);
                    Route::StopPending
                }
            },
            LifecycleIntent::Disconnect(generation) => match generation {
                None => {
                    self.answer(envelope, Ok(LifecycleReceipt::Closed));
                    Route::Answered
                },
                Some(generation) => {
                    if !facts.is_current(generation) {
                        self.answer(envelope, Err(EndpointError::StaleConnectionGeneration));
                        Route::Answered
                    } else if facts.faulted {
                        self.answer(envelope, Err(EndpointError::Faulted));
                        Route::Answered
                    } else {
                        self.pending.push(envelope);
                        Route::DisconnectPending
                    }
                },
            },
        }
    }

    /// Returns why a message for `generation` does not reach the current one.
    fn refusal(facts: SupervisorFacts, generation: ConnectionGeneration) -> (r: Option<
        EndpointError,
    >)
        ensures
            r == route_refusal(facts, generation),
    {
        if facts.faulted {
            Some(EndpointError::Faulted)
        } else if !facts.is_current(generation) {
            Some(EndpointError::StaleConnectionGeneration)
        } else {
            None
        }
    }

    /// Records the exit of a generation.
    pub fn record_exit(&mut self, exit: SessionExit)
        ensures
            final(self).kept_word(*old(self)),
            final(self)@ == ended(old(self)@, exit),
    {
        self.last_exit = Some(
            ConnectionExitReport::new(
                exit.generation,
                close_reason(exit.reason),
                exit.cleanup == CleanupResult::Clean,
            ),
        );
    }

    /// Returns the observation of a finished generation.
    pub fn closed_event(exit: SessionExit) -> (r: DiagnosticEvent)
        ensures
            r == closed_observation(exit),
    {
        DiagnosticEvent::ConnectionClosed {
            generation: exit.generation,
            reason: close_reason(exit.reason),
            clean: exit.cleanup == CleanupResult::Clean,
        }
    }

    /// Answers a series of commands.
    fn answer_all(&mut self, answers: Vec<(Envelope, Acknowledgement)>)
        ensures
            final(self).kept_word(*old(self)),
            final(self)@ == old(self)@.answered_all(answers@),
    {
        let ghost start = self@;
        let ghost begun = *self;
        let ghost all = answers@;
        let mut rest = answers;
        let ghost mut done: int = 0;
        assert(start.told + answers_told(all.take(0)) =~= start.told);
        assert(all.skip(0) =~= all);
        while rest.len() > 0
            invariant
                0 <= done <= all.len(),
                rest@ == all.skip(done),
                self.kept_word(begun),
                begun@ == start,
                self@ == start.answered_all(all.take(done)),
            decreases rest.len(),
        {
            let (envelope, result) = rest.remove(0);
            self.answer(envelope, result);
            proof {
                assert(answers_told(all.take(done + 1)) =~= answers_told(all.take(done)).push(
                    Told::Answered(all[done].0, all[done].1),
                ));
                assert(all.skip(done).remove(0) =~= all.skip(done + 1));
                assert(self@.told =~= start.told + answers_told(all.take(done + 1)));
                done = done + 1;
            }
        }
        assert(all.take(done) =~= all);
    }

    /// Answers every waiting close command after the end of its generation, in
    /// the order in which they came.
    pub fn answer_pending(&mut self, clean: bool)
        ensures
            final(self).kept_word(*old(self)),
            final(self)@ == released(old(self)@, clean),
    {
        let ghost start = self@;
        let ghost begun = *self;
        let ghost pair = |envelope: Envelope| (envelope, closed_answer(clean));
        let mut answers: Vec<(Envelope, Acknowledgement)> = Vec::new();
        assert(start.pending.skip(0) =~= start.pending);
        let ghost mut done: int = 0;
        while self.pending.len() > 0
            invariant
                0 <= done <= start.pending.len(),
                pair == (|envelope: Envelope| (envelope, closed_answer(clean))),
                answers@ == start.pending.take(done).map_values(pair),
                self.kept_word(begun),
                begun@ == start,
                self@ == (RuntimeState { pending: start.pending.skip(done), ..start }),
            decreases self.pending.len(),
        {
            let envelope = self.pending.remove(0);
            let result = if clean {
                Ok(LifecycleReceipt::Closed)
            } else {
                Err(EndpointError::CleanupUnproven)
            };
            answers.push((envelope, result));
            proof {
                assert(start.pending.take(done + 1).map_values(pair)
                    =~= start.pending.take(done).map_values(pair).push(
                    (start.pending[done], closed_answer(clean)),
                ));
                assert(start.pending.skip(done).remove(0) =~= start.pending.skip(done + 1));
                done = done + 1;
            }
        }
        proof {
            assert(start.pending.take(done) =~= start.pending);
            assert(self@.pending =~= Seq::<Envelope>::empty());
        }
        self.answer_all(answers);
    }

    /// Ends a recovery and returns the answer of the stop that asked for it.
    pub fn finish_recovery(&mut self, exit: Result<Option<SessionExit>, EndpointError>) -> (r:
        Acknowledgement)
        ensures
            final(self).kept_word(*old(self)),
            r == recovery_answer(exit),
            final(self)@ == recovered(old(self)@, exit),
    {
        match exit {
            Err(error) => Err(error),
            Ok(None) => Ok(LifecycleReceipt::Closed),
            Ok(Some(exit)) => {
                self.record_exit(exit);
                if exit.cleanup == CleanupResult::Clean {
                    Ok(LifecycleReceipt::Closed)
                } else {
                    Err(EndpointError::CleanupUnproven)
                }
            },
        }
    }

    /// Returns the answer of a start.
    pub fn start_answer(result: Result<StartReceipt, EndpointError>) -> (r: Acknowledgement)
        ensures
            r == match result {
                Ok(receipt) => Ok(LifecycleReceipt::Started(receipt)),
                Err(error) => Err(error),
            },
    {
        match result {
            Ok(receipt) => Ok(LifecycleReceipt::Started(receipt)),
            Err(error) => Err(error),
        }
    }

    /// Publishes the state when it changed; the revision grows exactly then.
    pub fn publish_state(&mut self, facts: SupervisorFacts) -> (r: Result<(), EndpointError>)
        ensures
            final(self).kept_word(*old(self)),
            match next_published(old(self)@.published, facts, old(self)@.last_exit) {
                Err(error) => r == Err::<(), EndpointError>(error) && final(self)@ == old(self)@,
                Ok(next) => r is Ok && final(self)@ == shown(old(self)@, next),
            },
    {
        let desired = if facts.running {
            RunningIntent::Running
        } else {
            RunningIntent::Stopped
        };
        let draining = match facts.current {
            Some(current) => current.draining,
            None => false,
        };
        let phase = if facts.faulted {
            EndpointPhase::Faulted
        } else if draining {
            EndpointPhase::Draining
        } else if facts.running {
            EndpointPhase::Running
        } else {
            EndpointPhase::StoppedClean
        };
        let generation = match facts.current {
            None => GenerationSlotSnapshot::Vacant,
            Some(current) => if draining {
                GenerationSlotSnapshot::Draining(current.generation)
            } else {
                GenerationSlotSnapshot::Open(current.generation)
            },
        };
        let session = match facts.current {
            None => None,
            Some(current) => current.session,
        };
        let previous = self.published;
        let unchanged = EndpointStateSnapshot {
            desired,
            phase,
            generation,
            sequence: previous.sequence,
            session,
            last_exit: self.last_exit,
        };
        if previous == unchanged {
            return Ok(());
        }
        let sequence: u64 = match previous.sequence.checked_add(1) {
            Some(sequence) => sequence,
            None => {
                return Err(EndpointError::IdentifierExhausted);
            },
        };
        let next = EndpointStateSnapshot::new(
            desired,
            phase,
            generation,
            LifecycleSequence::new(sequence),
            session,
        ).with_last_exit(self.last_exit);
        self.show(next);
        Ok(())
    }

    fn show(&mut self, snapshot: EndpointStateSnapshot)
        ensures
            final(self).kept_word(*old(self)),
            final(self)@ == old(self)@.publishing(snapshot),
    {
        self.published = snapshot;
        self.told = Ghost(self.told@.push(Told::Published(snapshot)));
        replace_latest(&self.state, snapshot);
    }

    /// Publishes the state, then answers the commands that completed meanwhile.
    /// When the state cannot be published nothing is answered.
    pub fn publish(
        &mut self,
        facts: SupervisorFacts,
        completed: Vec<(Envelope, Acknowledgement)>,
    ) -> (r: Result<(), (EndpointError, Vec<(Envelope, Acknowledgement)>)>)
        ensures
            final(self).kept_word(*old(self)),
            match next_published(old(self)@.published, facts, old(self)@.last_exit) {
                Err(error) => {
                    &&& final(self)@ == old(self)@
                    &&& r == Err::<(), (EndpointError, Vec<(Envelope, Acknowledgement)>)>(
                        (error, completed),
                    )
                },
                Ok(next) => r is Ok && final(self)@ == shown(old(self)@, next).answered_all(
                    completed@,
                ),
            },
    {
        match self.publish_state(facts) {
            Ok(()) => {
                self.answer_all(completed);
                Ok(())
            },
            Err(error) => Err((error, completed)),
        }
    }

    /// Publishes the state, answers the commands that completed meanwhile, and then
    /// answers one command more. When the state cannot be published nothing is
    /// answered.
    pub fn settle(
        &mut self,
        facts: SupervisorFacts,
        completed: Vec<(Envelope, Acknowledgement)>,
        envelope: Envelope,
        result: Acknowledgement,
    ) -> (r: Result<(), (EndpointError, Vec<(Envelope, Acknowledgement)>)>)
        ensures
            final(self).kept_word(*old(self)),
            match next_published(old(self)@.published, facts, old(self)@.last_exit) {
                Err(error) => {
                    &&& final(self)@ == old(self)@
                    &&& r == Err::<(), (EndpointError, Vec<(Envelope, Acknowledgement)>)>(
                        (error, completed),
                    )
                },
                Ok(next) => r is Ok && final(self)@ == shown(old(self)@, next).answered_all(
                    completed@,
                ).answered(envelope, result),
            },
    {
        match self.publish(facts, completed) {
            Ok(()) => {
                self.answer(envelope, result);
                Ok(())
            },
            Err(refused) => Err(refused),
        }
    }

    /// Ends a generation: its exit is recorded, the state with that exit is
    /// published, the end is observed, and only then every waiting close command is
    /// answered. When the state cannot be published nothing is answered.
    pub fn end_generation(
        &mut self,
        exit: SessionExit,
        facts: SupervisorFacts,
        completed: Vec<(Envelope, Acknowledgement)>,
        observations: &mut DiagnosticPublisher,
    ) -> (r: Result<(), (EndpointError, Vec<(Envelope, Acknowledgement)>)>)
        ensures
            final(self).kept_word(*old(self)),
            match next_published(old(self)@.published, facts, Some(exit_report(exit))) {
                Err(error) => {
                    &&& final(self)@ == ended(old(self)@, exit)
                    &&& *final(observations) == *old(observations)
                    &&& r == Err::<(), (EndpointError, Vec<(Envelope, Acknowledgement)>)>(
                        (error, completed),
                    )
                },
                Ok(next) => {
                    &&& r is Ok
                    &&& final(self)@ == released(
                        shown(ended(old(self)@, exit), next).answered_all(completed@),
                        exit.cleanup == CleanupResult::Clean,
                    )
                    &&& final(observations).same_stream(*old(observations))
                    &&& exists|taken: bool|
                        {
                            &&& old(observations).published_as(closed_observation(exit), taken)
                            &&& final(observations).counts() == #[trigger] diagnostics::attempted(
                                old(observations).counts(),
                                taken,
                            )
                            &&& final(observations).published() == diagnostics::recorded(
                                old(observations).published(),
                                old(observations).counts(),
                                closed_observation(exit),
                                taken,
                            )
                        }
                },
            },
    {
        self.record_exit(exit);
        match self.publish(facts, completed) {
            Ok(()) => {},
            Err(refused) => {
                return Err(refused);
            },
        }
        observations.publish(Self::closed_event(exit));
        self.answer_pending(exit.cleanup == CleanupResult::Clean);
        Ok(())
    }

    /// Takes a command in its turn: what already happened to the generation goes
    /// first, an ended transport task before due deadlines, and the command is
    /// routed by what the generation is afterwards.
    pub fn receive_ready<Core, Writer, Observer, Completion, Closer>(
        &mut self,
        generation: &mut GenerationRuntime<Core, Writer, Observer, Completion, Closer>,
        terminal: Option<IoEvent>,
        now: MonoTime,
        faulted: bool,
        running: bool,
        command: Option<LifecycleCommand>,
    ) -> (r: Route) where
        Core: SessionCore,
        Writer: WriterIngress,
        Observer: SessionStateObserver,
        Completion: CommandCompletion,
        Closer: TransportCloser,

        requires
            old(generation)@.valid(),
            old(generation).session().settled(),
        ensures
            final(generation)@.valid(),
            final(generation).session().settled(),
            final(generation).session().continues(old(generation).session()),
            rounds::priority_processed(old(generation)@, terminal, now, final(generation)@),
            final(self).kept_word(*old(self)),
            exists|session: Option<SessionState>|
                {
                    &&& call_ensures(
                        Core::state,
                        (&final(generation).session().core_port(),),
                        session,
                    )
                    &&& (final(self)@, r) == routed(
                        old(self)@,
                        SupervisorFacts {
                            faulted,
                            running,
                            current: Some(#[trigger] facts_of(final(generation)@, session)),
                        },
                        command,
                    )
                },
    {
        generation.process_ready_priority(terminal, now);
        let current = generation_facts(generation);
        self.receive(SupervisorFacts { faulted, running, current: Some(current) }, command)
    }

    /// Ends a runtime: a generation in custody leaves the endpoint faulted, every
    /// command that was still queued is refused, and what completed is answered.
    pub fn retire(
        &mut self,
        facts: SupervisorFacts,
        queued: Vec<LifecycleCommand>,
        completed: Vec<(Envelope, Acknowledgement)>,
    )
        ensures
            final(self).kept_word(*old(self)),
            final(self)@ == shown(
                old(self)@,
                last_state(old(self)@, facts),
            ).answered_all(stopped_answers(queued@)).answered_all(completed@),
    {
        if let Some(snapshot) = self.final_state(facts) {
            self.show(snapshot);
        }
        let mut rest = queued;
        let ghost all = queued@;
        let mut refused: Vec<(Envelope, Acknowledgement)> = Vec::new();
        let ghost mut done: int = 0;
        assert(all.skip(0) =~= all);
        while rest.len() > 0
            invariant
                0 <= done <= all.len(),
                rest@ == all.skip(done),
                refused@ == stopped_answers(all.take(done)),
            decreases rest.len(),
        {
            let LifecycleCommand { intent, envelope } = rest.remove(0);
            refused.push((envelope, stopped_receipt(intent)));
            proof {
                assert(stopped_answers(all.take(done + 1)) =~= stopped_answers(
                    all.take(done),
                ).push((all[done].envelope, command::stopped_receipt_of(all[done].intent))));
                assert(all.skip(done).remove(0) =~= all.skip(done + 1));
                done = done + 1;
            }
        }
        assert(all.take(done) =~= all);
        self.answer_all(refused);
        self.answer_all(completed);
    }

    /// Returns the last state of a runtime that is dropped with a generation in
    /// custody.
    pub fn final_state(&self, facts: SupervisorFacts) -> (r: Option<EndpointStateSnapshot>)
        ensures
            r == last_state(self@, facts),
    {
        if facts.current.is_none() {
            return None;
        }
        let previous = self.published;
        let sequence: u64 = if previous.sequence == u64::MAX {
            u64::MAX
        } else {
            previous.sequence + 1
        };
        Some(
            EndpointStateSnapshot::new(
                RunningIntent::Stopped,
                EndpointPhase::Faulted,
                previous.generation,
                LifecycleSequence::new(sequence),
                Some(SessionState::Closed),
            ).with_last_exit(self.last_exit),
        )
    }

    /// Decides whether a connection attempt that ended this way faults the
    /// endpoint. An active endpoint tries again when the network refused.
    pub fn attempt_faults(&self, end: AttemptEnd) -> (r: bool)
        ensures
            r == faults(self@.active, end),
    {
        match end {
            AttemptEnd::Connected => false,
            AttemptEnd::Transport => !self.active,
            AttemptEnd::Timeout => !self.active,
            AttemptEnd::Other => true,
        }
    }
}

/// How a connection attempt ended.
#[derive(Clone, Copy, Debug, PartialEq, Eq, Structural)]
pub enum AttemptEnd {
    /// A generation was created.
    Connected,
    /// The network refused.
    Transport,
    /// The attempt took too long.
    Timeout,
    /// Anything else.
    Other,
}

/// Failure of the connection supervisor.
#[derive(Clone, Debug, PartialEq, Eq)]
pub enum SupervisorError {
    /// The listener could not be bound.
    Bind {
        /// Name of the error category.
        kind: String,
        /// Description of the failure.
        message: String,
    },
    /// A connection attempt was refused.
    Transport {
        /// Name of the error category.
        kind: String,
        /// Description of the failure.
        message: String,
    },
    /// A connection attempt took too long.
    Timeout,
    /// A generation is still in custody.
    Occupied,
    /// Generation identities are exhausted.
    GenerationExhausted,
    /// Anything else.
    Faulted,
}

/// Whether an endpoint is faulted by a connection attempt that ended this way.
pub open spec fn faults(active: bool, end: AttemptEnd) -> bool {
    match end {
        AttemptEnd::Connected => false,
        AttemptEnd::Transport => !active,
        AttemptEnd::Timeout => !active,
        AttemptEnd::Other => true,
    }
}

/// Public failure of a supervisor failure.
pub open spec fn mapped(error: SupervisorError) -> EndpointError {
    match error {
        SupervisorError::Bind { kind, message } => EndpointError::Io { kind, message },
        SupervisorError::Transport { kind, message } => EndpointError::Io { kind, message },
        SupervisorError::Occupied => EndpointError::Draining,
        SupervisorError::GenerationExhausted => EndpointError::IdentifierExhausted,
        SupervisorError::Timeout => EndpointError::Faulted,
        SupervisorError::Faulted => EndpointError::Faulted,
    }
}

/// Returns the public failure of a supervisor failure.
pub fn map_error(error: SupervisorError) -> (r: EndpointError)
    ensures
        r == mapped(error),
{
    match error {
        SupervisorError::Bind { kind, message } => EndpointError::Io { kind, message },
        SupervisorError::Transport { kind, message } => EndpointError::Io { kind, message },
        SupervisorError::Occupied => EndpointError::Draining,
        SupervisorError::GenerationExhausted => EndpointError::IdentifierExhausted,
        SupervisorError::Timeout => EndpointError::Faulted,
        SupervisorError::Faulted => EndpointError::Faulted,
    }
}

/// Failure owed for a primary that the Driver did not accept.
pub open spec fn data_refusal_error(kind: DataAdmissionErrorKind) -> EndpointError {
    match kind {
        DataAdmissionErrorKind::Full => EndpointError::Backpressure,
        DataAdmissionErrorKind::Draining => EndpointError::Draining,
        DataAdmissionErrorKind::Closing => EndpointError::Operation(
            OperationError::ConnectionLost,
        ),
        DataAdmissionErrorKind::Invalid(error) => EndpointError::Operation(error),
    }
}

/// Failure owed for a control procedure that the Driver did not accept.
pub open spec fn control_refusal_error(kind: ControlAdmissionErrorKind) -> OperationError {
    match kind {
        ControlAdmissionErrorKind::Full => OperationError::Backpressure,
        ControlAdmissionErrorKind::Draining => OperationError::Draining,
        _ => OperationError::ConnectionLost,
    }
}

/// Hands a reply to the Driver of the current generation. A refused reply comes
/// back with its answer.
pub fn admit_reply<Core, Writer, Observer, Completion, Closer>(
    target: &mut SessionDriver<Core, Writer, Observer, RuntimeCompletion<Completion>, Closer>,
    intent: ReplyIntent,
    token: ReplyToken,
    body: Option<SecsItem>,
    completion: Completion,
) -> (r: Option<(Completion, Acknowledgement)>) where
    Core: SessionCore,
    Writer: WriterIngress,
    Observer: SessionStateObserver,
    Completion: CommandCompletion,
    Closer: TransportCloser,

    requires
        model::well_formed(old(target)@),
    ensures
        model::well_formed(final(target)@),
        final(target).untouched(*old(target)),
        exists|blocked: bool|
            {
                &&& old(target).blocking_reported(intent, blocked)
                &&& match #[trigger] driver::reply_refusal(
                    old(target)@,
                    intent,
                    token,
                    body,
                    blocked,
                ) {
                    Some(error) => {
                        &&& final(target)@ == old(target)@
                        &&& r == Some(
                            (
                                completion,
                                command::receipt_of(
                                    DriverCommandResult::ReplyRejected {
                                        intent,
                                        token,
                                        body,
                                        error,
                                    },
                                ),
                            ),
                        )
                    },
                    None => {
                        &&& r is None
                        &&& final(target)@ == model::accepted(
                            old(target)@,
                            AcceptedCommandKind::Reply { intent, token, body },
                            RuntimeCompletion::Application(completion),
                            model::charge_of(old(target)@, body)->Ok_0,
                        )
                    },
                }
            },
{
    let ghost start = target@;
    let ghost begun = *target;
    let ghost waiting = completion;
    let ghost given = token;
    let ghost text = body;
    let result = target.try_accept_reply(
        intent,
        token,
        body,
        RuntimeCompletion::Application(completion),
    );
    proof {
        let blocked = choose|blocked: bool|
            begun.blocking_reported(intent, blocked) && #[trigger] driver::reply_accepted(
                start,
                intent,
                given,
                text,
                RuntimeCompletion::Application(waiting),
                blocked,
                result,
                target@,
            );
        assert(driver::reply_refusal(start, intent, given, text, blocked)
            == driver::reply_refusal(start, intent, given, text, blocked));
    }
    match result {
        Ok(()) => None,
        Err((RuntimeCompletion::Application(completion), rejection)) => Some(
            (completion, receipt(rejection)),
        ),
        Err((RuntimeCompletion::Internal, _)) => None,
    }
}

/// Hands a primary to the Driver of the current generation. A refused primary
/// comes back with its answer.
pub fn admit_data<Core, Writer, Observer, Completion, Closer>(
    target: &mut SessionDriver<Core, Writer, Observer, RuntimeCompletion<Completion>, Closer>,
    message: PrimaryMessage,
    reply_expected: bool,
    completion: Completion,
) -> (r: Option<(Completion, Acknowledgement)>) where
    Core: SessionCore,
    Writer: WriterIngress,
    Observer: SessionStateObserver,
    Completion: CommandCompletion,
    Closer: TransportCloser,

    requires
        model::well_formed(old(target)@),
    ensures
        model::well_formed(final(target)@),
        final(target).untouched(*old(target)),
        match driver::data_refusal(old(target)@, message) {
            Some(kind) => {
                &&& final(target)@ == old(target)@
                &&& r == Some(
                    (
                        completion,
                        Ok::<LifecycleReceipt, EndpointError>(
                            LifecycleReceipt::RejectedPrimary {
                                message,
                                error: data_refusal_error(kind),
                            },
                        ),
                    ),
                )
            },
            None => {
                &&& r is None
                &&& final(target)@ == model::accepted(
                    old(target)@,
                    if reply_expected {
                        AcceptedCommandKind::Request(message)
                    } else {
                        AcceptedCommandKind::Send(message)
                    },
                    RuntimeCompletion::Application(completion),
                    model::charge_of(old(target)@, message.body)->Ok_0,
                )
            },
        },
{
    let admitted = if reply_expected {
        target.try_accept_request(message, RuntimeCompletion::Application(completion))
    } else {
        target.try_accept_send(message, RuntimeCompletion::Application(completion))
    };
    match admitted {
        Ok(()) => None,
        Err(rejection) => {
            let error = match rejection.kind {
                DataAdmissionErrorKind::Full => EndpointError::Backpressure,
                DataAdmissionErrorKind::Draining => EndpointError::Draining,
                DataAdmissionErrorKind::Closing => EndpointError::Operation(
                    OperationError::ConnectionLost,
                ),
                DataAdmissionErrorKind::Invalid(error) => EndpointError::Operation(error),
            };
            match rejection.completion {
                RuntimeCompletion::Application(completion) => Some(
                    (
                        completion,
                        Ok(
                            LifecycleReceipt::RejectedPrimary {
                                message: rejection.message,
                                error,
                            },
                        ),
                    ),
                ),
                RuntimeCompletion::Internal => None,
            }
        },
    }
}

/// Hands a control procedure to the Driver of the current generation. A refused
/// one comes back with its answer.
pub fn admit_control<Core, Writer, Observer, Completion, Closer>(
    target: &mut SessionDriver<Core, Writer, Observer, RuntimeCompletion<Completion>, Closer>,
    intent: ControlIntent,
    completion: Completion,
) -> (r: Option<(Completion, Acknowledgement)>) where
    Core: SessionCore,
    Writer: WriterIngress,
    Observer: SessionStateObserver,
    Completion: CommandCompletion,
    Closer: TransportCloser,

    requires
        model::well_formed(old(target)@),
    ensures
        model::well_formed(final(target)@),
        final(target).untouched(*old(target)),
        match driver::control_refusal(old(target)@) {
            Some(kind) => {
                &&& final(target)@ == old(target)@
                &&& r == Some(
                    (
                        completion,
                        Err::<LifecycleReceipt, EndpointError>(
                            EndpointError::Operation(control_refusal_error(kind)),
                        ),
                    ),
                )
            },
            None => {
                &&& r is None
                &&& final(target)@ == model::accepted(
                    old(target)@,
                    AcceptedCommandKind::Control(intent),
                    RuntimeCompletion::Application(completion),
                    0,
                )
            },
        },
{
    match target.try_accept_control(intent, RuntimeCompletion::Application(completion)) {
        Ok(()) => None,
        Err(rejection) => {
            let reason = match rejection.kind() {
                ControlAdmissionErrorKind::Full => OperationError::Backpressure,
                ControlAdmissionErrorKind::Draining => OperationError::Draining,
                _ => OperationError::ConnectionLost,
            };
            let (_, completion) = rejection.into_parts();
            match completion {
                RuntimeCompletion::Application(completion) => Some(
                    (completion, receipt(DriverCommandResult::Control(Err(reason)))),
                ),
                RuntimeCompletion::Internal => None,
            }
        },
    }
}

/// State of a Driver after its oldest deliveries were taken.
pub open spec fn deliveries_taken<C>(
    view: DriverView<C>,
    primaries: int,
    errors: int,
) -> DriverView<C> {
    DriverView {
        inbound: view.inbound.skip(primaries),
        protocol_errors: view.protocol_errors.skip(errors),
        ..view
    }
}

/// Deliveries leave the Driver in order until the application does not keep up;
/// in that case the generation is closed at once.
pub open spec fn delivered<C>(
    view: DriverView<C>,
    kept_up: bool,
    primaries: int,
    errors: int,
    now: MonoTime,
    after: DriverView<C>,
) -> bool {
    &&& 0 <= primaries <= view.inbound.len()
    &&& 0 <= errors <= view.protocol_errors.len()
    &&& if !kept_up {
        model::shut_down(
            deliveries_taken(view, primaries, errors),
            GenerationCloseReason::ApplicationBackpressure,
            None,
            now,
            after,
        )
    } else {
        &&& primaries == view.inbound.len()
        &&& errors == view.protocol_errors.len()
        &&& after == deliveries_taken(view, primaries, errors)
    }
}

/// The application got the oldest deliveries, in order, each because its queue took
/// it. Of either kind, what waits is handed out up to the first one that the budget
/// or its queue refuses, if there is one, whatever became of the other kind.
pub open spec fn handed_out<C>(
    view: DriverView<C>,
    before: Delivery,
    kept_up: bool,
    primaries: int,
    errors: int,
    after: Delivery,
) -> bool {
    let got = after@.primaries.len() - before@.primaries.len();
    let heard = after@.errors.len() - before@.errors.len();
    &&& after.same_queues(before)
    &&& after.budget() == before.budget()
    &&& primaries - 1 <= got <= primaries
    &&& errors - 1 <= heard <= errors
    &&& kept_up <==> got == primaries && heard == errors
    &&& before@.primaries.is_prefix_of(after@.primaries)
    &&& receiver::primaries_of(after@.primaries) == receiver::primaries_of(before@.primaries)
        + view.inbound.take(got)
    &&& after@.errors == before@.errors + view.protocol_errors.take(heard)
    &&& forall|i: int|
        before@.primaries.len() <= i < after@.primaries.len() ==> receiver::charged(
            before.budget(),
            #[trigger] after@.primaries[i],
        )
    &&& forall|i: int|
        0 <= i < got ==> before.primary_settled(#[trigger] view.inbound[i], true)
    &&& forall|i: int|
        0 <= i < heard ==> before.error_settled(#[trigger] view.protocol_errors[i], true)
    &&& if got < primaries {
        before.primary_settled(view.inbound[primaries - 1], false)
    } else {
        primaries == view.inbound.len()
    }
    &&& if heard < errors {
        before.error_settled(view.protocol_errors[errors - 1], false)
    } else {
        errors == view.protocol_errors.len()
    }
}

/// Hands every delivery of a generation to the application and returns whether
/// the application kept up.
pub fn deliver<Core, Writer, Observer, Completion, Closer>(
    runtime: &mut GenerationRuntime<Core, Writer, Observer, Completion, Closer>,
    delivery: &mut Delivery,
    now: MonoTime,
) -> (r: bool) where
    Core: SessionCore,
    Writer: WriterIngress,
    Observer: SessionStateObserver,
    Completion: CommandCompletion,
    Closer: TransportCloser,

    requires
        old(runtime)@.valid(),
        old(runtime).session().settled(),
    ensures
        final(runtime)@.valid(),
        final(runtime).session().settled(),
        final(runtime).session().continues(old(runtime).session()),
        final(runtime)@ == old(runtime)@.with_driver(final(runtime)@.driver),
        exists|primaries: int, errors: int|
            {
                &&& #[trigger] delivered(
                    old(runtime)@.driver,
                    r,
                    primaries,
                    errors,
                    now,
                    final(runtime)@.driver,
                )
                &&& handed_out(
                    old(runtime)@.driver,
                    *old(delivery),
                    r,
                    primaries,
                    errors,
                    *final(delivery),
                )
            },
{
    let ghost start = runtime@;
    let ghost begun = runtime.session();
    proof {
        runtime.lemma_session();
    }
    let ghost opened = delivery@;
    let ghost whole = *delivery;
    proof {
        delivery.lemma_own_queues();
    }
    let mut failed = false;
    let mut draining = true;
    let ghost mut primaries: int = 0;
    let ghost mut got: int = 0;
    assert(receiver::primaries_of(opened.primaries) + start.driver.inbound.take(0)
        =~= receiver::primaries_of(opened.primaries));
    assert(start.driver.inbound.skip(0) =~= start.driver.inbound);
    assert(start.driver.protocol_errors.skip(0) =~= start.driver.protocol_errors);
    while draining
        invariant
            0 <= primaries <= start.driver.inbound.len(),
            start.valid(),
            begun.settled(),
            runtime.session().untouched(begun),
            runtime.session()@ == runtime@.driver,
            begun@ == start.driver,
            runtime@ == start.with_driver(deliveries_taken(start.driver, primaries, 0)),
            !draining && !failed ==> primaries == start.driver.inbound.len(),
            failed ==> !draining,
            0 <= got,
            got == primaries - if failed {
                1int
            } else {
                0int
            },
            whole@ == opened,
            delivery.same_queues(whole),
            delivery.budget() == whole.budget(),
            delivery@.errors == opened.errors,
            failed ==> whole.primary_settled(start.driver.inbound[primaries - 1], false),
            forall|i: int|
                0 <= i < got ==> whole.primary_settled(#[trigger] start.driver.inbound[i], true),
            opened.primaries.is_prefix_of(delivery@.primaries),
            forall|i: int|
                opened.primaries.len() <= i < delivery@.primaries.len() ==> receiver::charged(
                    whole.budget(),
                    #[trigger] delivery@.primaries[i],
                ),
            delivery@.primaries.len() == opened.primaries.len() + got,
            receiver::primaries_of(delivery@.primaries) == receiver::primaries_of(opened.primaries)
                + start.driver.inbound.take(got),
        decreases start.driver.inbound.len() - primaries, if draining {
            1int
        } else {
            0int
        },
    {
        assert(model::well_formed(runtime@.driver));
        match runtime.driver_mut().take_inbound() {
            Some(primary) => {
                proof {
                    assert(start.driver.inbound.skip(primaries).drop_first()
                        =~= start.driver.inbound.skip(primaries + 1));
                    primaries = primaries + 1;
                }
                let ghost before = delivery@.primaries;
                let ghost handed = primary;
                let ghost entering = *delivery;
                let settled = delivery.primary(primary);
                proof {
                    entering.lemma_same_queues(whole);
                    delivery.lemma_same_queues(entering);
                    assert(entering.primary_settled(handed, settled is Ok));
                    assert(whole.primary_settled(handed, settled is Ok));
                    assert(handed == start.driver.inbound[primaries - 1]);
                }
                if settled.is_err() {
                    failed = true;
                    draining = false;
                } else {
                    proof {
                        assert(delivery@.primaries =~= before.push(delivery@.primaries.last()));
                        assert(receiver::primaries_of(delivery@.primaries)
                            =~= receiver::primaries_of(before).push(handed));
                        assert(start.driver.inbound.take(got + 1) =~= start.driver.inbound.take(
                            got,
                        ).push(handed));
                        got = got + 1;
                        assert(receiver::primaries_of(delivery@.primaries)
                            =~= receiver::primaries_of(opened.primaries)
                            + start.driver.inbound.take(got));
                    }
                }
            },
            None => {
                draining = false;
            },
        }
    }
    let mut draining = true;
    let mut refused = false;
    let ghost mut errors: int = 0;
    let ghost mut heard: int = 0;
    assert(opened.errors + start.driver.protocol_errors.take(0) =~= opened.errors);
    while draining
        invariant
            0 <= primaries <= start.driver.inbound.len(),
            0 <= errors <= start.driver.protocol_errors.len(),
            start.valid(),
            begun.settled(),
            runtime.session().untouched(begun),
            runtime.session()@ == runtime@.driver,
            begun@ == start.driver,
            runtime@ == start.with_driver(deliveries_taken(start.driver, primaries, errors)),
            !draining && !refused ==> errors == start.driver.protocol_errors.len(),
            refused ==> !draining,
            heard == errors - if refused {
                1int
            } else {
                0int
            },
            delivery@.errors == opened.errors + start.driver.protocol_errors.take(heard),
            0 <= heard <= start.driver.protocol_errors.len(),
            0 <= got,
            got == primaries - if failed {
                1int
            } else {
                0int
            },
            !failed ==> primaries == start.driver.inbound.len(),
            whole@ == opened,
            delivery.same_queues(whole),
            delivery.budget() == whole.budget(),
            failed ==> whole.primary_settled(start.driver.inbound[primaries - 1], false),
            forall|i: int|
                0 <= i < got ==> whole.primary_settled(#[trigger] start.driver.inbound[i], true),
            refused ==> whole.error_settled(start.driver.protocol_errors[errors - 1], false),
            forall|i: int|
                0 <= i < heard ==> whole.error_settled(
                    #[trigger] start.driver.protocol_errors[i],
                    true,
                ),
            opened.primaries.is_prefix_of(delivery@.primaries),
            forall|i: int|
                opened.primaries.len() <= i < delivery@.primaries.len() ==> receiver::charged(
                    whole.budget(),
                    #[trigger] delivery@.primaries[i],
                ),
            delivery@.primaries.len() == opened.primaries.len() + got,
            receiver::primaries_of(delivery@.primaries) == receiver::primaries_of(opened.primaries)
                + start.driver.inbound.take(got),
        decreases start.driver.protocol_errors.len() - errors, if draining {
            1int
        } else {
            0int
        },
    {
        assert(model::well_formed(runtime@.driver));
        match runtime.driver_mut().take_protocol_error() {
            Some(error) => {
                proof {
                    assert(start.driver.protocol_errors.skip(errors).drop_first()
                        =~= start.driver.protocol_errors.skip(errors + 1));
                    errors = errors + 1;
                }
                let ghost handed = error;
                let ghost entering = *delivery;
                let settled = delivery.error(error);
                proof {
                    entering.lemma_same_queues(whole);
                    delivery.lemma_same_queues(entering);
                    assert(entering.error_settled(handed, settled is Ok));
                    assert(whole.error_settled(handed, settled is Ok));
                    assert(handed == start.driver.protocol_errors[errors - 1]);
                }
                if settled.is_err() {
                    refused = true;
                    draining = false;
                } else {
                    proof {
                        assert(start.driver.protocol_errors.take(heard + 1)
                            =~= start.driver.protocol_errors.take(heard).push(handed));
                        heard = heard + 1;
                        assert(delivery@.errors =~= opened.errors
                            + start.driver.protocol_errors.take(heard));
                    }
                }
            },
            None => {
                draining = false;
            },
        }
    }
    assert(runtime@.valid());
    assert(runtime.session().settled());
    if failed || refused {
        runtime.force_close(GenerationCloseReason::ApplicationBackpressure, now);
    }
    let kept_up = !failed && !refused;
    assert(delivered(
        start.driver,
        kept_up,
        primaries,
        errors,
        now,
        runtime@.driver,
    ));
    assert(handed_out(start.driver, whole, kept_up, primaries, errors, *delivery));
    kept_up
}

/// Inbound messages are delivered reliably: each one that waits reaches the
/// application in order, or the generation is closed for backpressure because the
/// budget or a queue refused one of its kind. Primaries and errors do not hold each
/// other up: all of one kind are handed out unless one of that kind is refused.
pub proof fn law_delivery_is_reliable<C>(
    view: DriverView<C>,
    before: Delivery,
    kept_up: bool,
    primaries: int,
    errors: int,
    now: MonoTime,
    after: DriverView<C>,
    delivery: Delivery,
)
    requires
        delivered(view, kept_up, primaries, errors, now, after),
        handed_out(view, before, kept_up, primaries, errors, delivery),
    ensures
        ({
            let all = receiver::primaries_of(delivery@.primaries) == receiver::primaries_of(
                before@.primaries,
            ) + view.inbound;
            let every = delivery@.errors == before@.errors + view.protocol_errors;
            &&& kept_up ==> all && every && after.closing == view.closing
            &&& !kept_up ==> model::shut_down(
                deliveries_taken(view, primaries, errors),
                GenerationCloseReason::ApplicationBackpressure,
                None,
                now,
                after,
            )
            &&& !all ==> !kept_up && exists|i: int|
                0 <= i < view.inbound.len() && before.primary_settled(
                    #[trigger] view.inbound[i],
                    false,
                )
            &&& !every ==> !kept_up && exists|i: int|
                0 <= i < view.protocol_errors.len() && before.error_settled(
                    #[trigger] view.protocol_errors[i],
                    false,
                )
        }),
{
    assert(view.inbound.take(view.inbound.len() as int) =~= view.inbound);
    assert(view.protocol_errors.take(view.protocol_errors.len() as int) =~= view.protocol_errors);
}

/// Commands in the custody of a route.
pub open spec fn carried(route: Route) -> Option<Envelope> {
    match route {
        Route::Quit => None,
        Route::Answered => None,
        Route::Reply { envelope, .. } => Some(envelope),
        Route::Data { envelope, .. } => Some(envelope),
        Route::Control { envelope, .. } => Some(envelope),
        Route::Settle { envelope, .. } => Some(envelope),
        Route::Start(envelope) => Some(envelope),
        Route::Recover(envelope) => Some(envelope),
        Route::Stop(envelope) => Some(envelope),
        Route::StopPending => None,
        Route::DisconnectPending => None,
    }
}

/// What the application hears is what was told: when a round is published, the new
/// state is in the cell and every command that completed in that round was sent its
/// own answer.
pub proof fn law_what_was_told_was_done(
    before: HsmsRuntime,
    facts: SupervisorFacts,
    completed: Seq<(Envelope, Acknowledgement)>,
    after: HsmsRuntime,
)
    requires
        next_published(before@.published, facts, before@.last_exit) is Ok,
        after@ == shown(
            before@,
            next_published(before@.published, facts, before@.last_exit)->Ok_0,
        ).answered_all(completed),
        after.kept_word(before),
    ensures
        next_published(before@.published, facts, before@.last_exit)->Ok_0 is Some ==> put_into(
            before.cell(),
            after@.published,
        ),
        forall|i: int|
            0 <= i < completed.len() ==> (#[trigger] completed[i]).0.completed(completed[i].1),
{
    law_answers_follow_publication(before@, facts, completed);
    let next = next_published(before@.published, facts, before@.last_exit)->Ok_0;
    let start = before@.told.len() as int + if next is Some {
        1int
    } else {
        0int
    };
    if next is Some {
        assert(done(after.cell(), after@.told[before@.told.len() as int]));
    }
    assert forall|i: int| 0 <= i < completed.len() implies (#[trigger] completed[i]).0.completed(
        completed[i].1,
    ) by {
        assert(done(after.cell(), after@.told[start + i]));
    }
}

/// A command for a connection that was replaced never reaches another one: it is
/// sent exactly its refusal, with the content that it carried, and goes nowhere else.
pub proof fn law_stale_command_is_refused(
    before: HsmsRuntime,
    facts: SupervisorFacts,
    command: LifecycleCommand,
    after: HsmsRuntime,
    route: Route,
)
    requires
        !facts.faulted,
        (after@, route) == routed(before@, facts, Some(command)),
        after.kept_word(before),
    ensures
        ({
            let stale = EndpointError::StaleConnectionGeneration;
            match command.intent {
                LifecycleIntent::Data { generation, message, .. } => facts.generation() != Some(
                    generation,
                ) ==> route is Answered && command.envelope.completed(
                    Ok(LifecycleReceipt::RejectedPrimary { message, error: stale }),
                ),
                LifecycleIntent::Reply { generation, intent, token, body } => facts.generation()
                    != Some(generation) ==> route is Answered && command.envelope.completed(
                    Ok(LifecycleReceipt::RejectedReply { intent, token, body, error: stale }),
                ),
                LifecycleIntent::Control(generation, _) => facts.generation() != Some(generation)
                    ==> route is Answered && command.envelope.completed(Err(stale)),
                _ => true,
            }
        }),
{
    if after@.told.len() > before@.told.len() {
        assert(done(after.cell(), after@.told[before@.told.len() as int]));
    }
}

/// A close command hears of the end only after the application can see it: when a
/// generation ended, the state in the cell shows its exit, and every waiting close
/// command was sent whether its cleanup was proved, after that state.
pub proof fn law_close_is_answered_after_its_exit(
    before: HsmsRuntime,
    exit: SessionExit,
    facts: SupervisorFacts,
    completed: Seq<(Envelope, Acknowledgement)>,
    after: HsmsRuntime,
)
    requires
        next_published(before@.published, facts, Some(exit_report(exit))) is Ok,
        after@ == released(
            shown(
                ended(before@, exit),
                next_published(before@.published, facts, Some(exit_report(exit)))->Ok_0,
            ).answered_all(completed),
            exit.cleanup == CleanupResult::Clean,
        ),
        after.kept_word(before),
    ensures
        after@.published.last_exit == Some(exit_report(exit)),
        after@.published != before@.published ==> put_into(before.cell(), after@.published)
            && after@.told[before@.told.len() as int] == Told::Published(after@.published),
        forall|i: int|
            0 <= i < before@.pending.len() ==> (#[trigger] before@.pending[i]).completed(
                closed_answer(exit.cleanup == CleanupResult::Clean),
            ),
        after@.pending.len() == 0,
{
    let clean = exit.cleanup == CleanupResult::Clean;
    let next = next_published(before@.published, facts, Some(exit_report(exit)))->Ok_0;
    let start = before@.told.len() as int + completed.len() as int + if next is Some {
        1int
    } else {
        0int
    };
    if next is Some {
        assert(done(after.cell(), after@.told[before@.told.len() as int]));
    }
    assert forall|i: int| 0 <= i < before@.pending.len() implies (
    #[trigger] before@.pending[i]).completed(closed_answer(clean)) by {
        assert(after@.told[start + i] == Told::Answered(
            before@.pending[i],
            closed_answer(clean),
        ));
        assert(done(after.cell(), after@.told[start + i]));
    }
}

/// A recovery after an unproved cleanup upgrades only the cleanup: when the stop
/// that asked for it succeeds, the exit that is published then is clean, and has the
/// generation and the close reason of the exit that was published before.
pub proof fn law_recovery_upgrades_only_the_cleanup<C>(
    open: RuntimeView<C>,
    reason: GenerationCloseReason,
    begun: MonoTime,
    closed: RuntimeView<C>,
    settled: RuntimeView<C>,
    finished: RuntimeView<C>,
    first: SessionExit,
    before: RuntimeState,
    facts: SupervisorFacts,
    again: MonoTime,
    repeated: GenerationCloseReason,
    recovering: RuntimeView<C>,
    resettled: RuntimeView<C>,
    after: RuntimeView<C>,
    second: SessionExit,
    stopping: RuntimeState,
    later: SupervisorFacts,
)
    requires
        open.valid(),
        model::shut_down(open.driver, reason, None, begun, closed.driver),
        rounds::cleaned_up(closed, reason, settled, finished, first),
        first.cleanup != CleanupResult::Clean,
        next_published(before.published, facts, ended(before, first).last_exit) is Ok,
        rounds::recovery_begun(finished, again, recovering, repeated),
        rounds::cleaned_up(recovering, repeated, resettled, after, second),
        recovery_answer(Ok(Some(second))) is Ok,
        next_published(
            stopping.published,
            later,
            recovered(stopping, Ok(Some(second))).last_exit,
        ) is Ok,
    ensures
        ({
            let exit = ended(before, first);
            let poisoned = shown(
                exit,
                next_published(exit.published, facts, exit.last_exit)->Ok_0,
            ).published.last_exit;
            let renewed = recovered(stopping, Ok(Some(second)));
            let clean = shown(
                renewed,
                next_published(renewed.published, later, renewed.last_exit)->Ok_0,
            ).published.last_exit;
            &&& poisoned is Some
            &&& !poisoned->0.clean
            &&& clean == Some(ConnectionExitReport { clean: true, ..poisoned->0 })
        }),
{
    rounds::law_recovery_keeps_the_exit(
        open,
        reason,
        begun,
        closed,
        settled,
        finished,
        first,
        again,
        repeated,
        recovering,
        resettled,
        after,
        second,
    );
}

/// Routing neither loses a command nor keeps it twice: it is answered at once, or
/// waits among the close commands, or goes on with the route.
pub proof fn law_command_has_one_owner(
    view: RuntimeState,
    facts: SupervisorFacts,
    command: LifecycleCommand,
)
    ensures
        ({
            let (after, route) = routed(view, facts, Some(command));
            let answered = after.told.len() > view.told.len();
            let waiting = after.pending.len() > view.pending.len();
            &&& answered ==> after.told.drop_last() == view.told && after.told.last() is Answered
                && after.told.last()->Answered_0 == command.envelope && after.pending
                == view.pending && carried(route) is None
            &&& waiting ==> after.pending.drop_last() == view.pending && after.pending.last()
                == command.envelope && after.told == view.told && carried(route) is None
            &&& !answered && !waiting ==> after.told == view.told && after.pending == view.pending
                && carried(route) == Some(command.envelope)
        }),
{
    let (after, route) = routed(view, facts, Some(command));
    if after.told.len() > view.told.len() {
        assert(after.told.drop_last() =~= view.told);
    }
    if after.pending.len() > view.pending.len() {
        assert(after.pending.drop_last() =~= view.pending);
    }
}

/// A message reaches a generation only when it was meant for that very
/// generation and the endpoint is not faulted; in every other case its content
/// comes back with the answer.
pub proof fn law_messages_never_change_connection(
    view: RuntimeState,
    facts: SupervisorFacts,
    command: LifecycleCommand,
)
    ensures
        ({
            let (after, route) = routed(view, facts, Some(command));
            match command.intent {
                LifecycleIntent::Data { generation, message, .. } => {
                    if !facts.faulted && facts.generation() == Some(generation) {
                        route matches Route::Data { message: carried, .. } && carried == message
                    } else {
                        after.told.last() matches Told::Answered(
                            _,
                            Ok(LifecycleReceipt::RejectedPrimary { message: back, .. }),
                        ) && back == message
                    }
                },
                LifecycleIntent::Reply { generation, token, .. } => {
                    if !facts.faulted && facts.generation() == Some(generation) {
                        route matches Route::Reply { token: carried, .. } && carried == token
                    } else {
                        after.told.last() matches Told::Answered(
                            _,
                            Ok(LifecycleReceipt::RejectedReply { token: back, .. }),
                        ) && back == token
                    }
                },
                _ => true,
            }
        }),
{
}

/// Published revisions are strictly increasing, and a state that did not change
/// is not published again.
pub proof fn law_revisions_increase(
    published: EndpointStateSnapshot,
    facts: SupervisorFacts,
    last_exit: Option<ConnectionExitReport>,
)
    ensures
        match next_published(published, facts, last_exit) {
            Ok(Some(next)) => next.sequence == published.sequence + 1 && next_published(
                next,
                facts,
                last_exit,
            ) == Ok::<Option<EndpointStateSnapshot>, EndpointError>(None),
            Ok(None) => true,
            Err(error) => published.sequence == u64::MAX && error
                == EndpointError::IdentifierExhausted,
        },
{
}

/// A generation whose transport closed is finished before anything else, and a
/// runtime without handles leaves only when no generation is left or its cleanup
/// cannot be proved.
pub proof fn law_leaving_needs_a_proof(facts: SupervisorFacts)
    ensures
        !facts.faulted && facts.current is Some && facts.current->0.transport_closed ==> step_of(
            true,
            facts,
        ) == RuntimeStep::FinishGeneration,
        step_of(true, facts) == RuntimeStep::Return(Ok(())) ==> facts.current is None
            && !facts.faulted,
        step_of(false, facts) matches RuntimeStep::Return(_) ==> false,
{
}

/// Answers follow the state that they belong to: when a round changes the state,
/// the new state is published before any command that completed in that round is
/// answered, and the state that is visible then is the one that the facts call
/// for.
pub proof fn law_answers_follow_publication(
    view: RuntimeState,
    facts: SupervisorFacts,
    completed: Seq<(Envelope, Acknowledgement)>,
)
    requires
        next_published(view.published, facts, view.last_exit) is Ok,
    ensures
        ({
            let next = next_published(view.published, facts, view.last_exit)->Ok_0;
            let after = shown(view, next).answered_all(completed);
            let start = view.told.len() as int + if next is Some {
                1int
            } else {
                0int
            };
            &&& after.published == observed_state(
                facts,
                view.last_exit,
                after.published.sequence,
            )
            &&& next is Some ==> after.told[view.told.len() as int] == Told::Published(
                after.published,
            )
            &&& after.told.len() == start + completed.len()
            &&& forall|i: int|
                0 <= i < completed.len() ==> after.told[start + i] == Told::Answered(
                    (#[trigger] completed[i]).0,
                    completed[i].1,
                )
        }),
{
}

} // verus!
