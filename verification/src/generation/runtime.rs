//! Rounds of one generation: which input comes next, what it does to the Driver,
//! and how the generation is closed in bounded time.

use crate::api::ControlIntent;
use crate::generation::driver::command::{AcceptedCommandKind, DriverCommandResult};
use crate::generation::driver::calls::Ports;
use crate::generation::driver::driver;
use crate::generation::driver::driver::SessionDriver;
use crate::generation::driver::laws;
use crate::generation::driver::model;
use crate::generation::driver::model::{CoreInput, DriverView};
use crate::generation::driver::ports::{
    CommandCompletion, SessionCore, SessionStateObserver, TransportCloser,
};
use crate::generation::transport::bounded_writer::WriterReport;
use crate::generation::transport::io::ReadFailure;
use crate::generation::transport::tasks::{CleanupResult, IoEvent, ReaderEnd};
use crate::generation::transport::writer::WriterIngress;
use crate::config::{ConnectionMode, EndpointConfig};
use crate::error::ConfigError;
use crate::model::ids::ConnectionGeneration;
use crate::model::runtime::{CommunicationsTimeoutKind, GenerationCloseReason, MonoTime};
use crate::sync::clock;
use crate::sync::clock::deadline_after;
use tokio::time::Instant;
use vstd::prelude::*;

verus! {

/// Time budget of closing a generation, in nanoseconds.
#[derive(Clone, Copy, Debug, PartialEq, Eq, Structural)]
pub struct ShutdownPolicy {
    /// Longest graceful drain.
    pub drain: u128,
    /// Longest graceful close.
    pub shutdown: u128,
    /// Longest wait for the transport tasks.
    pub cleanup: u128,
}

/// Time budget of closing the generations of an endpoint.
pub open spec fn configured_policy(config: EndpointConfig) -> ShutdownPolicy {
    ShutdownPolicy {
        drain: config.runtime.drain,
        shutdown: config.runtime.shutdown,
        cleanup: config.runtime.cleanup,
    }
}

/// Returns whether a generation selects the session by itself: only the side that
/// opened the connection does, and only when it is told to.
pub fn selects_by_itself(mode: ConnectionMode, auto_select: bool) -> (r: bool)
    ensures
        r == (mode == ConnectionMode::Active && auto_select),
{
    match mode {
        ConnectionMode::Active => auto_select,
        ConnectionMode::Passive => false,
    }
}

/// A graceful close under way.
#[derive(Clone, Copy, Debug, PartialEq, Eq, Structural)]
pub struct ShutdownDrain {
    /// Reason of the close.
    pub reason: GenerationCloseReason,
    /// Time at which draining ends.
    pub drain_deadline: MonoTime,
    /// Time at which the close becomes immediate.
    pub shutdown_deadline: MonoTime,
    /// The drain ended and the last frames are on their way.
    pub finalizing: bool,
}

/// Completion of a command: an application's, or nobody's.
pub enum RuntimeCompletion<Completion> {
    /// The application waits for the result.
    Application(Completion),
    /// The runtime issued the command itself.
    Internal,
}

impl<Completion: CommandCompletion> CommandCompletion for RuntimeCompletion<Completion> {
    /// Hands the result to the application, if it waits for one.
    fn complete(self, result: DriverCommandResult)
        ensures
            self matches RuntimeCompletion::Application(completion) ==> call_ensures(
                Completion::complete,
                (completion, result),
                (),
            ),
    {
        match self {
            RuntimeCompletion::Application(completion) => completion.complete(result),
            RuntimeCompletion::Internal => {},
        }
    }
}

/// End of one generation.
#[derive(Clone, Copy, Debug, PartialEq, Eq, Structural)]
pub struct SessionExit {
    /// Generation that ended.
    pub generation: ConnectionGeneration,
    /// Why it ended.
    pub reason: GenerationCloseReason,
    /// Whether its resources are proved released.
    pub cleanup: CleanupResult,
}

/// Input of one round.
pub enum RoundInput {
    /// The graceful drain has nothing left to wait for.
    Shutdown,
    /// A fact of the transport tasks; none when both are gone.
    Io(Option<IoEvent>),
    /// A deadline.
    Timer,
    /// An accepted command.
    Command,
}

/// Choice of the next round's input.
pub enum RoundChoice {
    /// This input.
    Ready(RoundInput),
    /// Look at the transport tasks.
    PollIo,
    /// Nothing yet.
    Wait,
}

/// State of one generation.
#[verifier::reject_recursive_types(C)]
pub struct RuntimeView<C> {
    /// State of the Driver.
    pub driver: DriverView<RuntimeCompletion<C>>,
    /// A waiting command goes before ordinary transport work.
    pub prefer_command: bool,
    /// Graceful close under way.
    pub shutdown: Option<ShutdownDrain>,
    /// Time budget of closing.
    pub policy: ShutdownPolicy,
}

impl<C> RuntimeView<C> {
    /// The same generation with another Driver state.
    pub open spec fn with_driver(self, driver: DriverView<RuntimeCompletion<C>>) -> RuntimeView<C> {
        RuntimeView { driver, ..self }
    }

    /// Invariant of every generation between rounds.
    pub open spec fn valid(self) -> bool {
        model::well_formed(self.driver) && model::calm(self.driver)
    }
}

/// Close reason owed for the end of the Reader.
pub open spec fn reader_reason(end: ReaderEnd) -> GenerationCloseReason {
    match end {
        ReaderEnd::Crashed => GenerationCloseReason::RuntimeInvariant,
        ReaderEnd::Failed(ReadFailure::DeadlineOverflow) => GenerationCloseReason::RuntimeInvariant,
        ReaderEnd::Failed(ReadFailure::IntercharacterTimeout) => {
            GenerationCloseReason::CommunicationsTimeout(CommunicationsTimeoutKind::T8)
        },
        ReaderEnd::Failed(ReadFailure::Framing(_)) => GenerationCloseReason::ProtocolViolation,
        _ => GenerationCloseReason::TransportLost,
    }
}

/// Returns the close reason owed for the end of the Reader.
pub fn reader_close_reason(end: ReaderEnd) -> (r: GenerationCloseReason)
    ensures
        r == reader_reason(end),
{
    match end {
        ReaderEnd::Crashed => GenerationCloseReason::RuntimeInvariant,
        ReaderEnd::Failed(ReadFailure::DeadlineOverflow) => GenerationCloseReason::RuntimeInvariant,
        ReaderEnd::Failed(ReadFailure::IntercharacterTimeout) => {
            GenerationCloseReason::CommunicationsTimeout(CommunicationsTimeoutKind::T8)
        },
        ReaderEnd::Failed(ReadFailure::Framing(_)) => GenerationCloseReason::ProtocolViolation,
        _ => GenerationCloseReason::TransportLost,
    }
}

/// Close reason owed for the end of the Writer.
pub open spec fn writer_reason(regular: bool) -> GenerationCloseReason {
    if regular {
        GenerationCloseReason::TransportLost
    } else {
        GenerationCloseReason::RuntimeInvariant
    }
}

/// A new generation presents its connection to the core and, when it selects by
/// itself, accepts a Select of its own.
pub open spec fn started<C>(
    driver: DriverView<RuntimeCompletion<C>>,
    selects: bool,
    after: DriverView<RuntimeCompletion<C>>,
) -> bool {
    exists|connected: DriverView<RuntimeCompletion<C>>|
        {
            &&& #[trigger] connects(driver, connected)
            &&& if !selects {
                after == connected
            } else if driver::control_refusal(connected) is Some {
                model::shut_down(
                    connected,
                    GenerationCloseReason::RuntimeInvariant,
                    None,
                    MonoTime { nanos: 0 },
                    after,
                )
            } else {
                after == model::accepted(
                    connected,
                    AcceptedCommandKind::Control(ControlIntent::Select),
                    RuntimeCompletion::Internal,
                    0,
                )
            }
        }
}

/// The connection is presented to an open core at time zero.
pub open spec fn connects<C>(
    driver: DriverView<RuntimeCompletion<C>>,
    connected: DriverView<RuntimeCompletion<C>>,
) -> bool {
    if driver.closing is Some {
        connected == driver
    } else {
        model::answered(
            driver,
            CoreInput::Connected { now: MonoTime { nanos: 0 } },
            false,
            MonoTime { nanos: 0 },
            connected,
        )
    }
}

/// Ends of a graceful close: of draining and of the whole close, when the clock
/// reaches them.
#[derive(Clone, Copy, Debug, PartialEq, Eq, Structural)]
pub struct CloseDeadlines {
    /// End of draining.
    pub drain: Option<MonoTime>,
    /// End of the whole close.
    pub shutdown: Option<MonoTime>,
}

/// The deadlines of a graceful close that begins now, by the clock that started at
/// `epoch`.
pub open spec fn deadlines_told(
    epoch: Instant,
    policy: ShutdownPolicy,
    now: MonoTime,
    deadlines: CloseDeadlines,
) -> bool {
    &&& clock::deadline_told(epoch, now, policy.drain, deadlines.drain)
    &&& clock::deadline_told(epoch, now, policy.shutdown, deadlines.shutdown)
}

/// A graceful close stops admission and fixes both deadlines, once. A close whose
/// deadlines the clock does not reach is immediate.
pub open spec fn gracefully_closing<C>(
    view: RuntimeView<C>,
    reason: GenerationCloseReason,
    deadlines: CloseDeadlines,
    now: MonoTime,
    after: RuntimeView<C>,
) -> bool {
    let gated = view.with_driver(model::draining(view.driver));
    if view.shutdown is Some || view.driver.closing is Some {
        after == view
    } else {
        match (deadlines.drain, deadlines.shutdown) {
            (Some(drain), Some(shutdown)) => after == (RuntimeView {
                shutdown: Some(
                    ShutdownDrain {
                        reason,
                        drain_deadline: drain.spec_earlier(shutdown),
                        shutdown_deadline: shutdown,
                        finalizing: false,
                    },
                ),
                ..gated
            }),
            _ => {
                &&& after == gated.with_driver(after.driver)
                &&& model::shut_down(
                    gated.driver,
                    GenerationCloseReason::RuntimeInvariant,
                    None,
                    now,
                    after.driver,
                )
            },
        }
    }
}

/// A graceful close ends immediately at its own deadline; before that it leaves
/// draining at the drain deadline or when nothing is left to wait for.
pub open spec fn shutdown_advanced<C>(
    view: RuntimeView<C>,
    drained: bool,
    now: MonoTime,
    after: RuntimeView<C>,
) -> bool {
    match view.shutdown {
        None => after == view,
        Some(drain) => if now.nanos >= drain.shutdown_deadline.nanos {
            &&& after == view.with_driver(after.driver)
            &&& model::shut_down(view.driver, drain.reason, None, now, after.driver)
        } else if !drain.finalizing && (now.nanos >= drain.drain_deadline.nanos || drained) {
            &&& after == (RuntimeView {
                driver: after.driver,
                shutdown: Some(ShutdownDrain { finalizing: true, ..drain }),
                ..view
            })
            &&& driver::drain_finished(view.driver, drain.reason, now, after.driver)
        } else {
            after == view
        },
    }
}

/// A graceful close whose drain has not ended yet waits for work that is left.
pub open spec fn drain_waits(shutdown: Option<ShutdownDrain>, now: MonoTime) -> bool {
    shutdown matches Some(drain) && !drain.finalizing && now.nanos < drain.drain_deadline.nanos
        && now.nanos < drain.shutdown_deadline.nanos
}

/// A graceful close moves on, by what the core answered about the work that is left
/// where that matters.
pub open spec fn shutdown_moved<C>(
    view: RuntimeView<C>,
    now: MonoTime,
    after: RuntimeView<C>,
) -> bool {
    if !drain_waits(view.shutdown, now) {
        shutdown_advanced(view, false, now, after)
    } else {
        exists|drained: bool, asked: DriverView<RuntimeCompletion<C>>|
            {
                &&& #[trigger] driver::drain_asked(view.driver, drained, asked)
                &&& shutdown_advanced(view.with_driver(asked), drained, now, after)
            }
    }
}

/// A write report settles its frame; one that does not match an outstanding
/// admission is an invariant failure.
pub open spec fn write_applied<C>(
    view: DriverView<C>,
    report: WriterReport,
    now: MonoTime,
    after: DriverView<C>,
) -> bool {
    if view.admitted.dom().contains(report.write_id.value) && view.admitted[report.write_id.value]
        == report.sequence {
        driver::outcome_presented(
            view,
            report.write_id,
            report.outcome,
            report.occurred_at,
            now,
            after,
        )
    } else {
        model::shut_down(view, GenerationCloseReason::RuntimeInvariant, None, now, after)
    }
}

/// A fact of the transport tasks reaches the Driver.
pub open spec fn io_applied<C>(
    view: DriverView<C>,
    event: Option<IoEvent>,
    now: MonoTime,
    after: DriverView<C>,
) -> bool {
    match event {
        None => model::shut_down(view, GenerationCloseReason::RuntimeInvariant, None, now, after),
        Some(IoEvent::Read(report)) => if report.frame.occurred_at.nanos > now.nanos {
            model::shut_down(view, GenerationCloseReason::RuntimeInvariant, None, now, after)
        } else {
            exists|handled: bool| #[trigger]
                driver::decode_step_handled(
                    view,
                    report.frame.decoded,
                    Some(report.frame.header),
                    now,
                    handled,
                    after,
                )
        },
        Some(IoEvent::Write(report)) => write_applied(view, report, now, after),
        Some(IoEvent::ReaderStopped(end)) => model::shut_down(
            view,
            reader_reason(end),
            None,
            now,
            after,
        ),
        Some(IoEvent::WriterStopped(regular)) => exists|closed: DriverView<C>|
            {
                &&& #[trigger] model::shut_down(view, writer_reason(regular), None, now, closed)
                &&& driver::writer_finalized(closed, now, after)
            },
    }
}

/// A timer round lets time advance in an open core.
pub open spec fn time_advanced<C>(view: DriverView<C>, now: MonoTime, after: DriverView<C>) -> bool {
    if view.closing is Some {
        after == view
    } else {
        model::answered(view, CoreInput::AdvanceTime { now }, false, now, after)
    }
}

/// Deliveries are bounded by what the application can take right now.
pub open spec fn sized<C>(view: RuntimeView<C>, capacity: Option<(usize, usize)>) -> RuntimeView<C> {
    match capacity {
        Some((primaries, errors)) => view.with_driver(
            DriverView {
                inbound_capacity: primaries,
                protocol_error_capacity: errors,
                ..view.driver
            },
        ),
        None => view,
    }
}

/// Effect of one round.
pub open spec fn round_applied<C>(
    view: RuntimeView<C>,
    input: RoundInput,
    now: MonoTime,
    after: RuntimeView<C>,
) -> bool {
    match input {
        RoundInput::Shutdown => shutdown_moved(view, now, after),
        RoundInput::Io(event) => {
            &&& after == (RuntimeView { prefer_command: true, driver: after.driver, ..view })
            &&& io_applied(view.driver, event, now, after.driver)
        },
        RoundInput::Timer => exists|middle: DriverView<RuntimeCompletion<C>>|
            {
                &&& #[trigger] time_advanced(view.driver, now, middle)
                &&& shutdown_moved(view.with_driver(middle), now, after)
            },
        RoundInput::Command => {
            &&& after == (RuntimeView { prefer_command: false, driver: after.driver, ..view })
            &&& exists|driven: bool| #[trigger]
                driver::command_driven(view.driver, now, driven, after.driver)
        },
    }
}

/// An urgent fact of the transport tasks, if there is one, is applied.
pub open spec fn urgent_applied<C>(
    view: RuntimeView<C>,
    terminal: Option<IoEvent>,
    now: MonoTime,
    after: RuntimeView<C>,
) -> bool {
    match terminal {
        Some(event) => round_applied(view, RoundInput::Io(Some(event)), now, after),
        None => after == view,
    }
}

/// An open generation applies an urgent fact and then, while its transport is
/// still open, its due deadlines.
pub open spec fn priority_processed<C>(
    view: RuntimeView<C>,
    terminal: Option<IoEvent>,
    now: MonoTime,
    after: RuntimeView<C>,
) -> bool {
    if view.driver.transport_closed {
        after == view
    } else {
        exists|middle: RuntimeView<C>|
            {
                &&& #[trigger] urgent_applied(view, terminal, now, middle)
                &&& if middle.driver.transport_closed {
                    after == middle
                } else {
                    round_applied(middle, RoundInput::Timer, now, after)
                }
            }
    }
}

/// The earlier of the core's deadline and that of a graceful close.
pub open spec fn deadline_of<C>(view: RuntimeView<C>, core: Option<MonoTime>) -> Option<MonoTime> {
    let own = match view.shutdown {
        Some(drain) => Some(
            if drain.finalizing {
                drain.shutdown_deadline
            } else {
                drain.drain_deadline
            },
        ),
        None => None,
    };
    match (core, own) {
        (Some(core), Some(own)) => Some(core.spec_earlier(own)),
        (Some(core), None) => Some(core),
        (None, own) => own,
    }
}

/// A passed deadline goes before a finished drain, and that before a command
/// whose turn it is.
pub open spec fn choice_of<C>(view: RuntimeView<C>, due: bool, drained: bool) -> RoundChoice {
    if due {
        RoundChoice::Ready(RoundInput::Timer)
    } else if view.shutdown is Some && !view.shutdown->0.finalizing && drained {
        RoundChoice::Ready(RoundInput::Shutdown)
    } else if view.prefer_command && view.driver.queue.len() != 0 {
        RoundChoice::Ready(RoundInput::Command)
    } else {
        RoundChoice::PollIo
    }
}

/// A fact of the transport tasks goes first; without one a waiting command does.
pub open spec fn choice_after_io<C>(
    view: RuntimeView<C>,
    event: Option<Option<IoEvent>>,
) -> RoundChoice {
    match event {
        Some(event) => RoundChoice::Ready(RoundInput::Io(event)),
        None => if view.driver.queue.len() != 0 {
            RoundChoice::Ready(RoundInput::Command)
        } else {
            RoundChoice::Wait
        },
    }
}

/// Single owner of one generation's Driver and close deadlines.
pub struct GenerationRuntime<Core, Writer: WriterIngress, Observer, Completion, Closer> {
    driver: SessionDriver<Core, Writer, Observer, RuntimeCompletion<Completion>, Closer>,
    prefer_command: bool,
    policy: ShutdownPolicy,
    shutdown: Option<ShutdownDrain>,
}

impl<Core, Writer: WriterIngress, Observer, Completion, Closer> View for GenerationRuntime<
    Core,
    Writer,
    Observer,
    Completion,
    Closer,
> {
    type V = RuntimeView<Completion>;

    closed spec fn view(&self) -> RuntimeView<Completion> {
        RuntimeView {
            driver: self.driver@,
            prefer_command: self.prefer_command,
            shutdown: self.shutdown,
            policy: self.policy,
        }
    }
}

impl<Core, Writer, Observer, Completion, Closer> GenerationRuntime<
    Core,
    Writer,
    Observer,
    Completion,
    Closer,
> where
    Core: SessionCore,
    Writer: WriterIngress,
    Observer: SessionStateObserver,
    Completion: CommandCompletion,
    Closer: TransportCloser,
 {
    /// Driver of the generation.
    pub closed spec fn session(&self) -> SessionDriver<
        Core,
        Writer,
        Observer,
        RuntimeCompletion<Completion>,
        Closer,
    > {
        self.driver
    }

    /// The state of the generation shows the state of its Driver.
    pub proof fn lemma_session(&self)
        ensures
            self.session()@ == self@.driver,
    {
    }

    /// Starts a connected generation over its core and ports from the configuration
    /// of its endpoint.
    pub fn from_transport(
        generation: ConnectionGeneration,
        owner: u64,
        config: &EndpointConfig,
        core: Core,
        writer: Writer,
        observer: Observer,
        closer: Closer,
    ) -> (r: Result<Self, ConfigError>)
        ensures
            match r {
                Ok(runtime) => {
                    &&& config.valid()
                    &&& runtime@.valid()
                    &&& runtime.session().settled()
                    &&& runtime.session().passed()[0] == (Ports {
                        core,
                        writer,
                        observer,
                        closer,
                        reservation: None,
                    })
                    &&& started(
                        driver::initial::<RuntimeCompletion<Completion>>(
                            generation,
                            owner,
                            driver::configured_limits(*config),
                        ),
                        config.mode == ConnectionMode::Active && config.runtime.auto_select,
                        runtime@.driver,
                    )
                    &&& runtime@ == (RuntimeView {
                        driver: runtime@.driver,
                        prefer_command: false,
                        shutdown: None,
                        policy: configured_policy(*config),
                    })
                },
                Err(error) => config.refused(error),
            },
    {
        let driver = match SessionDriver::from_config(
            generation,
            owner,
            config,
            core,
            writer,
            observer,
            closer,
        ) {
            Ok(driver) => driver,
            Err(error) => {
                return Err(error);
            },
        };
        let policy = ShutdownPolicy {
            drain: config.runtime.drain,
            shutdown: config.runtime.shutdown,
            cleanup: config.runtime.cleanup,
        };
        let ghost start = driver;
        let runtime = Self::new(driver, policy, config.mode, config.runtime.auto_select);
        assert(runtime.session().passed()[0] == start.passed()[0]);
        Ok(runtime)
    }

    /// Starts a connected generation. An Active one selects the session by itself
    /// when `auto_select` is set.
    pub fn new(
        driver: SessionDriver<Core, Writer, Observer, RuntimeCompletion<Completion>, Closer>,
        policy: ShutdownPolicy,
        mode: ConnectionMode,
        auto_select: bool,
    ) -> (r: Self)
        requires
            model::well_formed(driver@),
            model::calm(driver@),
            driver.settled(),
        ensures
            r@.valid(),
            r.session().settled(),
            r.session().continues(driver),
            started(driver@, mode == ConnectionMode::Active && auto_select, r@.driver),
            r@ == (RuntimeView {
                driver: r@.driver,
                prefer_command: false,
                shutdown: None,
                policy,
            }),
    {
        let mut driver = driver;
        let ghost start = driver@;
        let now = MonoTime::from_nanos(0);
        driver.on_connected(now);
        let ghost connected = driver@;
        assert(connects(start, connected));
        if selects_by_itself(mode, auto_select) {
            if driver.try_accept_control(
                ControlIntent::Select,
                RuntimeCompletion::Internal,
            ).is_err() {
                driver.on_shutdown(GenerationCloseReason::RuntimeInvariant, None, now);
            }
        }
        GenerationRuntime { driver, prefer_command: false, policy, shutdown: None }
    }

    /// Returns the Driver.
    pub fn driver(&self) -> (r: &SessionDriver<
        Core,
        Writer,
        Observer,
        RuntimeCompletion<Completion>,
        Closer,
    >)
        ensures
            r@ == self@.driver,
            *r == self.session(),
    {
        &self.driver
    }

    /// Lends the Driver for admission and delivery.
    pub fn driver_mut(&mut self) -> (r: &mut SessionDriver<
        Core,
        Writer,
        Observer,
        RuntimeCompletion<Completion>,
        Closer,
    >)
        ensures
            r@ == old(self)@.driver,
            *r == old(self).session(),
            final(self)@ == old(self)@.with_driver(final(r)@),
            final(self).session() == *final(r),
    {
        &mut self.driver
    }

    /// Returns the generation.
    pub fn generation(&self) -> (r: ConnectionGeneration)
        ensures
            r == self@.driver.generation,
    {
        self.driver.generation()
    }

    /// Returns whether the generation no longer admits ordinary work.
    pub fn is_draining(&self) -> (r: bool)
        ensures
            r == (self@.shutdown is Some || self@.driver.closing is Some),
    {
        self.shutdown.is_some() || self.driver.close_reason().is_some()
    }

    /// Begins a graceful close: admission ends now, the rest within the policy, by
    /// the clock that started at `epoch`.
    pub fn begin_graceful_close(
        &mut self,
        reason: GenerationCloseReason,
        epoch: &Instant,
        now: MonoTime,
    )
        requires
            old(self)@.valid(),
            old(self).session().settled(),
        ensures
            final(self)@.valid(),
            final(self).session().settled(),
            final(self).session().continues(old(self).session()),
            model::advances(old(self)@.driver, final(self)@.driver),
            exists|deadlines: CloseDeadlines|
                {
                    &&& #[trigger] deadlines_told(*epoch, old(self)@.policy, now, deadlines)
                    &&& gracefully_closing(old(self)@, reason, deadlines, now, final(self)@)
                },
    {
        let deadlines = CloseDeadlines {
            drain: deadline_after(epoch, now, self.policy.drain),
            shutdown: deadline_after(epoch, now, self.policy.shutdown),
        };
        assert(deadlines_told(*epoch, self@.policy, now, deadlines));
        self.begin_graceful_close_until(reason, deadlines, now);
    }

    /// Begins a graceful close that ends at these deadlines.
    pub fn begin_graceful_close_until(
        &mut self,
        reason: GenerationCloseReason,
        deadlines: CloseDeadlines,
        now: MonoTime,
    )
        requires
            old(self)@.valid(),
            old(self).session().settled(),
        ensures
            final(self)@.valid(),
            final(self).session().settled(),
            final(self).session().continues(old(self).session()),
            model::advances(old(self)@.driver, final(self)@.driver),
            gracefully_closing(old(self)@, reason, deadlines, now, final(self)@),
    {
        if self.shutdown.is_some() || self.driver.close_reason().is_some() {
            return;
        }
        let ghost start = self@.driver;
        self.driver.begin_shutdown_drain();
        let ghost gated = self@.driver;
        assert(model::advances(start, gated));
        match (deadlines.drain, deadlines.shutdown) {
            (Some(drain_deadline), Some(shutdown_deadline)) => {
                self.shutdown = Some(
                    ShutdownDrain {
                        reason,
                        drain_deadline: drain_deadline.earlier(shutdown_deadline),
                        shutdown_deadline,
                        finalizing: false,
                    },
                );
            },
            _ => {
                self.driver.on_shutdown(GenerationCloseReason::RuntimeInvariant, None, now);
                proof {
                    laws::lemma_advances_trans(start, gated, self@.driver);
                }
            },
        }
    }

    /// Moves a graceful close on, given whether anything is left to wait for.
    pub fn advance_shutdown_with(&mut self, drained: bool, now: MonoTime)
        requires
            old(self)@.valid(),
            old(self).session().settled(),
        ensures
            final(self)@.valid(),
            final(self).session().settled(),
            final(self).session().continues(old(self).session()),
            model::advances(old(self)@.driver, final(self)@.driver),
            shutdown_advanced(old(self)@, drained, now, final(self)@),
    {
        let drain = match self.shutdown {
            Some(drain) => drain,
            None => {
                return;
            },
        };
        if now.nanos >= drain.shutdown_deadline.nanos {
            self.driver.on_shutdown(drain.reason, None, now);
        } else if !drain.finalizing && (now.nanos >= drain.drain_deadline.nanos || drained) {
            self.shutdown = Some(
                ShutdownDrain {
                    reason: drain.reason,
                    drain_deadline: drain.drain_deadline,
                    shutdown_deadline: drain.shutdown_deadline,
                    finalizing: true,
                },
            );
            self.driver.finish_shutdown_drain(drain.reason, now);
        }
    }

    /// Moves a graceful close on. The core counts what is left to wait for.
    fn advance_shutdown(&mut self, now: MonoTime)
        requires
            old(self)@.valid(),
            old(self).session().settled(),
        ensures
            final(self)@.valid(),
            final(self).session().settled(),
            final(self).session().continues(old(self).session()),
            model::advances(old(self)@.driver, final(self)@.driver),
            shutdown_moved(old(self)@, now, final(self)@),
    {
        let waits = match self.shutdown {
            Some(drain) => !drain.finalizing && now.nanos < drain.drain_deadline.nanos && now.nanos
                < drain.shutdown_deadline.nanos,
            None => false,
        };
        if !waits {
            self.advance_shutdown_with(false, now);
            return;
        }
        let ghost start = self@;
        let drained = self.driver.ask_drained();
        let ghost asked = self@.driver;
        assert(driver::drain_asked(start.driver, drained, asked));
        assert(self@ == start.with_driver(asked));
        self.advance_shutdown_with(drained, now);
        assert(shutdown_advanced(start.with_driver(asked), drained, now, self@));
        proof {
            laws::lemma_advances_trans(start.driver, asked, self@.driver);
        }
    }

    /// Returns the next deadline of the generation when the core reported this
    /// one.
    pub fn deadline_with(&self, core: Option<MonoTime>) -> (r: Option<MonoTime>)
        ensures
            r == deadline_of(self@, core),
    {
        let own = match self.shutdown {
            Some(drain) => Some(
                if drain.finalizing {
                    drain.shutdown_deadline
                } else {
                    drain.drain_deadline
                },
            ),
            None => None,
        };
        match (core, own) {
            (Some(core), Some(own)) => Some(core.earlier(own)),
            (Some(core), None) => Some(core),
            (None, own) => own,
        }
    }

    /// Returns the next deadline of the generation. The core decides its own.
    pub fn next_deadline(&self) -> (r: Option<MonoTime>)
        ensures
            exists|core: Option<MonoTime>|
                {
                    &&& call_ensures(
                        Core::next_deadline,
                        (&self.session().core_port(),),
                        core,
                    )
                    &&& r == #[trigger] deadline_of(self@, core)
                },
    {
        let core = self.driver.next_deadline();
        self.deadline_with(core)
    }

    /// Chooses the next input when the transport tasks reported nothing urgent;
    /// `due` is whether a deadline passed and `drained` whether a drain has
    /// nothing left to wait for.
    pub fn select_input_with(&self, due: bool, drained: bool) -> (r: RoundChoice)
        ensures
            r == choice_of(self@, due, drained),
    {
        if due {
            return RoundChoice::Ready(RoundInput::Timer);
        }
        let draining = match self.shutdown {
            Some(drain) => !drain.finalizing,
            None => false,
        };
        if draining && drained {
            return RoundChoice::Ready(RoundInput::Shutdown);
        }
        if self.prefer_command && self.driver.queued_command_count() != 0 {
            RoundChoice::Ready(RoundInput::Command)
        } else {
            RoundChoice::PollIo
        }
    }

    /// Chooses the next input when the transport tasks reported nothing urgent.
    /// The core counts what a drain waits for.
    pub fn select_input(&self, due: bool) -> (r: RoundChoice)
        ensures
            if due || self@.shutdown is None || self@.shutdown->0.finalizing {
                r == choice_of(self@, due, false)
            } else {
                exists|drained: bool|
                    self.session().drain_reported(drained) && r == #[trigger] choice_of(
                        self@,
                        due,
                        drained,
                    )
            },
    {
        let draining = match self.shutdown {
            Some(drain) => !drain.finalizing,
            None => false,
        };
        let drained = !due && draining && self.driver.shutdown_drain_ready();
        self.select_input_with(due, drained)
    }

    /// Chooses the next input after the transport tasks were looked at; `event`
    /// is missing while they have nothing.
    pub fn select_after_io(&self, event: Option<Option<IoEvent>>) -> (r: RoundChoice)
        ensures
            r == choice_after_io(self@, event),
    {
        match event {
            Some(event) => RoundChoice::Ready(RoundInput::Io(event)),
            None => if self.driver.queued_command_count() != 0 {
                RoundChoice::Ready(RoundInput::Command)
            } else {
                RoundChoice::Wait
            },
        }
    }

    /// Applies one round and returns whether the transport is still open.
    /// `capacity` is what the application can take, when that is known.
    pub fn apply_round(
        &mut self,
        input: RoundInput,
        capacity: Option<(usize, usize)>,
        now: MonoTime,
    ) -> (r: bool)
        requires
            old(self)@.valid(),
            old(self).session().settled(),
        ensures
            final(self)@.valid(),
            final(self).session().settled(),
            final(self).session().continues(old(self).session()),
            model::advances(sized(old(self)@, capacity).driver, final(self)@.driver),
            round_applied(sized(old(self)@, capacity), input, now, final(self)@),
            r == !final(self)@.driver.transport_closed,
    {
        if let Some((primaries, errors)) = capacity {
            self.driver.set_delivery_capacity(primaries, errors);
        }
        let ghost start = self@;
        assert(start == sized(old(self)@, capacity));
        match input {
            RoundInput::Shutdown => self.advance_shutdown(now),
            RoundInput::Io(event) => {
                self.prefer_command = true;
                self.apply_io(event, now);
            },
            RoundInput::Timer => {
                self.driver.advance_time(now);
                let ghost middle = self.driver@;
                assert(time_advanced(start.driver, now, middle));
                assert(self@ == start.with_driver(middle));
                self.advance_shutdown(now);
                proof {
                    laws::lemma_advances_trans(start.driver, middle, self@.driver);
                }
            },
            RoundInput::Command => {
                self.prefer_command = false;
                let driven = self.driver.drive_next_command(now);
                assert(driver::command_driven(start.driver, now, driven, self@.driver));
            },
        }
        !self.driver.transport_closed()
    }

    /// Lets what already happened go before an outside command: an urgent fact of
    /// the transport tasks first, then the deadlines that are due.
    pub fn process_ready_priority(&mut self, terminal: Option<IoEvent>, now: MonoTime)
        requires
            old(self)@.valid(),
            old(self).session().settled(),
        ensures
            final(self)@.valid(),
            final(self).session().settled(),
            final(self).session().continues(old(self).session()),
            model::advances(old(self)@.driver, final(self)@.driver),
            priority_processed(old(self)@, terminal, now, final(self)@),
    {
        if self.driver.transport_closed() {
            return;
        }
        let ghost start = self@;
        let ghost urgent = terminal;
        if let Some(event) = terminal {
            self.apply_round(RoundInput::Io(Some(event)), None, now);
        }
        let ghost middle = self@;
        assert(urgent_applied(start, urgent, now, middle));
        if !self.driver.transport_closed() {
            self.apply_round(RoundInput::Timer, None, now);
            proof {
                laws::lemma_advances_trans(start.driver, middle.driver, self@.driver);
            }
        }
    }

    /// Applies one fact of the transport tasks.
    fn apply_io(&mut self, event: Option<IoEvent>, now: MonoTime)
        requires
            old(self)@.valid(),
            old(self).session().settled(),
        ensures
            final(self)@.valid(),
            final(self).session().settled(),
            final(self).session().continues(old(self).session()),
            model::advances(old(self)@.driver, final(self)@.driver),
            final(self)@ == old(self)@.with_driver(final(self)@.driver),
            io_applied(old(self)@.driver, event, now, final(self)@.driver),
    {
        let ghost start = self@.driver;
        match event {
            Some(IoEvent::Read(report)) => {
                if report.frame.occurred_at.nanos > now.nanos {
                    self.driver.on_shutdown(GenerationCloseReason::RuntimeInvariant, None, now);
                } else {
                    let handled = self.driver.on_decode_step_with_header(
                        report.frame.decoded,
                        Some(report.frame.header),
                        now,
                    );
                    assert(driver::decode_step_handled(
                        start,
                        report.frame.decoded,
                        Some(report.frame.header),
                        now,
                        handled,
                        self@.driver,
                    ));
                }
            },
            Some(IoEvent::Write(report)) => {
                self.apply_write_report(report, now);
            },
            Some(IoEvent::ReaderStopped(end)) => {
                self.driver.on_shutdown(reader_close_reason(end), None, now);
            },
            Some(IoEvent::WriterStopped(regular)) => {
                let reason = if regular {
                    GenerationCloseReason::TransportLost
                } else {
                    GenerationCloseReason::RuntimeInvariant
                };
                self.driver.on_shutdown(reason, None, now);
                let ghost closed = self@.driver;
                assert(model::shut_down(start, writer_reason(regular), None, now, closed));
                self.driver.on_writer_stopped(now);
                proof {
                    laws::lemma_advances_trans(start, closed, self@.driver);
                }
            },
            None => {
                self.driver.on_shutdown(GenerationCloseReason::RuntimeInvariant, None, now);
            },
        }
    }

    /// Settles the frame of a write report.
    pub fn apply_write_report(&mut self, report: WriterReport, now: MonoTime)
        requires
            old(self)@.valid(),
            old(self).session().settled(),
        ensures
            final(self)@.valid(),
            final(self).session().settled(),
            final(self).session().continues(old(self).session()),
            model::advances(old(self)@.driver, final(self)@.driver),
            final(self)@ == old(self)@.with_driver(final(self)@.driver),
            write_applied(old(self)@.driver, report, now, final(self)@.driver),
    {
        let matches = match self.driver.wire_sequence(report.write_id) {
            Some(sequence) => sequence.value == report.sequence.value,
            None => false,
        };
        if !matches {
            self.driver.on_shutdown(GenerationCloseReason::RuntimeInvariant, None, now);
            return;
        }
        self.driver.on_write_outcome_at(report.write_id, report.outcome, report.occurred_at, now);
    }

    /// Closes the generation at once.
    pub fn force_close(&mut self, reason: GenerationCloseReason, now: MonoTime)
        requires
            old(self)@.valid(),
            old(self).session().settled(),
        ensures
            final(self)@.valid(),
            final(self).session().settled(),
            final(self).session().continues(old(self).session()),
            model::advances(old(self)@.driver, final(self)@.driver),
            final(self)@ == old(self)@.with_driver(final(self)@.driver),
            model::shut_down(old(self)@.driver, reason, None, now, final(self)@.driver),
            final(self)@.driver.transport_closed,
    {
        self.driver.on_shutdown(reason, None, now);
    }

    /// Returns the reason and the deadline of the last cleanup. A graceful close
    /// does not extend its own deadline. The clock started at `epoch`.
    pub fn finish_plan(&self, epoch: &Instant, now: MonoTime) -> (r: (
        GenerationCloseReason,
        MonoTime,
    ))
        ensures
            r.0 == finish_reason(self@),
            exists|end: Option<MonoTime>|
                {
                    &&& #[trigger] clock::deadline_told(*epoch, now, self@.policy.cleanup, end)
                    &&& r.1 == finish_deadline(self@, end, now)
                },
    {
        let end = deadline_after(epoch, now, self.policy.cleanup);
        assert(clock::deadline_told(*epoch, now, self@.policy.cleanup, end));
        self.finish_plan_until(end, now)
    }

    /// Returns the reason and the deadline of the last cleanup; `end` is the end of
    /// its time budget, when the clock reaches it.
    pub fn finish_plan_until(&self, end: Option<MonoTime>, now: MonoTime) -> (r: (
        GenerationCloseReason,
        MonoTime,
    ))
        ensures
            r == (finish_reason(self@), finish_deadline(self@, end, now)),
    {
        let reason = match self.driver.close_reason() {
            Some(reason) => reason,
            None => match self.shutdown {
                Some(drain) => drain.reason,
                None => GenerationCloseReason::RuntimeInvariant,
            },
        };
        let deadline = cleanup_until(end, now);
        let deadline = match self.shutdown {
            Some(drain) => deadline.earlier(drain.shutdown_deadline),
            None => deadline,
        };
        (reason, deadline)
    }

    /// Returns the time at which a cleanup that starts now gives up, by the clock
    /// that started at `epoch`.
    pub fn cleanup_deadline(&self, epoch: &Instant, now: MonoTime) -> (r: MonoTime)
        ensures
            exists|end: Option<MonoTime>|
                {
                    &&& #[trigger] clock::deadline_told(*epoch, now, self@.policy.cleanup, end)
                    &&& r == cleanup_end(end, now)
                },
    {
        let end = deadline_after(epoch, now, self.policy.cleanup);
        assert(clock::deadline_told(*epoch, now, self@.policy.cleanup, end));
        cleanup_until(end, now)
    }

    /// Ends the generation after its cleanup; a joined Writer settles every write.
    /// The first close reason is the one reported.
    pub fn finish_close(
        &mut self,
        reason: GenerationCloseReason,
        writer_joined: bool,
        cleanup: CleanupResult,
        now: MonoTime,
    ) -> (r: SessionExit)
        requires
            old(self)@.valid(),
            old(self).session().settled(),
        ensures
            final(self)@.valid(),
            final(self).session().settled(),
            final(self).session().continues(old(self).session()),
            model::advances(old(self)@.driver, final(self)@.driver),
            close_finished(old(self)@, reason, writer_joined, cleanup, now, final(self)@, r),
    {
        if writer_joined {
            self.driver.on_writer_stopped(now);
        }
        let reason = match self.driver.close_reason() {
            Some(first) => first,
            None => reason,
        };
        SessionExit { generation: self.driver.generation(), reason, cleanup }
    }

    /// Begins another cleanup of a generation whose first one was not proved, and
    /// returns the reason to report.
    pub fn begin_recovery(&mut self, now: MonoTime) -> (r: GenerationCloseReason)
        requires
            old(self)@.valid(),
            old(self).session().settled(),
        ensures
            final(self)@.valid(),
            final(self).session().settled(),
            final(self).session().continues(old(self).session()),
            model::advances(old(self)@.driver, final(self)@.driver),
            recovery_begun(old(self)@, now, final(self)@, r),
    {
        let reason = match self.driver.close_reason() {
            Some(reason) => reason,
            None => GenerationCloseReason::RuntimeInvariant,
        };
        self.driver.on_shutdown(reason, None, now);
        reason
    }
}

/// A generation ends after its cleanup: a joined Writer settles every write, and
/// the first close reason is the one reported.
pub open spec fn close_finished<C>(
    view: RuntimeView<C>,
    reason: GenerationCloseReason,
    writer_joined: bool,
    cleanup: CleanupResult,
    now: MonoTime,
    after: RuntimeView<C>,
    exit: SessionExit,
) -> bool {
    &&& after == view.with_driver(after.driver)
    &&& if writer_joined {
        driver::writer_finalized(view.driver, now, after.driver)
    } else {
        after == view
    }
    &&& exit == (SessionExit {
        generation: view.driver.generation,
        reason: match after.driver.closing {
            Some(state) => state.reason,
            None => reason,
        },
        cleanup,
    })
}

/// Another cleanup of a generation begins: it is closed once more, for the reason
/// that it was closed for before.
pub open spec fn recovery_begun<C>(
    view: RuntimeView<C>,
    now: MonoTime,
    after: RuntimeView<C>,
    reason: GenerationCloseReason,
) -> bool {
    &&& after == view.with_driver(after.driver)
    &&& reason == match view.driver.closing {
        Some(state) => state.reason,
        None => GenerationCloseReason::RuntimeInvariant,
    }
    &&& model::shut_down(view.driver, reason, None, now, after.driver)
}

/// One cleanup of a closed generation, from the moment at which its transport was
/// told to end until its exit: reports of the Writer may be settled in between.
pub open spec fn cleaned_up<C>(
    view: RuntimeView<C>,
    reason: GenerationCloseReason,
    settled: RuntimeView<C>,
    after: RuntimeView<C>,
    exit: SessionExit,
) -> bool {
    &&& settled.valid()
    &&& model::advances(view.driver, settled.driver)
    &&& exists|writer_joined: bool, now: MonoTime| #[trigger]
        close_finished(settled, reason, writer_joined, exit.cleanup, now, after, exit)
}

/// Another cleanup reports the exit of the first one: the generation and the close
/// reason stay, and only the cleanup may be another.
pub proof fn law_recovery_keeps_the_exit<C>(
    open: RuntimeView<C>,
    reason: GenerationCloseReason,
    begun: MonoTime,
    closed: RuntimeView<C>,
    settled: RuntimeView<C>,
    ended: RuntimeView<C>,
    first: SessionExit,
    again: MonoTime,
    repeated: GenerationCloseReason,
    recovering: RuntimeView<C>,
    resettled: RuntimeView<C>,
    after: RuntimeView<C>,
    second: SessionExit,
)
    requires
        open.valid(),
        model::shut_down(open.driver, reason, None, begun, closed.driver),
        cleaned_up(closed, reason, settled, ended, first),
        recovery_begun(ended, again, recovering, repeated),
        cleaned_up(recovering, repeated, resettled, after, second),
    ensures
        second == (SessionExit { cleanup: second.cleanup, ..first }),
        repeated == first.reason,
        first.generation == open.driver.generation,
        open.driver.closing is Some ==> first.reason == open.driver.closing->0.reason,
{
    laws::lemma_shut_down(open.driver, reason, None, begun, closed.driver);
    lemma_cleaned_up(closed, reason, settled, ended, first);
    laws::lemma_shut_down(ended.driver, repeated, None, again, recovering.driver);
    lemma_cleaned_up(recovering, repeated, resettled, after, second);
}

/// A cleanup reports the reason and the generation that were settled before it.
proof fn lemma_cleaned_up<C>(
    view: RuntimeView<C>,
    reason: GenerationCloseReason,
    settled: RuntimeView<C>,
    after: RuntimeView<C>,
    exit: SessionExit,
)
    requires
        view.driver.closing is Some,
        cleaned_up(view, reason, settled, after, exit),
    ensures
        after.driver.closing is Some,
        exit.reason == after.driver.closing->0.reason,
        exit.reason == view.driver.closing->0.reason,
        exit.generation == view.driver.generation,
        after.driver.generation == view.driver.generation,
        model::well_formed(after.driver),
{
    let (writer_joined, now) = choose|writer_joined: bool, now: MonoTime| #[trigger]
        close_finished(settled, reason, writer_joined, exit.cleanup, now, after, exit);
    if writer_joined {
        driver::lemma_writer_finalized(settled.driver, now, after.driver);
    }
}

/// Reason reported for a generation that ends now.
pub open spec fn finish_reason<C>(view: RuntimeView<C>) -> GenerationCloseReason {
    match view.driver.closing {
        Some(state) => state.reason,
        None => match view.shutdown {
            Some(drain) => drain.reason,
            None => GenerationCloseReason::RuntimeInvariant,
        },
    }
}

/// Time at which a cleanup that starts now gives up; at once when the clock does
/// not reach the end of its time budget.
pub open spec fn cleanup_end(end: Option<MonoTime>, now: MonoTime) -> MonoTime {
    match end {
        Some(deadline) => deadline,
        None => now,
    }
}

/// Returns the time at which a cleanup that starts now gives up.
pub fn cleanup_until(end: Option<MonoTime>, now: MonoTime) -> (r: MonoTime)
    ensures
        r == cleanup_end(end, now),
{
    match end {
        Some(deadline) => deadline,
        None => now,
    }
}

/// Time at which the last cleanup gives up.
pub open spec fn finish_deadline<C>(
    view: RuntimeView<C>,
    end: Option<MonoTime>,
    now: MonoTime,
) -> MonoTime {
    match view.shutdown {
        Some(drain) => cleanup_end(end, now).spec_earlier(drain.shutdown_deadline),
        None => cleanup_end(end, now),
    }
}

/// A graceful close takes bounded time: a timer round at or after its deadline
/// closes the transport, whatever the core and the Writer answer.
pub proof fn law_graceful_close_is_bounded<C>(
    view: RuntimeView<C>,
    now: MonoTime,
    after: RuntimeView<C>,
)
    requires
        view.valid(),
        view.shutdown is Some,
        now.nanos >= view.shutdown->0.shutdown_deadline.nanos,
        round_applied(view, RoundInput::Timer, now, after),
    ensures
        after.driver.transport_closed,
{
    let middle = choose|middle: DriverView<RuntimeCompletion<C>>|
        {
            &&& #[trigger] time_advanced(view.driver, now, middle)
            &&& shutdown_moved(view.with_driver(middle), now, after)
        };
    if view.driver.closing is None {
        laws::lemma_answered(view.driver, CoreInput::AdvanceTime { now }, false, now, middle);
    }
    laws::lemma_shut_down(middle, view.shutdown->0.reason, None, now, after.driver);
}

/// Draining never outlasts the graceful close, and a close that is under way
/// keeps its reason and deadlines when another one is asked for.
pub proof fn law_graceful_close_is_fixed_once<C>(
    view: RuntimeView<C>,
    first: GenerationCloseReason,
    deadlines: CloseDeadlines,
    begun: MonoTime,
    middle: RuntimeView<C>,
    second: GenerationCloseReason,
    others: CloseDeadlines,
    later: MonoTime,
    after: RuntimeView<C>,
)
    requires
        view.shutdown is None,
        gracefully_closing(view, first, deadlines, begun, middle),
        middle.shutdown is Some,
        gracefully_closing(middle, second, others, later, after),
    ensures
        middle.shutdown->0.reason == first,
        middle.shutdown->0.drain_deadline.nanos <= middle.shutdown->0.shutdown_deadline.nanos,
        after == middle,
{
}

/// The end of either transport task closes the generation.
pub proof fn law_task_end_closes<C>(
    view: RuntimeView<C>,
    event: IoEvent,
    now: MonoTime,
    after: RuntimeView<C>,
)
    requires
        view.valid(),
        event is ReaderStopped || event is WriterStopped,
        round_applied(view, RoundInput::Io(Some(event)), now, after),
    ensures
        after.driver.transport_closed,
        after.driver.closing is Some,
        view.driver.closing is Some ==> after.driver.closing->0.reason
            == view.driver.closing->0.reason,
{
    match event {
        IoEvent::ReaderStopped(end) => {
            laws::lemma_shut_down(view.driver, reader_reason(end), None, now, after.driver);
        },
        IoEvent::WriterStopped(regular) => {
            let closed = choose|closed: DriverView<RuntimeCompletion<C>>|
                {
                    &&& #[trigger] model::shut_down(
                        view.driver,
                        writer_reason(regular),
                        None,
                        now,
                        closed,
                    )
                    &&& driver::writer_finalized(closed, now, after.driver)
                };
            laws::lemma_shut_down(view.driver, writer_reason(regular), None, now, closed);
            driver::lemma_writer_finalized(closed, now, after.driver);
            laws::lemma_advances_trans(view.driver, closed, after.driver);
        },
        _ => {},
    }
}

/// Commands and transport work take turns: after transport work a waiting command
/// goes next, and after a command the transport tasks are looked at first.
pub proof fn law_commands_and_io_alternate<C>(
    view: RuntimeView<C>,
    event: Option<IoEvent>,
    now: MonoTime,
    after: RuntimeView<C>,
)
    requires
        view.shutdown is None,
    ensures
        round_applied(view, RoundInput::Io(event), now, after) && after.driver.queue.len() != 0
            ==> choice_of(after, false, false) == RoundChoice::Ready(RoundInput::Command),
        round_applied(view, RoundInput::Command, now, after) ==> choice_of(after, false, false)
            == RoundChoice::PollIo,
{
}

/// What already happened decides the close reason: when a transport task ended
/// before an outside command is looked at, a close that the command asks for
/// afterwards changes nothing.
pub proof fn law_task_end_precedes_command<C>(
    view: RuntimeView<C>,
    event: IoEvent,
    now: MonoTime,
    ready: RuntimeView<C>,
    reason: GenerationCloseReason,
    deadlines: CloseDeadlines,
    after: RuntimeView<C>,
)
    requires
        view.valid(),
        !view.driver.transport_closed,
        event is ReaderStopped || event is WriterStopped,
        priority_processed(view, Some(event), now, ready),
        gracefully_closing(ready, reason, deadlines, now, after),
    ensures
        ready.driver.transport_closed,
        after == ready,
{
    let middle = choose|middle: RuntimeView<C>|
        {
            &&& #[trigger] urgent_applied(view, Some(event), now, middle)
            &&& if middle.driver.transport_closed {
                ready == middle
            } else {
                round_applied(middle, RoundInput::Timer, now, ready)
            }
        };
    law_task_end_closes(view, event, now, middle);
}

} // verus!
