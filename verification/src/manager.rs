//! Connection management of a single-session endpoint: bind once, then accept or
//! connect again after every session until a shutdown is asked for.

use crate::config::ConnectionMode;
use vstd::prelude::*;

verus! {

/// Seconds before a failed bind is tried again.
pub const BIND_RETRY_SECONDS: u64 = 5;

/// Seconds before a failed accept is tried again.
pub const ACCEPT_RETRY_SECONDS: u64 = 1;

/// Connection state announced by the manager.
#[derive(Clone, Copy, Debug, PartialEq, Eq, Structural)]
pub enum ConnectionState {
    /// There is no connection.
    NotConnected,
    /// There is a connection whose session is not selected.
    NotSelected,
}

/// What a manager is doing.
#[derive(Clone, Copy, Debug, PartialEq, Eq, Structural)]
pub enum ManagerState {
    /// Bind the listener.
    Binding,
    /// Wait before binding again, or for a command.
    BindRetry,
    /// Accept a connection, or take a command.
    Accepting,
    /// Wait before accepting again.
    AcceptRetry,
    /// Connect, or take a command.
    Connecting,
    /// Wait for T5 before connecting again, or for a command.
    ConnectRetry,
    /// Run the session of a connection.
    InSession,
    /// Leave.
    Stopped,
}

/// A look at the command channel.
#[derive(Clone, Copy, Debug, PartialEq, Eq, Structural)]
pub enum CommandSeen {
    /// A shutdown was asked for.
    Shutdown,
    /// Any other command.
    Other,
    /// The channel was closed.
    Closed,
}

/// What happened to a manager.
#[derive(Clone, Copy, Debug, PartialEq, Eq, Structural)]
pub enum ManagerEvent {
    /// The awaited bind, accept or connect succeeded.
    Succeeded,
    /// It failed or timed out.
    Failed,
    /// The wait is over.
    Elapsed,
    /// A command arrived.
    Command(CommandSeen),
    /// The session ended; `shutdown` is whether a shutdown ended it.
    SessionEnded {
        /// Whether a shutdown ended the session.
        shutdown: bool,
    },
}

/// Effect of an event.
#[derive(Clone, Copy, Debug, PartialEq, Eq, Structural)]
pub struct Transition {
    /// State after the event.
    pub next: ManagerState,
    /// Answer the shutdown that was asked for.
    pub acknowledge: bool,
    /// State to announce.
    pub announce: Option<ConnectionState>,
}

/// State in which a manager of this mode looks for a connection.
pub open spec fn seeking(mode: ConnectionMode) -> ManagerState {
    match mode {
        ConnectionMode::Active => ManagerState::Connecting,
        ConnectionMode::Passive => ManagerState::Accepting,
    }
}

/// Events that can happen in a state.
pub open spec fn expected(state: ManagerState, event: ManagerEvent) -> bool {
    match state {
        ManagerState::Binding => event is Succeeded || event is Failed,
        ManagerState::BindRetry => event is Elapsed || event is Command,
        ManagerState::Accepting => event is Succeeded || event is Failed || event is Command,
        ManagerState::AcceptRetry => event is Elapsed,
        ManagerState::Connecting => event is Succeeded || event is Failed || event is Command,
        ManagerState::ConnectRetry => event is Elapsed || event is Command,
        ManagerState::InSession => event is SessionEnded,
        ManagerState::Stopped => false,
    }
}

/// A transition that announces nothing.
pub open spec fn quiet(next: ManagerState) -> Transition {
    Transition { next, acknowledge: false, announce: None }
}

/// The end of a manager.
pub open spec fn stop(acknowledge: bool) -> Transition {
    Transition {
        next: ManagerState::Stopped,
        acknowledge,
        announce: Some(ConnectionState::NotConnected),
    }
}

/// Effect of a command while no session runs. A shutdown ends the manager at
/// once. Any other command is ignored: the work starts over. A closed command
/// channel ends only a manager that is connecting.
pub open spec fn commanded(state: ManagerState, command: CommandSeen) -> Transition {
    match command {
        CommandSeen::Shutdown => stop(true),
        CommandSeen::Closed if state == ManagerState::Connecting => stop(false),
        _ => quiet(
            match state {
                ManagerState::BindRetry => ManagerState::Binding,
                ManagerState::ConnectRetry => ManagerState::Connecting,
                _ => state,
            },
        ),
    }
}

/// Effect of an event.
pub open spec fn transition(
    mode: ConnectionMode,
    state: ManagerState,
    event: ManagerEvent,
) -> Transition {
    match event {
        ManagerEvent::Succeeded => if state == ManagerState::Binding {
            Transition {
                next: seeking(mode),
                acknowledge: false,
                announce: Some(ConnectionState::NotConnected),
            }
        } else {
            Transition {
                next: ManagerState::InSession,
                acknowledge: false,
                announce: Some(ConnectionState::NotSelected),
            }
        },
        ManagerEvent::Failed => quiet(
            match state {
                ManagerState::Binding => ManagerState::BindRetry,
                ManagerState::Accepting => ManagerState::AcceptRetry,
                _ => ManagerState::ConnectRetry,
            },
        ),
        ManagerEvent::Elapsed => quiet(
            match state {
                ManagerState::BindRetry => ManagerState::Binding,
                ManagerState::AcceptRetry => ManagerState::Accepting,
                _ => ManagerState::Connecting,
            },
        ),
        ManagerEvent::Command(command) => commanded(state, command),
        ManagerEvent::SessionEnded { shutdown } => if shutdown {
            stop(false)
        } else {
            Transition {
                next: seeking(mode),
                acknowledge: false,
                announce: Some(ConnectionState::NotConnected),
            }
        },
    }
}

/// Manager of one endpoint's connections.
#[derive(Clone, Copy, Debug, PartialEq, Eq, Structural)]
pub struct HsmsManager {
    mode: ConnectionMode,
    state: ManagerState,
}

impl HsmsManager {
    /// Which side opens the connection.
    pub closed spec fn side(&self) -> ConnectionMode {
        self.mode
    }

    /// What the manager is doing.
    pub closed spec fn doing(&self) -> ManagerState {
        self.state
    }

    /// Creates a manager, with the state to announce first. A passive manager
    /// binds before it announces anything.
    pub fn new(mode: ConnectionMode) -> (r: (Self, Option<ConnectionState>))
        ensures
            r.0.side() == mode,
            match mode {
                ConnectionMode::Active => r.0.doing() == ManagerState::Connecting && r.1 == Some(
                    ConnectionState::NotConnected,
                ),
                ConnectionMode::Passive => r.0.doing() == ManagerState::Binding && r.1 is None,
            },
    {
        match mode {
            ConnectionMode::Active => (
                HsmsManager { mode, state: ManagerState::Connecting },
                Some(ConnectionState::NotConnected),
            ),
            ConnectionMode::Passive => (HsmsManager { mode, state: ManagerState::Binding }, None),
        }
    }

    /// Returns what the manager is doing.
    pub fn state(&self) -> (r: ManagerState)
        ensures
            r == self.doing(),
    {
        self.state
    }

    /// Takes what happened.
    pub fn on_event(&mut self, event: ManagerEvent) -> (r: Transition)
        requires
            expected(old(self).doing(), event),
        ensures
            r == transition(old(self).side(), old(self).doing(), event),
            final(self).doing() == r.next,
            final(self).side() == old(self).side(),
    {
        let seeking = match self.mode {
            ConnectionMode::Active => ManagerState::Connecting,
            ConnectionMode::Passive => ManagerState::Accepting,
        };
        let stopped = ManagerState::Stopped;
        let lost = Some(ConnectionState::NotConnected);
        let r = match event {
            ManagerEvent::Succeeded => match self.state {
                ManagerState::Binding => Transition {
                    next: seeking,
                    acknowledge: false,
                    announce: lost,
                },
                _ => Transition {
                    next: ManagerState::InSession,
                    acknowledge: false,
                    announce: Some(ConnectionState::NotSelected),
                },
            },
            ManagerEvent::Failed => Transition {
                next: match self.state {
                    ManagerState::Binding => ManagerState::BindRetry,
                    ManagerState::Accepting => ManagerState::AcceptRetry,
                    _ => ManagerState::ConnectRetry,
                },
                acknowledge: false,
                announce: None,
            },
            ManagerEvent::Elapsed => Transition {
                next: match self.state {
                    ManagerState::BindRetry => ManagerState::Binding,
                    ManagerState::AcceptRetry => ManagerState::Accepting,
                    _ => ManagerState::Connecting,
                },
                acknowledge: false,
                announce: None,
            },
            ManagerEvent::Command(CommandSeen::Shutdown) => Transition {
                next: stopped,
                acknowledge: true,
                announce: lost,
            },
            ManagerEvent::Command(command) => if command == CommandSeen::Closed && self.state
                == ManagerState::Connecting {
                Transition { next: stopped, acknowledge: false, announce: lost }
            } else {
                Transition {
                    next: match self.state {
                        ManagerState::BindRetry => ManagerState::Binding,
                        ManagerState::ConnectRetry => ManagerState::Connecting,
                        state => state,
                    },
                    acknowledge: false,
                    announce: None,
                }
            },
            ManagerEvent::SessionEnded { shutdown } => Transition {
                next: if shutdown {
                    stopped
                } else {
                    seeking
                },
                acknowledge: false,
                announce: lost,
            },
        };
        self.state = r.next;
        r
    }
}

/// A shutdown ends the manager in every state that takes commands; it is
/// answered, and the connection is announced as gone.
pub proof fn law_shutdown_stops(mode: ConnectionMode, state: ManagerState)
    requires
        expected(state, ManagerEvent::Command(CommandSeen::Shutdown)),
    ensures
        transition(mode, state, ManagerEvent::Command(CommandSeen::Shutdown)) == (Transition {
            next: ManagerState::Stopped,
            acknowledge: true,
            announce: Some(ConnectionState::NotConnected),
        }),
{
}

/// A manager that stops announces that there is no connection, and nothing
/// happens to it afterwards.
pub proof fn law_stopping_is_final(mode: ConnectionMode, state: ManagerState, event: ManagerEvent)
    requires
        expected(state, event),
        transition(mode, state, event).next == ManagerState::Stopped,
    ensures
        transition(mode, state, event).announce == Some(ConnectionState::NotConnected),
        forall|later: ManagerEvent| !expected(ManagerState::Stopped, later),
{
}

/// A manager binds only once: after the listener is bound it never binds again,
/// and a manager that connects never binds.
pub proof fn law_listener_is_bound_once(
    mode: ConnectionMode,
    state: ManagerState,
    event: ManagerEvent,
)
    requires
        expected(state, event),
        state != ManagerState::Binding,
        state != ManagerState::BindRetry,
    ensures
        transition(mode, state, event).next != ManagerState::Binding,
        transition(mode, state, event).next != ManagerState::BindRetry,
{
}

/// A session starts exactly when a connection is announced as not selected.
pub proof fn law_session_is_announced(mode: ConnectionMode, state: ManagerState, event: ManagerEvent)
    requires
        expected(state, event),
    ensures
        transition(mode, state, event).next == ManagerState::InSession <==> transition(
            mode,
            state,
            event,
        ).announce == Some(ConnectionState::NotSelected),
{
}

/// A session that ends without a shutdown never stops the manager: an active one
/// connects again and a passive one accepts again, and the connection is announced
/// as gone. A session that a shutdown ended stops it.
pub proof fn law_lost_session_is_followed_by_another(mode: ConnectionMode)
    ensures
        transition(
            mode,
            ManagerState::InSession,
            ManagerEvent::SessionEnded { shutdown: false },
        ).next == match mode {
            ConnectionMode::Active => ManagerState::Connecting,
            ConnectionMode::Passive => ManagerState::Accepting,
        },
        transition(
            mode,
            ManagerState::InSession,
            ManagerEvent::SessionEnded { shutdown: true },
        ).next == ManagerState::Stopped,
        forall|shutdown: bool|
            (#[trigger] transition(
                mode,
                ManagerState::InSession,
                ManagerEvent::SessionEnded { shutdown },
            )).announce == Some(ConnectionState::NotConnected),
        expected(ManagerState::InSession, ManagerEvent::SessionEnded { shutdown: false }),
        expected(ManagerState::InSession, ManagerEvent::SessionEnded { shutdown: true }),
{
}

/// A manager stops only for a shutdown command, for a session that a shutdown
/// ended, or for a closed command channel while it connects.
pub proof fn law_manager_stops_only_when_told(
    mode: ConnectionMode,
    state: ManagerState,
    event: ManagerEvent,
)
    requires
        expected(state, event),
    ensures
        transition(mode, state, event).next == ManagerState::Stopped <==> {
            ||| event == ManagerEvent::Command(CommandSeen::Shutdown)
            ||| event == ManagerEvent::SessionEnded { shutdown: true }
            ||| event == ManagerEvent::Command(CommandSeen::Closed) && state
                == ManagerState::Connecting
        },
        transition(mode, state, event).acknowledge <==> event == ManagerEvent::Command(
            CommandSeen::Shutdown,
        ),
{
}

/// A manager keeps trying: what succeeds goes on to the next stage, what fails is
/// waited for and then tried again in the same stage, whatever the mode is.
pub proof fn law_failed_work_is_repeated(mode: ConnectionMode)
    ensures
        ({
            let next = |state: ManagerState, event: ManagerEvent|
                transition(mode, state, event).next;
            &&& next(ManagerState::Binding, ManagerEvent::Failed) == ManagerState::BindRetry
            &&& next(ManagerState::BindRetry, ManagerEvent::Elapsed) == ManagerState::Binding
            &&& next(ManagerState::Accepting, ManagerEvent::Failed) == ManagerState::AcceptRetry
            &&& next(ManagerState::AcceptRetry, ManagerEvent::Elapsed) == ManagerState::Accepting
            &&& next(ManagerState::Connecting, ManagerEvent::Failed) == ManagerState::ConnectRetry
            &&& next(ManagerState::ConnectRetry, ManagerEvent::Elapsed) == ManagerState::Connecting
            &&& next(ManagerState::Accepting, ManagerEvent::Succeeded) == ManagerState::InSession
            &&& next(ManagerState::Connecting, ManagerEvent::Succeeded) == ManagerState::InSession
            &&& next(ManagerState::Binding, ManagerEvent::Succeeded) == match mode {
                ConnectionMode::Active => ManagerState::Connecting,
                ConnectionMode::Passive => ManagerState::Accepting,
            }
        }),
        forall|state: ManagerState|
            state != ManagerState::Binding ==> (#[trigger] transition(
                mode,
                state,
                ManagerEvent::Succeeded,
            )).announce == Some(ConnectionState::NotSelected),
        forall|state: ManagerState, event: ManagerEvent|
            event is Failed || event is Elapsed ==> (#[trigger] transition(
                mode,
                state,
                event,
            )).announce is None,
        transition(mode, ManagerState::Binding, ManagerEvent::Succeeded).announce == Some(
            ConnectionState::NotConnected,
        ),
{
}

/// Any command but a shutdown only makes the waiting manager start its work over:
/// nothing is announced and nothing is answered.
pub proof fn law_other_commands_start_over(mode: ConnectionMode, state: ManagerState)
    ensures
        ({
            let after = transition(mode, state, ManagerEvent::Command(CommandSeen::Other));
            &&& !after.acknowledge
            &&& after.announce is None
            &&& after.next == match state {
                ManagerState::BindRetry => ManagerState::Binding,
                ManagerState::ConnectRetry => ManagerState::Connecting,
                other => other,
            }
        }),
        state != ManagerState::Connecting ==> transition(
            mode,
            state,
            ManagerEvent::Command(CommandSeen::Closed),
        ) == transition(mode, state, ManagerEvent::Command(CommandSeen::Other)),
{
}

/// Every stage takes the events that can end it, and a stopped manager takes none.
pub proof fn law_every_stage_takes_its_events(state: ManagerState, command: CommandSeen)
    ensures
        state == ManagerState::Stopped <==> forall|event: ManagerEvent| !expected(state, event),
        expected(state, ManagerEvent::Succeeded) <==> state == ManagerState::Binding || state
            == ManagerState::Accepting || state == ManagerState::Connecting,
        expected(state, ManagerEvent::Failed) <==> expected(state, ManagerEvent::Succeeded),
        expected(state, ManagerEvent::Elapsed) <==> state == ManagerState::BindRetry || state
            == ManagerState::AcceptRetry || state == ManagerState::ConnectRetry,
        expected(state, ManagerEvent::Command(command)) <==> state == ManagerState::BindRetry
            || state == ManagerState::Accepting || state == ManagerState::Connecting || state
            == ManagerState::ConnectRetry,
        forall|shutdown: bool| #[trigger]
            expected(state, ManagerEvent::SessionEnded { shutdown }) <==> state
                == ManagerState::InSession,
{
    assert(expected(ManagerState::InSession, ManagerEvent::SessionEnded { shutdown: true }));
    assert(expected(ManagerState::Binding, ManagerEvent::Succeeded));
    assert(expected(ManagerState::BindRetry, ManagerEvent::Elapsed));
    assert(expected(ManagerState::Accepting, ManagerEvent::Succeeded));
    assert(expected(ManagerState::AcceptRetry, ManagerEvent::Elapsed));
    assert(expected(ManagerState::Connecting, ManagerEvent::Succeeded));
    assert(expected(ManagerState::ConnectRetry, ManagerEvent::Elapsed));
}

/// A failed bind is tried again after five seconds, a failed accept after one.
pub proof fn law_retry_pauses()
    ensures
        BIND_RETRY_SECONDS == 5,
        ACCEPT_RETRY_SECONDS == 1,
{
}

/// A new manager looks for its connection: the active side connects and says that it is
/// not connected, the passive side binds first and says nothing yet.
pub proof fn law_new_manager_looks_for_its_connection(
    mode: ConnectionMode,
    manager: HsmsManager,
    announced: Option<ConnectionState>,
)
    requires
        call_ensures(HsmsManager::new, (mode,), (manager, announced)),
    ensures
        manager.side() == mode,
        mode is Active ==> manager.doing() is Connecting && announced == Some(
            ConnectionState::NotConnected,
        ),
        mode is Passive ==> manager.doing() is Binding && announced is None,
{
}

} // verus!
