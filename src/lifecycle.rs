//! The lifecycle controller and the decisions of the dispatch loop.
//!
//! The controller is a value owned by its host: starting and stopping are
//! decisions on its state, and the host carries out what they ask for
//! (spawning the loop, waiting for it to end).
use vstd::prelude::*;
use crossbeam_channel::Sender;
use crate::shutdown::{send_signal, shutdown_channel, ShutdownReceiver, SignalSent};
use crate::config::{default_config, ConfigView, ServerConfig};

verus! {

/// How often `start` looks whether a fresh loop has begun, in milliseconds.
pub const READY_POLL_INTERVAL_MS: u64 = 10;

/// How many times `start` looks before it reports anyway.
pub const READY_POLL_LIMIT: u32 = 50;

/// How often `stop` looks whether the loop has ended, in milliseconds.
pub const STOP_POLL_INTERVAL_MS: u64 = 100;

/// How many times `stop` looks before it reports anyway.
pub const STOP_POLL_LIMIT: u32 = 20;

/// How long the loop waits for a connection before it looks for the
/// shutdown signal again, in milliseconds.
pub const ACCEPT_POLL_MS: u64 = 100;

/// Where the server is in its life.
#[derive(Debug, Clone, Copy, PartialEq, Eq, Structural)]
pub enum RunState {
    Stopped,
    Starting,
    Running,
}

/// The controller: the run state, the active configuration, and the sending
/// end of the shutdown channel of the loop that runs, if any.
pub struct Lifecycle {
    state: RunState,
    config: ServerConfig,
    shutdown: Option<Sender<()>>,
}

/// The abstract content of a controller.
pub struct LifecycleView {
    pub state: RunState,
    pub config: ConfigView,
    pub has_shutdown: bool,
}

impl View for Lifecycle {
    type V = LifecycleView;

    closed spec fn view(&self) -> LifecycleView {
        LifecycleView { state: self.state, config: self.config@, has_shutdown: self.shutdown.is_some() }
    }
}

/// What `start` decided.
pub enum StartDecision {
    /// A loop is already starting or running; nothing was changed.
    AlreadyRunning,
    /// A loop is to be launched with this configuration, listening for
    /// shutdown on this receiver.
    Launch { config: ServerConfig, shutdown: ShutdownReceiver },
}

/// What `stop` decided.
pub enum StopDecision {
    /// No loop was running; nothing was changed.
    NotRunning,
    /// The shutdown signal was sent; the host waits for the loop to end.
    Signalled(SignalSent),
    /// The server still runs, but an earlier `stop` already sent the signal;
    /// the host waits for the loop to end.
    NotSignalled,
}

/// The text `status` reports for a state.
pub open spec fn status_text(s: RunState) -> Seq<char> {
    if s == RunState::Running {
        "running"@
    } else {
        "stopped"@
    }
}

/// The configuration that `start` adopts: the one given, or the default
/// when none could be read.
pub open spec fn adopted_config(parsed: Option<ConfigView>) -> ConfigView {
    match parsed {
        Some(c) => c,
        None => default_config(),
    }
}

/// The view of an optional configuration.
pub open spec fn parsed_view(parsed: Option<ServerConfig>) -> Option<ConfigView> {
    match parsed {
        Some(c) => Some(c@),
        None => None,
    }
}

impl Lifecycle {
    /// A stopped controller with the default configuration.
    pub fn new() -> (r: Lifecycle)
        ensures
            r@ == (LifecycleView { state: RunState::Stopped, config: default_config(), has_shutdown: false }),
    {
        Lifecycle { state: RunState::Stopped, config: ServerConfig::default(), shutdown: None }
    }

    /// The current run state.
    pub fn state(&self) -> (r: RunState)
        ensures
            r == self@.state,
    {
        self.state
    }

    /// `running` while a loop runs, `stopped` otherwise. Reads the state once
    /// and changes nothing.
    pub fn status(&self) -> (r: &'static str)
        ensures
            r@ == status_text(self@.state),
    {
        if self.state == RunState::Running {
            "running"
        } else {
            "stopped"
        }
    }

    /// A copy of the active configuration.
    pub fn config(&self) -> (r: ServerConfig)
        ensures
            r@ == self@.config,
    {
        self.config.snapshot()
    }

    /// Starts a server: unless one is already starting or running, adopts the
    /// given configuration (the default when `parsed` is `None`), makes a
    /// fresh shutdown channel, keeps its sender, and asks the host to launch
    /// the loop with the configuration and the receiver.
    pub fn start(&mut self, parsed: Option<ServerConfig>) -> (r: StartDecision)
        ensures
            final(self)@ == after_start(old(self)@, parsed_view(parsed)),
            (r is AlreadyRunning) == (old(self)@.state != RunState::Stopped),
            old(self)@.state != RunState::Stopped ==> *final(self) == *old(self),
            r is Launch ==> r->config@ == adopted_config(parsed_view(parsed)),
    {
        if self.state != RunState::Stopped {
            return StartDecision::AlreadyRunning;
        }
        let config = match parsed {
            Some(c) => c,
            None => ServerConfig::default(),
        };
        self.config = config.snapshot();
        let (tx, rx) = shutdown_channel();
        self.shutdown = Some(tx);
        self.state = RunState::Starting;
        StartDecision::Launch { config, shutdown: rx }
    }

    /// The loop has begun: a starting server is now running.
    pub fn loop_began(&mut self)
        ensures
            final(self)@ == after_began(old(self)@),
            old(self)@.state != RunState::Starting ==> *final(self) == *old(self),
    {
        if self.state == RunState::Starting {
            self.state = RunState::Running;
        }
    }

    /// The loop has ended: the server is stopped and its shutdown sender is
    /// dropped. The configuration stays as it was.
    pub fn loop_ended(&mut self)
        ensures
            final(self)@ == after_ended(old(self)@),
    {
        self.state = RunState::Stopped;
        self.shutdown = None;
    }

    /// Stops a running server: sends the one shutdown signal without
    /// blocking and lets go of the sender, so that no second signal can be
    /// sent. The state stays `Running` until the loop ends.
    pub fn stop(&mut self) -> (r: StopDecision)
        ensures
            final(self)@ == after_stop(old(self)@),
            (r is NotRunning) == (old(self)@.state != RunState::Running),
            (r is Signalled) == (old(self)@.state == RunState::Running && old(self)@.has_shutdown),
            old(self)@.state != RunState::Running ==> *final(self) == *old(self),
    {
        if self.state != RunState::Running {
            return StopDecision::NotRunning;
        }
        match self.shutdown.take() {
            Some(tx) => StopDecision::Signalled(send_signal(tx)),
            None => StopDecision::NotSignalled,
        }
    }
}

impl StartDecision {
    /// The message `start` reports.
    pub fn message(&self) -> (r: &'static str)
        ensures
            r@ == match self {
                StartDecision::AlreadyRunning => "Server is already running"@,
                StartDecision::Launch { .. } => "Server started successfully"@,
            },
    {
        match self {
            StartDecision::AlreadyRunning => "Server is already running",
            StartDecision::Launch { .. } => "Server started successfully",
        }
    }
}

impl StopDecision {
    /// The message `stop` reports. It does not tell whether the loop ended
    /// within the wait.
    pub fn message(&self) -> (r: &'static str)
        ensures
            r@ == match self {
                StopDecision::NotRunning => "Server is not running"@,
                StopDecision::Signalled(_) => "Server stopped"@,
                StopDecision::NotSignalled => "Server stopped"@,
            },
    {
        match self {
            StopDecision::NotRunning => "Server is not running",
            StopDecision::Signalled(_) => "Server stopped",
            StopDecision::NotSignalled => "Server stopped",
        }
    }
}

/// Whether `stop`, having looked `attempts` times, waits another interval:
/// only while the loop still runs and the attempts are not used up.
pub fn stop_keeps_waiting(attempts: u32, state: &RunState) -> (r: bool)
    ensures
        r == (attempts < STOP_POLL_LIMIT && *state == RunState::Running),
{
    attempts < STOP_POLL_LIMIT && *state == RunState::Running
}

/// Whether `start`, having looked `attempts` times, waits another interval
/// for the loop to begin: only while it is still starting and the attempts
/// are not used up.
pub fn start_keeps_waiting(attempts: u32, state: &RunState) -> (r: bool)
    ensures
        r == (attempts < READY_POLL_LIMIT && *state == RunState::Starting),
{
    attempts < READY_POLL_LIMIT && *state == RunState::Starting
}

/// What waiting for a connection gave.
#[derive(Debug, Clone, Copy, PartialEq, Eq, Structural)]
pub enum Receipt {
    /// A request arrived.
    Request,
    /// No request came within the wait.
    Idle,
    /// Accepting failed.
    Failed,
}

/// What the dispatch loop does next.
#[derive(Debug, Clone, Copy, PartialEq, Eq, Structural)]
pub enum LoopStep {
    /// Hand the request to a task of its own.
    Serve,
    /// Look for the shutdown signal, then wait again.
    Poll,
    /// Leave the loop.
    Finish,
}

/// The loop's step after a wait: serve a request, and otherwise go on
/// polling; only the shutdown signal ends the loop.
pub fn after_receipt(receipt: &Receipt) -> (r: LoopStep)
    ensures
        r == match receipt {
            Receipt::Request => LoopStep::Serve,
            _ => LoopStep::Poll,
        },
{
    match receipt {
        Receipt::Request => LoopStep::Serve,
        _ => LoopStep::Poll,
    }
}

/// The loop's step once it knows whether a shutdown signal was pending:
/// a pending signal ends the loop, otherwise it waits for a connection.
pub fn after_signal(signalled: bool) -> (r: LoopStep)
    ensures
        r == (if signalled { LoopStep::Finish } else { LoopStep::Poll }),
{
    if signalled {
        LoopStep::Finish
    } else {
        LoopStep::Poll
    }
}

/// The loop's step before a wait: takes a pending shutdown signal, if any,
/// and decides by `after_signal`. Whether one is pending depends on `stop`.
pub fn before_receipt(shutdown: &ShutdownReceiver) -> (r: LoopStep)
    ensures
        r == LoopStep::Finish || r == LoopStep::Poll,
{
    after_signal(shutdown.take_signal())
}

/// The state after `start`: a stopped server adopts the configuration and is
/// starting with a fresh shutdown channel; any other is left as it was.
pub open spec fn after_start(s: LifecycleView, parsed: Option<ConfigView>) -> LifecycleView {
    if s.state == RunState::Stopped {
        LifecycleView { state: RunState::Starting, config: adopted_config(parsed), has_shutdown: true }
    } else {
        s
    }
}

/// The state after `stop`: a running server has given up its shutdown
/// sender; any other is left as it was.
pub open spec fn after_stop(s: LifecycleView) -> LifecycleView {
    if s.state == RunState::Running {
        LifecycleView { has_shutdown: false, ..s }
    } else {
        s
    }
}

/// The state after the loop has begun.
pub open spec fn after_began(s: LifecycleView) -> LifecycleView {
    if s.state == RunState::Starting {
        LifecycleView { state: RunState::Running, ..s }
    } else {
        s
    }
}

/// The state after the loop has ended.
pub open spec fn after_ended(s: LifecycleView) -> LifecycleView {
    LifecycleView { state: RunState::Stopped, config: s.config, has_shutdown: false }
}

/// Starting twice is starting once: the second `start` is refused and
/// changes nothing, so no second loop or shutdown channel is made; the same
/// holds once the loop has begun. Stopping a server that is not running
/// changes nothing.
pub proof fn lemma_start_stop_idempotent(s: LifecycleView, p: Option<ConfigView>, q: Option<ConfigView>)
    ensures
        after_start(s, p).state != RunState::Stopped,
        after_start(after_start(s, p), q) == after_start(s, p),
        after_start(after_began(after_start(s, p)), q) == after_began(after_start(s, p)),
        s.state != RunState::Running ==> after_stop(s) == s,
        after_stop(after_stop(s)) == after_stop(s),
{
}

/// Once a start from the stopped state has succeeded, the active
/// configuration is the one it adopted, whatever later starts are refused
/// and while the loop begins and is asked to stop.
pub proof fn lemma_config_is_last_started(s: LifecycleView, p: Option<ConfigView>, q: Option<ConfigView>)
    requires
        s.state == RunState::Stopped,
    ensures
        after_start(s, p).config == adopted_config(p),
        after_start(after_start(s, p), q).config == adopted_config(p),
        after_began(after_start(s, p)).config == adopted_config(p),
        after_start(after_began(after_start(s, p)), q).config == adopted_config(p),
        after_stop(after_began(after_start(s, p))).config == adopted_config(p),
        after_ended(after_stop(after_began(after_start(s, p)))).config == adopted_config(p),
{
}

/// The status is always one of the two texts, whatever the state.
pub proof fn lemma_status_is_running_or_stopped(s: RunState)
    ensures
        status_text(s) == "running"@ || status_text(s) == "stopped"@,
        (status_text(s) == "running"@) == (s == RunState::Running),
{
    reveal_strlit("running");
    reveal_strlit("stopped");
    assert("running"@[0] != "stopped"@[0]);
}

} // verus!
