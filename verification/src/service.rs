//! The lifecycle of the whole process: what the service manager is told,
//! and in which order the workers are started, reloaded and shut down.

use vstd::prelude::*;

verus! {

/// One state change that the service manager is told of.
#[derive(Debug, PartialEq, Eq)]
pub enum NotifyState {
    /// Startup is finished.
    Ready,
    /// The configuration is being reloaded.
    Reloading,
    /// The service is stopping.
    Stopping,
    /// A status message.
    Status(String),
    /// The service has failed with this error code.
    Errno(u32),
    /// The monotonic time in microseconds.
    MonotonicUsec(i128),
}

/// The mathematical view of a [`NotifyState`].
pub enum NotifyStateView {
    Ready,
    Reloading,
    Stopping,
    Status(Seq<char>),
    Errno(u32),
    MonotonicUsec(i128),
}

impl View for NotifyState {
    type V = NotifyStateView;

    open spec fn view(&self) -> NotifyStateView {
        match *self {
            NotifyState::Ready => NotifyStateView::Ready,
            NotifyState::Reloading => NotifyStateView::Reloading,
            NotifyState::Stopping => NotifyStateView::Stopping,
            NotifyState::Status(message) => NotifyStateView::Status(message@),
            NotifyState::Errno(code) => NotifyStateView::Errno(code),
            NotifyState::MonotonicUsec(time) => NotifyStateView::MonotonicUsec(time),
        }
    }
}

/// The views of a sequence of state changes.
pub open spec fn state_views(states: Seq<NotifyState>) -> Seq<NotifyStateView> {
    Seq::new(states.len(), |i: int| states[i]@)
}

/// The error code that the service manager is told when the process gives
/// up.
pub const FAILURE_CODE: u32 = 1312;

/// What the service manager is told at each turn of the process's life.
#[derive(Debug)]
pub struct Notifications {}

impl Notifications {
    /// The process starts.
    pub fn starting() -> (states: Vec<NotifyState>)
        ensures
            state_views(states@) == seq![NotifyStateView::Status("starting up"@)],
    {
        let mut states: Vec<NotifyState> = Vec::new();
        states.push(NotifyState::Status("starting up".to_owned()));
        assert(state_views(states@) =~= seq![NotifyStateView::Status("starting up"@)]);
        states
    }

    /// The workers run.
    pub fn ready() -> (states: Vec<NotifyState>)
        ensures
            state_views(states@) == seq![
                NotifyStateView::Ready,
                NotifyStateView::Status("ready to process memes"@),
            ],
    {
        let mut states: Vec<NotifyState> = Vec::new();
        states.push(NotifyState::Ready);
        states.push(NotifyState::Status("ready to process memes".to_owned()));
        assert(state_views(states@) =~= seq![
            NotifyStateView::Ready,
            NotifyStateView::Status("ready to process memes"@),
        ]);
        states
    }

    /// The configuration is about to be loaded again, at the monotonic time
    /// `now` in microseconds.
    pub fn reloading(now: i128) -> (states: Vec<NotifyState>)
        ensures
            state_views(states@) == seq![
                NotifyStateView::Reloading,
                NotifyStateView::MonotonicUsec(now),
                NotifyStateView::Status("reloading configuration"@),
            ],
    {
        let mut states: Vec<NotifyState> = Vec::new();
        states.push(NotifyState::Reloading);
        states.push(NotifyState::MonotonicUsec(now));
        states.push(NotifyState::Status("reloading configuration".to_owned()));
        assert(state_views(states@) =~= seq![
            NotifyStateView::Reloading,
            NotifyStateView::MonotonicUsec(now),
            NotifyStateView::Status("reloading configuration"@),
        ]);
        states
    }

    /// The workers are about to be shut down.
    pub fn stopping() -> (states: Vec<NotifyState>)
        ensures
            state_views(states@) == seq![
                NotifyStateView::Stopping,
                NotifyStateView::Status("shutting down"@),
            ],
    {
        let mut states: Vec<NotifyState> = Vec::new();
        states.push(NotifyState::Stopping);
        states.push(NotifyState::Status("shutting down".to_owned()));
        assert(state_views(states@) =~= seq![
            NotifyStateView::Stopping,
            NotifyStateView::Status("shutting down"@),
        ]);
        states
    }

    /// The process gives up with the error `code`, for the reason that
    /// `message` tells.
    pub fn failed(code: u32, message: &str) -> (states: Vec<NotifyState>)
        ensures
            state_views(states@) == seq![
                NotifyStateView::Status(message@),
                NotifyStateView::Errno(code),
            ],
    {
        let mut states: Vec<NotifyState> = Vec::new();
        states.push(NotifyState::Status(message.to_owned()));
        states.push(NotifyState::Errno(code));
        assert(state_views(states@) =~= seq![
            NotifyStateView::Status(message@),
            NotifyStateView::Errno(code),
        ]);
        states
    }
}

/// What the service manager is told when the process gives up for the
/// reason that `message` tells.
pub fn give_up(message: &str) -> (states: Vec<NotifyState>)
    ensures
        state_views(states@) == seq![
            NotifyStateView::Status(message@),
            NotifyStateView::Errno(FAILURE_CODE),
        ],
{
    Notifications::failed(FAILURE_CODE, message)
}

/// A signal from outside that the process listens for.
#[derive(Clone, Copy, Debug, PartialEq, Eq, Structural)]
pub enum Signal {
    Hangup,
    Interrupt,
    Terminate,
    Quit,
}

/// What the process is asked to do.
#[derive(Clone, Copy, Debug, PartialEq, Eq, Structural)]
pub enum Trigger {
    /// Load the configuration again and restart the workers with it.
    Reload,
    /// Stop the workers and leave.
    Shutdown,
}

/// What `signal` asks for: a hangup asks for a reload, each of the others
/// for a shutdown.
pub open spec fn triggered(signal: Signal) -> Trigger {
    if signal == Signal::Hangup {
        Trigger::Reload
    } else {
        Trigger::Shutdown
    }
}

/// What `signal` asks for.
pub fn trigger_of(signal: Signal) -> (asked: Trigger)
    ensures
        asked == triggered(signal),
{
    match signal {
        Signal::Hangup => Trigger::Reload,
        Signal::Interrupt => Trigger::Shutdown,
        Signal::Terminate => Trigger::Shutdown,
        Signal::Quit => Trigger::Shutdown,
    }
}

/// What the service manager is told at a stage.
#[derive(Clone, Copy, Debug, PartialEq, Eq, Structural)]
pub enum Notice {
    Starting,
    Ready,
    Reloading,
    Stopping,
}

/// One stage of the process's life. The connectors are numbered in the
/// order in which they were spawned.
#[derive(Clone, Copy, Debug, PartialEq, Eq, Structural)]
pub enum Stage {
    /// Tell the service manager.
    Notify(Notice),
    /// Load the configuration.
    LoadConfiguration,
    /// Subscribe to the signals that trigger a reload or a shutdown.
    WatchSignals,
    /// Spawn the persistence consumer.
    SpawnConsumer,
    /// Spawn a source connector.
    SpawnConnector(usize),
    /// Reload the persistence consumer.
    ReloadConsumer,
    /// Reload a source connector.
    ReloadConnector(usize),
    /// Shut a source connector down.
    ShutdownConnector(usize),
    /// Shut the persistence consumer down.
    ShutdownConsumer,
    /// Leave the control loop.
    Exit,
}

/// The stages of a startup with `connectors` source connectors: the
/// consumer is spawned before the connectors, so that what they send has
/// somewhere to go.
pub open spec fn startup_stages(connectors: nat) -> Seq<Stage> {
    seq![
        Stage::Notify(Notice::Starting),
        Stage::LoadConfiguration,
        Stage::WatchSignals,
        Stage::SpawnConsumer,
    ] + Seq::new(connectors, |i: int| Stage::SpawnConnector(i as usize)) + seq![
        Stage::Notify(Notice::Ready),
    ]
}

/// The stages of a reload: the configuration is loaded before any worker
/// is touched, the consumer is reloaded before the connectors, so that the
/// new storage is ready before they go on sending.
pub open spec fn reload_stages(connectors: nat) -> Seq<Stage> {
    seq![Stage::Notify(Notice::Reloading), Stage::LoadConfiguration, Stage::ReloadConsumer]
        + Seq::new(connectors, |i: int| Stage::ReloadConnector(i as usize)) + seq![
        Stage::Notify(Notice::Ready),
    ]
}

/// The stages of a shutdown: the connectors are shut down before the
/// consumer, so that nothing is sent any more while it takes what is left.
pub open spec fn shutdown_stages(connectors: nat) -> Seq<Stage> {
    seq![Stage::Notify(Notice::Stopping)] + Seq::new(
        connectors,
        |i: int| Stage::ShutdownConnector(i as usize),
    ) + seq![Stage::ShutdownConsumer, Stage::Exit]
}

/// The stages that answer `trigger`.
pub open spec fn stages(trigger: Trigger, connectors: nat) -> Seq<Stage> {
    match trigger {
        Trigger::Reload => reload_stages(connectors),
        Trigger::Shutdown => shutdown_stages(connectors),
    }
}

/// The stages of a startup with `connectors` source connectors.
pub fn startup(connectors: usize) -> (plan: Vec<Stage>)
    ensures
        plan@ == startup_stages(connectors as nat),
{
    let mut plan: Vec<Stage> = Vec::new();
    plan.push(Stage::Notify(Notice::Starting));
    plan.push(Stage::LoadConfiguration);
    plan.push(Stage::WatchSignals);
    plan.push(Stage::SpawnConsumer);
    let ghost head = plan@;
    let mut i: usize = 0;
    while i < connectors
        invariant
            i <= connectors,
            plan@ == head + Seq::new(i as nat, |k: int| Stage::SpawnConnector(k as usize)),
        decreases connectors - i,
    {
        plan.push(Stage::SpawnConnector(i));
        assert(plan@ =~= head + Seq::new(
            (i + 1) as nat,
            |k: int| Stage::SpawnConnector(k as usize),
        ));
        i += 1;
    }
    plan.push(Stage::Notify(Notice::Ready));
    assert(plan@ =~= startup_stages(connectors as nat));
    plan
}

/// The stages of a reload with `connectors` source connectors.
pub fn reload(connectors: usize) -> (plan: Vec<Stage>)
    ensures
        plan@ == reload_stages(connectors as nat),
{
    let mut plan: Vec<Stage> = Vec::new();
    plan.push(Stage::Notify(Notice::Reloading));
    plan.push(Stage::LoadConfiguration);
    plan.push(Stage::ReloadConsumer);
    let ghost head = plan@;
    let mut i: usize = 0;
    while i < connectors
        invariant
            i <= connectors,
            plan@ == head + Seq::new(i as nat, |k: int| Stage::ReloadConnector(k as usize)),
        decreases connectors - i,
    {
        plan.push(Stage::ReloadConnector(i));
        assert(plan@ =~= head + Seq::new(
            (i + 1) as nat,
            |k: int| Stage::ReloadConnector(k as usize),
        ));
        i += 1;
    }
    plan.push(Stage::Notify(Notice::Ready));
    assert(plan@ =~= reload_stages(connectors as nat));
    plan
}

/// The stages of a shutdown with `connectors` source connectors.
pub fn shutdown(connectors: usize) -> (plan: Vec<Stage>)
    ensures
        plan@ == shutdown_stages(connectors as nat),
{
    let mut plan: Vec<Stage> = Vec::new();
    plan.push(Stage::Notify(Notice::Stopping));
    let ghost head = plan@;
    let mut i: usize = 0;
    while i < connectors
        invariant
            i <= connectors,
            plan@ == head + Seq::new(i as nat, |k: int| Stage::ShutdownConnector(k as usize)),
        decreases connectors - i,
    {
        plan.push(Stage::ShutdownConnector(i));
        assert(plan@ =~= head + Seq::new(
            (i + 1) as nat,
            |k: int| Stage::ShutdownConnector(k as usize),
        ));
        i += 1;
    }
    plan.push(Stage::ShutdownConsumer);
    plan.push(Stage::Exit);
    assert(plan@ =~= shutdown_stages(connectors as nat));
    plan
}

/// The stages that answer `trigger`, with `connectors` source connectors.
pub fn react(trigger: Trigger, connectors: usize) -> (plan: Vec<Stage>)
    ensures
        plan@ == stages(trigger, connectors as nat),
{
    match trigger {
        Trigger::Reload => reload(connectors),
        Trigger::Shutdown => shutdown(connectors),
    }
}

/// In a reload the configuration is loaded first of all workers' stages,
/// and the consumer is reloaded before each connector.
pub proof fn lemma_reload_order(connectors: nat, connector: nat)
    requires
        connector < connectors,
        connectors <= usize::MAX,
    ensures
        reload_stages(connectors)[1] == Stage::LoadConfiguration,
        reload_stages(connectors)[2] == Stage::ReloadConsumer,
        reload_stages(connectors)[3 + connector as int] == Stage::ReloadConnector(connector as usize),
        reload_stages(connectors).last() == Stage::Notify(Notice::Ready),
        reload_stages(connectors).len() == connectors + 4,
{
}

/// In a shutdown each connector is shut down before the consumer, and the
/// consumer before the process leaves.
pub proof fn lemma_shutdown_order(connectors: nat, connector: nat)
    requires
        connector < connectors,
        connectors <= usize::MAX,
    ensures
        shutdown_stages(connectors)[0] == Stage::Notify(Notice::Stopping),
        shutdown_stages(connectors)[1 + connector as int] == Stage::ShutdownConnector(
            connector as usize,
        ),
        shutdown_stages(connectors)[1 + connectors as int] == Stage::ShutdownConsumer,
        shutdown_stages(connectors).last() == Stage::Exit,
        shutdown_stages(connectors).len() == connectors + 3,
{
}

} // verus!
