//! The supervised worker: a background task with a control channel, which
//! can be stopped and started again with a new configuration while the
//! channel endpoints it holds pass from one generation to the next.
//!
//! Spawning, signalling and joining are someone else's work. Here is what is
//! decided around them: whether to signal, what a joined task means for a
//! reload or a shutdown, and what the task does with what it receives.

use crate::event::Command;
use vstd::prelude::*;

verus! {

/// How a background task ended, as its join shows.
#[derive(Debug, PartialEq, Eq)]
pub enum Exit<R> {
    /// The task left its loop and handed back the resources it held.
    Returned(R),
    /// The task ended with an error.
    Failed,
    /// The task panicked.
    Panicked,
}

/// Why a reload or a shutdown failed.
#[derive(Clone, Copy, Debug, PartialEq, Eq, Structural)]
pub enum WorkerError {
    /// The background task had ended with an error.
    TaskFailed,
    /// The background task had panicked.
    TaskPanicked,
}

/// What the next generation of a worker is started with.
#[derive(Debug, PartialEq, Eq)]
pub struct Launch<C, R> {
    /// Its configuration.
    pub config: C,
    /// The resources it holds: the channel endpoints of its predecessor.
    pub resources: R,
}

/// The signal that stops a worker, where anyone listens for it.
pub open spec fn stop_signal(listening: bool) -> Option<Command> {
    if listening {
        Some(Command::Shutdown)
    } else {
        None
    }
}

/// What a reload makes of the joined task: the next generation holds the
/// resources that the task handed back, under the new configuration.
pub open spec fn relaunched<C, R>(exit: Exit<R>, config: C) -> Result<Launch<C, R>, WorkerError> {
    match exit {
        Exit::Returned(resources) => Ok(Launch { config, resources }),
        Exit::Failed => Err(WorkerError::TaskFailed),
        Exit::Panicked => Err(WorkerError::TaskPanicked),
    }
}

/// What a shutdown makes of the joined task.
pub open spec fn concluded<R>(exit: Exit<R>) -> Result<(), WorkerError> {
    match exit {
        Exit::Returned(_) => Ok(()),
        Exit::Failed => Err(WorkerError::TaskFailed),
        Exit::Panicked => Err(WorkerError::TaskPanicked),
    }
}

/// What a started worker is launched with, whatever its handle is.
pub open spec fn launched<H, C, R>(started: Result<(H, Launch<C, R>), WorkerError>) -> Result<
    Launch<C, R>,
    WorkerError,
> {
    match started {
        Ok(started) => Ok(started.1),
        Err(error) => Err(error),
    }
}

/// The handle of one generation of a worker.
#[derive(Debug, PartialEq, Eq)]
pub struct Supervisor {
    stopping: bool,
}

impl Supervisor {
    /// Whether the generation was told to stop.
    pub closed spec fn stopping(&self) -> bool {
        self.stopping
    }

    /// The handle of a generation that is to be spawned with `config` and
    /// `resources`.
    pub fn spawn<C, R>(config: C, resources: R) -> (started: (Self, Launch<C, R>))
        ensures
            !started.0.stopping(),
            started.1 == (Launch { config, resources }),
    {
        (Supervisor { stopping: false }, Launch { config, resources })
    }

    /// Tells the generation to stop. The signal is to be sent only where
    /// the task still listens, and only once: a task that has ended by
    /// itself is left alone.
    pub fn stop(&mut self, listening: bool) -> (signal: Option<Command>)
        ensures
            final(self).stopping(),
            signal == if old(self).stopping() {
                None
            } else {
                stop_signal(listening)
            },
    {
        let first = !self.stopping;
        self.stopping = true;
        if first && listening {
            Some(Command::Shutdown)
        } else {
            None
        }
    }

    /// Ends this generation with the joined task and begins the next with
    /// `config` and the resources that the task handed back.
    pub fn reload<C, R>(self, exit: Exit<R>, config: C) -> (next: Result<
        (Self, Launch<C, R>),
        WorkerError,
    >)
        ensures
            launched(next) == relaunched(exit, config),
            next matches Ok(started) ==> !started.0.stopping(),
    {
        match exit {
            Exit::Returned(resources) => Ok(Self::spawn(config, resources)),
            Exit::Failed => Err(WorkerError::TaskFailed),
            Exit::Panicked => Err(WorkerError::TaskPanicked),
        }
    }

    /// Ends this generation with the joined task.
    pub fn shutdown<R>(self, exit: Exit<R>) -> (end: Result<(), WorkerError>)
        ensures
            end == concluded(exit),
    {
        match exit {
            Exit::Returned(_) => Ok(()),
            Exit::Failed => Err(WorkerError::TaskFailed),
            Exit::Panicked => Err(WorkerError::TaskPanicked),
        }
    }
}

/// What a task does with an event it received.
#[derive(PartialEq, Eq)]
pub enum Admission<E> {
    /// Handle it.
    Handle(E),
    /// Hand it back untouched: the task has left its loop.
    Refuse(E),
}

/// What a task in the state `stopped` does with `event`.
pub open spec fn admitted<E>(stopped: bool, event: E) -> Admission<E> {
    if stopped {
        Admission::Refuse(event)
    } else {
        Admission::Handle(event)
    }
}

/// Whether a task in the state `stopped` has left its loop after `command`.
pub open spec fn commanded(stopped: bool, command: Command) -> bool {
    stopped || command == Command::Shutdown
}

/// What a task in the state `stopped` takes out of `inbox`, the events that
/// wait in its channel, oldest first: the event it handles, and what waits
/// on.
pub open spec fn taken<E>(stopped: bool, inbox: Seq<E>) -> (Option<E>, Seq<E>) {
    if stopped || inbox.len() == 0 {
        (None, inbox)
    } else {
        (Some(inbox[0]), inbox.skip(1))
    }
}

/// The events that a running task handles in `turns` turns of its loop, and
/// the ones that wait on.
pub open spec fn served<E>(inbox: Seq<E>, turns: nat) -> (Seq<E>, Seq<E>)
    decreases turns,
{
    if turns == 0 {
        (Seq::empty(), inbox)
    } else {
        match taken(false, inbox).0 {
            Some(event) => {
                let (handled, waiting) = served(taken(false, inbox).1, (turns - 1) as nat);
                (seq![event] + handled, waiting)
            },
            None => (Seq::empty(), inbox),
        }
    }
}

/// The loop of a background task: it handles events until it is told to
/// stop, and then hands its resources back.
#[derive(Debug, PartialEq, Eq)]
pub struct Task {
    stopped: bool,
}

impl Task {
    /// Whether the task has left its loop.
    pub closed spec fn stopped(&self) -> bool {
        self.stopped
    }

    /// A task that enters its loop.
    pub fn new() -> (task: Self)
        ensures
            !task.stopped(),
    {
        Task { stopped: false }
    }

    /// Whether the task has left its loop.
    pub fn is_stopped(&self) -> (stopped: bool)
        ensures
            stopped == self.stopped(),
    {
        self.stopped
    }

    /// Takes a command from the control channel. Says whether the task
    /// leaves its loop on it.
    pub fn on_command(&mut self, command: Command) -> (leave: bool)
        ensures
            final(self).stopped() == commanded(old(self).stopped(), command),
            leave == (!old(self).stopped() && final(self).stopped()),
    {
        if self.stopped {
            false
        } else {
            match command {
                Command::Shutdown => {
                    self.stopped = true;
                    true
                },
            }
        }
    }

    /// Takes an event from the event channel.
    pub fn on_event<E>(&self, event: E) -> (admission: Admission<E>)
        ensures
            admission == admitted(self.stopped(), event),
    {
        if self.stopped {
            Admission::Refuse(event)
        } else {
            Admission::Handle(event)
        }
    }

    /// Takes the oldest event out of `inbox`, the events that wait in the
    /// task's channel, unless the task has left its loop or nothing waits.
    pub fn take<E>(&self, inbox: &mut Vec<E>) -> (event: Option<E>)
        ensures
            (event, final(inbox)@) == taken(self.stopped(), old(inbox)@),
    {
        if self.stopped || inbox.len() == 0 {
            None
        } else {
            let event = inbox.remove(0);
            assert(inbox@ =~= old(inbox)@.skip(1));
            Some(event)
        }
    }

    /// Ends the task: it hands back the resources it held.
    pub fn finish<R>(self, resources: R) -> (exit: Exit<R>)
        ensures
            exit == Exit::Returned(resources),
    {
        Exit::Returned(resources)
    }
}

/// Reload. The resources that the old generation's task handed back, the
/// channel endpoints with whatever they still hold, are the resources of
/// the new generation: a reload succeeds exactly where the task handed them
/// back, and the launch carries them as they are.
pub proof fn lemma_reload_hands_over<C, R>(resources: R, config: C)
    ensures
        relaunched(Exit::Returned(resources), config) == Ok::<Launch<C, R>, WorkerError>(
            Launch { config, resources },
        ),
        relaunched(Exit::<R>::Failed, config) is Err,
        relaunched(Exit::<R>::Panicked, config) is Err,
{
}

/// What a task handles and what it leaves make up what waited, in order.
pub proof fn lemma_served_all<E>(inbox: Seq<E>, turns: nat)
    ensures
        served(inbox, turns).0 + served(inbox, turns).1 == inbox,
    decreases turns,
{
    if turns > 0 && inbox.len() > 0 {
        lemma_served_all(inbox.skip(1), (turns - 1) as nat);
        let (handled, waiting) = served(inbox.skip(1), (turns - 1) as nat);
        assert(seq![inbox[0]] + handled + waiting =~= seq![inbox[0]] + (handled + waiting));
        assert(seq![inbox[0]] + inbox.skip(1) =~= inbox);
    } else {
        assert(Seq::<E>::empty() + inbox =~= inbox);
    }
}

/// No event is lost over a reload. Let the old generation handle events
/// from its channel for any number of turns and then stop; let the new
/// generation, started by the reload with the endpoint that the old one
/// handed back, handle events for any number of turns. Then what the old
/// one handled, what the new one handled and what still waits are, in this
/// order, exactly the events that waited at first.
pub proof fn lemma_reload_loses_no_event<C, E>(inbox: Seq<E>, config: C, before: nat, after: nat)
    ensures
        ({
            let first = served(inbox, before);
            let launch = relaunched(Exit::Returned(first.1), config);
            &&& launch matches Ok(launch)
            &&& launch.resources == first.1
            &&& first.0 + served(launch.resources, after).0 + served(launch.resources, after).1
                == inbox
        }),
{
    let first = served(inbox, before);
    lemma_served_all(inbox, before);
    lemma_served_all(first.1, after);
    let second = served(first.1, after);
    assert(first.0 + second.0 + second.1 =~= first.0 + (second.0 + second.1));
}

/// Shutdown. A shutdown succeeds exactly where the joined task had left its
/// loop and handed its resources back. And a task that was told to stop has
/// left its loop for good: whatever command comes, it stays out; whatever
/// event comes, it hands it back untouched; and it takes nothing more from
/// its channel.
pub proof fn lemma_shutdown_is_final<R, E>(exit: Exit<R>, command: Command, event: E, inbox: Seq<E>)
    ensures
        concluded(exit) is Ok <==> exit is Returned,
        commanded(false, Command::Shutdown),
        commanded(true, command),
        admitted(true, event) == Admission::Refuse(event),
        taken(true, inbox) == (None::<E>, inbox),
{
}

} // verus!
