//! The backoff-retry driver: a connector that fails because the upstream
//! source limits its rate waits as long as the source asks and connects
//! again, as often as it takes. Any other failure ends the worker.
//!
//! The driver does not sleep or connect itself. It is told when a run ended
//! and when the sleeper woke, each with the time on a clock that counts
//! seconds, and answers with what to do next.

use vstd::prelude::*;

verus! {

/// The error code by which the upstream source says that its rate limit is
/// reached.
pub const FLOOD: i32 = 420;

/// An error that the upstream source answered a request with.
#[derive(Debug, PartialEq, Eq)]
pub struct RpcError {
    /// The numeric code of the error.
    pub code: i32,
    /// The name of the error.
    pub name: String,
    /// The number that came with the error.
    pub value: Option<u32>,
}

/// Why a run of the connector ended in failure.
#[derive(Debug, PartialEq, Eq)]
pub enum Failure {
    /// The upstream source answered with an error.
    Rpc(RpcError),
    /// Anything else: the connection broke, the sign-in was refused, an
    /// event could not be handed on.
    Other,
}

/// The seconds that the upstream source asks to wait, where `failure` says
/// that its rate limit is reached.
pub open spec fn flood_wait(failure: Failure) -> Option<u32> {
    match failure {
        Failure::Rpc(error) => if error.code == FLOOD {
            error.value
        } else {
            None
        },
        Failure::Other => None,
    }
}

/// The seconds to wait before the next run, where `failure` is one that
/// passes: exactly as many as the upstream source asks, however many.
pub fn retry_delay(failure: &Failure) -> (seconds: Option<u32>)
    ensures
        seconds == flood_wait(*failure),
{
    match failure {
        Failure::Rpc(error) => {
            if error.code == FLOOD {
                error.value
            } else {
                None
            }
        },
        Failure::Other => None,
    }
}

/// Where the driver stands.
#[derive(Clone, Copy, Debug, PartialEq, Eq, Structural)]
pub enum Phase {
    /// A run of the connector is under way.
    Running,
    /// The last run failed at `since` and the next may start `delay`
    /// seconds later.
    Waiting { since: u64, delay: u32 },
    /// The last run ended well: the worker is done.
    Finished,
    /// The last run failed for good: the worker is done.
    Failed,
}

/// What the worker does next.
#[derive(Clone, Copy, Debug, PartialEq, Eq, Structural)]
pub enum Directive {
    /// Subscribe to the control channel anew and start a run.
    Connect,
    /// Sleep this many seconds, then tell the driver.
    Sleep { seconds: u64 },
    /// Return the output handle: the worker ended well.
    Return,
    /// Return the failure of the last run: the worker ended in failure.
    Fail,
    /// Nothing: a run is under way.
    Proceed,
}

/// The seconds from `since` to `now`, none where the clock stands before
/// `since`.
pub open spec fn elapsed(since: u64, now: u64) -> int {
    if now >= since {
        now - since
    } else {
        0
    }
}

/// The phase after a run ended with `result` at `now`, and what follows.
pub open spec fn exited(phase: Phase, result: Result<(), Failure>, now: u64) -> (Phase, Directive) {
    match phase {
        Phase::Running => match result {
            Ok(_) => (Phase::Finished, Directive::Return),
            Err(failure) => match flood_wait(failure) {
                Some(delay) => (
                    Phase::Waiting { since: now, delay },
                    Directive::Sleep { seconds: delay as u64 },
                ),
                None => (Phase::Failed, Directive::Fail),
            },
        },
        _ => woken(phase, now),
    }
}

/// The phase after the sleeper woke at `now`, and what follows.
pub open spec fn woken(phase: Phase, now: u64) -> (Phase, Directive) {
    match phase {
        Phase::Running => (phase, Directive::Proceed),
        Phase::Waiting { since, delay } => if elapsed(since, now) >= delay {
            (Phase::Running, Directive::Connect)
        } else {
            (phase, Directive::Sleep { seconds: (delay - elapsed(since, now)) as u64 })
        },
        Phase::Finished => (phase, Directive::Return),
        Phase::Failed => (phase, Directive::Fail),
    }
}

/// The driver of one connector worker. It keeps the worker's output handle
/// from run to run.
pub struct Driver<O> {
    output: O,
    phase: Phase,
}

impl<O> Driver<O> {
    /// The output handle that the driver keeps.
    pub closed spec fn output(&self) -> O {
        self.output
    }

    /// Where the driver stands.
    pub closed spec fn phase(&self) -> Phase {
        self.phase
    }

    /// The driver after a run ended with `result` at `now`.
    pub closed spec fn after_exit(self, result: Result<(), Failure>, now: u64) -> Self {
        Driver { output: self.output, phase: exited(self.phase, result, now).0 }
    }

    /// The driver after the sleeper woke at `now`.
    pub closed spec fn after_wake(self, now: u64) -> Self {
        Driver { output: self.output, phase: woken(self.phase, now).0 }
    }

    /// Nothing that happens to the driver touches the output handle: what
    /// was sent through it before a failure is not lost over the retry, and
    /// the next run sends through the same handle.
    pub proof fn lemma_output_is_kept(self, result: Result<(), Failure>, now: u64)
        ensures
            self.after_exit(result, now).output() == self.output(),
            self.after_wake(now).output() == self.output(),
            self.after_exit(result, now).phase() == exited(self.phase(), result, now).0,
            self.after_wake(now).phase() == woken(self.phase(), now).0,
    {
    }

    /// A driver whose first run is under way, with the worker's output
    /// handle.
    pub fn new(output: O) -> (driver: Self)
        ensures
            driver.output() == output,
            driver.phase() == Phase::Running,
    {
        Driver { output, phase: Phase::Running }
    }

    /// The output handle, for the run to send its events through.
    pub fn handle(&self) -> (output: &O)
        ensures
            *output == self.output(),
    {
        &self.output
    }

    /// Where the driver stands.
    pub fn standing(&self) -> (phase: Phase)
        ensures
            phase == self.phase(),
    {
        self.phase
    }

    /// Takes the output handle out of the driver, for the next generation.
    pub fn into_output(self) -> (output: O)
        ensures
            output == self.output(),
    {
        self.output
    }

    /// Is told that the run ended with `result` at `now`, and says what
    /// follows.
    pub fn on_exit(&mut self, result: Result<(), Failure>, now: u64) -> (directive: Directive)
        ensures
            *final(self) == old(self).after_exit(result, now),
            (final(self).phase(), directive) == exited(old(self).phase(), result, now),
            final(self).output() == old(self).output(),
    {
        match self.phase {
            Phase::Running => match result {
                Ok(_) => {
                    self.phase = Phase::Finished;
                    Directive::Return
                },
                Err(failure) => match retry_delay(&failure) {
                    Some(delay) => {
                        self.phase = Phase::Waiting { since: now, delay };
                        Directive::Sleep { seconds: delay as u64 }
                    },
                    None => {
                        self.phase = Phase::Failed;
                        Directive::Fail
                    },
                },
            },
            _ => self.on_wake(now),
        }
    }

    /// Is told that the sleeper woke at `now`, and says what follows.
    pub fn on_wake(&mut self, now: u64) -> (directive: Directive)
        ensures
            *final(self) == old(self).after_wake(now),
            (final(self).phase(), directive) == woken(old(self).phase(), now),
            final(self).output() == old(self).output(),
    {
        match self.phase {
            Phase::Running => Directive::Proceed,
            Phase::Waiting { since, delay } => {
                let passed: u64 = if now >= since {
                    now - since
                } else {
                    0
                };
                if passed >= delay as u64 {
                    self.phase = Phase::Running;
                    Directive::Connect
                } else {
                    Directive::Sleep { seconds: delay as u64 - passed }
                }
            },
            Phase::Finished => Directive::Return,
            Phase::Failed => Directive::Fail,
        }
    }
}

/// Backoff. A run fails at `failed_at` because the rate limit is reached,
/// with `delay` seconds to wait. Then the driver waits, and whenever the
/// sleeper wakes it later, it lets the next run start only if `delay`
/// seconds have passed since the failure; before that it asks to sleep the
/// rest.
pub proof fn lemma_retry_waits(failure: Failure, failed_at: u64, now: u64)
    requires
        flood_wait(failure) is Some,
        failed_at <= now,
    ensures
        ({
            let delay = flood_wait(failure)->0;
            let waiting = exited(Phase::Running, Err(failure), failed_at);
            let resumed = woken(waiting.0, now);
            &&& waiting == (
                Phase::Waiting { since: failed_at, delay },
                Directive::Sleep { seconds: delay as u64 },
            )
            &&& resumed.1 == Directive::Connect <==> now >= failed_at + delay
            &&& now < failed_at + delay ==> resumed == (
                waiting.0,
                Directive::Sleep { seconds: (failed_at + delay - now) as u64 },
            )
        }),
{
}

/// While the driver waits, nothing but the clock lets a run start: as long
/// as it is told of times before the wait is over, it stays as it is.
pub proof fn lemma_wait_holds(since: u64, delay: u32, now: u64)
    requires
        elapsed(since, now) < delay,
    ensures
        woken(Phase::Waiting { since, delay }, now).0 == (Phase::Waiting { since, delay }),
        exited(Phase::Waiting { since, delay }, Ok(()), now).0 == (Phase::Waiting { since, delay }),
{
}

/// A failure that does not pass ends the worker, and so does a run that
/// ends well: nothing starts a run again.
pub proof fn lemma_ended_stays(phase: Phase, result: Result<(), Failure>, now: u64)
    requires
        phase == Phase::Finished || phase == Phase::Failed,
    ensures
        woken(phase, now).0 == phase,
        exited(phase, result, now).0 == phase,
        woken(phase, now).1 != Directive::Connect,
        exited(phase, result, now).1 != Directive::Connect,
{
}

} // verus!
