//! Waiting for a change on the service side: when to poll, how long to
//! pause, and when to give up.
//!
//! All times are in milliseconds. The caller owns the clock: it reports the
//! time that has passed since the wait began, performs the pauses and the
//! refreshes, and hands each answer back.

use vstd::prelude::*;
use vstd::string::*;
use crate::error::{Error, ErrorKind};
use crate::protocol::{Request, RequestView};

verus! {

/// What happens next in a wait.
#[derive(Debug, PartialEq, Eq)]
pub enum WaitStep<T> {
    /// Refresh the entity and hand the answer to the waiter.
    Poll,
    /// Pause for this long, then look at the clock again.
    Sleep(u64),
    /// The wait is over, with this result.
    Done(Result<T, Error>),
}

/// How long a wait may last and how long it pauses between two polls.
#[derive(Clone, Copy, Debug, PartialEq, Eq, Structural)]
pub struct WaitSchedule {
    /// The longest time to wait; `None` waits for as long as it takes.
    pub timeout: Option<u64>,
    /// The pause between two polls.
    pub delay: u64,
}

impl WaitSchedule {
    /// The schedule that a waiter asks for by default.
    pub fn new(default_timeout: Option<u64>, default_delay: u64) -> (s: WaitSchedule)
        ensures
            s == (WaitSchedule { timeout: default_timeout, delay: default_delay }),
    {
        WaitSchedule { timeout: default_timeout, delay: default_delay }
    }

    /// This schedule with the caller's timeout in place of the waiter's.
    pub fn wait_for(self, timeout: u64) -> (s: WaitSchedule)
        ensures
            s == (WaitSchedule { timeout: Some(timeout), delay: self.delay }),
    {
        WaitSchedule { timeout: Some(timeout), delay: self.delay }
    }

    /// This schedule without a timeout.
    pub fn wait_forever(self) -> (s: WaitSchedule)
        ensures
            s == (WaitSchedule { timeout: None, delay: self.delay }),
    {
        WaitSchedule { timeout: None, delay: self.delay }
    }

    /// This schedule with the caller's pause in place of the waiter's.
    pub fn with_delay(self, delay: u64) -> (s: WaitSchedule)
        ensures
            s == (WaitSchedule { timeout: self.timeout, delay }),
    {
        WaitSchedule { timeout: self.timeout, delay }
    }

    /// Whether the wait has lasted longer than its timeout allows.
    pub open spec fn expired_at(self, elapsed: u64) -> bool {
        match self.timeout {
            Some(t) => elapsed > t,
            None => false,
        }
    }

    /// The pause after a poll that found nothing: the delay, cut short
    /// where the timeout would pass before the delay is over, so that the
    /// wait ends as soon as the timeout has passed.
    pub open spec fn pause_at(self, elapsed: u64) -> u64 {
        match self.timeout {
            Some(t) => if elapsed > t {
                0
            } else if t - elapsed < self.delay {
                (t - elapsed + 1) as u64
            } else {
                self.delay
            },
            None => self.delay,
        }
    }

    /// The step taken when the caller looks at the clock: give up with the
    /// waiter's timeout error once the timeout has passed, else poll.
    pub open spec fn on_wake<T>(self, elapsed: u64, timeout_error: Error) -> WaitStep<T> {
        if self.expired_at(elapsed) {
            WaitStep::Done(Err(timeout_error))
        } else {
            WaitStep::Poll
        }
    }

    /// The step taken when a poll has answered: a result or a failure ends
    /// the wait at once, anything else pauses.
    pub open spec fn on_poll<T>(self, outcome: Result<Option<T>, Error>, elapsed: u64)
        -> WaitStep<T> {
        match outcome {
            Ok(Some(value)) => WaitStep::Done(Ok(value)),
            Ok(None) => WaitStep::Sleep(self.pause_at(elapsed)),
            Err(e) => WaitStep::Done(Err(e)),
        }
    }

    /// Whether the wait has lasted longer than its timeout allows.
    pub fn expired(&self, elapsed: u64) -> (b: bool)
        ensures
            b == self.expired_at(elapsed),
    {
        match self.timeout {
            Some(t) => elapsed > t,
            None => false,
        }
    }

    /// The pause after a poll that found nothing.
    pub fn pause(&self, elapsed: u64) -> (ms: u64)
        ensures
            ms == self.pause_at(elapsed),
            ms <= self.delay,
    {
        match self.timeout {
            Some(t) => {
                if elapsed > t {
                    0
                } else if t - elapsed < self.delay {
                    t - elapsed + 1
                } else {
                    self.delay
                }
            },
            None => self.delay,
        }
    }

    /// Decides what to do when the caller looks at the clock, before the
    /// first poll and after each pause.
    pub fn wake<T>(&self, elapsed: u64, timeout_error: Error) -> (step: WaitStep<T>)
        ensures
            step == self.on_wake::<T>(elapsed, timeout_error),
    {
        if self.expired(elapsed) {
            WaitStep::Done(Err(timeout_error))
        } else {
            WaitStep::Poll
        }
    }

    /// Decides what to do with the answer of a poll.
    pub fn polled<T>(&self, outcome: Result<Option<T>, Error>, elapsed: u64) -> (step: WaitStep<T>)
        ensures
            step == self.on_poll(outcome, elapsed),
    {
        match outcome {
            Ok(Some(value)) => WaitStep::Done(Ok(value)),
            Ok(None) => WaitStep::Sleep(self.pause(elapsed)),
            Err(e) => WaitStep::Done(Err(e)),
        }
    }
}

/// An entity whose state is a snapshot that can be fetched again.
pub trait Refresh: Sized {
    /// What the service reports of the entity.
    type Snapshot;

    /// The identifier of the entity.
    spec fn ident(&self) -> Seq<char>;

    /// The entity with its snapshot replaced.
    spec fn refreshed(self, snapshot: Self::Snapshot) -> Self;

    /// The request that fetches the current snapshot, as text.
    spec fn fetch(&self) -> RequestView;

    /// The identifier of the entity.
    fn resource_id(&self) -> (id: String)
        ensures
            id@ == self.ident(),
    ;

    /// The request that fetches the current snapshot.
    fn refresh_request(&self) -> (r: Request)
        ensures
            r@ == self.fetch(),
    ;

    /// Takes the answer to the refresh request: a snapshot replaces the
    /// old one as a whole, a failure leaves the entity as it was.
    fn refresh(&mut self, fetched: Result<Self::Snapshot, Error>) -> (r: Result<(), Error>)
        ensures
            match fetched {
                Ok(snapshot) => r is Ok && *final(self) == old(self).refreshed(snapshot),
                Err(e) => r == Err::<(), Error>(e) && *final(self) == *old(self),
            },
    ;
}

/// What a wait for a deletion makes of the answer to one refresh: the
/// entity being unknown to the service is what it waits for, any other
/// failure ends it, and a snapshot means that the entity is still there.
pub open spec fn deletion_poll<S>(fetched: Result<S, Error>) -> Result<Option<()>, Error> {
    match fetched {
        Ok(_) => Ok(None),
        Err(e) => if e.kind == ErrorKind::ResourceNotFound {
            Ok(Some(()))
        } else {
            Err(e)
        },
    }
}

/// The message of a deletion that did not happen in time.
pub open spec fn deletion_timeout_text(id: Seq<char>) -> Seq<char> {
    "Timeout waiting for resource "@ + id + " to be deleted"@
}

/// Waits for an entity to be gone: the wait succeeds when the service no
/// longer knows the entity.
pub struct DeletionWaiter<T: Refresh> {
    pub inner: T,
    pub wait_timeout: u64,
    pub delay: u64,
}

impl<T: Refresh> DeletionWaiter<T> {
    /// A waiter for the deletion of `inner`.
    pub fn new(inner: T, wait_timeout: u64, delay: u64) -> (w: DeletionWaiter<T>)
        ensures
            w.inner == inner,
            w.wait_timeout == wait_timeout,
            w.delay == delay,
    {
        DeletionWaiter { inner, wait_timeout, delay }
    }

    /// The timeout used when the caller names none.
    pub fn default_wait_timeout(&self) -> (t: Option<u64>)
        ensures
            t == Some(self.wait_timeout),
    {
        Some(self.wait_timeout)
    }

    /// The pause used when the caller names none.
    pub fn default_delay(&self) -> (d: u64)
        ensures
            d == self.delay,
    {
        self.delay
    }

    /// The error of a wait that ran out of time. It names the entity.
    pub fn timeout_error(&self) -> (e: Error)
        ensures
            e.kind == ErrorKind::OperationTimedOut,
            e.message@ == deletion_timeout_text(self.inner.ident()),
    {
        let id: String = self.inner.resource_id();
        let message: String = String::from_str("Timeout waiting for resource ").concat(
            id.as_str(),
        ).concat(" to be deleted");
        Error::new(ErrorKind::OperationTimedOut, message)
    }

    /// The request that fetches the current snapshot of the entity.
    pub fn refresh_request(&self) -> (r: Request)
        ensures
            r@ == self.inner.fetch(),
    {
        self.inner.refresh_request()
    }

    /// Takes the answer to one refresh. The entity being unknown to the
    /// service is what this waiter waits for; any other failure ends the
    /// wait with that failure; a snapshot means the entity is still there.
    pub fn poll(&mut self, fetched: Result<T::Snapshot, Error>) -> (r: Result<Option<()>, Error>)
        ensures
            final(self).wait_timeout == old(self).wait_timeout,
            final(self).delay == old(self).delay,
            r == deletion_poll(fetched),
            final(self).inner == (match fetched {
                Ok(snapshot) => old(self).inner.refreshed(snapshot),
                Err(_) => old(self).inner,
            }),
    {
        match self.inner.refresh(fetched) {
            Ok(_) => Ok(None),
            Err(e) => {
                if e.is_not_found() {
                    Ok(Some(()))
                } else {
                    Err(e)
                }
            },
        }
    }

    /// The entity as of the last poll.
    pub fn waiter_current_state(&self) -> (s: &T)
        ensures
            *s == self.inner,
    {
        &self.inner
    }
}

/// One round of a wait: the caller looks at the clock, polls if the wait
/// is not over, and looks at the clock again when the answer is there.
pub struct Round<T> {
    /// The time that had passed when the caller looked at the clock.
    pub woke_at: u64,
    /// The answer of the poll.
    pub outcome: Result<Option<T>, Error>,
    /// The time that had passed when the answer was there.
    pub polled_at: u64,
}

/// How a wait ends that goes through `rounds` from `from` on: with the
/// first result or failure that a round gives. `None` if the rounds are
/// used up and the wait still goes on.
pub open spec fn wait_result<T>(
    schedule: WaitSchedule,
    timeout_error: Error,
    rounds: Seq<Round<T>>,
    from: int,
) -> Option<Result<T, Error>>
    decreases rounds.len() - from,
{
    if from < 0 || from >= rounds.len() {
        None
    } else {
        match schedule.on_wake::<T>(rounds[from].woke_at, timeout_error) {
            WaitStep::Done(result) => Some(result),
            _ => match schedule.on_poll(rounds[from].outcome, rounds[from].polled_at) {
                WaitStep::Done(result) => Some(result),
                _ => wait_result(schedule, timeout_error, rounds, from + 1),
            },
        }
    }
}

/// A wait in which no poll ever finds what it waits for, nor fails, ends
/// with the waiter's timeout error as soon as the caller finds the timeout
/// passed.
pub proof fn lemma_wait_times_out<T>(
    schedule: WaitSchedule,
    timeout_error: Error,
    rounds: Seq<Round<T>>,
    from: int,
    late: int,
)
    requires
        0 <= from <= late < rounds.len(),
        schedule.expired_at(rounds[late].woke_at),
        forall|k: int| from <= k < late ==> (#[trigger] rounds[k]).outcome == Ok::<
            Option<T>,
            Error,
        >(None),
    ensures
        wait_result(schedule, timeout_error, rounds, from) == Some(
            Err::<T, Error>(timeout_error),
        ),
    decreases late - from,
{
    if from < late && !schedule.expired_at(rounds[from].woke_at) {
        lemma_wait_times_out(schedule, timeout_error, rounds, from + 1, late);
    }
}

/// A wait ends with the first failure that a poll gives, if the timeout
/// has not passed by then: the failure is handed on as it is, and no
/// further poll is made.
pub proof fn lemma_wait_fails_at_once<T>(
    schedule: WaitSchedule,
    timeout_error: Error,
    rounds: Seq<Round<T>>,
    from: int,
    at: int,
    failure: Error,
)
    requires
        0 <= from <= at < rounds.len(),
        rounds[at].outcome == Err::<Option<T>, Error>(failure),
        forall|k: int| from <= k <= at ==> !schedule.expired_at((#[trigger] rounds[k]).woke_at),
        forall|k: int| from <= k < at ==> (#[trigger] rounds[k]).outcome == Ok::<
            Option<T>,
            Error,
        >(None),
    ensures
        wait_result(schedule, timeout_error, rounds, from) == Some(Err::<T, Error>(failure)),
    decreases at - from,
{
    if from < at {
        lemma_wait_fails_at_once(schedule, timeout_error, rounds, from + 1, at, failure);
    }
}

/// A pause never lasts longer than the delay, and a pause that begins
/// before the timeout has passed ends no later than the moment after it.
pub proof fn lemma_pause_is_bounded(schedule: WaitSchedule, elapsed: u64)
    ensures
        schedule.pause_at(elapsed) <= schedule.delay,
        schedule.timeout is Some && elapsed <= schedule.timeout->0 ==> elapsed
            + schedule.pause_at(elapsed) <= schedule.timeout->0 + 1,
{
}

} // verus!
