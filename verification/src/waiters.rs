//! Waiters for a server to reach a status.

use vstd::prelude::*;
use vstd::string::*;
use crate::error::{Error, ErrorKind};
use crate::protocol::{Request, RequestView, ServerData, ServerStatus};
use crate::server::Server;
use crate::waiting::{deletion_poll, Refresh, WaitSchedule, WaitStep};

verus! {

/// What one look at the status of a server tells a waiter.
#[derive(Clone, Copy, Debug, PartialEq, Eq, Structural)]
pub enum Verdict {
    /// The server has the awaited status.
    Reached,
    /// The server is broken and will not get there.
    Failed,
    /// Neither: look again later.
    Pending,
}

/// What a status tells a waiter for `target`. A broken server is a failure
/// whatever the target is, so no waiter succeeds on a broken server.
pub open spec fn verdict(status: ServerStatus, target: ServerStatus) -> Verdict {
    if status == ServerStatus::Error {
        Verdict::Failed
    } else if status == target {
        Verdict::Reached
    } else {
        Verdict::Pending
    }
}

/// Decides what a status tells a waiter for `target`.
pub fn judge(status: ServerStatus, target: ServerStatus) -> (v: Verdict)
    ensures
        v == verdict(status, target),
{
    if status == ServerStatus::Error {
        Verdict::Failed
    } else if status == target {
        Verdict::Reached
    } else {
        Verdict::Pending
    }
}

/// The message of a wait that ended because the server broke.
pub open spec fn failure_text(id: Seq<char>, target: ServerStatus) -> Seq<char> {
    "Server "@ + id + " got into ERROR state while waiting for state "@ + target.name()
}

/// The message of a wait that ran out of time.
pub open spec fn timeout_text(id: Seq<char>, target: ServerStatus) -> Seq<char> {
    "Timeout waiting for server "@ + id + " to reach state "@ + target.name()
}

/// The error of a wait that ended because the server broke. It names the
/// server and the status that was never reached.
pub fn failure_error(id: &String, target: ServerStatus) -> (e: Error)
    ensures
        e.kind == ErrorKind::OperationFailed,
        e.message@ == failure_text(id@, target),
{
    let message: String = String::from_str("Server ").concat(id.as_str()).concat(
        " got into ERROR state while waiting for state ",
    ).concat(target.as_str());
    Error::new(ErrorKind::OperationFailed, message)
}

/// The error of a wait that ran out of time. It names the server and the
/// status that was never reached.
pub fn timeout_error_for(id: &String, target: ServerStatus) -> (e: Error)
    ensures
        e.kind == ErrorKind::OperationTimedOut,
        e.message@ == timeout_text(id@, target),
{
    let message: String = String::from_str("Timeout waiting for server ").concat(
        id.as_str(),
    ).concat(" to reach state ").concat(target.as_str());
    Error::new(ErrorKind::OperationTimedOut, message)
}

/// Whether `e` is the failure of a wait for `target` on the broken server
/// `id`.
pub open spec fn is_failure(e: Error, id: Seq<char>, target: ServerStatus) -> bool {
    e.kind == ErrorKind::OperationFailed && e.message@ == failure_text(id, target)
}

/// Whether `r` is what a wait for `target` makes of the answer to one
/// refresh: a failure of the refresh is handed on as it is; with a
/// snapshot, the wait succeeds if the server has the awaited status, fails
/// if the server is broken, and goes on otherwise.
pub open spec fn is_status_poll<T>(
    r: Result<Option<T>, Error>,
    fetched: Result<ServerData, Error>,
    target: ServerStatus,
    reached: T,
) -> bool {
    match fetched {
        Err(e) => r == Err::<Option<T>, Error>(e),
        Ok(data) => match verdict(data.status, target) {
            Verdict::Reached => r == Ok::<Option<T>, Error>(Some(reached)),
            Verdict::Pending => r == Ok::<Option<T>, Error>(None),
            Verdict::Failed => r matches Err(e) && is_failure(e, data.id@, target),
        },
    }
}

/// The server after the answer to one refresh: with a snapshot, the server
/// with that snapshot; after a failure, the server as it was.
pub open spec fn after_refresh(server: Server, fetched: Result<ServerData, Error>) -> Server {
    match fetched {
        Ok(data) => server.refreshed(data),
        Err(_) => server,
    }
}

/// The timeout of a wait for a status, in milliseconds.
pub const STATUS_TIMEOUT: u64 = 600000;

/// The pause between two polls of a wait for a status, in milliseconds.
pub const STATUS_DELAY: u64 = 1000;

/// The timeout of a wait for a new server, in milliseconds.
pub const CREATION_TIMEOUT: u64 = 1800000;

/// The pause between two polls of a wait for a new server, in
/// milliseconds.
pub const CREATION_DELAY: u64 = 5000;

/// Waits for a server to reach a status. The waiter holds the server for
/// as long as it lives, so nothing else refreshes it meanwhile.
pub struct ServerStatusWaiter<'server> {
    pub server: &'server mut Server,
    pub target: ServerStatus,
}

impl<'server> ServerStatusWaiter<'server> {
    /// The server as the waiter knows it.
    pub open spec fn current(&self) -> Server {
        *self.server
    }

    /// The timeout used when the caller names none.
    pub fn default_wait_timeout(&self) -> (t: Option<u64>)
        ensures
            t == Some(STATUS_TIMEOUT),
    {
        Some(STATUS_TIMEOUT)
    }

    /// The pause used when the caller names none.
    pub fn default_delay(&self) -> (d: u64)
        ensures
            d == STATUS_DELAY,
    {
        STATUS_DELAY
    }

    /// The error of a wait that ran out of time.
    pub fn timeout_error(&self) -> (e: Error)
        ensures
            e.kind == ErrorKind::OperationTimedOut,
            e.message@ == timeout_text(self.current().inner.id@, self.target),
    {
        timeout_error_for(&self.server.inner.id, self.target)
    }

    /// The request that fetches the current snapshot of the server.
    pub fn refresh_request(&self) -> (r: Request)
        ensures
            r@ == (RequestView::GetServer { id: self.current().inner.id@ }),
    {
        self.server.refresh_request()
    }

    /// Takes the answer to one refresh. A failure of the refresh ends the
    /// wait with that failure and leaves the server as it was. A snapshot
    /// replaces the old one; the wait then succeeds if the server has the
    /// awaited status, fails if the server is broken, and goes on
    /// otherwise.
    pub fn poll(&mut self, fetched: Result<ServerData, Error>) -> (r: Result<Option<()>, Error>)
        ensures
            final(self).target == old(self).target,
            final(self).current() == after_refresh(old(self).current(), fetched),
            is_status_poll(r, fetched, old(self).target, ()),
    {
        match self.server.refresh(fetched) {
            Err(e) => Err(e),
            Ok(_) => {
                match judge(self.server.inner.status, self.target) {
                    Verdict::Reached => Ok(Some(())),
                    Verdict::Pending => Ok(None),
                    Verdict::Failed => Err(failure_error(&self.server.inner.id, self.target)),
                }
            },
        }
    }

    /// The server as of the last poll.
    pub fn waiter_current_state(&self) -> (s: &Server)
        ensures
            *s == self.current(),
    {
        &*self.server
    }
}

/// Waits for a new server to become active.
#[derive(Debug, PartialEq, Eq)]
pub struct ServerCreationWaiter {
    pub server: Server,
}

impl ServerCreationWaiter {
    /// A waiter for the new server `server`.
    pub fn new(server: Server) -> (w: ServerCreationWaiter)
        ensures
            w.server == server,
    {
        ServerCreationWaiter { server }
    }

    /// The timeout used when the caller names none.
    pub fn default_wait_timeout(&self) -> (t: Option<u64>)
        ensures
            t == Some(CREATION_TIMEOUT),
    {
        Some(CREATION_TIMEOUT)
    }

    /// The pause used when the caller names none.
    pub fn default_delay(&self) -> (d: u64)
        ensures
            d == CREATION_DELAY,
    {
        CREATION_DELAY
    }

    /// The error of a wait that ran out of time.
    pub fn timeout_error(&self) -> (e: Error)
        ensures
            e.kind == ErrorKind::OperationTimedOut,
            e.message@ == timeout_text(self.server.inner.id@, ServerStatus::Active),
    {
        timeout_error_for(&self.server.inner.id, ServerStatus::Active)
    }

    /// The request that fetches the current snapshot of the server.
    pub fn refresh_request(&self) -> (r: Request)
        ensures
            r@ == (RequestView::GetServer { id: self.server.inner.id@ }),
    {
        self.server.refresh_request()
    }

    /// Takes the answer to one refresh. A failure of the refresh ends the
    /// wait with that failure and leaves the server as it was. A snapshot
    /// replaces the old one; the wait then succeeds with the server if it
    /// is active, fails if it is broken, and goes on otherwise.
    pub fn poll(&mut self, fetched: Result<ServerData, Error>) -> (r: Result<
        Option<&Server>,
        Error,
    >)
        ensures
            final(self).server == after_refresh(old(self).server, fetched),
            is_status_poll(r, fetched, ServerStatus::Active, &final(self).server),
    {
        match self.server.refresh(fetched) {
            Err(e) => Err(e),
            Ok(_) => {
                match judge(self.server.inner.status, ServerStatus::Active) {
                    Verdict::Reached => Ok(Some(&self.server)),
                    Verdict::Pending => Ok(None),
                    Verdict::Failed => Err(
                        failure_error(&self.server.inner.id, ServerStatus::Active),
                    ),
                }
            },
        }
    }

    /// The server as of the last poll.
    pub fn waiter_current_state(&self) -> (s: &Server)
        ensures
            *s == self.server,
    {
        &self.server
    }
}

/// No wait succeeds on a broken server, whatever status it waits for.
pub proof fn lemma_no_success_on_broken_server(target: ServerStatus)
    ensures
        verdict(ServerStatus::Error, target) == Verdict::Failed,
{
}

/// A wait for a status whose server breaks before it gets there ends at
/// that poll with `OperationFailed`, in a message that names the server
/// and the status that was not reached. The wait does not go on.
pub proof fn lemma_broken_server_fails_wait<T>(
    schedule: WaitSchedule,
    elapsed: u64,
    data: ServerData,
    target: ServerStatus,
    reached: T,
    r: Result<Option<T>, Error>,
)
    requires
        data.status == ServerStatus::Error,
        is_status_poll(r, Ok::<ServerData, Error>(data), target, reached),
    ensures
        schedule.on_poll(r, elapsed) matches WaitStep::Done(Err(e)) && e.kind
            == ErrorKind::OperationFailed && e.message@ == failure_text(data.id@, target),
{
}

/// The service no longer knowing the server is what a wait for its
/// deletion waits for, and a failure to any wait for a status.
pub proof fn lemma_gone_ends_deletion_only<T>(
    gone: Error,
    target: ServerStatus,
    reached: T,
    r: Result<Option<T>, Error>,
)
    requires
        gone.kind == ErrorKind::ResourceNotFound,
        is_status_poll(r, Err::<ServerData, Error>(gone), target, reached),
    ensures
        deletion_poll(Err::<ServerData, Error>(gone)) == Ok::<Option<()>, Error>(Some(())),
        r == Err::<Option<T>, Error>(gone),
{
}

} // verus!
