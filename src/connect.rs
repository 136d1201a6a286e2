use vstd::prelude::*;

use crate::codes::{ERROR_FILE_NOT_FOUND, ERROR_IO_PENDING, ERROR_PIPE_BUSY, ERROR_PIPE_CONNECTED};
use crate::error::{os_result, PipeError};

verus! {

/// How an asynchronous accept on a fresh server endpoint went.
#[derive(Debug, Clone, Copy, PartialEq, Eq, Structural)]
pub enum Accepted {
    /// A peer was already waiting: the handshake is complete, and the
    /// operation's event must be signaled so that waiters see it.
    Connected,
    /// The accept is queued: its event is signaled when a peer arrives.
    Pending,
}

pub open spec fn accept_spec(returned: bool, last_error: u32) -> Result<Accepted, PipeError> {
    if returned {
        // an overlapped accept reports its progress only through the error code
        Err(PipeError::Os { code: last_error })
    } else if last_error == ERROR_IO_PENDING {
        Ok(Accepted::Pending)
    } else if last_error == ERROR_PIPE_CONNECTED {
        Ok(Accepted::Connected)
    } else {
        Err(PipeError::Os { code: last_error })
    }
}

/// Classifies an overlapped accept by the flag it returned and the thread's
/// last error code right after it.
pub fn accept_result(returned: bool, last_error: u32) -> (r: Result<Accepted, PipeError>)
    ensures
        r == accept_spec(returned, last_error),
{
    if returned {
        Err(PipeError::Os { code: last_error })
    } else if last_error == ERROR_IO_PENDING {
        Ok(Accepted::Pending)
    } else if last_error == ERROR_PIPE_CONNECTED {
        Ok(Accepted::Connected)
    } else {
        Err(PipeError::Os { code: last_error })
    }
}

/// What a client does after one attempt to open the named endpoint.
#[derive(Debug, Clone, Copy, PartialEq, Eq, Structural)]
pub enum ClientAction {
    /// The endpoint is open and connected.
    Ready,
    /// The endpoint is busy: wait until it accepts, then try again.
    WaitForServer,
    /// Give up with this error.
    Fail { error: PipeError },
}

pub open spec fn open_spec(opened: bool, last_error: u32) -> ClientAction {
    if opened {
        ClientAction::Ready
    } else if last_error == ERROR_PIPE_BUSY {
        ClientAction::WaitForServer
    } else {
        ClientAction::Fail { error: PipeError::Os { code: last_error } }
    }
}

/// Decides the client's next move from one open attempt: whether it
/// succeeded, and the last error code if it did not.
pub fn open_step(opened: bool, last_error: u32) -> (r: ClientAction)
    ensures
        r == open_spec(opened, last_error),
{
    if opened {
        ClientAction::Ready
    } else if last_error == ERROR_PIPE_BUSY {
        ClientAction::WaitForServer
    } else {
        ClientAction::Fail { error: PipeError::Os { code: last_error } }
    }
}

/// Decides whether the client tries again after waiting for a busy
/// endpoint: `Ok` to retry, the wait's error otherwise.
pub fn wait_step(waited: bool, last_error: u32) -> (r: Result<(), PipeError>)
    ensures
        waited ==> r == Ok::<(), PipeError>(()),
        !waited ==> r == Err::<(), PipeError>(PipeError::Os { code: last_error }),
{
    os_result(waited, last_error)
}

/// What the platform reported in one round of the client loop: the open
/// attempt, and the wait that follows it when the endpoint was busy.
#[derive(Debug, Clone, Copy, PartialEq, Eq, Structural)]
pub struct Attempt {
    pub opened: bool,
    pub open_error: u32,
    pub waited: bool,
    pub wait_error: u32,
}

/// How the client loop ends when the platform reports `rounds` in turn:
/// `None` while it is still retrying after the last of them.
pub open spec fn client_outcome(rounds: Seq<Attempt>) -> Option<Result<(), PipeError>>
    decreases rounds.len(),
{
    if rounds.len() == 0 {
        None
    } else {
        let a = rounds[0];
        match open_spec(a.opened, a.open_error) {
            ClientAction::Ready => Some(Ok(())),
            ClientAction::Fail { error } => Some(Err(error)),
            ClientAction::WaitForServer => if a.waited {
                client_outcome(rounds.drop_first())
            } else {
                Some(Err(PipeError::Os { code: a.wait_error }))
            },
        }
    }
}

/// A client whose target does not exist fails at its first attempt with the
/// platform's "not found" code, whatever the platform would report later.
pub proof fn lemma_missing_endpoint_fails_at_once(rounds: Seq<Attempt>)
    requires
        rounds.len() > 0,
        !rounds[0].opened,
        rounds[0].open_error == ERROR_FILE_NOT_FOUND,
    ensures
        client_outcome(rounds) == Some(Err::<(), PipeError>(PipeError::Os { code: ERROR_FILE_NOT_FOUND })),
        client_outcome(rounds) == client_outcome(rounds.take(1)),
{
}

/// A client that finds the endpoint busy, and whose waits succeed, keeps
/// retrying until an open succeeds, and then ends connected.
pub proof fn lemma_busy_retries_until_ready(rounds: Seq<Attempt>, k: int)
    requires
        0 <= k < rounds.len(),
        rounds[k].opened,
        forall|i: int|
            0 <= i < k ==> !(#[trigger] rounds[i]).opened && rounds[i].open_error == ERROR_PIPE_BUSY
                && rounds[i].waited,
    ensures
        client_outcome(rounds) == Some(Ok::<(), PipeError>(())),
    decreases k,
{
    if k > 0 {
        let rest = rounds.drop_first();
        assert(!rounds[0].opened && rounds[0].open_error == ERROR_PIPE_BUSY && rounds[0].waited);
        assert forall|i: int| 0 <= i < k - 1 implies !(#[trigger] rest[i]).opened && rest[i].open_error
            == ERROR_PIPE_BUSY && rest[i].waited by {
            assert(rest[i] == rounds[i + 1]);
        }
        lemma_busy_retries_until_ready(rest, k - 1);
    }
}

/// Busy is the only condition retried: any round whose open fails with
/// another code ends the loop with that code.
pub proof fn lemma_only_busy_is_retried(rounds: Seq<Attempt>)
    requires
        rounds.len() > 0,
        !rounds[0].opened,
        rounds[0].open_error != ERROR_PIPE_BUSY,
    ensures
        client_outcome(rounds) == Some(Err::<(), PipeError>(PipeError::Os { code: rounds[0].open_error })),
{
}

} // verus!
