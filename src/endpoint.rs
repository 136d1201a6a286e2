use vstd::prelude::*;

use crate::codes::ERROR_IO_PENDING;
use crate::connect::Accepted;
use crate::error::PipeError;

verus! {

/// Where an endpoint stands in its life.
#[derive(Debug, Clone, Copy, PartialEq, Eq, Structural)]
pub enum Phase {
    /// The accept is queued and its event not yet observed.
    Connecting,
    /// The handshake has observably completed; transfers are allowed.
    Connected,
    /// Completing the handshake failed; nothing more can happen.
    Failed,
    /// The endpoint has been torn down.
    Closed,
}

/// The connection state of one endpoint. Only the transitions below change
/// it, so `Connected` means that the handshake did complete.
#[derive(Debug)]
pub struct PipeState {
    phase: Phase,
}

impl View for PipeState {
    type V = Phase;

    closed spec fn view(&self) -> Phase {
        self.phase
    }
}

/// How many disconnects an endpoint in phase `p` issues when it is closed
/// `closes` times.
pub open spec fn disconnects(p: Phase, closes: nat) -> nat
    decreases closes,
{
    if closes == 0 {
        0
    } else {
        (if p is Connected { 1nat } else { 0nat }) + disconnects(Phase::Closed, (closes - 1) as nat)
    }
}

/// An endpoint that is closed, once or more, disconnects exactly once if it
/// was connected and never otherwise.
pub proof fn lemma_disconnect_at_most_once(p: Phase, closes: nat)
    requires
        closes >= 1,
    ensures
        disconnects(p, closes) == (if p is Connected { 1nat } else { 0nat }),
    decreases closes,
{
    if closes > 1 {
        lemma_disconnect_at_most_once(Phase::Closed, (closes - 1) as nat);
    } else {
        assert(disconnects(Phase::Closed, 0) == 0);
    }
}

/// How a submitted transfer went when the submitting call returned.
#[derive(Debug, Clone, Copy, PartialEq, Eq, Structural)]
pub enum Submission {
    /// It completed at once, moving this many bytes.
    Complete { transferred: u32 },
    /// It is queued: wait on its event, then collect its result.
    Pending,
}

/// Classifies a submitted overlapped read or write by the flag the call
/// returned, the byte count it reported, and the last error code after it.
pub fn submit_result(returned: bool, transferred: u32, last_error: u32) -> (r: Result<Submission, PipeError>)
    ensures
        returned ==> r == Ok::<Submission, PipeError>(Submission::Complete { transferred }),
        !returned && last_error == ERROR_IO_PENDING ==> r == Ok::<Submission, PipeError>(Submission::Pending),
        !returned && last_error != ERROR_IO_PENDING ==> r == Err::<Submission, PipeError>(
            PipeError::Os { code: last_error },
        ),
{
    if returned {
        Ok(Submission::Complete { transferred })
    } else if last_error == ERROR_IO_PENDING {
        Ok(Submission::Pending)
    } else {
        Err(PipeError::Os { code: last_error })
    }
}

/// Decides a finished write: it succeeds only when the platform reports
/// success and the whole buffer moved; a short write is a failure.
pub fn write_finished(requested: u32, ok: bool, written: u32, last_error: u32) -> (r: Result<(), PipeError>)
    ensures
        r is Ok <==> ok && written == requested,
        r is Err ==> r == Err::<(), PipeError>(PipeError::Os { code: last_error }),
{
    if ok && written == requested {
        Ok(())
    } else {
        Err(PipeError::Os { code: last_error })
    }
}

/// Decides a finished read: the byte count when data arrived, `PeerClosed`
/// when the peer closed in order (zero bytes and no error), and the
/// platform's error otherwise.
pub fn read_finished(ok: bool, received: u32, last_error: u32) -> (r: Result<u32, PipeError>)
    ensures
        !ok ==> r == Err::<u32, PipeError>(PipeError::Os { code: last_error }),
        ok && received == 0 ==> r == Err::<u32, PipeError>(PipeError::PeerClosed),
        ok && received > 0 ==> r == Ok::<u32, PipeError>(received),
{
    if !ok {
        Err(PipeError::Os { code: last_error })
    } else if received == 0 {
        Err(PipeError::PeerClosed)
    } else {
        Ok(received)
    }
}

impl PipeState {
    /// The state of a server endpoint after its accept was issued.
    pub fn for_server(accepted: Accepted) -> (r: PipeState)
        ensures
            r@ == (match accepted {
                Accepted::Connected => Phase::Connected,
                Accepted::Pending => Phase::Connecting,
            }),
    {
        match accepted {
            Accepted::Connected => PipeState { phase: Phase::Connected },
            Accepted::Pending => PipeState { phase: Phase::Connecting },
        }
    }

    /// The state of a client endpoint, which is connected once opened.
    pub fn for_client() -> (r: PipeState)
        ensures
            r@ == Phase::Connected,
    {
        PipeState { phase: Phase::Connected }
    }

    pub fn phase(&self) -> (r: Phase)
        ensures
            r == self@,
    {
        self.phase
    }

    pub fn is_connected(&self) -> (r: bool)
        ensures
            r == (self@ == Phase::Connected),
    {
        match self.phase {
            Phase::Connected => true,
            _ => false,
        }
    }

    /// Records the outcome of waiting on the accept's event: `Ok(true)` when
    /// the endpoint is connected, `Ok(false)` when the wait ended unsignaled
    /// and the accept is still pending. A failed wait fails the endpoint.
    pub fn complete_connect(&mut self, wait: Result<bool, PipeError>) -> (r: Result<bool, PipeError>)
        ensures
            old(self)@ == Phase::Connected ==> r == Ok::<bool, PipeError>(true) && final(self)@ == Phase::Connected,
            old(self)@ == Phase::Connecting ==> match wait {
                Ok(true) => r == Ok::<bool, PipeError>(true) && final(self)@ == Phase::Connected,
                Ok(false) => r == Ok::<bool, PipeError>(false) && final(self)@ == Phase::Connecting,
                Err(e) => r == Err::<bool, PipeError>(e) && final(self)@ == Phase::Failed,
            },
            (old(self)@ == Phase::Failed || old(self)@ == Phase::Closed) ==> r == Err::<bool, PipeError>(
                PipeError::NotConnected,
            ) && final(self)@ == old(self)@,
    {
        match self.phase {
            Phase::Connected => Ok(true),
            Phase::Connecting => match wait {
                Ok(true) => {
                    self.phase = Phase::Connected;
                    Ok(true)
                },
                Ok(false) => Ok(false),
                Err(e) => {
                    self.phase = Phase::Failed;
                    Err(e)
                },
            },
            _ => Err(PipeError::NotConnected),
        }
    }

    /// Admits a transfer of `len` bytes: only a connected endpoint may
    /// transfer, and the length is handed on as the platform's count.
    pub fn begin_transfer(&self, len: usize) -> (r: Result<u32, PipeError>)
        requires
            len <= u32::MAX,
        ensures
            self@ == Phase::Connected ==> r == Ok::<u32, PipeError>(len as u32),
            self@ != Phase::Connected ==> r == Err::<u32, PipeError>(PipeError::NotConnected),
    {
        if self.is_connected() {
            Ok(len as u32)
        } else {
            Err(PipeError::NotConnected)
        }
    }

    /// Tears the endpoint down and says whether a disconnect must be issued:
    /// only when it was connected. A closed endpoint stays closed, so this
    /// says so at most once.
    pub fn close(&mut self) -> (r: bool)
        ensures
            r == (old(self)@ == Phase::Connected),
            final(self)@ == Phase::Closed,
            disconnects(old(self)@, 1) == (if r { 1nat } else { 0nat }),
    {
        let was_connected = self.is_connected();
        self.phase = Phase::Closed;
        proof {
            lemma_disconnect_at_most_once(old(self)@, 1);
        }
        was_connected
    }
}

} // verus!
