use vstd::prelude::*;

verus! {

/// Why an operation on an event or an endpoint did not succeed.
#[derive(Debug, Clone, Copy, PartialEq, Eq, Structural)]
pub enum PipeError {
    /// A platform call failed with this native error code.
    Os { code: u32 },
    /// A transfer was attempted before the connect handshake completed.
    NotConnected,
    /// The named endpoint exists but has no free accepting instance.
    EndpointBusy,
    /// The peer closed the channel in order: zero bytes and no error.
    PeerClosed,
}

/// Result of a platform call that reports success as a flag and failure
/// through the thread's last error code.
pub fn os_result(ok: bool, last_error: u32) -> (r: Result<(), PipeError>)
    ensures
        ok ==> r == Ok::<(), PipeError>(()),
        !ok ==> r == Err::<(), PipeError>(PipeError::Os { code: last_error }),
{
    if ok {
        Ok(())
    } else {
        Err(PipeError::Os { code: last_error })
    }
}

impl PipeError {
    /// The native error code carried by an `Os` error.
    pub fn os_code(&self) -> (r: Option<u32>)
        ensures
            r == (match *self {
                PipeError::Os { code } => Some(code),
                _ => None,
            }),
    {
        match self {
            PipeError::Os { code } => Some(*code),
            _ => None,
        }
    }
}

} // verus!
