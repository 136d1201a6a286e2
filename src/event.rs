use vstd::prelude::*;

use crate::codes::{WAIT_OBJECT_0, WAIT_TIMEOUT};
use crate::error::PipeError;

verus! {

/// The platform flag that asks for a manual-reset event (`1`) rather than
/// an auto-reset one (`0`).
pub fn manual_reset_flag(manual: bool) -> (r: i32)
    ensures
        manual ==> r == 1,
        !manual ==> r == 0,
{
    if manual {
        1
    } else {
        0
    }
}

/// Classifies what a wait on an event returned: `Ok(true)` when a signal
/// released it, `Ok(false)` when its interval elapsed, and otherwise the
/// thread's last error code.
pub fn wait_result(returned: u32, last_error: u32) -> (r: Result<bool, PipeError>)
    ensures
        returned == WAIT_OBJECT_0 ==> r == Ok::<bool, PipeError>(true),
        returned == WAIT_TIMEOUT ==> r == Ok::<bool, PipeError>(false),
        returned != WAIT_OBJECT_0 && returned != WAIT_TIMEOUT ==> r == Err::<bool, PipeError>(
            PipeError::Os { code: last_error },
        ),
{
    if returned == WAIT_OBJECT_0 {
        Ok(true)
    } else if returned == WAIT_TIMEOUT {
        Ok(false)
    } else {
        Err(PipeError::Os { code: last_error })
    }
}

} // verus!
