use vstd::prelude::*;

verus! {

/// The named endpoint does not exist.
pub const ERROR_FILE_NOT_FOUND: u32 = 2;

/// The named endpoint exists but has no free accepting instance.
pub const ERROR_PIPE_BUSY: u32 = 231;

/// A wait ended because its interval elapsed.
pub const WAIT_TIMEOUT: u32 = 258;

/// A peer connected before the accept was issued.
pub const ERROR_PIPE_CONNECTED: u32 = 535;

/// An asynchronous request was queued and will complete later.
pub const ERROR_IO_PENDING: u32 = 997;

/// A wait ended because the object was signaled.
pub const WAIT_OBJECT_0: u32 = 0;

/// Wait interval that never elapses.
pub const INFINITE: u32 = 0xFFFF_FFFF;

/// Buffer size of a server endpoint, in each direction.
pub const IO_SIZE: u32 = 65536;

/// Number of peers a server endpoint accepts at once.
pub const MAX_INSTANCES: u32 = 1;

} // verus!
