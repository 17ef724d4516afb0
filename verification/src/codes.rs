//! Platform constants the protocol logic decides on.
//!
//! The values are fixed by the host platform's named-pipe interface.

use vstd::prelude::*;

verus! {

/// Result code reported by a read whose peer has gone away; the one read
/// failure translated to a zero-length (end-of-stream) result.
pub const ERROR_PIPE_NOT_CONNECTED: u32 = 233;

/// Result code reported by a connect-wait that raced with a client which
/// attached before the wait was issued; treated as a successful accept.
pub const ERROR_PIPE_CONNECTED: u32 = 535;

/// Open mode for a listener's pipe instance: both directions.
pub const PIPE_ACCESS_DUPLEX: u32 = 3;

/// Open-mode flag marking the first instance bound to a name, so that a
/// second bind of the same name fails instead of silently sharing it.
pub const FILE_FLAG_FIRST_PIPE_INSTANCE: u32 = 0x80000;

/// The raw value the platform returns in place of a handle when an open
/// or create call fails.
pub const INVALID_HANDLE_RAW: usize = usize::MAX;

} // verus!
