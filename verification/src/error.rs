//! The library's error type.

use vstd::prelude::*;

verus! {

/// Why a pipe operation failed.
#[derive(Clone, Copy, Debug, PartialEq, Eq, Structural)]
pub enum PipeError {
    /// A bind or connect path contains an embedded NUL terminator.
    InvalidPath,
    /// The platform reported a failure; the originating result code is
    /// carried unchanged so callers can tell transient from fatal.
    Os(u32),
    /// The platform reported a failure but no result code was available.
    Transport,
}

} // verus!
