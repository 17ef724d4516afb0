//! Encoding a bind/connect path for the platform.
//!
//! The platform addresses pipes by NUL-terminated wide-character strings.
//! The caller supplies the path already widened to its code units; this
//! module owns the one piece of logic in the step: a path holding an
//! embedded NUL is rejected as invalid input, every other path gets the
//! terminator appended.

use vstd::prelude::*;
use crate::error::PipeError;

verus! {

/// A well-formed encoded pipe path: non-empty, NUL-terminated, and NUL
/// appears nowhere but as the terminator.
pub open spec fn wf_pipe_path(p: Seq<u16>) -> bool {
    &&& p.len() > 0
    &&& p.last() == 0
    &&& forall|i: int| 0 <= i < p.len() - 1 ==> p[i] != 0
}

/// Encodes a path for the platform: appends the NUL terminator, unless
/// the path itself contains one, which is rejected as invalid input.
pub fn encode_pipe_path(units: Vec<u16>) -> (r: Result<Vec<u16>, PipeError>)
    ensures
        r is Err <==> units@.contains(0u16),
        r is Err ==> r == Err::<Vec<u16>, PipeError>(PipeError::InvalidPath),
        r matches Ok(p) ==> p@ == units@.push(0u16),
        r matches Ok(p) ==> wf_pipe_path(p@),
{
    let mut i: usize = 0;
    while i < units.len()
        invariant
            i <= units@.len(),
            forall|j: int| 0 <= j < i ==> units@[j] != 0,
        decreases units@.len() - i,
    {
        if units[i] == 0 {
            return Err(PipeError::InvalidPath);
        }
        i += 1;
    }
    assert(!units@.contains(0u16));
    let mut p = units;
    p.push(0);
    Ok(p)
}

} // verus!
