//! Exclusive ownership of one native pipe-instance resource.

use vstd::prelude::*;
use crate::codes::INVALID_HANDLE_RAW;
use crate::error::PipeError;

verus! {

/// The owner of one native pipe-instance resource, named by its raw
/// identifier. A `Handle` is never copied or cloned: ownership of the
/// identifier transfers by move, so at most one `Handle` value owns a
/// given live resource. Release of the resource is the duty of whatever
/// unverified shell finally takes the identifier back out.
#[derive(Debug)]
pub struct Handle {
    raw: usize,
}

impl Handle {
    /// The raw identifier this handle owns.
    pub closed spec fn id(&self) -> usize {
        self.raw
    }

    /// Takes ownership of a raw identifier the platform handed out.
    pub fn from_raw(raw: usize) -> (h: Handle)
        ensures
            h.id() == raw,
    {
        Handle { raw }
    }

    /// Reads the identifier without giving up ownership, for issuing
    /// platform calls against the resource.
    pub fn raw(&self) -> (r: usize)
        ensures
            r == self.id(),
    {
        self.raw
    }

    /// Gives the identifier up, transferring ownership out of the
    /// library.
    pub fn into_raw(self) -> (r: usize)
        ensures
            r == self.id(),
    {
        self.raw
    }

    /// Turns the result of a platform open or create call into an owned
    /// handle, or into the error the platform reported. `raw` is what the
    /// call returned and `err` the result code standing after it; the
    /// platform signals failure by returning its reserved invalid value.
    pub fn opened(raw: usize, err: u32) -> (r: Result<Handle, PipeError>)
        ensures
            raw != INVALID_HANDLE_RAW ==> (r matches Ok(h) && h.id() == raw),
            raw == INVALID_HANDLE_RAW ==> r == Err::<Handle, PipeError>(PipeError::Os(err)),
    {
        if raw != INVALID_HANDLE_RAW {
            Ok(Handle { raw })
        } else {
            Err(PipeError::Os(err))
        }
    }
}

} // verus!
