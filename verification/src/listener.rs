//! The listener and its accept-rotation protocol.
//!
//! A listener bound to a path owns, at every moment it is not mid-accept,
//! one live not-yet-connected pipe instance — the "next" instance — so a
//! client attempting to attach always finds one. An accept first rotates
//! a freshly created instance into that slot and only then waits on the
//! one rotated out; the wait's raw result is interpreted by
//! [`connect_wait_outcome`], which treats the benign already-attached
//! race as success. Whatever the wait says, the listener is already armed
//! again for the next client.

use vstd::prelude::*;
use crate::codes::{ERROR_PIPE_CONNECTED, FILE_FLAG_FIRST_PIPE_INSTANCE, PIPE_ACCESS_DUPLEX};
use crate::error::PipeError;
use crate::handle::Handle;
use crate::path::wf_pipe_path;

verus! {

/// A listener bound to a pipe path, holding the instance the next client
/// will attach to.
#[derive(Debug)]
pub struct PipeListener {
    path: Vec<u16>,
    next_pipe: Handle,
}

/// How one accept changes a listener: the instance that was armed is
/// handed out, the freshly created one is armed in its place, and the
/// bind path stays what it was. This holds before the wait on the
/// handed-out instance even begins, so it holds whether that wait
/// succeeds or fails.
pub open spec fn rotation(
    pre: PipeListener,
    post: PipeListener,
    fresh: Handle,
    prev: Handle,
) -> bool {
    &&& prev.id() == pre.next_id()
    &&& post.next_id() == fresh.id()
    &&& post.path_units() == pre.path_units()
}

impl PipeListener {
    /// The encoded bind path, as handed to every instance-creation call.
    pub closed spec fn path_units(&self) -> Seq<u16> {
        self.path@
    }

    /// The identifier of the armed not-yet-connected instance.
    pub closed spec fn next_id(&self) -> usize {
        self.next_pipe.id()
    }

    /// A well-formed listener: its path is a well-formed encoded pipe
    /// path, so every later instance creation addresses the bound name.
    pub open spec fn wf(&self) -> bool {
        wf_pipe_path(self.path_units())
    }

    /// Assembles the listener a bind produces: the encoded path together
    /// with the first instance, created at bind time and armed at once,
    /// so a client connecting before any accept already finds it.
    pub fn bound(path: Vec<u16>, first: Handle) -> (l: PipeListener)
        requires
            wf_pipe_path(path@),
        ensures
            l.wf(),
            l.path_units() == path@,
            l.next_id() == first.id(),
    {
        PipeListener { path, next_pipe: first }
    }

    /// Reads the encoded path, for creating further instances of the
    /// bound name.
    pub fn path_vec(&self) -> (p: &Vec<u16>)
        ensures
            p@ == self.path_units(),
    {
        &self.path
    }

    /// Reads the identifier of the armed instance, for issuing platform
    /// calls against it — in particular releasing it when the listener
    /// is torn down.
    pub fn next_raw(&self) -> (r: usize)
        ensures
            r == self.next_id(),
    {
        self.next_pipe.raw()
    }

    /// The rotation step of an accept: arms `fresh` as the next instance
    /// and hands the previously armed one out, to be waited on. Ownership
    /// moves in and out; the two handles are never aliased.
    pub fn rotate_next(&mut self, fresh: Handle) -> (prev: Handle)
        ensures
            rotation(*old(self), *final(self), fresh, prev),
            old(self).wf() ==> final(self).wf(),
    {
        let mut h = fresh;
        core::mem::swap(&mut self.next_pipe, &mut h);
        h
    }
}

/// The open mode for creating a pipe instance: duplex, and for the
/// instance created at bind time also the marker that makes a second
/// bind of the same name fail instead of sharing it.
pub fn listener_open_flags(first: bool) -> (f: u32)
    ensures
        first ==> f == PIPE_ACCESS_DUPLEX | FILE_FLAG_FIRST_PIPE_INSTANCE,
        !first ==> f == PIPE_ACCESS_DUPLEX,
{
    if first {
        PIPE_ACCESS_DUPLEX | FILE_FLAG_FIRST_PIPE_INSTANCE
    } else {
        PIPE_ACCESS_DUPLEX
    }
}

/// What the raw result of the wait-for-client call means. `ok` is whether
/// the platform reported success and `err` the result code standing after
/// a failure, if one was available. The already-attached code signals the
/// benign race — a client attached before the wait was issued — and is
/// the one failure treated as a successful accept; every other code
/// aborts the accept with that code unchanged, and a failure without a
/// code is a generic transport error.
pub fn connect_wait_outcome(ok: bool, err: Option<u32>) -> (r: Result<(), PipeError>)
    ensures
        r is Ok <==> (ok || err == Some(ERROR_PIPE_CONNECTED)),
        !ok && (err matches Some(e) && e != ERROR_PIPE_CONNECTED) ==> r == Err::<
            (),
            PipeError,
        >(PipeError::Os(err->0)),
        !ok && err is None ==> r == Err::<(), PipeError>(PipeError::Transport),
{
    if ok {
        Ok(())
    } else {
        match err {
            Some(e) => if e == ERROR_PIPE_CONNECTED {
                Ok(())
            } else {
                Err(PipeError::Os(e))
            },
            None => Err(PipeError::Transport),
        }
    }
}

} // verus!
