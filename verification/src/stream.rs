//! One duplex byte channel over one pipe instance.
//!
//! A `PipeStream` owns the instance's handle plus the flag saying which
//! half of the channel it is. Only the server half actively severs the
//! connection on teardown, so the instance can be recycled; the flag is
//! set exactly by which constructor made the stream. The blocking
//! transfer calls happen outside the library; the functions here decide
//! what each call's raw result means, in particular the one read failure
//! that reads as end-of-stream instead of as an error.

use vstd::prelude::*;
use crate::codes::ERROR_PIPE_NOT_CONNECTED;
use crate::error::PipeError;
use crate::handle::Handle;

verus! {

/// A duplex byte channel over one pipe instance.
#[derive(Debug)]
pub struct PipeStream {
    server_half: bool,
    handle: Handle,
}

impl PipeStream {
    /// Whether this stream is the server half of its channel, i.e. came
    /// from an accept rather than from a connect or a raw handle.
    pub closed spec fn is_server_half(&self) -> bool {
        self.server_half
    }

    /// The identifier of the instance this stream owns.
    pub closed spec fn id(&self) -> usize {
        self.handle.id()
    }

    /// Wraps the handle a client-side open yielded. Client halves do not
    /// sever the connection on teardown.
    pub fn client(handle: Handle) -> (s: PipeStream)
        ensures
            !s.is_server_half(),
            s.id() == handle.id(),
    {
        PipeStream { server_half: false, handle }
    }

    /// Wraps the instance a successful accept connected. The server half
    /// severs the connection on teardown so the instance closes cleanly.
    pub fn server(handle: Handle) -> (s: PipeStream)
        ensures
            s.is_server_half(),
            s.id() == handle.id(),
    {
        PipeStream { server_half: true, handle }
    }

    /// Wraps an externally obtained raw handle as a client-side stream.
    pub fn from_raw_handle(raw: usize) -> (s: PipeStream)
        ensures
            !s.is_server_half(),
            s.id() == raw,
    {
        PipeStream { server_half: false, handle: Handle::from_raw(raw) }
    }

    /// Reads the raw handle without giving up ownership.
    pub fn as_raw_handle(&self) -> (r: usize)
        ensures
            r == self.id(),
    {
        self.handle.raw()
    }

    /// Transfers the raw handle out, bypassing the teardown behavior.
    pub fn into_raw_handle(self) -> (r: usize)
        ensures
            r == self.id(),
    {
        self.handle.into_raw()
    }

    /// Whether teardown of this stream must sever the connection before
    /// the handle is released: exactly on the server half.
    pub fn server_half(&self) -> (b: bool)
        ensures
            b == self.is_server_half(),
    {
        self.server_half
    }
}

/// What a blocking read's raw result means. `ok` is whether the platform
/// call reported success, `bytes_read` how many bytes it delivered, and
/// `err` the result code standing after a failure, if one was available.
/// The disconnected-peer code is the one failure translated to a
/// zero-length read (end-of-stream); every other code passes through
/// unchanged, and a failure without a code is a generic transport error.
pub fn read_outcome(ok: bool, bytes_read: u32, err: Option<u32>) -> (r: Result<
    usize,
    PipeError,
>)
    ensures
        ok ==> r == Ok::<usize, PipeError>(bytes_read as usize),
        !ok && err == Some(ERROR_PIPE_NOT_CONNECTED) ==> r == Ok::<usize, PipeError>(0),
        !ok && (err matches Some(e) && e != ERROR_PIPE_NOT_CONNECTED) ==> r == Err::<
            usize,
            PipeError,
        >(PipeError::Os(err->0)),
        !ok && err is None ==> r == Err::<usize, PipeError>(PipeError::Transport),
{
    if ok {
        Ok(bytes_read as usize)
    } else {
        match err {
            Some(e) => if e == ERROR_PIPE_NOT_CONNECTED {
                Ok(0)
            } else {
                Err(PipeError::Os(e))
            },
            None => Err(PipeError::Transport),
        }
    }
}

/// What a blocking write's raw result means: on success the count of
/// bytes actually written, on failure the platform's code unchanged, or
/// a generic transport error where no code was available.
pub fn write_outcome(ok: bool, bytes_written: u32, err: Option<u32>) -> (r: Result<
    usize,
    PipeError,
>)
    ensures
        ok ==> r == Ok::<usize, PipeError>(bytes_written as usize),
        !ok && (err matches Some(e)) ==> r == Err::<usize, PipeError>(PipeError::Os(err->0)),
        !ok && err is None ==> r == Err::<usize, PipeError>(PipeError::Transport),
{
    if ok {
        Ok(bytes_written as usize)
    } else {
        match err {
            Some(e) => Err(PipeError::Os(e)),
            None => Err(PipeError::Transport),
        }
    }
}

/// What a flush's raw result means: success, the platform's code
/// unchanged, or a generic transport error where no code was available.
pub fn flush_outcome(ok: bool, err: Option<u32>) -> (r: Result<(), PipeError>)
    ensures
        ok ==> r == Ok::<(), PipeError>(()),
        !ok && (err matches Some(e)) ==> r == Err::<(), PipeError>(PipeError::Os(err->0)),
        !ok && err is None ==> r == Err::<(), PipeError>(PipeError::Transport),
{
    if ok {
        Ok(())
    } else {
        match err {
            Some(e) => Err(PipeError::Os(e)),
            None => Err(PipeError::Transport),
        }
    }
}

} // verus!
