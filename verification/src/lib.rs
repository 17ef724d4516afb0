//! A duplex byte-stream abstraction over the platform's named-pipe
//! primitive, with stream-socket-like semantics: `connect` for clients,
//! `bind`/`accept` for servers, and ordinary read/write/flush on the
//! resulting connection.
//!
//! This crate holds the verified core: the handle lifecycle, the
//! listener's accept-rotation protocol, the pipe-path encoding, and the
//! explicit mapping from platform result codes to outcomes. The blocking
//! platform calls themselves live outside the library; they feed their
//! results (raw handle values and error codes) to the decision functions
//! here and act on what those return.

pub mod codes;
pub mod error;
pub mod handle;
pub mod path;
pub mod listener;
pub mod protocol;
pub mod stream;
