//! Conversion of media files into mono 16-bit PCM at a fixed rate, offered as
//! a local service.
//!
//! The library holds the decisions of that service: the decoding pipeline and
//! the server as state machines that are driven by the outcomes of the
//! operations they ask for, and the wire format of requests and responses.

pub mod endpoint;
pub mod pipeline;
pub mod request;
pub mod response;
pub mod server;
pub mod trace;
