//! The server side of a gRPC call.
//!
//! The library decides what happens to a request from the moment the gRPC core reports it: which
//! handler serves it, what is answered when none does or when its message cannot be decoded, and
//! in which order the batches of a response are started and awaited. It performs no input or
//! output itself. What is to be done on a call is written down, in order, in the call's list of
//! operations ([`call::Call`]); what is to be awaited is asked for one batch at a time, and the
//! outcome is handed back. The crate's user performs the operations on the core.
pub mod call;
pub mod codec;
pub mod context;
pub mod deadline;
pub mod execute;
pub mod guarantees;
pub mod laws;
pub mod poll;
pub mod server;
pub mod status;
pub mod stream;
pub mod stream_sink;
pub mod unary_sink;
