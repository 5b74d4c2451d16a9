//! What the operations of the library do, in terms of what they are given and what they give.
//!
//! Each statement is about the operation itself, for everything it can be called with.
pub mod calls;
pub mod execution;
pub mod handlers;
pub mod messages;
pub mod replies;
pub mod requests;
pub mod streams;
pub mod time;
