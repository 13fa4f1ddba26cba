//! A ping/pong RPC client core and the request glue of its web front end.
//!
//! The crate holds the decisions of the client, not its I/O. A caller owns
//! the transport and the asynchronous runtime; it performs each [`lifecycle::Action`]
//! that the session hands out and feeds the outcome back as a
//! [`lifecycle::Event`]. Every function states its behaviour over the
//! mathematical view of its arguments.

pub mod error;
pub mod frontend;
pub mod json;
pub mod lifecycle;
pub mod message;
pub mod run;
pub mod text;
