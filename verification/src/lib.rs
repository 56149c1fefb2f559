//! Connection-acceptance and request/response dispatch core of an
//! asynchronous HTTP/1.x server.
//!
//! The library models the per-connection binding and dispatch loop, the
//! adapter between wire-oriented messages (a head with an optional body) and
//! the uniform request/response contract handed to handlers, and the
//! shutdown controller for the listening socket and its driving loop.
//! Sockets, timers and the scheduler itself live outside the library; the
//! decisions they feed are verified here.

pub mod acceptor;
pub mod body;
pub mod codec;
pub mod conn;
pub mod dispatch;
pub mod error;
pub mod handler;
pub mod message;
pub mod server;
pub mod shutdown;
