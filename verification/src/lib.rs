//! Verified core of an execution bridge: it frames the JSON-RPC handshake
//! written to a child process, translates the child's output lines into a
//! typed event sequence, and enforces that every session ends in exactly one
//! terminal event.

pub mod auth;
pub mod event;
pub mod jsonrpc;
pub mod locate;
pub mod payload;
pub mod record;
pub mod session;
pub mod textfmt;
pub mod types;
