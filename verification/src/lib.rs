//! A tool server that publishes short posts to LinkedIn on behalf of one
//! member.
//!
//! The crate holds the decisions of the server and none of its I/O: how a
//! publish request is built, how the remote answer becomes a result, how a
//! raw tool call is validated and dispatched, and how one client session moves
//! from handshake to close. Whoever embeds the crate performs the effects that
//! the session asks for and hands their outcomes back.

pub mod config;
pub mod json;
pub mod laws;
pub mod linkedin;
pub mod mcp;
pub mod schedule;
pub mod server;
pub mod text;
pub mod utils;
