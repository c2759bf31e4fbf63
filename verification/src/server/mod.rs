//! The server proper: the tool and its dispatcher, and the session of one
//! client.

pub mod handler;
pub mod tools;
