//! The client of the remote publish service.

pub mod client;
pub mod error;
pub mod header;
pub mod models;
