//! What the server needs besides its protocol.

pub mod logging;
