//! What the tool exchanges with its caller: the request, the result and the
//! faults of the protocol.

pub mod error;
pub mod models;
