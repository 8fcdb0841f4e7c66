//! Wire formats of messages.

pub mod msgpack;
