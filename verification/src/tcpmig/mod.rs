//! Migration of live TCP connections between backends.

pub mod active;
pub mod delay;
pub mod laws;
pub mod pacer;
pub mod peer;
pub mod segment;
