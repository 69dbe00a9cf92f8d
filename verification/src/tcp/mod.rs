//! TCP: the socket table, and the state of a connection on the move.

pub mod channel;
pub mod laws;
pub mod peer;
pub mod random;
pub mod state;
