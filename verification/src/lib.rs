//! TCP peer with live connection migration.
//!
//! The crate decides; it performs no I/O. A network driver feeds it what the
//! wire, the sockets and the runtime said, and carries out what comes back:
//!
//! * [`tcp::peer::SharedTcpPeer`] keeps the table of bound and connected
//!   sockets and routes every incoming segment to one of them;
//! * [`tcpmig::peer::TcpMigPeer`] tracks the connections that are moving to or
//!   from another backend;
//! * [`tcp::state::TcpState`] is the connection state that travels between
//!   backends.

pub mod address;
pub mod buffer;
pub mod fail;
pub mod frame;
pub mod table;
pub mod tcp;
pub mod tcpmig;
