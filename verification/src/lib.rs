//! A seat daemon: a server that hands one client at a time the right to open
//! graphics, input and terminal devices, and the client calls and command line
//! that talk to it.
pub mod cli;
pub mod client;
pub mod drm;
pub mod error;
pub mod laws;
pub mod protocol;
pub mod server;
pub mod text;
pub mod vt;

pub use error::SeatError;
pub use protocol::{Event, Request, Response, ServerMessage, SOCKET_PATH};
