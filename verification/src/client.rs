pub mod error;
pub mod handshake;
pub mod session;
