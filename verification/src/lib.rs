pub mod codec;
pub mod message;
pub mod handshake;
pub mod session;
pub mod connection;
