//! Verified core of a QUIC tunnel server: the login handshake, the registry of
//! public listener ports, the per-session decisions and the transport settings.

pub mod addr;
pub mod cert;
pub mod config;
pub mod frame;
pub mod info_bridge;
pub mod login;
pub mod ports;
pub mod session;
