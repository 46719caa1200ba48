//! Secure-session support for Kerberos-style mechanisms: the handshake
//! lifecycle of a security context and the buffer handling that surrounds
//! the mechanism's message protection.

pub mod buffer;
pub mod context;
pub mod error;
pub mod protect;
pub mod session;
