//! Static configuration and the TLS trust policy derived from it.

pub mod base;
pub mod tls;
