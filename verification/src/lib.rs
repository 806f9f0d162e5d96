//! Ingress path of a network proxy: trust policy, protocol detection,
//! authentication, outbound routing and relay bookkeeping.

pub mod config;
pub mod proxy;
