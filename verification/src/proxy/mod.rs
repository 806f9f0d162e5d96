//! The accept, identify, authenticate, dispatch and relay pipeline.

pub mod acceptor;
pub mod base;
pub mod connection;
pub mod handler;
pub mod relay;
pub mod tcp_server;
