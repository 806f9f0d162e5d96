//! Configuration values handed to the ingress pipeline.

use vstd::prelude::*;
use crate::proxy::base::SupportedProtocols;

verus! {

/// How the outbound side reaches the destination of a routed stream.
#[derive(Clone, Copy, Debug, PartialEq, Eq, Structural)]
pub enum ForwardingMode {
    /// Connect to the host and port that the peer asked for.
    DirectConnect,
    /// Ignore the requested destination and connect to one fixed upstream.
    FixedUpstream,
    /// Connect to another proxy and let it reach the requested destination.
    UpstreamProxyChain,
}

/// One inbound binding: where to listen, which protocols to recognise, and
/// the secret that peers must present, if any.
pub struct InboundConfig {
    pub address: String,
    pub port: u16,
    pub protocol: SupportedProtocols,
    pub secret: Option<String>,
    pub tls: bool,
    /// Number of initial bytes after which an unclassified stream is given up.
    pub detect_budget: usize,
}

/// Static outbound policy: the forwarding mode and, for the two upstream
/// modes, the upstream's address.
#[derive(Debug)]
pub struct OutboundConfig {
    pub mode: ForwardingMode,
    pub upstream: Option<(String, u16)>,
}

} // verus!
