//! Routes an accepted stream to its outbound destination and reports how
//! the dispatch ended.

use vstd::prelude::*;
use crate::config::base::{ForwardingMode, OutboundConfig};
use crate::proxy::acceptor::RoutedStream;
use crate::proxy::relay::{DispatchError, RelaySession};

verus! {

/// Why a configuration cannot be served.
#[derive(Clone, Copy, Debug, PartialEq, Eq, Structural)]
pub enum ConfigError {
    /// An upstream forwarding mode was selected without an upstream address.
    MissingUpstream,
}

/// Where the outbound connection of a routed stream is opened.
#[derive(Debug)]
pub struct OutboundTarget {
    pub host: String,
    pub port: u16,
    pub forwarding_mode: ForwardingMode,
}

/// The handler of one server: the forwarding mode and its upstream.
#[derive(Debug)]
pub struct Handler {
    pub mode: ForwardingMode,
    pub upstream: Option<(String, u16)>,
}

/// An optional address as plain values.
pub open spec fn optional_address(a: Option<(String, u16)>) -> Option<(Seq<char>, u16)> {
    match a {
        Some(p) => Some((p.0@, p.1)),
        None => None,
    }
}

/// Whether a forwarding mode can be served with the given upstream.
pub open spec fn upstream_suffices(mode: ForwardingMode, upstream: Option<(Seq<char>, u16)>) -> bool {
    mode == ForwardingMode::DirectConnect || upstream is Some
}

/// The outbound target of a requested destination: the destination itself
/// when connecting directly, the configured upstream otherwise.
pub open spec fn resolved_target(
    mode: ForwardingMode,
    upstream: Option<(Seq<char>, u16)>,
    requested: (Seq<char>, u16),
) -> (Seq<char>, u16, ForwardingMode) {
    match mode {
        ForwardingMode::DirectConnect => (requested.0, requested.1, mode),
        _ => match upstream {
            Some(u) => (u.0, u.1, mode),
            None => (requested.0, requested.1, mode),
        },
    }
}

/// The result of a dispatch: a failed connect, or else what the relay
/// session came to, if it is over.
pub open spec fn dispatch_outcome(connected: bool, session: RelaySession) -> Option<
    Result<u64, DispatchError>,
> {
    if !connected {
        Some(Err(DispatchError::OutboundConnectFailed))
    } else {
        session.outcome()
    }
}

impl OutboundTarget {
    /// The target as plain values.
    pub open spec fn view(&self) -> (Seq<char>, u16, ForwardingMode) {
        (self.host@, self.port, self.forwarding_mode)
    }
}

impl Handler {
    /// A handler is well-formed when its mode has the upstream it needs.
    pub open spec fn wf(&self) -> bool {
        upstream_suffices(self.mode, optional_address(self.upstream))
    }

    /// The handler that an outbound configuration describes. An upstream
    /// mode without an upstream address is refused.
    pub fn new(outbound_config: &OutboundConfig) -> (r: Result<Handler, ConfigError>)
        ensures
            r is Ok <==> upstream_suffices(
                outbound_config.mode,
                optional_address(outbound_config.upstream),
            ),
            r is Err ==> r == Err::<Handler, _>(ConfigError::MissingUpstream),
            r is Ok ==> {
                &&& r.unwrap().wf()
                &&& r.unwrap().mode == outbound_config.mode
                &&& optional_address(r.unwrap().upstream) == optional_address(
                    outbound_config.upstream,
                )
            },
    {
        let upstream = match &outbound_config.upstream {
            Some(u) => Some((u.0.clone(), u.1)),
            None => None,
        };
        match outbound_config.mode {
            ForwardingMode::DirectConnect => {},
            _ => {
                if upstream.is_none() {
                    return Err(ConfigError::MissingUpstream);
                }
            },
        }
        Ok(Handler { mode: outbound_config.mode, upstream })
    }

    /// Resolves where to connect for a routed stream.
    pub fn resolve(&self, routed: &RoutedStream) -> (r: OutboundTarget)
        ensures
            r@ == resolved_target(
                self.mode,
                optional_address(self.upstream),
                (routed.target_host@, routed.target_port),
            ),
    {
        match self.mode {
            ForwardingMode::DirectConnect => OutboundTarget {
                host: routed.target_host.clone(),
                port: routed.target_port,
                forwarding_mode: self.mode,
            },
            _ => match &self.upstream {
                Some(u) => OutboundTarget {
                    host: u.0.clone(),
                    port: u.1,
                    forwarding_mode: self.mode,
                },
                None => OutboundTarget {
                    host: routed.target_host.clone(),
                    port: routed.target_port,
                    forwarding_mode: self.mode,
                },
            },
        }
    }

    /// How the dispatch of a stream ended, given whether the outbound
    /// connection was opened and the relay session that followed; `None`
    /// while the session is still running.
    pub fn dispatch(&self, connected: bool, session: &RelaySession) -> (r: Option<
        Result<u64, DispatchError>,
    >)
        ensures
            r == dispatch_outcome(connected, *session),
    {
        if !connected {
            Some(Err(DispatchError::OutboundConnectFailed))
        } else {
            session.result()
        }
    }
}

} // verus!
