//! The connection server: one listening endpoint, its acceptor and its
//! handler, and the decisions of the accept loop.

use vstd::prelude::*;
use std::sync::Arc;
use crate::config::base::{InboundConfig, OutboundConfig};
use crate::proxy::acceptor::{optional_bytes, optional_text_bytes, Acceptor};
use crate::proxy::base::SupportedProtocols;
use crate::proxy::connection::ConnectionError;
use crate::proxy::handler::{optional_address, upstream_suffices, ConfigError, Handler};

verus! {

/// What the accept loop meets.
#[derive(Clone, Copy, Debug, PartialEq, Eq, Structural)]
pub enum ServerEvent {
    /// The listening endpoint could not be bound.
    BindFailed,
    /// A raw connection was accepted.
    Accepted,
    /// The unit of work of one connection has ended, with or without error.
    UnitFinished(Option<ConnectionError>),
    /// The listening socket itself failed.
    ListenerFailed,
}

/// What the accept loop does next.
#[derive(Clone, Copy, Debug, PartialEq, Eq, Structural)]
pub enum ServerAction {
    /// Start one isolated unit of work for the connection, and go on.
    SpawnUnit,
    /// Go on accepting.
    KeepAccepting,
    /// End the loop and report the listener's error.
    Stop,
}

/// The severity at which an event is logged.
#[derive(Clone, Copy, Debug, PartialEq, Eq, Structural)]
pub enum Severity {
    Info,
    Warning,
    Error,
}

/// The server of one listening endpoint.
pub struct TcpServer {
    pub local_addr_port: (String, u16),
    pub protocol: SupportedProtocols,
    pub secret: Option<String>,
    pub acceptor: Arc<Acceptor>,
    pub handler: Arc<Handler>,
}

/// The action that follows an event: only the listener's own failures stop
/// the loop.
pub open spec fn reaction(event: ServerEvent) -> ServerAction {
    match event {
        ServerEvent::BindFailed => ServerAction::Stop,
        ServerEvent::ListenerFailed => ServerAction::Stop,
        ServerEvent::Accepted => ServerAction::SpawnUnit,
        ServerEvent::UnitFinished(_) => ServerAction::KeepAccepting,
    }
}

/// The severity of an event: listener failures are errors, connection
/// failures warnings, the rest information.
pub open spec fn severity_of(event: ServerEvent) -> Severity {
    match event {
        ServerEvent::BindFailed => Severity::Error,
        ServerEvent::ListenerFailed => Severity::Error,
        ServerEvent::Accepted => Severity::Info,
        ServerEvent::UnitFinished(Some(_)) => Severity::Warning,
        ServerEvent::UnitFinished(None) => Severity::Info,
    }
}

impl TcpServer {
    /// The server that the two configurations describe. It is refused only
    /// where the outbound configuration lacks the upstream its mode needs.
    pub fn new(inbound_config: InboundConfig, outbound_config: OutboundConfig) -> (r: Result<
        TcpServer,
        ConfigError,
    >)
        ensures
            r is Ok <==> upstream_suffices(
                outbound_config.mode,
                optional_address(outbound_config.upstream),
            ),
            r is Err ==> r == Err::<TcpServer, _>(ConfigError::MissingUpstream),
            r is Ok ==> {
                let s = r.unwrap();
                &&& s.local_addr_port == (inbound_config.address, inbound_config.port)
                &&& s.protocol == inbound_config.protocol
                &&& s.secret == inbound_config.secret
                &&& s.acceptor.tls == inbound_config.tls
                &&& s.acceptor.detect_budget == inbound_config.detect_budget
                &&& s.acceptor.protocols@ == inbound_config.protocol@
                &&& optional_bytes(s.acceptor.secret) == optional_text_bytes(inbound_config.secret)
                &&& s.handler.wf()
                &&& s.handler.mode == outbound_config.mode
                &&& optional_address(s.handler.upstream) == optional_address(
                    outbound_config.upstream,
                )
            },
    {
        let handler = match Handler::new(&outbound_config) {
            Ok(h) => Arc::new(h),
            Err(e) => { return Err(e); },
        };
        let acceptor = Arc::new(Acceptor::new(&inbound_config));
        Ok(
            TcpServer {
                local_addr_port: (inbound_config.address, inbound_config.port),
                protocol: inbound_config.protocol,
                secret: inbound_config.secret,
                handler,
                acceptor,
            },
        )
    }

    /// Decides what the accept loop does after an event. No failure of a
    /// single connection ever stops the loop.
    pub fn react(&self, event: ServerEvent) -> (r: ServerAction)
        ensures
            r == reaction(event),
    {
        match event {
            ServerEvent::BindFailed => ServerAction::Stop,
            ServerEvent::ListenerFailed => ServerAction::Stop,
            ServerEvent::Accepted => ServerAction::SpawnUnit,
            ServerEvent::UnitFinished(_) => ServerAction::KeepAccepting,
        }
    }

    /// The severity at which an event is to be logged.
    pub fn severity(&self, event: ServerEvent) -> (r: Severity)
        ensures
            r == severity_of(event),
    {
        match event {
            ServerEvent::BindFailed => Severity::Error,
            ServerEvent::ListenerFailed => Severity::Error,
            ServerEvent::Accepted => Severity::Info,
            ServerEvent::UnitFinished(Some(_)) => Severity::Warning,
            ServerEvent::UnitFinished(None) => Severity::Info,
        }
    }
}

/// Failures are isolated: however the unit of work of one connection ends,
/// the loop keeps accepting, and it stops only when the listener itself
/// fails.
pub proof fn connection_failures_never_stop_the_loop(event: ServerEvent)
    ensures
        reaction(event) == ServerAction::Stop <==> (event == ServerEvent::BindFailed || event
            == ServerEvent::ListenerFailed),
        forall|outcome: Option<ConnectionError>|
            #[trigger] reaction(ServerEvent::UnitFinished(outcome)) == ServerAction::KeepAccepting,
{
}

} // verus!
