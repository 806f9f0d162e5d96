use proxy_ingress::config::base::{ForwardingMode, OutboundConfig};
use proxy_ingress::proxy::acceptor::RoutedStream;
use proxy_ingress::proxy::handler::{ConfigError, Handler};
use proxy_ingress::proxy::relay::{
    sum_saturating, Direction, DispatchError, RelayAction, RelayEvent, RelaySession,
};

fn routed() -> RoutedStream {
    RoutedStream {
        detected_protocol: 7,
        header_len: 10,
        target_host: String::from("example.org"),
        target_port: 80,
        authenticated_identity: Some(b"secret1".to_vec()),
    }
}

fn direct() -> Handler {
    Handler::new(&OutboundConfig { mode: ForwardingMode::DirectConnect, upstream: None }).unwrap()
}

#[test]
fn sum_saturating_on_given_values() {
    assert_eq!(sum_saturating(2, 3), 5);
    assert_eq!(sum_saturating(u64::MAX, 0), u64::MAX);
    assert_eq!(sum_saturating(u64::MAX - 1, 1), u64::MAX);
    assert_eq!(sum_saturating(u64::MAX - 1, 2), u64::MAX);
    assert_eq!(sum_saturating(u64::MAX, u64::MAX), u64::MAX);
}

#[test]
fn new_session_copies_both_ways() {
    let s = RelaySession::new();
    assert!(s.up_open && s.down_open && !s.failed);
    assert_eq!((s.bytes_up, s.bytes_down), (0, 0));
    assert_eq!(s.result(), None);
}

#[test]
fn request_and_response_then_origin_closes_first() {
    let mut s = RelaySession::new();
    assert_eq!(s.step(RelayEvent::Copied(Direction::InboundToOutbound, 78)), RelayAction::Continue);
    assert_eq!(
        s.step(RelayEvent::Copied(Direction::OutboundToInbound, 1256)),
        RelayAction::Continue
    );
    assert_eq!(
        s.step(RelayEvent::EndOfStream(Direction::OutboundToInbound)),
        RelayAction::HalfClose(Direction::OutboundToInbound)
    );
    assert!(s.up_open && !s.down_open);
    assert_eq!(s.result(), None);
    assert_eq!(
        s.step(RelayEvent::EndOfStream(Direction::InboundToOutbound)),
        RelayAction::CloseBoth
    );
    assert_eq!(s.result(), Some(Ok(1334)));
    assert_eq!((s.bytes_up, s.bytes_down), (78, 1256));
    assert_eq!(direct().dispatch(true, &s), Some(Ok(1334)));
}

#[test]
fn other_direction_drains_after_half_close() {
    let mut s = RelaySession::new();
    assert_eq!(
        s.step(RelayEvent::EndOfStream(Direction::InboundToOutbound)),
        RelayAction::HalfClose(Direction::InboundToOutbound)
    );
    assert_eq!(s.step(RelayEvent::Copied(Direction::OutboundToInbound, 10)), RelayAction::Continue);
    assert_eq!(s.step(RelayEvent::Copied(Direction::InboundToOutbound, 99)), RelayAction::Continue);
    assert_eq!(
        s.step(RelayEvent::EndOfStream(Direction::InboundToOutbound)),
        RelayAction::Continue
    );
    assert_eq!((s.bytes_up, s.bytes_down), (0, 10));
    assert_eq!(
        s.step(RelayEvent::EndOfStream(Direction::OutboundToInbound)),
        RelayAction::CloseBoth
    );
    assert_eq!(s.result(), Some(Ok(10)));
}

#[test]
fn io_error_tears_both_directions_down() {
    let mut s = RelaySession::new();
    s.step(RelayEvent::Copied(Direction::InboundToOutbound, 5));
    assert_eq!(s.step(RelayEvent::IoError(Direction::OutboundToInbound)), RelayAction::CloseBoth);
    assert!(!s.up_open && !s.down_open && s.failed);
    assert_eq!(s.result(), Some(Err(DispatchError::RelayIoError)));
    assert_eq!(s.step(RelayEvent::Copied(Direction::InboundToOutbound, 5)), RelayAction::CloseBoth);
    assert_eq!(s.bytes_up, 5);
    assert_eq!(s.result(), Some(Err(DispatchError::RelayIoError)));
}

#[test]
fn error_after_clean_end_changes_nothing() {
    let mut s = RelaySession::new();
    s.step(RelayEvent::EndOfStream(Direction::InboundToOutbound));
    s.step(RelayEvent::EndOfStream(Direction::OutboundToInbound));
    assert_eq!(s.step(RelayEvent::IoError(Direction::InboundToOutbound)), RelayAction::CloseBoth);
    assert!(!s.failed);
    assert_eq!(s.result(), Some(Ok(0)));
}

#[test]
fn counters_saturate() {
    let mut s = RelaySession::new();
    s.step(RelayEvent::Copied(Direction::InboundToOutbound, u64::MAX - 1));
    s.step(RelayEvent::Copied(Direction::InboundToOutbound, 7));
    assert_eq!(s.bytes_up, u64::MAX);
    s.step(RelayEvent::Copied(Direction::OutboundToInbound, 3));
    s.step(RelayEvent::EndOfStream(Direction::InboundToOutbound));
    s.step(RelayEvent::EndOfStream(Direction::OutboundToInbound));
    assert_eq!(s.result(), Some(Ok(u64::MAX)));
}

#[test]
fn direct_mode_connects_to_the_requested_destination() {
    let target = direct().resolve(&routed());
    assert_eq!(target.host, "example.org");
    assert_eq!(target.port, 80);
    assert_eq!(target.forwarding_mode, ForwardingMode::DirectConnect);
}

#[test]
fn direct_mode_ignores_a_configured_upstream() {
    let h = Handler::new(&OutboundConfig {
        mode: ForwardingMode::DirectConnect,
        upstream: Some((String::from("10.0.0.1"), 1080)),
    })
    .unwrap();
    let target = h.resolve(&routed());
    assert_eq!((target.host.as_str(), target.port), ("example.org", 80));
}

#[test]
fn upstream_modes_connect_to_the_upstream() {
    for mode in [ForwardingMode::FixedUpstream, ForwardingMode::UpstreamProxyChain] {
        let h = Handler::new(&OutboundConfig {
            mode,
            upstream: Some((String::from("10.0.0.1"), 1080)),
        })
        .unwrap();
        let target = h.resolve(&routed());
        assert_eq!((target.host.as_str(), target.port), ("10.0.0.1", 1080));
        assert_eq!(target.forwarding_mode, mode);
    }
}

#[test]
fn upstream_mode_without_upstream_is_refused() {
    for mode in [ForwardingMode::FixedUpstream, ForwardingMode::UpstreamProxyChain] {
        let r = Handler::new(&OutboundConfig { mode, upstream: None });
        assert_eq!(r.unwrap_err(), ConfigError::MissingUpstream);
    }
}

#[test]
fn failed_connect_fails_the_dispatch() {
    let s = RelaySession::new();
    assert_eq!(direct().dispatch(false, &s), Some(Err(DispatchError::OutboundConnectFailed)));
    assert_eq!(direct().dispatch(true, &s), None);
}
