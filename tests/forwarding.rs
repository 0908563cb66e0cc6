use std::sync::Arc;

use forwarding::addr::{IpAddress, SocketAddress};
use forwarding::auth::{AuthSource, DatagramMultiplexerAuthenticator};
use forwarding::error::{ConnectionError, TransportFailure};
use forwarding::forwarder::{authorize_udp_session, Context, DirectForwarder, Forwarder};
use forwarding::icmp::{IcmpDatagram, IcmpForwarder};
use forwarding::ids::IdChain;
use forwarding::pipe::{DatagramSession, ReadStatus, SessionState, SourcePoll};
use forwarding::tcp::Settings;
use forwarding::udp::{UdpDatagram, UdpFlow, UdpMultiplexerMeta};

fn settings() -> Settings {
    Settings { connect_timeout_ms: 3000 }
}

fn forwarder(icmp: Option<IcmpForwarder>) -> DirectForwarder {
    DirectForwarder::new(Arc::new(Context { settings: settings(), icmp_forwarder: icmp }))
}

fn meta() -> UdpMultiplexerMeta {
    UdpMultiplexerMeta { client_address: IpAddress::V4(192, 168, 1, 20) }
}

fn flow(port: u16) -> UdpFlow {
    UdpFlow {
        source: SocketAddress { ip: IpAddress::V4(10, 0, 0, 1), port: 40000 },
        destination: SocketAddress { ip: IpAddress::V4(8, 8, 8, 8), port },
    }
}

fn datagram(port: u16, payload: &[u8]) -> UdpDatagram {
    UdpDatagram { flow: flow(port), payload: payload.to_vec() }
}

#[test]
fn pass_through_check_auth_succeeds() {
    let f = forwarder(None);
    let auth = f.datagram_mux_authenticator();
    let r = auth.check_auth(IpAddress::V4(10, 0, 0, 1), "s1", AuthSource { class: 1 }, None);
    assert_eq!(r, Ok(()));
}

#[test]
fn pass_through_check_auth_with_credential_succeeds() {
    let f = forwarder(None);
    let auth = f.datagram_mux_authenticator();
    let r = auth.check_auth(IpAddress::V6(1), "", AuthSource { class: 7 }, Some("secret"));
    assert_eq!(r, Ok(()));
}

#[test]
fn udp_session_round_trip_through_transport() {
    let f = forwarder(None);
    let mut m = f.make_udp_datagram_multiplexer(IdChain::from_ids(vec![1, 2]), meta()).unwrap();
    assert_eq!(m.id.len(), 2);
    assert_eq!(m.id.get(0), 1);
    assert_eq!(m.id.get(1), 2);
    assert_eq!(m.session.state(), SessionState::Active);
    assert_eq!(m.flows.len(), 0);
    let d = datagram(53, b"query");
    assert_eq!(m.session.poll_next(), SourcePoll::Pending);
    assert_eq!(m.session.write(d.clone()), Ok(()));
    let sent = m.session.take_outbound();
    assert_eq!(sent, vec![d.clone()]);
    assert!(m.session.take_outbound().is_empty());
    assert!(m.session.deliver(d.clone()));
    assert_eq!(m.session.poll_next(), SourcePoll::Ready(ReadStatus::Datagram(d)));
    assert_eq!(m.session.poll_next(), SourcePoll::Pending);
}

#[test]
fn icmp_absent_gives_empty_option() {
    let f = forwarder(None);
    let r = f.make_icmp_datagram_multiplexer(IdChain::from_ids(vec![7]));
    assert!(matches!(r, Ok(None)));
}

#[test]
fn icmp_absent_is_empty_on_every_call() {
    let f = forwarder(None);
    for i in 0..5u64 {
        let r = f.make_icmp_datagram_multiplexer(IdChain::from_ids(vec![i]));
        assert!(matches!(r, Ok(None)));
    }
}

#[test]
fn icmp_configured_gives_active_session() {
    let f = forwarder(Some(IcmpForwarder { socket_error: None }));
    let mut m = f.make_icmp_datagram_multiplexer(IdChain::from_ids(vec![3])).unwrap().unwrap();
    assert_eq!(m.id.get(0), 3);
    assert_eq!(m.session.state(), SessionState::Active);
    let echo = IcmpDatagram { peer: IpAddress::V4(1, 1, 1, 1), icmp_type: 8, code: 0, payload: vec![1, 2] };
    assert_eq!(m.session.write(echo.clone()), Ok(()));
    assert_eq!(m.session.take_outbound(), vec![echo]);
}

#[test]
fn icmp_socket_failure_is_transport_unavailable() {
    let f = forwarder(Some(IcmpForwarder { socket_error: Some(TransportFailure::ResourceExhausted) }));
    let r = f.make_icmp_datagram_multiplexer(IdChain::from_ids(vec![7]));
    assert!(matches!(
        r,
        Err(ConnectionError::TransportUnavailable(TransportFailure::ResourceExhausted))
    ));
}

#[test]
fn transport_closure_yields_one_terminal_status() {
    let f = forwarder(None);
    let mut m = f.make_udp_datagram_multiplexer(IdChain::from_ids(vec![9]), meta()).unwrap();
    let d = datagram(53, b"late");
    assert!(m.session.deliver(d.clone()));
    m.session.close_transport();
    assert_eq!(m.session.state(), SessionState::Draining);
    assert_eq!(m.session.write(datagram(53, b"x")), Err(ConnectionError::SessionTerminal));
    assert_eq!(m.session.poll_next(), SourcePoll::Ready(ReadStatus::Datagram(d)));
    assert_eq!(m.session.poll_next(), SourcePoll::Ready(ReadStatus::Closed));
    assert_eq!(m.session.state(), SessionState::Closed);
    assert_eq!(m.session.poll_next(), SourcePoll::Finished);
    assert_eq!(m.session.write(datagram(53, b"y")), Err(ConnectionError::SessionTerminal));
    assert_eq!(m.session.poll_next(), SourcePoll::Finished);
}

#[test]
fn source_keeps_transport_delivery_order() {
    let mut s: DatagramSession<u32> = DatagramSession::new();
    for x in [3u32, 1, 2] {
        assert!(s.deliver(x));
    }
    assert!(s.deliver_transient_error());
    assert!(s.deliver(0));
    let mut seen = Vec::new();
    while let SourcePoll::Ready(r) = s.poll_next() {
        seen.push(r);
    }
    assert_eq!(
        seen,
        vec![
            ReadStatus::Datagram(3),
            ReadStatus::Datagram(1),
            ReadStatus::Datagram(2),
            ReadStatus::TransientError,
            ReadStatus::Datagram(0),
        ]
    );
}

#[test]
fn terminal_session_stays_terminal() {
    let mut s: DatagramSession<u32> = DatagramSession::new();
    s.close_transport();
    assert_eq!(s.poll_next(), SourcePoll::Ready(ReadStatus::Closed));
    assert!(!s.deliver(5));
    assert!(!s.deliver_transient_error());
    s.close_transport();
    assert_eq!(s.write(6), Err(ConnectionError::SessionTerminal));
    assert_eq!(s.poll_next(), SourcePoll::Finished);
    assert_eq!(s.state(), SessionState::Closed);
    assert!(s.take_outbound().is_empty());
}

#[test]
fn shared_handle_reuses_existing_flow() {
    let f = forwarder(None);
    let mut m = f.make_udp_datagram_multiplexer(IdChain::from_ids(vec![1]), meta()).unwrap();
    assert_eq!(m.inject(datagram(53, b"a")), Ok(true));
    assert_eq!(m.inject(datagram(53, b"b")), Ok(false));
    assert_eq!(m.inject(datagram(443, b"c")), Ok(true));
    assert_eq!(m.flows.len(), 2);
    assert!(m.flows.contains(&flow(443)));
    assert!(!m.flows.contains(&flow(80)));
    assert_eq!(m.session.take_outbound().len(), 3);
    m.session.close_transport();
    assert_eq!(m.inject(datagram(80, b"d")), Err(ConnectionError::SessionTerminal));
    assert_eq!(m.flows.len(), 2);
}

#[test]
fn authorized_udp_session_is_built() {
    let f = forwarder(None);
    let m = authorize_udp_session(
        &f,
        IdChain::from_ids(vec![1, 2]),
        meta(),
        IpAddress::V4(10, 0, 0, 1),
        "s1",
        AuthSource { class: 1 },
        None,
    )
    .unwrap();
    assert_eq!(m.session.state(), SessionState::Active);
    assert_eq!(m.flows.len(), 0);
    assert_eq!(m.id.len(), 2);
}

#[test]
fn tcp_connector_follows_settings() {
    let f = forwarder(None);
    let c = f.tcp_connector();
    assert_eq!(c.settings, settings());
    let dest = SocketAddress { ip: IpAddress::V4(93, 184, 216, 34), port: 443 };
    let attempt = c.connect(dest);
    assert_eq!(attempt.destination, dest);
    assert_eq!(attempt.timeout_ms, 3000);
    assert_eq!(attempt.complete(Ok(())).unwrap().destination, dest);
}

#[test]
fn tcp_connect_failure_is_transport_unavailable() {
    let f = forwarder(None);
    let dest = SocketAddress { ip: IpAddress::V6(1), port: 22 };
    let attempt = f.tcp_connector().connect(dest);
    assert_eq!(
        attempt.complete(Err(TransportFailure::TimedOut)),
        Err(ConnectionError::TransportUnavailable(TransportFailure::TimedOut))
    );
}

#[test]
fn id_chain_extends_inward() {
    let c = IdChain::from_ids(vec![4]).extended(5);
    assert_eq!(c.len(), 2);
    assert_eq!(c.get(0), 4);
    assert_eq!(c.get(1), 5);
}

#[test]
fn closure_with_many_buffered_yields_one_terminal_status() {
    let mut s: DatagramSession<u32> = DatagramSession::new();
    for x in 0..6u32 {
        assert!(s.deliver(x * 10));
    }
    s.close_transport();
    for x in 0..6u32 {
        assert_eq!(s.poll_next(), SourcePoll::Ready(ReadStatus::Datagram(x * 10)));
    }
    assert_eq!(s.poll_next(), SourcePoll::Ready(ReadStatus::Closed));
    for _ in 0..3 {
        assert_eq!(s.poll_next(), SourcePoll::Finished);
    }
    assert_eq!(s.write(1), Err(ConnectionError::SessionTerminal));
}

fn drain_all(order: &[u32]) -> Vec<ReadStatus<u32>> {
    let mut s: DatagramSession<u32> = DatagramSession::new();
    for x in order {
        assert!(s.deliver(*x));
    }
    let mut seen = Vec::new();
    while let SourcePoll::Ready(r) = s.poll_next() {
        seen.push(r);
    }
    seen
}

#[test]
fn transport_reordering_shows_identically_on_source() {
    let first = drain_all(&[1, 2, 3, 4]);
    let second = drain_all(&[3, 1, 4, 2]);
    let pi = [2usize, 0, 3, 1];
    assert_eq!(second.len(), first.len());
    for i in 0..pi.len() {
        assert_eq!(second[i], first[pi[i]]);
    }
}
