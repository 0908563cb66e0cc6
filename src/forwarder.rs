//! The forwarder capability set, and the pass-through policy that forwards
//! everything directly.
use std::sync::Arc;

use vstd::prelude::*;

use crate::addr::IpAddress;
use crate::auth::{AuthSource, DatagramMultiplexerAuthenticator, PassThroughAuthenticator, opt_str_view};
use crate::error::ConnectionError;
use crate::icmp::{IcmpDatagram, IcmpForwarder, IcmpMultiplexer};
use crate::ids::IdChain;
use crate::pipe::fresh_session;
use crate::tcp::{Settings, TcpConnector};
use crate::udp::{UdpMultiplexer, UdpMultiplexerMeta};

verus! {

/// A forwarding policy: one instance per endpoint, immutable and shared by
/// every request. Each operation only manufactures the object that will do
/// the work; none performs I/O itself.
pub trait Forwarder {
    /// The authenticator this policy hands out.
    type Authenticator: DatagramMultiplexerAuthenticator;

    /// Whether this policy admits a datagram session with these parameters.
    spec fn admits(
        &self,
        client_ip: IpAddress,
        session_key: Seq<char>,
        source: AuthSource,
        credential: Option<Seq<char>>,
    ) -> bool;

    /// Whether the endpoint is configured to forward ICMP.
    spec fn icmp_enabled(&self) -> bool;

    /// Whether UDP sessions can currently be built.
    spec fn udp_available(&self) -> bool;

    /// A fresh capability for outbound TCP connections.
    fn tcp_connector(&self) -> TcpConnector;

    /// A fresh one-shot authenticator that decides as this policy does.
    fn datagram_mux_authenticator(&self) -> (r: Self::Authenticator)
        ensures
            forall|ip: IpAddress, key: Seq<char>, source: AuthSource, cred: Option<Seq<char>>|
                #[trigger] r.admits(ip, key, source, cred) == self.admits(ip, key, source, cred),
    ;

    /// Builds a UDP multiplexing session, complete and active, or fails as
    /// transport-unavailable with nothing built when UDP is unavailable.
    fn make_udp_datagram_multiplexer(&self, id: IdChain, meta: UdpMultiplexerMeta) -> (r: Result<
        UdpMultiplexer,
        ConnectionError,
    >)
        ensures
            r is Ok <==> self.udp_available(),
            r matches Ok(m) ==> m.wf() && m.is_fresh() && m.id@ == id@,
            r matches Err(e) ==> e is TransportUnavailable,
    ;

    /// Builds an ICMP bridging session. Without ICMP configured the result is
    /// the empty option, never an error; with it, never the empty option.
    fn make_icmp_datagram_multiplexer(&self, id: IdChain) -> (r: Result<
        Option<IcmpMultiplexer>,
        ConnectionError,
    >)
        ensures
            !self.icmp_enabled() ==> r matches Ok(None),
            self.icmp_enabled() ==> !(r matches Ok(None)),
            r matches Ok(Some(m)) ==> m.session.wf() && m.session@ == fresh_session::<IcmpDatagram>()
                && m.id@ == id@,
            r matches Err(e) ==> e is TransportUnavailable,
    ;
}

/// What an endpoint's forwarder needs: its settings, and the ICMP
/// collaborator if the endpoint forwards ICMP.
#[derive(Clone, Copy, Debug, PartialEq, Eq, Structural)]
pub struct Context {
    pub settings: Settings,
    pub icmp_forwarder: Option<IcmpForwarder>,
}

/// The pass-through policy: admits every session, connects TCP directly,
/// builds UDP sessions itself, and hands ICMP to the configured collaborator.
pub struct DirectForwarder {
    pub context: Arc<Context>,
}

impl DirectForwarder {
    /// A pass-through forwarder over the shared endpoint context.
    pub fn new(context: Arc<Context>) -> (r: DirectForwarder)
        ensures
            r.context == context,
    {
        DirectForwarder { context }
    }
}

impl Forwarder for DirectForwarder {
    type Authenticator = PassThroughAuthenticator;

    open spec fn admits(
        &self,
        client_ip: IpAddress,
        session_key: Seq<char>,
        source: AuthSource,
        credential: Option<Seq<char>>,
    ) -> bool {
        true
    }

    open spec fn icmp_enabled(&self) -> bool {
        self.context.icmp_forwarder is Some
    }

    open spec fn udp_available(&self) -> bool {
        true
    }

    fn tcp_connector(&self) -> (r: TcpConnector)
        ensures
            r.settings == self.context.settings,
    {
        TcpConnector::new(self.context.settings)
    }

    fn datagram_mux_authenticator(&self) -> (r: PassThroughAuthenticator) {
        PassThroughAuthenticator
    }

    fn make_udp_datagram_multiplexer(&self, id: IdChain, meta: UdpMultiplexerMeta) -> (r: Result<
        UdpMultiplexer,
        ConnectionError,
    >) {
        Ok(UdpMultiplexer::new(id))
    }

    fn make_icmp_datagram_multiplexer(&self, id: IdChain) -> (r: Result<
        Option<IcmpMultiplexer>,
        ConnectionError,
    >)
        ensures
            match self.context.icmp_forwarder {
                None => r matches Ok(None),
                Some(icmp) => match icmp.socket_error {
                    Some(f) => r == Err::<Option<IcmpMultiplexer>, ConnectionError>(
                        ConnectionError::TransportUnavailable(f),
                    ),
                    None => r matches Ok(Some(_)),
                },
            },
    {
        match &self.context.icmp_forwarder {
            Some(icmp) => match icmp.make_multiplexer(id) {
                Ok(m) => Ok(Some(m)),
                Err(e) => Err(e),
            },
            None => Ok(None),
        }
    }
}

/// Authorizes a UDP multiplexing session and only then builds it. No session
/// (and so no sink, shared handle or table entry) exists unless the policy
/// admitted it; a refusal is authorization-denied and builds nothing.
pub fn authorize_udp_session<F: Forwarder>(
    forwarder: &F,
    id: IdChain,
    meta: UdpMultiplexerMeta,
    client_ip: IpAddress,
    session_key: &str,
    source: AuthSource,
    credential: Option<&str>,
) -> (r: Result<UdpMultiplexer, ConnectionError>)
    ensures
        r is Ok <==> forwarder.admits(client_ip, session_key@, source, opt_str_view(credential))
            && forwarder.udp_available(),
        !forwarder.admits(client_ip, session_key@, source, opt_str_view(credential))
            ==> r == Err::<UdpMultiplexer, ConnectionError>(ConnectionError::AuthorizationDenied),
        forwarder.admits(client_ip, session_key@, source, opt_str_view(credential))
            && !forwarder.udp_available() ==> (r matches Err(e) && e is TransportUnavailable),
        r matches Ok(m) ==> m.wf() && m.is_fresh() && m.id@ == id@,
        r matches Err(e) ==> e is AuthorizationDenied || e is TransportUnavailable,
{
    let authenticator = forwarder.datagram_mux_authenticator();
    match authenticator.check_auth(client_ip, session_key, source, credential) {
        Ok(()) => forwarder.make_udp_datagram_multiplexer(id, meta),
        Err(e) => Err(e),
    }
}

} // verus!
