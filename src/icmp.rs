//! ICMP bridging: the optional datagram capability of an endpoint.
use vstd::prelude::*;

use crate::addr::IpAddress;
use crate::error::{ConnectionError, TransportFailure};
use crate::ids::IdChain;
use crate::pipe::{DatagramSession, fresh_session};

verus! {

/// One ICMP echo or error datagram.
#[derive(Clone, Debug, PartialEq, Eq)]
pub struct IcmpDatagram {
    pub peer: IpAddress,
    pub icmp_type: u8,
    pub code: u8,
    pub payload: Vec<u8>,
}

/// One ICMP bridging session: its source and sink are `session`.
pub struct IcmpMultiplexer {
    pub id: IdChain,
    pub session: DatagramSession<IcmpDatagram>,
}

/// The ICMP-capable collaborator an endpoint may be configured with. It
/// records how opening its raw socket went: `None` when the socket is open.
#[derive(Clone, Copy, Debug, PartialEq, Eq, Structural)]
pub struct IcmpForwarder {
    pub socket_error: Option<TransportFailure>,
}

impl IcmpForwarder {
    /// Builds an ICMP session for `id`, or reports that the raw socket is
    /// unavailable.
    pub fn make_multiplexer(&self, id: IdChain) -> (r: Result<IcmpMultiplexer, ConnectionError>)
        ensures
            match self.socket_error {
                Some(f) => r is Err && r->Err_0 == ConnectionError::TransportUnavailable(f),
                None => r is Ok && r->Ok_0.session.wf() && r->Ok_0.session@ == fresh_session::<IcmpDatagram>()
                    && r->Ok_0.id@ == id@,
            },
    {
        match self.socket_error {
            Some(f) => Err(ConnectionError::TransportUnavailable(f)),
            None => Ok(IcmpMultiplexer { id, session: DatagramSession::new() }),
        }
    }
}

} // verus!
