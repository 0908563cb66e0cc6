//! UDP multiplexing: many addressed flows carried by one session.
use vstd::prelude::*;

use crate::addr::{IpAddress, SocketAddress};
use crate::error::ConnectionError;
use crate::ids::IdChain;
use crate::pipe::{DatagramSession, SessionOp, fresh_session, step, write_outcome};

verus! {

/// The addressing tuple that keys a flow in the session table.
#[derive(Clone, Copy, Debug, PartialEq, Eq, Structural)]
pub struct UdpFlow {
    pub source: SocketAddress,
    pub destination: SocketAddress,
}

/// One UDP datagram of a flow.
#[derive(Clone, Debug, PartialEq, Eq)]
pub struct UdpDatagram {
    pub flow: UdpFlow,
    pub payload: Vec<u8>,
}

/// Request-scoped description of the multiplexing session asked for; read
/// when the session is built and not kept by the forwarder.
#[derive(Clone, Copy, Debug, PartialEq, Eq, Structural)]
pub struct UdpMultiplexerMeta {
    pub client_address: IpAddress,
}

/// The session table: the distinct flows a UDP session carries, in the order
/// in which they were first seen.
pub struct FlowTable {
    flows: Vec<UdpFlow>,
}

impl View for FlowTable {
    type V = Seq<UdpFlow>;

    closed spec fn view(&self) -> Seq<UdpFlow> {
        self.flows@
    }
}

impl FlowTable {
    /// No flow appears twice.
    pub open spec fn wf(&self) -> bool {
        self@.no_duplicates()
    }

    /// An empty table.
    pub fn new() -> (r: FlowTable)
        ensures
            r@ == Seq::<UdpFlow>::empty(),
            r.wf(),
    {
        FlowTable { flows: Vec::new() }
    }

    /// Whether `flow` has an entry.
    pub fn contains(&self, flow: &UdpFlow) -> (r: bool)
        ensures
            r == self@.contains(*flow),
    {
        let mut i: usize = 0;
        while i < self.flows.len()
            invariant
                0 <= i <= self.flows@.len(),
                forall|j: int| 0 <= j < i ==> self.flows@[j] != *flow,
            decreases self.flows@.len() - i,
        {
            if self.flows[i] == *flow {
                return true;
            }
            i = i + 1;
        }
        false
    }

    /// Adds an entry for `flow` unless it has one. An existing entry is
    /// reused, not reported as a conflict. Returns whether it was new.
    pub fn register(&mut self, flow: UdpFlow) -> (r: bool)
        requires
            old(self).wf(),
        ensures
            final(self).wf(),
            r == !old(self)@.contains(flow),
            final(self)@ == if r { old(self)@.push(flow) } else { old(self)@ },
    {
        if self.contains(&flow) {
            false
        } else {
            self.flows.push(flow);
            proof {
                assert forall|i: int, j: int| 0 <= i < j < self@.len() implies self@[i] != self@[j] by {
                    if j == self@.len() - 1 {
                        assert(old(self)@.contains(old(self)@[i]));
                    }
                }
            }
            true
        }
    }

    /// The number of flows.
    pub fn len(&self) -> (r: usize)
        ensures
            r == self@.len(),
    {
        self.flows.len()
    }
}

/// One UDP multiplexing session: its source and sink are `session`, and the
/// shared handle's operations are the methods below.
pub struct UdpMultiplexer {
    pub id: IdChain,
    pub session: DatagramSession<UdpDatagram>,
    pub flows: FlowTable,
}

impl UdpMultiplexer {
    /// Session and table are both well formed.
    pub open spec fn wf(&self) -> bool {
        self.session.wf() && self.flows.wf()
    }

    /// Freshly built: active, nothing buffered, no flow registered.
    pub open spec fn is_fresh(&self) -> bool {
        &&& self.session@ == fresh_session::<UdpDatagram>()
        &&& self.flows@ == Seq::<UdpFlow>::empty()
    }

    /// Builds the session for the flow identified by `id`.
    pub fn new(id: IdChain) -> (r: UdpMultiplexer)
        ensures
            r.wf(),
            r.is_fresh(),
            r.id@ == id@,
    {
        UdpMultiplexer { id, session: DatagramSession::new(), flows: FlowTable::new() }
    }

    /// Injects a datagram through the shared handle, with no new
    /// authorization: while the session is active its flow is registered
    /// (reused if already there) and the datagram is queued for the
    /// transport; afterwards it fails as session-terminal and nothing changes.
    /// On success, returns whether the flow was new.
    pub fn inject(&mut self, d: UdpDatagram) -> (r: Result<bool, ConnectionError>)
        requires
            old(self).wf(),
        ensures
            final(self).wf(),
            final(self).id == old(self).id,
            final(self).session@ == step(old(self).session@, SessionOp::Write(d)),
            r is Ok <==> write_outcome(old(self).session@) is Ok,
            r is Err ==> r == Err::<bool, ConnectionError>(ConnectionError::SessionTerminal),
            r is Ok ==> r == Ok::<bool, ConnectionError>(!old(self).flows@.contains(d.flow))
                && final(self).flows@ == if old(self).flows@.contains(d.flow) {
                    old(self).flows@
                } else {
                    old(self).flows@.push(d.flow)
                },
            r is Err ==> final(self).flows@ == old(self).flows@,
    {
        let flow = d.flow;
        match self.session.write(d) {
            Ok(()) => Ok(self.flows.register(flow)),
            Err(e) => Err(e),
        }
    }
}

} // verus!
