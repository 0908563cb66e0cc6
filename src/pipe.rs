//! Datagram pipes: the source/sink pair of one multiplexed session, and the
//! session state machine shared by the UDP and ICMP multiplexers.
//!
//! A session is built already active: construction either hands back a
//! complete session or nothing, so no partially built session is ever seen.
//! From then on it moves `Active -> Draining -> Closed`. The transport side
//! drives it through `deliver`, `deliver_transient_error`, `close_transport`
//! and `take_outbound`; the caller reads through `poll_next` (the source) and
//! writes through `write` (the sink).
use vstd::prelude::*;

use crate::error::ConnectionError;

verus! {

/// The observable state of a datagram session.
#[derive(Clone, Copy, Debug, PartialEq, Eq, Structural)]
pub enum SessionState {
    /// Reads and writes are both accepted.
    Active,
    /// The transport has closed: buffered datagrams are still read, writes fail.
    Draining,
    /// The source has yielded its terminal status; nothing more happens.
    Closed,
}

/// One element of a session's source.
#[derive(Clone, Debug, PartialEq, Eq)]
pub enum ReadStatus<T> {
    /// A datagram delivered by the transport.
    Datagram(T),
    /// The transport reported an error that does not end the session.
    TransientError,
    /// The session has ended; this is the source's last element.
    Closed,
}

/// The outcome of asking a source for its next element.
#[derive(Clone, Debug, PartialEq, Eq)]
pub enum SourcePoll<T> {
    /// The next element.
    Ready(ReadStatus<T>),
    /// Nothing is buffered yet; the session is still active.
    Pending,
    /// The terminal status has already been yielded.
    Finished,
}

/// The mathematical state of a session.
pub struct SessionModel<T> {
    pub state: SessionState,
    /// Delivered by the transport and not read yet, oldest first.
    pub pending: Seq<ReadStatus<T>>,
    /// Written to the sink and not taken by the transport yet, oldest first.
    pub outbound: Seq<T>,
    /// Everything the transport ever delivered, in delivery order.
    pub delivered: Seq<ReadStatus<T>>,
    /// Everything the source ever yielded, in order.
    pub observed: Seq<ReadStatus<T>>,
}

/// One operation on a session, by either side.
pub enum SessionOp<T> {
    Deliver(T),
    DeliverTransientError,
    CloseTransport,
    Poll,
    Write(T),
    TakeOutbound,
}

/// A freshly constructed session: active, with nothing buffered.
pub open spec fn fresh_session<T>() -> SessionModel<T> {
    SessionModel {
        state: SessionState::Active,
        pending: Seq::empty(),
        outbound: Seq::empty(),
        delivered: Seq::empty(),
        observed: Seq::empty(),
    }
}

/// No element of `s` is the terminal status.
pub open spec fn non_terminal<T>(s: Seq<ReadStatus<T>>) -> bool {
    forall|i: int| 0 <= i < s.len() ==> !(#[trigger] s[i] is Closed)
}

/// The session's invariant: the source yields exactly what the transport
/// delivered, in delivery order, followed by one terminal status once closed.
pub open spec fn session_wf<T>(m: SessionModel<T>) -> bool {
    &&& non_terminal(m.delivered)
    &&& if m.state is Closed {
        &&& m.pending.len() == 0
        &&& m.observed == m.delivered.push(ReadStatus::Closed)
    } else {
        m.observed + m.pending == m.delivered
    }
}

/// The transport delivers one element: kept only while the session is active.
pub open spec fn after_delivery<T>(m: SessionModel<T>, s: ReadStatus<T>) -> SessionModel<T> {
    if m.state is Active {
        SessionModel { pending: m.pending.push(s), delivered: m.delivered.push(s), ..m }
    } else {
        m
    }
}

/// The transport signals closure: an active session starts draining.
pub open spec fn after_transport_closed<T>(m: SessionModel<T>) -> SessionModel<T> {
    if m.state is Active {
        SessionModel { state: SessionState::Draining, ..m }
    } else {
        m
    }
}

/// What the source yields next.
pub open spec fn poll_outcome<T>(m: SessionModel<T>) -> SourcePoll<T> {
    if m.state is Closed {
        SourcePoll::Finished
    } else if m.pending.len() > 0 {
        SourcePoll::Ready(m.pending[0])
    } else if m.state is Draining {
        SourcePoll::Ready(ReadStatus::Closed)
    } else {
        SourcePoll::Pending
    }
}

/// The session after the source was asked for its next element.
pub open spec fn after_poll<T>(m: SessionModel<T>) -> SessionModel<T> {
    if m.state is Closed {
        m
    } else if m.pending.len() > 0 {
        SessionModel {
            pending: m.pending.drop_first(),
            observed: m.observed.push(m.pending[0]),
            ..m
        }
    } else if m.state is Draining {
        SessionModel {
            state: SessionState::Closed,
            observed: m.observed.push(ReadStatus::Closed),
            ..m
        }
    } else {
        m
    }
}

/// What a write to the sink returns: only an active session accepts it.
pub open spec fn write_outcome<T>(m: SessionModel<T>) -> Result<(), ConnectionError> {
    if m.state is Active {
        Ok(())
    } else {
        Err(ConnectionError::SessionTerminal)
    }
}

/// The session after a write to the sink.
pub open spec fn after_write<T>(m: SessionModel<T>, d: T) -> SessionModel<T> {
    if m.state is Active {
        SessionModel { outbound: m.outbound.push(d), ..m }
    } else {
        m
    }
}

/// The session after one operation.
pub open spec fn step<T>(m: SessionModel<T>, op: SessionOp<T>) -> SessionModel<T> {
    match op {
        SessionOp::Deliver(d) => after_delivery(m, ReadStatus::Datagram(d)),
        SessionOp::DeliverTransientError => after_delivery(m, ReadStatus::TransientError),
        SessionOp::CloseTransport => after_transport_closed(m),
        SessionOp::Poll => after_poll(m),
        SessionOp::Write(d) => after_write(m, d),
        SessionOp::TakeOutbound => SessionModel { outbound: Seq::empty(), ..m },
    }
}

/// The session after a sequence of operations, first to last.
pub open spec fn run<T>(m: SessionModel<T>, ops: Seq<SessionOp<T>>) -> SessionModel<T>
    decreases ops.len(),
{
    if ops.len() == 0 {
        m
    } else {
        step(run(m, ops.drop_last()), ops.last())
    }
}

/// Every operation keeps the session's invariant.
pub proof fn lemma_step_keeps_wf<T>(m: SessionModel<T>, op: SessionOp<T>)
    requires
        session_wf(m),
    ensures
        session_wf(step(m, op)),
        m.delivered.is_prefix_of(step(m, op).delivered),
        m.observed.is_prefix_of(step(m, op).observed),
{
    let r = step(m, op);
    match op {
        SessionOp::Poll => {
            if !(m.state is Closed) && m.pending.len() > 0 {
                assert(r.observed + r.pending =~= m.observed + m.pending);
            }
        },
        SessionOp::Deliver(_) => {
            if m.state is Active {
                assert(r.observed + r.pending =~= (m.observed + m.pending).push(r.pending.last()));
            }
        },
        SessionOp::DeliverTransientError => {
            if m.state is Active {
                assert(r.observed + r.pending =~= (m.observed + m.pending).push(r.pending.last()));
            }
        },
        _ => {},
    }
}

/// The elements that the source has yielded and that are not terminal.
pub open spec fn yielded<T>(m: SessionModel<T>) -> Seq<ReadStatus<T>> {
    if m.state is Closed {
        m.observed.drop_last()
    } else {
        m.observed
    }
}

/// Delivery order is kept: whatever operations follow, the source yields the
/// transport's deliveries in the order the transport made them, and what is
/// not yielded yet waits, in that order, behind what was.
pub proof fn lemma_source_preserves_delivery_order<T>(m: SessionModel<T>, ops: Seq<SessionOp<T>>)
    requires
        session_wf(m),
    ensures
        yielded(run(m, ops)) + run(m, ops).pending == run(m, ops).delivered,
        m.delivered.is_prefix_of(run(m, ops).delivered),
        m.observed.is_prefix_of(run(m, ops).observed),
        session_wf(run(m, ops)),
    decreases ops.len(),
{
    if ops.len() > 0 {
        lemma_source_preserves_delivery_order(m, ops.drop_last());
        lemma_step_keeps_wf(run(m, ops.drop_last()), ops.last());
    }
    let r = run(m, ops);
    if r.state is Closed {
        assert(r.observed.drop_last() =~= r.delivered);
        assert(yielded(r) + r.pending =~= r.delivered);
    }
}

/// A reordering at the transport is reflected identically at the source:
/// take two sessions built fresh, each run until its source has yielded all
/// that its transport delivered. If the second transport delivered the
/// first's deliveries permuted by `pi`, the second source yielded the first
/// source's elements permuted by `pi`.
pub proof fn lemma_reordering_is_reflected<T>(
    ops1: Seq<SessionOp<T>>,
    ops2: Seq<SessionOp<T>>,
    pi: spec_fn(int) -> int,
)
    requires
        run(fresh_session::<T>(), ops1).pending.len() == 0,
        run(fresh_session::<T>(), ops2).pending.len() == 0,
        run(fresh_session::<T>(), ops2).delivered.len() == run(fresh_session::<T>(), ops1).delivered.len(),
        forall|i: int| 0 <= i < run(fresh_session::<T>(), ops2).delivered.len() ==>
            0 <= #[trigger] pi(i) < run(fresh_session::<T>(), ops1).delivered.len()
            && run(fresh_session::<T>(), ops2).delivered[i] == run(fresh_session::<T>(), ops1).delivered[pi(i)],
    ensures
        yielded(run(fresh_session::<T>(), ops2)).len() == yielded(run(fresh_session::<T>(), ops1)).len(),
        forall|i: int| 0 <= i < yielded(run(fresh_session::<T>(), ops2)).len() ==>
            yielded(run(fresh_session::<T>(), ops2))[i] == yielded(run(fresh_session::<T>(), ops1))[#[trigger] pi(i)],
{
    lemma_source_preserves_delivery_order(fresh_session::<T>(), ops1);
    lemma_source_preserves_delivery_order(fresh_session::<T>(), ops2);
    let r1 = run(fresh_session::<T>(), ops1);
    let r2 = run(fresh_session::<T>(), ops2);
    assert(yielded(r1) =~= r1.delivered);
    assert(yielded(r2) =~= r2.delivered);
}

/// `n` requests to the source for its next element.
pub open spec fn polls<T>(n: nat) -> Seq<SessionOp<T>> {
    Seq::new(n, |i: int| SessionOp::Poll)
}

/// Partway through draining, the source has yielded the first `k` buffered
/// elements, in order, and the session is still draining.
proof fn lemma_drain_prefix<T>(m: SessionModel<T>, k: nat)
    requires
        session_wf(m),
        m.state is Draining,
        k <= m.pending.len(),
    ensures
        run(m, polls::<T>(k)).state is Draining,
        run(m, polls::<T>(k)).observed == m.observed + m.pending.take(k as int),
        run(m, polls::<T>(k)).pending == m.pending.skip(k as int),
    decreases k,
{
    if k > 0 {
        assert(polls::<T>(k).drop_last() =~= polls::<T>((k - 1) as nat));
        lemma_drain_prefix(m, (k - 1) as nat);
        assert(m.pending.skip(k - 1).drop_first() =~= m.pending.skip(k as int));
        assert(m.observed + m.pending.take(k as int) =~= (m.observed + m.pending.take(k - 1)).push(
            m.pending[k - 1],
        ));
    } else {
        assert(m.pending.take(0) =~= Seq::<ReadStatus<T>>::empty());
        assert(m.observed + m.pending.take(0) =~= m.observed);
        assert(m.pending.skip(0) =~= m.pending);
    }
}

/// A transport closure ends in exactly one terminal status: however many
/// elements are buffered when the transport closes, that many requests to the
/// source yield them in order, the next yields the terminal status, and the
/// session is then closed.
pub proof fn lemma_closure_drains_to_one_terminal<T>(m: SessionModel<T>)
    requires
        session_wf(m),
        m.state is Active,
    ensures
        ({
            let d = after_transport_closed(m);
            let n = m.pending.len();
            &&& forall|k: nat| k < n ==> #[trigger] poll_outcome(run(d, polls::<T>(k)))
                == SourcePoll::Ready(m.pending[k as int])
            &&& poll_outcome(run(d, polls::<T>(n))) == SourcePoll::<T>::Ready(ReadStatus::Closed)
            &&& run(d, polls::<T>(n + 1)).state is Closed
            &&& run(d, polls::<T>(n + 1)).observed == (m.observed + m.pending).push(ReadStatus::Closed)
        }),
{
    let d = after_transport_closed(m);
    let n = m.pending.len();
    assert forall|k: nat| k < n implies #[trigger] poll_outcome(run(d, polls::<T>(k)))
        == SourcePoll::Ready(m.pending[k as int]) by {
        lemma_drain_prefix(d, k);
    }
    lemma_drain_prefix(d, n);
    assert(polls::<T>(n + 1).drop_last() =~= polls::<T>(n));
    assert(m.pending.take(n as int) =~= m.pending);
}

/// Terminal is final: once the source has yielded its terminal status, every
/// later sequence of operations leaves the session closed, the source yields
/// nothing more, and a write to the sink fails as session-terminal.
pub proof fn lemma_terminal_is_final<T>(m: SessionModel<T>, ops: Seq<SessionOp<T>>)
    requires
        session_wf(m),
        m.observed.contains(ReadStatus::Closed),
    ensures
        run(m, ops).state is Closed,
        run(m, ops).observed == m.observed,
        poll_outcome(run(m, ops)) is Finished,
        write_outcome(run(m, ops)) == Err::<(), ConnectionError>(ConnectionError::SessionTerminal),
        forall|d: T| #[trigger] after_write(run(m, ops), d) == run(m, ops),
    decreases ops.len(),
{
    if !(m.state is Closed) {
        let i = choose|i: int| 0 <= i < m.observed.len() && m.observed[i] == ReadStatus::<T>::Closed;
        assert((m.observed + m.pending)[i] == m.observed[i]);
    }
    if ops.len() > 0 {
        lemma_terminal_is_final(m, ops.drop_last());
    }
}

/// One multiplexed datagram session: the state behind its source and sink.
pub struct DatagramSession<T> {
    state: SessionState,
    inbound: Vec<ReadStatus<T>>,
    outbound: Vec<T>,
    delivered: Ghost<Seq<ReadStatus<T>>>,
    observed: Ghost<Seq<ReadStatus<T>>>,
}

impl<T> View for DatagramSession<T> {
    type V = SessionModel<T>;

    closed spec fn view(&self) -> SessionModel<T> {
        SessionModel {
            state: self.state,
            pending: self.inbound@,
            outbound: self.outbound@,
            delivered: self.delivered@,
            observed: self.observed@,
        }
    }
}

impl<T> DatagramSession<T> {
    /// The session's invariant holds.
    pub open spec fn wf(&self) -> bool {
        session_wf(self@)
    }

    /// A new active session with nothing buffered.
    pub fn new() -> (r: DatagramSession<T>)
        ensures
            r@ == fresh_session::<T>(),
            r.wf(),
    {
        DatagramSession {
            state: SessionState::Active,
            inbound: Vec::new(),
            outbound: Vec::new(),
            delivered: Ghost(Seq::empty()),
            observed: Ghost(Seq::empty()),
        }
    }

    /// The session's current state.
    pub fn state(&self) -> (r: SessionState)
        ensures
            r == self@.state,
    {
        self.state
    }

    fn push_inbound(&mut self, s: ReadStatus<T>) -> (r: bool)
        requires
            old(self).wf(),
            !(s is Closed),
        ensures
            final(self).wf(),
            final(self)@ == after_delivery(old(self)@, s),
            r == (old(self)@.state is Active),
    {
        if let SessionState::Active = self.state {
            self.delivered = Ghost(self.delivered@.push(s));
            self.inbound.push(s);
            assert(self@.observed + self@.pending =~= (old(self)@.observed + old(self)@.pending).push(s));
            true
        } else {
            false
        }
    }

    /// The transport delivers datagram `d`. It is buffered for the source if
    /// the session is active, and refused (`false`) otherwise.
    pub fn deliver(&mut self, d: T) -> (r: bool)
        requires
            old(self).wf(),
        ensures
            final(self).wf(),
            final(self)@ == step(old(self)@, SessionOp::Deliver(d)),
            r == (old(self)@.state is Active),
    {
        self.push_inbound(ReadStatus::Datagram(d))
    }

    /// The transport reports an error that does not end the session. It is
    /// buffered for the source if the session is active.
    pub fn deliver_transient_error(&mut self) -> (r: bool)
        requires
            old(self).wf(),
        ensures
            final(self).wf(),
            final(self)@ == step(old(self)@, SessionOp::<T>::DeliverTransientError),
            r == (old(self)@.state is Active),
    {
        self.push_inbound(ReadStatus::TransientError)
    }

    /// The transport signals closure or an unrecoverable error: an active
    /// session starts draining.
    pub fn close_transport(&mut self)
        requires
            old(self).wf(),
        ensures
            final(self).wf(),
            final(self)@ == step(old(self)@, SessionOp::<T>::CloseTransport),
    {
        if let SessionState::Active = self.state {
            self.state = SessionState::Draining;
        }
    }

    /// The source: the next element, oldest delivery first. Once the session
    /// drains and its buffer is empty it yields one terminal status, and after
    /// that only `Finished`.
    pub fn poll_next(&mut self) -> (r: SourcePoll<T>)
        requires
            old(self).wf(),
        ensures
            final(self).wf(),
            final(self)@ == step(old(self)@, SessionOp::<T>::Poll),
            r == poll_outcome(old(self)@),
    {
        proof {
            lemma_step_keeps_wf(self@, SessionOp::Poll);
        }
        match self.state {
            SessionState::Closed => SourcePoll::Finished,
            state => {
                if self.inbound.len() > 0 {
                    let item = self.inbound.remove(0);
                    self.observed = Ghost(self.observed@.push(item));
                    SourcePoll::Ready(item)
                } else if let SessionState::Draining = state {
                    self.state = SessionState::Closed;
                    self.observed = Ghost(self.observed@.push(ReadStatus::Closed));
                    SourcePoll::Ready(ReadStatus::Closed)
                } else {
                    SourcePoll::Pending
                }
            },
        }
    }

    /// The sink: queues `d` for the transport while the session is active,
    /// and fails fast as session-terminal once it drains or closes.
    pub fn write(&mut self, d: T) -> (r: Result<(), ConnectionError>)
        requires
            old(self).wf(),
        ensures
            final(self).wf(),
            final(self)@ == step(old(self)@, SessionOp::Write(d)),
            r == write_outcome(old(self)@),
    {
        if let SessionState::Active = self.state {
            self.outbound.push(d);
            Ok(())
        } else {
            Err(ConnectionError::SessionTerminal)
        }
    }

    /// The transport takes every datagram written so far, oldest first.
    pub fn take_outbound(&mut self) -> (r: Vec<T>)
        requires
            old(self).wf(),
        ensures
            final(self).wf(),
            final(self)@ == step(old(self)@, SessionOp::<T>::TakeOutbound),
            r@ == old(self)@.outbound,
    {
        let mut taken: Vec<T> = Vec::new();
        std::mem::swap(&mut taken, &mut self.outbound);
        assert(self@ == step(old(self)@, SessionOp::<T>::TakeOutbound));
        taken
    }
}

} // verus!
