//! The forwarding engine: what each loop of the proxy does with an event.
//!
//! The sockets, timers and tasks belong to the caller. It puts every event
//! to the step function of the loop it came from, which transforms the
//! payload in place where there is one and answers with the action to
//! perform.

use vstd::prelude::*;

use crate::addr::SocketAddress;
use crate::conntrack::{ConntrackKey, CONNTRACK_TIMEOUT};
use crate::filters::{is_involution, transformed, Transform};

pub mod connect;
pub mod flows;

pub use connect::{
    get_unspec_sock_addr, ConnectAttempts, ConnectFailure, ConnectStage, ConnectStep,
};

verus! {

/// Why a proxy cannot be set up.
#[derive(Clone, Copy, Debug, PartialEq, Eq, Structural)]
pub enum ProxyError {
    /// No listening socket was bound.
    NoListenAddress,
    /// The upstream resolved to no address.
    NoRemoteAddress,
}

/// How a send on a datagram socket went.
#[derive(Clone, Copy, Debug, PartialEq, Eq, Structural)]
pub enum SendOutcome {
    /// The whole datagram left.
    Sent,
    /// Only `sent` of `len` bytes left; the datagram is lost.
    Short { sent: usize, len: usize },
    /// The socket reported an error; the datagram is lost.
    Failed,
}

/// What an ingress loop learns.
#[derive(Clone, Copy, Debug, PartialEq, Eq, Structural)]
pub enum ListenEvent {
    /// A datagram of `len` bytes from `peer_addr` is in the buffer.
    Datagram { len: usize, peer_addr: SocketAddress },
    /// Receiving on the listening socket failed.
    RecvFailed,
    /// No upstream socket could be had for the flow of the datagram at
    /// hand.
    ConnectFailed,
    /// The send of `len` bytes on the upstream socket returned: `sent` is
    /// the number of bytes it took, or `None` for an error.
    Sent { len: usize, sent: Option<usize> },
}

/// Why an ingress loop, and the process with it, ends.
#[derive(Clone, Copy, Debug, PartialEq, Eq, Structural)]
pub enum ListenStop {
    /// The listening socket is lost.
    RecvFailed,
    /// A flow could not be given its upstream socket.
    ConnectFailed,
}

/// What an ingress loop does next.
#[derive(Clone, Copy, Debug, PartialEq, Eq, Structural)]
pub enum ListenAction {
    /// Get the flow `key` from the table, creating it with a fresh upstream
    /// socket and a reply task of its own where the table has none. Signal
    /// data-in on the flow and send the first `len` bytes of the buffer on
    /// its upstream socket.
    Forward { key: ConntrackKey, len: usize },
    /// Receive the next datagram. `last_send` tells how the send before
    /// went, for the log.
    Receive { last_send: SendOutcome },
    /// Leave the loop.
    Stop { cause: ListenStop },
}

/// Where the reply loop of a flow stands. A flow only ever moves forward.
#[derive(Clone, Copy, Debug, PartialEq, Eq, Structural)]
pub enum FlowState {
    /// The entry was just inserted and the reply loop has not waited yet.
    Fresh,
    /// The reply loop is waiting or sending.
    Active,
    /// The reply loop is over and the entry is to leave the table.
    Closed,
}

/// What a reply loop learns.
#[derive(Clone, Copy, Debug, PartialEq, Eq, Structural)]
pub enum ReplyEvent {
    /// The loop was entered.
    Started,
    /// The idle timer ran out.
    IdleTimeout,
    /// A datagram of `len` bytes from upstream is in the buffer.
    UpstreamData { len: usize },
    /// Receiving from upstream failed.
    UpstreamFailed,
    /// The peer sent something since the loop last waited.
    DataIn,
    /// The send of `len` bytes to the peer returned: `sent` is the number of
    /// bytes it took, or `None` for an error.
    Sent { len: usize, sent: Option<usize> },
}

/// What a reply loop does next.
#[derive(Clone, Copy, Debug, PartialEq, Eq, Structural)]
pub enum ReplyAction {
    /// Arm the idle timer afresh with `timeout` seconds and wait for the
    /// timer, an upstream datagram or the data-in signal, whichever comes
    /// first. `last_send` tells how a send just before went, for the log.
    Wait { timeout: u64, last_send: Option<SendOutcome> },
    /// Send the first `len` bytes of the buffer to `peer_addr` through the
    /// listener `listener_id`.
    SendToPeer { listener_id: usize, peer_addr: SocketAddress, len: usize },
    /// Leave the loop and remove the flow from the table. `failed` tells an
    /// upstream that broke from one that fell idle.
    Close { failed: bool },
}

/// How a send of `len` bytes went, told from what the socket returned.
pub open spec fn send_outcome_of(len: usize, sent: Option<usize>) -> SendOutcome {
    match sent {
        Some(n) => if n == len {
            SendOutcome::Sent
        } else {
            SendOutcome::Short { sent: n, len }
        },
        None => SendOutcome::Failed,
    }
}

/// A payload buffer after the transform `t` went over its first `len`
/// bytes, as far as `t` publishes what it does.
pub open spec fn forwarded<T: Transform>(t: &T, buf: Seq<u8>, len: int) -> Seq<u8> {
    transformed(t, buf.take(len)) + buf.skip(len)
}

/// The action that the ingress loop of the listener `listener_id` takes on
/// `event`. A datagram is forwarded on the flow of its peer on this
/// listener, at the length at which it came. Only a lost listener and a
/// flow without upstream end the loop; however a send went, the loop goes
/// on.
pub open spec fn listen_action(listener_id: usize, event: ListenEvent) -> ListenAction {
    match event {
        ListenEvent::Datagram { len, peer_addr } => ListenAction::Forward {
            key: ConntrackKey { peer_addr, listener_id },
            len,
        },
        ListenEvent::RecvFailed => ListenAction::Stop { cause: ListenStop::RecvFailed },
        ListenEvent::ConnectFailed => ListenAction::Stop { cause: ListenStop::ConnectFailed },
        ListenEvent::Sent { len, sent } => ListenAction::Receive {
            last_send: send_outcome_of(len, sent),
        },
    }
}

/// The state of a reply loop after `event`. The idle timer and a failed
/// receive close the flow; every other event leaves it active; and a closed
/// flow stays closed.
pub open spec fn reply_next_state(state: FlowState, event: ReplyEvent) -> FlowState {
    match (state, event) {
        (FlowState::Closed, _) => FlowState::Closed,
        (_, ReplyEvent::IdleTimeout) => FlowState::Closed,
        (_, ReplyEvent::UpstreamFailed) => FlowState::Closed,
        (_, _) => FlowState::Active,
    }
}

/// The action that the reply loop of the flow `key` takes on `event`. An
/// upstream datagram goes to the peer of the flow through the listener of
/// the flow, at the length at which it came. Whatever else leaves the flow
/// active arms the idle timer afresh, with the one timeout there is.
pub open spec fn reply_action(state: FlowState, key: ConntrackKey, event: ReplyEvent)
    -> ReplyAction {
    match (state, event) {
        (FlowState::Closed, _) => ReplyAction::Close { failed: false },
        (_, ReplyEvent::IdleTimeout) => ReplyAction::Close { failed: false },
        (_, ReplyEvent::UpstreamFailed) => ReplyAction::Close { failed: true },
        (_, ReplyEvent::UpstreamData { len }) => ReplyAction::SendToPeer {
            listener_id: key.listener_id,
            peer_addr: key.peer_addr,
            len,
        },
        (_, ReplyEvent::Sent { len, sent }) => ReplyAction::Wait {
            timeout: CONNTRACK_TIMEOUT,
            last_send: Some(send_outcome_of(len, sent)),
        },
        (_, _) => ReplyAction::Wait { timeout: CONNTRACK_TIMEOUT, last_send: None },
    }
}

/// Whether a reply loop in `state` transforms the buffer on `event`.
pub open spec fn reply_transforms(state: FlowState, event: ReplyEvent) -> bool {
    state != FlowState::Closed && event is UpstreamData
}

/// The unchanging part of a running proxy: the addresses it listens on, the
/// addresses of its upstream, and the transform that every datagram goes
/// through, whichever way it travels.
pub struct UdpProxy<T: Transform> {
    local_addresses: Vec<SocketAddress>,
    remote_addresses: Vec<SocketAddress>,
    packet_transformer: T,
}

impl<T: Transform> UdpProxy<T> {
    #[verifier::type_invariant]
    spec fn has_both_ends(&self) -> bool {
        self.local_addresses@.len() > 0 && self.remote_addresses@.len() > 0
    }

    /// The addresses of the listeners, by listener id.
    pub closed spec fn local_addresses(&self) -> Seq<SocketAddress> {
        self.local_addresses@
    }

    /// The addresses of the upstream, in the order in which they are tried.
    pub closed spec fn remote_addresses(&self) -> Seq<SocketAddress> {
        self.remote_addresses@
    }

    /// The transform applied to every datagram.
    pub closed spec fn packet_transformer(&self) -> T {
        self.packet_transformer
    }

    /// Sets up a proxy from the addresses its listeners are bound to, the
    /// addresses its upstream resolved to, and its transform. Either list
    /// being empty is an error, that of the listeners first.
    pub fn new(
        local_addresses: Vec<SocketAddress>,
        remote_addresses: Vec<SocketAddress>,
        packet_transformer: T,
    ) -> (made: Result<Self, ProxyError>)
        ensures
            local_addresses@.len() == 0 ==> made == Err::<Self, ProxyError>(
                ProxyError::NoListenAddress,
            ),
            local_addresses@.len() > 0 && remote_addresses@.len() == 0 ==> made == Err::<
                Self,
                ProxyError,
            >(ProxyError::NoRemoteAddress),
            local_addresses@.len() > 0 && remote_addresses@.len() > 0 ==> made is Ok && {
                let proxy = made->Ok_0;
                &&& proxy.local_addresses() == local_addresses@
                &&& proxy.remote_addresses() == remote_addresses@
                &&& proxy.packet_transformer() == packet_transformer
            },
    {
        if local_addresses.len() == 0 {
            return Err(ProxyError::NoListenAddress);
        }
        if remote_addresses.len() == 0 {
            return Err(ProxyError::NoRemoteAddress);
        }
        Ok(Self { local_addresses, remote_addresses, packet_transformer })
    }

    /// The addresses that the listeners are bound to, by listener id.
    pub fn get_local_address(&self) -> (addresses: &[SocketAddress])
        ensures
            addresses@ == self.local_addresses(),
            addresses@.len() > 0,
    {
        proof {
            use_type_invariant(self);
        }
        self.local_addresses.as_slice()
    }

    /// The addresses of the upstream, in the order in which they are tried.
    pub fn get_remote_address(&self) -> (addresses: &[SocketAddress])
        ensures
            addresses@ == self.remote_addresses(),
            addresses@.len() > 0,
    {
        proof {
            use_type_invariant(self);
        }
        self.remote_addresses.as_slice()
    }

    /// Runs the transform over the first `len` bytes of `buf`.
    fn transform_head(&self, buf: &mut [u8], len: usize)
        requires
            len <= old(buf)@.len(),
        ensures
            final(buf)@.len() == old(buf)@.len(),
            final(buf)@.skip(len as int) == old(buf)@.skip(len as int),
            self.packet_transformer().modelled() ==> final(buf)@ == forwarded(
                &self.packet_transformer(),
                old(buf)@,
                len as int,
            ),
    {
        let ghost before = buf@;
        let (head, tail) = buf.split_at_mut(len);
        let ghost tail_before = tail@;
        self.packet_transformer.transform(head);
        proof {
            let after = head@ + tail_before;
            assert(after.skip(len as int) =~= before.skip(len as int));
            if self.packet_transformer().modelled() {
                assert(head@ =~= transformed(&self.packet_transformer(), before.take(len as int)));
            }
        }
    }

    /// One turn of the ingress loop of the listener `listener_id`.
    ///
    /// The action is `listen_action` of the event. The `len` bytes of a
    /// datagram are transformed in place, and what lies behind them in the
    /// buffer stays; no other event touches the buffer.
    pub fn listen_step(&self, listener_id: usize, event: ListenEvent, read_buf: &mut [u8]) -> (action:
        ListenAction)
        requires
            event matches ListenEvent::Datagram { len, .. } ==> len <= old(read_buf)@.len(),
        ensures
            action == listen_action(listener_id, event),
            final(read_buf)@.len() == old(read_buf)@.len(),
            !(event is Datagram) ==> final(read_buf)@ == old(read_buf)@,
            event is Datagram ==> {
                let len = event->Datagram_len;
                &&& final(read_buf)@.skip(len as int) == old(read_buf)@.skip(len as int)
                &&& self.packet_transformer().modelled() ==> final(read_buf)@ == forwarded(
                    &self.packet_transformer(),
                    old(read_buf)@,
                    len as int,
                )
            },
    {
        match event {
            ListenEvent::Datagram { len, peer_addr } => {
                self.transform_head(read_buf, len);
                ListenAction::Forward { key: ConntrackKey { peer_addr, listener_id }, len }
            },
            ListenEvent::RecvFailed => ListenAction::Stop { cause: ListenStop::RecvFailed },
            ListenEvent::ConnectFailed => ListenAction::Stop { cause: ListenStop::ConnectFailed },
            ListenEvent::Sent { len, sent } => ListenAction::Receive {
                last_send: send_outcome(len, sent),
            },
        }
    }

    /// One turn of the reply loop of the flow `ct_key`.
    ///
    /// The state that follows is `reply_next_state` and the action is
    /// `reply_action` of the state and the event. The `len` bytes of an
    /// upstream datagram are transformed in place, unless the flow is
    /// closed, and what lies behind them in the buffer stays; nothing else
    /// touches the buffer.
    pub fn reply_step(
        &self,
        state: FlowState,
        ct_key: ConntrackKey,
        event: ReplyEvent,
        read_buf: &mut [u8],
    ) -> (next: (FlowState, ReplyAction))
        requires
            event matches ReplyEvent::UpstreamData { len } ==> len <= old(read_buf)@.len(),
        ensures
            next.0 == reply_next_state(state, event),
            next.1 == reply_action(state, ct_key, event),
            final(read_buf)@.len() == old(read_buf)@.len(),
            !reply_transforms(state, event) ==> final(read_buf)@ == old(read_buf)@,
            reply_transforms(state, event) ==> {
                let len = event->UpstreamData_len;
                &&& final(read_buf)@.skip(len as int) == old(read_buf)@.skip(len as int)
                &&& self.packet_transformer().modelled() ==> final(read_buf)@ == forwarded(
                    &self.packet_transformer(),
                    old(read_buf)@,
                    len as int,
                )
            },
    {
        match state {
            FlowState::Closed => (FlowState::Closed, ReplyAction::Close { failed: false }),
            _ => match event {
                ReplyEvent::IdleTimeout => (FlowState::Closed, ReplyAction::Close { failed: false }),
                ReplyEvent::UpstreamFailed => (
                    FlowState::Closed,
                    ReplyAction::Close { failed: true },
                ),
                ReplyEvent::UpstreamData { len } => {
                    self.transform_head(read_buf, len);
                    (
                        FlowState::Active,
                        ReplyAction::SendToPeer {
                            listener_id: ct_key.listener_id,
                            peer_addr: ct_key.peer_addr,
                            len,
                        },
                    )
                },
                ReplyEvent::Sent { len, sent } => (
                    FlowState::Active,
                    ReplyAction::Wait {
                        timeout: CONNTRACK_TIMEOUT,
                        last_send: Some(send_outcome(len, sent)),
                    },
                ),
                _ => (
                    FlowState::Active,
                    ReplyAction::Wait { timeout: CONNTRACK_TIMEOUT, last_send: None },
                ),
            },
        }
    }
}

/// Tells how a send of `len` bytes went from what the socket returned:
/// `Some` with the number of bytes it took, or `None` for an error.
pub fn send_outcome(len: usize, sent: Option<usize>) -> (outcome: SendOutcome)
    ensures
        outcome == send_outcome_of(len, sent),
{
    match sent {
        Some(n) => if n == len {
            SendOutcome::Sent
        } else {
            SendOutcome::Short { sent: n, len }
        },
        None => SendOutcome::Failed,
    }
}

/// The place of a state in the life of a flow.
pub open spec fn flow_rank(state: FlowState) -> int {
    match state {
        FlowState::Fresh => 0,
        FlowState::Active => 1,
        FlowState::Closed => 2,
    }
}

/// A flow moves forward only: no event takes it back to a state it has
/// left, none makes it fresh again, and a closed flow stays closed.
pub proof fn lemma_flow_moves_forward(state: FlowState, event: ReplyEvent)
    ensures
        flow_rank(reply_next_state(state, event)) >= flow_rank(state),
        reply_next_state(state, event) != FlowState::Fresh,
        state == FlowState::Closed ==> reply_next_state(state, event) == FlowState::Closed,
{
}

/// A reply loop leaves exactly when its flow is closed, and then asks for
/// the entry to be removed.
pub proof fn lemma_closed_flow_is_removed(state: FlowState, key: ConntrackKey, event: ReplyEvent)
    ensures
        reply_next_state(state, event) == FlowState::Closed <==> reply_action(state, key, event)
            is Close,
{
}

/// The idle timer closes a flow, whatever state it is in.
pub proof fn lemma_idle_flow_is_closed(state: FlowState, key: ConntrackKey)
    ensures
        reply_next_state(state, ReplyEvent::IdleTimeout) == FlowState::Closed,
        reply_action(state, key, ReplyEvent::IdleTimeout) == (ReplyAction::Close { failed: false }),
{
}

/// No send ends a loop, however it went: the ingress loop receives again,
/// and the reply loop of a flow that is not closed waits again with a fresh
/// timer.
pub proof fn lemma_sends_end_no_loop(
    listener_id: usize,
    state: FlowState,
    key: ConntrackKey,
    len: usize,
    sent: Option<usize>,
)
    ensures
        listen_action(listener_id, ListenEvent::Sent { len, sent }) is Receive,
        state != FlowState::Closed ==> {
            &&& reply_next_state(state, ReplyEvent::Sent { len, sent }) == FlowState::Active
            &&& reply_action(state, key, ReplyEvent::Sent { len, sent }) is Wait
        },
{
}

/// Two proxies with the same involution, one behind the other, hand every
/// payload on as it came: what the second makes of the output of the first
/// is the input of the first.
pub proof fn lemma_tunnel_round_trip<T: Transform>(t: &T, buf: Seq<u8>, len: int)
    requires
        is_involution(t),
        0 <= len <= buf.len(),
    ensures
        forwarded(t, forwarded(t, buf, len), len) == buf,
{
    let once = forwarded(t, buf, len);
    assert(once.take(len) =~= transformed(t, buf.take(len)));
    assert(once.skip(len) =~= buf.skip(len));
    assert(transformed(t, transformed(t, buf.take(len))) == buf.take(len));
    assert(buf.take(len) + buf.skip(len) =~= buf);
}

/// A datagram goes out at the length at which it came in: the transform
/// keeps the length of what it is given, and so does the buffer.
pub proof fn lemma_forwarded_len<T: Transform>(t: &T, buf: Seq<u8>, len: int)
    requires
        0 <= len <= buf.len(),
    ensures
        forwarded(t, buf, len).len() == buf.len(),
        forwarded(t, buf, len).take(len) == transformed(t, buf.take(len)),
        transformed(t, buf.take(len)).len() == len,
{
    assert(forwarded(t, buf, len).take(len) =~= transformed(t, buf.take(len)));
}

} // verus!
