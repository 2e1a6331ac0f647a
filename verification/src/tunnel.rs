//! The transport between the two ends: its life cycle, and what its two
//! pumps do with a datagram that came in and with a frame that is to go out.

use crate::error::Error;
use crate::packet::{decode_spec, DecodeError, TunnelPacket};
use crate::peer::{observed, Address, PeerAddressResolver};
use vstd::prelude::*;

verus! {

/// The IP protocol number of the datagrams that carry the frames.
pub const ICMP_PROTOCOL: u8 = 1;

/// Room that the raw socket needs for one datagram: a frame behind an IP
/// header of 20 bytes.
pub const DATAGRAM_LEN: usize = 84;

/// The role that an end plays.
#[derive(Clone, Copy, Debug, PartialEq, Eq, Structural)]
pub enum TunnelType {
    Client,
    Server,
}

/// Where a transport stands in its life: made, at work, or ended.
#[derive(Clone, Copy, Debug, PartialEq, Eq, Structural)]
pub enum TransportState {
    Idle,
    Running,
    Stopped,
}

/// What can happen to a transport.
#[derive(Clone, Copy, Debug, PartialEq, Eq, Structural)]
pub enum TransportEvent {
    /// The raw socket was opened.
    Opened,
    /// The raw socket could not be opened.
    OpenFailed,
    /// Sending or receiving on the raw socket failed for good.
    SocketFailed,
    /// The owner asks the transport to end.
    Shutdown,
}

/// The state that follows `state` on `event`. An idle transport runs once
/// its socket is open and ends where it cannot be opened; a running one ends
/// on a socket failure or a shutdown; an idle one ends on a shutdown too.
/// Nothing else changes the state, and nothing leads out of `Stopped`.
pub open spec fn next_state(state: TransportState, event: TransportEvent) -> TransportState {
    match (state, event) {
        (TransportState::Idle, TransportEvent::Opened) => TransportState::Running,
        (TransportState::Idle, TransportEvent::OpenFailed) => TransportState::Stopped,
        (TransportState::Idle, TransportEvent::Shutdown) => TransportState::Stopped,
        (TransportState::Running, TransportEvent::SocketFailed) => TransportState::Stopped,
        (TransportState::Running, TransportEvent::Shutdown) => TransportState::Stopped,
        _ => state,
    }
}

/// The failure that the owner of a transport is told of when `event`
/// happens in `state`: that the socket could not be opened, or that it
/// failed at work. Events that change nothing tell nothing.
pub open spec fn surfaced(state: TransportState, event: TransportEvent) -> Option<Error> {
    match (state, event) {
        (TransportState::Idle, TransportEvent::OpenFailed) => Some(Error::TransportOpen),
        (TransportState::Running, TransportEvent::SocketFailed) => Some(Error::ConnectionIo),
        _ => None,
    }
}

/// What a tunnel is made of, as the contracts see it.
pub struct TunnelView {
    pub tunnel_type: TunnelType,
    pub listen_addr: Address,
    pub listen_port: u16,
    pub remote_addr: Address,
    pub state: TransportState,
    pub peer: Option<Address>,
}

/// One end of the tunnel: its configuration, the state of its transport and
/// the peer address that it has learned.
pub struct Tunnel {
    tunnel_type: TunnelType,
    listen_addr: Address,
    listen_port: u16,
    remote_addr: Address,
    state: TransportState,
    peer: PeerAddressResolver,
}

impl View for Tunnel {
    type V = TunnelView;

    closed spec fn view(&self) -> TunnelView {
        TunnelView {
            tunnel_type: self.tunnel_type,
            listen_addr: self.listen_addr,
            listen_port: self.listen_port,
            remote_addr: self.remote_addr,
            state: self.state,
            peer: self.peer@,
        }
    }
}

/// What the ingress pump does with a datagram.
pub enum Ingress {
    /// The datagram is a frame: it goes to the inbound queue.
    Deliver(TunnelPacket),
    /// The datagram is no frame: it is dropped, and the pump goes on.
    Discard(DecodeError),
    /// The transport is not running: nothing is done.
    Inactive,
}

/// What the egress pump does with the frame at the head of the outbound
/// queue.
pub enum Egress {
    /// The frame is sent to `destination`.
    Send { destination: Address, frame: TunnelPacket },
    /// No peer is known yet: the frame stays at the head of the queue.
    Hold,
    /// The transport is not running: nothing is done.
    Inactive,
}

/// Where a tunnel sends its frames: a client to the remote address it was
/// given, a server to the peer it has learned, if any.
pub open spec fn destination_of(tunnel: TunnelView) -> Option<Address> {
    match tunnel.tunnel_type {
        TunnelType::Client => Some(tunnel.remote_addr),
        TunnelType::Server => tunnel.peer,
    }
}

/// The tunnel after a datagram from `source` came in: a running server
/// takes the source of a datagram that decodes as its peer; nothing else
/// changes.
pub open spec fn after_datagram(tunnel: TunnelView, datagram: Seq<u8>, source: Address)
    -> TunnelView {
    if tunnel.state == TransportState::Running && tunnel.tunnel_type == TunnelType::Server
        && decode_spec(datagram) is Ok {
        TunnelView { peer: observed(tunnel.peer, source), ..tunnel }
    } else {
        tunnel
    }
}

impl Tunnel {
    /// An idle tunnel that has learned no peer.
    pub fn new(is_server: bool, listen_addr: Address, listen_port: u16, remote_addr: Address) -> (tunnel:
        Tunnel)
        ensures
            tunnel@ == (TunnelView {
                tunnel_type: if is_server {
                    TunnelType::Server
                } else {
                    TunnelType::Client
                },
                listen_addr,
                listen_port,
                remote_addr,
                state: TransportState::Idle,
                peer: None,
            }),
    {
        let tunnel_type = if is_server {
            TunnelType::Server
        } else {
            TunnelType::Client
        };
        Tunnel {
            tunnel_type,
            listen_addr,
            listen_port,
            remote_addr,
            state: TransportState::Idle,
            peer: PeerAddressResolver::new(),
        }
    }

    /// Moves the transport to the state that follows on `event`, and
    /// returns the failure that its owner is to be told of, if any.
    pub fn handle(&mut self, event: TransportEvent) -> (failure: Option<Error>)
        ensures
            final(self)@ == (TunnelView {
                state: next_state(old(self)@.state, event),
                ..old(self)@
            }),
            failure == surfaced(old(self)@.state, event),
    {
        let (next, failure) = match (self.state, event) {
            (TransportState::Idle, TransportEvent::Opened) => (TransportState::Running, None),
            (TransportState::Idle, TransportEvent::OpenFailed) => (
                TransportState::Stopped,
                Some(Error::TransportOpen),
            ),
            (TransportState::Idle, TransportEvent::Shutdown) => (TransportState::Stopped, None),
            (TransportState::Running, TransportEvent::SocketFailed) => (
                TransportState::Stopped,
                Some(Error::ConnectionIo),
            ),
            (TransportState::Running, TransportEvent::Shutdown) => (TransportState::Stopped, None),
            (state, _) => (state, None),
        };
        self.state = next;
        failure
    }

    /// The ingress pump's step for one datagram that came from `source`.
    /// While the transport runs, a datagram that decodes is delivered, and a
    /// server takes its source as the peer; one that does not decode is
    /// dropped with the reason, and the transport keeps running.
    pub fn receive(&mut self, datagram: &[u8], source: Address) -> (res: Ingress)
        ensures
            final(self)@ == after_datagram(old(self)@, datagram@, source),
            old(self)@.state != TransportState::Running ==> res is Inactive,
            old(self)@.state == TransportState::Running ==> match decode_spec(datagram@) {
                Ok(frame) => res matches Ingress::Deliver(pack) && pack@ == frame,
                Err(e) => res matches Ingress::Discard(f) && f == e,
            },
    {
        match self.state {
            TransportState::Running => {},
            _ => {
                return Ingress::Inactive;
            },
        }
        match TunnelPacket::decode(datagram) {
            Ok(pack) => {
                match self.tunnel_type {
                    TunnelType::Server => {
                        self.peer.observe(source);
                    },
                    TunnelType::Client => {},
                }
                Ingress::Deliver(pack)
            },
            Err(e) => Ingress::Discard(e),
        }
    }

    /// The egress pump's step for the frame at the head of the outbound
    /// queue. While the transport runs, the frame is sent to the tunnel's
    /// destination; a server that has not learned a peer yet holds it back.
    pub fn dispatch(&self, frame: TunnelPacket) -> (res: Egress)
        ensures
            self@.state != TransportState::Running ==> res is Inactive,
            self@.state == TransportState::Running ==> match destination_of(self@) {
                Some(address) => res matches Egress::Send { destination, frame: sent }
                    && destination == address && sent == frame,
                None => res is Hold,
            },
    {
        match self.state {
            TransportState::Running => {},
            _ => {
                return Egress::Inactive;
            },
        }
        match self.destination() {
            Some(destination) => Egress::Send { destination, frame },
            None => Egress::Hold,
        }
    }

    /// Where frames go at present, if anywhere.
    pub fn destination(&self) -> (address: Option<Address>)
        ensures
            address == destination_of(self@),
    {
        match self.tunnel_type {
            TunnelType::Client => Some(self.remote_addr),
            TunnelType::Server => self.peer.current(),
        }
    }

    /// The role of this end.
    pub fn tunnel_type(&self) -> (tunnel_type: TunnelType)
        ensures
            tunnel_type == self@.tunnel_type,
    {
        self.tunnel_type
    }

    /// The state of the transport.
    pub fn state(&self) -> (state: TransportState)
        ensures
            state == self@.state,
    {
        self.state
    }

    /// The local address that this end was given.
    pub fn listen_addr(&self) -> (address: Address)
        ensures
            address == self@.listen_addr,
    {
        self.listen_addr
    }

    /// The local port that this end was given.
    pub fn listen_port(&self) -> (port: u16)
        ensures
            port == self@.listen_port,
    {
        self.listen_port
    }

    /// The remote address that this end was given.
    pub fn remote_addr(&self) -> (address: Address)
        ensures
            address == self@.remote_addr,
    {
        self.remote_addr
    }
}

/// A transport that has stopped stays stopped, whatever happens.
pub proof fn lemma_stopped_is_terminal(event: TransportEvent)
    ensures
        next_state(TransportState::Stopped, event) == TransportState::Stopped,
{
}

/// A running server sends to the source of the latest datagram that
/// decoded, whatever it had learned before; a client sends to its remote
/// address, whatever comes in.
pub proof fn lemma_server_follows_latest_source(
    tunnel: TunnelView,
    datagram: Seq<u8>,
    source: Address,
)
    requires
        tunnel.state == TransportState::Running,
        decode_spec(datagram) is Ok,
    ensures
        tunnel.tunnel_type == TunnelType::Server ==> destination_of(
            after_datagram(tunnel, datagram, source),
        ) == Some(source),
        tunnel.tunnel_type == TunnelType::Client ==> destination_of(
            after_datagram(tunnel, datagram, source),
        ) == Some(tunnel.remote_addr),
{
}

/// A datagram that does not decode never stops the transport, and it
/// leaves the learned peer alone.
pub proof fn lemma_bad_datagram_changes_nothing(tunnel: TunnelView, datagram: Seq<u8>, source: Address)
    requires
        decode_spec(datagram) is Err,
    ensures
        after_datagram(tunnel, datagram, source) == tunnel,
{
}

} // verus!
