//! The relay on the client's side: it serves one accepted TCP connection,
//! and sends what it reads and writes what comes back in strict turns.

use crate::packet::{encode_packs, TunnelPacket, MAX_RUN};
use crate::relay::{frames_of_run, RelayAction, StreamRead};
use rand::Rng;
use vstd::prelude::*;
use vstd::slice::slice_to_vec;

verus! {

/// What the client relay waits for.
#[derive(Clone, Copy, Debug, PartialEq, Eq, Structural)]
pub enum ClientPhase {
    /// For the next bytes from the TCP stream.
    Reading,
    /// For the one frame that answers what was sent.
    AwaitingReply,
    /// For nothing: the relay has ended.
    Closed,
}

/// The state of a client relay, as the contracts see it.
pub struct ClientRelayView {
    pub connection_id: u16,
    pub phase: ClientPhase,
}

/// The relay of one accepted connection.
pub struct ClientRelay {
    conn_id: u16,
    phase: ClientPhase,
}

impl View for ClientRelay {
    type V = ClientRelayView;

    closed spec fn view(&self) -> ClientRelayView {
        ClientRelayView { connection_id: self.conn_id, phase: self.phase }
    }
}

/// `rand::thread_rng` and `Rng::gen` on the generator it returns: a 16-bit
/// number drawn at random. Nothing is claimed of the number.
#[verifier::external_body]
fn random_connection_id() -> u16 {
    rand::thread_rng().gen()
}

impl ClientRelay {
    /// The relay of a connection that was just accepted, under a connection
    /// id drawn at random.
    pub fn accept() -> (relay: ClientRelay)
        ensures
            relay@.phase == ClientPhase::Reading,
    {
        ClientRelay::with_connection_id(random_connection_id())
    }

    /// The relay of a connection that was just accepted, under the
    /// connection id `id`.
    pub fn with_connection_id(id: u16) -> (relay: ClientRelay)
        ensures
            relay@ == (ClientRelayView { connection_id: id, phase: ClientPhase::Reading }),
    {
        ClientRelay { conn_id: id, phase: ClientPhase::Reading }
    }

    /// Takes the outcome of a read of the TCP stream. A relay that waits
    /// for bytes splits what was read into frames for the outbound queue,
    /// and from then on waits for the reply; at the end of the stream, or
    /// where the read failed, it ends. While nothing is there to read it
    /// goes on waiting. A relay that does not wait for bytes does nothing.
    pub fn on_read(&mut self, read: StreamRead) -> (action: RelayAction)
        requires
            read matches StreamRead::Bytes(bytes) ==> bytes@.len() <= MAX_RUN,
        ensures
            final(self)@.connection_id == old(self)@.connection_id,
            old(self)@.phase != ClientPhase::Reading ==> action is Nothing && final(self)@
                == old(self)@,
            old(self)@.phase == ClientPhase::Reading ==> match read {
                StreamRead::Bytes(bytes) => if bytes@.len() > 0 {
                    &&& final(self)@.phase == ClientPhase::AwaitingReply
                    &&& action matches RelayAction::Enqueue(packs)
                    &&& frames_of_run(packs@, old(self)@.connection_id, bytes@)
                } else {
                    final(self)@.phase == ClientPhase::Closed && action is Terminate
                },
                StreamRead::Pending => final(self)@.phase == ClientPhase::Reading
                    && action is Nothing,
                StreamRead::Failed => final(self)@.phase == ClientPhase::Closed
                    && action is Terminate,
            },
    {
        match self.phase {
            ClientPhase::Reading => {},
            _ => {
                return RelayAction::Nothing;
            },
        }
        match read {
            StreamRead::Bytes(bytes) => {
                if bytes.len() == 0 {
                    self.phase = ClientPhase::Closed;
                    RelayAction::Terminate
                } else {
                    self.phase = ClientPhase::AwaitingReply;
                    RelayAction::Enqueue(encode_packs(self.conn_id, bytes))
                }
            },
            StreamRead::Pending => RelayAction::Nothing,
            StreamRead::Failed => {
                self.phase = ClientPhase::Closed;
                RelayAction::Terminate
            },
        }
    }

    /// Takes a frame from the inbound queue. A relay that waits for the
    /// reply has its payload written to the TCP stream and goes back to
    /// reading; any other relay drops the frame.
    pub fn on_frame(&mut self, frame: TunnelPacket) -> (action: RelayAction)
        ensures
            final(self)@.connection_id == old(self)@.connection_id,
            old(self)@.phase == ClientPhase::AwaitingReply ==> {
                &&& final(self)@.phase == ClientPhase::Reading
                &&& action matches RelayAction::Write(bytes)
                &&& bytes@ == frame@.payload
            },
            old(self)@.phase != ClientPhase::AwaitingReply ==> action is Nothing && final(self)@
                == old(self)@,
    {
        match self.phase {
            ClientPhase::AwaitingReply => {
                self.phase = ClientPhase::Reading;
                RelayAction::Write(slice_to_vec(frame.data()))
            },
            _ => RelayAction::Nothing,
        }
    }

    /// Takes the news that a write to the TCP stream failed: the relay
    /// ends.
    pub fn on_write_failed(&mut self) -> (action: RelayAction)
        ensures
            final(self)@ == (ClientRelayView { phase: ClientPhase::Closed, ..old(self)@ }),
            action is Terminate,
    {
        self.phase = ClientPhase::Closed;
        RelayAction::Terminate
    }

    /// The connection id that this relay tags its frames with.
    pub fn connection_id(&self) -> (id: u16)
        ensures
            id == self@.connection_id,
    {
        self.conn_id
    }

    /// What the relay waits for.
    pub fn phase(&self) -> (phase: ClientPhase)
        ensures
            phase == self@.phase,
    {
        self.phase
    }
}

} // verus!
