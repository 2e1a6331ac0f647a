//! The relay on the server's side: it serves the one TCP connection to the
//! target, and is asked about both directions in every round.

use crate::packet::{encode_packs, TunnelPacket, MAX_RUN};
use crate::relay::{frames_of_run, RelayAction, StreamRead};
use vstd::prelude::*;
use vstd::slice::slice_to_vec;

verus! {

/// The state of a server relay, as the contracts see it.
pub struct ServerRelayView {
    /// The connection id of the latest frame that came in, if any did.
    pub active: Option<u16>,
    /// Whether the relay has ended.
    pub closed: bool,
}

/// The relay between the tunnel and the target.
pub struct ServerRelay {
    active: Option<u16>,
    closed: bool,
}

impl View for ServerRelay {
    type V = ServerRelayView;

    closed spec fn view(&self) -> ServerRelayView {
        ServerRelayView { active: self.active, closed: self.closed }
    }
}

/// The connection id that a server relay tags its frames with: that of the
/// latest frame that came in, and 0 before any has.
pub open spec fn tag_of(relay: ServerRelayView) -> u16 {
    match relay.active {
        Some(id) => id,
        None => 0,
    }
}

impl ServerRelay {
    /// A relay that has seen no frame yet.
    pub fn new() -> (relay: ServerRelay)
        ensures
            relay@ == (ServerRelayView { active: None, closed: false }),
    {
        ServerRelay { active: None, closed: false }
    }

    /// Takes a frame from the inbound queue: its payload is to be written
    /// to the target, and its connection id is the active one from now on.
    /// A relay that has ended drops the frame.
    pub fn on_frame(&mut self, frame: TunnelPacket) -> (action: RelayAction)
        ensures
            old(self)@.closed ==> action is Nothing && final(self)@ == old(self)@,
            !old(self)@.closed ==> {
                &&& final(self)@ == (ServerRelayView {
                    active: Some(frame@.connection_id),
                    closed: false,
                })
                &&& action matches RelayAction::Write(bytes)
                &&& bytes@ == frame@.payload
            },
    {
        if self.closed {
            return RelayAction::Nothing;
        }
        self.active = Some(frame.id());
        RelayAction::Write(slice_to_vec(frame.data()))
    }

    /// Takes the outcome of a read of the target's stream that does not
    /// wait. Bytes that were read are split into frames under the active
    /// connection id for the outbound queue; where nothing was there to
    /// read, nothing is done; where the read failed, the relay ends. A
    /// relay that has ended does nothing.
    pub fn on_read(&mut self, read: StreamRead) -> (action: RelayAction)
        requires
            read matches StreamRead::Bytes(bytes) ==> bytes@.len() <= MAX_RUN,
        ensures
            final(self)@.active == old(self)@.active,
            old(self)@.closed ==> action is Nothing && final(self)@ == old(self)@,
            !old(self)@.closed ==> match read {
                StreamRead::Bytes(bytes) => {
                    &&& !final(self)@.closed
                    &&& action matches RelayAction::Enqueue(packs)
                    &&& frames_of_run(packs@, tag_of(old(self)@), bytes@)
                },
                StreamRead::Pending => !final(self)@.closed && action is Nothing,
                StreamRead::Failed => final(self)@.closed && action is Terminate,
            },
    {
        if self.closed {
            return RelayAction::Nothing;
        }
        match read {
            StreamRead::Bytes(bytes) => {
                let id = match self.active {
                    Some(id) => id,
                    None => 0,
                };
                RelayAction::Enqueue(encode_packs(id, bytes))
            },
            StreamRead::Pending => RelayAction::Nothing,
            StreamRead::Failed => {
                self.closed = true;
                RelayAction::Terminate
            },
        }
    }

    /// Takes the news that a write to the target failed: the relay ends.
    pub fn on_write_failed(&mut self) -> (action: RelayAction)
        ensures
            final(self)@ == (ServerRelayView { closed: true, ..old(self)@ }),
            action is Terminate,
    {
        self.closed = true;
        RelayAction::Terminate
    }

    /// The connection id of the latest frame that came in, if any did.
    pub fn active_connection(&self) -> (id: Option<u16>)
        ensures
            id == self@.active,
    {
        self.active
    }

    /// Whether the relay has ended.
    pub fn is_closed(&self) -> (closed: bool)
        ensures
            closed == self@.closed,
    {
        self.closed
    }
}

} // verus!
