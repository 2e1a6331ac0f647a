//! What the two relays have in common: what a read of the TCP stream gave,
//! and what a relay asks for in answer to an event.

use crate::packet::{fragment, fragment_count, TunnelPacket};
use vstd::prelude::*;

verus! {

/// Greatest number of bytes that a relay reads from its stream at once.
pub const READ_CHUNK: usize = 1024;

/// What a read of the TCP stream gave.
pub enum StreamRead {
    /// These bytes were read. An empty run means that the stream has ended.
    Bytes(Vec<u8>),
    /// Nothing is there to be read at present.
    Pending,
    /// The read failed.
    Failed,
}

/// What a relay asks for.
pub enum RelayAction {
    /// Put these frames on the outbound queue, in this order.
    Enqueue(Vec<TunnelPacket>),
    /// Write these bytes to the TCP stream.
    Write(Vec<u8>),
    /// End the relay's loop.
    Terminate,
    /// Do nothing.
    Nothing,
}

/// Whether `packs` are the frames that the run `bytes` is split into on
/// connection `id`.
pub open spec fn frames_of_run(packs: Seq<TunnelPacket>, id: u16, bytes: Seq<u8>) -> bool {
    &&& packs.len() == fragment_count(bytes.len())
    &&& forall|i: int| 0 <= i < packs.len() ==> (#[trigger] packs[i])@ == fragment(id, bytes, i)
}

} // verus!
