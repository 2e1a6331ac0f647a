//! The address of the other end, as the server learns it from its traffic.

use vstd::prelude::*;

verus! {

/// A network address: the 32 bits of an IPv4 address, or the 128 bits of an
/// IPv6 address, most significant byte first.
#[derive(Clone, Copy, Debug, PartialEq, Eq, Structural)]
pub enum Address {
    V4(u32),
    V6(u128),
}

/// Holds the address that the latest inbound frame came from, if any frame
/// has come in yet.
pub struct PeerAddressResolver {
    learned: Option<Address>,
}

impl View for PeerAddressResolver {
    type V = Option<Address>;

    closed spec fn view(&self) -> Option<Address> {
        self.learned
    }
}

/// The stored address after a frame from `source` was observed: the source,
/// whatever was stored before.
pub open spec fn observed(before: Option<Address>, source: Address) -> Option<Address> {
    Some(source)
}

/// The stored address after the sources in `sources` were observed in
/// order, starting from `before`.
pub open spec fn observe_all(before: Option<Address>, sources: Seq<Address>) -> Option<Address>
    decreases sources.len(),
{
    if sources.len() == 0 {
        before
    } else {
        observed(observe_all(before, sources.drop_last()), sources.last())
    }
}

impl PeerAddressResolver {
    /// A resolver that has learned nothing.
    pub fn new() -> (resolver: PeerAddressResolver)
        ensures
            resolver@ is None,
    {
        PeerAddressResolver { learned: None }
    }

    /// Records the source of an inbound frame. Whatever was stored before
    /// is overwritten.
    pub fn observe(&mut self, address: Address)
        ensures
            final(self)@ == observed(old(self)@, address),
    {
        self.learned = Some(address);
    }

    /// The stored address, or `None` while no inbound frame has arrived.
    pub fn current(&self) -> (address: Option<Address>)
        ensures
            address == self@,
    {
        self.learned
    }
}

/// After any number of frames the resolved peer is the source of the latest
/// one. So the first frame's source is the peer as long as every frame comes
/// from that source, and a frame from another source switches the peer to
/// it.
pub proof fn lemma_peer_is_latest_source(before: Option<Address>, sources: Seq<Address>)
    requires
        sources.len() > 0,
    ensures
        observe_all(before, sources) == Some(sources.last()),
        (forall|i: int| 0 <= i < sources.len() ==> #[trigger] sources[i] == sources[0])
            ==> observe_all(before, sources) == Some(sources[0]),
{
}

} // verus!
