//! The kinds of failure, and which of them end the process.

use crate::packet::DecodeError;
use vstd::prelude::*;

verus! {

/// What can go wrong.
#[derive(Clone, Copy, Debug, PartialEq, Eq, Structural)]
pub enum Error {
    /// An address given at startup is not valid.
    Configuration,
    /// The raw socket could not be opened.
    TransportOpen,
    /// A read or write on the TCP stream or on the raw socket failed while
    /// the tunnel was at work.
    ConnectionIo,
    /// A datagram that came in is not a frame.
    Decode(DecodeError),
}

/// Whether a failure ends the process: one at startup does, one at work
/// does not.
pub open spec fn fatal(error: Error) -> bool {
    error == Error::Configuration || error == Error::TransportOpen
}

impl Error {
    /// Whether this failure ends the process. Any other failure ends at
    /// most the relay or the transport that it happened in.
    pub fn is_fatal(&self) -> (res: bool)
        ensures
            res == fatal(*self),
    {
        match self {
            Error::Configuration => true,
            Error::TransportOpen => true,
            Error::ConnectionIo => false,
            Error::Decode(_) => false,
        }
    }
}

} // verus!
