//! Error kinds of the capture pipeline.

use vstd::prelude::*;

verus! {

/// Why a single frame could not be decoded. Such a frame is left out of the
/// replay sequence; processing goes on with the next one.
#[derive(Clone, Copy, Debug, PartialEq, Eq, Hash, Structural)]
pub enum DecodeError {
    /// Fewer than 14 bytes: no room for an Ethernet II header.
    FrameTooShort,
    /// A network or transport header does not fit into the bytes at hand.
    HeaderTooShort,
    /// The ethertype is not IPv4.
    UnsupportedLinkProtocol,
    /// The IPv4 protocol number is neither TCP nor UDP.
    UnsupportedTransportProtocol,
}

/// Why a whole capture could not be turned into a replay model.
#[derive(Clone, Copy, Debug, PartialEq, Eq, Hash, Structural)]
pub enum RewindError {
    /// The capture source could not be opened or read.
    CaptureOpenFailed,
    /// A frame carries an earlier timestamp than the packet before it.
    NonMonotonicTimestamp,
}

/// Whether a decoder's result `res` is what the format's definition `model`
/// says: the same error, or a value whose view is the defined one.
pub open spec fn decoded_as<T: View>(res: Result<T, DecodeError>, model: Result<T::V, DecodeError>) -> bool {
    match model {
        Ok(v) => res matches Ok(t) && t@ == v,
        Err(e) => res matches Err(x) && x == e,
    }
}

} // verus!
