use vstd::prelude::*;

verus! {

/// Where a packet stands in a replay.
#[derive(Clone, Copy, Debug, PartialEq, Eq, Hash, Structural)]
pub enum ReplayPacketStatus {
    Sent,
    NotSent,
    Failed,
}

} // verus!
