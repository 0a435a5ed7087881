//! The network part of D2Client's address table, as the per-part layout
//! of the module keeps it.
use vstd::prelude::*;

verus! {

/// Network functions of D2Client.
pub struct NetOffset {
    pub SendPacket: usize,
}

/// The network address table of D2Client loaded at `d2client`.
pub fn init(d2client: usize) -> (r: NetOffset)
    requires
        d2client + 0x12345 <= usize::MAX,
    ensures
        r.SendPacket == d2client + 0x12345,
{
    NetOffset { SendPacket: d2client + 0x12345 }
}

} // verus!
