//! D2Client's address table kept per part (network and UI).
use vstd::prelude::*;

use crate::d2api::d2client::{net, ui};

verus! {

/// The per-part address tables of D2Client loaded at `d2client`.
pub fn init(d2client: usize) -> (r: (net::NetOffset, ui::UIOffset))
    requires
        d2client + 0x200000 <= usize::MAX,
    ensures
        r.0.SendPacket == d2client + 0x12345,
        r.1.SetUIVar == d2client + 0x100000,
        r.1.HandleUIVars == d2client + 0x200000,
{
    (net::init(d2client), ui::init(d2client))
}

} // verus!
