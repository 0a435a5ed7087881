//! D2Multi.dll: where its functions lie once loaded.
use vstd::prelude::*;

use crate::d2api::image_base::{D2RVA, D2MULTI_BASE};

verus! {

/// Battle.net functions of D2Multi.
pub struct BNetOffset {
    pub EnterBNLobby: usize,
}

/// The address table of D2Multi.
pub struct D2MultiOffset {
    pub BNet: BNetOffset,
}

/// The address table of D2Multi loaded at `d2multi`.
pub fn init(d2multi: usize) -> (r: D2MultiOffset)
    requires
        d2multi + (0x6F9DB670 - D2MULTI_BASE) <= usize::MAX,
    ensures
        r.BNet.EnterBNLobby == d2multi + (0x6F9DB670 - D2MULTI_BASE),
{
    D2MultiOffset { BNet: BNetOffset { EnterBNLobby: d2multi + D2RVA::D2Multi(0x6F9DB670) } }
}

} // verus!
