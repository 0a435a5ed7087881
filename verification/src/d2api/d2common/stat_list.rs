//! The stat list part of D2Common's address table, as the per-part layout
//! of the module keeps it.
use vstd::prelude::*;

verus! {

/// Stat list functions of D2Common.
pub struct StatListOffset {
    pub GetUnitBaseStat: usize,
}

/// The stat list address table of D2Common loaded at `d2common`.
pub fn init(d2common: usize) -> (r: StatListOffset)
    requires
        d2common + 0x12345 <= usize::MAX,
    ensures
        r.GetUnitBaseStat == d2common + 0x12345,
{
    StatListOffset { GetUnitBaseStat: d2common + 0x12345 }
}

} // verus!
