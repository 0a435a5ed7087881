//! D2Common's address table kept per part (stat lists).
use vstd::prelude::*;

use crate::d2api::d2common::stat_list;

verus! {

/// The per-part address tables of D2Common loaded at `d2common`.
pub fn init(d2common: usize) -> (r: stat_list::StatListOffset)
    requires
        d2common + 0x12345 <= usize::MAX,
    ensures
        r.GetUnitBaseStat == d2common + 0x12345,
{
    stat_list::init(d2common)
}

} // verus!
