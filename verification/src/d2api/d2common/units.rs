//! What the hack map reads of a unit's record.
use vstd::prelude::*;

verus! {

/// The fields of a unit's record that the hack map reads.
#[derive(Clone, Copy, PartialEq, Eq, Structural)]
pub struct D2Unit {
    pub dwUnitType: u32,
    pub dwClassId: u32,
    pub dwUnitId: u32,
    pub nAct: u8,
}

} // verus!
