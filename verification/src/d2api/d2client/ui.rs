//! The UI part of D2Client's address table, as the per-part layout of the
//! module keeps it.
use vstd::prelude::*;

verus! {

/// UI functions of D2Client.
pub struct UIOffset {
    pub SetUIVar: usize,
    pub HandleUIVars: usize,
}

/// The UI address table of D2Client loaded at `d2client`.
pub fn init(d2client: usize) -> (r: UIOffset)
    requires
        d2client + 0x200000 <= usize::MAX,
    ensures
        r.SetUIVar == d2client + 0x100000,
        r.HandleUIVars == d2client + 0x200000,
{
    UIOffset { SetUIVar: d2client + 0x100000, HandleUIVars: d2client + 0x200000 }
}

} // verus!
