//! Fog.dll: where its functions lie once loaded.
use vstd::prelude::*;

use crate::d2api::image_base::{D2RVA, FOG_BASE};

verus! {

/// The address table of Fog.
pub struct FogOffset {
    pub Trace: usize,
}

/// The address table of Fog loaded at `fog`.
pub fn init(fog: usize) -> (r: FogOffset)
    requires
        fog + (0x6FF69100 - FOG_BASE) <= usize::MAX,
    ensures
        r.Trace == fog + (0x6FF69100 - FOG_BASE),
{
    FogOffset { Trace: fog + D2RVA::Fog(0x6FF69100) }
}

} // verus!
