//! D2Gfx.dll: where its functions lie once loaded.
use vstd::prelude::*;

use crate::d2api::image_base::{D2RVA, D2GFX_BASE};

verus! {

/// Window functions of D2Gfx.
pub struct WindowOffset {
    pub GetWindow: usize,
}

/// Texture functions of D2Gfx.
pub struct TextureOffset {
    pub CelDrawClipped: usize,
}

/// The address table of D2Gfx.
pub struct D2GfxOffset {
    pub Window: WindowOffset,
    pub Texture: TextureOffset,
}

/// The address table of D2Gfx loaded at `d2gfx`: both entries lie at the
/// base plus offset 0x7FB0 of the 1.13c image.
pub fn init(d2gfx: usize) -> (r: D2GfxOffset)
    requires
        d2gfx + (0x6FA87FB0 - D2GFX_BASE) <= usize::MAX,
    ensures
        r.Window.GetWindow == d2gfx + (0x6FA87FB0 - D2GFX_BASE),
        r.Texture.CelDrawClipped == d2gfx + (0x6FA87FB0 - D2GFX_BASE),
{
    D2GfxOffset {
        Window: WindowOffset { GetWindow: d2gfx + D2RVA::D2Gfx(0x6FA87FB0) },
        Texture: TextureOffset { CelDrawClipped: d2gfx + D2RVA::D2Gfx(0x6FA87FB0) },
    }
}

} // verus!
