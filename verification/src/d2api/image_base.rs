//! The addresses the game modules of Diablo II 1.13c are built for, and the
//! conversion of an address in a module's image to an offset from its base.
use vstd::prelude::*;

verus! {

/// The image bases of the game modules of version 1.13c.
pub struct D2ImageBase113C;

/// Image base of D2Client.dll.
pub const D2CLIENT_BASE: usize = 0x6FAB0000;
/// Image base of D2Common.dll.
pub const D2COMMON_BASE: usize = 0x6FD50000;
/// Image base of D2Win.dll.
pub const D2WIN_BASE: usize = 0x6F8E0000;
/// Image base of D2Multi.dll.
pub const D2MULTI_BASE: usize = 0x6F9D0000;
/// Image base of D2Gfx.dll.
pub const D2GFX_BASE: usize = 0x6FA80000;
/// Image base of Storm.dll.
pub const STORM_BASE: usize = 0x6FBF0000;
/// Image base of Fog.dll.
pub const FOG_BASE: usize = 0x6FF50000;

/// Offsets of addresses from the image base of their module.
pub struct D2RVA;

impl D2RVA {
    /// The offset of `va`, an address in D2Client's image, from its base.
    pub fn D2Client(va: usize) -> (r: usize)
        requires
            va >= D2CLIENT_BASE,
        ensures
            r == va - D2CLIENT_BASE,
    {
        va - D2CLIENT_BASE
    }

    /// The offset of `va`, an address in D2Common's image, from its base.
    pub fn D2Common(va: usize) -> (r: usize)
        requires
            va >= D2COMMON_BASE,
        ensures
            r == va - D2COMMON_BASE,
    {
        va - D2COMMON_BASE
    }

    /// The offset of `va`, an address in D2Win's image, from its base.
    pub fn D2Win(va: usize) -> (r: usize)
        requires
            va >= D2WIN_BASE,
        ensures
            r == va - D2WIN_BASE,
    {
        va - D2WIN_BASE
    }

    /// The offset of `va`, an address in D2Multi's image, from its base.
    pub fn D2Multi(va: usize) -> (r: usize)
        requires
            va >= D2MULTI_BASE,
        ensures
            r == va - D2MULTI_BASE,
    {
        va - D2MULTI_BASE
    }

    /// The offset of `va`, an address in D2Gfx's image, from its base.
    pub fn D2Gfx(va: usize) -> (r: usize)
        requires
            va >= D2GFX_BASE,
        ensures
            r == va - D2GFX_BASE,
    {
        va - D2GFX_BASE
    }

    /// The offset of `va`, an address in Storm's image, from its base.
    pub fn Storm(va: usize) -> (r: usize)
        requires
            va >= STORM_BASE,
        ensures
            r == va - STORM_BASE,
    {
        va - STORM_BASE
    }

    /// The offset of `va`, an address in Fog's image, from its base.
    pub fn Fog(va: usize) -> (r: usize)
        requires
            va >= FOG_BASE,
        ensures
            r == va - FOG_BASE,
    {
        va - FOG_BASE
    }
}

} // verus!
