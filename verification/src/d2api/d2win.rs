//! D2Win.dll: where its functions lie once loaded, and the parameters of
//! the window messages its handlers receive.
use vstd::prelude::*;

use crate::d2api::image_base::{D2RVA, D2WIN_BASE};

verus! {

/// Control functions of D2Win.
pub struct ControlOffset {
    pub CreateControl: usize,
}

/// Edit box functions of D2Win.
pub struct EditBoxOffset {
    pub SetTextW: usize,
    pub SelectAll: usize,
}

/// Message handler functions of D2Win.
pub struct MsgHandlerOffset {
    pub RegisterMsgHandler: usize,
}

/// The address table of D2Win.
pub struct D2WinOffset {
    pub Control: ControlOffset,
    pub EditBox: EditBoxOffset,
    pub MsgHandler: MsgHandlerOffset,
}

/// The address table of D2Win loaded at `d2win`.
pub fn init(d2win: usize) -> (r: D2WinOffset)
    requires
        d2win + (0x6F8F8560 - D2WIN_BASE) <= usize::MAX,
    ensures
        r.Control.CreateControl == d2win + (0x6F8F8560 - D2WIN_BASE),
        r.EditBox.SetTextW == d2win + (0x6F8F4DF0 - D2WIN_BASE),
        r.EditBox.SelectAll == d2win + (0x6F8F3720 - D2WIN_BASE),
        r.MsgHandler.RegisterMsgHandler == d2win + (0x6F8F1240 - D2WIN_BASE),
{
    D2WinOffset {
        Control: ControlOffset { CreateControl: d2win + D2RVA::D2Win(0x6F8F8560) },
        EditBox: EditBoxOffset {
            SetTextW: d2win + D2RVA::D2Win(0x6F8F4DF0),
            SelectAll: d2win + D2RVA::D2Win(0x6F8F3720),
        },
        MsgHandler: MsgHandlerOffset { RegisterMsgHandler: d2win + D2RVA::D2Win(0x6F8F1240) },
    }
}

/// The parameters of a window message as Storm hands them to a handler.
#[derive(Clone, Copy)]
pub struct StormMsgHandlerParams {
    pub hwnd: usize,
    pub message: u32,
    pub wparam: u32,
    pub lparam: u32,
    pub command_source: u32,
    pub arg: u32,
    pub returned: i32,
    pub result: i32,
}

impl StormMsgHandlerParams {
    /// The virtual key of a key message: the low 16 bits of `wparam`.
    pub fn virtual_key(&self) -> (r: u16)
        ensures
            r == self.wparam % 0x10000,
    {
        let w = self.wparam;
        assert(w as u16 == w % 0x10000) by (bit_vector);
        w as u16
    }

    /// Whether the key was already down: bit 30 of `lparam`.
    pub fn key_pressed(&self) -> (r: bool)
        ensures
            r == ((self.lparam / 0x4000_0000) % 2 == 1),
    {
        let l = self.lparam;
        assert((l & (1u32 << 30u32) != 0) == ((l / 0x4000_0000) % 2 == 1)) by (bit_vector);
        (l & (1 << 30)) != 0
    }

    /// The x coordinate of a mouse message: the low 16 bits of `lparam`.
    pub fn x(&self) -> (r: u16)
        ensures
            r == self.lparam % 0x10000,
    {
        let l = self.lparam;
        assert(l as u16 == l % 0x10000) by (bit_vector);
        l as u16
    }

    /// The y coordinate of a mouse message: the high 16 bits of `lparam`.
    pub fn y(&self) -> (r: u16)
        ensures
            r == self.lparam / 0x10000,
    {
        let l = self.lparam;
        assert(((l >> 16u32) as u16) == l / 0x10000) by (bit_vector);
        (l >> 16) as u16
    }
}

} // verus!
