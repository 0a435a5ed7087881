//! D2Client.dll: where its functions and tables lie once loaded, and its
//! table of server packet handlers.
use vstd::prelude::*;

use crate::consts::D2UIvars;
use crate::d2api::image_base::{D2RVA, D2CLIENT_BASE};

pub mod layout;
pub mod net;
pub mod ui;

verus! {

/// Network functions and tables of D2Client.
pub struct NetOffset {
    pub SendPacket: usize,
    pub gD2GSHandlers: usize,
}

/// UI functions and tables of D2Client.
pub struct UIOffset {
    pub SetUIVar: usize,
    pub HandleUIVars: usize,
    pub gUIVars: usize,
}

/// Game session functions and tables of D2Client.
pub struct GameOffset {
    pub SaveAndExitGame: usize,
    pub Info: usize,
}

/// The address table of D2Client.
pub struct D2ClientOffset {
    pub UI: UIOffset,
    pub Net: NetOffset,
    pub Game: GameOffset,
}

/// The number of server packet commands the client handles.
pub const D2GS_MAX_CMD: usize = 175;

/// One entry of the client's table of server packet handlers; functions
/// are held by their addresses.
#[derive(Clone, Copy, PartialEq, Eq, Structural)]
pub struct D2GSMsgStruct {
    pub handler: usize,
    pub cmdSize: u32,
    pub process_unit: usize,
}

/// `table` with the handler of entry `cmd` replaced by `h`.
pub open spec fn with_handler(table: Seq<D2GSMsgStruct>, cmd: int, h: usize) -> Seq<D2GSMsgStruct> {
    table.update(cmd, D2GSMsgStruct { handler: h, ..table[cmd] })
}

/// Installs `new_handler` for server packet `cmd` and returns the handler
/// it replaces; the rest of the table is left as it was.
pub fn SwapD2GSHandler(handler_table: &mut Vec<D2GSMsgStruct>, cmd: u32, new_handler: usize) -> (r: usize)
    requires
        (cmd as int) < old(handler_table)@.len(),
    ensures
        r == old(handler_table)@[cmd as int].handler,
        final(handler_table)@ == with_handler(old(handler_table)@, cmd as int, new_handler),
{
    let old_handler = handler_table[cmd as usize].handler;
    let mut entry = handler_table[cmd as usize];
    entry.handler = new_handler;
    handler_table.set(cmd as usize, entry);
    old_handler
}

/// Putting back the handler that `SwapD2GSHandler` returned restores the
/// table it changed.
pub proof fn lemma_swap_back_restores(table: Seq<D2GSMsgStruct>, cmd: int, h: usize)
    requires
        0 <= cmd < table.len(),
    ensures
        with_handler(with_handler(table, cmd, h), cmd, table[cmd].handler) == table,
{
    assert(with_handler(with_handler(table, cmd, h), cmd, table[cmd].handler) =~= table);
}

/// The address table of D2Client loaded at `d2client`.
pub open spec fn d2client_offsets(d2client: usize) -> D2ClientOffset {
    D2ClientOffset {
        UI: UIOffset {
            SetUIVar: (d2client + (0x6FB72790 - D2CLIENT_BASE)) as usize,
            HandleUIVars: (d2client + (0x6FAF437B - D2CLIENT_BASE)) as usize,
            gUIVars: (d2client + (0x6FBAAD80 - D2CLIENT_BASE)) as usize,
        },
        Net: NetOffset {
            SendPacket: (d2client + (0x6FAC43E0 - D2CLIENT_BASE)) as usize,
            gD2GSHandlers: (d2client + (0x6FB8DE60 - D2CLIENT_BASE)) as usize,
        },
        Game: GameOffset {
            Info: (d2client + (0x6FBCB980 - D2CLIENT_BASE)) as usize,
            SaveAndExitGame: (d2client + (0x6FB15E00 - D2CLIENT_BASE)) as usize,
        },
    }
}

/// The address table of D2Client loaded at `d2client`: each entry is the
/// base plus the entry's offset in the 1.13c image.
pub fn init(d2client: usize) -> (r: D2ClientOffset)
    requires
        d2client + (0x6FBCB980 - D2CLIENT_BASE) <= usize::MAX,
    ensures
        r == d2client_offsets(d2client),
{
    D2ClientOffset {
        UI: UIOffset {
            SetUIVar: d2client + D2RVA::D2Client(0x6FB72790),
            HandleUIVars: d2client + D2RVA::D2Client(0x6FAF437B),
            gUIVars: d2client + D2RVA::D2Client(0x6FBAAD80),
        },
        Net: NetOffset {
            SendPacket: d2client + D2RVA::D2Client(0x6FAC43E0),
            gD2GSHandlers: d2client + D2RVA::D2Client(0x6FB8DE60),
        },
        Game: GameOffset {
            Info: d2client + D2RVA::D2Client(0x6FBCB980),
            SaveAndExitGame: d2client + D2RVA::D2Client(0x6FB15E00),
        },
    }
}

/// The address of UI variable slot `index`: the slots are 4-byte integers
/// from `gUIVars` on.
pub fn ui_var_address(ui: &UIOffset, index: usize) -> (r: usize)
    requires
        ui.gUIVars + index * 4 <= usize::MAX,
    ensures
        r == ui.gUIVars + index * 4,
{
    ui.gUIVars + index * 4
}

/// The number of UI variable slots the hack map reads (slots 0 to 0x1A).
pub const UI_VARS_READ: usize = 0x1B;

/// The client's UI variables as read from its array: one integer per slot,
/// not 0 while the matching panel or state is on.
pub struct UIVars {
    pub values: Vec<i32>,
}

/// Whether the snapshot holds every slot the hack map reads.
pub open spec fn ui_vars_complete(v: UIVars) -> bool {
    v.values@.len() >= UI_VARS_READ
}

/// The value of UI variable `var`.
pub fn GetUIVar(vars: &UIVars, var: D2UIvars) -> (r: i32)
    requires
        ui_vars_complete(*vars),
    ensures
        r == vars.values@[var.index_spec() as int],
{
    vars.values[var.index()]
}

} // verus!
