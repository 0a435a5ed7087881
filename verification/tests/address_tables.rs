use hackmap::consts::{D2Font, D2StringColorCodes, D2UIvars};
use hackmap::d2api::d2client::{self, layout as client_layout, ui_var_address, D2GSMsgStruct, GetUIVar, SwapD2GSHandler, UIVars, D2GS_MAX_CMD};
use hackmap::d2api::d2common::{self, layout as common_layout, D2LevelsTxt, DataTable};
use hackmap::d2api::d2sigma::{self, D2SigmaOffset, D2SIGMA_2_92, D2SIGMA_2_93};
use hackmap::d2api::d2win::{self, StormMsgHandlerParams};
use hackmap::d2api::d2winex::draw_text;
use hackmap::d2api::image_base::D2RVA;
use hackmap::d2api::types::Holder;
use hackmap::d2api::{d2gfx, d2multi, fog};

#[test]
fn image_offsets() {
    assert_eq!(D2RVA::D2Client(0x6FAB1234), 0x1234);
    assert_eq!(D2RVA::D2Common(0x6FD50010), 0x10);
    assert_eq!(D2RVA::D2Win(0x6F8E0000), 0);
    assert_eq!(D2RVA::D2Multi(0x6F9D0001), 1);
    assert_eq!(D2RVA::D2Gfx(0x6FA80100), 0x100);
    assert_eq!(D2RVA::Storm(0x6FBF0200), 0x200);
    assert_eq!(D2RVA::Fog(0x6FF69100), 0x19100);
}

#[test]
fn d2client_table() {
    let t = d2client::init(0x10000000);
    assert_eq!(t.UI.SetUIVar, 0x100C2790);
    assert_eq!(t.UI.HandleUIVars, 0x1004437B);
    assert_eq!(t.UI.gUIVars, 0x100FAD80);
    assert_eq!(t.Net.SendPacket, 0x100143E0);
    assert_eq!(t.Net.gD2GSHandlers, 0x100DDE60);
    assert_eq!(t.Game.Info, 0x1011B980);
    assert_eq!(t.Game.SaveAndExitGame, 0x10065E00);
    assert_eq!(ui_var_address(&t.UI, 0x0D), 0x100FAD80 + 0x34);
    let (net, ui) = client_layout::init(0x400000);
    assert_eq!(net.SendPacket, 0x412345);
    assert_eq!(ui.SetUIVar, 0x500000);
    assert_eq!(ui.HandleUIVars, 0x600000);
}

#[test]
fn d2common_table() {
    let t = d2common::init(0x20000000);
    assert_eq!(t.DataTbls.CompileTxt, 0x2005EF40);
    assert_eq!(t.DataTbls.GetLevelDefRecord, 0x2006CB20);
    assert_eq!(t.DataTbls.GetObjectsTxtRecord, 0x2003E980);
    assert_eq!(t.DataTbls.sgptDataTables, 0x20099E1C);
    assert_eq!(t.StatList.GetUnitBaseStat, 0x20038B70);
    assert_eq!(t.Units.TestCollisionWithUnit, 0x200314A0);
    assert_eq!(t.DrlgDrlg.GetActNoFromLevelId, 0x2002D2C0);
    assert_eq!(t.DrlgDrlg.GetLevel, 0x2002DD80);
    assert_eq!(t.DrlgRoom.GetPresetUnits, 0x20044460);
    assert_eq!(t.DrlgRoom.GetLevelId, 0x20044690);
    assert_eq!(t.DrlgPreset.GetLevelPrestIdFromRoomEx, 0x20009C20);
    assert_eq!(t.Dungeon.GetDrlgFromAct, 0x2003B270);
    assert_eq!(t.Dungeon.IsTownLevelId, 0x2003B230);
    assert_eq!(t.Dungeon.GetHoradricStaffTombLevelId, 0x2003B080);
    assert_eq!(common_layout::init(0x1000).GetUnitBaseStat, 0x13345);
}

#[test]
fn other_tables() {
    let g = d2gfx::init(0x6FA80000);
    assert_eq!(g.Window.GetWindow, 0x6FA87FB0);
    assert_eq!(g.Texture.CelDrawClipped, 0x6FA87FB0);
    assert_eq!(d2multi::init(0).BNet.EnterBNLobby, 0xB670);
    let w = d2win::init(0x100);
    assert_eq!(w.Control.CreateControl, 0x18660);
    assert_eq!(w.EditBox.SetTextW, 0x14EF0);
    assert_eq!(w.EditBox.SelectAll, 0x13820);
    assert_eq!(w.MsgHandler.RegisterMsgHandler, 0x11340);
    assert_eq!(fog::init(0x6FF50000).Trace, 0x6FF69100);
}

#[test]
fn d2sigma_versions() {
    let t = d2sigma::init(0x20000000, D2SIGMA_2_92).unwrap();
    assert_eq!(t.AutoMap.RevealMap, 0x20091A90);
    assert_eq!(t.AutoMap.DrawAutoMap, 0x200511D0);
    assert_eq!(t.Units.GetName, 0x200B8A20);
    assert_eq!(t.Items.GetItemName, 0x200811B0);
    assert_eq!(t.UI.CheckIsMonsterShouldDisplayLifeBar, 0x2008F3FD);
    let t = d2sigma::init(0x10000000, D2SIGMA_2_93).unwrap();
    assert_eq!(t.AutoMap.RevealMap, 0x10091C10);
    assert_eq!(t.AutoMap.DrawAutoMap, 0);
    assert_eq!(t.Units.GetName, 0x100B8D80);
    assert_eq!(t.Units.DisplayItemProperties, 0);
    assert_eq!(t.Items.GetItemName, 0);
    assert_eq!(t.UI.BossLifeBar_Call_Units_GetName, 0x1009014B);
    assert!(d2sigma::init(0x10000000, 0x12345678).is_none());
}

#[test]
fn holder_set_once() {
    let mut h: Holder<D2SigmaOffset> = Holder::new();
    assert!(!d2sigma::initialized(&h));
    h.initialize(d2sigma::init(0x10000000, D2SIGMA_2_92).unwrap());
    assert!(d2sigma::initialized(&h));
    assert_eq!(h.get().AutoMap.RevealMap, 0x10091A90);
    let mut n: Holder<u32> = Holder::new();
    assert!(!n.initialized());
    n.initialize(7);
    assert_eq!(*n.get(), 7);
}

#[test]
fn swap_packet_handler() {
    let mut table: Vec<D2GSMsgStruct> =
        (0..D2GS_MAX_CMD).map(|i| D2GSMsgStruct { handler: i * 10, cmdSize: i as u32, process_unit: 1 }).collect();
    let old = SwapD2GSHandler(&mut table, 4, 999);
    assert_eq!(old, 40);
    assert_eq!(table[4].handler, 999);
    assert_eq!(table[4].cmdSize, 4);
    assert_eq!(table[5].handler, 50);
    let back = SwapD2GSHandler(&mut table, 4, old);
    assert_eq!(back, 999);
    assert!(table.iter().enumerate().all(|(i, e)| e.handler == i * 10 && e.cmdSize == i as u32));
}

#[test]
fn ui_vars() {
    let mut v = UIVars { values: vec![0; 0x1B] };
    v.values[0x1A] = 5;
    v.values[0x05] = 1;
    assert_eq!(GetUIVar(&v, D2UIvars::Cube), 5);
    assert_eq!(GetUIVar(&v, D2UIvars::ChatBox), 1);
    assert_eq!(GetUIVar(&v, D2UIvars::HoldAlt), 0);
}

#[test]
fn message_params() {
    let m = StormMsgHandlerParams {
        hwnd: 0,
        message: 0x100,
        wparam: 0x1234_5678,
        lparam: 0x4001_0002,
        command_source: 0,
        arg: 0,
        returned: 0,
        result: 0,
    };
    assert_eq!(m.virtual_key(), 0x5678);
    assert!(m.key_pressed());
    assert_eq!(m.x(), 2);
    assert_eq!(m.y(), 0x4001);
    let m2 = StormMsgHandlerParams { lparam: 0x0003_0004, ..m };
    assert!(!m2.key_pressed());
    assert_eq!(m2.x(), 4);
    assert_eq!(m2.y(), 3);
}

#[test]
fn centred_text() {
    let t = draw_text(10, 100, 7, D2Font::Font16, D2StringColorCodes::White);
    assert_eq!((t.x, t.y, t.font, t.color), (95, 7, D2Font::Font16, D2StringColorCodes::White));
    assert_eq!(draw_text(3, 100, 0, D2Font::Font6, D2StringColorCodes::Red).x, 99);
    assert_eq!(draw_text(-3, 100, 0, D2Font::Font6, D2StringColorCodes::Red).x, 101);
}

#[test]
fn data_tables() {
    let t = DataTable {
        mon_stats_count: 700,
        levels: vec![D2LevelsTxt { wCMon: vec![1] }, D2LevelsTxt { wCMon: vec![] }, D2LevelsTxt { wCMon: vec![4, 5] }],
    };
    assert_eq!(t.levels_txt_record_count(), 3);
    assert_eq!(t.mon_stats_txt_record_count(), 700);
    assert_eq!(t.get_levels_txt_record(2).unwrap().wCMon, vec![4, 5]);
    assert!(t.get_levels_txt_record(3).is_none());
}

#[test]
fn d2sigma_table_set_only_for_known_versions() {
    let mut h: Holder<D2SigmaOffset> = Holder::new();
    d2sigma::init_address_table(&mut h, 0x10000000, 0x12345678);
    assert!(!d2sigma::initialized(&h));
    let mut h2: Holder<D2SigmaOffset> = Holder::new();
    d2sigma::init_address_table(&mut h2, 0x20000000, D2SIGMA_2_93);
    assert!(d2sigma::initialized(&h2));
    assert_eq!(h2.get().Units.GetName, 0x200B8D80);
    // An unknown version at an address where no table would fit is refused.
    assert!(d2sigma::init(usize::MAX, 0x12345678).is_none());
}
