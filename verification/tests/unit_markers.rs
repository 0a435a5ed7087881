use hackmap::consts::{D2Font, D2ItemQualities, D2StringColorCodes};
use hackmap::d2api::d2client::UIVars;
use hackmap::hackmap::config::{Config, ItemColor, ItemUnit};
use hackmap::hackmap::unit_color::{
    automap_draw_enabled, draw_cell_by_blob_file, draw_default_cross, AutomapRect, AutomapView, DrawCommand,
    MarkerShape, MonsterInfo, UnitColor, UnitKind, UnitSnapshot,
};

fn monster(class_id: u32, type_flag: u8, flags: u32) -> MonsterInfo {
    MonsterInfo {
        class_id,
        is_corpse: false,
        mon_stats_flags: Some(flags),
        level_monsters: Some(vec![1, 2, 3]),
        owner_id: u32::MAX,
        type_flag,
        boss_hc_idx: 0,
        umods: vec![],
        name: "Name".to_string(),
        physical_resist: 0,
        magic_resist: 0,
        fire_resist: 0,
        lightning_resist: 0,
        cold_resist: 0,
        poison_resist: 0,
    }
}

fn config() -> Config {
    let mut c = Config::new();
    c.unit_color.normal_monster_color = 0x10;
    c.unit_color.boss_monster_color = 0x20;
    c.unit_color.minion_monster_color = 0x30;
    c.unit_color.champion_monster_color = 0x40;
    c.unit_color.super_unique_color = 0x50;
    c.unit_color.boss_blob_file = Some("boss.dc6".to_string());
    c.unit_color.monster_blob_file = Some("monster.dc6".to_string());
    c.unit_color.npc_blob_file = Some("npc.dc6".to_string());
    c.unit_color.my_blob_file = Some("me.dc6".to_string());
    c.unit_color.item_blob_file = Some("item.dc6".to_string());
    c.unit_color.magic_resistant_desc = Some("MR".to_string());
    c.unit_color.fire_enchanted_desc = Some("FE".to_string());
    c.unit_color.lightning_enchanted_desc = Some("LE".to_string());
    c.unit_color.fire_immunity_desc = Some("\u{ff}c1FI".to_string());
    c.unit_color.cold_immunity_desc = Some("\u{ff}c3CI".to_string());
    c.unit_color.poison_immunity_desc = Some(String::new());
    c
}

fn cell(cmd: &DrawCommand) -> (i32, i32, Option<String>, u8) {
    match cmd {
        DrawCommand::Cell { x, y, blob_file, color } => (*x, *y, blob_file.clone(), *color),
        _ => panic!("not a cell"),
    }
}

fn text(cmd: &DrawCommand) -> (String, i32, i32, D2Font, D2StringColorCodes) {
    match cmd {
        DrawCommand::Text { text, x, y, font, color } => (text.clone(), *x, *y, *font, *color),
        _ => panic!("not a text"),
    }
}

#[test]
fn skipped_monsters() {
    let c = config();
    let uc = UnitColor::new();
    assert!(uc.draw_monster(&c.unit_color, &monster(179, 0, 0), 0, 0).is_empty());
    let mut m = monster(5, 0, 0);
    m.is_corpse = true;
    assert!(uc.draw_monster(&c.unit_color, &m, 0, 0).is_empty());
    let mut m = monster(5, 0, 0);
    m.mon_stats_flags = None;
    assert!(uc.draw_monster(&c.unit_color, &m, 0, 0).is_empty());
    assert!(uc.draw_monster(&c.unit_color, &monster(5, 0, 0x500), 0, 0).is_empty());
    let mut m = monster(0x10002, 0, 0);
    m.level_monsters = Some(vec![2]);
    assert!(uc.draw_monster(&c.unit_color, &m, 0, 0).is_empty());
    let mut m = monster(5, 0, 0);
    m.level_monsters = None;
    assert!(uc.draw_monster(&c.unit_color, &m, 0, 0).is_empty());
    let mut m = monster(5, 0, 0);
    m.owner_id = 7;
    assert!(uc.draw_monster(&c.unit_color, &m, 0, 0).is_empty());
}

#[test]
fn npc_marker() {
    let c = config();
    let uc = UnitColor::new();
    let mut m = monster(5, 0, 0x300);
    m.name = "Akara".to_string();
    m.level_monsters = None;
    let r = uc.draw_monster(&c.unit_color, &m, 100, 50);
    assert_eq!(r.len(), 2);
    assert_eq!(text(&r[0]), ("Akara".to_string(), 100, 42, D2Font::Font6, D2StringColorCodes::DarkGold));
    assert_eq!(cell(&r[1]), (100, 50, Some("npc.dc6".to_string()), 0xFF));
}

#[test]
fn super_unique_marker() {
    let c = config();
    let uc = UnitColor::new();
    let mut m = monster(5, 0x02, 0);
    m.name = "Bishibosh".to_string();
    m.fire_resist = 100;
    m.cold_resist = 99;
    m.poison_resist = 200;
    let r = uc.draw_monster(&c.unit_color, &m, 10, 20);
    assert_eq!(r.len(), 2);
    assert_eq!(cell(&r[0]), (10, 20, Some("boss.dc6".to_string()), 0x50));
    assert_eq!(
        text(&r[1]),
        ("\u{ff}c1\u{ff}c1Bishibosh\u{ff}c1FI".to_string(), 10, 10, D2Font::Font16, D2StringColorCodes::White)
    );
}

#[test]
fn unique_boss_marker_with_mods() {
    let c = config();
    let uc = UnitColor::new();
    let mut m = monster(5, 0x08, 0x40);
    m.umods = vec![8, 17, 0, 9];
    let r = uc.draw_monster(&c.unit_color, &m, 0, 0);
    assert_eq!(cell(&r[0]), (0, 0, Some("boss.dc6".to_string()), 0x20));
    assert_eq!(text(&r[1]).0, "\u{ff}c1\u{ff}c1NameMRLE");
    let mut m2 = monster(5, 0x08, 0);
    m2.umods = vec![9, 3];
    let r2 = uc.draw_monster(&c.unit_color, &m2, 0, 0);
    assert_eq!(text(&r2[1]).0, "\u{ff}c1FE");
    let mut m3 = monster(5, 0x18, 0x40);
    m3.umods = vec![9];
    let r3 = uc.draw_monster(&c.unit_color, &m3, 0, 0);
    assert_eq!(cell(&r3[0]).3, 0x20);
    assert_eq!(text(&r3[1]).0, "\u{ff}c1FE");
    let mut m4 = monster(5, 0x08, 0x40);
    m4.boss_hc_idx = 3;
    assert_eq!(text(&uc.draw_monster(&c.unit_color, &m4, 0, 0)[1]).0, "\u{ff}c1");
}

#[test]
fn champion_minion_normal_and_boss_class() {
    let c = config();
    let mut uc = UnitColor::new();
    let r = uc.draw_monster(&c.unit_color, &monster(5, 0x04, 0), 0, 0);
    assert_eq!(cell(&r[0]), (0, 0, Some("monster.dc6".to_string()), 0x40));
    assert_eq!(text(&r[1]).0, "\u{ff}c1");
    let r = uc.draw_monster(&c.unit_color, &monster(5, 0x10, 0), 0, 0);
    assert_eq!(cell(&r[0]).3, 0x30);
    let r = uc.draw_monster(&c.unit_color, &monster(5, 0, 0), 0, 0);
    assert_eq!(cell(&r[0]), (0, 0, Some("monster.dc6".to_string()), 0x10));
    uc.boss_monster_id.insert(5, 1);
    let r = uc.draw_monster(&c.unit_color, &monster(5, 0, 0), 0, 0);
    assert_eq!(cell(&r[0]), (0, 0, Some("boss.dc6".to_string()), 0x50));
    assert_eq!(text(&r[1]).0, "\u{ff}c1\u{ff}c1Name");
}

#[test]
fn per_class_color() {
    let mut c = config();
    c.unit_color.monster_color.insert(5, 0x66);
    c.unit_color.monster_color.insert(6, 0xFF);
    let uc = UnitColor::new();
    assert_eq!(cell(&uc.draw_monster(&c.unit_color, &monster(5, 0x04, 0), 0, 0)[0]).3, 0x66);
    assert!(uc.draw_monster(&c.unit_color, &monster(6, 0x04, 0), 0, 0).is_empty());
}

fn view() -> AutomapView {
    AutomapView {
        divisor: 10,
        offset_x: 5,
        offset_y: 3,
        rect: AutomapRect { left: 0, top: 0, right: 200, bottom: 200 },
    }
}

fn snapshot(unit_id: u32, x: i32, y: i32, kind: UnitKind) -> UnitSnapshot {
    UnitSnapshot { unit_id, client_x: x, client_y: y, kind }
}

#[test]
fn player_markers_and_position() {
    let c = config();
    let uc = UnitColor::new();
    let me = snapshot(7, 1000, 500, UnitKind::Player { client_player_id: Some(7) });
    let r = uc.draw_unit(&c.unit_color, &me, &view());
    assert_eq!(cell(&r[0]), (103, 39, Some("me.dc6".to_string()), 0x97));
    let other = snapshot(8, 1000, 500, UnitKind::Player { client_player_id: Some(7) });
    assert_eq!(cell(&uc.draw_unit(&c.unit_color, &other, &view())[0]).3, 0x81);
    let lonely = snapshot(8, 1000, 500, UnitKind::Player { client_player_id: None });
    assert!(uc.draw_unit(&c.unit_color, &lonely, &view()).is_empty());
}

#[test]
fn position_rounds_toward_zero() {
    let c = config();
    let uc = UnitColor::new();
    let mut v = view();
    v.rect = AutomapRect { left: -50, top: -50, right: 50, bottom: 50 };
    let me = snapshot(7, -15, -15, UnitKind::Player { client_player_id: Some(7) });
    let r = uc.draw_unit(&c.unit_color, &me, &v);
    assert_eq!(cell(&r[0]).0, -1 - 5 + 8);
    assert_eq!(cell(&r[0]).1, -1 - 3 - 8);
    let mut v2 = v;
    v2.divisor = -10;
    let r = uc.draw_unit(&c.unit_color, &me, &v2);
    assert_eq!(cell(&r[0]).0, 1 - 5 + 8);
}

#[test]
fn clipping_and_other_kinds() {
    let c = config();
    let uc = UnitColor::new();
    let far = snapshot(7, 3000, 500, UnitKind::Player { client_player_id: Some(7) });
    assert!(uc.draw_unit(&c.unit_color, &far, &view()).is_empty());
    let edge = snapshot(7, 1970, 500, UnitKind::Player { client_player_id: Some(7) });
    assert_eq!(cell(&uc.draw_unit(&c.unit_color, &edge, &view())[0]).0, 200);
    let missile = snapshot(9, 1000, 500, UnitKind::Missile);
    assert!(uc.draw_unit(&c.unit_color, &missile, &view()).is_empty());
    let object = snapshot(9, 1000, 500, UnitKind::Other);
    assert!(uc.draw_unit(&c.unit_color, &object, &view()).is_empty());
}

#[test]
fn item_markers() {
    let mut c = config();
    let uc = UnitColor::new();
    let it = ItemUnit { unit_id: 3, class_id: 30, quality: D2ItemQualities::Magic, num_sockets: 0, is_ethereal: false };
    assert!(uc.draw_item(&c.unit_color, &it, 1, 2).is_empty());
    c.unit_color.item_colors.push(ItemColor {
        class_id: Some(30),
        text_color: None,
        minimap_color: Some(0x22),
        quality: None,
        eth: None,
        socks: None,
    });
    assert_eq!(cell(&uc.draw_item(&c.unit_color, &it, 1, 2)[0]), (1, 2, Some("item.dc6".to_string()), 0x22));
    c.unit_color.item_colors.push(ItemColor {
        class_id: None,
        text_color: None,
        minimap_color: Some(0xFF),
        quality: Some(D2ItemQualities::Magic),
        eth: None,
        socks: None,
    });
    assert!(uc.draw_item(&c.unit_color, &it, 1, 2).is_empty());
    c.unit_color.item_colors.push(ItemColor {
        class_id: None,
        text_color: None,
        minimap_color: None,
        quality: None,
        eth: Some(false),
        socks: None,
    });
    assert!(uc.draw_item(&c.unit_color, &it, 1, 2).is_empty());
    let s = snapshot(3, 1000, 500, UnitKind::Item(it));
    assert!(uc.draw_unit(&c.unit_color, &s, &view()).is_empty());
}

#[test]
fn units_in_order() {
    let c = config();
    let uc = UnitColor::new();
    let units = vec![
        snapshot(7, 1000, 500, UnitKind::Player { client_player_id: Some(7) }),
        snapshot(9, 1000, 500, UnitKind::Missile),
        snapshot(8, 1100, 600, UnitKind::Monster(monster(5, 0x04, 0))),
    ];
    let r = uc.draw_automap_units(&c.unit_color, &units, &view());
    assert_eq!(r.len(), 3);
    assert_eq!(cell(&r[0]).3, 0x97);
    assert_eq!(cell(&r[1]), (113, 49, Some("monster.dc6".to_string()), 0x40));
    assert_eq!(text(&r[2]).2, 39);
}

#[test]
fn default_cross_outline() {
    let lines = draw_default_cross(10, 20);
    assert_eq!(lines.len(), 12);
    assert_eq!(lines[0], (10, 18, 14, 16));
    assert_eq!(lines[3], (14, 20, 18, 22));
    assert_eq!(lines[11], (6, 16, 10, 18));
    for i in 0..11 {
        assert_eq!((lines[i].2, lines[i].3), (lines[i + 1].0, lines[i + 1].1));
    }
}

#[test]
fn boss_classes_from_monstats3() {
    let mut uc = UnitColor::new();
    let data = [0x01u8, 0, 0, 0, 0x02, 0, 0x04, 0, 0, 0x08, 0x01, 0];
    uc.init_automap_monster_colors(&data, 3, 4);
    assert_eq!(uc.boss_monster_id.len(), 3);
    assert_eq!(uc.boss_monster_id.get(&0), Some(&1));
    assert_eq!(uc.boss_monster_id.get(&1), Some(&1));
    assert_eq!(uc.boss_monster_id.get(&2), Some(&1));
    assert_eq!(uc.boss_monster_id.get(&3), None);
    uc.init_automap_monster_colors(&data, 3, 1);
    assert_eq!(uc.boss_monster_id.len(), 3);
    let mut uc2 = UnitColor::new();
    uc2.init_automap_monster_colors(&[1u8, 0], 0, 3);
    assert_eq!(uc2.boss_monster_id.len(), 3);
    let mut uc3 = UnitColor::new();
    uc3.init_automap_monster_colors(&[], 3, 0);
    assert!(uc3.boss_monster_id.is_empty());
}

fn named_item(sockets: usize) -> ItemUnit {
    ItemUnit { unit_id: 0x1A2B, class_id: 300, quality: D2ItemQualities::Unique, num_sockets: sockets, is_ethereal: false }
}

#[test]
fn item_names_without_rule() {
    let c = config();
    let uc = UnitColor::new();
    assert_eq!(uc.d2sigma_items_get_item_name(&c.unit_color, "Shako", &named_item(0), false), "Shako");
    assert_eq!(uc.d2sigma_items_get_item_name(&c.unit_color, "Shako", &named_item(3), false), "Shako(3s)");
    assert_eq!(
        uc.d2sigma_items_get_item_name(&c.unit_color, "Shako", &named_item(3), true),
        "UID:0x1A2B Q:Unique CID:300<0x12C>\nShako(3s)"
    );
    let mut set_item = named_item(0);
    set_item.quality = D2ItemQualities::SetItem;
    assert_eq!(
        uc.d2sigma_items_get_item_name(&c.unit_color, "Helm", &set_item, true),
        "UID:0x1A2B Q:Set CID:300<0x12C>\nHelm"
    );
}

#[test]
fn item_names_recoloured() {
    let mut c = config();
    let uc = UnitColor::new();
    c.unit_color.item_colors.push(ItemColor {
        class_id: Some(300),
        text_color: Some(D2StringColorCodes::Orange),
        minimap_color: None,
        quality: None,
        eth: None,
        socks: None,
    });
    let it = named_item(0);
    assert_eq!(uc.d2sigma_items_get_item_name(&c.unit_color, "\u{ff}c4Shako", &it, false), "\u{ff}c8Shako");
    assert_eq!(uc.d2sigma_items_get_item_name(&c.unit_color, "\u{ff}c1\u{ff}c2Name", &it, false), "\u{ff}c8Name");
    assert_eq!(uc.d2sigma_items_get_item_name(&c.unit_color, "\u{ff}c\u{ff}c3X", &it, false), "\u{ff}c8X");
    assert_eq!(uc.d2sigma_items_get_item_name(&c.unit_color, "Plain", &it, false), "\u{ff}c8Plain");
    assert_eq!(uc.d2sigma_items_get_item_name(&c.unit_color, "\u{ff}c4Cap", &named_item(2), false), "\u{ff}c8Cap(2s)");
    assert!(uc.item_name_recolor_defined(&c.unit_color, "\u{ff}c4Shako", &it, false));
    assert!(!uc.item_name_recolor_defined(&c.unit_color, "\u{ff}c", &it, false));
    assert!(!uc.item_name_recolor_defined(&c.unit_color, "\u{ff}c\u{e9}x", &it, false));
    assert!(uc.item_name_recolor_defined(&c.unit_color, "\u{ff}c", &named_item(1), true));
    c.unit_color.item_colors[0].text_color = Some(D2StringColorCodes::Invalid);
    assert_eq!(uc.d2sigma_items_get_item_name(&c.unit_color, "\u{ff}c4Shako", &it, false), "\u{ff}c4Shako");
    assert!(uc.item_name_recolor_defined(&c.unit_color, "\u{ff}c", &it, false));
}

#[test]
fn item_name_stripping_matches_std_slicing() {
    let mut name = "\u{ff}c1\u{ff}c2Name".to_string();
    while name.starts_with("\u{ff}c") {
        name = name.trim_start_matches("\u{ff}c")[1..].to_string();
    }
    assert_eq!(name, "Name");
}

#[test]
fn automap_drawn_only_without_menus() {
    let mut vars = UIVars { values: vec![0; 0x1B] };
    assert!(automap_draw_enabled(&vars, 0));
    assert!(!automap_draw_enabled(&vars, 3));
    vars.values[9] = 1;
    assert!(!automap_draw_enabled(&vars, 0));
    vars.values[9] = 0;
    vars.values[0x0B] = 1;
    assert!(!automap_draw_enabled(&vars, 0));
}

#[test]
fn marker_image_or_default_cross() {
    let blob = Some(String::from("hackmap\\dot.dc6"));
    assert_eq!(draw_cell_by_blob_file(&blob, true), MarkerShape::Image);
    assert_eq!(draw_cell_by_blob_file(&blob, false), MarkerShape::DefaultCross);
    assert_eq!(draw_cell_by_blob_file(&None, true), MarkerShape::DefaultCross);
    assert_eq!(draw_cell_by_blob_file(&None, false), MarkerShape::DefaultCross);
}

#[test]
fn hidden_monster_at_lowest_height_draws_nothing() {
    let c = config();
    let uc = UnitColor::new();
    assert!(uc.draw_monster(&c.unit_color, &monster(179, 0, 0), 0, i32::MIN).is_empty());
    let mut m = monster(5, 0, 0);
    m.is_corpse = true;
    assert!(uc.draw_monster(&c.unit_color, &m, 0, i32::MIN).is_empty());
    let npc = uc.draw_monster(&c.unit_color, &monster(7, 0, 0x300), 0, i32::MIN + 8);
    assert_eq!(npc.len(), 2);
}
