use hackmap::consts::{D2ItemQualities, D2StringColorCodes};
use hackmap::hackmap::config::{default_option, Config, ItemColor, ItemUnit};

fn rule(class_id: Option<u32>, quality: Option<D2ItemQualities>, socks: Option<usize>, eth: Option<bool>, minimap: u8) -> ItemColor {
    ItemColor {
        class_id,
        text_color: Some(D2StringColorCodes::Red),
        minimap_color: Some(minimap),
        quality,
        eth,
        socks,
    }
}

fn item(class_id: u32, quality: D2ItemQualities, sockets: usize, eth: bool) -> ItemUnit {
    ItemUnit { unit_id: 1, class_id, quality, num_sockets: sockets, is_ethereal: eth }
}

#[test]
fn default_config_values() {
    let c = Config::new();
    assert_eq!(c.hotkey.reload, 0);
    assert_eq!(c.hotkey.quick_next_game, 0);
    assert!(c.tweaks.perm_show_items);
    assert!(c.unit_color.show_socket_number);
    assert!(c.unit_color.hide_items);
    assert_eq!(c.unit_color.normal_monster_color, 0xFF);
    assert_eq!(c.unit_color.super_unique_color, 0xFF);
    assert!(c.unit_color.boss_blob_file.is_none());
    assert!(c.unit_color.poison_immunity_desc.is_none());
    assert!(c.unit_color.monster_color.is_empty());
    assert!(c.unit_color.item_colors.is_empty());
}

#[test]
fn default_option_is_none() {
    let v: Option<u32> = default_option();
    assert_eq!(v, None);
}

#[test]
fn no_rules_no_color() {
    let c = Config::new();
    assert!(c.unit_color.get_color_from_unit(&item(5, D2ItemQualities::Unique, 0, false)).is_none());
}

#[test]
fn last_matching_rule_wins() {
    let mut c = Config::new();
    c.unit_color.item_colors.push(rule(None, None, None, None, 10));
    c.unit_color.item_colors.push(rule(Some(5), None, None, None, 20));
    c.unit_color.item_colors.push(rule(Some(6), None, None, None, 30));
    let r = c.unit_color.get_color_from_unit(&item(5, D2ItemQualities::Normal, 0, false)).unwrap();
    assert_eq!(r.minimap_color, Some(20));
    let r = c.unit_color.get_color_from_unit(&item(7, D2ItemQualities::Normal, 0, false)).unwrap();
    assert_eq!(r.minimap_color, Some(10));
}

#[test]
fn every_field_must_match() {
    let mut c = Config::new();
    c.unit_color.item_colors.push(rule(Some(5), Some(D2ItemQualities::SetItem), Some(3), Some(true), 40));
    assert_eq!(
        c.unit_color.get_color_from_unit(&item(5, D2ItemQualities::SetItem, 3, true)).unwrap().minimap_color,
        Some(40)
    );
    assert!(c.unit_color.get_color_from_unit(&item(6, D2ItemQualities::SetItem, 3, true)).is_none());
    assert!(c.unit_color.get_color_from_unit(&item(5, D2ItemQualities::Rare, 3, true)).is_none());
    assert!(c.unit_color.get_color_from_unit(&item(5, D2ItemQualities::SetItem, 2, true)).is_none());
    assert!(c.unit_color.get_color_from_unit(&item(5, D2ItemQualities::SetItem, 3, false)).is_none());
}

#[test]
fn quality_game_values() {
    assert_eq!(D2ItemQualities::Inferior.game_value(), 1);
    assert_eq!(D2ItemQualities::Tempered.game_value(), 9);
    assert_eq!(D2ItemQualities::from_game_value(5), Some(D2ItemQualities::SetItem));
    assert_eq!(D2ItemQualities::from_game_value(0), None);
    assert_eq!(D2ItemQualities::from_game_value(10), None);
}

#[test]
fn color_codes() {
    assert_eq!(D2StringColorCodes::White.code(), Some(0));
    assert_eq!(D2StringColorCodes::DarkGreen2.code(), Some(12));
    assert_eq!(D2StringColorCodes::Invalid.code(), None);
}
