use hackmap::consts::{D2ItemQualities, D2StringColorCodes};
use hackmap::hackmap::config_deserializer::{
    bool_from_int, d2_str_color_code_from_int, deserialize_monster_color, opt_d2_str_color_code_from_int,
    parse_monster_id, quality_from_str,
};

#[test]
fn quality_names_in_any_case() {
    assert_eq!(quality_from_str("unique"), Some(D2ItemQualities::Unique));
    assert_eq!(quality_from_str("UNIQUE"), Some(D2ItemQualities::Unique));
    assert_eq!(quality_from_str("Set"), Some(D2ItemQualities::SetItem));
    assert_eq!(quality_from_str("tEmPeReD"), Some(D2ItemQualities::Tempered));
    assert_eq!(quality_from_str("inferior"), Some(D2ItemQualities::Inferior));
    assert_eq!(quality_from_str("Craft"), Some(D2ItemQualities::Craft));
}

#[test]
fn quality_unknown_names() {
    assert_eq!(quality_from_str(""), None);
    assert_eq!(quality_from_str("legendary"), None);
    assert_eq!(quality_from_str(" unique"), None);
    assert_eq!(quality_from_str("uniqu\u{e9}"), None);
}

#[test]
fn quality_lowercase_agrees_with_std() {
    for s in ["Magic", "RARE", "normal", "SuPeRiOr", "sets", "craftx"] {
        let lowered = s.to_lowercase();
        let expected = match lowered.as_str() {
            "magic" => Some(D2ItemQualities::Magic),
            "rare" => Some(D2ItemQualities::Rare),
            "normal" => Some(D2ItemQualities::Normal),
            "superior" => Some(D2ItemQualities::Superior),
            _ => None,
        };
        assert_eq!(quality_from_str(s), expected);
    }
}

#[test]
fn switches_zero_one() {
    assert_eq!(bool_from_int(0), Some(false));
    assert_eq!(bool_from_int(1), Some(true));
    assert_eq!(bool_from_int(2), None);
    assert_eq!(bool_from_int(255), None);
}

#[test]
fn color_code_numbers() {
    assert_eq!(d2_str_color_code_from_int(0), D2StringColorCodes::White);
    assert_eq!(d2_str_color_code_from_int(1), D2StringColorCodes::Red);
    assert_eq!(d2_str_color_code_from_int(4), D2StringColorCodes::DarkGold);
    assert_eq!(d2_str_color_code_from_int(12), D2StringColorCodes::DarkGreen2);
    assert_eq!(d2_str_color_code_from_int(13), D2StringColorCodes::Invalid);
    assert_eq!(d2_str_color_code_from_int(255), D2StringColorCodes::Invalid);
    for n in 0u8..=12 {
        assert_eq!(d2_str_color_code_from_int(n).code(), Some(n));
    }
    assert_eq!(opt_d2_str_color_code_from_int(None), None);
    assert_eq!(opt_d2_str_color_code_from_int(Some(9)), Some(D2StringColorCodes::Yellow));
}

#[test]
fn monster_ids_decimal_and_hex() {
    assert_eq!(parse_monster_id("123"), Some(123));
    assert_eq!(parse_monster_id("0x7B"), Some(123));
    assert_eq!(parse_monster_id("0x7b"), Some(123));
    assert_eq!(parse_monster_id("0x0x10"), Some(16));
    assert_eq!(parse_monster_id("+5"), Some(5));
    assert_eq!(parse_monster_id("0x+ff"), Some(255));
    assert_eq!(parse_monster_id("007"), Some(7));
    assert_eq!(parse_monster_id("4294967295"), Some(u32::MAX));
    assert_eq!(parse_monster_id("0xFFFFFFFF"), Some(u32::MAX));
}

#[test]
fn monster_ids_refused() {
    assert_eq!(parse_monster_id(""), None);
    assert_eq!(parse_monster_id("+"), None);
    assert_eq!(parse_monster_id("0x"), None);
    assert_eq!(parse_monster_id("-1"), None);
    assert_eq!(parse_monster_id("1a"), None);
    assert_eq!(parse_monster_id("0XFF"), None);
    assert_eq!(parse_monster_id(" 1"), None);
    assert_eq!(parse_monster_id("4294967296"), None);
    assert_eq!(parse_monster_id("0x100000000"), None);
    assert_eq!(parse_monster_id("99999999999999999999"), None);
}

#[test]
fn monster_ids_agree_with_std() {
    for key in ["0", "42", "0x2a", "0x0x2A", "12z", "+17", "0xg", "65536", "0x1_0"] {
        let expected = u32::from_str_radix(
            key.trim_start_matches("0x"),
            if key.starts_with("0x") { 16 } else { 10 },
        )
        .ok();
        assert_eq!(parse_monster_id(key), expected, "key {key}");
    }
}

#[test]
fn monster_color_table() {
    let entries = vec![("0x10".to_string(), 3u8), ("17".to_string(), 4u8), ("16".to_string(), 9u8)];
    let m = deserialize_monster_color(&entries).unwrap();
    assert_eq!(m.len(), 2);
    assert_eq!(m.get(&16), Some(&9));
    assert_eq!(m.get(&17), Some(&4));
    let bad = vec![("17".to_string(), 4u8), ("x".to_string(), 1u8)];
    assert!(deserialize_monster_color(&bad).is_none());
    let empty: Vec<(String, u8)> = vec![];
    assert!(deserialize_monster_color(&empty).unwrap().is_empty());
}
