use hackmap::consts::WM_KEYDOWN;
use hackmap::d2api::d2client::UIVars;
use hackmap::d2api::d2win::StormMsgHandlerParams;
use hackmap::hackmap::auto_map::new_automap_cell;
use hackmap::hackmap::config::Config;
use hackmap::hackmap::hackmap::{HackMap, HackMapConfig};
use hackmap::hackmap::helper_bot::{Handle_D2GS_CHAT_26, HelperBot, InventoryItem, ItemStateEvent};
use hackmap::hackmap::input::{key_for_handlers, should_hook_key_down, Input, KeyAction, KeyHandler};
use hackmap::hackmap::tweaks::{
    monster_life_bar_name, running_flags, test_collision_answer, MISC_CalculateShadowRGBA, MonsterResists,
    PermShowItemsPlan, Tweaks,
};

#[test]
fn y_key_toggles_ground_items() {
    let t = Tweaks::new();
    assert!(t.current_monster_name.is_empty());
    let mut c = Config::new();
    assert!(!t.on_key_down(&mut c.tweaks, 'Y' as u16));
    assert!(!c.tweaks.perm_show_items);
    assert!(!t.on_key_down(&mut c.tweaks, 'X' as u16));
    assert!(!c.tweaks.perm_show_items);
    t.on_key_down(&mut c.tweaks, 'Y' as u16);
    assert!(c.tweaks.perm_show_items);
}

#[test]
fn ui_handler_plan() {
    let t = Tweaks::new();
    let mut c = Config::new();
    assert_eq!(t.handle_perm_show_items(&c.tweaks, 0), PermShowItemsPlan::ForwardWithAltHeld);
    assert_eq!(t.handle_perm_show_items(&c.tweaks, 1), PermShowItemsPlan::Forward);
    c.tweaks.perm_show_items = false;
    assert_eq!(t.handle_perm_show_items(&c.tweaks, 0), PermShowItemsPlan::Forward);
}

#[test]
fn collision_and_running() {
    let t = Tweaks::new();
    assert_eq!(t.should_hide_unit(), (true, false));
    assert_eq!(test_collision_answer(t.should_hide_unit()), Some(0));
    assert_eq!(test_collision_answer((true, true)), Some(1));
    assert_eq!(test_collision_answer((false, true)), None);
    assert_eq!(running_flags(0x10, 0, false), 0x10);
    assert_eq!(running_flags(0x10, 1, false), 0x18);
    assert_eq!(running_flags(0x10, 0, true), 0x18);
    assert_eq!(running_flags(0x08, 0, true), 0x08);
}

#[test]
fn no_shadows() {
    let (mut r, mut g, mut b, mut a) = (1u8, 2u8, 3u8, 4u8);
    MISC_CalculateShadowRGBA(&mut r, &mut g, &mut b, &mut a);
    assert_eq!((r, g, b, a), (0xFF, 0xFF, 0xFF, 0xFF));
}

#[test]
fn life_bar_names() {
    let res = MonsterResists { damage: -5, magic: 0, fire: 70, lightning: 0, cold: -20, poison: 100 };
    let expected_shift = format!(
        "{}({}, 0x{:X}) \u{ff}c7{} \u{ff}c8{} \u{ff}c1{} \u{ff}c9{} \u{ff}c3{} \u{ff}c2{}",
        "Andariel", 156, 156, -5, 0, 70, 0, -20, 100
    );
    assert_eq!(monster_life_bar_name("Andariel", 156, true, 55, res), expected_shift);
    assert_eq!(
        monster_life_bar_name("Andariel", 156, false, 55, res),
        "Andariel(55%%) \u{ff}c7-5 \u{ff}c80 \u{ff}c170 \u{ff}c90 \u{ff}c3-20 \u{ff}c2100"
    );
    let extreme = MonsterResists { damage: i32::MIN, magic: i32::MAX, fire: 0, lightning: 0, cold: 0, poison: 0 };
    assert!(monster_life_bar_name("M", 0, false, 0, extreme).contains("-2147483648"));
}

fn item(unit_id: u32, in_inventory_page: bool, fits_in_belt: bool) -> InventoryItem {
    InventoryItem { unit_id, in_inventory_page, fits_in_belt }
}

#[test]
fn belt_refill_steps() {
    let mut bot = HelperBot::new();
    let items = vec![item(1, false, true), item(2, true, false), item(3, true, true), item(4, true, true)];
    assert_eq!(bot.on_auto_item_to_belt(1000, false, true, &items), None);
    assert_eq!(bot.next_fill_belt_timestamp, 0);
    bot.belt_free_slots = 2;
    assert_eq!(bot.on_auto_item_to_belt(1000, false, true, &items), Some(3));
    assert_eq!(bot.next_fill_belt_timestamp, 1500);
    assert_eq!(bot.belt_free_slots, 1);
    assert_eq!(bot.items_removing.get(&3), Some(&6000));
    assert_eq!(bot.on_auto_item_to_belt(1200, false, true, &items), None);
    assert_eq!(bot.belt_free_slots, 1);
    assert_eq!(bot.on_auto_item_to_belt(1500, true, true, &items), None);
    assert_eq!(bot.next_fill_belt_timestamp, 2000);
    assert_eq!(bot.belt_free_slots, 1);
    assert_eq!(bot.on_auto_item_to_belt(2000, false, false, &items), None);
    assert_eq!(bot.next_fill_belt_timestamp, 2500);
}

#[test]
fn belt_refill_forgets_items_still_on_their_way() {
    let mut bot = HelperBot::new();
    bot.belt_free_slots = 2;
    let items = vec![item(3, true, true), item(4, true, true)];
    assert_eq!(bot.on_auto_item_to_belt(1000, false, true, &items), Some(3));
    assert_eq!(bot.on_auto_item_to_belt(1500, false, true, &items), Some(3));
    assert_eq!(bot.belt_free_slots, 0);
    assert_eq!(bot.on_auto_item_to_belt(9000, false, true, &items), None);
}

#[test]
fn belt_refill_keeps_expired_entries() {
    let mut bot = HelperBot::new();
    bot.belt_free_slots = 1;
    bot.items_removing.insert(3, 10);
    bot.items_removing.insert(4, 5000);
    let items = vec![item(3, true, true), item(4, true, true)];
    assert_eq!(bot.on_auto_item_to_belt(1000, false, true, &items), Some(4));
    assert_eq!(bot.items_removing.get(&3), Some(&10));
    assert_eq!(bot.items_removing.get(&4), Some(&6000));
}

#[test]
fn belt_events() {
    let mut bot = HelperBot::new();
    bot.items_removing.insert(7, 100);
    let put = ItemStateEvent { unit_id: 7, put_in_belt: true, remove_from_belt: false };
    let removed = ItemStateEvent { unit_id: 8, put_in_belt: false, remove_from_belt: true };
    bot.on_use_stackable_item(false, put, false);
    assert_eq!(bot.items_removing.len(), 1);
    bot.on_use_stackable_item(true, put, false);
    assert!(bot.items_removing.is_empty());
    bot.on_use_stackable_item(true, removed, true);
    assert_eq!(bot.belt_free_slots, 0);
    bot.on_use_stackable_item(true, removed, false);
    bot.on_use_stackable_item(true, removed, false);
    assert_eq!(bot.belt_free_slots, 2);
    bot.on_join_game();
    assert_eq!(bot.belt_free_slots, 0);
}

#[test]
fn chat_answer() {
    let mut p = vec![0x26u8, 3, 0, 0, 0, 0, 0, 0, 1, 1, 0, 0];
    assert_eq!(Handle_D2GS_CHAT_26(&p), Some(vec![0x15, 0x01, 0x09, b'1', 0, 0, 0]));
    for i in 1..10 {
        let mut q = p.clone();
        q[i] ^= 0x40;
        assert_eq!(Handle_D2GS_CHAT_26(&q), None, "byte {i}");
    }
    p[0] = 0;
    assert!(Handle_D2GS_CHAT_26(&p).is_some());
}

fn key_msg(vk: u32, lparam: u32) -> StormMsgHandlerParams {
    StormMsgHandlerParams {
        hwnd: 0,
        message: WM_KEYDOWN,
        wparam: vk,
        lparam,
        command_source: 0,
        arg: 0,
        returned: 0,
        result: 0,
    }
}

#[test]
fn keys_reaching_handlers() {
    assert_eq!(key_for_handlers(&key_msg(0x59, 0), 0, 0, 0), Some(0x59));
    assert_eq!(key_for_handlers(&key_msg(0x59, 1 << 30), 0, 0, 0), None);
    assert_eq!(key_for_handlers(&key_msg(0x59, 0), 1, 0, 0), None);
    assert_eq!(key_for_handlers(&key_msg(0x59, 0), 0, 1, 0), None);
    assert_eq!(key_for_handlers(&key_msg(0x59, 0), 0, 0, 1), None);
    let handled = StormMsgHandlerParams { returned: 1, ..key_msg(0x59, 0) };
    assert_eq!(key_for_handlers(&handled, 0, 0, 0), None);
    let up = StormMsgHandlerParams { message: 0x101, ..key_msg(0x59, 0) };
    assert_eq!(key_for_handlers(&up, 0, 0, 0), None);
    assert!(should_hook_key_down(0, WM_KEYDOWN, false));
    assert!(!should_hook_key_down(0, WM_KEYDOWN, true));
    assert!(!should_hook_key_down(1, WM_KEYDOWN, false));
    assert!(!should_hook_key_down(0, 0x101, false));
}

#[test]
fn hack_map_key_handling() {
    let mut hm = HackMap::new();
    assert!(HackMapConfig::new().perm_show_items_toggle);
    assert!(hm.input().on_keydown_callbacks.is_empty());
    hm.register_key_handlers();
    assert!(
        hm.input().on_keydown_callbacks
            == vec![
                KeyHandler::PermShowItemsToggle,
                KeyHandler::AutoItemToBeltToggle,
                KeyHandler::FastDrop,
                KeyHandler::ReloadConfig
            ]
    );
    hm.config.hotkey.reload = 0x74;
    let vars = UIVars { values: vec![0; 0x1B] };
    let acts = hm.in_game_on_key_down(&key_msg(0x59, 0), &vars);
    assert!(acts.is_empty());
    assert!(!hm.config().tweaks.perm_show_items);
    let acts = hm.in_game_on_key_down(&key_msg(0x74, 0), &vars);
    assert!(acts == vec![KeyAction::ReloadConfig]);
    assert!(!hm.config().tweaks.perm_show_items);
    let mut busy = UIVars { values: vec![0; 0x1B] };
    busy.values[0x0D] = 1;
    assert!(hm.in_game_on_key_down(&key_msg(0x74, 0), &busy).is_empty());
    assert!(hm.in_game_on_key_down(&key_msg(0x59, 1 << 30), &vars).is_empty());
    assert!(!hm.config().tweaks.perm_show_items);
    assert!(hm.is_reload_key(0x74));
    assert!(!hm.is_reload_key(0x75));
    assert_eq!(hm.helper_bot().belt_free_slots, 0);
    assert!(hm.unit_color().boss_monster_id.is_empty());
    assert!(hm.tweaks().current_monster_name.is_empty());
    let mut input = Input::new();
    input.on_key_down(KeyHandler::ReloadConfig);
    assert_eq!(input.on_keydown_callbacks.len(), 1);
}

#[test]
fn automap_cell_placement() {
    let mut count = 0usize;
    let p = new_automap_cell(&mut count, 10, 0);
    assert_eq!((p.block, p.index, p.new_block, count), (0, 0, true, 1));
    let mut count = 9usize;
    let p = new_automap_cell(&mut count, 10, 1);
    assert_eq!((p.block, p.index, p.new_block, count), (0, 9, false, 10));
    let mut count = 25usize;
    let p = new_automap_cell(&mut count, 10, 2);
    assert_eq!((p.block, p.index, p.new_block), (2, 5, true));
    let mut count = 25usize;
    let p = new_automap_cell(&mut count, 10, 5);
    assert_eq!((p.block, p.index, p.new_block), (2, 5, false));
    let mut count = 45usize;
    let p = new_automap_cell(&mut count, 10, 2);
    assert_eq!((p.block, p.index, p.new_block), (2, 5, true));
}

#[test]
fn belt_refill_toggle_and_fast_drop_keys() {
    let mut hm = HackMap::new();
    hm.register_key_handlers();
    assert!(!hm.config().tweaks.auto_item_to_belt);
    hm.config.hotkey.auto_item_to_belt = 0x42;
    hm.config.hotkey.fast_drop = 0x44;
    hm.config.hotkey.reload = 0x74;
    let vars = UIVars { values: vec![0; 0x1B] };
    assert!(hm.in_game_on_key_down(&key_msg(0x42, 0), &vars).is_empty());
    assert!(hm.config().tweaks.auto_item_to_belt);
    assert!(hm.in_game_on_key_down(&key_msg(0x42, 0), &vars).is_empty());
    assert!(!hm.config().tweaks.auto_item_to_belt);
    assert!(hm.in_game_on_key_down(&key_msg(0x44, 0), &vars) == vec![KeyAction::FastDrop]);
    // The toggle takes its key: a reload bound to the same key never runs.
    hm.config.hotkey.reload = 0x42;
    assert!(hm.in_game_on_key_down(&key_msg(0x42, 0), &vars).is_empty());
    assert!(hm.config().tweaks.auto_item_to_belt);
    // A fast-drop key that is also the reload key asks for both, in order.
    hm.config.hotkey.reload = 0x44;
    assert!(hm.in_game_on_key_down(&key_msg(0x44, 0), &vars) == vec![KeyAction::FastDrop, KeyAction::ReloadConfig]);
    assert!(hm.config().tweaks.perm_show_items);
}
