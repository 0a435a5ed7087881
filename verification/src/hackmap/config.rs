//! The hack map's configuration, and the item colour rules read from it.
use std::collections::HashMap;
use vstd::prelude::*;

use crate::consts::{D2ItemQualities, D2StringColorCodes};

verus! {

/// Virtual key codes bound to the hack map's actions.
pub struct HotKeyConfig {
    pub reload: u16,
    pub hide_items: u16,
    pub perm_show_items: u16,
    pub quick_next_game: u16,
    /// Switches the belt refill on and off.
    pub auto_item_to_belt: u16,
    /// Drops the item held on the cursor.
    pub fast_drop: u16,
}

/// Switches of the small game tweaks.
pub struct TweaksConfig {
    /// Ground items are shown as if Alt were held.
    pub perm_show_items: bool,
    /// Potions are moved from the inventory to free belt slots.
    pub auto_item_to_belt: bool,
}

/// One colour rule for items. Each field that is set must match the item
/// for the rule to apply; a rule with no field set matches every item.
#[derive(Clone, Copy, Debug, PartialEq, Eq, Structural)]
pub struct ItemColor {
    pub class_id: Option<u32>,
    pub text_color: Option<D2StringColorCodes>,
    pub minimap_color: Option<u8>,
    pub quality: Option<D2ItemQualities>,
    pub eth: Option<bool>,
    pub socks: Option<usize>,
}

/// What the colour rules read of an item on the ground.
#[derive(Clone, Copy, Debug, PartialEq, Eq, Structural)]
pub struct ItemUnit {
    pub unit_id: u32,
    pub class_id: u32,
    pub quality: D2ItemQualities,
    pub num_sockets: usize,
    pub is_ethereal: bool,
}

/// How units are marked on the automap and how item names are coloured.
pub struct UnitColorConfig {
    pub show_socket_number: bool,
    pub hide_items: bool,
    pub player_blob_file: Option<String>,
    pub monster_blob_file: Option<String>,
    pub object_blob_file: Option<String>,
    pub missile_blob_file: Option<String>,
    pub item_blob_file: Option<String>,
    pub boss_blob_file: Option<String>,
    pub npc_blob_file: Option<String>,
    pub my_blob_file: Option<String>,
    pub corpse_blob_file: Option<String>,
    pub normal_monster_color: u8,
    pub boss_monster_color: u8,
    pub minion_monster_color: u8,
    pub champion_monster_color: u8,
    pub super_unique_color: u8,
    pub magic_resistant_desc: Option<String>,
    pub fire_enchanted_desc: Option<String>,
    pub lightning_enchanted_desc: Option<String>,
    pub cold_enchanted_desc: Option<String>,
    pub mana_burn_desc: Option<String>,
    pub physical_immunity_desc: Option<String>,
    pub magic_immunity_desc: Option<String>,
    pub fire_immunity_desc: Option<String>,
    pub lightning_immunity_desc: Option<String>,
    pub cold_immunity_desc: Option<String>,
    pub poison_immunity_desc: Option<String>,
    /// Per monster class id: the automap colour, 0xFF to hide the monster.
    pub monster_color: HashMap<u32, u8>,
    /// The item colour rules; a later rule takes precedence over an earlier one.
    pub item_colors: Vec<ItemColor>,
}

/// The whole configuration of the hack map.
pub struct Config {
    pub hotkey: HotKeyConfig,
    pub tweaks: TweaksConfig,
    pub unit_color: UnitColorConfig,
}

/// Whether `rule` applies to `item`: every field the rule sets equals the item's.
pub open spec fn rule_matches(rule: ItemColor, item: ItemUnit) -> bool {
    &&& (rule.class_id matches Some(c) ==> c == item.class_id)
    &&& (rule.quality matches Some(q) ==> q == item.quality)
    &&& (rule.socks matches Some(n) ==> n == item.num_sockets)
    &&& (rule.eth matches Some(e) ==> e == item.is_ethereal)
}

/// The index of the last rule of `rules` that applies to `item`, if any.
pub open spec fn last_matching_rule(rules: Seq<ItemColor>, item: ItemUnit) -> Option<int>
    decreases rules.len(),
{
    if rules.len() == 0 {
        None
    } else if rule_matches(rules.last(), item) {
        Some(rules.len() - 1)
    } else {
        last_matching_rule(rules.drop_last(), item)
    }
}

/// The rule of `rules` that colours `item`: the last one that applies.
pub open spec fn color_rule_for(rules: Seq<ItemColor>, item: ItemUnit) -> Option<ItemColor> {
    match last_matching_rule(rules, item) {
        Some(i) => Some(rules[i]),
        None => None,
    }
}

fn rule_applies(rule: &ItemColor, item: &ItemUnit) -> (r: bool)
    ensures
        r == rule_matches(*rule, *item),
{
    if let Some(cid) = rule.class_id {
        if cid != item.class_id {
            return false;
        }
    }
    if let Some(q) = rule.quality {
        if q != item.quality {
            return false;
        }
    }
    if let Some(socks) = rule.socks {
        if socks != item.num_sockets {
            return false;
        }
    }
    if let Some(eth) = rule.eth {
        if eth != item.is_ethereal {
            return false;
        }
    }
    true
}

/// The index found by `last_matching_rule` lies in the sequence, its rule
/// applies, and no later rule applies; `None` means no rule applies.
pub proof fn lemma_last_matching_rule(rules: Seq<ItemColor>, item: ItemUnit)
    ensures
        match last_matching_rule(rules, item) {
            Some(i) => {
                &&& 0 <= i < rules.len()
                &&& rule_matches(rules[i], item)
                &&& forall|j: int| i < j < rules.len() ==> !rule_matches(#[trigger] rules[j], item)
            },
            None => forall|j: int| 0 <= j < rules.len() ==> !rule_matches(#[trigger] rules[j], item),
        },
    decreases rules.len(),
{
    if rules.len() > 0 {
        lemma_last_matching_rule(rules.drop_last(), item);
        if !rule_matches(rules.last(), item) {
            assert forall|j: int| 0 <= j < rules.len() - 1 implies rules.drop_last()[j] == rules[j] by {}
        }
    }
}

/// The rule chosen for an item agrees with the item on every field the
/// rule sets: its class id, quality, socket count and ethereal flag, each
/// when set, are the item's own. In particular a rule asking for a
/// non-ethereal item is never chosen for an ethereal one, and the other way
/// round. A rule that sets no field is always applicable, so some rule is
/// chosen whenever the rules hold one.
pub proof fn lemma_chosen_rule_agrees_with_item(rules: Seq<ItemColor>, item: ItemUnit)
    ensures
        color_rule_for(rules, item) matches Some(r) ==> {
            &&& (r.class_id matches Some(c) ==> c == item.class_id)
            &&& (r.quality matches Some(q) ==> q == item.quality)
            &&& (r.socks matches Some(n) ==> n == item.num_sockets)
            &&& (r.eth matches Some(e) ==> e == item.is_ethereal)
        },
        (exists|j: int|
            0 <= j < rules.len() && (#[trigger] rules[j]).class_id is None && rules[j].quality is None
                && rules[j].socks is None && rules[j].eth is None) ==> color_rule_for(rules, item) is Some,
{
    lemma_last_matching_rule(rules, item);
    if exists|j: int|
        0 <= j < rules.len() && (#[trigger] rules[j]).class_id is None && rules[j].quality is None
            && rules[j].socks is None && rules[j].eth is None {
        let j = choose|j: int|
            0 <= j < rules.len() && (#[trigger] rules[j]).class_id is None && rules[j].quality is None
                && rules[j].socks is None && rules[j].eth is None;
        assert(rule_matches(rules[j], item));
    }
}

impl UnitColorConfig {
    /// The colour rule for `item`: the last rule of `item_colors` that applies to it.
    pub fn get_color_from_unit(&self, item: &ItemUnit) -> (r: Option<&ItemColor>)
        ensures
            match r {
                Some(c) => color_rule_for(self.item_colors@, *item) == Some(*c),
                None => color_rule_for(self.item_colors@, *item) is None,
            },
    {
        let mut i = self.item_colors.len();
        assert(self.item_colors@.take(i as int) =~= self.item_colors@);
        while i > 0
            invariant
                i <= self.item_colors.len(),
                last_matching_rule(self.item_colors@, *item) == last_matching_rule(
                    self.item_colors@.take(i as int),
                    *item,
                ),
            decreases i,
        {
            let entry = &self.item_colors[i - 1];
            let ghost prefix = self.item_colors@.take(i as int);
            assert(prefix.last() == self.item_colors@[i - 1]);
            if rule_applies(entry, item) {
                return Some(entry);
            }
            assert(prefix.drop_last() =~= self.item_colors@.take(i - 1));
            i = i - 1;
        }
        None
    }
}

/// The value a missing optional setting takes: none.
pub fn default_option<T>() -> (r: Option<T>)
    ensures
        r is None,
{
    None
}

/// Whether `c` is the configuration in force before any file is read (see
/// `Config::new`).
pub open spec fn is_default_config(c: Config) -> bool {
    &&& c.hotkey.reload == 0 && c.hotkey.hide_items == 0
    &&& c.hotkey.perm_show_items == 0 && c.hotkey.quick_next_game == 0
    &&& c.hotkey.auto_item_to_belt == 0 && c.hotkey.fast_drop == 0
    &&& c.tweaks.perm_show_items && !c.tweaks.auto_item_to_belt
    &&& c.unit_color.show_socket_number && c.unit_color.hide_items
    &&& c.unit_color.player_blob_file is None && c.unit_color.monster_blob_file is None
    &&& c.unit_color.object_blob_file is None && c.unit_color.missile_blob_file is None
    &&& c.unit_color.item_blob_file is None && c.unit_color.boss_blob_file is None
    &&& c.unit_color.npc_blob_file is None && c.unit_color.my_blob_file is None
    &&& c.unit_color.corpse_blob_file is None
    &&& c.unit_color.normal_monster_color == 0xFF && c.unit_color.boss_monster_color == 0xFF
    &&& c.unit_color.minion_monster_color == 0xFF
    &&& c.unit_color.champion_monster_color == 0xFF
    &&& c.unit_color.super_unique_color == 0xFF
    &&& c.unit_color.magic_resistant_desc is None && c.unit_color.fire_enchanted_desc is None
    &&& c.unit_color.lightning_enchanted_desc is None && c.unit_color.cold_enchanted_desc is None
    &&& c.unit_color.mana_burn_desc is None
    &&& c.unit_color.physical_immunity_desc is None && c.unit_color.magic_immunity_desc is None
    &&& c.unit_color.fire_immunity_desc is None && c.unit_color.lightning_immunity_desc is None
    &&& c.unit_color.cold_immunity_desc is None && c.unit_color.poison_immunity_desc is None
    &&& c.unit_color.monster_color@ == Map::<u32, u8>::empty()
    &&& c.unit_color.item_colors@ == Seq::<ItemColor>::empty()
}

impl Config {
    /// The configuration in force before any file is read: no hot keys
    /// bound, ground items always shown, the belt refill off, socket
    /// numbers shown, no blob
    /// files, all monster colours 0xFF, no descriptions and no colour rules.
    pub fn new() -> (c: Config)
        ensures
            c.hotkey.reload == 0 && c.hotkey.hide_items == 0,
            c.hotkey.perm_show_items == 0 && c.hotkey.quick_next_game == 0,
            c.hotkey.auto_item_to_belt == 0 && c.hotkey.fast_drop == 0,
            c.tweaks.perm_show_items,
            !c.tweaks.auto_item_to_belt,
            c.unit_color.show_socket_number && c.unit_color.hide_items,
            c.unit_color.player_blob_file is None && c.unit_color.monster_blob_file is None,
            c.unit_color.object_blob_file is None && c.unit_color.missile_blob_file is None,
            c.unit_color.item_blob_file is None && c.unit_color.boss_blob_file is None,
            c.unit_color.npc_blob_file is None && c.unit_color.my_blob_file is None,
            c.unit_color.corpse_blob_file is None,
            c.unit_color.normal_monster_color == 0xFF && c.unit_color.boss_monster_color == 0xFF,
            c.unit_color.minion_monster_color == 0xFF,
            c.unit_color.champion_monster_color == 0xFF,
            c.unit_color.super_unique_color == 0xFF,
            c.unit_color.magic_resistant_desc is None && c.unit_color.fire_enchanted_desc is None,
            c.unit_color.lightning_enchanted_desc is None && c.unit_color.cold_enchanted_desc is None,
            c.unit_color.mana_burn_desc is None,
            c.unit_color.physical_immunity_desc is None && c.unit_color.magic_immunity_desc is None,
            c.unit_color.fire_immunity_desc is None && c.unit_color.lightning_immunity_desc is None,
            c.unit_color.cold_immunity_desc is None && c.unit_color.poison_immunity_desc is None,
            c.unit_color.monster_color@ == Map::<u32, u8>::empty(),
            c.unit_color.item_colors@ == Seq::<ItemColor>::empty(),
    {
        Config {
            hotkey: HotKeyConfig {
                reload: 0,
                hide_items: 0,
                perm_show_items: 0,
                quick_next_game: 0,
                auto_item_to_belt: 0,
                fast_drop: 0,
            },
            tweaks: TweaksConfig { perm_show_items: true, auto_item_to_belt: false },
            unit_color: UnitColorConfig {
                show_socket_number: true,
                hide_items: true,
                player_blob_file: None,
                monster_blob_file: None,
                object_blob_file: None,
                missile_blob_file: None,
                item_blob_file: None,
                boss_blob_file: None,
                npc_blob_file: None,
                my_blob_file: None,
                corpse_blob_file: None,
                magic_resistant_desc: None,
                fire_enchanted_desc: None,
                lightning_enchanted_desc: None,
                cold_enchanted_desc: None,
                mana_burn_desc: None,
                normal_monster_color: 0xFF,
                boss_monster_color: 0xFF,
                minion_monster_color: 0xFF,
                champion_monster_color: 0xFF,
                super_unique_color: 0xFF,
                physical_immunity_desc: None,
                magic_immunity_desc: None,
                fire_immunity_desc: None,
                lightning_immunity_desc: None,
                cold_immunity_desc: None,
                poison_immunity_desc: None,
                monster_color: HashMap::new(),
                item_colors: Vec::new(),
            },
        }
    }
}

} // verus!
