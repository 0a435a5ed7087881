//! Automap markers: where a unit is drawn, in which colour and with which
//! label, and which monster classes count as bosses.
use std::collections::HashMap;
use vstd::prelude::*;

use crate::consts::{
    D2Font, D2StringColorCodes, MON_STATS_BOSS, MON_STATS_INTERACT, MON_STATS_IN_TOWN, MON_STATS_NPC,
    MON_TYPE_CHAMPION, MON_TYPE_MINION, MON_TYPE_SUPER_UNIQUE, MON_TYPE_UNIQUE, UMOD_COLD_CHANT,
    UMOD_FIRE_CHANT, UMOD_LIGHT_CHANT, UMOD_MAGIC_RESISTANT, UMOD_MANA_BURN, UMOD_NONE,
};
use crate::consts::{D2ItemQualities, D2UIvars};
use crate::d2api::d2client::{ui_vars_complete, GetUIVar, UIVars};
use crate::hackmap::config::{color_rule_for, ItemUnit, UnitColorConfig};
use crate::text::{chars_of, dec_seq, hex_seq, push_radix, starts_with_color_marker, string_from_chars};

verus! {

broadcast use vstd::std_specs::hash::group_hash_axioms;

/// What the monster marker reads of a monster unit.
pub struct MonsterInfo {
    pub class_id: u32,
    pub is_corpse: bool,
    /// The flags of the monster's MonStats.txt record; `None` when the
    /// monster data or the record cannot be read.
    pub mon_stats_flags: Option<u32>,
    /// The monster classes of the level of the monster's room; `None` when
    /// the room or the level record cannot be read.
    pub level_monsters: Option<Vec<u16>>,
    /// The unit id of the monster's owner; `u32::MAX` for none.
    pub owner_id: u32,
    pub type_flag: u8,
    pub boss_hc_idx: u16,
    /// The unique modifiers, ended by `UMOD_NONE` or by the end of the list.
    pub umods: Vec<u8>,
    pub name: String,
    pub physical_resist: i32,
    pub magic_resist: i32,
    pub fire_resist: i32,
    pub lightning_resist: i32,
    pub cold_resist: i32,
    pub poison_resist: i32,
}

/// What the automap distinguishes of a unit, by kind.
pub enum UnitKind {
    /// A player; `client_player_id` is the unit id of the local player, if any.
    Player { client_player_id: Option<u32> },
    Monster(MonsterInfo),
    Item(ItemUnit),
    Missile,
    Other,
}

/// A unit of a room near the player, with its position in client coordinates.
pub struct UnitSnapshot {
    pub unit_id: u32,
    pub client_x: i32,
    pub client_y: i32,
    pub kind: UnitKind,
}

/// The visible rectangle of the automap.
#[derive(Clone, Copy)]
pub struct AutomapRect {
    pub left: i32,
    pub top: i32,
    pub right: i32,
    pub bottom: i32,
}

/// The automap's scale and scroll position, and its visible rectangle.
#[derive(Clone, Copy)]
pub struct AutomapView {
    pub divisor: i32,
    pub offset_x: i32,
    pub offset_y: i32,
    pub rect: AutomapRect,
}

/// One drawing on the automap.
pub enum DrawCommand {
    /// A unit marker centred at (x, y): the image of `blob_file`, or the
    /// default cross when none is set or it cannot be loaded, in `color`.
    Cell { x: i32, y: i32, blob_file: Option<String>, color: u8 },
    /// A text centred horizontally on `x`.
    Text { text: String, x: i32, y: i32, font: D2Font, color: D2StringColorCodes },
}

/// A drawing with its strings seen as character sequences.
pub enum DrawCommandView {
    Cell { x: i32, y: i32, blob_file: Option<Seq<char>>, color: u8 },
    Text { text: Seq<char>, x: i32, y: i32, font: D2Font, color: D2StringColorCodes },
}

/// An optional string seen as an optional character sequence.
pub open spec fn opt_view(o: Option<String>) -> Option<Seq<char>> {
    match o {
        Some(s) => Some(s@),
        None => None,
    }
}

/// The text of an optional string; empty when there is none.
pub open spec fn opt_text(o: Option<String>) -> Seq<char> {
    match o {
        Some(s) => s@,
        None => Seq::empty(),
    }
}

impl View for DrawCommand {
    type V = DrawCommandView;

    open spec fn view(&self) -> DrawCommandView {
        match *self {
            DrawCommand::Cell { x, y, blob_file, color } => DrawCommandView::Cell {
                x,
                y,
                blob_file: opt_view(blob_file),
                color,
            },
            DrawCommand::Text { text, x, y, font, color } => DrawCommandView::Text {
                text: text@,
                x,
                y,
                font,
                color,
            },
        }
    }
}

/// A sequence of drawings seen through their views.
pub open spec fn commands_view(v: Seq<DrawCommand>) -> Seq<DrawCommandView> {
    v.map_values(|c: DrawCommand| c@)
}

/// Whether all of the bits of `bits` are set in `v`.
pub open spec fn has_bits8(v: u8, bits: u8) -> bool {
    v & bits == bits
}

/// Whether all of the bits of `bits` are set in `v`.
pub open spec fn has_bits32(v: u32, bits: u32) -> bool {
    v & bits == bits
}

/// The description the configuration gives to unique modifier `m`.
pub open spec fn umod_desc(cfg: UnitColorConfig, m: u8) -> Seq<char> {
    if m == UMOD_MAGIC_RESISTANT {
        opt_text(cfg.magic_resistant_desc)
    } else if m == UMOD_FIRE_CHANT {
        opt_text(cfg.fire_enchanted_desc)
    } else if m == UMOD_LIGHT_CHANT {
        opt_text(cfg.lightning_enchanted_desc)
    } else if m == UMOD_COLD_CHANT {
        opt_text(cfg.cold_enchanted_desc)
    } else if m == UMOD_MANA_BURN {
        opt_text(cfg.mana_burn_desc)
    } else {
        Seq::empty()
    }
}

/// The descriptions of the modifiers `mods[i..]`, up to the first `UMOD_NONE`.
pub open spec fn umod_text_from(cfg: UnitColorConfig, mods: Seq<u8>, i: int) -> Seq<char>
    decreases mods.len() - i,
{
    if i < 0 || i >= mods.len() || mods[i] == UMOD_NONE {
        Seq::empty()
    } else {
        umod_desc(cfg, mods[i]) + umod_text_from(cfg, mods, i + 1)
    }
}

/// The immunity description `desc` when it is set and not empty and the
/// resistance reaches 100.
pub open spec fn immunity_text(desc: Option<String>, resist: i32) -> Seq<char> {
    match desc {
        Some(d) => if d@.len() > 0 && resist >= 100 {
            d@
        } else {
            Seq::empty()
        },
        None => Seq::empty(),
    }
}

/// The immunity descriptions of a monster, in the order physical, magic,
/// fire, lightning, cold, poison.
pub open spec fn immunities_text(cfg: UnitColorConfig, m: MonsterInfo) -> Seq<char> {
    immunity_text(cfg.physical_immunity_desc, m.physical_resist) + immunity_text(
        cfg.magic_immunity_desc,
        m.magic_resist,
    ) + immunity_text(cfg.fire_immunity_desc, m.fire_resist) + immunity_text(
        cfg.lightning_immunity_desc,
        m.lightning_resist,
    ) + immunity_text(cfg.cold_immunity_desc, m.cold_resist) + immunity_text(
        cfg.poison_immunity_desc,
        m.poison_resist,
    )
}

/// The colour, the blob file and whether the name is shown for a monster
/// marker, before the per-class colour of the configuration applies.
pub open spec fn monster_style(cfg: UnitColorConfig, boss_ids: Map<u32, u32>, m: MonsterInfo) -> (
    u8,
    Option<String>,
    bool,
) {
    if has_bits8(m.type_flag, MON_TYPE_SUPER_UNIQUE) {
        (cfg.super_unique_color, cfg.boss_blob_file, true)
    } else if has_bits8(m.type_flag, MON_TYPE_UNIQUE) {
        (cfg.boss_monster_color, cfg.boss_blob_file, false)
    } else if has_bits8(m.type_flag, MON_TYPE_CHAMPION) {
        (cfg.champion_monster_color, cfg.monster_blob_file, false)
    } else if has_bits8(m.type_flag, MON_TYPE_MINION) {
        (cfg.minion_monster_color, cfg.monster_blob_file, false)
    } else if boss_ids.contains_key(m.class_id) {
        (cfg.super_unique_color, cfg.boss_blob_file, true)
    } else {
        (cfg.normal_monster_color, cfg.monster_blob_file, false)
    }
}

/// The label written under a monster marker: `ÿc1`, then `ÿc1` and the
/// name for named monsters, the modifier descriptions of unique monsters,
/// and the immunity descriptions.
pub open spec fn monster_description(cfg: UnitColorConfig, m: MonsterInfo, flags: u32, show_name: bool) -> Seq<char> {
    let base = "\u{ff}c1"@;
    let named = if show_name || has_bits8(m.type_flag, MON_TYPE_SUPER_UNIQUE) {
        base + "\u{ff}c1"@ + m.name@
    } else if m.type_flag == MON_TYPE_UNIQUE && has_bits32(flags, MON_STATS_BOSS) && m.boss_hc_idx
        == 0 {
        base + "\u{ff}c1"@ + m.name@
    } else {
        base
    };
    let with_mods = if has_bits8(m.type_flag, MON_TYPE_UNIQUE) {
        named + umod_text_from(cfg, m.umods@, 0)
    } else {
        named
    };
    with_mods + immunities_text(cfg, m)
}

/// How far above its marker a monster's text is written, when the marker
/// draws one: 8 for the name of an NPC, 10 for the description of a
/// monster; `None` when nothing is drawn for the monster.
pub open spec fn monster_label_drop(cfg: UnitColorConfig, m: MonsterInfo) -> Option<int> {
    if m.class_id == 179 || m.is_corpse {
        None
    } else {
        match m.mon_stats_flags {
            None => None,
            Some(flags) => if has_bits32(flags, MON_STATS_NPC | MON_STATS_INTERACT) {
                Some(8)
            } else if has_bits32(flags, MON_STATS_IN_TOWN | MON_STATS_NPC) {
                None
            } else {
                match m.level_monsters {
                    None => None,
                    Some(level) => if level@.contains(m.class_id as u16) || m.owner_id != u32::MAX {
                        None
                    } else if cfg.monster_color@.contains_key(m.class_id) && cfg.monster_color@[m.class_id]
                        == 0xFF {
                        None
                    } else {
                        Some(10)
                    },
                }
            },
        }
    }
}

/// Whether the text of a monster marker at height `y` stays in range.
pub open spec fn monster_label_fits(cfg: UnitColorConfig, m: MonsterInfo, y: int) -> bool {
    match monster_label_drop(cfg, m) {
        Some(d) => y - d >= i32::MIN,
        None => true,
    }
}

/// The drawings for a monster whose marker stands at (x, y).
pub open spec fn monster_commands(
    cfg: UnitColorConfig,
    boss_ids: Map<u32, u32>,
    m: MonsterInfo,
    x: i32,
    y: i32,
) -> Seq<DrawCommandView> {
    if m.class_id == 179 || m.is_corpse {
        Seq::empty()
    } else {
        match m.mon_stats_flags {
            None => Seq::empty(),
            Some(flags) => if has_bits32(flags, MON_STATS_NPC | MON_STATS_INTERACT) {
                seq![
                    DrawCommandView::Text {
                        text: m.name@,
                        x,
                        y: (y - 8) as i32,
                        font: D2Font::Font6,
                        color: D2StringColorCodes::DarkGold,
                    },
                    DrawCommandView::Cell { x, y, blob_file: opt_view(cfg.npc_blob_file), color: 0xFF },
                ]
            } else if has_bits32(flags, MON_STATS_IN_TOWN | MON_STATS_NPC) {
                Seq::empty()
            } else {
                match m.level_monsters {
                    None => Seq::empty(),
                    Some(level) => if level@.contains(m.class_id as u16) || m.owner_id != u32::MAX {
                        Seq::empty()
                    } else {
                        let (color, blob, show_name) = monster_style(cfg, boss_ids, m);
                        if cfg.monster_color@.contains_key(m.class_id) && cfg.monster_color@[m.class_id]
                            == 0xFF {
                            Seq::empty()
                        } else {
                            let c = if cfg.monster_color@.contains_key(m.class_id) {
                                cfg.monster_color@[m.class_id]
                            } else {
                                color
                            };
                            seq![
                                DrawCommandView::Cell { x, y, blob_file: opt_view(blob), color: c },
                                DrawCommandView::Text {
                                    text: monster_description(cfg, m, flags, show_name),
                                    x,
                                    y: (y - 10) as i32,
                                    font: D2Font::Font16,
                                    color: D2StringColorCodes::White,
                                },
                            ]
                        }
                    },
                }
            },
        }
    }
}

/// An optional string, copied.
fn clone_opt(o: &Option<String>) -> (r: Option<String>)
    ensures
        opt_view(r) == opt_view(*o),
{
    match o {
        Some(s) => Some(s.clone()),
        None => None,
    }
}

/// Appends an optional text; nothing when there is none.
fn append_opt(s: &mut String, o: &Option<String>)
    ensures
        final(s)@ == old(s)@ + opt_text(*o),
{
    match o {
        Some(t) => s.append(t.as_str()),
        None => {
            assert(old(s)@ + Seq::<char>::empty() =~= old(s)@);
        },
    }
}

fn umod_desc_of<'a>(cfg: &'a UnitColorConfig, m: u8) -> (r: Option<&'a Option<String>>)
    ensures
        match r {
            Some(o) => opt_text(*o) == umod_desc(*cfg, m),
            None => umod_desc(*cfg, m) == Seq::<char>::empty(),
        },
{
    if m == UMOD_MAGIC_RESISTANT {
        Some(&cfg.magic_resistant_desc)
    } else if m == UMOD_FIRE_CHANT {
        Some(&cfg.fire_enchanted_desc)
    } else if m == UMOD_LIGHT_CHANT {
        Some(&cfg.lightning_enchanted_desc)
    } else if m == UMOD_COLD_CHANT {
        Some(&cfg.cold_enchanted_desc)
    } else if m == UMOD_MANA_BURN {
        Some(&cfg.mana_burn_desc)
    } else {
        None
    }
}

fn append_immunity(s: &mut String, desc: &Option<String>, resist: i32)
    ensures
        final(s)@ == old(s)@ + immunity_text(*desc, resist),
{
    match desc {
        Some(d) => {
            if d.as_str().unicode_len() != 0 && resist >= 100 {
                s.append(d.as_str());
            } else {
                assert(old(s)@ + Seq::<char>::empty() =~= old(s)@);
            }
        },
        None => {
            assert(old(s)@ + Seq::<char>::empty() =~= old(s)@);
        },
    }
}

fn contains_u16(v: &Vec<u16>, x: u16) -> (r: bool)
    ensures
        r == v@.contains(x),
{
    let mut i: usize = 0;
    while i < v.len()
        invariant
            i <= v.len(),
            forall|j: int| 0 <= j < i ==> v@[j] != x,
        decreases v.len() - i,
    {
        if v[i] == x {
            assert(v@[i as int] == x);
            return true;
        }
        i = i + 1;
    }
    false
}

/// Integer division rounding toward zero, as Rust's `/` on signed integers.
pub open spec fn trunc_div(a: int, b: int) -> int {
    if a >= 0 && b > 0 {
        a / b
    } else if a < 0 && b > 0 {
        -((-a) / b)
    } else if a >= 0 && b < 0 {
        -(a / (-b))
    } else {
        (-a) / (-b)
    }
}

/// `a / b` rounding toward zero.
fn div_trunc(a: i32, b: i32) -> (r: i32)
    requires
        b != 0,
        !(a == i32::MIN && b == -1),
    ensures
        r == trunc_div(a as int, b as int),
{
    if b > 0 {
        a / b
    } else if b == i32::MIN {
        if a == i32::MIN {
            1
        } else {
            0
        }
    } else {
        let nb: i32 = -b;
        let q = a / nb;
        assert(q == trunc_div(a as int, nb as int));
        proof {
            let na = -(a as int);
            if a < 0 {
                assert(na / (nb as int) <= na) by (nonlinear_arith)
                    requires na > 0, nb >= 1;
                if a == i32::MIN {
                    assert(na / (nb as int) <= na / 2) by (nonlinear_arith)
                        requires na > 0, nb >= 2;
                }
            }
        }
        -q
    }
}

/// The automap position of a unit: its client coordinates divided by the
/// automap's divisor, less the scroll offset, moved by (+8, -8).
pub open spec fn automap_position(u: UnitSnapshot, v: AutomapView) -> (int, int) {
    (
        trunc_div(u.client_x as int, v.divisor as int) - v.offset_x + 8,
        trunc_div(u.client_y as int, v.divisor as int) - v.offset_y - 8,
    )
}

/// Whether `v` fits in an `i32`.
pub open spec fn fits_i32(v: int) -> bool {
    i32::MIN <= v <= i32::MAX
}

/// Whether the automap position of `u` can be computed without overflow.
pub open spec fn position_computable(u: UnitSnapshot, v: AutomapView) -> bool {
    let qx = trunc_div(u.client_x as int, v.divisor as int);
    let qy = trunc_div(u.client_y as int, v.divisor as int);
    &&& v.divisor != 0
    &&& !(u.client_x == i32::MIN && v.divisor == -1)
    &&& !(u.client_y == i32::MIN && v.divisor == -1)
    &&& fits_i32(qx - v.offset_x) && fits_i32(qx - v.offset_x + 8)
    &&& fits_i32(qy - v.offset_y) && fits_i32(qy - v.offset_y - 8)
}

/// Whether the text drawn above a monster inside the visible rectangle
/// stays in range; nothing is asked of other units.
pub open spec fn unit_label_fits(cfg: UnitColorConfig, u: UnitSnapshot, v: AutomapView) -> bool {
    let (px, py) = automap_position(u, v);
    in_rect(px, py, v.rect) ==> match u.kind {
        UnitKind::Monster(m) => monster_label_fits(cfg, m, py),
        _ => true,
    }
}

/// Whether the point lies in the rectangle, borders included.
pub open spec fn in_rect(x: int, y: int, r: AutomapRect) -> bool {
    r.left <= x <= r.right && r.top <= y <= r.bottom
}

/// The drawing for an item whose marker stands at (x, y): a cell in the
/// minimap colour of its colour rule, unless it has no rule, the rule no
/// minimap colour, or that colour is 0xFF.
pub open spec fn item_commands(cfg: UnitColorConfig, it: ItemUnit, x: i32, y: i32) -> Seq<DrawCommandView> {
    match color_rule_for(cfg.item_colors@, it) {
        Some(rule) => match rule.minimap_color {
            Some(c) => if c == 0xFF {
                Seq::empty()
            } else {
                seq![DrawCommandView::Cell { x, y, blob_file: opt_view(cfg.item_blob_file), color: c }]
            },
            None => Seq::empty(),
        },
        None => Seq::empty(),
    }
}

/// The drawing for a player whose marker stands at (x, y): colour 0x97 for
/// the local player, 0x81 for others; nothing when there is no local player.
pub open spec fn player_commands(
    cfg: UnitColorConfig,
    unit_id: u32,
    client_player_id: Option<u32>,
    x: i32,
    y: i32,
) -> Seq<DrawCommandView> {
    match client_player_id {
        Some(pid) => seq![
            DrawCommandView::Cell {
                x,
                y,
                blob_file: opt_view(cfg.my_blob_file),
                color: if pid == unit_id { 0x97u8 } else { 0x81u8 },
            },
        ],
        None => Seq::empty(),
    }
}

/// The drawings for one unit: nothing when its position falls outside the
/// visible rectangle; else by kind, the player, monster or item marker.
pub open spec fn unit_commands(
    cfg: UnitColorConfig,
    boss_ids: Map<u32, u32>,
    u: UnitSnapshot,
    v: AutomapView,
) -> Seq<DrawCommandView> {
    let (px, py) = automap_position(u, v);
    if !in_rect(px, py, v.rect) {
        Seq::empty()
    } else {
        let x = px as i32;
        let y = py as i32;
        match u.kind {
            UnitKind::Player { client_player_id } => player_commands(cfg, u.unit_id, client_player_id, x, y),
            UnitKind::Monster(m) => monster_commands(cfg, boss_ids, m, x, y),
            UnitKind::Item(it) => item_commands(cfg, it, x, y),
            UnitKind::Missile => Seq::empty(),
            UnitKind::Other => Seq::empty(),
        }
    }
}

/// The drawings for all of `units`, unit after unit.
pub open spec fn units_commands(
    cfg: UnitColorConfig,
    boss_ids: Map<u32, u32>,
    units: Seq<UnitSnapshot>,
    v: AutomapView,
) -> Seq<DrawCommandView>
    decreases units.len(),
{
    if units.len() == 0 {
        Seq::empty()
    } else {
        units_commands(cfg, boss_ids, units.drop_last(), v) + unit_commands(cfg, boss_ids, units.last(), v)
    }
}

/// Whether the automap is drawn: not while the Esc menu or the options are
/// open (their UI variables not 0), nor while the UI open mode is 3.
pub fn automap_draw_enabled(vars: &UIVars, ui_open_mode: i32) -> (r: bool)
    requires
        ui_vars_complete(*vars),
    ensures
        r == (vars.values@[D2UIvars::EscMenu.index_spec() as int] == 0
            && vars.values@[D2UIvars::Config.index_spec() as int] == 0 && ui_open_mode != 3),
{
    if GetUIVar(vars, D2UIvars::EscMenu) != 0 || GetUIVar(vars, D2UIvars::Config) != 0 {
        return false;
    }
    if ui_open_mode == 3 {
        return false;
    }
    true
}

/// The corners of the default unit marker, relative to its centre; the
/// outline runs from each corner to the next and closes on the first.
pub open spec fn cross_point(i: int) -> (int, int) {
    if i == 0 {
        (0, -2)
    } else if i == 1 {
        (4, -4)
    } else if i == 2 {
        (8, -2)
    } else if i == 3 {
        (4, 0)
    } else if i == 4 {
        (8, 2)
    } else if i == 5 {
        (4, 4)
    } else if i == 6 {
        (0, 2)
    } else if i == 7 {
        (-4, 4)
    } else if i == 8 {
        (-8, 2)
    } else if i == 9 {
        (-4, 0)
    } else if i == 10 {
        (-8, -2)
    } else if i == 11 {
        (-4, -4)
    } else {
        (0, -2)
    }
}

fn cross_point_at(i: usize) -> (r: (i32, i32))
    requires
        i <= 12,
    ensures
        r.0 == cross_point(i as int).0 && r.1 == cross_point(i as int).1,
{
    if i == 0 {
        (0, -2)
    } else if i == 1 {
        (4, -4)
    } else if i == 2 {
        (8, -2)
    } else if i == 3 {
        (4, 0)
    } else if i == 4 {
        (8, 2)
    } else if i == 5 {
        (4, 4)
    } else if i == 6 {
        (0, 2)
    } else if i == 7 {
        (-4, 4)
    } else if i == 8 {
        (-8, 2)
    } else if i == 9 {
        (-4, 0)
    } else if i == 10 {
        (-8, -2)
    } else if i == 11 {
        (-4, -4)
    } else {
        (0, -2)
    }
}

/// The twelve lines of the default unit marker centred at (x, y), each
/// from corner `i` to corner `i + 1`.
pub fn draw_default_cross(x: i32, y: i32) -> (lines: Vec<(i32, i32, i32, i32)>)
    requires
        i32::MIN + 8 <= x <= i32::MAX - 8,
        i32::MIN + 4 <= y <= i32::MAX - 4,
    ensures
        lines@.len() == 12,
        forall|i: int|
            0 <= i < 12 ==> {
                let l = #[trigger] lines@[i];
                &&& l.0 == x + cross_point(i).0 && l.1 == y + cross_point(i).1
                &&& l.2 == x + cross_point(i + 1).0 && l.3 == y + cross_point(i + 1).1
            },
{
    let mut lines: Vec<(i32, i32, i32, i32)> = Vec::new();
    let mut i: usize = 0;
    while i < 12
        invariant
            i <= 12,
            i32::MIN + 8 <= x <= i32::MAX - 8,
            i32::MIN + 4 <= y <= i32::MAX - 4,
            lines@.len() == i,
            forall|j: int|
                0 <= j < i ==> {
                    let l = #[trigger] lines@[j];
                    &&& l.0 == x + cross_point(j).0 && l.1 == y + cross_point(j).1
                    &&& l.2 == x + cross_point(j + 1).0 && l.3 == y + cross_point(j + 1).1
                },
        decreases 12 - i,
    {
        let p = cross_point_at(i);
        let p2 = cross_point_at(i + 1);
        lines.push((x + p.0, y + p.1, x + p2.0, y + p2.1));
        i = i + 1;
    }
    lines
}

/// How a unit marker is drawn: the image of its blob file, or the default
/// cross.
#[derive(Clone, Copy, Debug, PartialEq, Eq, Structural)]
pub enum MarkerShape {
    Image,
    DefaultCross,
}

/// How a marker cell is drawn: the image of `blob_file` when one is set
/// and its image could be loaded (`image_loaded`, asked only when a file is
/// set), else the default cross.
pub fn draw_cell_by_blob_file(blob_file: &Option<String>, image_loaded: bool) -> (r: MarkerShape)
    ensures
        r == (if blob_file is Some && image_loaded {
            MarkerShape::Image
        } else {
            MarkerShape::DefaultCross
        }),
{
    match blob_file {
        None => MarkerShape::DefaultCross,
        Some(_) => if image_loaded {
            MarkerShape::Image
        } else {
            MarkerShape::DefaultCross
        },
    }
}

/// Whether the MonStats3 record at `off` marks a boss: bit 0x01 or 0x04 of
/// its first byte, or bit 0x02 of its second byte.
pub open spec fn is_boss_record(data: Seq<u8>, off: int) -> bool {
    data[off] & 1 != 0 || data[off + 1] & 2 != 0 || data[off] & 4 != 0
}

/// Whether `n` records of `rs` bytes can be read from `len` bytes as the
/// boss scan reads them: two bytes at the start of each record, and a
/// whole record skipped after each.
pub open spec fn records_fit(len: int, rs: int, n: int) -> bool {
    n == 0 || (n - 1) * rs + (if rs < 2 { 2 } else { rs }) <= len
}

/// `old` with every class `i < n` whose record marks a boss mapped to 1.
pub open spec fn with_boss_ids(old: Map<u32, u32>, data: Seq<u8>, rs: int, n: nat) -> Map<u32, u32>
    decreases n,
{
    if n == 0 {
        old
    } else {
        let m = with_boss_ids(old, data, rs, (n - 1) as nat);
        if is_boss_record(data, (n - 1) * rs) {
            m.insert((n - 1) as u32, 1)
        } else {
            m
        }
    }
}

/// The name Rust's `Debug` gives an item quality.
pub open spec fn quality_debug_name(q: D2ItemQualities) -> Seq<char> {
    match q {
        D2ItemQualities::Inferior => "Inferior"@,
        D2ItemQualities::Normal => "Normal"@,
        D2ItemQualities::Superior => "Superior"@,
        D2ItemQualities::Magic => "Magic"@,
        D2ItemQualities::SetItem => "Set"@,
        D2ItemQualities::Rare => "Rare"@,
        D2ItemQualities::Unique => "Unique"@,
        D2ItemQualities::Craft => "Craft"@,
        D2ItemQualities::Tempered => "Tempered"@,
    }
}

fn quality_debug_str(q: D2ItemQualities) -> (r: &'static str)
    ensures
        r@ == quality_debug_name(q),
{
    match q {
        D2ItemQualities::Inferior => "Inferior",
        D2ItemQualities::Normal => "Normal",
        D2ItemQualities::Superior => "Superior",
        D2ItemQualities::Magic => "Magic",
        D2ItemQualities::SetItem => "Set",
        D2ItemQualities::Rare => "Rare",
        D2ItemQualities::Unique => "Unique",
        D2ItemQualities::Craft => "Craft",
        D2ItemQualities::Tempered => "Tempered",
    }
}

/// `name` followed by `(<n>s)` when the item has `n` sockets, `n` not zero.
pub open spec fn with_socket_count(name: Seq<char>, socks: usize) -> Seq<char> {
    if socks != 0 {
        name + "("@ + dec_seq(socks as nat) + "s)"@
    } else {
        name
    }
}

/// `name` after a line with the item's unit id, quality and class id when
/// Shift is held.
pub open spec fn with_debug_line(name: Seq<char>, it: ItemUnit, shift: bool) -> Seq<char> {
    if shift {
        "UID:0x"@ + hex_seq(it.unit_id as nat) + " Q:"@ + quality_debug_name(it.quality) + " CID:"@
            + dec_seq(it.class_id as nat) + "<0x"@ + hex_seq(it.class_id as nat) + ">\n"@ + name
    } else {
        name
    }
}

/// `s` without its leading colour codes: while it starts with `ÿc`, every
/// leading `ÿc` is removed and then one more character.
pub open spec fn strip_color_prefixes(s: Seq<char>) -> Seq<char>
    decreases s.len(), 1int,
{
    if starts_with_color_marker(s) {
        strip_after_markers(s.skip(2))
    } else {
        s
    }
}

/// The rest of `strip_color_prefixes` once a leading `ÿc` is gone.
pub open spec fn strip_after_markers(t: Seq<char>) -> Seq<char>
    decreases t.len(), 0int,
{
    if starts_with_color_marker(t) {
        strip_after_markers(t.skip(2))
    } else if t.len() == 0 {
        t
    } else {
        strip_color_prefixes(t.skip(1))
    }
}

/// Whether the colour codes of `s` can be stripped: the character after
/// each run of `ÿc` exists and is ASCII, so that it can be cut as one byte.
pub open spec fn strip_defined(s: Seq<char>) -> bool
    decreases s.len(), 1int,
{
    if starts_with_color_marker(s) {
        strip_defined_after_markers(s.skip(2))
    } else {
        true
    }
}

/// The rest of `strip_defined` once a leading `ÿc` is gone.
pub open spec fn strip_defined_after_markers(t: Seq<char>) -> bool
    decreases t.len(), 0int,
{
    if starts_with_color_marker(t) {
        strip_defined_after_markers(t.skip(2))
    } else {
        t.len() > 0 && (t[0] as u32) < 0x80 && strip_defined(t.skip(1))
    }
}

fn marker_at(v: &Vec<char>, i: usize) -> (r: bool)
    requires
        i <= v.len(),
    ensures
        r == starts_with_color_marker(v@.skip(i as int)),
{
    v.len() - i >= 2 && v[i] == '\u{ff}' && v[i + 1] == 'c'
}

/// Where the text of `v` starts once its leading colour codes are stripped.
fn strip_start(v: &Vec<char>) -> (k: usize)
    requires
        strip_defined(v@),
    ensures
        k <= v.len(),
        v@.skip(k as int) == strip_color_prefixes(v@),
{
    let mut i: usize = 0;
    assert(v@.skip(0) =~= v@);
    while marker_at(v, i)
        invariant
            i <= v.len(),
            strip_color_prefixes(v@.skip(i as int)) == strip_color_prefixes(v@),
            strip_defined(v@.skip(i as int)),
        decreases v.len() - i,
    {
        assert(v@.skip(i as int).skip(2) =~= v@.skip(i + 2));
        let ghost i0 = i;
        i = i + 2;
        while marker_at(v, i)
            invariant
                i0 < i <= v.len(),
                strip_after_markers(v@.skip(i as int)) == strip_color_prefixes(v@),
                strip_defined_after_markers(v@.skip(i as int)),
            decreases v.len() - i,
        {
            assert(v@.skip(i as int).skip(2) =~= v@.skip(i + 2));
            i = i + 2;
        }
        assert(v@.skip(i as int).skip(1) =~= v@.skip(i + 1));
        i = i + 1;
    }
    i
}

/// The colour code an item's name is written in: the text colour of its
/// colour rule, when the rule has one and it is not `Invalid`.
pub open spec fn item_text_color(cfg: UnitColorConfig, it: ItemUnit) -> Option<u8> {
    match color_rule_for(cfg.item_colors@, it) {
        Some(rule) => match rule.text_color {
            Some(c) => c.code_spec(),
            None => None,
        },
        None => None,
    }
}

/// The item name before recolouring: with the socket count, and the debug
/// line when Shift is held.
pub open spec fn item_name_base(name: Seq<char>, it: ItemUnit, shift: bool) -> Seq<char> {
    with_debug_line(with_socket_count(name, it.num_sockets), it, shift)
}

/// The name shown for an item on the ground: the base name, recoloured as
/// `ÿc<code>` followed by the base name without its own leading colour
/// codes when the item's colour rule gives a text colour.
pub open spec fn item_display_name(cfg: UnitColorConfig, name: Seq<char>, it: ItemUnit, shift: bool) -> Seq<char> {
    let base = item_name_base(name, it, shift);
    match item_text_color(cfg, it) {
        Some(code) => "\u{ff}c"@ + dec_seq(code as nat) + strip_color_prefixes(base),
        None => base,
    }
}

/// Whether the item name can be built: when it is recoloured, its leading
/// colour codes can be stripped.
pub open spec fn item_display_name_defined(cfg: UnitColorConfig, name: Seq<char>, it: ItemUnit, shift: bool) -> bool {
    item_text_color(cfg, it) is Some ==> strip_defined(item_name_base(name, it, shift))
}

/// Every marker cell drawn for a unit lies inside the automap's visible
/// rectangle.
pub proof fn lemma_cells_inside_rect(cfg: UnitColorConfig, boss_ids: Map<u32, u32>, u: UnitSnapshot, v: AutomapView)
    requires
        position_computable(u, v),
    ensures
        forall|i: int|
            0 <= i < unit_commands(cfg, boss_ids, u, v).len() ==> match #[trigger] unit_commands(
                cfg,
                boss_ids,
                u,
                v,
            )[i] {
                DrawCommandView::Cell { x, y, .. } => in_rect(x as int, y as int, v.rect),
                DrawCommandView::Text { x, .. } => v.rect.left <= x <= v.rect.right,
            },
{
}

/// The outline of the default marker is closed: its last line ends where
/// its first line starts.
pub proof fn lemma_default_cross_closed()
    ensures
        cross_point(12) == cross_point(0),
{
}

/// Learning boss classes never forgets one: a class is known afterwards
/// exactly when it was known before or its record among the first `n`
/// marks a boss, and every class learnt maps to 1.
pub proof fn lemma_with_boss_ids(old_ids: Map<u32, u32>, data: Seq<u8>, rs: int, n: nat, k: u32)
    requires
        n <= u32::MAX as nat + 1,
    ensures
        with_boss_ids(old_ids, data, rs, n).contains_key(k) <==> (old_ids.contains_key(k) || ((k as nat)
            < n && is_boss_record(data, k * rs))),
        (k as nat) < n && is_boss_record(data, k * rs) ==> with_boss_ids(old_ids, data, rs, n)[k] == 1,
        !((k as nat) < n && is_boss_record(data, k * rs)) && old_ids.contains_key(k) ==> with_boss_ids(
            old_ids,
            data,
            rs,
            n,
        )[k] == old_ids[k],
    decreases n,
{
    if n > 0 {
        lemma_with_boss_ids(old_ids, data, rs, (n - 1) as nat, k);
    }
}

/// Each unique modifier is described by the configured text of the same
/// name: magic resistant (8), fire enchanted (9), lightning enchanted (17),
/// cold enchanted (18) and mana burn (25); a modifier list that starts with
/// 0 describes nothing, and any other modifier adds no text.
pub proof fn lemma_modifier_descriptions(cfg: UnitColorConfig, other: u8)
    ensures
        umod_text_from(cfg, seq![8u8], 0) == opt_text(cfg.magic_resistant_desc),
        umod_text_from(cfg, seq![9u8], 0) == opt_text(cfg.fire_enchanted_desc),
        umod_text_from(cfg, seq![17u8], 0) == opt_text(cfg.lightning_enchanted_desc),
        umod_text_from(cfg, seq![18u8], 0) == opt_text(cfg.cold_enchanted_desc),
        umod_text_from(cfg, seq![25u8], 0) == opt_text(cfg.mana_burn_desc),
        umod_text_from(cfg, seq![0u8, other], 0) == Seq::<char>::empty(),
        other != 8 && other != 9 && other != 17 && other != 18 && other != 25 ==> umod_text_from(
            cfg,
            seq![other],
            0,
        ) == Seq::<char>::empty(),
{
    reveal_with_fuel(umod_text_from, 2);
}

/// The description of two modifiers is the description of the first
/// followed by that of the second, unless the first ends the list.
pub proof fn lemma_modifier_descriptions_concatenate(cfg: UnitColorConfig, a: u8, b: u8)
    ensures
        a != 0 ==> umod_text_from(cfg, seq![a, b], 0) == umod_text_from(cfg, seq![a], 0) + umod_text_from(
            cfg,
            seq![b],
            0,
        ),
{
    reveal_with_fuel(umod_text_from, 3);
    assert(umod_text_from(cfg, seq![a, b], 2) == Seq::<char>::empty());
    assert(umod_text_from(cfg, seq![a], 1) == Seq::<char>::empty());
    assert(umod_text_from(cfg, seq![b], 1) == Seq::<char>::empty());
    if a != 0 {
        assert(umod_text_from(cfg, seq![a, b], 0) =~= umod_desc(cfg, a) + umod_text_from(cfg, seq![a, b], 1));
        assert(umod_text_from(cfg, seq![a], 0) =~= umod_desc(cfg, a));
        assert(umod_text_from(cfg, seq![a, b], 1) =~= umod_text_from(cfg, seq![b], 0));
    }
}

/// An item with sockets is named by its game name followed by the socket
/// count in decimal and `s` in brackets, whatever that count (one socket
/// included); an item without sockets keeps its game name. With no colour
/// rule configured, that is the name shown when Shift is not held.
pub proof fn lemma_socket_count_in_name(cfg: UnitColorConfig, name: Seq<char>, it: ItemUnit)
    ensures
        it.num_sockets != 0 ==> item_name_base(name, it, false) == name + "("@ + dec_seq(
            it.num_sockets as nat,
        ) + "s)"@,
        it.num_sockets == 0 ==> item_name_base(name, it, false) == name,
        cfg.item_colors@.len() == 0 ==> item_display_name(cfg, name, it, false) == item_name_base(
            name,
            it,
            false,
        ),
{
}

/// The monster classes that count as bosses on the automap, learnt from the
/// MonStats3 table.
pub struct UnitColor {
    /// The boss monster classes, each mapped to 1.
    pub boss_monster_id: HashMap<u32, u32>,
}

impl UnitColor {
    /// No monster class is known as a boss yet.
    pub fn new() -> (r: UnitColor)
        ensures
            r.boss_monster_id@ == Map::<u32, u32>::empty(),
    {
        UnitColor { boss_monster_id: HashMap::new() }
    }

    /// The label under a monster marker; see `monster_description`.
    fn monster_desc(&self, cfg: &UnitColorConfig, m: &MonsterInfo, flags: u32, show_name: bool) -> (r: String)
        ensures
            r@ == monster_description(*cfg, *m, flags, show_name),
    {
        let mut desc = String::from_str("\u{ff}c1");
        let ghost base = desc@;
        if show_name || (m.type_flag & MON_TYPE_SUPER_UNIQUE == MON_TYPE_SUPER_UNIQUE) {
            desc.append("\u{ff}c1");
            desc.append(m.name.as_str());
        } else if m.type_flag == MON_TYPE_UNIQUE && (flags & MON_STATS_BOSS == MON_STATS_BOSS)
            && m.boss_hc_idx == 0 {
            desc.append("\u{ff}c1");
            desc.append(m.name.as_str());
        }
        if m.type_flag & MON_TYPE_UNIQUE == MON_TYPE_UNIQUE {
            let ghost named = desc@;
            let mut i: usize = 0;
            while i < m.umods.len()
                invariant
                    i <= m.umods.len(),
                    named + umod_text_from(*cfg, m.umods@, 0) == desc@ + umod_text_from(*cfg, m.umods@, i as int),
                ensures
                    i <= m.umods.len(),
                    i == m.umods.len() || m.umods@[i as int] == UMOD_NONE,
                    named + umod_text_from(*cfg, m.umods@, 0) == desc@ + umod_text_from(*cfg, m.umods@, i as int),
                decreases m.umods.len() - i,
            {
                let umod = m.umods[i];
                if umod == UMOD_NONE {
                    break;
                }
                let ghost before = desc@;
                match umod_desc_of(cfg, umod) {
                    Some(o) => append_opt(&mut desc, o),
                    None => {},
                }
                assert(desc@ + umod_text_from(*cfg, m.umods@, i + 1) =~= before + umod_text_from(
                    *cfg,
                    m.umods@,
                    i as int,
                ));
                i = i + 1;
            }
            assert(umod_text_from(*cfg, m.umods@, i as int) =~= Seq::<char>::empty());
            assert(named + umod_text_from(*cfg, m.umods@, 0) =~= desc@);
        }
        let ghost with_mods = desc@;
        append_immunity(&mut desc, &cfg.physical_immunity_desc, m.physical_resist);
        append_immunity(&mut desc, &cfg.magic_immunity_desc, m.magic_resist);
        append_immunity(&mut desc, &cfg.fire_immunity_desc, m.fire_resist);
        append_immunity(&mut desc, &cfg.lightning_immunity_desc, m.lightning_resist);
        append_immunity(&mut desc, &cfg.cold_immunity_desc, m.cold_resist);
        append_immunity(&mut desc, &cfg.poison_immunity_desc, m.poison_resist);
        assert(desc@ =~= with_mods + immunities_text(*cfg, *m));
        desc
    }

    /// The drawings for a monster whose marker stands at (x, y).
    pub fn draw_monster(&self, cfg: &UnitColorConfig, m: &MonsterInfo, x: i32, y: i32) -> (r: Vec<DrawCommand>)
        requires
            monster_label_fits(*cfg, *m, y as int),
        ensures
            commands_view(r@) == monster_commands(*cfg, self.boss_monster_id@, *m, x, y),
    {
        let ghost spec_r = monster_commands(*cfg, self.boss_monster_id@, *m, x, y);
        let mut r: Vec<DrawCommand> = Vec::new();
        if m.class_id == 179 || m.is_corpse {
            assert(commands_view(r@) =~= spec_r);
            return r;
        }
        let flags = match m.mon_stats_flags {
            Some(f) => f,
            None => {
                assert(commands_view(r@) =~= spec_r);
                return r;
            },
        };
        if flags & (MON_STATS_NPC | MON_STATS_INTERACT) == (MON_STATS_NPC | MON_STATS_INTERACT) {
            r.push(
                DrawCommand::Text {
                    text: m.name.clone(),
                    x,
                    y: y - 8,
                    font: D2Font::Font6,
                    color: D2StringColorCodes::DarkGold,
                },
            );
            r.push(DrawCommand::Cell { x, y, blob_file: clone_opt(&cfg.npc_blob_file), color: 0xFF });
            assert(commands_view(r@) =~= spec_r);
            return r;
        }
        if flags & (MON_STATS_IN_TOWN | MON_STATS_NPC) == (MON_STATS_IN_TOWN | MON_STATS_NPC) {
            assert(commands_view(r@) =~= spec_r);
            return r;
        }
        let level = match &m.level_monsters {
            Some(l) => l,
            None => {
                assert(commands_view(r@) =~= spec_r);
                return r;
            },
        };
        if contains_u16(level, m.class_id as u16) || m.owner_id != u32::MAX {
            assert(commands_view(r@) =~= spec_r);
            return r;
        }
        let ghost style = monster_style(*cfg, self.boss_monster_id@, *m);
        let (mut color, blob, show_name) = if m.type_flag & MON_TYPE_SUPER_UNIQUE
            == MON_TYPE_SUPER_UNIQUE {
            (cfg.super_unique_color, &cfg.boss_blob_file, true)
        } else if m.type_flag & MON_TYPE_UNIQUE == MON_TYPE_UNIQUE {
            (cfg.boss_monster_color, &cfg.boss_blob_file, false)
        } else if m.type_flag & MON_TYPE_CHAMPION == MON_TYPE_CHAMPION {
            (cfg.champion_monster_color, &cfg.monster_blob_file, false)
        } else if m.type_flag & MON_TYPE_MINION == MON_TYPE_MINION {
            (cfg.minion_monster_color, &cfg.monster_blob_file, false)
        } else if self.boss_monster_id.contains_key(&m.class_id) {
            (cfg.super_unique_color, &cfg.boss_blob_file, true)
        } else {
            (cfg.normal_monster_color, &cfg.monster_blob_file, false)
        };
        assert(color == style.0 && *blob == style.1 && show_name == style.2);
        match cfg.monster_color.get(&m.class_id) {
            Some(c) => {
                if *c == 0xFF {
                    assert(commands_view(r@) =~= spec_r);
                    return r;
                }
                color = *c;
            },
            None => {},
        }
        r.push(DrawCommand::Cell { x, y, blob_file: clone_opt(blob), color });
        let desc = self.monster_desc(cfg, m, flags, show_name);
        r.push(
            DrawCommand::Text {
                text: desc,
                x,
                y: y - 10,
                font: D2Font::Font16,
                color: D2StringColorCodes::White,
            },
        );
        assert(commands_view(r@) =~= spec_r);
        r
    }

    /// The drawing for an item whose marker stands at (x, y); see `item_commands`.
    pub fn draw_item(&self, cfg: &UnitColorConfig, it: &ItemUnit, x: i32, y: i32) -> (r: Vec<DrawCommand>)
        ensures
            commands_view(r@) == item_commands(*cfg, *it, x, y),
    {
        let mut r: Vec<DrawCommand> = Vec::new();
        match cfg.get_color_from_unit(it) {
            Some(item_color) => match item_color.minimap_color {
                Some(c) => {
                    if c != 0xFF {
                        r.push(DrawCommand::Cell { x, y, blob_file: clone_opt(&cfg.item_blob_file), color: c });
                    }
                },
                None => {},
            },
            None => {},
        }
        assert(commands_view(r@) =~= item_commands(*cfg, *it, x, y));
        r
    }

    /// The drawing for a player whose marker stands at (x, y); see `player_commands`.
    pub fn draw_player(
        &self,
        cfg: &UnitColorConfig,
        unit_id: u32,
        client_player_id: Option<u32>,
        x: i32,
        y: i32,
    ) -> (r: Vec<DrawCommand>)
        ensures
            commands_view(r@) == player_commands(*cfg, unit_id, client_player_id, x, y),
    {
        let mut r: Vec<DrawCommand> = Vec::new();
        match client_player_id {
            Some(pid) => {
                let color: u8 = if pid == unit_id { 0x97 } else { 0x81 };
                r.push(DrawCommand::Cell { x, y, blob_file: clone_opt(&cfg.my_blob_file), color });
            },
            None => {},
        }
        assert(commands_view(r@) =~= player_commands(*cfg, unit_id, client_player_id, x, y));
        r
    }

    /// The drawings for one unit; see `unit_commands`.
    pub fn draw_unit(&self, cfg: &UnitColorConfig, u: &UnitSnapshot, v: &AutomapView) -> (r: Vec<DrawCommand>)
        requires
            position_computable(*u, *v),
            unit_label_fits(*cfg, *u, *v),
        ensures
            commands_view(r@) == unit_commands(*cfg, self.boss_monster_id@, *u, *v),
    {
        let qx = div_trunc(u.client_x, v.divisor);
        let qy = div_trunc(u.client_y, v.divisor);
        let x = qx - v.offset_x + 8;
        let y = qy - v.offset_y - 8;
        if x < v.rect.left || x > v.rect.right || y < v.rect.top || y > v.rect.bottom {
            let r: Vec<DrawCommand> = Vec::new();
            assert(commands_view(r@) =~= unit_commands(*cfg, self.boss_monster_id@, *u, *v));
            return r;
        }
        match &u.kind {
            UnitKind::Player { client_player_id } => self.draw_player(cfg, u.unit_id, *client_player_id, x, y),
            UnitKind::Monster(m) => self.draw_monster(cfg, m, x, y),
            UnitKind::Item(it) => self.draw_item(cfg, it, x, y),
            _ => {
                let r: Vec<DrawCommand> = Vec::new();
                assert(commands_view(r@) =~= unit_commands(*cfg, self.boss_monster_id@, *u, *v));
                r
            },
        }
    }

    /// The drawings for the units of the rooms around the player, unit after unit.
    pub fn draw_automap_units(&self, cfg: &UnitColorConfig, units: &Vec<UnitSnapshot>, v: &AutomapView) -> (r: Vec<
        DrawCommand,
    >)
        requires
            forall|i: int| 0 <= i < units@.len() ==> position_computable(#[trigger] units@[i], *v),
            forall|i: int|
                0 <= i < units@.len() ==> unit_label_fits(*cfg, #[trigger] units@[i], *v),
        ensures
            commands_view(r@) == units_commands(*cfg, self.boss_monster_id@, units@, *v),
    {
        let mut r: Vec<DrawCommand> = Vec::new();
        let mut i: usize = 0;
        while i < units.len()
            invariant
                i <= units.len(),
                forall|j: int| 0 <= j < units@.len() ==> position_computable(#[trigger] units@[j], *v),
                forall|j: int|
                    0 <= j < units@.len() ==> unit_label_fits(*cfg, #[trigger] units@[j], *v),
                commands_view(r@) == units_commands(*cfg, self.boss_monster_id@, units@.take(i as int), *v),
            decreases units.len() - i,
        {
            let mut cmds = self.draw_unit(cfg, &units[i], v);
            let ghost before = r@;
            let ghost added = cmds@;
            r.append(&mut cmds);
            assert(units@.take(i + 1).drop_last() =~= units@.take(i as int));
            assert(commands_view(r@) =~= commands_view(before) + commands_view(added));
            i = i + 1;
        }
        assert(units@.take(units.len() as int) =~= units@);
        r
    }

    /// Learns the boss classes from the MonStats3 table: `data` holds its
    /// records of `record_size` bytes, and the first `mon_count` of them,
    /// one per monster class, are scanned.
    pub fn init_automap_monster_colors(&mut self, data: &[u8], record_size: usize, mon_count: usize)
        requires
            records_fit(data@.len() as int, record_size as int, mon_count as int),
            mon_count <= u32::MAX as usize + 1,
        ensures
            final(self).boss_monster_id@ == with_boss_ids(
                old(self).boss_monster_id@,
                data@,
                record_size as int,
                mon_count as nat,
            ),
    {
        let mut i: usize = 0;
        let mut off: usize = 0;
        while i < mon_count
            invariant
                i <= mon_count,
                mon_count <= u32::MAX as usize + 1,
                records_fit(data@.len() as int, record_size as int, mon_count as int),
                off as int == i as int * record_size as int,
                self.boss_monster_id@ == with_boss_ids(
                    old(self).boss_monster_id@,
                    data@,
                    record_size as int,
                    i as nat,
                ),
            decreases mon_count - i,
        {
            proof {
                let rs = record_size as int;
                let n = mon_count as int;
                let k = i as int;
                assert(k * rs <= (n - 1) * rs) by (nonlinear_arith)
                    requires k <= n - 1, rs >= 0;
            }
            if data[off] & 0x01 != 0 || data[off + 1] & 0x02 != 0 {
                self.boss_monster_id.insert(i as u32, 1);
            } else if data[off] & 4 != 0 {
                self.boss_monster_id.insert(i as u32, 1);
            }
            off = off + record_size;
            i = i + 1;
            proof {
                assert(off as int == i as int * record_size as int) by (nonlinear_arith)
                    requires off as int == (i as int - 1) * record_size as int + record_size as int;
            }
        }
    }

    fn item_name_base_of(name: &str, it: &ItemUnit, shift_pressed: bool) -> (r: String)
        ensures
            r@ == item_name_base(name@, *it, shift_pressed),
    {
        let mut s = String::from_str(name);
        if it.num_sockets != 0 {
            s.append("(");
            push_radix(&mut s, it.num_sockets as u64, 10);
            s.append("s)");
        }
        if shift_pressed {
            let mut d = String::from_str("UID:0x");
            push_radix(&mut d, it.unit_id as u64, 16);
            d.append(" Q:");
            d.append(quality_debug_str(it.quality));
            d.append(" CID:");
            push_radix(&mut d, it.class_id as u64, 10);
            d.append("<0x");
            push_radix(&mut d, it.class_id as u64, 16);
            d.append(">\n");
            d.append(s.as_str());
            s = d;
        }
        s
    }

    fn item_text_color_of(cfg: &UnitColorConfig, it: &ItemUnit) -> (r: Option<u8>)
        ensures
            r == item_text_color(*cfg, *it),
    {
        match cfg.get_color_from_unit(it) {
            Some(rule) => match rule.text_color {
                Some(c) => c.code(),
                None => None,
            },
            None => None,
        }
    }

    /// Whether `d2sigma_items_get_item_name` is defined on these arguments;
    /// see `item_display_name_defined`.
    pub fn item_name_recolor_defined(&self, cfg: &UnitColorConfig, name: &str, it: &ItemUnit, shift_pressed: bool) -> (r: bool)
        ensures
            r == item_display_name_defined(*cfg, name@, *it, shift_pressed),
    {
        match Self::item_text_color_of(cfg, it) {
            None => true,
            Some(_) => {
                let base = Self::item_name_base_of(name, it, shift_pressed);
                let chars = chars_of(base.as_str());
                Self::strip_defined_exec(&chars)
            },
        }
    }

    fn strip_defined_exec(v: &Vec<char>) -> (r: bool)
        ensures
            r == strip_defined(v@),
    {
        let mut i: usize = 0;
        assert(v@.skip(0) =~= v@);
        while marker_at(v, i)
            invariant
                i <= v.len(),
                strip_defined(v@.skip(i as int)) == strip_defined(v@),
            decreases v.len() - i,
        {
            assert(v@.skip(i as int).skip(2) =~= v@.skip(i + 2));
            let ghost i0 = i;
            i = i + 2;
            while marker_at(v, i)
                invariant
                    i0 < i <= v.len(),
                    strip_defined_after_markers(v@.skip(i as int)) == strip_defined(v@),
                decreases v.len() - i,
            {
                assert(v@.skip(i as int).skip(2) =~= v@.skip(i + 2));
                i = i + 2;
            }
            if i >= v.len() || (v[i] as u32) >= 0x80 {
                return false;
            }
            assert(v@.skip(i as int).skip(1) =~= v@.skip(i + 1));
            i = i + 1;
        }
        true
    }

    /// The name shown for an item on the ground, from the name the game
    /// wrote; see `item_display_name`.
    pub fn d2sigma_items_get_item_name(&self, cfg: &UnitColorConfig, name: &str, it: &ItemUnit, shift_pressed: bool) -> (r: String)
        requires
            item_display_name_defined(*cfg, name@, *it, shift_pressed),
        ensures
            r@ == item_display_name(*cfg, name@, *it, shift_pressed),
    {
        let base = Self::item_name_base_of(name, it, shift_pressed);
        match Self::item_text_color_of(cfg, it) {
            None => base,
            Some(code) => {
                let chars = chars_of(base.as_str());
                let start = strip_start(&chars);
                let rest = string_from_chars(&chars, start);
                let mut out = String::from_str("\u{ff}c");
                push_radix(&mut out, code as u64, 10);
                out.append(rest.as_str());
                out
            },
        }
    }
}

} // verus!
