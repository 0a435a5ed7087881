//! Small game tweaks: ground items always shown, the collision test used
//! to see through walls, running in town, no shadows, and monster names on
//! the life bar with their resistances.
use vstd::prelude::*;

use crate::hackmap::config::TweaksConfig;
use crate::text::{dec_seq, hex_seq, push_radix, push_signed_dec, signed_dec_seq};

verus! {

/// The resistances shown next to a monster's name on its life bar.
#[derive(Clone, Copy)]
pub struct MonsterResists {
    pub damage: i32,
    pub magic: i32,
    pub fire: i32,
    pub lightning: i32,
    pub cold: i32,
    pub poison: i32,
}

/// How the client's UI state handler is called.
#[derive(Clone, Copy, Debug, PartialEq, Eq, Structural)]
pub enum PermShowItemsPlan {
    /// Call the handler as it is.
    Forward,
    /// Clear the Alt UI variable, call the handler, then set the variable
    /// again, so that ground items stay shown.
    ForwardWithAltHeld,
}

/// The game tweaks' own state: the life bar name last built, as UTF-16.
pub struct Tweaks {
    pub current_monster_name: Vec<u16>,
}

/// The resistance list that follows a monster's name: each value after the
/// colour code of its element.
pub open spec fn resists_text(r: MonsterResists) -> Seq<char> {
    " \u{ff}c7"@ + signed_dec_seq(r.damage as int) + " \u{ff}c8"@ + signed_dec_seq(r.magic as int)
        + " \u{ff}c1"@ + signed_dec_seq(r.fire as int) + " \u{ff}c9"@ + signed_dec_seq(
        r.lightning as int,
    ) + " \u{ff}c3"@ + signed_dec_seq(r.cold as int) + " \u{ff}c2"@ + signed_dec_seq(r.poison as int)
}

/// The name on a monster's life bar: with Shift held, the name, the class
/// id in decimal and hexadecimal; otherwise the name and the percentage of
/// life left followed by `%%`; then the resistances.
pub open spec fn life_bar_name(name: Seq<char>, class_id: u32, shift: bool, hp_percent: usize, r: MonsterResists) -> Seq<char> {
    if shift {
        name + "("@ + dec_seq(class_id as nat) + ", 0x"@ + hex_seq(class_id as nat) + ")"@ + resists_text(r)
    } else {
        name + "("@ + dec_seq(hp_percent as nat) + "%%)"@ + resists_text(r)
    }
}

impl Tweaks {
    /// No life bar name built yet.
    pub fn new() -> (t: Tweaks)
        ensures
            t.current_monster_name@ == Seq::<u16>::empty(),
    {
        Tweaks { current_monster_name: Vec::new() }
    }

    /// The Y key switches the permanent display of ground items; no key is
    /// consumed.
    pub fn on_key_down(&self, cfg: &mut TweaksConfig, vk: u16) -> (consumed: bool)
        ensures
            !consumed,
            final(cfg).perm_show_items == perm_show_after_key(old(cfg).perm_show_items, vk),
            final(cfg).auto_item_to_belt == old(cfg).auto_item_to_belt,
    {
        if vk == 'Y' as u16 {
            cfg.perm_show_items = !cfg.perm_show_items;
        }
        false
    }

    /// Whether a unit is to be hidden from the collision test: the test is
    /// answered (first) and no unit is hidden (second).
    pub fn should_hide_unit(&self) -> (r: (bool, bool))
        ensures
            r == (true, false),
    {
        (true, false)
    }

    /// How the client's UI state handler is called: with the Alt variable
    /// cleared around it while ground items are to be shown and Alt is not
    /// held.
    pub fn handle_perm_show_items(&self, cfg: &TweaksConfig, hold_alt: i32) -> (r: PermShowItemsPlan)
        ensures
            r == (if !cfg.perm_show_items || hold_alt != 0 {
                PermShowItemsPlan::Forward
            } else {
                PermShowItemsPlan::ForwardWithAltHeld
            }),
    {
        if cfg.perm_show_items == false || hold_alt != 0 {
            return PermShowItemsPlan::Forward;
        }
        PermShowItemsPlan::ForwardWithAltHeld
    }
}

/// The answer to the collision test with a unit, from what
/// `should_hide_unit` says: `None` to ask the game, else TRUE (1) when the
/// unit is hidden and FALSE (0) when not.
pub fn test_collision_answer(hide_answer: (bool, bool)) -> (r: Option<i32>)
    ensures
        r == (if !hide_answer.0 {
            None
        } else if hide_answer.1 {
            Some(1i32)
        } else {
            Some(0i32)
        }),
{
    let (success, hide) = hide_answer;
    if success == false {
        return None;
    }
    if hide {
        Some(1)
    } else {
        Some(0)
    }
}

/// The movement flags of the player: the running bit (8) is added when the
/// player runs or stands in town.
pub fn running_flags(flags: u32, is_running: i32, in_town: bool) -> (r: u32)
    ensures
        r == (if is_running != 0 || in_town {
            flags | 8
        } else {
            flags
        }),
{
    if is_running != 0 || in_town {
        flags | 8
    } else {
        flags
    }
}

/// The colour of unit shadows: plain white and opaque, that is no shadow.
pub fn MISC_CalculateShadowRGBA(r: &mut u8, g: &mut u8, b: &mut u8, a: &mut u8)
    ensures
        *final(r) == 0xFF && *final(g) == 0xFF && *final(b) == 0xFF && *final(a) == 0xFF,
{
    *a = 0xFF;
    *r = 0xFF;
    *g = 0xFF;
    *b = 0xFF;
}

/// The resistances on a life bar each follow the colour code of their own
/// element, in the order damage (`ÿc7`), magic (`ÿc8`), fire (`ÿc1`),
/// lightning (`ÿc9`), cold (`ÿc3`), poison (`ÿc2`), each in signed decimal;
/// before them stand the name and, in brackets, the life percentage and
/// `%%` (or, with Shift held, the class id in decimal and hexadecimal).
pub proof fn lemma_life_bar_layout(name: Seq<char>, class_id: u32, hp_percent: usize, r: MonsterResists)
    ensures
        ({
            let tail = " \u{ff}c7"@ + signed_dec_seq(r.damage as int) + " \u{ff}c8"@ + signed_dec_seq(
                r.magic as int,
            ) + " \u{ff}c1"@ + signed_dec_seq(r.fire as int) + " \u{ff}c9"@ + signed_dec_seq(
                r.lightning as int,
            ) + " \u{ff}c3"@ + signed_dec_seq(r.cold as int) + " \u{ff}c2"@ + signed_dec_seq(
                r.poison as int,
            );
            &&& life_bar_name(name, class_id, false, hp_percent, r) == name + "("@ + dec_seq(
                hp_percent as nat,
            ) + "%%)"@ + tail
            &&& life_bar_name(name, class_id, true, hp_percent, r) == name + "("@ + dec_seq(class_id as nat)
                + ", 0x"@ + hex_seq(class_id as nat) + ")"@ + tail
        }),
{
}

/// The name on a monster's life bar; see `life_bar_name`.
pub fn monster_life_bar_name(name: &str, class_id: u32, shift_pressed: bool, hp_percent: usize, resists: MonsterResists) -> (r: String)
    ensures
        r@ == life_bar_name(name@, class_id, shift_pressed, hp_percent, resists),
{
    let mut s = String::from_str(name);
    s.append("(");
    if shift_pressed {
        push_radix(&mut s, class_id as u64, 10);
        s.append(", 0x");
        push_radix(&mut s, class_id as u64, 16);
        s.append(")");
    } else {
        push_radix(&mut s, hp_percent as u64, 10);
        s.append("%%)");
    }
    let ghost head = s@;
    s.append(" \u{ff}c7");
    push_signed_dec(&mut s, resists.damage);
    s.append(" \u{ff}c8");
    push_signed_dec(&mut s, resists.magic);
    s.append(" \u{ff}c1");
    push_signed_dec(&mut s, resists.fire);
    s.append(" \u{ff}c9");
    push_signed_dec(&mut s, resists.lightning);
    s.append(" \u{ff}c3");
    push_signed_dec(&mut s, resists.cold);
    s.append(" \u{ff}c2");
    push_signed_dec(&mut s, resists.poison);
    assert(s@ =~= head + resists_text(resists));
    assert(s@ =~= life_bar_name(name@, class_id, shift_pressed, hp_percent, resists));
    s
}

/// The permanent display switch after key `vk`: Y (0x59) flips it, any
/// other key leaves it.
pub open spec fn perm_show_after_key(v: bool, vk: u16) -> bool {
    if vk == 0x59 {
        !v
    } else {
        v
    }
}

/// Pressing the same key twice leaves the permanent display of ground
/// items as it was.
pub proof fn lemma_key_twice_restores(v: bool, vk: u16)
    ensures
        perm_show_after_key(perm_show_after_key(v, vk), vk) == v,
{
}

} // verus!
