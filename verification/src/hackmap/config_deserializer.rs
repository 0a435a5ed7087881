//! The checks and conversions applied to the values of the configuration
//! file: item quality names, 0/1 switches, colour code numbers and monster
//! class ids written in decimal or in hexadecimal.
use std::collections::HashMap;
use vstd::prelude::*;

use crate::consts::{D2ItemQualities, D2StringColorCodes};
use crate::text::{chars_of, dec_seq, digit_char, hex_seq};

verus! {

broadcast use vstd::std_specs::hash::group_hash_axioms;

/// `c` with an ASCII upper-case letter turned to lower case.
pub open spec fn ascii_lower(c: char) -> char {
    if 'A' <= c <= 'Z' {
        ((c as u32) + 32) as char
    } else {
        c
    }
}

/// Whether `s` lowered to lower case is `lower`, a lower-case ASCII word.
/// For the quality names below this is what comparing `s.to_lowercase()`
/// with the name decides: no other character lowers to one of their letters.
pub open spec fn eq_ignore_case(s: Seq<char>, lower: Seq<char>) -> bool {
    s.len() == lower.len() && forall|i: int| 0 <= i < s.len() ==> ascii_lower(#[trigger] s[i]) == lower[i]
}

/// The configuration name of an item quality.
pub open spec fn quality_key(q: D2ItemQualities) -> Seq<char> {
    match q {
        D2ItemQualities::Inferior => "inferior"@,
        D2ItemQualities::Normal => "normal"@,
        D2ItemQualities::Superior => "superior"@,
        D2ItemQualities::Magic => "magic"@,
        D2ItemQualities::SetItem => "set"@,
        D2ItemQualities::Rare => "rare"@,
        D2ItemQualities::Unique => "unique"@,
        D2ItemQualities::Craft => "craft"@,
        D2ItemQualities::Tempered => "tempered"@,
    }
}

/// The quality whose configuration name `s` is, in any letter case.
pub open spec fn quality_from_key(s: Seq<char>) -> Option<D2ItemQualities> {
    if eq_ignore_case(s, "inferior"@) {
        Some(D2ItemQualities::Inferior)
    } else if eq_ignore_case(s, "normal"@) {
        Some(D2ItemQualities::Normal)
    } else if eq_ignore_case(s, "superior"@) {
        Some(D2ItemQualities::Superior)
    } else if eq_ignore_case(s, "magic"@) {
        Some(D2ItemQualities::Magic)
    } else if eq_ignore_case(s, "set"@) {
        Some(D2ItemQualities::SetItem)
    } else if eq_ignore_case(s, "rare"@) {
        Some(D2ItemQualities::Rare)
    } else if eq_ignore_case(s, "unique"@) {
        Some(D2ItemQualities::Unique)
    } else if eq_ignore_case(s, "craft"@) {
        Some(D2ItemQualities::Craft)
    } else if eq_ignore_case(s, "tempered"@) {
        Some(D2ItemQualities::Tempered)
    } else {
        None
    }
}

fn lower_char(c: char) -> (r: char)
    ensures
        r == ascii_lower(c),
{
    if 'A' <= c && c <= 'Z' {
        ((c as u8) + 32) as char
    } else {
        c
    }
}

fn eq_ignore_case_exec(s: &Vec<char>, lower: &str) -> (r: bool)
    ensures
        r == eq_ignore_case(s@, lower@),
{
    let l = chars_of(lower);
    if s.len() != l.len() {
        return false;
    }
    let mut i: usize = 0;
    while i < s.len()
        invariant
            i <= s.len(),
            s.len() == l.len(),
            l@ == lower@,
            forall|j: int| 0 <= j < i ==> ascii_lower(#[trigger] s@[j]) == l@[j],
        decreases s.len() - i,
    {
        if lower_char(s[i]) != l[i] {
            return false;
        }
        i = i + 1;
    }
    true
}

/// The item quality named by `s` in the configuration, in any letter case;
/// `None` for any other text.
pub fn quality_from_str(s: &str) -> (r: Option<D2ItemQualities>)
    ensures
        r == quality_from_key(s@),
{
    let v = chars_of(s);
    if eq_ignore_case_exec(&v, "inferior") {
        Some(D2ItemQualities::Inferior)
    } else if eq_ignore_case_exec(&v, "normal") {
        Some(D2ItemQualities::Normal)
    } else if eq_ignore_case_exec(&v, "superior") {
        Some(D2ItemQualities::Superior)
    } else if eq_ignore_case_exec(&v, "magic") {
        Some(D2ItemQualities::Magic)
    } else if eq_ignore_case_exec(&v, "set") {
        Some(D2ItemQualities::SetItem)
    } else if eq_ignore_case_exec(&v, "rare") {
        Some(D2ItemQualities::Rare)
    } else if eq_ignore_case_exec(&v, "unique") {
        Some(D2ItemQualities::Unique)
    } else if eq_ignore_case_exec(&v, "craft") {
        Some(D2ItemQualities::Craft)
    } else if eq_ignore_case_exec(&v, "tempered") {
        Some(D2ItemQualities::Tempered)
    } else {
        None
    }
}

/// A 0/1 switch of the configuration: 0 is off, 1 is on, any other number
/// is refused.
pub fn bool_from_int(v: u8) -> (r: Option<bool>)
    ensures
        r == (if v == 0 {
            Some(false)
        } else if v == 1 {
            Some(true)
        } else {
            None
        }),
{
    if v == 0 {
        Some(false)
    } else if v == 1 {
        Some(true)
    } else {
        None
    }
}

/// The colour whose code is `n`.
pub open spec fn color_from_code(n: u8) -> D2StringColorCodes {
    if n == 0 {
        D2StringColorCodes::White
    } else if n == 1 {
        D2StringColorCodes::Red
    } else if n == 2 {
        D2StringColorCodes::LightGreen
    } else if n == 3 {
        D2StringColorCodes::Blue
    } else if n == 4 {
        D2StringColorCodes::DarkGold
    } else if n == 5 {
        D2StringColorCodes::Grey
    } else if n == 6 {
        D2StringColorCodes::Black
    } else if n == 7 {
        D2StringColorCodes::Tan
    } else if n == 8 {
        D2StringColorCodes::Orange
    } else if n == 9 {
        D2StringColorCodes::Yellow
    } else if n == 10 {
        D2StringColorCodes::DarkGreen
    } else if n == 11 {
        D2StringColorCodes::Purple
    } else if n == 12 {
        D2StringColorCodes::DarkGreen2
    } else {
        D2StringColorCodes::Invalid
    }
}

/// The text colour for the configuration number `v`: the colour with that
/// code for 0 to 12, `Invalid` above.
pub fn d2_str_color_code_from_int(v: u8) -> (r: D2StringColorCodes)
    ensures
        r == color_from_code(v),
        v <= 12 ==> r.code_spec() == Some(v),
        v > 12 <==> r == D2StringColorCodes::Invalid,
{
    if v == 0 {
        D2StringColorCodes::White
    } else if v == 1 {
        D2StringColorCodes::Red
    } else if v == 2 {
        D2StringColorCodes::LightGreen
    } else if v == 3 {
        D2StringColorCodes::Blue
    } else if v == 4 {
        D2StringColorCodes::DarkGold
    } else if v == 5 {
        D2StringColorCodes::Grey
    } else if v == 6 {
        D2StringColorCodes::Black
    } else if v == 7 {
        D2StringColorCodes::Tan
    } else if v == 8 {
        D2StringColorCodes::Orange
    } else if v == 9 {
        D2StringColorCodes::Yellow
    } else if v == 10 {
        D2StringColorCodes::DarkGreen
    } else if v == 11 {
        D2StringColorCodes::Purple
    } else if v == 12 {
        D2StringColorCodes::DarkGreen2
    } else {
        D2StringColorCodes::Invalid
    }
}

/// The text colour of an optional configuration number; see
/// `d2_str_color_code_from_int`.
pub fn opt_d2_str_color_code_from_int(v: Option<u8>) -> (r: Option<D2StringColorCodes>)
    ensures
        r == (match v {
            Some(n) => Some(color_from_code(n)),
            None => None,
        }),
{
    match v {
        Some(n) => Some(d2_str_color_code_from_int(n)),
        None => None,
    }
}

/// `s` without all of its leading `0x` pairs.
pub open spec fn trim_hex_prefix(s: Seq<char>) -> Seq<char>
    decreases s.len(),
{
    if s.len() >= 2 && s[0] == '0' && s[1] == 'x' {
        trim_hex_prefix(s.skip(2))
    } else {
        s
    }
}

/// The value of digit `c` in base `radix` (10 or 16, either letter case).
pub open spec fn digit_value(c: char, radix: nat) -> Option<nat> {
    if '0' <= c <= '9' {
        Some((c as u32 - 48) as nat)
    } else if radix == 16 && 'a' <= c <= 'f' {
        Some((c as u32 - 87) as nat)
    } else if radix == 16 && 'A' <= c <= 'F' {
        Some((c as u32 - 55) as nat)
    } else {
        None
    }
}

/// The number the digits `s` spell in base `radix`; `None` when one of
/// them is not a digit of that base.
pub open spec fn digits_value(s: Seq<char>, radix: nat) -> Option<nat>
    decreases s.len(),
{
    if s.len() == 0 {
        Some(0)
    } else {
        match (digits_value(s.drop_last(), radix), digit_value(s.last(), radix)) {
            (Some(v), Some(d)) => Some(v * radix + d),
            _ => None,
        }
    }
}

/// What `u32::from_str_radix` gives for `s`: one optional leading `+`,
/// then at least one digit, and a value that fits in a `u32`.
pub open spec fn u32_from_str_radix(s: Seq<char>, radix: nat) -> Option<u32> {
    let d = if s.len() >= 1 && s[0] == '+' {
        s.skip(1)
    } else {
        s
    };
    if d.len() == 0 {
        None
    } else {
        match digits_value(d, radix) {
            Some(v) => if v <= u32::MAX {
                Some(v as u32)
            } else {
                None
            },
            None => None,
        }
    }
}

/// Whether `s` starts with `0x`.
pub open spec fn starts_with_hex_prefix(s: Seq<char>) -> bool {
    s.len() >= 2 && s[0] == '0' && s[1] == 'x'
}

/// The monster class id a key of the `monster_color` table names:
/// hexadecimal after its leading `0x` pairs when it starts with `0x`,
/// decimal otherwise.
pub open spec fn monster_id_from_key(s: Seq<char>) -> Option<u32> {
    u32_from_str_radix(trim_hex_prefix(s), if starts_with_hex_prefix(s) { 16 } else { 10 })
}

fn digit_value_exec(c: char, radix: u64) -> (r: Option<u64>)
    requires
        radix == 10 || radix == 16,
    ensures
        match digit_value(c, radix as nat) {
            Some(d) => r == Some(d as u64),
            None => r is None,
        },
        r matches Some(d) ==> d < radix,
{
    if '0' <= c && c <= '9' {
        Some((c as u32 - 48) as u64)
    } else if radix == 16 && 'a' <= c && c <= 'f' {
        Some((c as u32 - 87) as u64)
    } else if radix == 16 && 'A' <= c && c <= 'F' {
        Some((c as u32 - 55) as u64)
    } else {
        None
    }
}

/// The monster class id named by a key of the `monster_color` table; see
/// `monster_id_from_key`.
pub fn parse_monster_id(key: &str) -> (r: Option<u32>)
    ensures
        r == monster_id_from_key(key@),
{
    let v = chars_of(key);
    let hex = v.len() >= 2 && v[0] == '0' && v[1] == 'x';
    let radix: u64 = if hex { 16 } else { 10 };
    let mut i: usize = 0;
    assert(v@.skip(0) =~= v@);
    while v.len() - i >= 2 && v[i] == '0' && v[i + 1] == 'x'
        invariant
            i <= v.len(),
            trim_hex_prefix(v@.skip(i as int)) == trim_hex_prefix(v@),
        decreases v.len() - i,
    {
        assert(v@.skip(i as int).skip(2) =~= v@.skip(i + 2));
        i = i + 2;
    }
    let ghost t = v@.skip(i as int);
    assert(t == trim_hex_prefix(v@));
    if i < v.len() && v[i] == '+' {
        assert(t.skip(1) =~= v@.skip(i + 1));
        i = i + 1;
    }
    let ghost d = v@.skip(i as int);
    if i == v.len() {
        return None;
    }
    let start = i;
    let mut acc: u64 = 0;
    let mut valid = true;
    let mut overflow = false;
    assert(d.take(0) =~= Seq::<char>::empty());
    while i < v.len()
        invariant
            start <= i <= v.len(),
            d == v@.skip(start as int),
            radix == 10 || radix == 16,
            acc <= u32::MAX,
            valid == (digits_value(d.take(i - start), radix as nat) is Some),
            valid && !overflow ==> digits_value(d.take(i - start), radix as nat) == Some(acc as nat),
            valid && overflow ==> digits_value(d.take(i - start), radix as nat)->0 > u32::MAX,
        decreases v.len() - i,
    {
        let ghost k = i - start;
        assert(d.take(k + 1).drop_last() =~= d.take(k));
        assert(d.take(k + 1).last() == v@[i as int]);
        let ghost prev = digits_value(d.take(k), radix as nat);
        match digit_value_exec(v[i], radix) {
            None => {
                valid = false;
            },
            Some(dg) => {
                if valid {
                    if overflow {
                        proof {
                            let p = prev->0;
                            assert(p * (radix as nat) + dg as nat >= p) by (nonlinear_arith)
                                requires radix >= 1;
                        }
                    } else {
                        let next = acc * radix + dg;
                        if next > u32::MAX as u64 {
                            overflow = true;
                        } else {
                            acc = next;
                        }
                    }
                }
            },
        }
        i = i + 1;
    }
    assert(d.take(i - start) =~= d);
    if !valid || overflow {
        None
    } else {
        Some(acc as u32)
    }
}

/// The monster colour table built from its entries, in order: each key
/// names a class id and a later entry for the same id overrides an earlier
/// one; `None` when some key names no class id.
pub open spec fn monster_color_map(entries: Seq<(String, u8)>) -> Option<Map<u32, u8>>
    decreases entries.len(),
{
    if entries.len() == 0 {
        Some(Map::empty())
    } else {
        match (monster_color_map(entries.drop_last()), monster_id_from_key(entries.last().0@)) {
            (Some(m), Some(id)) => Some(m.insert(id, entries.last().1)),
            _ => None,
        }
    }
}

/// The monster colour table of the configuration, from the keys and
/// colours the file holds, in the order given; see `monster_color_map`.
pub fn deserialize_monster_color(entries: &Vec<(String, u8)>) -> (r: Option<HashMap<u32, u8>>)
    ensures
        match monster_color_map(entries@) {
            Some(m) => r matches Some(h) && h@ == m,
            None => r is None,
        },
{
    let mut result: HashMap<u32, u8> = HashMap::new();
    let mut ok = true;
    let mut i: usize = 0;
    while i < entries.len()
        invariant
            i <= entries.len(),
            ok == (monster_color_map(entries@.take(i as int)) is Some),
            ok ==> monster_color_map(entries@.take(i as int)) == Some(result@),
        decreases entries.len() - i,
    {
        assert(entries@.take(i + 1).drop_last() =~= entries@.take(i as int));
        let (key, color) = &entries[i];
        match parse_monster_id(key.as_str()) {
            Some(id) => {
                if ok {
                    result.insert(id, *color);
                }
            },
            None => {
                ok = false;
            },
        }
        i = i + 1;
    }
    assert(entries@.take(entries.len() as int) =~= entries@);
    if ok {
        Some(result)
    } else {
        None
    }
}

/// Every quality's configuration name, written in any letter case, reads
/// back as that quality.
pub proof fn lemma_quality_key_round_trip(q: D2ItemQualities, s: Seq<char>)
    requires
        eq_ignore_case(s, quality_key(q)),
    ensures
        quality_from_key(s) == Some(q),
{
    reveal_strlit("inferior");
    reveal_strlit("normal");
    reveal_strlit("superior");
    reveal_strlit("magic");
    reveal_strlit("set");
    reveal_strlit("rare");
    reveal_strlit("unique");
    reveal_strlit("craft");
    reveal_strlit("tempered");
    assert(ascii_lower(s[0]) == quality_key(q)[0]);
    if s.len() >= 2 {
        assert(ascii_lower(s[1]) == quality_key(q)[1]);
    }
}

/// Every colour but `Invalid` reads back from its own code.
pub proof fn lemma_color_code_round_trip(c: D2StringColorCodes)
    requires
        c != D2StringColorCodes::Invalid,
    ensures
        c.code_spec() matches Some(n) && color_from_code(n) == c,
{
}

proof fn lemma_digits_of_number(n: nat, radix: nat)
    requires
        radix == 10 || radix == 16,
    ensures
        digits_value(if radix == 16 { hex_seq(n) } else { dec_seq(n) }, radix) == Some(n),
    decreases n,
{
    let s = if radix == 16 { hex_seq(n) } else { dec_seq(n) };
    if n < radix {
        assert(s == seq![digit_char(n)]);
        assert(s.drop_last() =~= Seq::<char>::empty());
        assert(digits_value(Seq::<char>::empty(), radix) == Some(0nat));
    } else {
        lemma_digits_of_number(n / radix, radix);
        let p = if radix == 16 { hex_seq(n / radix) } else { dec_seq(n / radix) };
        assert(s == p.push(digit_char(n % radix)));
        assert(s.drop_last() =~= p);
        assert(n == (n / radix) * radix + n % radix);
    }
}

/// A class id written in decimal, or in hexadecimal after `0x`, reads back
/// as that id.
pub proof fn lemma_monster_id_round_trip(n: u32)
    ensures
        monster_id_from_key(dec_seq(n as nat)) == Some(n),
        monster_id_from_key(seq!['0', 'x'] + hex_seq(n as nat)) == Some(n),
{
    lemma_digits_of_number(n as nat, 10);
    lemma_digits_of_number(n as nat, 16);
    lemma_first_digit(n as nat, 10);
    lemma_first_digit(n as nat, 16);
    let d = dec_seq(n as nat);
    let h = hex_seq(n as nat);
    let k = seq!['0', 'x'] + h;
    assert(k.skip(2) =~= h);
    assert(trim_hex_prefix(d) == d);
    assert(trim_hex_prefix(h) == h);
}

proof fn lemma_first_digit(n: nat, radix: nat)
    requires
        radix == 10 || radix == 16,
    ensures
        ({
            let s = if radix == 16 { hex_seq(n) } else { dec_seq(n) };
            &&& s.len() >= 1
            &&& s[0] != '+' && s[0] != 'x'
            &&& (s[0] == '0' ==> s.len() == 1)
        }),
    decreases n,
{
    if n >= radix {
        lemma_first_digit(n / radix, radix);
        assert(n / radix >= 1);
        lemma_nonzero_first_digit(n / radix, radix);
    }
}

proof fn lemma_nonzero_first_digit(n: nat, radix: nat)
    requires
        radix == 10 || radix == 16,
        n >= 1,
    ensures
        (if radix == 16 { hex_seq(n) } else { dec_seq(n) })[0] != '0',
    decreases n,
{
    if n >= radix {
        lemma_nonzero_first_digit(n / radix, radix);
    }
}

} // verus!
