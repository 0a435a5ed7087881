//! Text building blocks: character pushes, number formatting and the
//! in-game colour-code markers.
use vstd::prelude::*;

verus! {

/// Appends one character to a string.
///
/// Calls `String::push`, whose documentation says it appends the given
/// `char` to the end of the string; the contract states exactly that.
#[verifier::external_body]
pub(crate) fn push_char(s: &mut String, c: char)
    ensures
        final(s)@ == old(s)@.push(c),
{
    s.push(c)
}

/// The ASCII digit for `d` in base 16, upper case (`0`-`9`, `A`-`F`).
pub open spec fn digit_char(d: nat) -> char {
    if d < 10 {
        (48 + d) as char
    } else {
        (55 + d) as char
    }
}

/// The decimal representation of `n`, without sign or leading zeros.
pub open spec fn dec_seq(n: nat) -> Seq<char>
    decreases n,
{
    if n < 10 {
        seq![digit_char(n)]
    } else {
        dec_seq(n / 10).push(digit_char(n % 10))
    }
}

/// The upper-case hexadecimal representation of `n`, without prefix or leading zeros.
pub open spec fn hex_seq(n: nat) -> Seq<char>
    decreases n,
{
    if n < 16 {
        seq![digit_char(n)]
    } else {
        hex_seq(n / 16).push(digit_char(n % 16))
    }
}

/// The representation of `n` in `base` (10 or 16).
pub open spec fn radix_seq(n: nat, base: nat) -> Seq<char> {
    if base == 16 { hex_seq(n) } else { dec_seq(n) }
}

/// The decimal representation of a signed number, with a leading `-` when negative.
pub open spec fn signed_dec_seq(n: int) -> Seq<char> {
    if n < 0 { seq!['-'] + dec_seq((-n) as nat) } else { dec_seq(n as nat) }
}

fn digit_of(d: u64) -> (c: char)
    requires
        d < 16,
    ensures
        c == digit_char(d as nat),
{
    if d < 10 {
        assert(((48 + d) as u32) as char == digit_char(d as nat));
        ((48 + d) as u8) as char
    } else {
        ((55 + d) as u8) as char
    }
}

proof fn lemma_radix_step(n: nat, base: nat)
    requires
        base == 10 || base == 16,
        n >= base,
    ensures
        radix_seq(n, base) == radix_seq(n / base, base).push(digit_char(n % base)),
{
}

/// Appends `n` written in `base` (10 or 16, upper-case digits) to `s`.
pub fn push_radix(s: &mut String, n: u64, base: u64)
    requires
        base == 10 || base == 16,
    ensures
        final(s)@ == old(s)@ + radix_seq(n as nat, base as nat),
{
    let mut digits: Vec<char> = Vec::new();
    let mut m = n;
    let ghost mut rest: Seq<char> = Seq::empty();
    while m >= base
        invariant
            base == 10 || base == 16,
            radix_seq(n as nat, base as nat) == radix_seq(m as nat, base as nat) + digits@.reverse(),
        decreases m,
    {
        let d = digit_of(m % base);
        proof {
            lemma_radix_step(m as nat, base as nat);
            assert(digits@.push(d).reverse() =~= seq![d] + digits@.reverse());
        }
        digits.push(d);
        m = m / base;
    }
    let d0 = digit_of(m);
    assert(radix_seq(m as nat, base as nat) == seq![d0]);
    push_char(s, d0);
    let mut i = digits.len();
    while i > 0
        invariant
            i <= digits.len(),
            s@ == old(s)@ + seq![d0] + digits@.subrange(i as int, digits.len() as int).reverse(),
        decreases i,
    {
        i = i - 1;
        push_char(s, digits[i]);
        assert(digits@.subrange(i as int, digits.len() as int).reverse() =~= digits@.subrange(
            i + 1,
            digits.len() as int,
        ).reverse().push(digits@[i as int]));
    }
    assert(digits@.subrange(0, digits.len() as int) =~= digits@);
    assert(seq![d0] + digits@.reverse() =~= radix_seq(n as nat, base as nat));
}

/// The characters of `s`, in order.
pub fn chars_of(s: &str) -> (v: Vec<char>)
    ensures
        v@ == s@,
{
    let mut v: Vec<char> = Vec::new();
    for c in it: s.chars()
        invariant
            v@ == it.seq().take(it.index() as int),
            it.seq() == s@,
    {
        v.push(c);
    }
    v
}

/// The string made of `v[start..]`.
pub fn string_from_chars(v: &Vec<char>, start: usize) -> (r: String)
    requires
        start <= v.len(),
    ensures
        r@ == v@.skip(start as int),
{
    let mut r = String::new();
    let mut i = start;
    while i < v.len()
        invariant
            start <= i <= v.len(),
            r@ == v@.subrange(start as int, i as int),
        decreases v.len() - i,
    {
        push_char(&mut r, v[i]);
        i = i + 1;
        assert(r@ =~= v@.subrange(start as int, i as int));
    }
    assert(v@.subrange(start as int, v.len() as int) =~= v@.skip(start as int));
    r
}

/// Appends `n` in decimal, with a leading `-` when it is negative.
pub fn push_signed_dec(s: &mut String, n: i32)
    ensures
        final(s)@ == old(s)@ + signed_dec_seq(n as int),
{
    if n < 0 {
        push_char(s, '-');
        let m: u64 = (0i64 - (n as i64)) as u64;
        push_radix(s, m, 10);
        assert(final(s)@ =~= old(s)@ + signed_dec_seq(n as int));
    } else {
        push_radix(s, n as u64, 10);
    }
}

/// Whether `v` is a Unicode scalar value, that is a valid `char`.
pub open spec fn is_scalar_value(v: u32) -> bool {
    v < 0xD800 || 0xE000 <= v <= 0x10FFFF
}

/// The `char` with scalar value `v`.
///
/// Calls `char::from_u32`, which the standard library documents as
/// returning the character for a valid scalar value and `None` for a
/// surrogate or a value above 0x10FFFF; the contract says that.
#[verifier::external_body]
fn char_from_u32(v: u32) -> (r: Option<char>)
    ensures
        is_scalar_value(v) ==> r == Some(v as char),
        !is_scalar_value(v) ==> r is None,
{
    char::from_u32(v)
}

/// The text UTF-16 code units `s` stand for, each unpaired surrogate
/// replaced by U+FFFD.
pub open spec fn decode_utf16_lossy(s: Seq<u16>) -> Seq<char>
    decreases s.len(),
{
    if s.len() == 0 {
        Seq::empty()
    } else if s[0] < 0xD800 || s[0] > 0xDFFF {
        seq![(s[0] as u32) as char] + decode_utf16_lossy(s.skip(1))
    } else if s[0] <= 0xDBFF && s.len() >= 2 && 0xDC00 <= s[1] <= 0xDFFF {
        seq![(0x10000 + (s[0] - 0xD800) * 0x400 + (s[1] - 0xDC00)) as char] + decode_utf16_lossy(s.skip(2))
    } else {
        seq!['\u{fffd}'] + decode_utf16_lossy(s.skip(1))
    }
}

/// The text the UTF-16 code units `units` stand for; see `decode_utf16_lossy`.
pub fn string_from_utf16_lossy(units: &[u16]) -> (r: String)
    ensures
        r@ == decode_utf16_lossy(units@),
{
    let mut out = String::new();
    let mut i: usize = 0;
    assert(units@.skip(0) =~= units@);
    while i < units.len()
        invariant
            i <= units.len(),
            out@ + decode_utf16_lossy(units@.skip(i as int)) == decode_utf16_lossy(units@),
        decreases units.len() - i,
    {
        let ghost rest = units@.skip(i as int);
        let ghost before = out@;
        let u = units[i];
        if u < 0xD800 || u > 0xDFFF {
            let c = char_from_u32(u as u32);
            push_char(&mut out, c.unwrap());
            assert(rest.skip(1) =~= units@.skip(i + 1));
            assert(out@ + decode_utf16_lossy(units@.skip(i + 1)) =~= before + decode_utf16_lossy(rest));
            i = i + 1;
        } else if u <= 0xDBFF && units.len() - i >= 2 && 0xDC00 <= units[i + 1] && units[i + 1] <= 0xDFFF {
            let lo = units[i + 1];
            let v: u32 = 0x10000 + ((u as u32) - 0xD800) * 0x400 + ((lo as u32) - 0xDC00);
            let c = char_from_u32(v);
            push_char(&mut out, c.unwrap());
            assert(rest.skip(2) =~= units@.skip(i + 2));
            assert(out@ + decode_utf16_lossy(units@.skip(i + 2)) =~= before + decode_utf16_lossy(rest));
            i = i + 2;
        } else {
            push_char(&mut out, '\u{fffd}');
            assert(rest.skip(1) =~= units@.skip(i + 1));
            assert(out@ + decode_utf16_lossy(units@.skip(i + 1)) =~= before + decode_utf16_lossy(rest));
            i = i + 1;
        }
    }
    assert(decode_utf16_lossy(units@.skip(i as int)) =~= Seq::<char>::empty());
    assert(out@ + Seq::<char>::empty() =~= out@);
    out
}

/// Whether `s` starts with the colour-code marker `ÿc`.
pub open spec fn starts_with_color_marker(s: Seq<char>) -> bool {
    s.len() >= 2 && s[0] == '\u{ff}' && s[1] == 'c'
}

} // verus!
