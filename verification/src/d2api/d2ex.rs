//! Capture of item property texts: while the hack map asks D2Sigma for the
//! properties of an item, the framed texts D2Sigma draws are kept, without
//! their colour codes, instead of being drawn.
use vstd::prelude::*;

use crate::text::{chars_of, decode_utf16_lossy, push_char, string_from_utf16_lossy};

verus! {

/// `s` without its colour codes: each `ÿc` is removed with the character
/// that follows it.
pub open spec fn strip_color_codes(s: Seq<char>) -> Seq<char>
    decreases s.len(),
{
    if s.len() == 0 {
        s
    } else if s[0] == '\u{ff}' && s.len() > 1 && s[1] == 'c' {
        strip_color_codes(s.skip(if s.len() >= 3 { 3 } else { s.len() as int }))
    } else {
        seq![s[0]] + strip_color_codes(s.skip(1))
    }
}

/// The capture state of item property texts. Texts are kept only while a
/// capture is on, and nothing is kept while it is off.
pub struct D2SigmaEx {
    is_getting_item_properties: bool,
    item_properties: String,
}

impl D2SigmaEx {
    /// Outside a capture nothing is kept.
    #[verifier::type_invariant]
    spec fn nothing_kept_outside_capture(self) -> bool {
        !self.is_getting_item_properties ==> self.item_properties@.len() == 0
    }

    /// Whether framed texts are being captured.
    pub closed spec fn capturing(self) -> bool {
        self.is_getting_item_properties
    }

    /// The text captured so far.
    pub closed spec fn captured(self) -> Seq<char> {
        self.item_properties@
    }

    /// Not capturing, nothing captured.
    pub fn new() -> (r: D2SigmaEx)
        ensures
            !r.capturing(),
            r.captured() == Seq::<char>::empty(),
    {
        D2SigmaEx { is_getting_item_properties: false, item_properties: String::new() }
    }

    /// Whether framed texts are being captured; when not, nothing is kept.
    pub fn is_getting_item_properties(&self) -> (r: bool)
        ensures
            r == self.capturing(),
            !r ==> self.captured() == Seq::<char>::empty(),
    {
        proof {
            use_type_invariant(self);
        }
        self.is_getting_item_properties
    }

    /// Starts capturing, before D2Sigma is asked for an item's properties.
    pub fn begin_item_properties(&mut self)
        ensures
            final(self).capturing(),
            final(self).captured() == old(self).captured(),
    {
        self.is_getting_item_properties = true;
    }

    /// Stops capturing and hands out the text captured, leaving none.
    pub fn end_item_properties(&mut self) -> (r: String)
        ensures
            !final(self).capturing(),
            r@ == old(self).captured(),
            final(self).captured() == Seq::<char>::empty(),
    {
        let mut taken = String::new();
        std::mem::swap(&mut taken, &mut self.item_properties);
        self.is_getting_item_properties = false;
        taken
    }

    /// Keeps `text`, without its colour codes, as the captured properties;
    /// only during a capture.
    fn on_get_item_properties(&mut self, text: &str)
        requires
            old(self).capturing(),
        ensures
            final(self).captured() == strip_color_codes(text@),
            final(self).capturing(),
    {
        let chars = chars_of(text);
        let mut new_text = String::new();
        let mut i: usize = 0;
        assert(chars@.skip(0) =~= chars@);
        assert(new_text@ + strip_color_codes(chars@) =~= strip_color_codes(chars@));
        while i < chars.len()
            invariant
                i <= chars.len(),
                new_text@ + strip_color_codes(chars@.skip(i as int)) == strip_color_codes(chars@),
            decreases chars.len() - i,
        {
            let ch = chars[i];
            if ch == '\u{ff}' && i + 1 < chars.len() && chars[i + 1] == 'c' {
                let ghost rest = chars@.skip(i as int);
                if chars.len() - i >= 3 {
                    assert(rest.skip(3) =~= chars@.skip(i + 3));
                    i = i + 3;
                } else {
                    assert(rest.skip(rest.len() as int) =~= chars@.skip(chars.len() as int));
                    i = chars.len();
                }
            } else {
                let ghost before = new_text@;
                push_char(&mut new_text, ch);
                assert(chars@.skip(i as int).skip(1) =~= chars@.skip(i + 1));
                assert(new_text@ + strip_color_codes(chars@.skip(i + 1)) =~= before + (seq![ch]
                    + strip_color_codes(chars@.skip(i + 1))));
                i = i + 1;
            }
        }
        assert(strip_color_codes(chars@.skip(i as int)) =~= Seq::<char>::empty());
        self.item_properties = new_text;
    }

    /// A framed text D2Sigma draws: kept, and not drawn, while capturing.
    /// Returns whether the text is to be drawn.
    pub fn draw_framed_text(&mut self, text: &str) -> (draw: bool)
        ensures
            draw == !old(self).capturing(),
            old(self).capturing() ==> final(self).captured() == strip_color_codes(text@),
            !old(self).capturing() ==> final(self).captured() == old(self).captured(),
            final(self).capturing() == old(self).capturing(),
    {
        if self.is_getting_item_properties {
            self.on_get_item_properties(text);
            return false;
        }
        true
    }
}

/// The size, in UTF-16 code units, of the buffer D2Sigma writes an item
/// name into.
pub const ITEM_NAME_BUFFER_LEN: usize = 0x1000;

/// An item's name from the buffer D2Sigma wrote it into: the whole buffer,
/// NUL padding included, decoded as UTF-16 with unpaired surrogates
/// replaced by U+FFFD.
pub fn get_item_name(buffer: &[u16]) -> (r: String)
    ensures
        r@ == decode_utf16_lossy(buffer@),
{
    string_from_utf16_lossy(buffer)
}

/// A text without `ÿ` is kept as it is.
pub proof fn lemma_strip_plain_text(s: Seq<char>)
    requires
        forall|i: int| 0 <= i < s.len() ==> s[i] != '\u{ff}',
    ensures
        strip_color_codes(s) == s,
    decreases s.len(),
{
    if s.len() > 0 {
        lemma_strip_plain_text(s.skip(1));
        assert(seq![s[0]] + s.skip(1) =~= s);
    }
}

/// Stripping never lengthens a text.
pub proof fn lemma_strip_shortens(s: Seq<char>)
    ensures
        strip_color_codes(s).len() <= s.len(),
    decreases s.len(),
{
    if s.len() > 0 {
        if s[0] == '\u{ff}' && s.len() > 1 && s[1] == 'c' {
            lemma_strip_shortens(s.skip(if s.len() >= 3 { 3 } else { s.len() as int }));
        } else {
            lemma_strip_shortens(s.skip(1));
        }
    }
}

} // verus!
