use hackmap::d2api::d2ex::{get_item_name, D2SigmaEx, ITEM_NAME_BUFFER_LEN};

#[test]
fn capture_item_properties() {
    let mut s = D2SigmaEx::new();
    assert!(!s.is_getting_item_properties());
    assert!(s.draw_framed_text("shown"));
    assert_eq!(s.end_item_properties(), "");
    s.begin_item_properties();
    assert!(s.is_getting_item_properties());
    assert!(!s.draw_framed_text("\u{ff}c4Hello \u{ff}c1World"));
    assert!(!s.draw_framed_text("\u{ff}c3Last"));
    let text = s.end_item_properties();
    assert_eq!(text, "Last");
    assert!(!s.is_getting_item_properties());
    assert!(s.draw_framed_text("again"));
    assert_eq!(s.end_item_properties(), "");
}

fn captured(text: &str) -> String {
    let mut s = D2SigmaEx::new();
    s.begin_item_properties();
    assert!(!s.draw_framed_text(text));
    s.end_item_properties()
}

#[test]
fn strip_codes_edges() {
    assert_eq!(captured("\u{ff}c4Hello \u{ff}c1World"), "Hello World");
    assert_eq!(captured("ab\u{ff}c"), "ab");
    assert_eq!(captured("\u{ff}cX"), "");
    assert_eq!(captured("\u{ff}"), "\u{ff}");
    assert_eq!(captured("\u{ff}\u{ff}cc"), "\u{ff}");
    assert_eq!(captured("plain text"), "plain text");
}

#[test]
fn item_name_buffer_decoding() {
    assert_eq!(get_item_name(&[0x48, 0x69, 0]), "Hi\u{0}");
    let cases: [&[u16]; 4] = [&[0xD83D, 0xDE00, 0x41], &[0xD800, 0x41], &[0xDC00], &[0xD800, 0xD800, 0xDC00]];
    for c in cases {
        assert_eq!(get_item_name(c), String::from_utf16_lossy(c));
    }
    assert_eq!(get_item_name(&[0xD800, 0x41]), "\u{fffd}A");
    let mut buf = vec![0u16; ITEM_NAME_BUFFER_LEN];
    buf[0] = 0x41;
    assert_eq!(get_item_name(&buf).chars().count(), ITEM_NAME_BUFFER_LEN);
}
