use text_input_bridge::utf16::{decode_utf16, encode_utf16};

#[test]
fn encode_ascii_is_one_unit_each() {
    assert_eq!(encode_utf16("abc"), vec![0x61u16, 0x62, 0x63]);
}

#[test]
fn encode_empty_is_empty() {
    assert_eq!(encode_utf16(""), Vec::<u16>::new());
}

#[test]
fn encode_bmp_characters() {
    assert_eq!(encode_utf16("\u{e9}\u{20ac}"), vec![0x00e9u16, 0x20ac]);
    assert_eq!(encode_utf16("\u{d7ff}\u{e000}\u{ffff}"), vec![0xd7ffu16, 0xe000, 0xffff]);
}

#[test]
fn encode_astral_character_is_a_surrogate_pair() {
    assert_eq!(encode_utf16("\u{1f600}"), vec![0xd83du16, 0xde00]);
    assert_eq!(encode_utf16("\u{10000}"), vec![0xd800u16, 0xdc00]);
    assert_eq!(encode_utf16("\u{10ffff}"), vec![0xdbffu16, 0xdfff]);
}

#[test]
fn encode_agrees_with_std() {
    let text = "a\u{1f600}b \u{e9}\u{20ac}\u{10348} z";
    let expected: Vec<u16> = text.encode_utf16().collect();
    assert_eq!(encode_utf16(text), expected);
}

#[test]
fn decode_gives_back_what_was_encoded() {
    let text = "a\u{1f600}b \u{e9}\u{20ac}\u{10348} z";
    assert_eq!(decode_utf16(&encode_utf16(text)), Some(text.to_string()));
}

#[test]
fn decode_empty_is_empty_text() {
    assert_eq!(decode_utf16(&[]), Some(String::new()));
}

#[test]
fn decode_pair() {
    assert_eq!(decode_utf16(&[0xd83d, 0xde00]), Some("\u{1f600}".to_string()));
    assert_eq!(decode_utf16(&[0xdbff, 0xdfff]), Some("\u{10ffff}".to_string()));
}

#[test]
fn decode_rejects_lone_high_surrogate() {
    assert_eq!(decode_utf16(&[0x61, 0xd83d]), None);
    assert_eq!(decode_utf16(&[0xd83d, 0x61]), None);
}

#[test]
fn decode_rejects_lone_low_surrogate() {
    assert_eq!(decode_utf16(&[0xde00]), None);
    assert_eq!(decode_utf16(&[0x61, 0xde00, 0x62]), None);
}

#[test]
fn decode_rejects_pair_in_wrong_order() {
    assert_eq!(decode_utf16(&[0xde00, 0xd83d]), None);
}

#[test]
fn decode_rejects_two_high_surrogates() {
    assert_eq!(decode_utf16(&[0xd83d, 0xd83d, 0xde00]), None);
}
