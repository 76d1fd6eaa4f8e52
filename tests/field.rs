use credential_pipe::field::{decode_field, trim_padding, units_from_bytes, FIELD_UNITS, MESSAGE_BYTES};

fn utf16_le(text: &str) -> Vec<u8> {
    let mut bytes = Vec::new();
    for unit in text.encode_utf16() {
        bytes.push((unit & 0xff) as u8);
        bytes.push((unit >> 8) as u8);
    }
    bytes
}

#[test]
fn padding_is_trimmed() {
    let bytes = utf16_le("alice\0\0\0");
    assert_eq!(bytes.len(), 16);
    assert_eq!(decode_field(&bytes), "alice");
}

#[test]
fn trim_padding_removes_trailing_nuls_only() {
    assert_eq!(trim_padding("alice\0\0\0"), "alice");
    assert_eq!(trim_padding("alice"), "alice");
    assert_eq!(trim_padding(""), "");
    assert_eq!(trim_padding("\0\0\0"), "");
    assert_eq!(trim_padding("a\0b\0"), "a\0b");
    assert_eq!(trim_padding("\0a"), "\0a");
    assert_eq!(trim_padding("pässwörd\0"), "pässwörd");
}

#[test]
fn units_are_little_endian_pairs() {
    assert_eq!(units_from_bytes(&vec![0x61, 0x00, 0x34, 0x12]), vec![0x0061u16, 0x1234]);
    assert_eq!(units_from_bytes(&vec![0xff, 0xff]), vec![0xffffu16]);
    assert_eq!(units_from_bytes(&vec![]), Vec::<u16>::new());
}

#[test]
fn odd_trailing_byte_is_dropped() {
    assert_eq!(units_from_bytes(&vec![0x61, 0x00, 0x62]), vec![0x0061u16]);
    assert_eq!(decode_field(&vec![0x61, 0x00, 0x62]), "a");
}

#[test]
fn decode_field_reads_utf16() {
    assert_eq!(decode_field(&utf16_le("bob")), "bob");
    assert_eq!(decode_field(&utf16_le("Pässwörd1")), "Pässwörd1");
    assert_eq!(decode_field(&utf16_le("key\u{1F511}\0")), "key\u{1F511}");
    assert_eq!(decode_field(&vec![]), "");
}

#[test]
fn decode_field_replaces_lone_surrogate() {
    // 'a', then a high surrogate with no low surrogate after it.
    let bytes = vec![0x61, 0x00, 0x3d, 0xd8];
    assert_eq!(decode_field(&bytes), "a\u{FFFD}");
}

#[test]
fn full_message_decodes_whole() {
    let text: String = std::iter::repeat('x').take(FIELD_UNITS).collect();
    let bytes = utf16_le(&text);
    assert_eq!(bytes.len(), MESSAGE_BYTES as usize);
    assert_eq!(decode_field(&bytes), text);
}

#[test]
fn message_ceiling_constants() {
    assert_eq!(MESSAGE_BYTES, 512);
    assert_eq!(FIELD_UNITS, 256);
    assert_eq!(FIELD_UNITS * 2, MESSAGE_BYTES as usize);
}
