use coeus::psk::{psk_from_hex, psk_to_hex, PskError};

#[test]
fn psk_text_is_lowercase_hex_high_nibble_first() {
    let mut key = [0u8; 32];
    key[0] = 0xab;
    key[1] = 0x01;
    key[31] = 0xf0;
    let text = psk_to_hex(&key);
    assert_eq!(text.len(), 64);
    assert!(text.starts_with("ab01"));
    assert!(text.ends_with("f0"));
    assert_eq!(text, format!("ab01{}f0", "00".repeat(29)));
}

#[test]
fn psk_text_round_trips() {
    let mut key = [0u8; 32];
    for (index, byte) in key.iter_mut().enumerate() {
        *byte = (index as u8).wrapping_mul(37).wrapping_add(5);
    }
    assert_eq!(psk_from_hex(&psk_to_hex(&key)), Ok(key));
    assert_eq!(psk_from_hex(&psk_to_hex(&[0x42; 32])), Ok([0x42; 32]));
}

#[test]
fn psk_text_accepts_either_case() {
    let upper = "AB".repeat(32);
    let lower = "ab".repeat(32);
    assert_eq!(psk_from_hex(&upper), Ok([0xab; 32]));
    assert_eq!(psk_from_hex(&lower), Ok([0xab; 32]));
}

#[test]
fn psk_text_of_wrong_length_is_refused() {
    assert_eq!(psk_from_hex(""), Err(PskError::WrongLength));
    assert_eq!(psk_from_hex(&"0".repeat(63)), Err(PskError::WrongLength));
    assert_eq!(psk_from_hex(&"0".repeat(65)), Err(PskError::WrongLength));
    // 62 ASCII digits and one two-byte character: 64 bytes, but not ASCII.
    let mixed = format!("{}é", "0".repeat(62));
    assert_eq!(mixed.len(), 64);
    assert_eq!(psk_from_hex(&mixed), Err(PskError::WrongLength));
}

#[test]
fn psk_text_with_a_non_hex_character_is_refused() {
    let mut text = "0".repeat(64);
    text.replace_range(40..41, "g");
    assert_eq!(psk_from_hex(&text), Err(PskError::NotHex));
    assert_eq!(psk_from_hex(&"z".repeat(64)), Err(PskError::NotHex));
}

#[test]
fn psk_text_is_written_back_in_lowercase() {
    let text = "0123456789ABCDEFabcdef".repeat(3);
    let text = format!("{}{}", text, "0A".repeat(1));
    assert_eq!(text.len(), 68);
    let text = &text[..64];
    let key = psk_from_hex(text).unwrap();
    assert_eq!(psk_to_hex(&key), text.to_lowercase());
}
