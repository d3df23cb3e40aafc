//! Text form of the 32-byte pre-shared key: exactly 64 hexadecimal digits.
//!
//! Keys are written in lowercase; both cases are accepted when reading.

use vstd::prelude::*;
use vstd::string::StringSliceAdditionalSpecFns;

verus! {

broadcast use vstd::string::group_string_axioms;

/// Number of bytes in a pre-shared key.
pub const PSK_LEN: usize = 32;

/// Number of characters in the text form of a pre-shared key.
pub const PSK_TEXT_LEN: usize = 64;

/// Why a text could not be read as a pre-shared key.
#[derive(Debug, Clone, Copy, PartialEq, Eq, Structural)]
pub enum PskError {
    /// The text is not exactly 64 ASCII characters.
    WrongLength,
    /// Some character is not a hexadecimal digit.
    NotHex,
}

/// The lowercase hexadecimal digit for a nibble `n < 16`.
pub open spec fn nibble_char(n: int) -> char {
    if n < 10 {
        (48 + n) as char
    } else {
        (87 + n) as char
    }
}

/// The value of a hexadecimal digit, if `c` is one (either case).
pub open spec fn hex_value(c: char) -> Option<int> {
    if '0' <= c && c <= '9' {
        Some(c as int - 48)
    } else if 'a' <= c && c <= 'f' {
        Some(c as int - 87)
    } else if 'A' <= c && c <= 'F' {
        Some(c as int - 55)
    } else {
        None
    }
}

/// The `i`-th character of the text form of `key`: two digits per byte,
/// high nibble first.
pub open spec fn hex_char_at(key: Seq<u8>, i: int) -> char {
    if i % 2 == 0 {
        nibble_char((key[i / 2] / 16) as int)
    } else {
        nibble_char((key[i / 2] % 16) as int)
    }
}

/// The lowercase text form of a key.
pub open spec fn hex_encode(key: Seq<u8>) -> Seq<char> {
    Seq::new(2 * key.len(), |i: int| hex_char_at(key, i))
}

/// Whether `s` has the shape of a key text: 64 ASCII characters.
pub open spec fn psk_text_shape(s: Seq<char>) -> bool {
    s.len() == PSK_TEXT_LEN && vstd::utf8::is_ascii_chars(s)
}

/// Whether every character of `s` is a hexadecimal digit.
pub open spec fn all_hex(s: Seq<char>) -> bool {
    forall|i: int| 0 <= i < s.len() ==> (#[trigger] hex_value(s[i])) is Some
}

/// The byte that the digits at `2 * j` and `2 * j + 1` of `s` stand for.
pub open spec fn hex_byte_at(s: Seq<char>, j: int) -> u8 {
    (hex_value(s[2 * j])->0 * 16 + hex_value(s[2 * j + 1])->0) as u8
}

/// What reading `s` as a key gives.
pub open spec fn decode_psk(s: Seq<char>) -> Result<Seq<u8>, PskError> {
    if !psk_text_shape(s) {
        Err(PskError::WrongLength)
    } else if !all_hex(s) {
        Err(PskError::NotHex)
    } else {
        Ok(Seq::new(PSK_LEN as nat, |j: int| hex_byte_at(s, j)))
    }
}

/// The one-character string for a nibble.
fn nibble_str(n: u8) -> (s: &'static str)
    requires
        n < 16,
    ensures
        s@ == seq![nibble_char(n as int)],
{
    proof {
        reveal_strlit("0");
        reveal_strlit("1");
        reveal_strlit("2");
        reveal_strlit("3");
        reveal_strlit("4");
        reveal_strlit("5");
        reveal_strlit("6");
        reveal_strlit("7");
        reveal_strlit("8");
        reveal_strlit("9");
        reveal_strlit("a");
        reveal_strlit("b");
        reveal_strlit("c");
        reveal_strlit("d");
        reveal_strlit("e");
        reveal_strlit("f");
    }
    match n {
        0 => "0",
        1 => "1",
        2 => "2",
        3 => "3",
        4 => "4",
        5 => "5",
        6 => "6",
        7 => "7",
        8 => "8",
        9 => "9",
        10 => "a",
        11 => "b",
        12 => "c",
        13 => "d",
        14 => "e",
        _ => "f",
    }
}

/// Writes a key as 64 lowercase hexadecimal digits, high nibble first.
pub fn psk_to_hex(key: &[u8; 32]) -> (text: String)
    ensures
        text@ == hex_encode(key@),
{
    let mut text = String::new();
    let mut i: usize = 0;
    while i < PSK_LEN
        invariant
            i <= PSK_LEN,
            key@.len() == PSK_LEN,
            text@.len() == 2 * i,
            forall|j: int| 0 <= j < 2 * i ==> text@[j] == hex_char_at(key@, j),
        decreases PSK_LEN - i,
    {
        let byte: u8 = key[i];
        let high: u8 = byte >> 4;
        let low: u8 = byte & 15;
        assert(byte >> 4 == byte / 16 && byte & 15 == byte % 16) by (bit_vector);
        let ghost before = text@;
        text.append(nibble_str(high));
        text.append(nibble_str(low));
        assert forall|j: int| 0 <= j < 2 * (i + 1) implies text@[j] == hex_char_at(key@, j) by {
            if j < 2 * i {
                assert(text@[j] == before[j]);
            }
        }
        i = i + 1;
    }
    assert(text@ =~= hex_encode(key@));
    text
}

/// The value of an ASCII hexadecimal digit.
fn hex_digit(byte: u8) -> (value: Option<u8>)
    ensures
        hex_value(byte as char) is Some <==> value is Some,
        value matches Some(v) ==> v == hex_value(byte as char)->0 && v < 16,
{
    if 48 <= byte && byte <= 57 {
        Some(byte - 48)
    } else if 97 <= byte && byte <= 102 {
        Some(byte - 87)
    } else if 65 <= byte && byte <= 70 {
        Some(byte - 55)
    } else {
        None
    }
}

/// Reads a key from its text form: exactly 64 ASCII characters, each a
/// hexadecimal digit of either case, two per byte, high nibble first.
pub fn psk_from_hex(text: &str) -> (key: Result<[u8; 32], PskError>)
    ensures
        key matches Ok(k) ==> decode_psk(text@) == Ok::<Seq<u8>, PskError>(k@),
        key matches Err(e) ==> decode_psk(text@) == Err::<Seq<u8>, PskError>(e),
{
    broadcast use vstd::string::is_ascii_spec_bytes;

    let ascii = text.is_ascii();
    proof {
        if ascii {
            assert(text.spec_bytes().len() == text@.len());
        }
    }
    let bytes = text.as_bytes();
    if bytes.len() != PSK_TEXT_LEN || !ascii {
        return Err(PskError::WrongLength);
    }
    assert forall|i: int| 0 <= i < PSK_TEXT_LEN implies bytes@[i] == text@[i] as u8 && (
    bytes@[i] as char) == text@[i] by {
        assert('\0' <= text@[i] <= '\u{7f}');
    }
    let mut key: [u8; 32] = [0u8; 32];
    let mut i: usize = 0;
    while i < PSK_LEN
        invariant
            i <= PSK_LEN,
            bytes@.len() == PSK_TEXT_LEN,
            text@.len() == PSK_TEXT_LEN,
            psk_text_shape(text@),
            forall|j: int| 0 <= j < PSK_TEXT_LEN ==> (#[trigger] bytes@[j] as char) == text@[j],
            forall|j: int| 0 <= j < 2 * i ==> (#[trigger] hex_value(text@[j])) is Some,
            forall|j: int| 0 <= j < i ==> key@[j] == #[trigger] hex_byte_at(text@, j),
        decreases PSK_LEN - i,
    {
        let high = hex_digit(bytes[2 * i]);
        let low = hex_digit(bytes[2 * i + 1]);
        assert(bytes@[2 * i] as char == text@[2 * i]);
        assert(bytes@[2 * i + 1] as char == text@[2 * i + 1]);
        match (high, low) {
            (Some(h), Some(l)) => {
                let value: u8 = (h << 4) | l;
                assert(h < 16 && l < 16 ==> (h << 4) | l == h * 16 + l) by (bit_vector);
                key[i] = value;
            },
            _ => {
                assert(!all_hex(text@)) by {
                    if high is None {
                        assert(hex_value(text@[2 * i]) is None);
                    } else {
                        assert(hex_value(text@[2 * i + 1]) is None);
                    }
                }
                return Err(PskError::NotHex);
            },
        }
        i = i + 1;
    }
    assert(all_hex(text@));
    assert(key@ =~= Seq::new(PSK_LEN as nat, |j: int| hex_byte_at(text@, j)));
    Ok(key)
}

/// Reading back the text form of a key gives the key: the text is 64
/// lowercase hexadecimal digits, and each pair of digits stands for the byte
/// it was written from.
pub proof fn lemma_psk_text_round_trip(key: Seq<u8>)
    requires
        key.len() == PSK_LEN,
    ensures
        decode_psk(hex_encode(key)) == Ok::<Seq<u8>, PskError>(key),
{
    let s = hex_encode(key);
    assert forall|i: int| 0 <= i < s.len() implies '\0' <= #[trigger] s[i] <= '\u{7f}'
        && hex_value(s[i]) is Some by {
        let b = key[i / 2];
        assert(0 <= b / 16 < 16 && 0 <= b % 16 < 16);
    }
    assert(psk_text_shape(s));
    assert(all_hex(s));
    assert forall|j: int| 0 <= j < PSK_LEN implies #[trigger] hex_byte_at(s, j) == key[j] by {
        let b = key[j];
        assert((2 * j) % 2 == 0 && (2 * j) / 2 == j);
        assert((2 * j + 1) % 2 == 1 && (2 * j + 1) / 2 == j);
        assert(hex_value(s[2 * j])->0 == b / 16);
        assert(hex_value(s[2 * j + 1])->0 == b % 16);
        assert((b / 16) * 16 + b % 16 == b);
    }
    assert(Seq::new(PSK_LEN as nat, |j: int| hex_byte_at(s, j)) =~= key);
}

/// The lowercase form of a hexadecimal digit.
pub open spec fn lowercase_hex(c: char) -> char {
    if 'A' <= c && c <= 'F' {
        ((c as int) + 32) as char
    } else {
        c
    }
}

/// Writing back a key read from a text gives the text with its digits in
/// lowercase.
pub proof fn lemma_psk_text_canonical(text: Seq<char>)
    requires
        decode_psk(text) is Ok,
    ensures
        hex_encode(decode_psk(text)->Ok_0) == text.map_values(|c: char| lowercase_hex(c)),
{
    let key = decode_psk(text)->Ok_0;
    assert forall|i: int| 0 <= i < PSK_TEXT_LEN implies #[trigger] hex_char_at(key, i)
        == lowercase_hex(text[i]) by {
        let j = i / 2;
        let high = hex_value(text[2 * j])->0;
        let low = hex_value(text[2 * j + 1])->0;
        assert(hex_value(text[2 * j]) is Some);
        assert(hex_value(text[2 * j + 1]) is Some);
        assert(0 <= high < 16 && 0 <= low < 16);
        assert(key[j] == hex_byte_at(text, j));
        assert((high * 16 + low) / 16 == high);
        assert((high * 16 + low) % 16 == low);
        if i % 2 == 0 {
            assert(i == 2 * j);
        } else {
            assert(i == 2 * j + 1);
        }
    }
    assert(hex_encode(key) =~= text.map_values(|c: char| lowercase_hex(c)));
}

} // verus!
