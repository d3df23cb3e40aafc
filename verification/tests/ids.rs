use coeus::ids::{check_packet_ids, numeric_id, IdError, PacketIdError};

#[test]
fn packet_id_literals_in_each_radix() {
    assert_eq!(numeric_id("0x0100"), Ok(0x0100));
    assert_eq!(numeric_id("0x01_01"), Ok(0x0101));
    assert_eq!(numeric_id("0o17"), Ok(15));
    assert_eq!(numeric_id("0b1010"), Ok(10));
    assert_eq!(numeric_id("65_535"), Ok(65535));
    assert_eq!(numeric_id("+7"), Ok(7));
    assert_eq!(numeric_id("0xFF"), Ok(255));
}

#[test]
fn packet_id_literals_that_are_no_u16() {
    assert_eq!(numeric_id("65536"), Err(IdError::Overflow));
    assert_eq!(numeric_id("0x10000"), Err(IdError::Overflow));
    assert_eq!(numeric_id("0x"), Err(IdError::Empty));
    assert_eq!(numeric_id("_"), Err(IdError::Empty));
    assert_eq!(numeric_id("+"), Err(IdError::InvalidDigit));
    assert_eq!(numeric_id("-1"), Err(IdError::InvalidDigit));
    assert_eq!(numeric_id("256u16"), Err(IdError::InvalidDigit));
    assert_eq!(numeric_id("0b102"), Err(IdError::InvalidDigit));
    // the first problem from the left decides
    assert_eq!(numeric_id("999999z"), Err(IdError::Overflow));
}

#[test]
fn packet_id_literals_agree_with_from_str_radix() {
    for text in ["0", "1", "255", "4096", "65535", "65536", "99999", "12a", "", "+", "+0"] {
        let std_result = u16::from_str_radix(text, 10).ok();
        assert_eq!(numeric_id(text).ok(), std_result, "literal {text:?}");
    }
}

#[test]
fn duplicate_packet_ids_are_refused() {
    let ids = vec!["0x0100".to_string(), "0x0101".to_string()];
    assert_eq!(check_packet_ids(&ids), Ok(vec![0x0100, 0x0101]));

    let ids = vec!["0x0100".to_string(), "256".to_string()];
    assert_eq!(check_packet_ids(&ids), Err(PacketIdError::Duplicate(1, 256)));

    let ids = vec!["1".to_string(), "x".to_string(), "1".to_string()];
    assert_eq!(
        check_packet_ids(&ids),
        Err(PacketIdError::Invalid(1, IdError::InvalidDigit))
    );
}
