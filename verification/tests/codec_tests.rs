use grite::codec::{decode_hex_exact, parse_actor_id, ActorIdError, HexDecodeError};
use grite::maintenance::{corruption_text, CorruptionKind};

fn to_hex(bytes: &[u8]) -> String {
    bytes.iter().map(|b| format!("{:02x}", b)).collect()
}

#[test]
fn hex_encode_is_lowercase_two_digits_per_byte() {
    let k = CorruptionKind::MissingParent { parent_id: vec![0x00, 0xab, 0xff, 0x10] };
    assert_eq!(corruption_text(&k), "missing parent: 00abff10");
    let k = CorruptionKind::MissingParent { parent_id: vec![] };
    assert_eq!(corruption_text(&k), "missing parent: ");
}

#[test]
fn hex_round_trip() {
    let bytes: Vec<u8> = (0u8..32).map(|b| b.wrapping_mul(37)).collect();
    let text = to_hex(&bytes);
    assert_eq!(decode_hex_exact(&text, 32).unwrap(), bytes);
}

#[test]
fn decode_accepts_both_cases() {
    assert_eq!(decode_hex_exact("ABcd", 2).unwrap(), vec![0xab, 0xcd]);
}

#[test]
fn decode_refuses_odd_length_first() {
    assert_eq!(decode_hex_exact("abc", 2).unwrap_err(), HexDecodeError::OddLength);
    assert_eq!(decode_hex_exact("zzz", 2).unwrap_err(), HexDecodeError::OddLength);
}

#[test]
fn decode_reports_first_bad_character() {
    assert_eq!(
        decode_hex_exact("a0zz", 2).unwrap_err(),
        HexDecodeError::InvalidHexCharacter { c: 'z', index: 2 }
    );
}

#[test]
fn decode_refuses_wrong_length() {
    assert_eq!(decode_hex_exact("abcd", 3).unwrap_err(), HexDecodeError::InvalidStringLength);
}

#[test]
fn hex_error_messages() {
    assert_eq!(HexDecodeError::OddLength.message(), "Odd number of digits");
    assert_eq!(HexDecodeError::InvalidStringLength.message(), "Invalid string length");
    assert_eq!(
        HexDecodeError::InvalidHexCharacter { c: 'z', index: 3 }.message(),
        "Invalid character 'z' at position 3"
    );
    assert_eq!(
        HexDecodeError::InvalidHexCharacter { c: '\n', index: 0 }.message(),
        "Invalid character '\\n' at position 0"
    );
}

#[test]
fn actor_id_parsing() {
    let id = parse_actor_id("000102030405060708090a0b0c0d0e0f").unwrap();
    assert_eq!(id, [0, 1, 2, 3, 4, 5, 6, 7, 8, 9, 10, 11, 12, 13, 14, 15]);
    match parse_actor_id("0001") {
        Err(e) => {
            assert!(matches!(e, ActorIdError::WrongLength));
            assert_eq!(e.message(), "Actor ID must be 16 bytes");
        }
        Ok(_) => panic!("short id accepted"),
    }
    match parse_actor_id("xyz") {
        Err(e) => assert_eq!(e.message(), "Invalid actor ID: Odd number of digits"),
        Ok(_) => panic!("odd id accepted"),
    }
}
