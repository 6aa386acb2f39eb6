//! The variable-length-quantity codec, end to end.

use hem_archive::midi::{VariableLengthValue, VARLEN_MAX};
use hem_archive::ArchiveError;

fn round_trip(value: u32) {
    let mut decoder = VariableLengthValue::new();

    let bytes = VariableLengthValue::encode(value).unwrap();
    assert!(bytes.len() <= 4);

    decoder.start();
    let mut pending = true;
    for byte in bytes.iter() {
        pending = decoder.add_byte(*byte);
    }
    assert!(!pending);
    let result = decoder.finish().unwrap();
    assert_eq!(result, value);
}

#[test]
fn variable_length_value_works() {
    let value = 0u32;
    let bytes = VariableLengthValue::encode(value).unwrap();
    assert_eq!(bytes.len(), 1);
    assert_eq!(bytes.first(), Some(&0u8));
    round_trip(value);

    let value = 0x0000007F;
    let bytes = VariableLengthValue::encode(value).unwrap();
    assert_eq!(bytes.len(), 1);
    assert_eq!(bytes[0], 0x7Fu8);
    round_trip(value);

    let value = 0x00000080;
    let bytes = VariableLengthValue::encode(value).unwrap();
    assert_eq!(bytes.len(), 2);
    assert_eq!(bytes[0], 0x81u8);
    assert_eq!(bytes[1], 0x00u8);
    round_trip(value);

    let value = 0x00004000;
    let bytes = VariableLengthValue::encode(0x00004000).unwrap();
    assert_eq!(bytes.len(), 3);
    round_trip(value);

    let value = VARLEN_MAX;
    let bytes = VariableLengthValue::encode(value).unwrap();
    assert_eq!(bytes.len(), 4);
    assert_eq!(bytes[0], 0xFFu8);
    assert_eq!(bytes[1], 0xFFu8);
    assert_eq!(bytes[2], 0xFFu8);
    assert_eq!(bytes[3], 0x7Fu8);
    round_trip(value);

    round_trip(255);
    round_trip(256);
    round_trip(32767);
    round_trip(32768);
    round_trip(0x00123456);
    round_trip(VARLEN_MAX - 13);
}

#[test]
fn encode_above_range_fails() {
    assert_eq!(
        VariableLengthValue::encode(VARLEN_MAX + 1),
        Err(ArchiveError::OutOfRange)
    );
    assert_eq!(
        VariableLengthValue::encode(u32::MAX),
        Err(ArchiveError::OutOfRange)
    );
    assert_eq!(
        VariableLengthValue::value_in_range(VARLEN_MAX + 1),
        Err(ArchiveError::OutOfRange)
    );
    assert_eq!(VariableLengthValue::value_in_range(7), Ok(7));
}

#[test]
fn finish_while_pending_fails() {
    let mut decoder = VariableLengthValue::new();
    assert_eq!(decoder.finish(), Err(ArchiveError::Incomplete));
    let more = decoder.add_byte(0x81);
    assert!(more);
    assert_eq!(decoder.finish(), Err(ArchiveError::Incomplete));
    let more = decoder.add_byte(0x00);
    assert!(!more);
    assert_eq!(decoder.finish(), Ok(0x80));
    assert!(decoder.is_pending());
}

#[test]
fn lead_byte_classification() {
    assert!(VariableLengthValue::is_lead_byte(0x80));
    assert!(VariableLengthValue::is_lead_byte(0xFF));
    assert!(!VariableLengthValue::is_lead_byte(0x7F));
    assert!(!VariableLengthValue::is_lead_byte(0x00));
}
