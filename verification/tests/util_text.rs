//! The small helpers: bits, bytes, hex text, and hashing.

use hem_archive::util::{
    count_leading, get_u16, get_u32, hi_nybble, hi_word, is_bit1, is_bit8, lo_nybble, lo_word,
    make_hex_string, maybe_char, on_off, preserve_replace, short_hash, u16_from_midi_bytes,
    xor_fold_u64, yes_no,
};

#[test]
fn hex_text_groups_four_bytes() {
    assert_eq!(make_hex_string(&[]), "");
    assert_eq!(make_hex_string(&[0x0F, 0xA0]), "0FA0");
    assert_eq!(make_hex_string(&[1, 2, 3, 4, 5]), "01020304 05");
}

#[test]
fn printable_bytes_show_their_character() {
    assert_eq!(maybe_char(b'A'), " #41 A");
    assert_eq!(maybe_char(0x07), " #07");
    assert_eq!(maybe_char(0x7F), " #7F");
}

#[test]
fn words_and_nybbles() {
    assert_eq!(hi_nybble(0xAB), 0xA0);
    assert_eq!(lo_nybble(0xAB), 0x0B);
    assert_eq!(hi_word(0x1234_5678_9ABC_DEF0), 0x1234_5678);
    assert_eq!(lo_word(0x1234_5678_9ABC_DEF0), 0x9ABC_DEF0);
    assert_eq!(xor_fold_u64(0x1234_5678_9ABC_DEF0), 0x1234_5678 ^ 0x9ABC_DEF0);
    assert!(is_bit1(0x01));
    assert!(!is_bit1(0x02));
    assert!(is_bit8(0x80));
    assert!(!is_bit8(0x7F));
}

#[test]
fn big_endian_reads() {
    assert_eq!(get_u16(&[0x12, 0x34]), 0x1234);
    assert_eq!(get_u32(&[0x12, 0x34, 0x56, 0x78]), 0x1234_5678);
    assert_eq!(u16_from_midi_bytes(0x05, 0x01), 0x85);
}

#[test]
fn leading_characters_are_counted() {
    assert_eq!(count_leading('-', "--x-"), 2);
    assert_eq!(count_leading('-', "x"), 0);
    assert_eq!(count_leading('-', ""), 0);
    assert_eq!(count_leading('-', "---"), 3);
}

#[test]
fn flags_have_fixed_texts() {
    assert_eq!(on_off(true), "on");
    assert_eq!(on_off(false), "off");
    assert_eq!(yes_no(true), "yes");
    assert_eq!(yes_no(false), "no");
    assert_eq!(preserve_replace(true), "Preserve");
    assert_eq!(preserve_replace(false), "Replace");
}

#[test]
fn short_hash_is_stable_within_a_run() {
    let a = short_hash(&[1, 2, 3]);
    let b = short_hash(&[1, 2, 3]);
    let c = short_hash(&[1, 2, 4]);
    assert_eq!(a, b);
    assert_ne!(a, c);
}
