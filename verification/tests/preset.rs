//! The preset builder, the anonymized file names, and the category
//! decoder.

use hem_archive::continuum_preset::{
    category_list, is_empty_preset_name, make_preset_filename, HCCategoryCode, NofN,
    PresetBuilder, PresetGroup,
};
use hem_archive::midi_traits::Described;

#[test]
fn finish_before_set_number_returns_nothing_and_resets() {
    let mut b = PresetBuilder::new();
    b.name_add('A');
    b.set_bank_hi(1);
    b.set_bank_lo(2);
    assert!(b.finish().is_none());
    // the partial state is gone: a number alone is still not enough
    b.set_number(3);
    assert!(b.finish().is_none());
}

#[test]
fn finish_with_empty_name_returns_nothing() {
    let mut b = PresetBuilder::new();
    b.set_number(5);
    assert!(b.finish().is_none());
}

#[test]
fn finish_returns_the_gathered_preset() {
    let mut b = PresetBuilder::new();
    b.add_name_chars("Flute");
    b.text_add('h');
    b.text_add('i');
    b.category_add('x');
    b.set_bank_hi(0);
    b.set_bank_lo(1);
    b.set_number(7);
    b.set_nofn(NofN::Double);
    let p = b.finish().unwrap();
    assert_eq!(p.name, "Flute");
    assert_eq!(p.text, "hi");
    assert_eq!(p.category, "x");
    assert_eq!(p.bank_hi, 0);
    assert_eq!(p.bank_lo, 1);
    assert_eq!(p.number, 7);
    assert!(matches!(p.nofn, NofN::Double));
    // and the builder is reset
    b.set_number(1);
    assert!(b.finish().is_none());
}

#[test]
fn empty_names_route_through_the_anonymized_path() {
    assert!(is_empty_preset_name("Empty"));
    assert!(is_empty_preset_name("Empty.2"));
    assert!(is_empty_preset_name("Empty.anything"));
    assert!(!is_empty_preset_name("EmptyX"));
    assert!(!is_empty_preset_name("Empt"));
    assert!(!is_empty_preset_name(""));
    assert!(!is_empty_preset_name("Flute"));

    let data = [1u8, 2, 3, 4];
    let anon = make_preset_filename("Empty", &data);
    assert!(anon.starts_with("anon-"));
    assert!(anon.ends_with(".mid"));
    assert_eq!(anon.len(), "anon-".len() + 8 + ".mid".len());
    let anon2 = make_preset_filename("Empty.2", &data);
    assert_eq!(anon, anon2);

    assert_eq!(make_preset_filename("Flute", &data), "Flute.mid");
}

#[test]
fn category_list_extracts_coded_pieces() {
    assert_eq!(category_list("xC=ST_BR"), vec!["ST", "BR"]);
    assert_eq!(category_list("a b"), Vec::<String>::new());
    assert_eq!(category_list("kC=AC extra nC=BR"), vec!["AC", "BR"]);
    // a trailing underscore yields an empty piece
    assert_eq!(category_list("xC=ST_"), vec!["ST", ""]);
}

#[test]
fn category_decode_groups_codes() {
    let cats = HCCategoryCode::new();
    let decoded = cats.decode("xC=ST_BR").unwrap();
    assert!(decoded.contains("category:\"Strings\""));
    assert!(decoded.contains("type:[\"Brass\""));
    assert_eq!(decoded, "{category:\"Strings\", type:[\"Brass\"]}");
}

#[test]
fn category_decode_emits_each_group_once() {
    let cats = HCCategoryCode::new();
    // codes repeat across sections; the group labels appear once each
    let decoded = cats.decode("aC=ST bC=BR cC=SU").unwrap();
    assert_eq!(decoded.matches("category:").count(), 1);
    assert_eq!(decoded.matches("type:[").count(), 1);
    assert_eq!(decoded, "{category:\"Strings\", type:[\"Brass\", \"Struck\"]}");
}

#[test]
fn category_decode_skips_unknown_codes_and_short_input() {
    let cats = HCCategoryCode::new();
    assert!(cats.decode("xC=").is_none());
    assert!(cats.decode("ab").is_none());
    assert_eq!(cats.decode("xC=ZZ").unwrap(), "{]}");
}

#[test]
fn category_table_lookups() {
    let cats = HCCategoryCode::new();
    let strings = cats.get_by_category_code("ST").unwrap();
    assert_eq!(strings.name, "Strings");
    assert!(matches!(strings.group, PresetGroup::Category));
    let winds = cats.get_by_category_name("Winds").unwrap();
    assert_eq!(winds.code, "WI");
    // a type code is not a category
    assert!(cats.get_by_category_code("BR").is_none());
    assert!(cats.get_by_category_name("Nothing").is_none());
}

#[test]
fn describe_lays_out_the_preset_line() {
    let mut b = PresetBuilder::new();
    b.add_name_chars("Flute");
    b.set_bank_lo(1);
    b.set_number(7);
    b.set_nofn(NofN::Double);
    let p = b.finish().unwrap();
    assert_eq!(p.describe(), "Preset: [0-1-7 User preset 135 \"Flute\" first of 2 ");
}
