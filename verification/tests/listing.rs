//! The listing file: text generation and the stop-at-malformed-line
//! parser.

use hem_archive::continuum_preset::{NofN, PresetBuilder};
use hem_archive::preset_listing::{listing_text, parse_preset_listing};

fn preset(name: &str, number: u8) -> hem_archive::continuum_preset::ContinuumPreset {
    let mut b = PresetBuilder::new();
    b.add_name_chars(name);
    b.set_number(number);
    b.finish().unwrap()
}

#[test]
fn listing_text_is_written_in_reverse_order() {
    let presets = vec![preset("A", 0), preset("B", 1)];
    let text = listing_text(&presets);
    assert_eq!(text, "2,\"B.mid\"\n1,\"A.mid\"\n");
}

#[test]
fn listing_text_of_nothing_is_empty() {
    let presets = Vec::new();
    assert_eq!(listing_text(&presets), "");
}

#[test]
fn parse_reads_numbers_and_quoted_names() {
    let lines = vec!["1,\"A\"".to_string(), " 2 , \"Long Name\" ".to_string()];
    let presets = parse_preset_listing(&lines);
    assert_eq!(presets.len(), 2);
    assert_eq!(presets[0].number, 1);
    assert_eq!(presets[0].name, "A");
    assert_eq!(presets[0].bank_hi, 0);
    assert!(matches!(presets[0].nofn, NofN::Single));
    assert_eq!(presets[1].number, 2);
    assert_eq!(presets[1].name, "Long Name");
}

#[test]
fn parse_stops_silently_at_the_first_malformed_line() {
    let lines = vec![
        "1,\"A\"".to_string(),
        "nonsense".to_string(),
        "2,\"B\"".to_string(),
    ];
    let presets = parse_preset_listing(&lines);
    assert_eq!(presets.len(), 1);
    assert_eq!(presets[0].name, "A");

    // a number that does not fit a byte stops the parse too
    let lines = vec!["300,\"A\"".to_string()];
    assert!(parse_preset_listing(&lines).is_empty());

    // an empty name is malformed
    let lines = vec!["1,\"\"".to_string()];
    assert!(parse_preset_listing(&lines).is_empty());

    // a missing comma is malformed
    let lines = vec!["1 \"A\"".to_string()];
    assert!(parse_preset_listing(&lines).is_empty());
}

#[test]
fn parse_takes_the_piece_between_the_first_two_commas() {
    let lines = vec!["3,\"A\",leftover".to_string()];
    let presets = parse_preset_listing(&lines);
    assert_eq!(presets.len(), 1);
    assert_eq!(presets[0].number, 3);
    assert_eq!(presets[0].name, "A");
}
