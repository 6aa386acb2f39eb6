//! Device-name matching: edit distance, name normalization, and candidate
//! ranking.

use hem_archive::acquire_device::{
    contains_str, pick_device, rank_name, trim_port_tag, HakenDeviceKind,
};
use hem_archive::util::edit_distance;

#[test]
fn edit_distance_matches_known_values() {
    assert_eq!(edit_distance("", ""), 0);
    assert_eq!(edit_distance("abc", "abc"), 0);
    assert_eq!(edit_distance("abc", ""), 3);
    assert_eq!(edit_distance("", "abc"), 3);
    assert_eq!(edit_distance("kitten", "sitting"), 3);
    assert_eq!(edit_distance("flaw", "lawn"), 2);
}

#[test]
fn port_tags_are_trimmed() {
    assert_eq!(trim_port_tag("Continuum [1]"), "Continuum");
    assert_eq!(trim_port_tag("ContinuuMini"), "ContinuuMini");
    assert_eq!(trim_port_tag("Osmose 2"), "Osmose");
    assert_eq!(trim_port_tag("Thing  "), "Thing");
}

#[test]
fn ranked_names_are_normalized_and_padded() {
    let r = rank_name("Continuum [1]");
    assert_eq!(r.len(), 33);
    assert!(r.starts_with("Continuum"));
    assert!(r.ends_with("~"));
    // leading digits and decoration are dropped, interior spaces collapse
    let r = rank_name("  12 Osmose   Duo 3");
    assert!(r.starts_with("Osmose Duo"));
}

#[test]
fn device_families_are_identified() {
    assert!(matches!(
        HakenDeviceKind::identify("Continuum Fingerboard"),
        HakenDeviceKind::Continuum
    ));
    assert!(matches!(
        HakenDeviceKind::identify("ContinuuMini"),
        HakenDeviceKind::ContinuuMini
    ));
    assert!(matches!(
        HakenDeviceKind::identify("EaganMatrix Module"),
        HakenDeviceKind::EaganMatrixModule
    ));
    assert!(matches!(HakenDeviceKind::identify("Osmose"), HakenDeviceKind::Osmose));
    assert!(matches!(
        HakenDeviceKind::identify("USB Audio"),
        HakenDeviceKind::NotHakenDevice
    ));
    assert!(matches!(HakenDeviceKind::identify("Osmo"), HakenDeviceKind::NotHakenDevice));
}

#[test]
fn contains_finds_substrings() {
    assert!(contains_str("ContinuuMini", "Mini"));
    assert!(!contains_str("Continuum", "Mini"));
    assert!(contains_str("anything", ""));
}

#[test]
fn hint_selects_the_mini() {
    let candidates = vec!["Continuum [1]".to_string(), "ContinuuMini".to_string()];
    assert_eq!(pick_device(&candidates, "Mini"), Some(1));
}

#[test]
fn first_candidate_wins_ties_and_foreign_names_are_skipped() {
    let candidates = vec![
        "USB Audio".to_string(),
        "Continuum [1]".to_string(),
        "Continuum [2]".to_string(),
    ];
    // both rank identically; the first compatible candidate stays
    assert_eq!(pick_device(&candidates, "Continuum"), Some(1));
    let nothing = vec!["USB Audio".to_string()];
    assert_eq!(pick_device(&nothing, "Continuum"), None);
}
