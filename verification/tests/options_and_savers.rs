//! The run options, the signal-text table, and the save steppers.

use hem_archive::cc_text::CcText;
use hem_archive::matrix_handler::MatrixHandler;
use hem_archive::midi_event::MidiEvent;
use hem_archive::options::{Action, Options};
use hem_archive::step_names::NameList;
use hem_archive::step_save::{Saver, SingleSaver};
use hem_archive::stepper::{NilStepper, StepEffect, WorkingStatus};

fn gather_one_preset(handler: &mut MatrixHandler, name: &str, number: u8) {
    handler.on_control_change(0, 15, 109, 54);
    handler.on_control_change(0, 15, 56, 0);
    for b in name.bytes() {
        handler.on_channel_pressure(0, 15, b & 0x7F);
    }
    handler.on_control_change(0, 15, 56, 127);
    handler.on_program_change(0, 15, number);
    handler.on_control_change(0, 15, 109, 55);
}

#[test]
fn save_and_load_need_a_path() {
    let mut o = Options::default();
    assert!(o.validate());
    assert!(o.set_action(Action::Save));
    assert!(!o.validate());
    o.set_path("presets".to_string());
    assert!(o.validate());
    assert_eq!(o.get_path().unwrap(), "presets");
    assert_eq!(o.get_path_display_name().unwrap(), "presets");
    // only one action per run
    assert!(!o.set_action(Action::Load));
    assert_eq!(o.action, Action::Save);
}

#[test]
fn signal_texts_cover_fixed_and_generated_entries() {
    let texts = CcText::new();
    assert_eq!(texts.get(109, 0).unwrap(), "[Reboot device]");
    assert_eq!(texts.get(109, 26).unwrap(), "[---- Begin preset ----]");
    assert_eq!(texts.get(109, 80).unwrap(), "[Download tuning grid 1]");
    assert_eq!(texts.get(109, 116).unwrap(), "[Erase group 2]");
    assert_eq!(texts.get(110, 42).unwrap(), "42%");
    assert_eq!(texts.get(110, 101).unwrap(), "[Save preset 1]");
    assert_eq!(texts.get(110, 121).unwrap(), "[cfRetrieveArch]");
    assert!(texts.get(109, 23).is_none());
    assert!(texts.get(111, 1).is_none());
}

#[test]
fn nil_stepper_finishes_at_once() {
    let mut handler = MatrixHandler::new();
    let options = Options::default();
    let mut nil = NilStepper {};
    let (st, effect) = nil.next(&options, &mut handler);
    assert_eq!(st, WorkingStatus::Finished);
    assert!(matches!(effect, StepEffect::Nothing));
}

#[test]
fn name_list_writes_the_listing() {
    let mut handler = MatrixHandler::new();
    let options = Options::default();
    gather_one_preset(&mut handler, "Solo", 3);
    let mut step = NameList {};
    let (st, effect) = step.next(&options, &mut handler);
    assert_eq!(st, WorkingStatus::Finished);
    match effect {
        StepEffect::WriteListing { text } => assert_eq!(text, "4,\"Solo.mid\"\n"),
        _ => panic!("expected the listing"),
    }
}

#[test]
fn single_saver_names_the_file_after_the_preset() {
    let mut handler = MatrixHandler::new();
    let options = Options::default();
    handler.start_action(Action::SaveCurrent);
    handler.take_outbox();
    gather_one_preset(&mut handler, "Solo", 3);
    // an archived stream arrives
    handler.on_control_change(0, 15, 110, 120);
    handler.on_program_change(5, 0, 2);
    handler.on_control_change(9, 15, 110, 124);

    let mut step = SingleSaver {};
    let (st, effect) = step.next(&options, &mut handler);
    assert_eq!(st, WorkingStatus::Finished);
    match effect {
        StepEffect::WritePreset { filename, data } => {
            assert_eq!(filename, "Solo.mid");
            assert_eq!(&data[0..4], b"MThd");
        }
        _ => panic!("expected a preset file"),
    }
}

#[test]
fn saver_walks_the_slots_and_ends_with_the_listing() {
    let mut handler = MatrixHandler::new();
    let options = Options::default();
    gather_one_preset(&mut handler, "One", 1);

    let mut saver = Saver::new();
    let (st, _) = saver.next(&options, &mut handler);
    assert_eq!(st, WorkingStatus::Working);
    // the gather step takes the list out of the engine
    let (st, _) = saver.next(&options, &mut handler);
    assert_eq!(st, WorkingStatus::Working);
    assert!(handler.get_presets().is_empty());
    // collect: the slot is chosen and a save-current action begins
    let (st, _) = saver.next(&options, &mut handler);
    assert_eq!(st, WorkingStatus::Working);
    let cmds = handler.take_outbox();
    assert!(cmds.contains(&MidiEvent::ProgramChange { channel: 15, program: 1 }));
    // the archive arrives
    handler.on_control_change(0, 15, 110, 120);
    handler.on_program_change(5, 0, 2);
    handler.on_control_change(9, 15, 110, 124);
    // persist it
    let (st, effect) = saver.next(&options, &mut handler);
    assert_eq!(st, WorkingStatus::Working);
    match effect {
        StepEffect::WritePreset { filename, .. } => assert_eq!(filename, "One.mid"),
        _ => panic!("expected a preset file"),
    }
    // and finish with the listing
    let (st, effect) = saver.next(&options, &mut handler);
    assert_eq!(st, WorkingStatus::Finished);
    match effect {
        StepEffect::WriteListing { text } => assert_eq!(text, "2,\"One.mid\"\n"),
        _ => panic!("expected the listing"),
    }
}

#[test]
fn empty_bank_ends_the_saver_early() {
    let mut handler = MatrixHandler::new();
    let options = Options::default();
    let mut saver = Saver::new();
    saver.next(&options, &mut handler);
    let (st, _) = saver.next(&options, &mut handler);
    assert_eq!(st, WorkingStatus::Finished);
}
