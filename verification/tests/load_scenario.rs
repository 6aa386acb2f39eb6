//! The load operation end to end: a two-preset listing drives the load
//! stepper against the engine, higher slot first, with the instrument's
//! acknowledgements simulated.

use hem_archive::matrix_handler::MatrixHandler;
use hem_archive::midi_event::MidiEvent;
use hem_archive::options::Action;
use hem_archive::preset_listing::parse_preset_listing;
use hem_archive::step_load::PresetLoader;
use hem_archive::stepper::{StepEffect, WorkingStatus};

fn has_name_frame(cmds: &[MidiEvent]) -> bool {
    cmds.iter().any(|c| matches!(c, MidiEvent::ControlChange { channel: 15, cc: 56, value: 0 }))
}

#[test]
fn two_preset_listing_loads_in_reverse_order() {
    let lines = vec!["1,\"A\"".to_string(), "2,\"B\"".to_string()];
    let presets = parse_preset_listing(&lines);
    assert_eq!(presets.len(), 2);

    let mut handler = MatrixHandler::new();
    handler.start_action(Action::Load);
    handler.take_outbox();
    let mut loader = PresetLoader::new(presets);

    // the higher-indexed preset (slot 2, "B") is processed first
    let (st, _) = loader.next(&mut handler);
    assert_eq!(st, WorkingStatus::Working);
    let cmds = handler.take_outbox();
    assert!(cmds.contains(&MidiEvent::ProgramChange { channel: 15, program: 2 }));

    // the idle tick satisfies the prologue wait
    handler.on_idle();
    loader.next(&mut handler);
    let cmds = handler.take_outbox();
    assert_eq!(
        *cmds.last().unwrap(),
        MidiEvent::ControlChange { channel: 15, cc: 110, value: 121 }
    );

    // the stepper asks for the full replay of B's archive
    let (_, effect) = loader.next(&mut handler);
    match effect {
        StepEffect::ReplayArchive { filename } => assert_eq!(filename, "B.mid"),
        _ => panic!("expected a replay request"),
    }

    // without an archive verdict the name is not sent
    loader.next(&mut handler);
    assert!(!has_name_frame(&handler.take_outbox()));

    // the instrument acknowledges the archive; only now the name goes out
    handler.on_control_change(0, 15, 109, 5);
    loader.next(&mut handler);
    loader.next(&mut handler);
    let cmds = handler.take_outbox();
    assert!(has_name_frame(&cmds));
    assert!(cmds.contains(&MidiEvent::ChannelPressure { channel: 15, pressure: b'B' }));
    // the commit goes to slot 2
    assert!(cmds.contains(&MidiEvent::ProgramChange { channel: 14, program: 2 }));

    // save to flash
    loader.next(&mut handler);
    let cmds = handler.take_outbox();
    assert!(cmds.contains(&MidiEvent::ControlChange { channel: 15, cc: 109, value: 8 }));

    // after the acknowledgement the stepper moves to the next lower slot
    handler.on_idle();
    let (st, _) = loader.next(&mut handler);
    assert_eq!(st, WorkingStatus::Working);

    // preset "A" in slot 1 follows
    loader.next(&mut handler);
    let cmds = handler.take_outbox();
    assert!(cmds.contains(&MidiEvent::ProgramChange { channel: 15, program: 1 }));
    handler.on_idle();
    loader.next(&mut handler);
    handler.take_outbox();
    let (_, effect) = loader.next(&mut handler);
    match effect {
        StepEffect::ReplayArchive { filename } => assert_eq!(filename, "A.mid"),
        _ => panic!("expected a replay request"),
    }
    handler.on_control_change(0, 15, 109, 5);
    loader.next(&mut handler);
    loader.next(&mut handler);
    loader.next(&mut handler);
    handler.take_outbox();

    // the operation finishes only once the final save is acknowledged
    let (st, _) = loader.next(&mut handler);
    assert_eq!(st, WorkingStatus::Working);
    handler.on_idle();
    let (st, _) = loader.next(&mut handler);
    assert_eq!(st, WorkingStatus::Finished);
}

#[test]
fn refused_archive_abandons_the_preset() {
    let lines = vec!["1,\"A\"".to_string()];
    let presets = parse_preset_listing(&lines);
    let mut handler = MatrixHandler::new();
    handler.start_action(Action::Load);
    handler.take_outbox();
    let mut loader = PresetLoader::new(presets);

    loader.next(&mut handler);
    handler.on_idle();
    loader.next(&mut handler);
    loader.next(&mut handler);
    handler.take_outbox();

    // the instrument refuses the archive
    handler.on_control_change(0, 15, 109, 6);
    loader.next(&mut handler);
    // no name frame goes out for the abandoned preset
    assert!(!has_name_frame(&handler.take_outbox()));
    // the phase skips straight to the end of this preset
    handler.on_idle();
    let (st, _) = loader.next(&mut handler);
    assert_eq!(st, WorkingStatus::Finished);
}
