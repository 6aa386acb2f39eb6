//! The protocol engine driven by inbound events: gathering names, binary
//! streams, archive capture, and the bank-clear sequence.

use hem_archive::data_kind::DataKind;
use hem_archive::matrix_handler::{ArchiveState, MatrixHandler};
use hem_archive::midi_event::MidiEvent;
use hem_archive::options::Action;

fn feed_name(handler: &mut MatrixHandler, name: &str, program: u8) {
    // begin name stream, one byte per character, end of stream
    handler.on_control_change(0, 15, 56, 0);
    for b in name.bytes() {
        handler.on_channel_pressure(0, 15, b & 0x7F);
    }
    handler.on_control_change(0, 15, 56, 127);
    handler.on_program_change(0, 15, program);
}

#[test]
fn name_listing_gathers_presets() {
    let mut handler = MatrixHandler::new();
    handler.start_action(Action::ListNames);
    let opening = handler.take_outbox();
    // the prologue quiets 13 channels with 3 messages each, then announces
    // the editor; the list action adds its three commands
    assert_eq!(opening.len(), 13 * 3 + 1 + 3);

    handler.on_control_change(0, 15, 109, 54);
    assert!(handler.in_preset_names);

    handler.on_control_change(0, 15, 0, 0);
    handler.on_control_change(0, 15, 32, 1);
    feed_name(&mut handler, "Foo", 4);

    // an empty slot announces itself with the sentinel name and is skipped
    feed_name(&mut handler, "-", 5);

    handler.on_control_change(0, 15, 109, 55);
    assert!(!handler.in_preset_names);
    assert!(handler.is_ready());

    let presets = handler.get_presets();
    assert_eq!(presets.len(), 1);
    assert_eq!(presets[0].name, "Foo");
    assert_eq!(presets[0].number, 4);
    assert_eq!(presets[0].bank_lo, 1);
}

#[test]
fn multiplicity_signals_mark_combinations() {
    let mut handler = MatrixHandler::new();
    handler.on_control_change(0, 15, 56, 0);
    handler.on_channel_pressure(0, 15, b'C');
    handler.on_control_change(0, 15, 56, 127);
    handler.on_control_change(0, 15, 109, 105);
    let p = handler.on_program_change(0, 15, 1).unwrap();
    assert!(matches!(p.nofn, hem_archive::continuum_preset::NofN::Double));

    handler.on_control_change(0, 15, 56, 0);
    handler.on_channel_pressure(0, 15, b'D');
    handler.on_control_change(0, 15, 56, 127);
    handler.on_control_change(0, 15, 109, 106);
    handler.on_control_change(0, 15, 109, 104);
    let p = handler.on_program_change(0, 15, 2).unwrap();
    assert!(matches!(p.nofn, hem_archive::continuum_preset::NofN::Single));
}

#[test]
fn completed_preset_outside_listing_is_returned() {
    let mut handler = MatrixHandler::new();
    handler.on_control_change(0, 15, 56, 0);
    handler.on_channel_pressure(0, 15, b'A');
    handler.on_control_change(0, 15, 56, 127);
    let completed = handler.on_program_change(0, 15, 9);
    let p = completed.unwrap();
    assert_eq!(p.name, "A");
    assert_eq!(p.number, 9);
    assert_eq!(handler.get_presets().len(), 0);
}

#[test]
fn binary_stream_is_gathered_and_flushed() {
    let mut handler = MatrixHandler::new();
    // kind 2 selects a binary stream
    let none = handler.on_control_change(0, 15, 56, 2);
    assert!(none.is_none());
    handler.on_channel_pressure(0, 15, 0x01);
    handler.on_channel_pressure(0, 15, 0x01);
    let flushed = handler.on_control_change(0, 15, 56, 127);
    let (kind, bytes) = flushed.unwrap();
    assert_eq!(kind, DataKind::Graph);
    // the two completed values, then the zero-padded pending decode
    assert_eq!(bytes, vec![0, 0, 0, 1, 0, 0, 0, 1, 0, 0, 0, 0]);
}

#[test]
fn text_and_category_streams_fill_the_builder() {
    let mut handler = MatrixHandler::new();
    handler.on_control_change(0, 15, 56, 1);
    handler.on_channel_pressure(0, 15, b'h');
    handler.on_channel_pressure(0, 15, b'i');
    handler.on_control_change(0, 15, 56, 8);
    handler.on_channel_pressure(0, 15, b'x');
    handler.on_control_change(0, 15, 56, 0);
    handler.on_channel_pressure(0, 15, b'N');
    let p = handler.on_program_change(0, 15, 1).unwrap();
    assert_eq!(p.text, "hi");
    assert_eq!(p.category, "x");
    assert_eq!(p.name, "N");
}

#[test]
fn archive_capture_round_trips() {
    let mut handler = MatrixHandler::new();
    handler.start_action(Action::SaveCurrent);
    handler.take_outbox();

    // begin archive
    handler.on_control_change(0, 15, 110, 120);
    assert!(handler.in_archive);
    // the captured voice messages
    handler.on_control_change(10, 0, 7, 100);
    handler.on_program_change(20, 0, 3);
    handler.on_channel_pressure(30, 0, 64);
    // end archive (captured itself, then ends the transfer)
    handler.on_control_change(40, 15, 110, 124);
    assert!(!handler.in_archive);
    assert!(handler.is_ready());

    let data = handler.get_archive_data();
    let mut reader = hem_archive::read_midi_file::ReadMidiFile::new(&data);
    let mut seen = Vec::new();
    while let Some((_ms, ev)) = reader.next().unwrap() {
        seen.push(ev);
    }
    assert_eq!(
        seen,
        vec![
            MidiEvent::ControlChange { channel: 0, cc: 7, value: 100 },
            MidiEvent::ProgramChange { channel: 0, program: 3 },
            MidiEvent::ChannelPressure { channel: 0, pressure: 64 },
            MidiEvent::ControlChange { channel: 15, cc: 110, value: 124 },
        ]
    );
}

#[test]
fn archive_acknowledgement_reaches_the_state() {
    let mut handler = MatrixHandler::new();
    handler.start_action(Action::Load);
    handler.take_outbox();
    assert_eq!(handler.archive_state(), ArchiveState::Unknown);
    handler.on_control_change(0, 15, 109, 5);
    assert_eq!(handler.archive_state(), ArchiveState::Success);
    assert!(handler.is_ready());
    handler.clear_archive_state();
    handler.unready();
    handler.on_control_change(0, 15, 109, 6);
    assert_eq!(handler.archive_state(), ArchiveState::Failure);
    assert!(handler.is_ready());
}

#[test]
fn clear_walks_the_banks() {
    let mut handler = MatrixHandler::new();
    handler.start_action(Action::Clear);
    let opening = handler.take_outbox();
    // the last opening command erases bank zero
    assert_eq!(
        *opening.last().unwrap(),
        MidiEvent::ControlChange { channel: 15, cc: 109, value: 115 }
    );

    // each acknowledgement erases the next bank
    for bank in 1..8u8 {
        handler.on_control_change(0, 15, 109, 26);
        let cmds = handler.take_outbox();
        assert_eq!(
            cmds,
            vec![MidiEvent::ControlChange { channel: 15, cc: 109, value: 115 + bank }]
        );
        assert!(!handler.is_ready());
    }
    // the final acknowledgement ends the operation
    handler.on_control_change(0, 15, 109, 26);
    assert!(handler.take_outbox().is_empty());
    assert!(handler.is_ready());
}

#[test]
fn send_string_frames_the_text() {
    let mut handler = MatrixHandler::new();
    handler.send_string(0, "Ab");
    let cmds = handler.take_outbox();
    assert_eq!(
        cmds,
        vec![
            MidiEvent::ControlChange { channel: 15, cc: 56, value: 0 },
            MidiEvent::ChannelPressure { channel: 15, pressure: b'A' },
            MidiEvent::ChannelPressure { channel: 15, pressure: b'b' },
            MidiEvent::ControlChange { channel: 15, cc: 56, value: 127 },
        ]
    );
}

#[test]
fn heartbeat_alternates() {
    let mut handler = MatrixHandler::new();
    handler.editor_present();
    handler.editor_present();
    let cmds = handler.take_outbox();
    assert_eq!(
        cmds,
        vec![
            MidiEvent::ControlChange { channel: 15, cc: 116, value: 85 },
            MidiEvent::ControlChange { channel: 15, cc: 116, value: 42 },
        ]
    );
}
