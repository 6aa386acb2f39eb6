//! The archive writer and reader, together: round trips, running status,
//! and the reader's rejection of anything that is not a preset archive.

use hem_archive::midi::BinBuild;
use hem_archive::midi_event::MidiEvent;
use hem_archive::midi_file::MidiFile;
use hem_archive::read_midi_file::ReadMidiFile;
use hem_archive::ArchiveError;

#[test]
fn archive_round_trip_keeps_events() {
    let mut writer = MidiFile::new();
    let events = vec![
        (0i64, MidiEvent::ControlChange { channel: 15, cc: 0, value: 126 }),
        (0i64, MidiEvent::ControlChange { channel: 15, cc: 32, value: 0 }),
        (10i64, MidiEvent::ChannelPressure { channel: 15, pressure: 65 }),
        (20i64, MidiEvent::ChannelPressure { channel: 15, pressure: 66 }),
        (500i64, MidiEvent::ProgramChange { channel: 15, program: 3 }),
        (1000i64, MidiEvent::NoteOn { channel: 0, note: 60, velocity: 100 }),
        (2000i64, MidiEvent::NoteOff { channel: 0, note: 60, velocity: 0 }),
        (2000i64, MidiEvent::PolyphonicKeyPressure { channel: 1, note: 61, pressure: 7 }),
        (3000i64, MidiEvent::PitchBendChange { channel: 2, bend: 8192 }),
    ];
    for (tick, ev) in events.iter() {
        writer.add_event(*tick, *ev);
    }
    let data = writer.finish();

    let mut reader = ReadMidiFile::new(&data);
    let mut seen: Vec<MidiEvent> = Vec::new();
    while let Some((_ms, ev)) = reader.next().unwrap() {
        seen.push(ev);
    }
    let expected: Vec<MidiEvent> = events.iter().map(|p| p.1).collect();
    assert_eq!(seen, expected);
}

#[test]
fn running_status_not_repeated() {
    let mut writer = MidiFile::new();
    // two channel-pressure messages on the same channel share one status byte
    writer.add_event(0, MidiEvent::ChannelPressure { channel: 15, pressure: 65 });
    writer.add_event(0, MidiEvent::ChannelPressure { channel: 15, pressure: 66 });
    let data = writer.finish();
    let status = 0xDFu8;
    let count = data.iter().filter(|b| **b == status).count();
    assert_eq!(count, 1);

    // a status change is emitted again
    let mut writer = MidiFile::new();
    writer.add_event(0, MidiEvent::ChannelPressure { channel: 15, pressure: 65 });
    writer.add_event(0, MidiEvent::ProgramChange { channel: 15, program: 1 });
    writer.add_event(0, MidiEvent::ChannelPressure { channel: 15, pressure: 66 });
    let data = writer.finish();
    let count = data.iter().filter(|b| **b == status).count();
    assert_eq!(count, 2);
}

#[test]
fn finish_emits_headers_and_end_of_track() {
    let mut writer = MidiFile::new();
    writer.add_event(0, MidiEvent::ProgramChange { channel: 15, program: 1 });
    let data = writer.finish();
    // file header: MThd, length 6, format 0, one track, 96 ticks per beat
    assert_eq!(&data[0..4], b"MThd");
    assert_eq!(&data[4..8], &[0, 0, 0, 6]);
    assert_eq!(&data[8..14], &[0, 0, 0, 1, 0, 96]);
    // track header with the accumulated length: delta 0, status, program
    assert_eq!(&data[14..18], b"MTrk");
    assert_eq!(&data[18..22], &[0, 0, 0, 3]);
    assert_eq!(&data[22..25], &[0x00, 0xCF, 0x01]);
    // end of track
    assert_eq!(&data[25..29], &[0x00, 0xFF, 0x2F, 0x00]);
    assert_eq!(data.len(), 29);
}

#[test]
fn writer_clears_after_finish() {
    let mut writer = MidiFile::new();
    writer.add_event(0, MidiEvent::ProgramChange { channel: 15, program: 1 });
    let first = writer.finish();
    let empty = writer.finish();
    assert_eq!(first.len(), 29);
    // an empty writer yields headers and end-of-track alone
    assert_eq!(empty.len(), 26);
}

#[test]
fn reader_rejects_short_and_foreign_data() {
    let mut r = ReadMidiFile::new(&[1, 2, 3]);
    assert_eq!(r.next(), Err(ArchiveError::NotAMidiFile));

    let not_midi = vec![0u8; 30];
    let mut r = ReadMidiFile::new(&not_midi);
    assert_eq!(r.next(), Err(ArchiveError::NotAMidiFile));

    // a correct file signature but no track chunk
    let mut data = vec![0u8; 30];
    data[0] = b'M';
    data[1] = b'T';
    data[2] = b'h';
    data[3] = b'd';
    let mut r = ReadMidiFile::new(&data);
    assert_eq!(r.next(), Err(ArchiveError::ExpectedTrackChunk));
}

#[test]
fn reader_rejects_unsupported_status() {
    // a track whose single event is a system-exclusive status
    let mut writer = MidiFile::new();
    writer.add_message_one(0, 0xF0, 0x7D);
    let data = writer.finish();
    let mut r = ReadMidiFile::new(&data);
    assert_eq!(r.next(), Err(ArchiveError::UnsupportedStatus));
}

#[test]
fn reader_stops_at_declared_length() {
    let mut writer = MidiFile::new();
    writer.add_event(0, MidiEvent::ProgramChange { channel: 15, program: 9 });
    let data = writer.finish();
    let mut r = ReadMidiFile::new(&data);
    assert!(r.next().unwrap().is_some());
    assert_eq!(r.next(), Ok(None));
    assert_eq!(r.next(), Ok(None));
}

#[test]
fn reader_reports_truncation() {
    // a track that claims ten bytes but ends in the middle of an event
    let mut data = Vec::new();
    data.extend_from_slice(b"MThd");
    data.extend_from_slice(&[0, 0, 0, 6, 0, 0, 0, 1, 0, 96]);
    data.extend_from_slice(b"MTrk");
    data.extend_from_slice(&[0, 0, 0, 10]);
    data.extend_from_slice(&[0x00, 0xC5]);
    let mut r = ReadMidiFile::new(&data);
    assert_eq!(r.next(), Err(ArchiveError::TruncatedTrack));
}

#[test]
fn gatherer_decodes_packed_values() {
    let mut b = BinBuild::new();
    // a fresh gatherer starts in binary mode
    b.add(0x81);
    b.add(0x00);
    let out = b.flush();
    // the completed value, then the zero-padded pending decode
    assert_eq!(out, vec![0, 0, 0, 0x80, 0, 0, 0, 0]);

    // encoded mode keeps bytes verbatim
    let mut b = BinBuild::new();
    b.start(true);
    b.add(0x41);
    b.add(0x42);
    assert_eq!(b.flush(), vec![0x41, 0x42]);

    // leaving encoded mode flushes the idle decoder
    let mut b = BinBuild::new();
    b.start(true);
    b.add(0x41);
    b.set_encoded(false).unwrap();
    assert_eq!(b.flush(), vec![0x41, 0, 0, 0, 0, 0, 0, 0, 0]);
}

#[test]
fn delta_times_round_to_milliseconds() {
    let mut writer = MidiFile::new();
    writer.add_event(10, MidiEvent::ProgramChange { channel: 15, program: 1 });
    // 5210 ms later: the gap is an exact 1000 ticks of 125/24 ms
    writer.add_event(10 + 5208, MidiEvent::ProgramChange { channel: 15, program: 2 });
    let data = writer.finish();
    let mut r = ReadMidiFile::new(&data);
    let (ms0, _) = r.next().unwrap().unwrap();
    assert_eq!(ms0, 0);
    let (ms1, _) = r.next().unwrap().unwrap();
    // 5208 ms make 999 whole ticks, which read back as 5203 ms
    assert_eq!(ms1, 999 * 125 / 24);
}
