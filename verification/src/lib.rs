//! Archiving tool for the preset banks of EaganMatrix-based MIDI instruments.
//!
//! The library contains the device transfer protocol engine and everything it
//! rests on: the variable-length-quantity codec, the Standard-MIDI-File
//! archive writer and reader, the out-of-band stream gatherer, the preset
//! data model with its category-code decoder, the per-action operation
//! steppers, and the fuzzy device-name matcher. Opening MIDI ports, sending
//! and receiving messages, and reading or writing files are left to the
//! embedding program, which drives the state machines in this crate with
//! plain values.

pub mod acquire_device;
pub mod cc_text;
pub mod continuum_preset;
pub mod data_kind;
pub mod gather_state;
pub mod haken_midi;
pub mod matrix_handler;
pub mod midi;
pub mod midi_event;
pub mod midi_file;
pub mod midi_traits;
pub mod options;
pub mod preset_listing;
pub mod read_midi_file;
pub mod step_load;
pub mod step_names;
pub mod step_save;
pub mod stepper;
pub mod thread_control;
pub mod util;

use vstd::prelude::*;

verus! {

/// The errors the library's own operations can report.
///
/// Transport and file-system failures belong to the embedding program and
/// have no variant here.
#[derive(Clone, Copy, Debug, PartialEq, Eq, Structural)]
pub enum ArchiveError {
    /// A value too large for a variable-length quantity.
    OutOfRange,
    /// A value was read while its encoding was still pending.
    Incomplete,
    /// The file signature is missing.
    NotAMidiFile,
    /// The track signature is missing.
    ExpectedTrackChunk,
    /// A status inside an archive that is not a channel voice message.
    UnsupportedStatus,
    /// The data ends in the middle of an event.
    TruncatedTrack,
}

} // verus!
