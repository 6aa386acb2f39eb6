//! The common shape of the per-action state machines: each `next` call
//! either advances the operation one step or declares it finished, and may
//! ask the embedding program for one file-system or transport effect.

use vstd::prelude::*;
use crate::matrix_handler::MatrixHandler;
use crate::options::Options;

verus! {

/// Whether an operation wants more steps.
#[derive(Clone, Copy, Debug, PartialEq, Eq, Structural)]
pub enum WorkingStatus {
    Working,
    Finished,
}

/// What the embedding program must do for the step that just returned.
pub enum StepEffect {
    /// Nothing beyond draining the engine's outbox.
    Nothing,
    /// Write one preset archive to disk under this file name.
    WritePreset { filename: String, data: Vec<u8> },
    /// Write the preset listing file (`UserPresets.txt`) with this text.
    WriteListing { text: String },
    /// Read this `.mid` file and replay its events to the instrument,
    /// paced by their delta times.
    ReplayArchive { filename: String },
}

/// The stepper of the actions that need no steps.
pub struct NilStepper {}

impl NilStepper {
    pub fn next(&mut self, _options: &Options, _handler: &mut MatrixHandler) -> (r: (
        WorkingStatus,
        StepEffect,
    ))
        ensures
            r.0 == WorkingStatus::Finished,
            r.1 is Nothing,
    {
        (WorkingStatus::Finished, StepEffect::Nothing)
    }
}

} // verus!
