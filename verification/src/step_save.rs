//! The save operations: one step for the current editing slot, and the
//! slot-by-slot state machine that saves every user preset and then the
//! listing file.

use vstd::prelude::*;
use crate::continuum_preset::{make_preset_filename, preset_filename_spec, ContinuumPreset};
use crate::matrix_handler::{start_cmds, start_tick_tock, MatrixHandler, cc_cmd, pc_cmd};
use crate::midi::CHANNEL16;
use crate::midi_file::{file_bytes, MidiFileView};
use crate::options::{Action, Options};
use crate::preset_listing::{listing_text, listing_text_spec};
use crate::stepper::{StepEffect, WorkingStatus};

verus! {

/// Takes the finished archive out of the engine and names the file it
/// belongs in.
pub fn save_preset(handler: &mut MatrixHandler, name: &str) -> (effect: StepEffect)
    requires
        old(handler).midi_file@.bytes.len() <= u32::MAX,
    ensures
        effect matches StepEffect::WritePreset { filename, data } && filename@
            == preset_filename_spec(name@, file_bytes(old(handler).midi_file@.bytes)) && data@
            == file_bytes(old(handler).midi_file@.bytes),
        final(handler).midi_file@ == (MidiFileView {
            bytes: Seq::<u8>::empty(),
            running: 0,
            last_tick: 0,
        }),
        *final(handler) == (MatrixHandler { midi_file: final(handler).midi_file, ..*old(handler) }),
{
    let data = handler.get_archive_data();
    let filename = make_preset_filename(name, data.as_slice());
    StepEffect::WritePreset { filename, data }
}

/// The stepper of the save-current-slot action.
pub struct SingleSaver {}

impl SingleSaver {
    /// One step: write the first gathered preset's archive to disk under
    /// its derived file name, then finish.
    pub fn next(&mut self, _options: &Options, handler: &mut MatrixHandler) -> (r: (
        WorkingStatus,
        StepEffect,
    ))
        requires
            old(handler).midi_file@.bytes.len() <= u32::MAX,
        ensures
            r.0 == WorkingStatus::Finished,
            old(handler).presets@.len() == 0 ==> r.1 is Nothing && *final(handler) == *old(
                handler,
            ),
            old(handler).presets@.len() > 0 ==> {
                &&& r.1 matches StepEffect::WritePreset { filename, data } && filename@
                    == preset_filename_spec(
                    old(handler).presets@[0].name@,
                    file_bytes(old(handler).midi_file@.bytes),
                ) && data@ == file_bytes(old(handler).midi_file@.bytes)
                &&& final(handler).midi_file@ == (MidiFileView {
                    bytes: Seq::<u8>::empty(),
                    running: 0,
                    last_tick: 0,
                })
                &&& *final(handler) == (MatrixHandler {
                    midi_file: final(handler).midi_file,
                    ..*old(handler)
                })
            },
    {
        if handler.get_presets().len() == 0 {
            return (WorkingStatus::Finished, StepEffect::Nothing);
        }
        let data = handler.get_archive_data();
        let filename = make_preset_filename(handler.presets[0].name.as_str(), data.as_slice());
        (WorkingStatus::Finished, StepEffect::WritePreset { filename, data })
    }
}

/// The phases of the save-all operation.
#[derive(Clone, Copy, Debug, PartialEq, Eq, Structural)]
pub enum SaveState {
    Start,
    GatherList,
    CollectPreset,
    SavePreset,
    Finish,
}

/// The stepper of the save-all action: gathers the preset list, then
/// collects and persists each preset slot by slot, and finally writes the
/// listing file.
pub struct Saver {
    pub save_state: SaveState,
    pub working_preset: u8,
    pub presets: Vec<ContinuumPreset>,
}

impl Saver {
    pub fn new() -> (r: Self)
        ensures
            r.save_state == SaveState::Start,
            r.working_preset == u8::MAX,
            r.presets@ == Seq::<ContinuumPreset>::empty(),
    {
        Saver { save_state: SaveState::Start, working_preset: u8::MAX, presets: Vec::new() }
    }

    /// One step of the save-all state machine.
    pub fn next(&mut self, _options: &Options, handler: &mut MatrixHandler) -> (r: (
        WorkingStatus,
        StepEffect,
    ))
        requires
            old(self).save_state == SaveState::CollectPreset || old(self).save_state
                == SaveState::SavePreset ==> (old(self).working_preset as int) < old(
                self,
            ).presets@.len() && old(self).presets@.len() <= u8::MAX,
            old(self).save_state == SaveState::CollectPreset ==> old(self).presets@[old(
                self,
            ).working_preset as int].number < 128,
            old(self).save_state == SaveState::GatherList ==> old(handler).presets@.len()
                <= u8::MAX && (forall|k: int|
                0 <= k < old(handler).presets@.len() ==> (#[trigger] old(
                    handler,
                ).presets@[k]).number < 128),
            old(self).save_state == SaveState::SavePreset ==> old(
                handler,
            ).midi_file@.bytes.len() <= u32::MAX,
        ensures
            old(self).save_state == SaveState::Start ==> r.0 == WorkingStatus::Working && r.1
                is Nothing && *final(self) == (Saver {
                save_state: SaveState::GatherList,
                working_preset: 0,
                ..*old(self)
            }) && *final(handler) == *old(handler),
            old(self).save_state == SaveState::GatherList ==> {
                &&& final(self).presets@ == old(handler).presets@
                &&& *final(self) == (Saver {
                    save_state: SaveState::CollectPreset,
                    presets: final(self).presets,
                    ..*old(self)
                })
                &&& final(handler).presets@ == Seq::<ContinuumPreset>::empty()
                &&& *final(handler) == (MatrixHandler {
                    presets: final(handler).presets,
                    ..*old(handler)
                })
                &&& r.0 == (if old(handler).presets@.len() == 0 {
                    WorkingStatus::Finished
                } else {
                    WorkingStatus::Working
                })
                &&& r.1 is Nothing
            },
            old(self).save_state == SaveState::CollectPreset ==> {
                &&& r.0 == WorkingStatus::Working
                &&& r.1 is Nothing
                &&& *final(self) == (Saver { save_state: SaveState::SavePreset, ..*old(self) })
                &&& final(handler).outbox@ == old(handler).outbox@ + seq![
                    cc_cmd(CHANNEL16, 0, 0),
                    cc_cmd(CHANNEL16, 32, 0),
                    pc_cmd(
                        CHANNEL16,
                        old(self).presets@[old(self).working_preset as int].number,
                    ),
                ] + start_cmds(Action::SaveCurrent, old(handler).tick_tock)
                &&& final(handler).presets@ == Seq::<ContinuumPreset>::empty()
                &&& *final(handler) == (MatrixHandler {
                    verb: Action::SaveCurrent,
                    done: false,
                    gather_state: crate::gather_state::GatherState::Idle,
                    bin_type: crate::data_kind::DataKind::Unknown,
                    presets: final(handler).presets,
                    archive_state: crate::matrix_handler::ArchiveState::Unknown,
                    tick_tock: start_tick_tock(Action::SaveCurrent, old(handler).tick_tock),
                    outbox: final(handler).outbox,
                    ..*old(handler)
                })
            },
            old(self).save_state == SaveState::SavePreset ==> {
                &&& r.0 == WorkingStatus::Working
                &&& r.1 matches StepEffect::WritePreset { filename, data } && filename@
                    == preset_filename_spec(
                    old(self).presets@[old(self).working_preset as int].name@,
                    file_bytes(old(handler).midi_file@.bytes),
                ) && data@ == file_bytes(old(handler).midi_file@.bytes)
                &&& *final(handler) == (MatrixHandler {
                    midi_file: final(handler).midi_file,
                    ..*old(handler)
                })
                &&& final(handler).midi_file@ == (MidiFileView {
                    bytes: Seq::<u8>::empty(),
                    running: 0,
                    last_tick: 0,
                })
                &&& (old(self).working_preset + 1 < old(self).presets@.len() ==> *final(self)
                    == (Saver {
                    save_state: SaveState::CollectPreset,
                    working_preset: (old(self).working_preset + 1) as u8,
                    ..*old(self)
                }))
                &&& (old(self).working_preset + 1 >= old(self).presets@.len() ==> *final(self)
                    == (Saver {
                    save_state: SaveState::Finish,
                    working_preset: u8::MAX,
                    ..*old(self)
                }))
            },
            old(self).save_state == SaveState::Finish ==> {
                &&& r.0 == WorkingStatus::Finished
                &&& r.1 matches StepEffect::WriteListing { text } && text@ == listing_text_spec(
                    old(self).presets@,
                )
                &&& *final(self) == (Saver { save_state: SaveState::Start, ..*old(self) })
                &&& *final(handler) == *old(handler)
            },
    {
        match self.save_state {
            SaveState::Start => {
                self.save_state = SaveState::GatherList;
                self.working_preset = 0;
                (WorkingStatus::Working, StepEffect::Nothing)
            },
            SaveState::GatherList => {
                self.presets = handler.take_presets();
                self.save_state = SaveState::CollectPreset;
                if self.presets.len() == 0 {
                    (WorkingStatus::Finished, StepEffect::Nothing)
                } else {
                    (WorkingStatus::Working, StepEffect::Nothing)
                }
            },
            SaveState::CollectPreset => {
                let index = self.presets[self.working_preset as usize].number;
                handler.choose_preset(index);
                handler.start_action(Action::SaveCurrent);
                self.save_state = SaveState::SavePreset;
                proof {
                    assert(handler.outbox@ =~= old(handler).outbox@ + seq![
                        cc_cmd(CHANNEL16, 0, 0),
                        cc_cmd(CHANNEL16, 32, 0),
                        pc_cmd(
                            CHANNEL16,
                            old(self).presets@[old(self).working_preset as int].number,
                        ),
                    ] + start_cmds(Action::SaveCurrent, old(handler).tick_tock));
                }
                (WorkingStatus::Working, StepEffect::Nothing)
            },
            SaveState::SavePreset => {
                let effect = save_preset(
                    handler,
                    self.presets[self.working_preset as usize].name.as_str(),
                );
                if self.working_preset as usize + 1 >= self.presets.len() {
                    self.working_preset = u8::MAX;
                    self.save_state = SaveState::Finish;
                } else {
                    self.working_preset = self.working_preset + 1;
                    self.save_state = SaveState::CollectPreset;
                }
                (WorkingStatus::Working, effect)
            },
            SaveState::Finish => {
                let text = listing_text(&self.presets);
                self.save_state = SaveState::Start;
                (WorkingStatus::Finished, StepEffect::WriteListing { text })
            },
        }
    }
}

} // verus!
