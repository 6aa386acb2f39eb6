//! The load operation: replays stored preset archives to the instrument,
//! highest slot first. Each preset passes through the phases select slot,
//! await acknowledgement, replay archive, send name and commit, save to
//! flash, and await the final acknowledgement; an archive the instrument
//! refuses is abandoned and the batch continues.

use vstd::prelude::*;
use crate::continuum_preset::ContinuumPreset;
use crate::haken_midi::{
    CC_DOWNLOAD_CONTROL, CC_DOWNLOAD_INFO, DOWNLOAD_CONTROL_SAVE_TO_FLASH,
    DOWNLOAD_INFO_RETRIEVE_ARCHIVE,
};
use crate::matrix_handler::{
    cc_cmd, editor_present_cmd, pc_cmd, send_string_cmds, ArchiveState, MatrixHandler,
};
use crate::midi_event::MidiEvent;
use crate::midi::{CHANNEL15, CHANNEL16};
use crate::stepper::{StepEffect, WorkingStatus};
use crate::util::push_char;

verus! {

/// The phases of loading one preset.
#[derive(Clone, Copy, Debug, PartialEq, Eq, Structural)]
pub enum SendState {
    Start,
    Prologue,
    Matrix,
    Name,
    Save,
    Finish,
}

/// The commands that select the target slot before a replay.
pub open spec fn choose_slot_cmds(slot: u8) -> Seq<MidiEvent> {
    if slot == 0 {
        seq![
            cc_cmd(CHANNEL16, 0, 126),
            cc_cmd(CHANNEL16, 32, 0),
            pc_cmd(CHANNEL16, 0),
        ]
    } else {
        seq![
            cc_cmd(CHANNEL16, 0, 0),
            cc_cmd(CHANNEL16, 32, 0),
            pc_cmd(CHANNEL16, slot),
        ]
    }
}

/// The commands that commit the received preset to the target slot.
pub open spec fn set_slot_cmds(slot: u8) -> Seq<MidiEvent> {
    if slot == 0 {
        seq![
            cc_cmd(CHANNEL16, 0, 126),
            cc_cmd(CHANNEL16, 32, 0),
            pc_cmd(CHANNEL15, 1),
        ]
    } else {
        seq![
            cc_cmd(CHANNEL16, 0, 0),
            cc_cmd(CHANNEL16, 32, 0),
            pc_cmd(CHANNEL15, slot),
        ]
    }
}

/// Turns a list of preset names, already in loading order, into presets
/// numbered from slot one upward. Used when a folder of archives is loaded
/// without a listing file.
pub fn presets_from_names(names: &Vec<String>) -> (r: Vec<ContinuumPreset>)
    requires
        names@.len() <= 127,
    ensures
        r@.len() == names@.len(),
        forall|k: int|
            0 <= k < r@.len() ==> (#[trigger] r@[k]).name@ == names@[k]@ && r@[k].number == k + 1
                && r@[k].text@ == Seq::<char>::empty() && r@[k].category@ == Seq::<char>::empty()
                && r@[k].bank_hi == 0 && r@[k].bank_lo == 0 && r@[k].nofn
                == crate::continuum_preset::NofN::Single,
{
    let mut r: Vec<ContinuumPreset> = Vec::new();
    let mut k: usize = 0;
    while k < names.len()
        invariant
            k <= names@.len(),
            names@.len() <= 127,
            r@.len() == k,
            forall|t: int|
                0 <= t < k ==> (#[trigger] r@[t]).name@ == names@[t]@ && r@[t].number == t + 1
                    && r@[t].text@ == Seq::<char>::empty() && r@[t].category@ == Seq::<
                char,
            >::empty() && r@[t].bank_hi == 0 && r@[t].bank_lo == 0 && r@[t].nofn
                    == crate::continuum_preset::NofN::Single,
        decreases names@.len() - k,
    {
        let name = names[k].clone();
        r.push(
            ContinuumPreset {
                name,
                text: String::new(),
                category: String::new(),
                bank_hi: 0,
                bank_lo: 0,
                number: (k + 1) as u8,
                nofn: crate::continuum_preset::NofN::Single,
            },
        );
        k = k + 1;
    }
    r
}

/// The stepper of the load action. The preset list comes from the listing
/// file, a single archive file, or a folder scan, resolved by the
/// embedding program; slots are processed in reverse index order.
pub struct PresetLoader {
    pub index: usize,
    pub state: SendState,
    pub is_data_sent: bool,
    pub presets: Vec<ContinuumPreset>,
}

impl PresetLoader {
    /// The list is never empty, the cursor is inside it, and every slot
    /// number fits in a program change.
    pub open spec fn wf(&self) -> bool {
        &&& self.presets@.len() > 0
        &&& (self.index as int) < self.presets@.len()
        &&& forall|k: int| 0 <= k < self.presets@.len() ==> (#[trigger] self.presets@[k]).number < 128
    }

    /// Begins a load of the given presets, starting at the highest index.
    pub fn new(presets: Vec<ContinuumPreset>) -> (r: Self)
        requires
            presets@.len() > 0,
            forall|k: int| 0 <= k < presets@.len() ==> (#[trigger] presets@[k]).number < 128,
        ensures
            r.wf(),
            r.index == presets@.len() - 1,
            r.state == SendState::Start,
            !r.is_data_sent,
            r.presets@ == presets@,
    {
        let index = presets.len() - 1;
        PresetLoader { index, state: SendState::Start, is_data_sent: false, presets }
    }

    /// One step of the load state machine.
    pub fn next(&mut self, handler: &mut MatrixHandler) -> (r: (WorkingStatus, StepEffect))
        requires
            old(self).wf(),
        ensures
            final(self).wf(),
            final(self).presets@ == old(self).presets@,
            old(self).state == SendState::Start ==> {
                &&& r.0 == WorkingStatus::Working && r.1 is Nothing
                &&& *final(self) == (PresetLoader { state: SendState::Prologue, ..*old(self) })
                &&& final(handler).outbox@ == old(handler).outbox@ + choose_slot_cmds(
                    old(self).presets@[old(self).index as int].number,
                ).push(editor_present_cmd(old(handler).tick_tock))
                &&& *final(handler) == (MatrixHandler {
                    outbox: final(handler).outbox,
                    tick_tock: !old(handler).tick_tock,
                    ..*old(handler)
                })
            },
            old(self).state == SendState::Prologue ==> {
                &&& r.0 == WorkingStatus::Working && r.1 is Nothing
                &&& (old(handler).done ==> *final(self) == (PresetLoader {
                    state: SendState::Matrix,
                    ..*old(self)
                }) && final(handler).outbox@ == old(handler).outbox@.push(
                    cc_cmd(CHANNEL16, CC_DOWNLOAD_INFO, DOWNLOAD_INFO_RETRIEVE_ARCHIVE),
                ) && *final(handler) == (MatrixHandler {
                    archive_state: ArchiveState::Unknown,
                    outbox: final(handler).outbox,
                    ..*old(handler)
                }))
                &&& (!old(handler).done ==> *final(self) == *old(self) && *final(handler)
                    == *old(handler))
            },
            old(self).state == SendState::Matrix && !old(self).is_data_sent ==> {
                &&& r.0 == WorkingStatus::Working
                &&& (r.1 matches StepEffect::ReplayArchive { filename } && filename@ == old(
                    self,
                ).presets@[old(self).index as int].name@ + seq!['.', 'm', 'i', 'd'])
                &&& *final(self) == (PresetLoader { is_data_sent: true, ..*old(self) })
                &&& *final(handler) == *old(handler)
            },
            old(self).state == SendState::Matrix && old(self).is_data_sent ==> {
                &&& r.0 == WorkingStatus::Working && r.1 is Nothing
                &&& (old(handler).archive_state == ArchiveState::Unknown ==> *final(self) == *old(
                    self,
                ) && *final(handler) == *old(handler))
                &&& (old(handler).archive_state == ArchiveState::Success ==> *final(self)
                    == (PresetLoader {
                    state: SendState::Name,
                    is_data_sent: false,
                    ..*old(self)
                }) && *final(handler) == (MatrixHandler { done: false, ..*old(handler) }))
                &&& (old(handler).archive_state == ArchiveState::Failure ==> *final(self)
                    == (PresetLoader {
                    state: SendState::Finish,
                    is_data_sent: false,
                    ..*old(self)
                }) && final(handler).outbox@ == old(handler).outbox@.push(
                    editor_present_cmd(old(handler).tick_tock),
                ) && *final(handler) == (MatrixHandler {
                    done: false,
                    tick_tock: !old(handler).tick_tock,
                    outbox: final(handler).outbox,
                    ..*old(handler)
                }))
            },
            old(self).state == SendState::Name ==> {
                &&& r.0 == WorkingStatus::Working && r.1 is Nothing
                &&& *final(self) == (PresetLoader { state: SendState::Save, ..*old(self) })
                &&& final(handler).presets@ == Seq::<ContinuumPreset>::empty()
                &&& final(handler).outbox@ == old(handler).outbox@ + send_string_cmds(
                    0,
                    vstd::utf8::encode_utf8(
                        old(self).presets@[old(self).index as int].name@,
                    ),
                ) + set_slot_cmds(old(self).presets@[old(self).index as int].number)
                &&& *final(handler) == (MatrixHandler {
                    done: false,
                    presets: final(handler).presets,
                    outbox: final(handler).outbox,
                    ..*old(handler)
                })
            },
            old(self).state == SendState::Save ==> {
                &&& r.0 == WorkingStatus::Working && r.1 is Nothing
                &&& *final(self) == (PresetLoader { state: SendState::Finish, ..*old(self) })
                &&& final(handler).outbox@ == old(handler).outbox@ + seq![
                    cc_cmd(CHANNEL16, CC_DOWNLOAD_CONTROL, DOWNLOAD_CONTROL_SAVE_TO_FLASH),
                    editor_present_cmd(old(handler).tick_tock),
                ]
                &&& *final(handler) == (MatrixHandler {
                    done: false,
                    tick_tock: !old(handler).tick_tock,
                    outbox: final(handler).outbox,
                    ..*old(handler)
                })
            },
            old(self).state == SendState::Finish ==> {
                &&& r.1 is Nothing
                &&& (old(handler).done && old(self).index == 0 ==> r.0 == WorkingStatus::Finished
                    && *final(self) == *old(self) && *final(handler) == *old(handler))
                &&& (old(handler).done && old(self).index > 0 ==> r.0 == WorkingStatus::Working
                    && *final(self) == (PresetLoader {
                    index: (old(self).index - 1) as usize,
                    state: SendState::Start,
                    ..*old(self)
                }) && *final(handler) == *old(handler))
                &&& (!old(handler).done ==> r.0 == WorkingStatus::Working && *final(self) == *old(
                    self,
                ) && *final(handler) == (MatrixHandler { done: false, ..*old(handler) }))
            },
    {
        match self.state {
            SendState::Start => {
                let slot = self.presets[self.index].number;
                if slot == 0 {
                    handler.choose_edit_slot();
                } else {
                    handler.choose_preset(slot);
                }
                handler.editor_present();
                self.state = SendState::Prologue;
                proof {
                    assert(handler.outbox@ =~= old(handler).outbox@ + choose_slot_cmds(
                        old(self).presets@[old(self).index as int].number,
                    ).push(editor_present_cmd(old(handler).tick_tock)));
                }
                (WorkingStatus::Working, StepEffect::Nothing)
            },
            SendState::Prologue => {
                if handler.is_ready() {
                    handler.clear_archive_state();
                    handler.send_cc(CHANNEL16, CC_DOWNLOAD_INFO, DOWNLOAD_INFO_RETRIEVE_ARCHIVE);
                    self.state = SendState::Matrix;
                }
                (WorkingStatus::Working, StepEffect::Nothing)
            },
            SendState::Matrix => {
                if !self.is_data_sent {
                    self.is_data_sent = true;
                    let mut filename = String::new();
                    filename.append(self.presets[self.index].name.as_str());
                    push_char(&mut filename, '.');
                    push_char(&mut filename, 'm');
                    push_char(&mut filename, 'i');
                    push_char(&mut filename, 'd');
                    proof {
                        assert(filename@ =~= old(self).presets@[old(self).index as int].name@
                            + seq!['.', 'm', 'i', 'd']);
                    }
                    return (WorkingStatus::Working, StepEffect::ReplayArchive { filename });
                }
                match handler.archive_state() {
                    ArchiveState::Unknown => {},
                    ArchiveState::Success => {
                        self.state = SendState::Name;
                        self.is_data_sent = false;
                        handler.unready();
                    },
                    ArchiveState::Failure => {
                        self.is_data_sent = false;
                        self.state = SendState::Finish;
                        handler.editor_present();
                        handler.unready();
                    },
                }
                (WorkingStatus::Working, StepEffect::Nothing)
            },
            SendState::Name => {
                handler.clear_presets();
                handler.send_string(0, self.presets[self.index].name.as_str());
                let slot = self.presets[self.index].number;
                if slot == 0 {
                    handler.set_edit_slot();
                } else {
                    handler.set_slot(slot);
                }
                self.state = SendState::Save;
                handler.unready();
                proof {
                    assert(handler.outbox@ =~= old(handler).outbox@ + send_string_cmds(
                        0,
                        vstd::utf8::encode_utf8(
                            old(self).presets@[old(self).index as int].name@,
                        ),
                    ) + set_slot_cmds(old(self).presets@[old(self).index as int].number));
                }
                (WorkingStatus::Working, StepEffect::Nothing)
            },
            SendState::Save => {
                handler.send_cc(CHANNEL16, CC_DOWNLOAD_CONTROL, DOWNLOAD_CONTROL_SAVE_TO_FLASH);
                self.state = SendState::Finish;
                handler.editor_present();
                handler.unready();
                proof {
                    assert(handler.outbox@ =~= old(handler).outbox@ + seq![
                        cc_cmd(CHANNEL16, CC_DOWNLOAD_CONTROL, DOWNLOAD_CONTROL_SAVE_TO_FLASH),
                        editor_present_cmd(old(handler).tick_tock),
                    ]);
                }
                (WorkingStatus::Working, StepEffect::Nothing)
            },
            SendState::Finish => {
                if handler.is_ready() {
                    if self.index == 0 {
                        (WorkingStatus::Finished, StepEffect::Nothing)
                    } else {
                        self.index = self.index - 1;
                        self.state = SendState::Start;
                        (WorkingStatus::Working, StepEffect::Nothing)
                    }
                } else {
                    handler.unready();
                    (WorkingStatus::Working, StepEffect::Nothing)
                }
            },
        }
    }
}

} // verus!
