//! The device transfer protocol engine: tracks the instrument's
//! sub-protocol state across inbound events and queues the outbound
//! commands of each operation. The embedding program delivers inbound
//! events as plain values and drains the outbox into its transport.

use vstd::prelude::*;
use crate::continuum_preset::{ContinuumPreset, NofN, PresetBuilder, PresetBuilderView};
use crate::data_kind::{data_kind_of, DataKind};
use crate::gather_state::GatherState;
use crate::haken_midi::{
    CC_BANK_SELECT, CC_DATA_STREAM, CC_DOWNLOAD_CONTROL, CC_DOWNLOAD_INFO, CC_EDITOR_PRESENT,
    CC_PRESET_GROUP, DATA_STREAM_END, DOWNLOAD_CONTROL_ARCHIVE_FAIL, DOWNLOAD_CONTROL_ARCHIVE_OK,
    DOWNLOAD_CONTROL_BEGIN_SYSTEM_NAMES, DOWNLOAD_CONTROL_BEGIN_USER_NAMES,
    DOWNLOAD_CONTROL_DSP_DONE, DOWNLOAD_CONTROL_END_SYSTEM_NAMES, DOWNLOAD_CONTROL_END_USER_NAMES,
    DOWNLOAD_CONTROL_FIRST_OF_THREE, DOWNLOAD_CONTROL_FIRST_OF_TWO, DOWNLOAD_CONTROL_NOT_FIRST,
    DOWNLOAD_CONTROL_ERASE_BANK0, DOWNLOAD_CONTROL_REQUEST_USER_NAMES,
    DOWNLOAD_INFO_BEGIN_ARCHIVE, DOWNLOAD_INFO_END_ARCHIVE, DOWNLOAD_INFO_SAVE_PRESET0,
};
use crate::midi::{u32_be_bytes, vlq_step, BinBuild, BinBuildView, CHANNEL15, CHANNEL16};
use crate::midi_event::{event_status, MidiEvent};
use crate::midi_file::{
    event_bytes, tick_next_last, file_bytes, MidiFile, MidiFileView,
};
use crate::options::Action;

verus! {

/// Whether the instrument has acknowledged or refused an archive transfer.
#[derive(Clone, Copy, Debug, PartialEq, Eq, Structural)]
pub enum ArchiveState {
    Unknown,
    Success,
    Failure,
}

impl Default for ArchiveState {
    fn default() -> (r: Self)
        ensures
            r == ArchiveState::Unknown,
    {
        ArchiveState::Unknown
    }
}

/// An outbound control change.
pub open spec fn cc_cmd(channel: u8, cc: u8, value: u8) -> MidiEvent {
    MidiEvent::ControlChange { channel, cc, value }
}

/// An outbound program change.
pub open spec fn pc_cmd(channel: u8, program: u8) -> MidiEvent {
    MidiEvent::ProgramChange { channel, program }
}

/// An outbound channel pressure byte.
pub open spec fn cp_cmd(channel: u8, pressure: u8) -> MidiEvent {
    MidiEvent::ChannelPressure { channel, pressure }
}

/// The all-sound-off, reset-all, local-off sweep over the performance
/// channels from `ch` up.
pub open spec fn quiet_cmds(ch: int) -> Seq<MidiEvent>
    decreases 13 - ch,
{
    if ch < 0 || ch >= 13 {
        Seq::empty()
    } else {
        seq![cc_cmd(ch as u8, 120, 0), cc_cmd(ch as u8, 121, 0), cc_cmd(ch as u8, 122, 0)]
            + quiet_cmds(ch + 1)
    }
}

/// The heartbeat the instrument expects, alternating between two values.
pub open spec fn editor_present_cmd(tick_tock: bool) -> MidiEvent {
    cc_cmd(CHANNEL16, CC_EDITOR_PRESENT, if tick_tock { 85 } else { 42 })
}

/// What every action sends first: quiet the performance channels, then
/// announce the editor.
pub open spec fn prelude_cmds() -> Seq<MidiEvent> {
    quiet_cmds(0) + seq![cc_cmd(CHANNEL16, CC_EDITOR_PRESENT, 85)]
}

/// Everything `start_action` sends for the given action.
pub open spec fn start_cmds(act: Action, tick_tock: bool) -> Seq<MidiEvent> {
    prelude_cmds() + match act {
        Action::ListNames => seq![
            cc_cmd(CHANNEL16, CC_DOWNLOAD_CONTROL, DOWNLOAD_CONTROL_REQUEST_USER_NAMES),
            editor_present_cmd(tick_tock),
            cc_cmd(CHANNEL16, CC_EDITOR_PRESENT, 85),
        ],
        Action::SaveCurrent => seq![cc_cmd(CHANNEL16, CC_DOWNLOAD_INFO, DOWNLOAD_INFO_SAVE_PRESET0)],
        Action::Save => seq![
            cc_cmd(CHANNEL16, CC_DOWNLOAD_CONTROL, DOWNLOAD_CONTROL_REQUEST_USER_NAMES),
            editor_present_cmd(tick_tock),
        ],
        Action::Clear => seq![cc_cmd(CHANNEL16, CC_DOWNLOAD_CONTROL, DOWNLOAD_CONTROL_ERASE_BANK0)],
        _ => Seq::empty(),
    }
}

/// The heartbeat state after `start_action`.
pub open spec fn start_tick_tock(act: Action, tick_tock: bool) -> bool {
    match act {
        Action::ListNames | Action::Save => !tick_tock,
        _ => tick_tock,
    }
}

/// The commands that transmit one string: the stream announcement, one
/// channel-pressure byte per content byte, and the end-of-stream mark.
pub open spec fn send_string_cmds(kind: u8, bytes: Seq<u8>) -> Seq<MidiEvent> {
    seq![cc_cmd(CHANNEL16, CC_DATA_STREAM, kind)] + bytes.map_values(
        |b: u8| cp_cmd(CHANNEL16, b),
    ) + seq![cc_cmd(CHANNEL16, CC_DATA_STREAM, DATA_STREAM_END)]
}

/// Which stream a data kind is gathered into.
pub open spec fn gather_for(kind: DataKind) -> GatherState {
    match kind {
        DataKind::Name => GatherState::Name,
        DataKind::ControlText => GatherState::Text,
        DataKind::Category => GatherState::Category,
        _ => GatherState::Binary,
    }
}

/// Actions that capture an inbound archive stream.
pub open spec fn is_saving_spec(a: Action) -> bool {
    a == Action::SaveCurrent || a == Action::Save
}

/// The writer state after forwarding one event to the archive, which
/// happens only while an archive transfer is in progress.
pub open spec fn archive_step(
    mf: MidiFileView,
    in_archive: bool,
    ticks: i64,
    e: MidiEvent,
) -> MidiFileView {
    if in_archive {
        MidiFileView {
            bytes: mf.bytes + event_bytes(mf.last_tick, mf.running, ticks, e),
            running: event_status(e),
            last_tick: tick_next_last(mf.last_tick, ticks),
        }
    } else {
        mf
    }
}

/// The gatherer state after one binary byte.
pub open spec fn bin_add_step(b: BinBuildView, byte: u8) -> BinBuildView {
    if b.encoded {
        BinBuildView { out: b.out.push(byte), ..b }
    } else if byte & 0x80 != 0 {
        BinBuildView { acc: vlq_step(b.acc, byte), ..b }
    } else {
        BinBuildView { out: b.out + u32_be_bytes(vlq_step(b.acc, byte)), acc: 0, ..b }
    }
}

/// The bytes a flush of the gatherer returns.
pub open spec fn flush_result(b: BinBuildView) -> Seq<u8> {
    if b.encoded {
        b.out
    } else {
        b.out + u32_be_bytes(vlq_step(b.acc, 0))
    }
}

/// A gatherer that was just started in the given mode.
pub open spec fn fresh_gather(encoded: bool) -> BinBuildView {
    BinBuildView { encoded, out: Seq::empty(), acc: 0 }
}

/// A preset snapshot carrying exactly the gathered fields.
pub open spec fn preset_matches(p: ContinuumPreset, v: PresetBuilderView) -> bool {
    &&& p.name@ == v.name
    &&& p.text@ == v.text
    &&& p.category@ == v.category
    &&& p.bank_hi == v.bank_hi
    &&& p.bank_lo == v.bank_lo
    &&& p.number == v.number
    &&& p.nofn == v.nofn
}

/// The protocol engine's state.
pub struct MatrixHandler {
    /// The action being run.
    pub verb: Action,
    /// Which stream the management channel is currently sending.
    pub gather_state: GatherState,
    /// The kind of the current binary stream.
    pub bin_type: DataKind,
    /// Reassembles binary streams.
    pub bin_build: BinBuild,
    /// Gathers the preset under transmission.
    pub preset_builder: PresetBuilder,
    /// The presets gathered so far.
    pub presets: Vec<ContinuumPreset>,
    /// Between begin- and end-of-preset-names signals.
    pub in_preset_names: bool,
    /// Between begin- and end-of-archive signals.
    pub in_archive: bool,
    /// The next user bank the clear action will erase.
    pub next_bank: u8,
    /// Captures the archive stream of one preset.
    pub midi_file: MidiFile,
    /// Whether the current phase is satisfied.
    pub done: bool,
    /// Alternates the heartbeat value.
    pub tick_tock: bool,
    /// Whether the instrument acknowledged the last long-running step.
    pub receive_sync: bool,
    /// The instrument's verdict on the last archive transfer.
    pub archive_state: ArchiveState,
    /// Outbound commands awaiting the transport.
    pub outbox: Vec<MidiEvent>,
}

impl MatrixHandler {
    /// Between calls the gatherer is at rest and the archive tick state is
    /// non-negative.
    pub open spec fn wf(&self) -> bool {
        &&& self.bin_build.wf()
        &&& self.midi_file@.last_tick >= 0
    }

    pub fn new() -> (r: Self)
        ensures
            r.wf(),
            r.verb == Action::Nothing,
            r.gather_state == GatherState::Idle,
            r.bin_type == DataKind::Unknown,
            r.bin_build@ == fresh_gather(false),
            r.preset_builder.is_reset(),
            r.presets@ == Seq::<ContinuumPreset>::empty(),
            !r.in_preset_names,
            !r.in_archive,
            r.next_bank == u8::MAX,
            r.midi_file@ == (MidiFileView { bytes: Seq::<u8>::empty(), running: 0, last_tick: 0 }),
            !r.done,
            r.tick_tock,
            !r.receive_sync,
            r.archive_state == ArchiveState::Unknown,
            r.outbox@ == Seq::<MidiEvent>::empty(),
    {
        MatrixHandler {
            verb: Action::Nothing,
            gather_state: GatherState::Idle,
            bin_type: DataKind::Unknown,
            bin_build: BinBuild::new(),
            preset_builder: PresetBuilder::new(),
            presets: Vec::new(),
            in_preset_names: false,
            in_archive: false,
            next_bank: u8::MAX,
            midi_file: MidiFile::new(),
            done: false,
            tick_tock: true,
            receive_sync: false,
            archive_state: ArchiveState::Unknown,
            outbox: Vec::new(),
        }
    }

    /// True once the instrument or an idle tick satisfied the current
    /// phase.
    pub fn is_ready(&self) -> (r: bool)
        ensures
            r == self.done,
    {
        self.done
    }

    /// Marks the current phase as still waiting.
    pub fn unready(&mut self)
        ensures
            *final(self) == (MatrixHandler { done: false, ..*old(self) }),
    {
        self.done = false;
    }

    /// The finished archive of the last captured preset; clears the
    /// archive writer.
    pub fn get_archive_data(&mut self) -> (r: Vec<u8>)
        requires
            old(self).midi_file@.bytes.len() <= u32::MAX,
        ensures
            r@ == file_bytes(old(self).midi_file@.bytes),
            final(self).midi_file@ == (MidiFileView {
                bytes: Seq::<u8>::empty(),
                running: 0,
                last_tick: 0,
            }),
            *final(self) == (MatrixHandler { midi_file: final(self).midi_file, ..*old(self) }),
    {
        self.midi_file.finish()
    }

    pub fn archive_state(&self) -> (r: ArchiveState)
        ensures
            r == self.archive_state,
    {
        self.archive_state
    }

    pub fn clear_archive_state(&mut self)
        ensures
            *final(self) == (MatrixHandler { archive_state: ArchiveState::Unknown, ..*old(self) }),
    {
        self.archive_state = ArchiveState::Unknown
    }

    pub fn get_presets(&self) -> (r: &Vec<ContinuumPreset>)
        ensures
            r == self.presets,
    {
        &self.presets
    }

    pub fn clear_presets(&mut self)
        ensures
            final(self).presets@ == Seq::<ContinuumPreset>::empty(),
            *final(self) == (MatrixHandler { presets: final(self).presets, ..*old(self) }),
    {
        self.presets.clear();
    }

    /// Moves the gathered presets out, leaving none behind.
    pub fn take_presets(&mut self) -> (r: Vec<ContinuumPreset>)
        ensures
            r@ == old(self).presets@,
            final(self).presets@ == Seq::<ContinuumPreset>::empty(),
            *final(self) == (MatrixHandler { presets: final(self).presets, ..*old(self) }),
    {
        let mut r: Vec<ContinuumPreset> = Vec::new();
        std::mem::swap(&mut r, &mut self.presets);
        r
    }

    fn is_saving(&self) -> (r: bool)
        ensures
            r == is_saving_spec(self.verb),
    {
        match self.verb {
            Action::SaveCurrent | Action::Save => true,
            _ => false,
        }
    }

    /// Hands the queued outbound commands to the transport.
    pub fn take_outbox(&mut self) -> (r: Vec<MidiEvent>)
        ensures
            r@ == old(self).outbox@,
            final(self).outbox@ == Seq::<MidiEvent>::empty(),
            *final(self) == (MatrixHandler { outbox: final(self).outbox, ..*old(self) }),
    {
        let mut r: Vec<MidiEvent> = Vec::new();
        std::mem::swap(&mut r, &mut self.outbox);
        r
    }

    /// An idle tick: a load phase waiting between inbound events counts as
    /// satisfied.
    pub fn on_idle(&mut self)
        ensures
            *final(self) == (MatrixHandler {
                done: old(self).done || old(self).verb == Action::Load,
                ..*old(self)
            }),
    {
        if let Action::Load = self.verb {
            self.done = true;
        }
    }

    /// Queues one control change.
    pub fn send_cc(&mut self, channel: u8, cc: u8, value: u8)
        ensures
            final(self).outbox@ == old(self).outbox@.push(cc_cmd(channel, cc, value)),
            *final(self) == (MatrixHandler { outbox: final(self).outbox, ..*old(self) }),
    {
        self.outbox.push(MidiEvent::ControlChange { channel, cc, value });
    }

    /// Queues one program change.
    fn send_pc(&mut self, channel: u8, program: u8)
        ensures
            final(self).outbox@ == old(self).outbox@.push(pc_cmd(channel, program)),
            *final(self) == (MatrixHandler { outbox: final(self).outbox, ..*old(self) }),
    {
        self.outbox.push(MidiEvent::ProgramChange { channel, program });
    }

    /// Queues one string transmission: the content bytes framed by the
    /// begin- and end-of-data-stream signals.
    pub fn send_string(&mut self, kind: u8, text: &str)
        ensures
            final(self).outbox@ == old(self).outbox@ + send_string_cmds(
                kind,
                vstd::string::StringSliceAdditionalSpecFns::spec_bytes(text),
            ),
            *final(self) == (MatrixHandler { outbox: final(self).outbox, ..*old(self) }),
    {
        let ghost tbytes = vstd::string::StringSliceAdditionalSpecFns::spec_bytes(text);
        self.send_cc(CHANNEL16, CC_DATA_STREAM, kind);
        let bytes = text.as_bytes();
        let mut i: usize = 0;
        while i < bytes.len()
            invariant
                i <= bytes@.len(),
                bytes@ == tbytes,
                self.outbox@ == old(self).outbox@ + seq![
                    cc_cmd(CHANNEL16, CC_DATA_STREAM, kind),
                ] + bytes@.take(i as int).map_values(|b: u8| cp_cmd(CHANNEL16, b)),
                *self == (MatrixHandler { outbox: self.outbox, ..*old(self) }),
            decreases bytes@.len() - i,
        {
            let b = bytes[i];
            self.outbox.push(MidiEvent::ChannelPressure { channel: CHANNEL16, pressure: b });
            proof {
                assert(bytes@.take(i + 1) =~= bytes@.take(i as int).push(bytes@[i as int]));
                assert(bytes@.take(i + 1).map_values(|b: u8| cp_cmd(CHANNEL16, b)) =~= bytes@.take(
                    i as int,
                ).map_values(|b: u8| cp_cmd(CHANNEL16, b)).push(cp_cmd(CHANNEL16, bytes@[i as int])));
                assert(self.outbox@ =~= old(self).outbox@ + seq![
                    cc_cmd(CHANNEL16, CC_DATA_STREAM, kind),
                ] + bytes@.take(i + 1).map_values(|b: u8| cp_cmd(CHANNEL16, b)));
            }
            i = i + 1;
        }
        self.send_cc(CHANNEL16, CC_DATA_STREAM, DATA_STREAM_END);
        proof {
            assert(bytes@.take(bytes@.len() as int) =~= bytes@);
            assert(self.outbox@ =~= old(self).outbox@ + send_string_cmds(kind, tbytes));
        }
    }

    /// Silences the performance channels.
    fn transmit_quiet(&mut self)
        ensures
            final(self).outbox@ == old(self).outbox@ + quiet_cmds(0),
            *final(self) == (MatrixHandler { outbox: final(self).outbox, ..*old(self) }),
    {
        let mut channel: u8 = 0;
        while channel < 13
            invariant
                channel <= 13,
                old(self).outbox@ + quiet_cmds(0) == self.outbox@ + quiet_cmds(channel as int),
                *self == (MatrixHandler { outbox: self.outbox, ..*old(self) }),
            decreases 13 - channel,
        {
            self.send_cc(channel, 120, 0);
            self.send_cc(channel, 121, 0);
            self.send_cc(channel, 122, 0);
            proof {
                assert(quiet_cmds(channel as int) =~= seq![
                    cc_cmd(channel, 120, 0),
                    cc_cmd(channel, 121, 0),
                    cc_cmd(channel, 122, 0),
                ] + quiet_cmds(channel as int + 1));
                assert(old(self).outbox@ + quiet_cmds(0) =~= self.outbox@ + quiet_cmds(
                    channel as int + 1,
                ));
            }
            channel = channel + 1;
        }
        proof {
            assert(quiet_cmds(13) =~= Seq::<MidiEvent>::empty());
            assert(self.outbox@ + quiet_cmds(13) =~= self.outbox@);
        }
    }

    /// Requests the user preset name listing.
    fn transmit_names(&mut self)
        ensures
            final(self).outbox@ == old(self).outbox@ + seq![
                cc_cmd(CHANNEL16, CC_DOWNLOAD_CONTROL, DOWNLOAD_CONTROL_REQUEST_USER_NAMES),
                editor_present_cmd(old(self).tick_tock),
            ],
            *final(self) == (MatrixHandler {
                outbox: final(self).outbox,
                tick_tock: !old(self).tick_tock,
                ..*old(self)
            }),
    {
        self.send_cc(CHANNEL16, CC_DOWNLOAD_CONTROL, DOWNLOAD_CONTROL_REQUEST_USER_NAMES);
        self.editor_present();
    }

    /// Requests an archive of the current editing slot.
    fn transmit_archive_current(&mut self)
        ensures
            final(self).outbox@ == old(self).outbox@.push(
                cc_cmd(CHANNEL16, CC_DOWNLOAD_INFO, DOWNLOAD_INFO_SAVE_PRESET0),
            ),
            *final(self) == (MatrixHandler { outbox: final(self).outbox, ..*old(self) }),
    {
        self.send_cc(CHANNEL16, CC_DOWNLOAD_INFO, DOWNLOAD_INFO_SAVE_PRESET0);
    }

    /// Resets the per-action state and sends the common prologue.
    fn action_prelude(&mut self, act: Action)
        ensures
            final(self).outbox@ == old(self).outbox@ + prelude_cmds(),
            final(self).presets@ == Seq::<ContinuumPreset>::empty(),
            *final(self) == (MatrixHandler {
                verb: act,
                done: false,
                gather_state: GatherState::Idle,
                bin_type: DataKind::Unknown,
                presets: final(self).presets,
                archive_state: ArchiveState::Unknown,
                outbox: final(self).outbox,
                ..*old(self)
            }),
    {
        self.verb = act;
        self.done = false;
        self.gather_state = GatherState::Idle;
        self.bin_type = DataKind::Unknown;
        self.presets.clear();
        self.archive_state = ArchiveState::Unknown;
        self.transmit_quiet();
        self.send_cc(CHANNEL16, CC_EDITOR_PRESENT, 85);
        proof {
            assert(self.outbox@ =~= old(self).outbox@ + prelude_cmds());
        }
    }

    /// Begins one of the five device actions: resets the per-action state
    /// and queues the action's opening commands.
    pub fn start_action(&mut self, act: Action)
        requires
            act == Action::ListNames || act == Action::SaveCurrent || act == Action::Save || act
                == Action::Load || act == Action::Clear,
        ensures
            final(self).outbox@ == old(self).outbox@ + start_cmds(act, old(self).tick_tock),
            final(self).presets@ == Seq::<ContinuumPreset>::empty(),
            *final(self) == (MatrixHandler {
                verb: act,
                done: false,
                gather_state: GatherState::Idle,
                bin_type: DataKind::Unknown,
                presets: final(self).presets,
                archive_state: ArchiveState::Unknown,
                tick_tock: start_tick_tock(act, old(self).tick_tock),
                next_bank: if act == Action::Clear {
                    1
                } else {
                    old(self).next_bank
                },
                receive_sync: old(self).receive_sync && act != Action::Clear,
                outbox: final(self).outbox,
                ..*old(self)
            }),
    {
        self.action_prelude(act);
        match act {
            Action::ListNames => {
                self.transmit_names();
                self.send_cc(CHANNEL16, CC_EDITOR_PRESENT, 85);
            },
            Action::SaveCurrent => {
                self.transmit_archive_current();
            },
            Action::Save => {
                self.transmit_names();
            },
            Action::Load => {},
            _ => {
                self.receive_sync = false;
                self.clear_bank(0);
                self.next_bank = 1;
            },
        }
        proof {
            assert(self.outbox@ =~= old(self).outbox@ + start_cmds(act, old(self).tick_tock));
        }
    }

    /// Queues one heartbeat and alternates its value.
    pub fn editor_present(&mut self)
        ensures
            final(self).outbox@ == old(self).outbox@.push(editor_present_cmd(old(self).tick_tock)),
            *final(self) == (MatrixHandler {
                outbox: final(self).outbox,
                tick_tock: !old(self).tick_tock,
                ..*old(self)
            }),
    {
        let value: u8 = if self.tick_tock {
            85
        } else {
            42
        };
        self.tick_tock = !self.tick_tock;
        self.send_cc(CHANNEL16, CC_EDITOR_PRESENT, value);
    }

    /// Selects the editing slot as the current preset.
    pub fn choose_edit_slot(&mut self)
        ensures
            final(self).outbox@ == old(self).outbox@ + seq![
                cc_cmd(CHANNEL16, CC_BANK_SELECT, 126),
                cc_cmd(CHANNEL16, CC_PRESET_GROUP, 0),
                pc_cmd(CHANNEL16, 0),
            ],
            *final(self) == (MatrixHandler { outbox: final(self).outbox, ..*old(self) }),
    {
        self.send_cc(CHANNEL16, CC_BANK_SELECT, 126);
        self.send_cc(CHANNEL16, CC_PRESET_GROUP, 0);
        self.send_pc(CHANNEL16, 0);
        proof {
            assert(self.outbox@ =~= old(self).outbox@ + seq![
                cc_cmd(CHANNEL16, CC_BANK_SELECT, 126),
                cc_cmd(CHANNEL16, CC_PRESET_GROUP, 0),
                pc_cmd(CHANNEL16, 0),
            ]);
        }
    }

    /// Commits the received preset to the editing slot.
    pub fn set_edit_slot(&mut self)
        ensures
            final(self).outbox@ == old(self).outbox@ + seq![
                cc_cmd(CHANNEL16, CC_BANK_SELECT, 126),
                cc_cmd(CHANNEL16, CC_PRESET_GROUP, 0),
                pc_cmd(CHANNEL15, 1),
            ],
            *final(self) == (MatrixHandler { outbox: final(self).outbox, ..*old(self) }),
    {
        self.send_cc(CHANNEL16, CC_BANK_SELECT, 126);
        self.send_cc(CHANNEL16, CC_PRESET_GROUP, 0);
        self.send_pc(CHANNEL15, 1);
        proof {
            assert(self.outbox@ =~= old(self).outbox@ + seq![
                cc_cmd(CHANNEL16, CC_BANK_SELECT, 126),
                cc_cmd(CHANNEL16, CC_PRESET_GROUP, 0),
                pc_cmd(CHANNEL15, 1),
            ]);
        }
    }

    /// Selects a stored preset as the current preset.
    pub fn choose_preset(&mut self, index: u8)
        requires
            index < 128,
        ensures
            final(self).outbox@ == old(self).outbox@ + seq![
                cc_cmd(CHANNEL16, CC_BANK_SELECT, 0),
                cc_cmd(CHANNEL16, CC_PRESET_GROUP, 0),
                pc_cmd(CHANNEL16, index),
            ],
            *final(self) == (MatrixHandler { outbox: final(self).outbox, ..*old(self) }),
    {
        self.send_cc(CHANNEL16, CC_BANK_SELECT, 0);
        self.send_cc(CHANNEL16, CC_PRESET_GROUP, 0);
        self.send_pc(CHANNEL16, index);
        proof {
            assert(self.outbox@ =~= old(self).outbox@ + seq![
                cc_cmd(CHANNEL16, CC_BANK_SELECT, 0),
                cc_cmd(CHANNEL16, CC_PRESET_GROUP, 0),
                pc_cmd(CHANNEL16, index),
            ]);
        }
    }

    /// Commits the received preset to a stored slot.
    pub fn set_slot(&mut self, index: u8)
        requires
            index < 128,
        ensures
            final(self).outbox@ == old(self).outbox@ + seq![
                cc_cmd(CHANNEL16, CC_BANK_SELECT, 0),
                cc_cmd(CHANNEL16, CC_PRESET_GROUP, 0),
                pc_cmd(CHANNEL15, index),
            ],
            *final(self) == (MatrixHandler { outbox: final(self).outbox, ..*old(self) }),
    {
        self.send_cc(CHANNEL16, CC_BANK_SELECT, 0);
        self.send_cc(CHANNEL16, CC_PRESET_GROUP, 0);
        self.send_pc(CHANNEL15, index);
        proof {
            assert(self.outbox@ =~= old(self).outbox@ + seq![
                cc_cmd(CHANNEL16, CC_BANK_SELECT, 0),
                cc_cmd(CHANNEL16, CC_PRESET_GROUP, 0),
                pc_cmd(CHANNEL15, index),
            ]);
        }
    }

    /// Handles one inbound control change. While an archive transfer is in
    /// progress the event is also captured verbatim. On the management
    /// channel the value drives the sub-protocol state; ending a binary
    /// data stream returns the gathered payload.
    pub fn on_control_change(&mut self, ticks: i64, channel: u8, cc: u8, value: u8) -> (flushed:
        Option<(DataKind, Vec<u8>)>)
        requires
            old(self).wf(),
            ticks >= 0,
            channel < 16,
            cc < 128,
            value < 128,
            old(self).in_archive ==> ticks >= old(self).midi_file@.last_tick,
        ensures
            final(self).wf(),
            final(self).midi_file@ == (if channel == CHANNEL16 && cc == CC_DOWNLOAD_INFO && value
                == DOWNLOAD_INFO_BEGIN_ARCHIVE && is_saving_spec(old(self).verb) {
                MidiFileView { bytes: Seq::<u8>::empty(), running: 0, last_tick: 0 }
            } else {
                archive_step(
                    old(self).midi_file@,
                    old(self).in_archive,
                    ticks,
                    cc_cmd(channel, cc, value),
                )
            }),
            channel != CHANNEL16 ==> flushed is None && *final(self) == (MatrixHandler {
                midi_file: final(self).midi_file,
                ..*old(self)
            }),
            channel == CHANNEL16 && cc == CC_BANK_SELECT ==> flushed is None && final(self).preset_builder@ == (PresetBuilderView {
                bank_hi: value,
                ..old(self).preset_builder@
            }) && *final(self) == (MatrixHandler {
                preset_builder: final(self).preset_builder,
                midi_file: final(self).midi_file,
                ..*old(self)
            }),
            channel == CHANNEL16 && cc == CC_PRESET_GROUP ==> flushed is None && final(self).preset_builder@ == (PresetBuilderView {
                bank_lo: value,
                ..old(self).preset_builder@
            }) && *final(self) == (MatrixHandler {
                preset_builder: final(self).preset_builder,
                midi_file: final(self).midi_file,
                ..*old(self)
            }),
            channel == CHANNEL16 && cc == CC_DATA_STREAM && value == DATA_STREAM_END ==> (if old(self).gather_state == GatherState::Binary {
                flushed is Some && (flushed->0).0 == old(self).bin_type && (flushed->0).1@
                    == flush_result(old(self).bin_build@) && final(self).bin_build@ == fresh_gather(
                    true,
                ) && *final(self) == (MatrixHandler {
                    gather_state: GatherState::Idle,
                    bin_build: final(self).bin_build,
                    midi_file: final(self).midi_file,
                    ..*old(self)
                })
            } else {
                flushed is None && *final(self) == (MatrixHandler {
                    gather_state: GatherState::Idle,
                    midi_file: final(self).midi_file,
                    ..*old(self)
                })
            }),
            channel == CHANNEL16 && cc == CC_DATA_STREAM && value != DATA_STREAM_END ==> flushed
                is None && (if gather_for(data_kind_of(value)) == GatherState::Binary {
                final(self).bin_build@ == fresh_gather(false) && *final(self) == (MatrixHandler {
                    bin_type: data_kind_of(value),
                    gather_state: gather_for(data_kind_of(value)),
                    bin_build: final(self).bin_build,
                    midi_file: final(self).midi_file,
                    ..*old(self)
                })
            } else {
                *final(self) == (MatrixHandler {
                    bin_type: data_kind_of(value),
                    gather_state: gather_for(data_kind_of(value)),
                    midi_file: final(self).midi_file,
                    ..*old(self)
                })
            }),
            channel == CHANNEL16 && cc == CC_DOWNLOAD_CONTROL ==> flushed is None && ({
                if value == DOWNLOAD_CONTROL_ARCHIVE_OK {
                    *final(self) == (MatrixHandler {
                        archive_state: ArchiveState::Success,
                        done: old(self).done || old(self).verb == Action::Load,
                        midi_file: final(self).midi_file,
                        ..*old(self)
                    })
                } else if value == DOWNLOAD_CONTROL_ARCHIVE_FAIL {
                    *final(self) == (MatrixHandler {
                        archive_state: ArchiveState::Failure,
                        done: old(self).done || old(self).verb == Action::Load,
                        midi_file: final(self).midi_file,
                        ..*old(self)
                    })
                } else if value == DOWNLOAD_CONTROL_DSP_DONE {
                    if old(self).verb == Action::Clear && old(self).next_bank < 8 {
                        final(self).outbox@ == old(self).outbox@.push(
                            cc_cmd(
                                CHANNEL16,
                                CC_DOWNLOAD_CONTROL,
                                (DOWNLOAD_CONTROL_ERASE_BANK0 + old(self).next_bank) as u8,
                            ),
                        ) && *final(self) == (MatrixHandler {
                            receive_sync: false,
                            next_bank: (old(self).next_bank + 1) as u8,
                            outbox: final(self).outbox,
                            midi_file: final(self).midi_file,
                            ..*old(self)
                        })
                    } else if old(self).verb == Action::Clear {
                        *final(self) == (MatrixHandler {
                            receive_sync: true,
                            next_bank: u8::MAX,
                            done: true,
                            midi_file: final(self).midi_file,
                            ..*old(self)
                        })
                    } else {
                        *final(self) == (MatrixHandler {
                            receive_sync: true,
                            midi_file: final(self).midi_file,
                            ..*old(self)
                        })
                    }
                } else if value == DOWNLOAD_CONTROL_NOT_FIRST || value
                    == DOWNLOAD_CONTROL_FIRST_OF_TWO || value == DOWNLOAD_CONTROL_FIRST_OF_THREE {
                    final(self).preset_builder@ == (PresetBuilderView {
                        nofn: if value == DOWNLOAD_CONTROL_FIRST_OF_TWO {
                            NofN::Double
                        } else if value == DOWNLOAD_CONTROL_FIRST_OF_THREE {
                            NofN::Triple
                        } else {
                            NofN::Single
                        },
                        ..old(self).preset_builder@
                    }) && *final(self) == (MatrixHandler {
                        preset_builder: final(self).preset_builder,
                        midi_file: final(self).midi_file,
                        ..*old(self)
                    })
                } else if value == DOWNLOAD_CONTROL_BEGIN_USER_NAMES || value
                    == DOWNLOAD_CONTROL_BEGIN_SYSTEM_NAMES {
                    *final(self) == (MatrixHandler {
                        in_preset_names: true,
                        midi_file: final(self).midi_file,
                        ..*old(self)
                    })
                } else if value == DOWNLOAD_CONTROL_END_USER_NAMES || value
                    == DOWNLOAD_CONTROL_END_SYSTEM_NAMES {
                    *final(self) == (MatrixHandler {
                        in_preset_names: false,
                        done: true,
                        midi_file: final(self).midi_file,
                        ..*old(self)
                    })
                } else {
                    *final(self) == (MatrixHandler {
                        midi_file: final(self).midi_file,
                        ..*old(self)
                    })
                }
            }),
            channel == CHANNEL16 && cc == CC_DOWNLOAD_INFO ==> flushed is None && ({
                if value == DOWNLOAD_INFO_BEGIN_ARCHIVE && is_saving_spec(old(self).verb) {
                    *final(self) == (MatrixHandler {
                        in_archive: true,
                        midi_file: final(self).midi_file,
                        ..*old(self)
                    })
                } else if value == DOWNLOAD_INFO_END_ARCHIVE && is_saving_spec(old(self).verb) {
                    *final(self) == (MatrixHandler {
                        in_archive: false,
                        done: true,
                        midi_file: final(self).midi_file,
                        ..*old(self)
                    })
                } else {
                    *final(self) == (MatrixHandler {
                        midi_file: final(self).midi_file,
                        ..*old(self)
                    })
                }
            }),
            channel == CHANNEL16 && cc != CC_BANK_SELECT && cc != CC_PRESET_GROUP && cc
                != CC_DATA_STREAM && cc != CC_DOWNLOAD_CONTROL && cc != CC_DOWNLOAD_INFO
                ==> flushed is None && *final(self) == (MatrixHandler {
                midi_file: final(self).midi_file,
                ..*old(self)
            }),
    {
        if self.in_archive {
            self.midi_file.add_event(ticks, MidiEvent::ControlChange { channel, cc, value });
        }
        if channel != CHANNEL16 {
            return None;
        }
        if cc == CC_BANK_SELECT {
            self.preset_builder.set_bank_hi(value);
            None
        } else if cc == CC_PRESET_GROUP {
            self.preset_builder.set_bank_lo(value);
            None
        } else if cc == CC_DATA_STREAM {
            if value == DATA_STREAM_END {
                if let GatherState::Binary = self.gather_state {
                    let bytes = self.bin_build.flush();
                    self.gather_state = GatherState::Idle;
                    Some((self.bin_type, bytes))
                } else {
                    self.gather_state = GatherState::Idle;
                    None
                }
            } else {
                self.bin_type = DataKind::new(value);
                let gather = match self.bin_type {
                    DataKind::Name => GatherState::Name,
                    DataKind::ControlText => GatherState::Text,
                    DataKind::Category => GatherState::Category,
                    _ => GatherState::Binary,
                };
                self.gather_state = gather;
                if let GatherState::Binary = gather {
                    self.bin_build.start(false);
                }
                None
            }
        } else if cc == CC_DOWNLOAD_CONTROL {
            if value == DOWNLOAD_CONTROL_ARCHIVE_OK {
                self.archive_state = ArchiveState::Success;
                if let Action::Load = self.verb {
                    self.done = true;
                }
            } else if value == DOWNLOAD_CONTROL_ARCHIVE_FAIL {
                self.archive_state = ArchiveState::Failure;
                if let Action::Load = self.verb {
                    self.done = true;
                }
            } else if value == DOWNLOAD_CONTROL_DSP_DONE {
                self.receive_sync = true;
                if let Action::Clear = self.verb {
                    if self.next_bank < 8 {
                        self.receive_sync = false;
                        let bank = self.next_bank;
                        self.clear_bank(bank);
                        self.next_bank = self.next_bank + 1;
                    } else {
                        self.next_bank = u8::MAX;
                        self.done = true;
                    }
                }
            } else if value == DOWNLOAD_CONTROL_NOT_FIRST {
                self.preset_builder.set_nofn(NofN::Single);
            } else if value == DOWNLOAD_CONTROL_FIRST_OF_TWO {
                self.preset_builder.set_nofn(NofN::Double);
            } else if value == DOWNLOAD_CONTROL_FIRST_OF_THREE {
                self.preset_builder.set_nofn(NofN::Triple);
            } else if value == DOWNLOAD_CONTROL_BEGIN_USER_NAMES || value
                == DOWNLOAD_CONTROL_BEGIN_SYSTEM_NAMES {
                self.in_preset_names = true;
            } else if value == DOWNLOAD_CONTROL_END_USER_NAMES || value
                == DOWNLOAD_CONTROL_END_SYSTEM_NAMES {
                self.in_preset_names = false;
                self.done = true;
            }
            None
        } else if cc == CC_DOWNLOAD_INFO {
            if value == DOWNLOAD_INFO_BEGIN_ARCHIVE {
                if self.is_saving() {
                    self.in_archive = true;
                    self.midi_file.clear();
                }
            } else if value == DOWNLOAD_INFO_END_ARCHIVE {
                if self.is_saving() {
                    self.in_archive = false;
                    self.done = true;
                }
            }
            None
        } else {
            None
        }
    }

    /// Handles one inbound program change. On the management channel it
    /// supplies the preset number and finalizes the gathered preset: while
    /// names are being listed the preset is buffered unless it is the
    /// empty-slot sentinel `-`; otherwise the preset is handed back for
    /// display. A load operation is satisfied once two presets have been
    /// seen.
    pub fn on_program_change(&mut self, ticks: i64, channel: u8, program: u8) -> (completed:
        Option<ContinuumPreset>)
        requires
            old(self).wf(),
            ticks >= 0,
            channel < 16,
            program < 128,
            old(self).in_archive ==> ticks >= old(self).midi_file@.last_tick,
        ensures
            final(self).wf(),
            final(self).midi_file@ == archive_step(
                old(self).midi_file@,
                old(self).in_archive,
                ticks,
                pc_cmd(channel, program),
            ),
            channel != CHANNEL16 ==> completed is None && *final(self) == (MatrixHandler {
                midi_file: final(self).midi_file,
                ..*old(self)
            }),
            channel == CHANNEL16 ==> ({
                let gathered = PresetBuilderView { number: program, ..old(self).preset_builder@ };
                &&& final(self).preset_builder.is_reset()
                &&& final(self).done == (old(self).done || (old(self).verb == Action::Load && final(self).presets@.len() == 2))
                &&& *final(self) == (MatrixHandler {
                    preset_builder: final(self).preset_builder,
                    presets: final(self).presets,
                    done: final(self).done,
                    midi_file: final(self).midi_file,
                    ..*old(self)
                })
                &&& (gathered.name.len() == 0 ==> completed is None && final(self).presets@ == old(self).presets@)
                &&& (gathered.name.len() > 0 && old(self).in_preset_names ==> completed is None && (
                if gathered.name == seq!['-'] {
                    final(self).presets@ == old(self).presets@
                } else {
                    final(self).presets@.len() == old(self).presets@.len() + 1 && final(self).presets@.subrange(0, old(self).presets@.len() as int) == old(self).presets@
                        && preset_matches(final(self).presets@.last(), gathered)
                }))
                &&& (gathered.name.len() > 0 && !old(self).in_preset_names ==> final(self).presets@
                    == old(self).presets@ && completed is Some && preset_matches(
                    completed->0,
                    gathered,
                ))
            }),
    {
        if self.in_archive {
            self.midi_file.add_event(ticks, MidiEvent::ProgramChange { channel, program });
        }
        if channel != CHANNEL16 {
            return None;
        }
        self.preset_builder.set_number(program);
        let mut completed: Option<ContinuumPreset> = None;
        if let Some(preset) = self.preset_builder.finish() {
            proof {
                reveal_strlit("-");
                assert("-"@ =~= seq!['-']);
            }
            if self.in_preset_names {
                if !crate::util::str_eq_chars(preset.name.as_str(), "-") {
                    self.presets.push(preset);
                }
            } else {
                completed = Some(preset);
            }
        }
        if self.verb == Action::Load && 2 == self.presets.len() {
            self.done = true;
        }
        completed
    }

    /// Handles one inbound channel pressure byte. On the management channel
    /// it lands in whichever field the current gather state designates, or
    /// feeds the binary gatherer.
    pub fn on_channel_pressure(&mut self, ticks: i64, channel: u8, pressure: u8)
        requires
            old(self).wf(),
            ticks >= 0,
            channel < 16,
            pressure < 128,
            old(self).in_archive ==> ticks >= old(self).midi_file@.last_tick,
        ensures
            final(self).wf(),
            final(self).midi_file@ == archive_step(
                old(self).midi_file@,
                old(self).in_archive,
                ticks,
                cp_cmd(channel, pressure),
            ),
            channel != CHANNEL16 ==> *final(self) == (MatrixHandler {
                midi_file: final(self).midi_file,
                ..*old(self)
            }),
            channel == CHANNEL16 ==> match old(self).gather_state {
                GatherState::Name => final(self).preset_builder@ == (PresetBuilderView {
                    name: old(self).preset_builder@.name.push(pressure as char),
                    ..old(self).preset_builder@
                }) && *final(self) == (MatrixHandler {
                    preset_builder: final(self).preset_builder,
                    midi_file: final(self).midi_file,
                    ..*old(self)
                }),
                GatherState::Text => final(self).preset_builder@ == (PresetBuilderView {
                    text: old(self).preset_builder@.text.push(pressure as char),
                    ..old(self).preset_builder@
                }) && *final(self) == (MatrixHandler {
                    preset_builder: final(self).preset_builder,
                    midi_file: final(self).midi_file,
                    ..*old(self)
                }),
                GatherState::Category => final(self).preset_builder@ == (PresetBuilderView {
                    category: old(self).preset_builder@.category.push(pressure as char),
                    ..old(self).preset_builder@
                }) && *final(self) == (MatrixHandler {
                    preset_builder: final(self).preset_builder,
                    midi_file: final(self).midi_file,
                    ..*old(self)
                }),
                GatherState::Binary => final(self).bin_build@ == bin_add_step(
                    old(self).bin_build@,
                    pressure,
                ) && *final(self) == (MatrixHandler {
                    bin_build: final(self).bin_build,
                    midi_file: final(self).midi_file,
                    ..*old(self)
                }),
                GatherState::Idle => *final(self) == (MatrixHandler {
                    midi_file: final(self).midi_file,
                    ..*old(self)
                }),
            },
    {
        if self.in_archive {
            self.midi_file.add_event(ticks, MidiEvent::ChannelPressure { channel, pressure });
        }
        if channel != CHANNEL16 {
            return ;
        }
        match self.gather_state {
            GatherState::Name => {
                self.preset_builder.name_add(pressure as char);
            },
            GatherState::Text => {
                self.preset_builder.text_add(pressure as char);
            },
            GatherState::Category => {
                self.preset_builder.category_add(pressure as char);
            },
            GatherState::Binary => {
                self.bin_build.add(pressure);
            },
            GatherState::Idle => {},
        }
    }

    /// Queues the erase command for one zero-based user bank.
    pub fn clear_bank(&mut self, bank: u8)
        requires
            bank < 8,
        ensures
            final(self).outbox@ == old(self).outbox@.push(
                cc_cmd(CHANNEL16, CC_DOWNLOAD_CONTROL, (DOWNLOAD_CONTROL_ERASE_BANK0 + bank) as u8),
            ),
            *final(self) == (MatrixHandler { outbox: final(self).outbox, ..*old(self) }),
    {
        self.send_cc(CHANNEL16, CC_DOWNLOAD_CONTROL, DOWNLOAD_CONTROL_ERASE_BANK0 + bank);
    }
}

} // verus!
