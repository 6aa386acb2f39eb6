//! The archive writer: builds a single-track Standard-MIDI-File byte stream
//! from channel voice messages, with running-status compression and
//! variable-length delta times.

use vstd::prelude::*;
use crate::midi::{u32_be_bytes, vlq_encode, VariableLengthValue, VARLEN_MAX};
use crate::midi_event::{event_data, event_status, status_byte, wf_event, MidiEvent};

verus! {

/// Milliseconds per musical tick: 500000 us per beat over 96 ticks per
/// beat is 125/24 ms per tick, so `ms` milliseconds are `ms * 24 / 125`
/// ticks.
pub open spec fn delta_ticks_of_ms(ms: nat) -> nat {
    ms * 24 / 125
}

/// The two big-endian bytes of a 16-bit value.
pub open spec fn u16_be_bytes(v: u16) -> Seq<u8> {
    seq![(v / 0x100) as u8, (v % 0x100) as u8]
}

/// The fixed file header: `MThd`, length 6, format 0, one track, 96 ticks
/// per beat.
pub open spec fn file_header() -> Seq<u8> {
    seq![0x4Du8, 0x54, 0x68, 0x64, 0, 0, 0, 6, 0, 0, 0, 1, 0, 96]
}

/// The track chunk header: `MTrk` and the length of the event bytes.
pub open spec fn track_header(length: u32) -> Seq<u8> {
    seq![0x4Du8, 0x54, 0x72, 0x6B] + u32_be_bytes(length)
}

/// The fixed end-of-track marker: a zero delta time and the meta event.
pub open spec fn end_of_track() -> Seq<u8> {
    seq![0u8, 0xFF, 0x2F, 0x00]
}

/// A whole archive file around the accumulated track bytes.
pub open spec fn file_bytes(track: Seq<u8>) -> Seq<u8> {
    file_header() + track_header(track.len() as u32) + track + end_of_track()
}

/// The delta-time bytes for an event at `tick` when the previous tick was
/// `last`. The first event of a track (marked by the zero sentinel) gets
/// delta zero; a delta too large for a variable-length quantity is
/// dropped.
pub open spec fn tick_bytes(last: i64, tick: i64) -> Seq<u8> {
    if last == 0 {
        vlq_encode(0)
    } else {
        let d = delta_ticks_of_ms((tick - last) as nat);
        if d <= VARLEN_MAX {
            vlq_encode(d)
        } else {
            Seq::empty()
        }
    }
}

/// The previous-tick state after an event at `tick`: it advances only when
/// the event's delta rounded to at least one tick.
pub open spec fn tick_next_last(last: i64, tick: i64) -> i64 {
    if last == 0 {
        tick
    } else if delta_ticks_of_ms((tick - last) as nat) > 0 {
        tick
    } else {
        last
    }
}

/// The status byte of a message, or nothing when running status elides it.
pub open spec fn running_status_bytes(running: u8, status: u8) -> Seq<u8> {
    if status == running {
        Seq::empty()
    } else {
        seq![status]
    }
}

/// All bytes one message appends to the track.
pub open spec fn message_bytes(
    last: i64,
    running: u8,
    tick: i64,
    status: u8,
    data: Seq<u8>,
) -> Seq<u8> {
    tick_bytes(last, tick) + running_status_bytes(running, status) + data
}

/// All bytes one event appends to the track.
pub open spec fn event_bytes(last: i64, running: u8, tick: i64, e: MidiEvent) -> Seq<u8> {
    message_bytes(last, running, tick, event_status(e), event_data(e))
}

/// The track bytes of a whole event sequence written in order, starting
/// from the given previous-tick and running-status state.
pub open spec fn track_of(evs: Seq<(i64, MidiEvent)>, last: i64, running: u8) -> Seq<u8>
    decreases evs.len(),
{
    if evs.len() == 0 {
        Seq::empty()
    } else {
        event_bytes(last, running, evs[0].0, evs[0].1) + track_of(
            evs.skip(1),
            tick_next_last(last, evs[0].0),
            event_status(evs[0].1),
        )
    }
}

/// The delta value an event at `tick` is written with.
pub open spec fn tick_delta_value(last: i64, tick: i64) -> u32 {
    if last == 0 {
        0
    } else {
        delta_ticks_of_ms((tick - last) as nat) as u32
    }
}

/// A writable event sequence from the given previous-tick state: events
/// are well formed, ticks never decrease, and every delta fits in a
/// variable-length quantity.
pub open spec fn wf_track(evs: Seq<(i64, MidiEvent)>, last: i64) -> bool
    decreases evs.len(),
{
    if evs.len() == 0 {
        true
    } else {
        let t = evs[0].0;
        &&& wf_event(evs[0].1)
        &&& t >= 0
        &&& (last != 0 ==> t >= last && delta_ticks_of_ms((t - last) as nat) <= VARLEN_MAX)
        &&& wf_track(evs.skip(1), tick_next_last(last, t))
    }
}

proof fn lemma_delta_ticks_monotonic(a: nat, b: nat)
    requires
        a <= b,
    ensures
        delta_ticks_of_ms(a) <= delta_ticks_of_ms(b),
{
    vstd::arithmetic::div_mod::lemma_div_is_ordered((a * 24) as int, (b * 24) as int, 125);
}

/// A sequence of well-formed events whose ticks are non-negative,
/// non-decreasing, and small enough for every delta to be encodable is
/// writable from any starting state at or before its first tick.
pub proof fn lemma_wf_track_of_monotonic(evs: Seq<(i64, MidiEvent)>, last: i64)
    requires
        last >= 0,
        evs.len() > 0 && last != 0 ==> last <= evs[0].0,
        forall|k: int| 0 <= k < evs.len() ==> wf_event(#[trigger] evs[k].1),
        forall|k: int| 0 <= k < evs.len() ==> (#[trigger] evs[k].0) >= 0,
        forall|k: int| 0 <= k < evs.len() - 1 ==> #[trigger] evs[k].0 <= evs[k + 1].0,
        forall|k: int|
            0 <= k < evs.len() ==> delta_ticks_of_ms((#[trigger] evs[k].0) as nat) <= VARLEN_MAX,
    ensures
        wf_track(evs, last),
    decreases evs.len(),
{
    if evs.len() > 0 {
        let t = evs[0].0;
        if last != 0 {
            lemma_delta_ticks_monotonic((t - last) as nat, t as nat);
        }
        let last2 = tick_next_last(last, t);
        let rest = evs.skip(1);
        assert(forall|k: int| 0 <= k < rest.len() ==> rest[k] == evs[k + 1]);
        assert(last2 == t || last2 == last);
        assert(rest.len() > 0 && last2 != 0 ==> last2 <= rest[0].0);
        lemma_wf_track_of_monotonic(rest, last2);
    }
}

/// The law of running-status compression: an event whose status byte
/// equals the running status is written without any status byte, so the
/// same status is never emitted twice in a row.
pub proof fn lemma_running_status_compression(last: i64, running: u8, tick: i64, e: MidiEvent)
    requires
        event_status(e) == running,
    ensures
        event_bytes(last, running, tick, e) == tick_bytes(last, tick) + event_data(e),
{
    assert(event_bytes(last, running, tick, e) =~= tick_bytes(last, tick) + event_data(e));
}

/// The archive writer. Accumulates the track bytes of one preset transfer;
/// `finish` wraps them in the file and track headers.
pub struct MidiFile {
    running_status: u8,
    bytes: Vec<u8>,
    last_tick: i64,
}

/// The abstract state of the writer: the accumulated track bytes, the last
/// status byte written, and the tick of the previous event.
pub ghost struct MidiFileView {
    pub bytes: Seq<u8>,
    pub running: u8,
    pub last_tick: i64,
}

impl View for MidiFile {
    type V = MidiFileView;

    closed spec fn view(&self) -> MidiFileView {
        MidiFileView { bytes: self.bytes@, running: self.running_status, last_tick: self.last_tick }
    }
}

impl Default for MidiFile {
    fn default() -> (r: Self)
        ensures
            r.spec_bytes() == Seq::<u8>::empty(),
            r.spec_running() == 0,
            r.spec_last_tick() == 0,
    {
        MidiFile { running_status: 0, bytes: Vec::new(), last_tick: 0 }
    }
}

impl MidiFile {
    /// The accumulated track bytes.
    pub open spec fn spec_bytes(&self) -> Seq<u8> {
        self@.bytes
    }

    /// The last status byte written, zero before the first.
    pub open spec fn spec_running(&self) -> u8 {
        self@.running
    }

    /// The tick of the previous event, zero before the first.
    pub open spec fn spec_last_tick(&self) -> i64 {
        self@.last_tick
    }

    pub fn new() -> (r: Self)
        ensures
            r.spec_bytes() == Seq::<u8>::empty(),
            r.spec_running() == 0,
            r.spec_last_tick() == 0,
    {
        MidiFile { running_status: 0, bytes: Vec::new(), last_tick: 0 }
    }

    /// Discards the accumulated bytes and the delta-time and
    /// running-status state.
    pub fn clear(&mut self)
        ensures
            final(self).spec_bytes() == Seq::<u8>::empty(),
            final(self).spec_running() == 0,
            final(self).spec_last_tick() == 0,
    {
        self.bytes.clear();
        self.running_status = 0;
        self.last_tick = 0;
    }

    fn add_file_header(bytes: &mut Vec<u8>)
        ensures
            final(bytes)@ == old(bytes)@ + file_header(),
    {
        bytes.push(0x4D);
        bytes.push(0x54);
        bytes.push(0x68);
        bytes.push(0x64);
        Self::add_u32(bytes, 6);
        Self::add_word(bytes, 0);
        Self::add_word(bytes, 1);
        Self::add_word(bytes, 96);
        proof {
            assert(bytes@ =~= old(bytes)@ + file_header());
        }
    }

    fn add_track_header(bytes: &mut Vec<u8>, length: u32)
        ensures
            final(bytes)@ == old(bytes)@ + track_header(length),
    {
        bytes.push(0x4D);
        bytes.push(0x54);
        bytes.push(0x72);
        bytes.push(0x6B);
        Self::add_u32(bytes, length);
        proof {
            assert(bytes@ =~= old(bytes)@ + track_header(length));
        }
    }

    fn add_end_of_track(bytes: &mut Vec<u8>)
        ensures
            final(bytes)@ == old(bytes)@ + end_of_track(),
    {
        bytes.push(0);
        bytes.push(0xFF);
        bytes.push(0x2F);
        bytes.push(0);
        proof {
            assert(bytes@ =~= old(bytes)@ + end_of_track());
        }
    }

    fn add_word(bytes: &mut Vec<u8>, value: u16)
        ensures
            final(bytes)@ == old(bytes)@ + u16_be_bytes(value),
    {
        bytes.push((value / 0x100) as u8);
        bytes.push((value % 0x100) as u8);
        proof {
            assert(bytes@ =~= old(bytes)@ + u16_be_bytes(value));
        }
    }

    fn add_u32(bytes: &mut Vec<u8>, value: u32)
        ensures
            final(bytes)@ == old(bytes)@ + u32_be_bytes(value),
    {
        proof {
            assert(value / 0x100_0000 < 0x100 && (value / 0x1_0000) % 0x100 < 0x100 && (value
                / 0x100) % 0x100 < 0x100 && value % 0x100 < 0x100) by (bit_vector);
        }
        bytes.push((value / 0x100_0000) as u8);
        bytes.push(((value / 0x1_0000) % 0x100) as u8);
        bytes.push(((value / 0x100) % 0x100) as u8);
        bytes.push((value % 0x100) as u8);
        proof {
            assert(bytes@ =~= old(bytes)@ + u32_be_bytes(value));
        }
    }

    /// Appends the variable-length encoding of `value`, or nothing when the
    /// value cannot be encoded.
    pub fn add_var_len(&mut self, value: u32)
        ensures
            value <= VARLEN_MAX ==> final(self).spec_bytes() == old(self).spec_bytes()
                + vlq_encode(value as nat),
            value > VARLEN_MAX ==> final(self).spec_bytes() == old(self).spec_bytes(),
            final(self).spec_running() == old(self).spec_running(),
            final(self).spec_last_tick() == old(self).spec_last_tick(),
    {
        if let Ok(encoded) = VariableLengthValue::encode(value) {
            let mut k: usize = 0;
            while k < encoded.len()
                invariant
                    k <= encoded.len(),
                    self.bytes@ == old(self).bytes@ + encoded@.take(k as int),
                    self.running_status == old(self).running_status,
                    self.last_tick == old(self).last_tick,
                decreases encoded.len() - k,
            {
                self.bytes.push(encoded[k]);
                proof {
                    assert(encoded@.take(k + 1) =~= encoded@.take(k as int).push(encoded@[k as int]));
                    assert(self.bytes@ =~= old(self).bytes@ + encoded@.take(k + 1));
                }
                k = k + 1;
            }
            proof {
                assert(encoded@.take(encoded@.len() as int) =~= encoded@);
            }
        }
    }

    /// `ms` milliseconds as whole musical ticks.
    fn msec_to_delta_ticks(ms: u64) -> (r: u64)
        ensures
            r == delta_ticks_of_ms(ms as nat),
    {
        let whole = ms / 125;
        let rest = ms % 125;
        proof {
            vstd::arithmetic::div_mod::lemma_div_is_ordered(
                ms as int,
                u64::MAX as int,
                125,
            );
            assert(ms as int * 24 == 24 * (rest as int) + (24 * (whole as int)) * 125)
                by (nonlinear_arith)
                requires
                    ms as int == 125 * (whole as int) + rest as int,
            ;
            vstd::arithmetic::div_mod::lemma_hoist_over_denominator(
                24 * (rest as int),
                24 * (whole as int),
                125,
            );
        }
        whole * 24 + rest * 24 / 125
    }

    /// The delta ticks from the previous event to `tick`.
    fn next_tick(&self, tick: i64) -> (r: u64)
        requires
            tick >= 0,
            tick >= self.spec_last_tick(),
            self.spec_last_tick() >= 0,
        ensures
            r == delta_ticks_of_ms((tick - self.spec_last_tick()) as nat),
    {
        Self::msec_to_delta_ticks((tick - self.last_tick) as u64)
    }

    /// Appends the delta time for an event at `tick` and advances the
    /// previous-tick state.
    pub fn add_tick(&mut self, tick: i64)
        requires
            tick >= 0,
            old(self).spec_last_tick() != 0 ==> tick >= old(self).spec_last_tick(),
            old(self).spec_last_tick() >= 0,
        ensures
            final(self).spec_bytes() == old(self).spec_bytes() + tick_bytes(
                old(self).spec_last_tick(),
                tick,
            ),
            final(self).spec_last_tick() == tick_next_last(old(self).spec_last_tick(), tick),
            final(self).spec_last_tick() >= 0,
            final(self).spec_running() == old(self).spec_running(),
    {
        if self.last_tick == 0 {
            self.last_tick = tick;
            self.add_var_len(0);
        } else {
            let next = self.next_tick(tick);
            if next <= VARLEN_MAX as u64 {
                self.add_var_len(next as u32);
            }
            if next > 0 {
                self.last_tick = tick;
            }
        }
    }

    /// Appends the status byte unless it repeats the running status.
    fn add_running_status(&mut self, status: u8)
        ensures
            final(self).spec_bytes() == old(self).spec_bytes() + running_status_bytes(
                old(self).spec_running(),
                status,
            ),
            final(self).spec_running() == status,
            final(self).spec_last_tick() == old(self).spec_last_tick(),
    {
        if status != self.running_status {
            self.running_status = status;
            self.bytes.push(status);
            proof {
                assert(self.bytes@ =~= old(self).bytes@ + running_status_bytes(
                    old(self).running_status,
                    status,
                ));
            }
        } else {
            proof {
                assert(self.bytes@ =~= old(self).bytes@ + running_status_bytes(
                    old(self).running_status,
                    status,
                ));
            }
        }
    }

    /// Appends one message with a single data byte.
    pub fn add_message_one(&mut self, ticks: i64, status: u8, byte: u8)
        requires
            ticks >= 0,
            old(self).spec_last_tick() != 0 ==> ticks >= old(self).spec_last_tick(),
            old(self).spec_last_tick() >= 0,
        ensures
            final(self).spec_bytes() == old(self).spec_bytes() + message_bytes(
                old(self).spec_last_tick(),
                old(self).spec_running(),
                ticks,
                status,
                seq![byte],
            ),
            final(self).spec_running() == status,
            final(self).spec_last_tick() == tick_next_last(old(self).spec_last_tick(), ticks),
            final(self).spec_last_tick() >= 0,
    {
        self.add_tick(ticks);
        self.add_running_status(status);
        self.bytes.push(byte);
        proof {
            assert(self.bytes@ =~= old(self).bytes@ + message_bytes(
                old(self).last_tick,
                old(self).running_status,
                ticks,
                status,
                seq![byte],
            ));
        }
    }

    /// Appends one message with two data bytes.
    pub fn add_message_two(&mut self, ticks: i64, status: u8, byte1: u8, byte2: u8)
        requires
            ticks >= 0,
            old(self).spec_last_tick() != 0 ==> ticks >= old(self).spec_last_tick(),
            old(self).spec_last_tick() >= 0,
        ensures
            final(self).spec_bytes() == old(self).spec_bytes() + message_bytes(
                old(self).spec_last_tick(),
                old(self).spec_running(),
                ticks,
                status,
                seq![byte1, byte2],
            ),
            final(self).spec_running() == status,
            final(self).spec_last_tick() == tick_next_last(old(self).spec_last_tick(), ticks),
            final(self).spec_last_tick() >= 0,
    {
        self.add_tick(ticks);
        self.add_running_status(status);
        self.bytes.push(byte1);
        self.bytes.push(byte2);
        proof {
            assert(self.bytes@ =~= old(self).bytes@ + message_bytes(
                old(self).last_tick,
                old(self).running_status,
                ticks,
                status,
                seq![byte1, byte2],
            ));
        }
    }

    /// Appends one channel voice event.
    pub fn add_event(&mut self, ticks: i64, event: MidiEvent)
        requires
            wf_event(event),
            ticks >= 0,
            old(self).spec_last_tick() != 0 ==> ticks >= old(self).spec_last_tick(),
            old(self).spec_last_tick() >= 0,
        ensures
            final(self).spec_bytes() == old(self).spec_bytes() + event_bytes(
                old(self).spec_last_tick(),
                old(self).spec_running(),
                ticks,
                event,
            ),
            final(self).spec_running() == event_status(event),
            final(self).spec_last_tick() == tick_next_last(old(self).spec_last_tick(), ticks),
            final(self).spec_last_tick() >= 0,
    {
        match event {
            MidiEvent::NoteOff { channel, note, velocity } => {
                self.add_message_two(ticks, status_byte(0x80, channel), note, velocity);
            },
            MidiEvent::NoteOn { channel, note, velocity } => {
                self.add_message_two(ticks, status_byte(0x90, channel), note, velocity);
            },
            MidiEvent::PolyphonicKeyPressure { channel, note, pressure } => {
                self.add_message_two(ticks, status_byte(0xA0, channel), note, pressure);
            },
            MidiEvent::ControlChange { channel, cc, value } => {
                self.add_message_two(ticks, status_byte(0xB0, channel), cc, value);
            },
            MidiEvent::ProgramChange { channel, program } => {
                self.add_message_one(ticks, status_byte(0xC0, channel), program);
            },
            MidiEvent::ChannelPressure { channel, pressure } => {
                self.add_message_one(ticks, status_byte(0xD0, channel), pressure);
            },
            MidiEvent::PitchBendChange { channel, bend } => {
                let byte2 = (bend & 0x7F) as u8;
                let byte1 = ((bend & 0x7F80) / 0x80) as u8;
                proof {
                    assert((bend & 0x7F) == bend % 0x80 && (bend & 0x7F80) / 0x80 == bend / 0x80
                        % 0x100 && bend / 0x80 % 0x100 == bend / 0x80) by (bit_vector)
                        requires
                            bend < 0x4000,
                    ;
                }
                self.add_message_two(ticks, status_byte(0xE0, channel), byte1, byte2);
            },
        }
    }

    /// Emits the finished file: the fixed header, a track header whose
    /// length field is the accumulated byte count, the accumulated bytes,
    /// and the end-of-track marker. Clears the writer.
    pub fn finish(&mut self) -> (result: Vec<u8>)
        requires
            old(self).spec_bytes().len() <= u32::MAX,
        ensures
            result@ == file_bytes(old(self).spec_bytes()),
            final(self).spec_bytes() == Seq::<u8>::empty(),
            final(self).spec_running() == 0,
            final(self).spec_last_tick() == 0,
    {
        let data_length = self.bytes.len();
        let mut result: Vec<u8> = Vec::new();
        Self::add_file_header(&mut result);
        Self::add_track_header(&mut result, data_length as u32);
        let mut k: usize = 0;
        while k < self.bytes.len()
            invariant
                k <= self.bytes@.len(),
                self.bytes@ == old(self).bytes@,
                result@ == file_header() + track_header(old(self).bytes@.len() as u32)
                    + self.bytes@.take(k as int),
            decreases self.bytes@.len() - k,
        {
            let b = self.bytes[k];
            result.push(b);
            proof {
                assert(self.bytes@.take(k + 1) =~= self.bytes@.take(k as int).push(
                    self.bytes@[k as int],
                ));
            }
            k = k + 1;
        }
        proof {
            assert(self.bytes@.take(self.bytes@.len() as int) =~= self.bytes@);
        }
        Self::add_end_of_track(&mut result);
        self.clear();
        proof {
            assert(result@ =~= file_bytes(old(self).bytes@));
        }
        result
    }
}

} // verus!
