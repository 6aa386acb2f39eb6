//! The archive reader: walks a single-track Standard-MIDI-File byte stream
//! event by event, resolving running status, and rejects anything that is
//! not a channel voice message.

use vstd::prelude::*;
use crate::midi::{
    lemma_varlen_round_trip, vlq_encode, vlq_step, vlq_value, VariableLengthValue, VARLEN_MAX,
};
use crate::midi_event::{event_data, event_status, wf_event, MidiEvent};
use crate::util::{hi_nybble, lo_nybble};
use crate::ArchiveError;

verus! {

/// The value and end position of the variable-length quantity starting at
/// `i`, accumulated into `acc`; `None` when the data ends first.
pub open spec fn parse_vlq(data: Seq<u8>, i: int, acc: u32) -> Option<(u32, int)>
    decreases data.len() - i,
{
    if i < 0 || i >= data.len() {
        None
    } else {
        let acc2 = vlq_step(acc, data[i]);
        if data[i] & 0x80 == 0 {
            Some((acc2, i + 1))
        } else {
            parse_vlq(data, i + 1, acc2)
        }
    }
}

/// What parsing one event yields.
pub enum ParseStep {
    /// A channel voice event, the position after it, and the running
    /// status from here on.
    Event { delta: u32, event: MidiEvent, next: int, status: u8 },
    /// The end-of-track meta event.
    End { next: int },
    /// The data is not a preset archive from here on.
    Fail { err: ArchiveError },
}

/// Parses the message whose status is `status` with its data bytes at `k`.
pub open spec fn parse_message(data: Seq<u8>, k: int, delta: u32, status: u8) -> ParseStep {
    if status == 0xFF {
        if k + 2 <= data.len() {
            if data[k] == 0x2F {
                ParseStep::End { next: k + 2 }
            } else {
                ParseStep::Fail { err: ArchiveError::UnsupportedStatus }
            }
        } else {
            ParseStep::Fail { err: ArchiveError::TruncatedTrack }
        }
    } else if status >= 0xF0 || status < 0x80 {
        ParseStep::Fail { err: ArchiveError::UnsupportedStatus }
    } else {
        let kind = status & 0xF0;
        let channel = status & 0x0F;
        if kind == 0xC0 || kind == 0xD0 {
            if k + 1 <= data.len() {
                let event = if kind == 0xC0 {
                    MidiEvent::ProgramChange { channel, program: data[k] }
                } else {
                    MidiEvent::ChannelPressure { channel, pressure: data[k] }
                };
                ParseStep::Event { delta, event, next: k + 1, status }
            } else {
                ParseStep::Fail { err: ArchiveError::TruncatedTrack }
            }
        } else {
            if k + 2 <= data.len() {
                let b1 = data[k];
                let b2 = data[k + 1];
                let event = if kind == 0x80 {
                    MidiEvent::NoteOff { channel, note: b1, velocity: b2 }
                } else if kind == 0x90 {
                    MidiEvent::NoteOn { channel, note: b1, velocity: b2 }
                } else if kind == 0xA0 {
                    MidiEvent::PolyphonicKeyPressure { channel, note: b1, pressure: b2 }
                } else if kind == 0xB0 {
                    MidiEvent::ControlChange { channel, cc: b1, value: b2 }
                } else {
                    MidiEvent::PitchBendChange {
                        channel,
                        bend: ((b1 & 0x7F) as u16 * 128 + (b2 & 0x7F) as u16) as u16,
                    }
                };
                ParseStep::Event { delta, event, next: k + 2, status }
            } else {
                ParseStep::Fail { err: ArchiveError::TruncatedTrack }
            }
        }
    }
}

/// Parses one event at `i`: a delta time, a status byte or the running
/// status, then the message.
pub open spec fn parse_event_at(data: Seq<u8>, i: int, running: u8) -> ParseStep {
    match parse_vlq(data, i, 0) {
        None => ParseStep::Fail { err: ArchiveError::TruncatedTrack },
        Some((delta, j)) => {
            if j >= data.len() {
                ParseStep::Fail { err: ArchiveError::TruncatedTrack }
            } else if data[j] & 0x80 != 0 {
                parse_message(data, j + 1, delta, data[j])
            } else {
                parse_message(data, j, delta, running)
            }
        },
    }
}

/// Milliseconds for a delta time, at 125/24 ms per tick.
pub open spec fn ms_of_delta(delta: u32) -> u64 {
    (delta as nat * 125 / 24) as u64
}

/// What one `next` call returns from the given position, and the position
/// and running status after it.
pub open spec fn reader_step(data: Seq<u8>, i: int, running: u8, end: int) -> (Result<
    Option<(u64, MidiEvent)>,
    ArchiveError,
>, int, u8) {
    if i >= end {
        (Ok(None), i, running)
    } else {
        match parse_event_at(data, i, running) {
            ParseStep::Fail { err } => (Err(err), i, running),
            ParseStep::End { next } => (Ok(None), next, 0xFF),
            ParseStep::Event { delta, event, next, status } => (
                Ok(Some((ms_of_delta(delta), event))),
                next,
                status,
            ),
        }
    }
}

/// The big-endian 32-bit value at `i`.
pub open spec fn be32_at(data: Seq<u8>, i: int) -> int {
    data[i] * 0x100_0000 + data[i + 1] * 0x1_0000 + data[i + 2] * 0x100 + data[i + 3]
}

/// The outcome of the header checks: the track's end position, or why the
/// data is not a preset archive.
pub open spec fn header_result(data: Seq<u8>) -> Result<int, ArchiveError> {
    if data.len() < 24 {
        Err(ArchiveError::NotAMidiFile)
    } else if !(data[0] == 0x4D && data[1] == 0x54 && data[2] == 0x68 && data[3] == 0x64) {
        Err(ArchiveError::NotAMidiFile)
    } else if !(data[14] == 0x4D && data[15] == 0x54 && data[16] == 0x72 && data[17] == 0x6B) {
        Err(ArchiveError::ExpectedTrackChunk)
    } else {
        Ok(22 + be32_at(data, 18))
    }
}

/// The archive reader.
pub struct ReadMidiFile {
    data: Vec<u8>,
    decoder: VariableLengthValue,
    running_status: u8,
    index: usize,
    end: u64,
}

impl ReadMidiFile {
    pub closed spec fn spec_data(&self) -> Seq<u8> {
        self.data@
    }

    pub closed spec fn spec_index(&self) -> int {
        self.index as int
    }

    pub closed spec fn spec_running(&self) -> u8 {
        self.running_status
    }

    pub closed spec fn spec_end(&self) -> int {
        self.end as int
    }

    /// Between calls the position is inside the data and the delta decoder
    /// is at rest.
    pub closed spec fn wf(&self) -> bool {
        &&& self.decoder.spec_pending()
        &&& self.decoder.spec_value() == 0
        &&& self.index <= self.data@.len()
        &&& (self.index == 0 ==> self.running_status == 0)
    }

    pub fn new(data: &[u8]) -> (r: Self)
        ensures
            r.wf(),
            r.spec_data() == data@,
            r.spec_index() == 0,
            r.spec_running() == 0,
            r.spec_end() == data@.len(),
    {
        let mut copy: Vec<u8> = Vec::new();
        let mut k: usize = 0;
        while k < data.len()
            invariant
                k <= data@.len(),
                copy@ == data@.take(k as int),
            decreases data@.len() - k,
        {
            copy.push(data[k]);
            proof {
                assert(data@.take(k + 1) =~= data@.take(k as int).push(data@[k as int]));
            }
            k = k + 1;
        }
        proof {
            assert(data@.take(data@.len() as int) =~= data@);
        }
        let end = copy.len() as u64;
        ReadMidiFile {
            data: copy,
            decoder: VariableLengthValue::new(),
            running_status: 0,
            index: 0,
            end,
        }
    }

    /// The byte at the position, which moves past it.
    fn next_byte(&mut self) -> (r: u8)
        requires
            old(self).spec_index() < old(self).spec_data().len(),
        ensures
            r == old(self).spec_data()[old(self).spec_index()],
            final(self).spec_index() == old(self).spec_index() + 1,
            final(self).spec_data() == old(self).spec_data(),
            final(self).spec_running() == old(self).spec_running(),
            final(self).spec_end() == old(self).spec_end(),
            final(self).decoder == old(self).decoder,
    {
        let next = self.data[self.index];
        let n = self.data.len();
        proof {
            assert(self.index < n);
        }
        self.index = self.index + 1;
        next
    }

    /// The big-endian 32-bit value at the position, which moves past it.
    fn next_u32(&mut self) -> (r: u32)
        requires
            old(self).spec_index() + 4 <= old(self).spec_data().len(),
        ensures
            r == be32_at(old(self).spec_data(), old(self).spec_index()),
            final(self).spec_index() == old(self).spec_index() + 4,
            final(self).spec_data() == old(self).spec_data(),
            final(self).spec_running() == old(self).spec_running(),
            final(self).spec_end() == old(self).spec_end(),
            final(self).decoder == old(self).decoder,
    {
        let b0 = self.next_byte();
        let b1 = self.next_byte();
        let b2 = self.next_byte();
        let b3 = self.next_byte();
        b0 as u32 * 0x100_0000 + b1 as u32 * 0x1_0000 + b2 as u32 * 0x100 + b3 as u32
    }

    /// The status in force at the position: a new status byte is consumed
    /// and remembered, anything else reuses the previous one.
    fn running_status(&mut self) -> (status: u8)
        requires
            old(self).wf(),
            old(self).spec_index() < old(self).spec_data().len(),
        ensures
            final(self).wf(),
            final(self).spec_data() == old(self).spec_data(),
            final(self).spec_end() == old(self).spec_end(),
            final(self).decoder == old(self).decoder,
            ({
                let b = old(self).spec_data()[old(self).spec_index()];
                if b & 0x80 != 0 {
                    status == b && final(self).spec_index() == old(self).spec_index() + 1
                        && final(self).spec_running() == b
                } else {
                    status == old(self).spec_running() && final(self).spec_index() == old(self).spec_index() && final(self).spec_running() == old(self).spec_running()
                }
            }),
    {
        let status = self.data[self.index];
        let n = self.data.len();
        proof {
            assert(self.index < n);
        }
        if crate::util::is_bit8(status) {
            self.index = self.index + 1;
            self.running_status = status;
            status
        } else {
            self.running_status
        }
    }

    /// Reads one variable-length quantity at the position.
    fn read_var_len(&mut self) -> (r: Result<u32, ArchiveError>)
        requires
            old(self).wf(),
        ensures
            final(self).wf(),
            final(self).spec_data() == old(self).spec_data(),
            final(self).spec_end() == old(self).spec_end(),
            final(self).spec_running() == old(self).spec_running(),
            match parse_vlq(old(self).spec_data(), old(self).spec_index(), 0) {
                Some((v, j)) => r == Ok::<u32, ArchiveError>(v) && final(self).spec_index() == j,
                None => r == Err::<u32, ArchiveError>(ArchiveError::TruncatedTrack),
            },
    {
        loop
            invariant
                self.decoder.spec_pending(),
                self.index <= self.data@.len(),
                self.data@ == old(self).spec_data(),
                self.end == old(self).end,
                self.running_status == old(self).running_status,
                self.index >= old(self).index,
                self.index == 0 ==> self.running_status == 0,
                parse_vlq(self.data@, old(self).spec_index(), 0) == parse_vlq(
                    self.data@,
                    self.index as int,
                    self.decoder.spec_value(),
                ),
            decreases self.data@.len() - self.index,
        {
            if self.index >= self.data.len() {
                self.decoder.start();
                return Err(ArchiveError::TruncatedTrack);
            }
            let byte = self.data[self.index];
            self.index = self.index + 1;
            if !self.decoder.add_byte(byte) {
                let value = match self.decoder.finish() {
                    Ok(v) => v,
                    Err(_) => vstd::pervasive::unreached(),
                };
                return Ok(value);
            }
        }
    }

    /// Milliseconds for a delta time, at 125/24 ms per tick.
    fn delta_to_ms(delta: u32) -> (r: u64)
        ensures
            r == ms_of_delta(delta),
    {
        delta as u64 * 125 / 24
    }

    /// Reads one event at the position.
    fn read_event(&mut self) -> (r: Result<Option<(u64, MidiEvent)>, ArchiveError>)
        requires
            old(self).wf(),
        ensures
            final(self).wf(),
            final(self).spec_data() == old(self).spec_data(),
            final(self).spec_end() == old(self).spec_end(),
            match parse_event_at(old(self).spec_data(), old(self).spec_index(), old(self).spec_running()) {
                ParseStep::Fail { err } => r == Err::<Option<(u64, MidiEvent)>, ArchiveError>(err),
                ParseStep::End { next } => r == Ok::<Option<(u64, MidiEvent)>, ArchiveError>(None)
                    && final(self).spec_index() == next && final(self).spec_running() == 0xFF,
                ParseStep::Event { delta, event, next, status } => r == Ok::<
                    Option<(u64, MidiEvent)>,
                    ArchiveError,
                >(Some((ms_of_delta(delta), event))) && final(self).spec_index() == next && final(self).spec_running() == status,
            },
    {
        let delta = match self.read_var_len() {
            Ok(d) => d,
            Err(e) => {
                return Err(e);
            },
        };
        let dt: u64 = if delta == 0 {
            0
        } else {
            Self::delta_to_ms(delta)
        };
        if self.index >= self.data.len() {
            return Err(ArchiveError::TruncatedTrack);
        }
        let status = self.running_status();
        if status == 0xFF {
            if self.data.len() - self.index < 2 {
                return Err(ArchiveError::TruncatedTrack);
            }
            let code = self.next_byte();
            let _extra = self.next_byte();
            if code == 0x2F {
                Ok(None)
            } else {
                Err(ArchiveError::UnsupportedStatus)
            }
        } else if status >= 0xF0 || status < 0x80 {
            Err(ArchiveError::UnsupportedStatus)
        } else {
            let kind = hi_nybble(status);
            let channel = lo_nybble(status);
            if kind == 0xC0 {
                if self.data.len() - self.index < 1 {
                    return Err(ArchiveError::TruncatedTrack);
                }
                let program = self.next_byte();
                Ok(Some((dt, MidiEvent::ProgramChange { channel, program })))
            } else if kind == 0xD0 {
                if self.data.len() - self.index < 1 {
                    return Err(ArchiveError::TruncatedTrack);
                }
                let pressure = self.next_byte();
                Ok(Some((dt, MidiEvent::ChannelPressure { channel, pressure })))
            } else {
                if self.data.len() - self.index < 2 {
                    return Err(ArchiveError::TruncatedTrack);
                }
                let b1 = self.next_byte();
                let b2 = self.next_byte();
                let event = if kind == 0x80 {
                    MidiEvent::NoteOff { channel, note: b1, velocity: b2 }
                } else if kind == 0x90 {
                    MidiEvent::NoteOn { channel, note: b1, velocity: b2 }
                } else if kind == 0xA0 {
                    MidiEvent::PolyphonicKeyPressure { channel, note: b1, pressure: b2 }
                } else if kind == 0xB0 {
                    MidiEvent::ControlChange { channel, cc: b1, value: b2 }
                } else {
                    MidiEvent::PitchBendChange {
                        channel,
                        bend: (b1 & 0x7F) as u16 * 128 + (b2 & 0x7F) as u16,
                    }
                };
                Ok(Some((dt, event)))
            }
        }
    }

    /// Checks the file and track headers on the first call, then yields one
    /// event per call: its delay in milliseconds and the event. `None` once
    /// the track's declared length is exhausted or at the end-of-track
    /// marker.
    pub fn next(&mut self) -> (r: Result<Option<(u64, MidiEvent)>, ArchiveError>)
        requires
            old(self).wf(),
        ensures
            final(self).wf(),
            final(self).spec_data() == old(self).spec_data(),
            old(self).spec_index() == 0 ==> match header_result(old(self).spec_data()) {
                Err(e) => r == Err::<Option<(u64, MidiEvent)>, ArchiveError>(e),
                Ok(end0) => {
                    let (res, ni, nr) = reader_step(old(self).spec_data(), 22, 0, end0);
                    r == res && final(self).spec_end() == end0 && (res is Ok ==> final(self).spec_index() == ni && final(self).spec_running() == nr)
                },
            },
            old(self).spec_index() != 0 ==> final(self).spec_end() == old(self).spec_end() && ({
                let (res, ni, nr) = reader_step(
                    old(self).spec_data(),
                    old(self).spec_index(),
                    old(self).spec_running(),
                    old(self).spec_end(),
                );
                r == res && (res is Ok ==> final(self).spec_index() == ni && final(self).spec_running() == nr)
            }),
    {
        if self.index == 0 {
            if self.data.len() < 24 {
                return Err(ArchiveError::NotAMidiFile);
            }
            if !(self.data[0] == 0x4D && self.data[1] == 0x54 && self.data[2] == 0x68
                && self.data[3] == 0x64) {
                return Err(ArchiveError::NotAMidiFile);
            }
            self.index = 14;
            if !(self.data[14] == 0x4D && self.data[15] == 0x54 && self.data[16] == 0x72
                && self.data[17] == 0x6B) {
                return Err(ArchiveError::ExpectedTrackChunk);
            }
            self.index = 18;
            let length = self.next_u32();
            self.end = self.index as u64 + length as u64;
        }
        if self.index as u64 >= self.end {
            return Ok(None);
        }
        self.read_event()
    }
}

/// The decoder register after feeding the bytes of `s` in order into an
/// accumulator that starts at `acc`.
pub open spec fn vlq_run(acc: u32, s: Seq<u8>) -> u32
    decreases s.len(),
{
    if s.len() == 0 {
        acc
    } else {
        vlq_run(vlq_step(acc, s[0]), s.skip(1))
    }
}

proof fn lemma_vlq_run_snoc(acc: u32, s: Seq<u8>, b: u8)
    ensures
        vlq_run(acc, s + seq![b]) == vlq_step(vlq_run(acc, s), b),
    decreases s.len(),
{
    let t = s + seq![b];
    assert(t.len() == s.len() + 1);
    assert(vlq_run(acc, t) == vlq_run(vlq_step(acc, t[0]), t.skip(1)));
    if s.len() == 0 {
        assert(t[0] == b);
        assert(t.skip(1) =~= Seq::<u8>::empty());
        assert(vlq_run(vlq_step(acc, b), t.skip(1)) == vlq_step(acc, b));
    } else {
        assert(t[0] == s[0]);
        assert(t.skip(1) =~= s.skip(1) + seq![b]);
        lemma_vlq_run_snoc(vlq_step(acc, s[0]), s.skip(1), b);
        assert(vlq_run(acc, s) == vlq_run(vlq_step(acc, s[0]), s.skip(1)));
    }
}

proof fn lemma_vlq_run_value(s: Seq<u8>)
    ensures
        vlq_run(0, s) == (vlq_value(s) % 0x1_0000_0000) as u32,
    decreases s.len(),
{
    if s.len() == 0 {
    } else {
        let a = s.drop_last();
        let b = s.last();
        assert(s =~= a + seq![b]);
        lemma_vlq_run_value(a);
        lemma_vlq_run_snoc(0, a, b);
        let m = 0x1_0000_0000int;
        let x = vlq_value(a) as int;
        let c = (b & 0x7F) as int;
        assert(vlq_run(0, s) == vlq_step(vlq_run(0, a), b));
        vstd::arithmetic::div_mod::lemma_add_mod_noop((x % m) * 128, c, m);
        vstd::arithmetic::div_mod::lemma_mul_mod_noop_left(x, 128, m);
        vstd::arithmetic::div_mod::lemma_add_mod_noop(x * 128, c, m);
        vstd::arithmetic::div_mod::lemma_mod_mod(c, m, 1);
        assert(c % m == c);
        assert(((x % m) * 128 + c) % m == (x * 128 + c) % m);
    }
}

proof fn lemma_low_high_bit(b: u8)
    ensures
        (b & 0x80 == 0) == (b < 128),
        (b & 0x7F == b) == (b < 128),
{
    assert(((b & 0x80 == 0) == (b < 128)) && ((b & 0x7F == b) == (b < 128))) by (bit_vector);
}

/// Parsing a variable-length quantity whose bytes stand verbatim in the
/// data consumes exactly those bytes.
proof fn lemma_parse_vlq_match(data: Seq<u8>, i: int, s: Seq<u8>, acc: u32)
    requires
        s.len() >= 1,
        forall|k: int| 0 <= k < s.len() - 1 ==> s[k] & 0x80 != 0,
        s.last() & 0x80 == 0,
        0 <= i,
        i + s.len() <= data.len(),
        data.subrange(i, i + s.len()) == s,
    ensures
        parse_vlq(data, i, acc) == Some((vlq_run(acc, s), i + s.len())),
    decreases s.len(),
{
    assert(data[i] == s[0]);
    if s.len() == 1 {
        assert(s.last() == s[0]);
        assert(vlq_run(acc, s) == vlq_run(vlq_step(acc, s[0]), s.skip(1)));
        assert(s.skip(1) =~= Seq::<u8>::empty());
    } else {
        assert(s[0] & 0x80 != 0);
        let s2 = s.skip(1);
        assert(data.subrange(i + 1, i + s.len()) =~= s2);
        assert(s2.last() == s.last());
        assert(forall|k: int| 0 <= k < s2.len() - 1 ==> s2[k] == s[k + 1] && s2[k] & 0x80 != 0);
        lemma_parse_vlq_match(data, i + 1, s2, vlq_step(acc, s[0]));
    }
}

/// Parsing the encoding of an in-range value yields that value.
proof fn lemma_parse_vlq_of_encode(data: Seq<u8>, i: int, v: u32)
    requires
        v <= VARLEN_MAX,
        0 <= i,
        i + vlq_encode(v as nat).len() <= data.len(),
        data.subrange(i, i + vlq_encode(v as nat).len()) == vlq_encode(v as nat),
    ensures
        parse_vlq(data, i, 0) == Some((v, i + vlq_encode(v as nat).len())),
{
    let s = vlq_encode(v as nat);
    lemma_varlen_round_trip(v);
    lemma_low_high_bit(s.last());
    assert forall|k: int| 0 <= k < s.len() - 1 implies s[k] & 0x80 != 0 by {
        lemma_low_high_bit(s[k]);
    }
    lemma_parse_vlq_match(data, i, s, 0);
    lemma_vlq_run_value(s);
}

proof fn lemma_status_nibbles(base: u8, ch: u8)
    requires
        base % 0x10 == 0,
        0x80 <= base <= 0xE0,
        ch < 16,
    ensures
        ((base + ch) as u8) & 0xF0 == base,
        ((base + ch) as u8) & 0x0F == ch,
{
    assert((base + ch) as u8 & 0xF0 == base && (base + ch) as u8 & 0x0F == ch) by (bit_vector)
        requires
            base % 0x10 == 0 && base <= 0xE0 && ch < 16,
    ;
}

/// Under well-formedness the status byte is a channel voice status and
/// every data byte fits in seven bits.
proof fn lemma_event_shape(e: MidiEvent)
    requires
        wf_event(e),
    ensures
        0x80 <= event_status(e) <= 0xEF,
        1 <= event_data(e).len() <= 2,
        forall|k: int| 0 <= k < event_data(e).len() ==> event_data(e)[k] < 128,
{
    if let MidiEvent::PitchBendChange { channel, bend } = e {
        assert(bend / 128 < 128 && bend % 128 < 128) by (bit_vector)
            requires
                bend < 0x4000u16,
        ;
    }
}

/// Parsing a message whose status and data bytes came from a well-formed
/// event gives that event back.
#[verifier::spinoff_prover]
#[verifier::rlimit(50)]
proof fn lemma_parse_message_of_event(data: Seq<u8>, k: int, delta: u32, e: MidiEvent)
    requires
        wf_event(e),
        0 <= k,
        k + event_data(e).len() <= data.len(),
        data.subrange(k, k + event_data(e).len()) == event_data(e),
    ensures
        parse_message(data, k, delta, event_status(e)) == (ParseStep::Event {
            delta,
            event: e,
            next: k + event_data(e).len(),
            status: event_status(e),
        }),
{
    lemma_event_shape(e);
    let ed = event_data(e);
    assert(forall|q: int| 0 <= q < ed.len() ==> data[k + q] == ed[q]);
    match e {
        MidiEvent::NoteOff { channel, note, velocity } => {
            lemma_status_nibbles(0x80, channel);
        },
        MidiEvent::NoteOn { channel, note, velocity } => {
            lemma_status_nibbles(0x90, channel);
        },
        MidiEvent::PolyphonicKeyPressure { channel, note, pressure } => {
            lemma_status_nibbles(0xA0, channel);
        },
        MidiEvent::ControlChange { channel, cc, value } => {
            lemma_status_nibbles(0xB0, channel);
        },
        MidiEvent::ProgramChange { channel, program } => {
            lemma_status_nibbles(0xC0, channel);
            assert(data[k] == ed[0] && ed[0] == program);
        },
        MidiEvent::ChannelPressure { channel, pressure } => {
            lemma_status_nibbles(0xD0, channel);
            assert(data[k] == ed[0] && ed[0] == pressure);
        },
        MidiEvent::PitchBendChange { channel, bend } => {
            lemma_status_nibbles(0xE0, channel);
            let b1 = ed[0];
            let b2 = ed[1];
            lemma_low_high_bit(b1);
            lemma_low_high_bit(b2);
            assert(b1 & 0x7F == b1 && b2 & 0x7F == b2);
            assert((b1 & 0x7F) as u16 * 128 + (b2 & 0x7F) as u16 == bend);
        },
    }
}

/// Parsing at the start of a written event yields exactly that event.
proof fn lemma_parse_event_of_emit(
    data: Seq<u8>,
    i: int,
    last: i64,
    running: u8,
    tick: i64,
    e: MidiEvent,
)
    requires
        wf_event(e),
        tick >= 0,
        last >= 0,
        last != 0 ==> tick >= last && crate::midi_file::delta_ticks_of_ms((tick - last) as nat)
            <= VARLEN_MAX,
        0 <= i,
        i + crate::midi_file::event_bytes(last, running, tick, e).len() <= data.len(),
        data.subrange(i, i + crate::midi_file::event_bytes(last, running, tick, e).len())
            == crate::midi_file::event_bytes(last, running, tick, e),
    ensures
        parse_event_at(data, i, running) == (ParseStep::Event {
            delta: crate::midi_file::tick_delta_value(last, tick),
            event: e,
            next: i + crate::midi_file::event_bytes(last, running, tick, e).len(),
            status: event_status(e),
        }),
{
    let tb = crate::midi_file::tick_bytes(last, tick);
    let sb = crate::midi_file::running_status_bytes(running, event_status(e));
    let ed = event_data(e);
    let emit = crate::midi_file::event_bytes(last, running, tick, e);
    let dv = crate::midi_file::tick_delta_value(last, tick);
    lemma_event_shape(e);
    assert(emit =~= tb + sb + ed);
    lemma_varlen_round_trip(dv);
    assert(tb == vlq_encode(dv as nat));
    assert(forall|q: int| 0 <= q < emit.len() ==> data[i + q] == emit[q]);
    assert(data.subrange(i, i + tb.len()) =~= tb);
    lemma_parse_vlq_of_encode(data, i, dv);
    let j = i + tb.len();
    let st = event_status(e);
    assert(j < data.len());
    if st == running {
        assert(sb =~= Seq::<u8>::empty());
        assert(emit =~= tb + ed);
        assert(data[i + tb.len()] == emit[tb.len() as int]);
        assert(emit[tb.len() as int] == ed[0]);
        lemma_low_high_bit(ed[0]);
        assert(data[j] & 0x80 == 0);
        assert forall|q: int| 0 <= q < ed.len() implies data[j + q] == ed[q] by {
            assert(data[i + (tb.len() + q)] == emit[tb.len() + q]);
            assert(emit[tb.len() + q] == ed[q]);
        }
        assert(data.subrange(j, j + ed.len()) =~= ed);
        lemma_parse_message_of_event(data, j, dv, e);
    } else {
        assert(sb =~= seq![st]);
        assert(data[i + tb.len()] == emit[tb.len() as int]);
        assert(emit[tb.len() as int] == st);
        lemma_low_high_bit(st);
        assert(data[j] & 0x80 != 0);
        assert forall|q: int| 0 <= q < ed.len() implies data[j + 1 + q] == ed[q] by {
            assert(data[i + (tb.len() + 1 + q)] == emit[tb.len() + 1 + q]);
            assert(emit[tb.len() + 1 + q] == ed[q]);
        }
        assert(data.subrange(j + 1, j + 1 + ed.len()) =~= ed);
        lemma_parse_message_of_event(data, j + 1, dv, e);
    }
}

/// The events of a track region, parsed one after another; `None` when the
/// region is not a well-formed archive track.
pub open spec fn parse_events(data: Seq<u8>, i: int, running: u8, end: int) -> Option<
    Seq<MidiEvent>,
>
    decreases end - i,
{
    if i >= end {
        Some(Seq::empty())
    } else {
        match parse_event_at(data, i, running) {
            ParseStep::Fail { .. } => None,
            ParseStep::End { .. } => Some(Seq::empty()),
            ParseStep::Event { delta, event, next, status } => {
                if next <= i {
                    None
                } else if next >= end {
                    Some(seq![event])
                } else {
                    match parse_events(data, next, status, end) {
                        None => None,
                        Some(rest) => Some(seq![event] + rest),
                    }
                }
            },
        }
    }
}

/// Reading back a written track yields exactly the written events.
proof fn lemma_parse_track(
    data: Seq<u8>,
    i: int,
    evs: Seq<(i64, MidiEvent)>,
    last: i64,
    running: u8,
)
    requires
        0 <= i,
        last >= 0,
        crate::midi_file::wf_track(evs, last),
        i + crate::midi_file::track_of(evs, last, running).len() <= data.len(),
        data.subrange(i, i + crate::midi_file::track_of(evs, last, running).len())
            == crate::midi_file::track_of(evs, last, running),
    ensures
        parse_events(data, i, running, i + crate::midi_file::track_of(evs, last, running).len())
            == Some(evs.map_values(|p: (i64, MidiEvent)| p.1)),
    decreases evs.len(),
{
    let track = crate::midi_file::track_of(evs, last, running);
    let end = i + track.len();
    if evs.len() == 0 {
        assert(evs.map_values(|p: (i64, MidiEvent)| p.1) =~= Seq::<MidiEvent>::empty());
    } else {
        let tick = evs[0].0;
        let e = evs[0].1;
        let emit = crate::midi_file::event_bytes(last, running, tick, e);
        let last2 = crate::midi_file::tick_next_last(last, tick);
        let running2 = event_status(e);
        let rest_track = crate::midi_file::track_of(evs.skip(1), last2, running2);
        assert(track =~= emit + rest_track);
        lemma_event_shape(e);
        assert(emit.len() >= 2);
        assert(forall|q: int| 0 <= q < track.len() ==> data[i + q] == track[q]);
        assert(data.subrange(i, i + emit.len()) =~= emit);
        lemma_parse_event_of_emit(data, i, last, running, tick, e);
        let next = i + emit.len();
        assert forall|q: int| 0 <= q < rest_track.len() implies data[next + q] == rest_track[q] by {
            assert(data[i + (emit.len() + q)] == track[emit.len() + q]);
            assert(track[emit.len() + q] == rest_track[q]);
        }
        assert(data.subrange(next, next + rest_track.len()) =~= rest_track);
        assert(last2 >= 0);
        lemma_parse_track(data, next, evs.skip(1), last2, running2);
        assert(parse_events(data, next, running2, next + rest_track.len()) == Some(
            evs.skip(1).map_values(|p: (i64, MidiEvent)| p.1),
        ));
        assert(next + rest_track.len() == end);
        assert(parse_events(data, i, running, end) == Some(
            seq![e] + evs.skip(1).map_values(|p: (i64, MidiEvent)| p.1),
        ));
        assert(seq![e] + evs.skip(1).map_values(|p: (i64, MidiEvent)| p.1) =~= evs.map_values(
            |p: (i64, MidiEvent)| p.1,
        ));
    }
}

/// The archive round-trip law: for any sequence of well-formed channel
/// voice events with non-decreasing, bounded ticks, archiving with the
/// writer and reading the file back yields the same events — the same
/// status kinds, channels, and data bytes — with only the delta times
/// re-derived. The headers of the written file are accepted by the reader.
pub proof fn lemma_archive_round_trip(evs: Seq<(i64, MidiEvent)>)
    requires
        forall|k: int| 0 <= k < evs.len() ==> wf_event(#[trigger] evs[k].1),
        forall|k: int| 0 <= k < evs.len() ==> (#[trigger] evs[k].0) >= 0,
        forall|k: int| 0 <= k < evs.len() - 1 ==> #[trigger] evs[k].0 <= evs[k + 1].0,
        forall|k: int|
            0 <= k < evs.len() ==> crate::midi_file::delta_ticks_of_ms(
                (#[trigger] evs[k].0) as nat,
            ) <= VARLEN_MAX,
        crate::midi_file::track_of(evs, 0, 0).len() <= u32::MAX,
    ensures
        ({
            let track = crate::midi_file::track_of(evs, 0, 0);
            let data = crate::midi_file::file_bytes(track);
            &&& header_result(data) == Ok::<int, ArchiveError>(22 + track.len() as int)
            &&& parse_events(data, 22, 0, 22 + track.len() as int) == Some(
                evs.map_values(|p: (i64, MidiEvent)| p.1),
            )
        }),
{
    crate::midi_file::lemma_wf_track_of_monotonic(evs, 0);
    let track = crate::midi_file::track_of(evs, 0, 0);
    let data = crate::midi_file::file_bytes(track);
    let n = track.len() as u32;
    assert(data =~= crate::midi_file::file_header() + crate::midi_file::track_header(n) + track
        + crate::midi_file::end_of_track());
    assert(data.len() == 26 + track.len());
    assert(data[0] == 0x4D && data[1] == 0x54 && data[2] == 0x68 && data[3] == 0x64);
    assert(data[14] == 0x4D && data[15] == 0x54 && data[16] == 0x72 && data[17] == 0x6B);
    assert(n / 0x100_0000 * 0x100_0000 + n / 0x1_0000 % 0x100 * 0x1_0000 + n / 0x100 % 0x100
        * 0x100 + n % 0x100 == n) by (bit_vector);
    assert(be32_at(data, 18) == n);
    assert(header_result(data) == Ok::<int, ArchiveError>(22 + track.len() as int));
    assert(data.subrange(22, 22 + track.len() as int) =~= track);
    lemma_parse_track(data, 22, evs, 0, 0);
}

} // verus!
