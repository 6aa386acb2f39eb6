//! MIDI status bytes, file signatures, the variable-length-quantity codec,
//! and the gatherer that reassembles binary payloads sent over a 7-bit-clean
//! transport.

use vstd::prelude::*;
use crate::ArchiveError;

verus! {

pub const STATUS_NOTE_OFF: u8 = 0x80;

pub const STATUS_NOTE_ON: u8 = 0x90;

pub const STATUS_POLY_KEY_PRESSURE: u8 = 0xA0;

pub const STATUS_CC: u8 = 0xB0;

pub const STATUS_PROGRAM_CHANGE: u8 = 0xC0;

pub const STATUS_CHANNEL_PRESSURE: u8 = 0xD0;

pub const STATUS_PITCH_BEND: u8 = 0xE0;

pub const STATUS_SYSTEM: u8 = 0xF0;

/// Channel 15 as a zero-based channel number.
pub const CHANNEL15: u8 = 14;

/// Channel 16, the management channel, as a zero-based channel number.
pub const CHANNEL16: u8 = 15;

/// The largest value a MIDI variable-length quantity can encode.
pub const VARLEN_MAX: u32 = 0x0FFF_FFFF;

/// True when the slice begins with the `MThd` file signature.
pub fn is_midi_header(data: &[u8]) -> (r: bool)
    ensures
        r == (data@.len() >= 4 && data@[0] == 0x4Du8 && data@[1] == 0x54u8 && data@[2] == 0x68u8
            && data@[3] == 0x64u8),
{
    if data.len() < 4 {
        false
    } else {
        data[0] == 0x4D && data[1] == 0x54 && data[2] == 0x68 && data[3] == 0x64
    }
}

/// True when the slice begins with the `MTrk` track signature.
pub fn is_midi_track_header(data: &[u8]) -> (r: bool)
    ensures
        r == (data@.len() >= 4 && data@[0] == 0x4Du8 && data@[1] == 0x54u8 && data@[2] == 0x72u8
            && data@[3] == 0x6Bu8),
{
    if data.len() < 4 {
        false
    } else {
        data[0] == 0x4D && data[1] == 0x54 && data[2] == 0x72 && data[3] == 0x6B
    }
}

/// The value a sequence of variable-length-quantity bytes stands for:
/// big-endian groups of seven bits.
pub open spec fn vlq_value(bytes: Seq<u8>) -> nat
    decreases bytes.len(),
{
    if bytes.len() == 0 {
        0
    } else {
        vlq_value(bytes.drop_last()) * 128 + (bytes.last() & 0x7F) as nat
    }
}

/// The continuation bytes (high bit set) that carry `v`'s upper groups.
pub open spec fn vlq_cont(v: nat) -> Seq<u8>
    decreases v,
{
    if v < 128 {
        seq![(v + 128) as u8]
    } else {
        vlq_cont(v / 128) + seq![(v % 128 + 128) as u8]
    }
}

/// The encoding of `v`: continuation bytes for the upper groups, then the
/// low group with its high bit clear.
pub open spec fn vlq_encode(v: nat) -> Seq<u8> {
    if v < 128 {
        seq![v as u8]
    } else {
        vlq_cont(v / 128) + seq![(v % 128) as u8]
    }
}

proof fn lemma_vlq_cont_value(v: nat)
    ensures
        vlq_value(vlq_cont(v)) == v,
        vlq_cont(v).len() >= 1,
        forall|i: int| 0 <= i < vlq_cont(v).len() ==> vlq_cont(v)[i] >= 128,
    decreases v,
{
    if v < 128 {
        let b = (v + 128) as u8;
        assert(b as nat == v + 128);
        assert((b & 0x7F) == b - 128) by (bit_vector)
            requires
                b >= 128,
        ;
        let s = vlq_cont(v);
        assert(s =~= seq![b]);
        assert(s.drop_last() =~= Seq::<u8>::empty());
        assert(vlq_value(s.drop_last()) == 0);
        assert(vlq_value(s) == vlq_value(s.drop_last()) * 128 + (s.last() & 0x7F) as nat);
    } else {
        lemma_vlq_cont_value(v / 128);
        let b = (v % 128 + 128) as u8;
        assert(b as nat == v % 128 + 128);
        assert((b & 0x7F) == b - 128) by (bit_vector)
            requires
                b >= 128,
        ;
        let s = vlq_cont(v);
        assert(s =~= vlq_cont(v / 128) + seq![b]);
        assert(s.drop_last() =~= vlq_cont(v / 128));
        assert(s.last() == b);
        assert(vlq_value(s) == vlq_value(s.drop_last()) * 128 + (s.last() & 0x7F) as nat);
        assert(vlq_value(s) == v / 128 * 128 + v % 128);
    }
}

/// The round-trip law of the variable-length codec: reading the encoding
/// of any value in range gives that value back, the encoding takes at most
/// four bytes, and only its last byte has the high bit clear.
pub proof fn lemma_varlen_round_trip(v: u32)
    requires
        v <= VARLEN_MAX,
    ensures
        vlq_value(vlq_encode(v as nat)) == v,
        1 <= vlq_encode(v as nat).len() <= 4,
        vlq_encode(v as nat).last() < 128,
        forall|i: int|
            0 <= i < vlq_encode(v as nat).len() - 1 ==> vlq_encode(v as nat)[i] >= 128,
{
    let n = v as nat;
    if n < 128 {
        let b = n as u8;
        assert(b as nat == n);
        assert((b & 0x7F) == b) by (bit_vector)
            requires
                b < 128,
        ;
        let s = vlq_encode(n);
        assert(s =~= seq![b]);
        assert(s.drop_last() =~= Seq::<u8>::empty());
        assert(vlq_value(s.drop_last()) == 0);
        assert(vlq_value(s) == vlq_value(s.drop_last()) * 128 + (s.last() & 0x7F) as nat);
    } else {
        lemma_vlq_cont_value(n / 128);
        let b = (n % 128) as u8;
        assert(b as nat == n % 128);
        assert((b & 0x7F) == b) by (bit_vector)
            requires
                b < 128,
        ;
        let s = vlq_encode(n);
        assert(s =~= vlq_cont(n / 128) + seq![b]);
        assert(s.drop_last() =~= vlq_cont(n / 128));
        assert(s.last() == b);
        assert(vlq_value(s) == vlq_value(s.drop_last()) * 128 + (s.last() & 0x7F) as nat);
        assert(vlq_value(s) == n / 128 * 128 + n % 128);
        lemma_vlq_cont_len(n / 128);
        assert(n / 128 < 128 * 128 * 128);
        assert(forall|i: int| 0 <= i < s.len() - 1 ==> s[i] == vlq_cont(n / 128)[i]);
    }
}

proof fn lemma_vlq_cont_len(v: nat)
    ensures
        v < 128 ==> vlq_cont(v).len() == 1,
        v < 128 * 128 ==> vlq_cont(v).len() <= 2,
        v < 128 * 128 * 128 ==> vlq_cont(v).len() <= 3,
    decreases v,
{
    if v >= 128 {
        lemma_vlq_cont_len(v / 128);
    }
}

/// One decoding step: the accumulator shifted up by one seven-bit group,
/// truncated to 32 bits as the decoder's register is.
pub open spec fn vlq_step(value: u32, byte: u8) -> u32 {
    ((value as nat * 128 + (byte & 0x7F) as nat) % 0x1_0000_0000) as u32
}

/// The streaming decoder for variable-length quantities. Bytes arrive one
/// at a time; a value is pending until a byte with its high bit clear ends
/// it.
pub struct VariableLengthValue {
    value: u32,
    pending: bool,
}

impl VariableLengthValue {
    /// The accumulated register.
    pub closed spec fn spec_value(&self) -> u32 {
        self.value
    }

    /// Whether more bytes are expected before the value can be read.
    pub closed spec fn spec_pending(&self) -> bool {
        self.pending
    }

    /// Checks that a value fits in a variable-length quantity.
    pub fn value_in_range(value: u32) -> (r: Result<u32, ArchiveError>)
        ensures
            value <= VARLEN_MAX ==> r == Ok::<u32, ArchiveError>(value),
            value > VARLEN_MAX ==> r == Err::<u32, ArchiveError>(ArchiveError::OutOfRange),
    {
        if value > VARLEN_MAX {
            Err(ArchiveError::OutOfRange)
        } else {
            Ok(value)
        }
    }

    /// The variable-length encoding of `value`, one to four bytes.
    pub fn encode(value: u32) -> (r: Result<Vec<u8>, ArchiveError>)
        ensures
            value <= VARLEN_MAX ==> (r is Ok && r->Ok_0@ == vlq_encode(value as nat)),
            value > VARLEN_MAX ==> r == Err::<Vec<u8>, ArchiveError>(ArchiveError::OutOfRange),
    {
        if value > VARLEN_MAX {
            Err(ArchiveError::OutOfRange)
        } else if value < 0x80 {
            Ok(vec![value as u8])
        } else if value < 0x4000 {
            let r = vec![(value / 0x80) as u8 + 0x80, (value % 0x80) as u8];
            proof {
                assert(r@ =~= vlq_encode(value as nat));
            }
            Ok(r)
        } else if value < 0x20_0000 {
            let r = vec![
                (value / 0x4000) as u8 + 0x80,
                (value / 0x80 % 0x80) as u8 + 0x80,
                (value % 0x80) as u8,
            ];
            proof {
                let n = value as nat;
                assert(value / 0x80 >= 0x80 && value / 0x80 / 0x80 == value / 0x4000 && value
                    / 0x4000 < 0x80) by (bit_vector)
                    requires
                        0x4000 <= value < 0x20_0000u32,
                ;
                assert(vlq_cont(n / 128 / 128) =~= seq![(n / 128 / 128 + 128) as u8]);
                assert(vlq_cont(n / 128) =~= vlq_cont(n / 128 / 128) + seq![
                    (n / 128 % 128 + 128) as u8,
                ]);
                assert(vlq_encode(n) =~= vlq_cont(n / 128) + seq![(n % 128) as u8]);
                assert(r@ =~= vlq_encode(n));
            }
            Ok(r)
        } else {
            let r = vec![
                (value / 0x20_0000) as u8 + 0x80,
                (value / 0x4000 % 0x80) as u8 + 0x80,
                (value / 0x80 % 0x80) as u8 + 0x80,
                (value % 0x80) as u8,
            ];
            proof {
                let n = value as nat;
                assert(value / 0x80 >= 0x80 && value / 0x80 / 0x80 == value / 0x4000 && value
                    / 0x4000 >= 0x80 && value / 0x4000 / 0x80 == value / 0x20_0000 && value
                    / 0x20_0000 < 0x80) by (bit_vector)
                    requires
                        0x20_0000 <= value <= 0x0FFF_FFFFu32,
                ;
                assert(vlq_cont(n / 128 / 128 / 128) =~= seq![(n / 128 / 128 / 128 + 128) as u8]);
                assert(vlq_cont(n / 128 / 128) =~= vlq_cont(n / 128 / 128 / 128) + seq![
                    (n / 128 / 128 % 128 + 128) as u8,
                ]);
                assert(vlq_cont(n / 128) =~= vlq_cont(n / 128 / 128) + seq![
                    (n / 128 % 128 + 128) as u8,
                ]);
                assert(vlq_encode(n) =~= vlq_cont(n / 128) + seq![(n % 128) as u8]);
                assert(r@ =~= vlq_encode(n));
            }
            Ok(r)
        }
    }

    pub fn new() -> (r: Self)
        ensures
            r.spec_value() == 0,
            r.spec_pending(),
    {
        Self { value: 0, pending: true }
    }

    pub fn is_pending(&self) -> (r: bool)
        ensures
            r == self.spec_pending(),
    {
        self.pending
    }

    /// Returns to the start state: nothing accumulated, a value pending.
    pub fn start(&mut self)
        ensures
            final(self).spec_value() == 0,
            final(self).spec_pending(),
    {
        self.value = 0;
        self.pending = true;
    }

    /// Reads the completed value and resets the decoder. Reading while a
    /// value is still pending fails and changes nothing.
    pub fn finish(&mut self) -> (r: Result<u32, ArchiveError>)
        ensures
            old(self).spec_pending() ==> r == Err::<u32, ArchiveError>(ArchiveError::Incomplete)
                && *final(self) == *old(self),
            !old(self).spec_pending() ==> r == Ok::<u32, ArchiveError>(old(self).spec_value())
                && final(self).spec_value() == 0 && final(self).spec_pending(),
    {
        if self.pending {
            return Err(ArchiveError::Incomplete);
        }
        let result = self.value;
        self.start();
        Ok(result)
    }

    /// True for a byte that announces more bytes to follow.
    #[inline]
    pub fn is_lead_byte(byte: u8) -> (r: bool)
        ensures
            r == (byte & 0x80 != 0),
    {
        0 != byte & 0x80
    }

    /// Adds one byte to the pending value. Returns true while more bytes
    /// are expected, false once the value is complete.
    pub fn add_byte(&mut self, byte: u8) -> (more: bool)
        requires
            old(self).spec_pending(),
        ensures
            final(self).spec_value() == vlq_step(old(self).spec_value(), byte),
            final(self).spec_pending() == (byte & 0x80 != 0),
            more == final(self).spec_pending(),
    {
        self.pending = 0 != byte & 0x80;
        let shifted = self.value << 7u32;
        self.value = shifted | (byte as u32 & 0x7F);
        proof {
            let v = old(self).value;
            let b = byte;
            assert(((v << 7u32) | (b as u32 & 0x7F)) as u64 == ((v as u64) * 128 + ((b
                & 0x7F) as u64)) % 0x1_0000_0000) by (bit_vector);
        }
        self.pending
    }
}

/// The four big-endian bytes of a 32-bit value.
pub open spec fn u32_be_bytes(v: u32) -> Seq<u8> {
    seq![
        (v / 0x100_0000) as u8,
        ((v / 0x1_0000) % 0x100) as u8,
        ((v / 0x100) % 0x100) as u8,
        (v % 0x100) as u8,
    ]
}

/// Reassembles one out-of-band byte stream. In encoded mode bytes are kept
/// verbatim; in binary mode they feed the variable-length decoder and every
/// completed value lands in the output as four big-endian bytes.
pub struct BinBuild {
    encoded: bool,
    binary: Vec<u8>,
    decoder: VariableLengthValue,
}

/// The abstract state of a gatherer: the mode, the bytes gathered, and the
/// register of the partial value under decode.
pub ghost struct BinBuildView {
    pub encoded: bool,
    pub out: Seq<u8>,
    pub acc: u32,
}

impl View for BinBuild {
    type V = BinBuildView;

    closed spec fn view(&self) -> BinBuildView {
        BinBuildView { encoded: self.encoded, out: self.binary@, acc: self.decoder.spec_value() }
    }
}

impl BinBuild {
    /// Whether bytes are currently kept verbatim.
    pub open spec fn spec_encoded(&self) -> bool {
        self@.encoded
    }

    /// The bytes gathered so far.
    pub open spec fn spec_out(&self) -> Seq<u8> {
        self@.out
    }

    /// The register of the partial value under decode.
    pub open spec fn spec_acc(&self) -> u32 {
        self@.acc
    }

    /// Between calls the decoder always awaits more bytes.
    pub closed spec fn wf(&self) -> bool {
        self.decoder.spec_pending()
    }

    pub fn new() -> (r: Self)
        ensures
            r.wf(),
            !r.spec_encoded(),
            r.spec_out() == Seq::<u8>::empty(),
            r.spec_acc() == 0,
    {
        BinBuild { encoded: false, binary: Vec::new(), decoder: VariableLengthValue::new() }
    }

    /// Appends the four big-endian bytes of `value` to the output.
    fn push_be(&mut self, value: u32)
        ensures
            final(self).binary@ == old(self).binary@ + u32_be_bytes(value),
            final(self).encoded == old(self).encoded,
            final(self).decoder == old(self).decoder,
    {
        proof {
            assert(value / 0x100_0000 < 0x100 && (value / 0x1_0000) % 0x100 < 0x100 && (value
                / 0x100) % 0x100 < 0x100 && value % 0x100 < 0x100) by (bit_vector);
        }
        self.binary.push((value / 0x100_0000) as u8);
        self.binary.push(((value / 0x1_0000) % 0x100) as u8);
        self.binary.push(((value / 0x100) % 0x100) as u8);
        self.binary.push((value % 0x100) as u8);
        proof {
            assert(self.binary@ =~= old(self).binary@ + u32_be_bytes(value));
        }
    }

    /// Terminates the pending decode with one zero byte and appends the
    /// completed value.
    fn flush_decoder(&mut self)
        requires
            old(self).wf(),
        ensures
            final(self).wf(),
            final(self).spec_encoded() == old(self).spec_encoded(),
            final(self).spec_out() == old(self).spec_out() + u32_be_bytes(
                vlq_step(old(self).spec_acc(), 0),
            ),
            final(self).spec_acc() == 0,
    {
        let _more = self.decoder.add_byte(0);
        proof {
            assert(0u8 & 0x80 == 0) by (bit_vector);
        }
        let value = match self.decoder.finish() {
            Ok(v) => v,
            Err(_) => vstd::pervasive::unreached(),
        };
        self.push_be(value);
    }

    /// Switches between encoded and binary mode; leaving encoded mode first
    /// flushes the decoder.
    pub fn set_encoded(&mut self, encoded: bool) -> (r: Result<(), ArchiveError>)
        requires
            old(self).wf(),
        ensures
            r is Ok,
            final(self).wf(),
            final(self).spec_encoded() == encoded,
            old(self).spec_encoded() == encoded ==> *final(self) == *old(self),
            old(self).spec_encoded() && !encoded ==> final(self).spec_out() == old(self).spec_out() + u32_be_bytes(vlq_step(old(self).spec_acc(), 0)) && final(self).spec_acc()
                == 0,
            !old(self).spec_encoded() && encoded ==> final(self).spec_out() == old(self).spec_out() && final(self).spec_acc() == old(self).spec_acc(),
    {
        if self.encoded != encoded {
            if self.encoded {
                self.flush_decoder()
            }
            self.encoded = encoded;
        }
        Ok(())
    }

    /// Begins a fresh gather in the given mode.
    pub fn start(&mut self, encoded: bool)
        ensures
            final(self).wf(),
            final(self).spec_encoded() == encoded,
            final(self).spec_out() == Seq::<u8>::empty(),
            final(self).spec_acc() == 0,
    {
        self.encoded = encoded;
        self.binary.clear();
        self.decoder.start();
    }

    fn add_raw(&mut self, byte: u8)
        requires
            old(self).spec_encoded(),
        ensures
            final(self).spec_out() == old(self).spec_out().push(byte),
            final(self).spec_encoded() == old(self).spec_encoded(),
            final(self).decoder == old(self).decoder,
    {
        self.binary.push(byte);
    }

    fn add_encoded(&mut self, byte: u8)
        requires
            old(self).wf(),
            !old(self).spec_encoded(),
        ensures
            final(self).wf(),
            final(self).spec_encoded() == old(self).spec_encoded(),
            byte & 0x80 != 0 ==> final(self).spec_out() == old(self).spec_out() && final(self).spec_acc() == vlq_step(old(self).spec_acc(), byte),
            byte & 0x80 == 0 ==> final(self).spec_out() == old(self).spec_out() + u32_be_bytes(
                vlq_step(old(self).spec_acc(), byte),
            ) && final(self).spec_acc() == 0,
    {
        if !self.decoder.add_byte(byte) {
            let value = match self.decoder.finish() {
                Ok(v) => v,
                Err(_) => vstd::pervasive::unreached(),
            };
            self.push_be(value);
        }
    }

    /// Adds one transport byte in the current mode.
    pub fn add(&mut self, byte: u8)
        requires
            old(self).wf(),
        ensures
            final(self).wf(),
            final(self).spec_encoded() == old(self).spec_encoded(),
            old(self).spec_encoded() ==> final(self).spec_out() == old(self).spec_out().push(byte)
                && final(self).spec_acc() == old(self).spec_acc(),
            !old(self).spec_encoded() && byte & 0x80 != 0 ==> final(self).spec_out() == old(self).spec_out() && final(self).spec_acc() == vlq_step(old(self).spec_acc(), byte),
            !old(self).spec_encoded() && byte & 0x80 == 0 ==> final(self).spec_out() == old(self).spec_out() + u32_be_bytes(vlq_step(old(self).spec_acc(), byte)) && final(self).spec_acc() == 0,
    {
        if self.encoded {
            self.add_raw(byte);
        } else {
            self.add_encoded(byte);
        }
    }

    /// Ends the gather: in binary mode the pending decode is zero-padded
    /// and appended first. Returns the gathered bytes and resets to encoded
    /// mode.
    pub fn flush(&mut self) -> (result: Vec<u8>)
        requires
            old(self).wf(),
        ensures
            final(self).wf(),
            final(self).spec_encoded(),
            final(self).spec_out() == Seq::<u8>::empty(),
            final(self).spec_acc() == 0,
            old(self).spec_encoded() ==> result@ == old(self).spec_out(),
            !old(self).spec_encoded() ==> result@ == old(self).spec_out() + u32_be_bytes(
                vlq_step(old(self).spec_acc(), 0),
            ),
    {
        if !self.encoded {
            self.flush_decoder();
        }
        let mut result: Vec<u8> = Vec::new();
        std::mem::swap(&mut result, &mut self.binary);
        self.start(true);
        result
    }
}

} // verus!
