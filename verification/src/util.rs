//! Small helpers on bits, bytes, and text shared by the codec and the
//! preset model.

use vstd::prelude::*;
use vstd::std_specs::hash::DefaultHasherAdditionalSpecFns;

verus! {

/// Relies on `String::push`: appends exactly the given character.
#[verifier::external_body]
pub(crate) fn push_char(s: &mut String, c: char)
    ensures
        final(s)@ == old(s)@.push(c),
{
    s.push(c)
}

/// Character-by-character string equality.
pub(crate) fn str_eq_chars(a: &str, b: &str) -> (r: bool)
    ensures
        r == (a@ == b@),
{
    let an = a.unicode_len();
    let bn = b.unicode_len();
    if an != bn {
        proof {
            assert(a@ != b@);
        }
        return false;
    }
    let mut i: usize = 0;
    while i < an
        invariant
            i <= an,
            an == a@.len(),
            an == b@.len(),
            forall|j: int| 0 <= j < i ==> a@[j] == b@[j],
        decreases an - i,
    {
        if a.get_char(i) != b.get_char(i) {
            proof {
                assert(a@ != b@);
            }
            return false;
        }
        i = i + 1;
    }
    proof {
        assert(a@ =~= b@);
    }
    true
}

/// How many copies of `leading` stand at the front of `s`.
pub open spec fn count_leading_spec(leading: char, s: Seq<char>) -> nat
    decreases s.len(),
{
    if s.len() == 0 || s[0] != leading {
        0
    } else {
        1 + count_leading_spec(leading, s.skip(1))
    }
}

pub fn count_leading(leading: char, slice: &str) -> (count: u32)
    requires
        slice@.len() <= u32::MAX,
    ensures
        count == count_leading_spec(leading, slice@),
{
    let len: usize = slice.unicode_len();
    let mut i: usize = 0;
    while i < len && slice.get_char(i) == leading
        invariant
            i <= len,
            len == slice@.len() <= u32::MAX,
            forall|j: int| 0 <= j < i ==> slice@[j] == leading,
        decreases len - i,
    {
        i = i + 1;
    }
    proof {
        if i < len {
            lemma_count_leading_stops(leading, slice@, i as int);
        } else {
            lemma_count_leading_all(leading, slice@);
        }
    }
    i as u32
}

proof fn lemma_count_leading_stops(leading: char, s: Seq<char>, i: int)
    requires
        0 <= i < s.len(),
        forall|j: int| 0 <= j < i ==> s[j] == leading,
        s[i] != leading,
    ensures
        count_leading_spec(leading, s) == i,
    decreases i,
{
    if i == 0 {
    } else {
        lemma_count_leading_stops(leading, s.skip(1), i - 1);
    }
}

proof fn lemma_count_leading_all(leading: char, s: Seq<char>)
    requires
        forall|j: int| 0 <= j < s.len() ==> s[j] == leading,
    ensures
        count_leading_spec(leading, s) == s.len(),
    decreases s.len(),
{
    if s.len() > 0 {
        lemma_count_leading_all(leading, s.skip(1));
    }
}

/// The sixteen upper-case hexadecimal digits, in value order.
pub open spec fn hex_digits() -> Seq<char> {
    seq!['0', '1', '2', '3', '4', '5', '6', '7', '8', '9', 'A', 'B', 'C', 'D', 'E', 'F']
}

/// The upper-case hexadecimal digit for a value below sixteen.
pub fn hex_digit(n: u8) -> (c: char)
    requires
        n < 16,
    ensures
        c == hex_digits()[n as int],
{
    match n {
        0 => '0',
        1 => '1',
        2 => '2',
        3 => '3',
        4 => '4',
        5 => '5',
        6 => '6',
        7 => '7',
        8 => '8',
        9 => '9',
        10 => 'A',
        11 => 'B',
        12 => 'C',
        13 => 'D',
        14 => 'E',
        _ => 'F',
    }
}

/// The two hexadecimal digits of one byte, high digit first.
pub open spec fn hex_pair(b: u8) -> Seq<char> {
    seq![hex_digits()[b as int / 16], hex_digits()[b as int % 16]]
}

/// Hex text for a byte slice: two digits per byte, a space after every
/// fourth byte. `count` is how many bytes of the current group came before.
pub open spec fn hex_string_spec(data: Seq<u8>, count: int) -> Seq<char>
    decreases data.len(),
{
    if data.len() == 0 {
        Seq::empty()
    } else if count == 3 {
        hex_pair(data[0]) + seq![' '] + hex_string_spec(data.skip(1), 0)
    } else {
        hex_pair(data[0]) + hex_string_spec(data.skip(1), count + 1)
    }
}

pub fn make_hex_string(data: &[u8]) -> (hex_data: String)
    ensures
        hex_data@ == hex_string_spec(data@, 0),
{
    let mut hex_data = String::new();
    let mut count: u8 = 0;
    let mut i: usize = 0;
    proof {
        assert(data@.skip(0) =~= data@);
        assert(hex_data@ + hex_string_spec(data@, 0) =~= hex_string_spec(data@, 0));
    }
    while i < data.len()
        invariant
            i <= data@.len(),
            count < 4,
            hex_data@ + hex_string_spec(data@.skip(i as int), count as int) == hex_string_spec(
                data@,
                0,
            ),
        decreases data@.len() - i,
    {
        let byte = data[i];
        proof {
            assert(data@.skip(i as int)[0] == data@[i as int]);
            assert(data@.skip(i as int).skip(1) =~= data@.skip(i + 1));
        }
        push_char(&mut hex_data, hex_digit(byte / 16));
        push_char(&mut hex_data, hex_digit(byte % 16));
        count = count + 1;
        if count == 4 {
            push_char(&mut hex_data, ' ');
            count = 0;
        }
        i = i + 1;
        proof {
            assert(hex_data@ + hex_string_spec(data@.skip(i as int), count as int)
                =~= hex_string_spec(data@, 0));
        }
    }
    proof {
        assert(data@.skip(i as int) =~= Seq::<u8>::empty());
        assert(hex_data@ =~= hex_string_spec(data@, 0));
    }
    hex_data
}

/// The short display of one data byte: ` #XX` followed by the character
/// itself when it is printable ASCII.
pub open spec fn maybe_char_spec(ch: u8) -> Seq<char> {
    if 32 <= ch < 127 {
        seq![' ', '#'] + hex_pair(ch) + seq![' ', ch as char]
    } else {
        seq![' ', '#'] + hex_pair(ch)
    }
}

pub fn maybe_char(ch: u8) -> (s: String)
    ensures
        s@ == maybe_char_spec(ch),
{
    let mut s = String::new();
    push_char(&mut s, ' ');
    push_char(&mut s, '#');
    push_char(&mut s, hex_digit(ch / 16));
    push_char(&mut s, hex_digit(ch % 16));
    if 32 <= ch && ch < 127 {
        push_char(&mut s, ' ');
        push_char(&mut s, ch as char);
    }
    proof {
        assert(s@ =~= maybe_char_spec(ch));
    }
    s
}

pub fn on_off(b: bool) -> (s: &'static str)
    ensures
        s@ == if b {
            "on"@
        } else {
            "off"@
        },
{
    match b {
        true => "on",
        false => "off",
    }
}

pub fn yes_no(b: bool) -> (s: &'static str)
    ensures
        s@ == if b {
            "yes"@
        } else {
            "no"@
        },
{
    match b {
        true => "yes",
        false => "no",
    }
}

pub fn preserve_replace(b: bool) -> (s: &'static str)
    ensures
        s@ == if b {
            "Preserve"@
        } else {
            "Replace"@
        },
{
    match b {
        true => "Preserve",
        false => "Replace",
    }
}

pub fn fill_box(b: bool) -> (c: char)
    ensures
        c == if b {
            '\u{25C6}'
        } else {
            '\u{25C7}'
        },
{
    match b {
        true => '\u{25C6}',
        false => '\u{25C7}',
    }
}

#[inline]
pub fn hi_nybble(byte: u8) -> (r: u8)
    ensures
        r == byte & 0xF0,
{
    byte & 0xF0
}

#[inline]
pub fn lo_nybble(byte: u8) -> (r: u8)
    ensures
        r == byte & 0x0F,
{
    byte & 0x0F
}

/// The upper half of a 64-bit value.
#[inline]
pub fn hi_word(value: u64) -> (r: u32)
    ensures
        r == value >> 32,
{
    proof {
        assert(value >> 32 <= 0xFFFF_FFFFu64) by (bit_vector);
    }
    (value >> 32) as u32
}

/// The lower half of a 64-bit value.
#[inline]
pub fn lo_word(value: u64) -> (r: u32)
    ensures
        r == value & 0xFFFF_FFFF,
{
    proof {
        assert(value & 0xFFFF_FFFF <= 0xFFFF_FFFFu64) by (bit_vector);
    }
    (value & 0xFFFF_FFFF) as u32
}

/// Folds a 64-bit value to 32 bits by xoring its halves.
pub open spec fn xor_fold_spec(value: u64) -> u32 {
    ((value >> 32) ^ (value & 0xFFFF_FFFF)) as u32
}

#[inline]
pub fn xor_fold_u64(value: u64) -> (r: u32)
    ensures
        r == xor_fold_spec(value),
{
    hi_word(value) ^ lo_word(value)
}

/// The 32-bit content hash used to anonymize preset file names: the
/// standard hasher's digest of the bytes, xor-folded to 32 bits.
pub open spec fn short_hash_spec(data: Seq<u8>) -> u32 {
    xor_fold_spec(
        std::collections::hash_map::DefaultHasher::spec_finish(seq![data]),
    )
}

pub fn short_hash(data: &[u8]) -> (r: u32)
    ensures
        r == short_hash_spec(data@),
{
    let mut hasher = std::collections::hash_map::DefaultHasher::new();
    std::hash::Hasher::write(&mut hasher, data);
    let digest = std::hash::Hasher::finish(&hasher);
    xor_fold_u64(digest)
}

/// lowest bit (1) set (0x01)
#[inline]
pub fn is_bit1(value: u8) -> (r: bool)
    ensures
        r == (value & 0x01 != 0),
{
    0 != value & 0x01
}

/// bit 2 set (0x02)
#[inline]
pub fn is_bit2(value: u8) -> (r: bool)
    ensures
        r == (value & 0x02 != 0),
{
    0 != value & 0x02
}

/// bit 3 set (0x04)
#[inline]
pub fn is_bit3(value: u8) -> (r: bool)
    ensures
        r == (value & 0x04 != 0),
{
    0 != value & 0x04
}

/// bit 4 set (0x08)
#[inline]
pub fn is_bit4(value: u8) -> (r: bool)
    ensures
        r == (value & 0x08 != 0),
{
    0 != value & 0x08
}

/// bit 5 set (0x10)
#[inline]
pub fn is_bit5(value: u8) -> (r: bool)
    ensures
        r == (value & 0x10 != 0),
{
    0 != value & 0x10
}

/// bit 6 set (0x20)
#[inline]
pub fn is_bit6(value: u8) -> (r: bool)
    ensures
        r == (value & 0x20 != 0),
{
    0 != value & 0x20
}

/// bit 7 set (0x40)
#[inline]
pub fn is_bit7(value: u8) -> (r: bool)
    ensures
        r == (value & 0x40 != 0),
{
    0 != value & 0x40
}

/// bit 8 set (0x80)
#[inline]
pub fn is_bit8(value: u8) -> (r: bool)
    ensures
        r == (value & 0x80 != 0),
{
    0 != value & 0x80
}

/// The Levenshtein distance between the first `i` bytes of `a` and the
/// first `j` bytes of `b`.
pub open spec fn edit_dist(a: Seq<u8>, b: Seq<u8>, i: int, j: int) -> nat
    decreases i + j,
{
    if i <= 0 && j <= 0 {
        0
    } else if i <= 0 {
        j as nat
    } else if j <= 0 {
        i as nat
    } else {
        let sub = edit_dist(a, b, i - 1, j - 1) + (if a[i - 1] == b[j - 1] {
            0nat
        } else {
            1nat
        });
        let ins = edit_dist(a, b, i, j - 1) + 1;
        let del = edit_dist(a, b, i - 1, j) + 1;
        if sub <= ins && sub <= del {
            sub
        } else if ins <= del {
            ins
        } else {
            del
        }
    }
}

/// The distance between prefixes never exceeds their combined length.
pub proof fn lemma_edit_dist_bound(a: Seq<u8>, b: Seq<u8>, i: int, j: int)
    ensures
        edit_dist(a, b, i, j) <= (if i > 0 {
            i
        } else {
            0
        }) + (if j > 0 {
            j
        } else {
            0
        }),
    decreases i + j,
{
    if i > 0 && j > 0 {
        lemma_edit_dist_bound(a, b, i - 1, j - 1);
        lemma_edit_dist_bound(a, b, i, j - 1);
        lemma_edit_dist_bound(a, b, i - 1, j);
    }
}

/// The edit distance between two strings, measured over their bytes, by
/// the classic single-row dynamic program.
pub fn edit_distance(str_a: &str, str_b: &str) -> (r: u32)
    requires
        vstd::string::StringSliceAdditionalSpecFns::spec_bytes(str_a).len()
            + vstd::string::StringSliceAdditionalSpecFns::spec_bytes(str_b).len() < u32::MAX,
    ensures
        r == edit_dist(
            vstd::string::StringSliceAdditionalSpecFns::spec_bytes(str_a),
            vstd::string::StringSliceAdditionalSpecFns::spec_bytes(str_b),
            vstd::string::StringSliceAdditionalSpecFns::spec_bytes(str_a).len() as int,
            vstd::string::StringSliceAdditionalSpecFns::spec_bytes(str_b).len() as int,
        ),
{
    let a = str_a.as_bytes();
    let b = str_b.as_bytes();
    let m = a.len();
    let n = b.len();
    let mut distances: Vec<u32> = Vec::new();
    let mut j: usize = 0;
    while j <= n
        invariant
            j <= n + 1,
            n == b@.len(),
            m + n < u32::MAX,
            distances@.len() == j,
            forall|t: int| 0 <= t < j ==> distances@[t] == edit_dist(a@, b@, 0, t),
        decreases n + 1 - j,
    {
        distances.push(j as u32);
        j = j + 1;
    }
    let mut i: usize = 0;
    while i < m
        invariant
            i <= m,
            m == a@.len(),
            n == b@.len(),
            m + n < u32::MAX,
            distances@.len() == n + 1,
            forall|t: int| 0 <= t <= n ==> distances@[t] == edit_dist(a@, b@, i as int, t),
        decreases m - i,
    {
        let mut s: u32 = i as u32;
        let mut c: u32 = i as u32 + 1;
        let char_a = a[i];
        let mut j: usize = 1;
        proof {
            lemma_edit_dist_bound(a@, b@, i as int, 0);
            lemma_edit_dist_bound(a@, b@, i + 1, 0);
        }
        distances.set(0, c);
        while j <= n
            invariant
                1 <= j <= n + 1,
                i < m,
                m == a@.len(),
                n == b@.len(),
                m + n < u32::MAX,
                char_a == a@[i as int],
                distances@.len() == n + 1,
                s == edit_dist(a@, b@, i as int, j - 1),
                c == edit_dist(a@, b@, i + 1, j - 1),
                forall|t: int| 0 <= t < j ==> distances@[t] == edit_dist(a@, b@, i + 1, t),
                forall|t: int| j <= t <= n ==> distances@[t] == edit_dist(a@, b@, i as int, t),
            decreases n + 1 - j,
        {
            let char_b = b[j - 1];
            proof {
                lemma_edit_dist_bound(a@, b@, i as int, j - 1);
                lemma_edit_dist_bound(a@, b@, i + 1, j - 1);
                lemma_edit_dist_bound(a@, b@, i as int, j as int);
                lemma_edit_dist_bound(a@, b@, i + 1, j as int);
            }
            let sub = s + (if char_a != char_b {
                1
            } else {
                0
            });
            let ins = c + 1;
            let old_above = distances[j];
            let del = old_above + 1;
            let next = if sub <= ins && sub <= del {
                sub
            } else if ins <= del {
                ins
            } else {
                del
            };
            s = old_above;
            c = next;
            distances.set(j, next);
            j = j + 1;
        }
        i = i + 1;
    }
    distances[n]
}

/// A big-endian 16-bit value read from the first two bytes.
pub fn get_u16(data: &[u8]) -> (r: u16)
    requires
        data@.len() >= 2,
    ensures
        r == data@[0] as int * 256 + data@[1] as int,
{
    data[0] as u16 * 256 + data[1] as u16
}

/// A 14-bit MIDI value from its low and high 7-bit halves.
pub fn u16_from_midi_bytes(lo: u8, hi: u8) -> (r: u16)
    requires
        lo < 0x80,
    ensures
        r == hi as int * 128 + lo as int,
{
    hi as u16 * 128 + lo as u16
}

/// A big-endian 32-bit value read from the first four bytes.
pub fn get_u32(data: &[u8]) -> (r: u32)
    requires
        data@.len() >= 4,
    ensures
        r == data@[0] as int * 0x100_0000 + data@[1] as int * 0x1_0000 + data@[2] as int * 0x100
            + data@[3] as int,
{
    data[0] as u32 * 0x100_0000 + data[1] as u32 * 0x1_0000 + data[2] as u32 * 0x100
        + data[3] as u32
}

} // verus!
