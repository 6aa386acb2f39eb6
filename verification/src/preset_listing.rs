//! The preset listing file: one line per preset as
//! `<1-based slot number>,"<name>.mid"`, written in reverse collection
//! order, and the line-by-line parser that reads such a file back.

use vstd::prelude::*;
use crate::continuum_preset::{ContinuumPreset, NofN};
use crate::util::{hex_digits, hex_digit, push_char};

verus! {

/// The decimal digits of `n`, most significant first.
pub open spec fn decimal_chars(n: nat) -> Seq<char>
    decreases n,
{
    if n < 10 {
        seq![hex_digits()[n as int]]
    } else {
        decimal_chars(n / 10) + seq![hex_digits()[n as int % 10]]
    }
}

/// Appends the decimal digits of `v`.
pub(crate) fn push_decimal(out: &mut String, v: u16)
    ensures
        final(out)@ == old(out)@ + decimal_chars(v as nat),
    decreases v,
{
    if v < 10 {
        push_char(out, hex_digit(v as u8));
        proof {
            assert(out@ =~= old(out)@ + decimal_chars(v as nat));
        }
    } else {
        push_decimal(out, v / 10);
        push_char(out, hex_digit((v % 10) as u8));
        proof {
            assert(out@ =~= old(out)@ + decimal_chars(v as nat));
        }
    }
}

/// One listing line: the 1-based slot number, then the quoted file name.
pub open spec fn listing_line(p: ContinuumPreset) -> Seq<char> {
    decimal_chars((p.number + 1) as nat) + seq![',', '"'] + p.name@ + seq![
        '.',
        'm',
        'i',
        'd',
        '"',
        '\n',
    ]
}

/// The lines for the presets below `i`, written in reverse order.
pub open spec fn listing_rev(ps: Seq<ContinuumPreset>, i: int) -> Seq<char>
    decreases i,
{
    if i <= 0 || i > ps.len() {
        Seq::empty()
    } else {
        listing_line(ps[i - 1]) + listing_rev(ps, i - 1)
    }
}

/// The whole listing text for a preset collection.
pub open spec fn listing_text_spec(ps: Seq<ContinuumPreset>) -> Seq<char> {
    listing_rev(ps, ps.len() as int)
}

/// The listing file's text for these presets, last preset first.
pub fn listing_text(presets: &Vec<ContinuumPreset>) -> (text: String)
    ensures
        text@ == listing_text_spec(presets@),
{
    let mut text = String::new();
    let mut i: usize = presets.len();
    while i > 0
        invariant
            i <= presets@.len(),
            text@ + listing_rev(presets@, i as int) == listing_text_spec(presets@),
        decreases i,
    {
        i = i - 1;
        let p = &presets[i];
        let number = p.number;
        push_decimal(&mut text, number as u16 + 1);
        push_char(&mut text, ',');
        push_char(&mut text, '"');
        text.append(p.name.as_str());
        push_char(&mut text, '.');
        push_char(&mut text, 'm');
        push_char(&mut text, 'i');
        push_char(&mut text, 'd');
        push_char(&mut text, '"');
        push_char(&mut text, '\n');
        proof {
            assert(text@ + listing_rev(presets@, i as int) =~= listing_text_spec(presets@));
        }
    }
    proof {
        assert(text@ =~= listing_text_spec(presets@));
    }
    text
}

/// The first `c` at or after `i`, or `j`.
pub open spec fn find_char_from(s: Seq<char>, c: char, i: int, j: int) -> int
    decreases j - i,
{
    if i < 0 || i >= j || j > s.len() {
        j
    } else if s[i] == c {
        i
    } else {
        find_char_from(s, c, i + 1, j)
    }
}

fn find_char_at(text: &str, c: char, i: usize, j: usize) -> (r: usize)
    requires
        i <= j <= text@.len(),
    ensures
        r == find_char_from(text@, c, i as int, j as int),
        i <= r <= j,
    decreases j - i,
{
    if i >= j {
        j
    } else if text.get_char(i) == c {
        i
    } else {
        find_char_at(text, c, i + 1, j)
    }
}

/// Whether a character is trimmed around the slot number.
pub open spec fn is_ws(c: char) -> bool {
    c == ' ' || c == '\t' || c == '\r'
}

/// Whether a character is trimmed around the quoted name.
pub open spec fn is_name_trim(c: char) -> bool {
    c == ' ' || c == '\t' || c == '"'
}

/// The first position at or after `i` whose character survives trimming.
pub open spec fn skip_trim(s: Seq<char>, i: int, j: int, name_trim: bool) -> int
    decreases j - i,
{
    if i < 0 || i >= j || j > s.len() {
        j
    } else if (if name_trim {
        is_name_trim(s[i])
    } else {
        is_ws(s[i])
    }) {
        skip_trim(s, i + 1, j, name_trim)
    } else {
        i
    }
}

/// The position after the last character surviving trimming, at or before
/// `j`.
pub open spec fn rskip_trim(s: Seq<char>, i: int, j: int, name_trim: bool) -> int
    decreases j - i,
{
    if i < 0 || i >= j || j > s.len() {
        i
    } else if (if name_trim {
        is_name_trim(s[j - 1])
    } else {
        is_ws(s[j - 1])
    }) {
        rskip_trim(s, i, j - 1, name_trim)
    } else {
        j
    }
}

fn skip_trim_at(text: &str, i: usize, j: usize, name_trim: bool) -> (r: usize)
    requires
        i <= j <= text@.len(),
    ensures
        r == skip_trim(text@, i as int, j as int, name_trim),
        i <= r <= j,
    decreases j - i,
{
    if i >= j {
        j
    } else {
        let c = text.get_char(i);
        let hit = if name_trim {
            c == ' ' || c == '\t' || c == '"'
        } else {
            c == ' ' || c == '\t' || c == '\r'
        };
        if hit {
            skip_trim_at(text, i + 1, j, name_trim)
        } else {
            i
        }
    }
}

fn rskip_trim_at(text: &str, i: usize, j: usize, name_trim: bool) -> (r: usize)
    requires
        i <= j <= text@.len(),
    ensures
        r == rskip_trim(text@, i as int, j as int, name_trim),
        i <= r <= j,
    decreases j - i,
{
    if i >= j {
        i
    } else {
        let c = text.get_char(j - 1);
        let hit = if name_trim {
            c == ' ' || c == '\t' || c == '"'
        } else {
            c == ' ' || c == '\t' || c == '\r'
        };
        if hit {
            rskip_trim_at(text, i, j - 1, name_trim)
        } else {
            j
        }
    }
}

/// The value of a run of decimal digits read from `i`, or nothing if the
/// run is empty, holds a non-digit, or exceeds a byte.
pub open spec fn parse_u8_digits(s: Seq<char>, i: int, j: int, acc: int) -> Option<u8>
    decreases j - i,
{
    if acc > 255 || acc < 0 {
        None
    } else if i < 0 || i >= j || j > s.len() {
        Some(acc as u8)
    } else if '0' <= s[i] <= '9' {
        parse_u8_digits(s, i + 1, j, acc * 10 + (s[i] as int - '0' as int))
    } else {
        None
    }
}

/// The slot number in `s[i..j)`: optional `+`, then decimal digits.
pub open spec fn parse_u8_spec(s: Seq<char>, i: int, j: int) -> Option<u8> {
    if i >= j {
        None
    } else if s[i] == '+' {
        if i + 1 >= j {
            None
        } else {
            parse_u8_digits(s, i + 1, j, 0)
        }
    } else if '0' <= s[i] <= '9' {
        parse_u8_digits(s, i + 1, j, s[i] as int - '0' as int)
    } else {
        None
    }
}

fn parse_u8_digits_at(text: &str, i: usize, j: usize, acc: u16) -> (r: Option<u8>)
    requires
        i <= j <= text@.len(),
        acc <= 2559,
    ensures
        r == parse_u8_digits(text@, i as int, j as int, acc as int),
    decreases j - i,
{
    if acc > 255 {
        None
    } else if i >= j {
        Some(acc as u8)
    } else {
        let c = text.get_char(i);
        if '0' <= c && c <= '9' {
            let d = (c as u32 - '0' as u32) as u16;
            proof {
                assert(c as int - '0' as int == d as int);
            }
            parse_u8_digits_at(text, i + 1, j, acc * 10 + d)
        } else {
            None
        }
    }
}

/// Reads the slot number in `text[i..j)`.
pub(crate) fn parse_u8_at(text: &str, i: usize, j: usize) -> (r: Option<u8>)
    requires
        i <= j <= text@.len(),
    ensures
        r == parse_u8_spec(text@, i as int, j as int),
{
    if i >= j {
        None
    } else {
        let c = text.get_char(i);
        if c == '+' {
            if i + 1 >= j {
                None
            } else {
                parse_u8_digits_at(text, i + 1, j, 0)
            }
        } else if '0' <= c && c <= '9' {
            let d = (c as u32 - '0' as u32) as u16;
            proof {
                assert(c as int - '0' as int == d as int);
            }
            parse_u8_digits_at(text, i + 1, j, d)
        } else {
            None
        }
    }
}

/// What one listing line yields: the slot number before the first comma
/// and the trimmed name between the first and second comma.
pub open spec fn parse_line_spec(s: Seq<char>) -> Option<(u8, Seq<char>)> {
    let comma = find_char_from(s, ',', 0, s.len() as int);
    if comma >= s.len() {
        None
    } else {
        let n0 = skip_trim(s, 0, comma, false);
        let n1 = rskip_trim(s, n0, comma, false);
        match parse_u8_spec(s, n0, n1) {
            None => None,
            Some(number) => {
                let comma2 = find_char_from(s, ',', comma + 1, s.len() as int);
                let m0 = skip_trim(s, comma + 1, comma2, true);
                let m1 = rskip_trim(s, m0, comma2, true);
                if m1 <= m0 {
                    None
                } else {
                    Some((number, s.subrange(m0, m1)))
                }
            },
        }
    }
}

/// The presets of the listing's lines, stopping silently at the first
/// malformed line.
pub open spec fn parse_listing_spec(lines: Seq<Seq<char>>, i: int) -> Seq<(u8, Seq<char>)>
    decreases lines.len() - i,
{
    if i < 0 || i >= lines.len() {
        Seq::empty()
    } else {
        match parse_line_spec(lines[i]) {
            None => Seq::empty(),
            Some(p) => seq![p] + parse_listing_spec(lines, i + 1),
        }
    }
}

/// The slot numbers and names of a preset collection.
pub open spec fn preset_entries(ps: Seq<ContinuumPreset>) -> Seq<(u8, Seq<char>)> {
    ps.map_values(|p: ContinuumPreset| (p.number, p.name@))
}

/// The fields of a preset parsed from a listing line.
pub open spec fn listed_preset(p: ContinuumPreset, entry: (u8, Seq<char>)) -> bool {
    &&& p.name@ == entry.1
    &&& p.text@ == Seq::<char>::empty()
    &&& p.category@ == Seq::<char>::empty()
    &&& p.bank_hi == 0
    &&& p.bank_lo == 0
    &&& p.number == entry.0
    &&& p.nofn == NofN::Single
}

fn parse_one_line(line: &str) -> (r: Option<ContinuumPreset>)
    ensures
        match parse_line_spec(line@) {
            None => r is None,
            Some(entry) => r is Some && listed_preset(r->0, entry),
        },
{
    let len = line.unicode_len();
    let comma = find_char_at(line, ',', 0, len);
    if comma >= len {
        return None;
    }
    let n0 = skip_trim_at(line, 0, comma, false);
    let n1 = rskip_trim_at(line, n0, comma, false);
    let number = match parse_u8_at(line, n0, n1) {
        Some(n) => n,
        None => {
            return None;
        },
    };
    let comma2 = find_char_at(line, ',', comma + 1, len);
    let m0 = skip_trim_at(line, comma + 1, comma2, true);
    let m1 = rskip_trim_at(line, m0, comma2, true);
    if m1 <= m0 {
        return None;
    }
    let name = line.substring_char(m0, m1).to_owned();
    Some(
        ContinuumPreset {
            name,
            text: String::new(),
            category: String::new(),
            bank_hi: 0,
            bank_lo: 0,
            number,
            nofn: NofN::Single,
        },
    )
}

/// Parses a listing file's lines into presets, stopping silently at the
/// first malformed line, as the instrument's own editor does.
pub fn parse_preset_listing(lines: &Vec<String>) -> (result: Vec<ContinuumPreset>)
    ensures
        ({
            let entries = parse_listing_spec(crate::continuum_preset::string_views(lines@), 0);
            result@.len() == entries.len() && (forall|k: int|
                0 <= k < entries.len() ==> listed_preset(#[trigger] result@[k], entries[k]))
        }),
{
    let mut result: Vec<ContinuumPreset> = Vec::new();
    let mut i: usize = 0;
    let mut stopped = false;
    let ghost views = crate::continuum_preset::string_views(lines@);
    let ghost entries = parse_listing_spec(views, 0);
    while i < lines.len() && !stopped
        invariant
            i <= lines@.len(),
            views == crate::continuum_preset::string_views(lines@),
            entries == parse_listing_spec(views, 0),
            parse_listing_spec(views, 0) == preset_entries(result@) + parse_listing_spec(
                views,
                i as int,
            ),
            stopped ==> parse_listing_spec(views, i as int) == Seq::<(u8, Seq<char>)>::empty(),
            result@.len() <= i,
            forall|k: int|
                0 <= k < result@.len() ==> listed_preset(#[trigger] result@[k], entries[k]),
        decreases lines@.len() - i + (if stopped { 0int } else { 1 }),
    {
        proof {
            assert(views[i as int] == lines@[i as int]@);
        }
        let ghost old_result = result@;
        match parse_one_line(&lines[i]) {
            Some(p) => {
                result.push(p);
                proof {
                    assert(preset_entries(result@) =~= preset_entries(old_result).push(
                        (result@.last().number, result@.last().name@),
                    ));
                    assert(parse_listing_spec(views, i as int) =~= seq![
                        parse_line_spec(views[i as int])->0,
                    ] + parse_listing_spec(views, i + 1));
                    assert(parse_listing_spec(views, 0) =~= preset_entries(result@)
                        + parse_listing_spec(views, i + 1));
                    assert(entries[old_result.len() as int] == parse_listing_spec(
                        views,
                        i as int,
                    )[0]);
                }
                i = i + 1;
            },
            None => {
                stopped = true;
                proof {
                    assert(parse_listing_spec(views, i as int) =~= Seq::<(u8, Seq<char>)>::empty());
                }
            },
        }
    }
    proof {
        if !stopped {
            assert(parse_listing_spec(views, i as int) =~= Seq::<(u8, Seq<char>)>::empty());
        }
        assert(entries =~= preset_entries(result@));
        assert(entries.len() == result@.len());
    }
    result
}

} // verus!
