//! The preset data model: the builder that gathers one preset's metadata
//! from the inbound stream, the anonymized-filename rule, and the category
//! code table with its decoder.

use vstd::prelude::*;
use crate::util::{hex_pair, hex_digit, push_char, short_hash, short_hash_spec};

verus! {

/// Whether a preset is the first of a single, double, or triple
/// combination.
#[derive(Clone, Copy, Debug, PartialEq, Eq, Structural)]
pub enum NofN {
    Single,
    Double,
    Triple,
}

impl Default for NofN {
    fn default() -> (r: Self)
        ensures
            r == NofN::Single,
    {
        NofN::Single
    }
}

/// The sentinel meaning "no program number seen yet".
pub const NUMBER_UNSET: u8 = u8::MAX;

/// One preset's metadata as gathered from the instrument.
#[derive(Clone)]
pub struct ContinuumPreset {
    pub name: String,
    pub text: String,
    pub category: String,
    /// MIDI cc0.
    pub bank_hi: u8,
    /// MIDI cc32.
    pub bank_lo: u8,
    /// MIDI program change.
    pub number: u8,
    pub nofn: NofN,
}

impl crate::midi_traits::Described for ContinuumPreset {
    /// One line of preset details: the bank address and number, what the
    /// bank-select value means, the combined index, the quoted name, the
    /// multiplicity, and the free text.
    fn describe(&self) -> String {
        let mut line = String::from_str("Preset: [");
        crate::preset_listing::push_decimal(&mut line, self.bank_hi as u16);
        push_char(&mut line, '-');
        crate::preset_listing::push_decimal(&mut line, self.bank_lo as u16);
        push_char(&mut line, '-');
        crate::preset_listing::push_decimal(&mut line, self.number as u16);
        push_char(&mut line, ' ');
        line.append(
            if self.bank_hi == 0 {
                "User preset"
            } else if self.bank_hi == 126 {
                "Current editing slot"
            } else if self.bank_hi == 127 {
                "System preset"
            } else {
                "cat-code"
            },
        );
        push_char(&mut line, ' ');
        let preset_index = self.bank_lo as u16 * 128 + self.number as u16;
        crate::preset_listing::push_decimal(&mut line, preset_index);
        line.append(" \"");
        line.append(self.name.as_str());
        line.append("\" ");
        line.append(
            match self.nofn {
                NofN::Single => "",
                NofN::Double => "first of 2 ",
                NofN::Triple => "first of 3 ",
            },
        );
        line.append(self.text.as_str());
        line
    }
}

/// The name of an empty preset slot: `Empty`, or `Empty.` followed by
/// anything.
pub open spec fn empty_name_chars() -> Seq<char> {
    seq!['E', 'm', 'p', 't', 'y']
}

pub open spec fn is_empty_preset_name_spec(s: Seq<char>) -> bool {
    if s.len() == 5 {
        s == empty_name_chars()
    } else if s.len() >= 6 {
        s.subrange(0, 6) == empty_name_chars().push('.')
    } else {
        false
    }
}

/// True for the names that mark an empty or unnamed slot and are given an
/// anonymized file name instead.
pub fn is_empty_preset_name(name: &str) -> (r: bool)
    ensures
        r == is_empty_preset_name_spec(name@),
{
    let len = name.unicode_len();
    if len < 5 {
        false
    } else if len == 5 {
        let r = name.get_char(0) == 'E' && name.get_char(1) == 'm' && name.get_char(2) == 'p'
            && name.get_char(3) == 't' && name.get_char(4) == 'y';
        proof {
            if r {
                assert(name@ =~= empty_name_chars());
            } else {
                assert(name@ != empty_name_chars());
            }
        }
        r
    } else {
        let r = name.get_char(0) == 'E' && name.get_char(1) == 'm' && name.get_char(2) == 'p'
            && name.get_char(3) == 't' && name.get_char(4) == 'y' && name.get_char(5) == '.';
        proof {
            let p = name@.subrange(0, 6);
            assert(p[0] == name@[0] && p[1] == name@[1] && p[2] == name@[2] && p[3] == name@[3]
                && p[4] == name@[4] && p[5] == name@[5]);
            let pat = empty_name_chars().push('.');
            assert(pat[0] == 'E' && pat[1] == 'm' && pat[2] == 'p' && pat[3] == 't' && pat[4]
                == 'y' && pat[5] == '.');
            if r {
                assert(p =~= pat);
            }
        }
        r
    }
}

/// The eight hexadecimal digits of a 32-bit hash, high digit first.
pub open spec fn hex32_chars(h: u32) -> Seq<char> {
    hex_pair((h / 0x100_0000) as u8) + hex_pair(((h / 0x1_0000) % 0x100) as u8) + hex_pair(
        ((h / 0x100) % 0x100) as u8,
    ) + hex_pair((h % 0x100) as u8)
}

/// The file name a preset is stored under: the preset's own name, or
/// `anon-` and a content hash for empty or unnamed slots, with `.mid`
/// appended either way.
pub open spec fn preset_filename_spec(name: Seq<char>, data: Seq<u8>) -> Seq<char> {
    let stem = if is_empty_preset_name_spec(name) {
        seq!['a', 'n', 'o', 'n', '-'] + hex32_chars(short_hash_spec(data))
    } else {
        name
    };
    stem + seq!['.', 'm', 'i', 'd']
}

pub fn make_preset_filename(preset: &str, data: &[u8]) -> (r: String)
    ensures
        r@ == preset_filename_spec(preset@, data@),
{
    let anon = is_empty_preset_name(preset);
    let mut r = String::new();
    if anon {
        push_char(&mut r, 'a');
        push_char(&mut r, 'n');
        push_char(&mut r, 'o');
        push_char(&mut r, 'n');
        push_char(&mut r, '-');
        let h = short_hash(data);
        proof {
            assert(h / 0x100_0000 < 0x100 && (h / 0x1_0000) % 0x100 < 0x100 && (h / 0x100) % 0x100
                < 0x100 && h % 0x100 < 0x100) by (bit_vector);
        }
        let b0 = (h / 0x100_0000) as u8;
        let b1 = ((h / 0x1_0000) % 0x100) as u8;
        let b2 = ((h / 0x100) % 0x100) as u8;
        let b3 = (h % 0x100) as u8;
        push_char(&mut r, hex_digit(b0 / 16));
        push_char(&mut r, hex_digit(b0 % 16));
        push_char(&mut r, hex_digit(b1 / 16));
        push_char(&mut r, hex_digit(b1 % 16));
        push_char(&mut r, hex_digit(b2 / 16));
        push_char(&mut r, hex_digit(b2 % 16));
        push_char(&mut r, hex_digit(b3 / 16));
        push_char(&mut r, hex_digit(b3 % 16));
    } else {
        r = String::from_str(preset);
    }
    push_char(&mut r, '.');
    push_char(&mut r, 'm');
    push_char(&mut r, 'i');
    push_char(&mut r, 'd');
    proof {
        assert(r@ =~= preset_filename_spec(preset@, data@));
    }
    r
}

/// Accumulates one preset's fields from the inbound stream and yields a
/// snapshot once the terminating program change arrives.
pub struct PresetBuilder {
    name: String,
    text: String,
    category: String,
    bank_hi: u8,
    bank_lo: u8,
    number: u8,
    nofn: NofN,
}

/// The abstract state of the builder: its gathered fields.
pub ghost struct PresetBuilderView {
    pub name: Seq<char>,
    pub text: Seq<char>,
    pub category: Seq<char>,
    pub bank_hi: u8,
    pub bank_lo: u8,
    pub number: u8,
    pub nofn: NofN,
}

impl View for PresetBuilder {
    type V = PresetBuilderView;

    closed spec fn view(&self) -> PresetBuilderView {
        PresetBuilderView {
            name: self.name@,
            text: self.text@,
            category: self.category@,
            bank_hi: self.bank_hi,
            bank_lo: self.bank_lo,
            number: self.number,
            nofn: self.nofn,
        }
    }
}

impl PresetBuilder {
    pub open spec fn spec_name(&self) -> Seq<char> {
        self@.name
    }

    pub open spec fn spec_text(&self) -> Seq<char> {
        self@.text
    }

    pub open spec fn spec_category(&self) -> Seq<char> {
        self@.category
    }

    pub open spec fn spec_bank_hi(&self) -> u8 {
        self@.bank_hi
    }

    pub open spec fn spec_bank_lo(&self) -> u8 {
        self@.bank_lo
    }

    pub open spec fn spec_number(&self) -> u8 {
        self@.number
    }

    pub open spec fn spec_nofn(&self) -> NofN {
        self@.nofn
    }

    /// The start state: everything empty, the number unset.
    pub open spec fn is_reset(&self) -> bool {
        &&& self.spec_name() == Seq::<char>::empty()
        &&& self.spec_text() == Seq::<char>::empty()
        &&& self.spec_category() == Seq::<char>::empty()
        &&& self.spec_bank_hi() == 0
        &&& self.spec_bank_lo() == 0
        &&& self.spec_number() == NUMBER_UNSET
        &&& self.spec_nofn() == NofN::Single
    }

    pub fn new() -> (r: Self)
        ensures
            r.is_reset(),
    {
        PresetBuilder {
            name: String::new(),
            text: String::new(),
            category: String::new(),
            bank_hi: 0,
            bank_lo: 0,
            number: NUMBER_UNSET,
            nofn: NofN::Single,
        }
    }

    pub fn name_add(&mut self, ch: char)
        ensures
            final(self).spec_name() == old(self).spec_name().push(ch),
            final(self).spec_text() == old(self).spec_text(),
            final(self).spec_category() == old(self).spec_category(),
            final(self).spec_bank_hi() == old(self).spec_bank_hi(),
            final(self).spec_bank_lo() == old(self).spec_bank_lo(),
            final(self).spec_number() == old(self).spec_number(),
            final(self).spec_nofn() == old(self).spec_nofn(),
    {
        push_char(&mut self.name, ch);
    }

    pub fn text_add(&mut self, ch: char)
        ensures
            final(self).spec_text() == old(self).spec_text().push(ch),
            final(self).spec_name() == old(self).spec_name(),
            final(self).spec_category() == old(self).spec_category(),
            final(self).spec_bank_hi() == old(self).spec_bank_hi(),
            final(self).spec_bank_lo() == old(self).spec_bank_lo(),
            final(self).spec_number() == old(self).spec_number(),
            final(self).spec_nofn() == old(self).spec_nofn(),
    {
        push_char(&mut self.text, ch);
    }

    pub fn category_add(&mut self, ch: char)
        ensures
            final(self).spec_category() == old(self).spec_category().push(ch),
            final(self).spec_name() == old(self).spec_name(),
            final(self).spec_text() == old(self).spec_text(),
            final(self).spec_bank_hi() == old(self).spec_bank_hi(),
            final(self).spec_bank_lo() == old(self).spec_bank_lo(),
            final(self).spec_number() == old(self).spec_number(),
            final(self).spec_nofn() == old(self).spec_nofn(),
    {
        push_char(&mut self.category, ch);
    }

    /// Appends every character of `name` to the gathered name.
    pub fn add_name_chars(&mut self, name: &str)
        ensures
            final(self).spec_name() == old(self).spec_name() + name@,
            final(self).spec_text() == old(self).spec_text(),
            final(self).spec_category() == old(self).spec_category(),
            final(self).spec_bank_hi() == old(self).spec_bank_hi(),
            final(self).spec_bank_lo() == old(self).spec_bank_lo(),
            final(self).spec_number() == old(self).spec_number(),
            final(self).spec_nofn() == old(self).spec_nofn(),
    {
        let len = name.unicode_len();
        let mut i: usize = 0;
        while i < len
            invariant
                i <= len,
                len == name@.len(),
                self.spec_name() == old(self).spec_name() + name@.take(i as int),
                self.spec_text() == old(self).spec_text(),
                self.spec_category() == old(self).spec_category(),
                self.spec_bank_hi() == old(self).spec_bank_hi(),
                self.spec_bank_lo() == old(self).spec_bank_lo(),
                self.spec_number() == old(self).spec_number(),
                self.spec_nofn() == old(self).spec_nofn(),
            decreases len - i,
        {
            let ch = name.get_char(i);
            self.name_add(ch);
            proof {
                assert(name@.take(i + 1) =~= name@.take(i as int).push(name@[i as int]));
            }
            i = i + 1;
        }
        proof {
            assert(name@.take(len as int) =~= name@);
        }
    }

    pub fn set_name(&mut self, name: String)
        ensures
            final(self).spec_name() == name@,
            final(self).spec_text() == old(self).spec_text(),
            final(self).spec_category() == old(self).spec_category(),
            final(self).spec_bank_hi() == old(self).spec_bank_hi(),
            final(self).spec_bank_lo() == old(self).spec_bank_lo(),
            final(self).spec_number() == old(self).spec_number(),
            final(self).spec_nofn() == old(self).spec_nofn(),
    {
        self.name = name;
    }

    pub fn set_text(&mut self, text: String)
        ensures
            final(self).spec_text() == text@,
            final(self).spec_name() == old(self).spec_name(),
            final(self).spec_category() == old(self).spec_category(),
            final(self).spec_bank_hi() == old(self).spec_bank_hi(),
            final(self).spec_bank_lo() == old(self).spec_bank_lo(),
            final(self).spec_number() == old(self).spec_number(),
            final(self).spec_nofn() == old(self).spec_nofn(),
    {
        self.text = text;
    }

    pub fn set_category(&mut self, text: String)
        ensures
            final(self).spec_category() == text@,
            final(self).spec_name() == old(self).spec_name(),
            final(self).spec_text() == old(self).spec_text(),
            final(self).spec_bank_hi() == old(self).spec_bank_hi(),
            final(self).spec_bank_lo() == old(self).spec_bank_lo(),
            final(self).spec_number() == old(self).spec_number(),
            final(self).spec_nofn() == old(self).spec_nofn(),
    {
        self.category = text;
    }

    pub fn set_bank_hi(&mut self, hi: u8)
        ensures
            final(self).spec_bank_hi() == hi,
            final(self).spec_name() == old(self).spec_name(),
            final(self).spec_text() == old(self).spec_text(),
            final(self).spec_category() == old(self).spec_category(),
            final(self).spec_bank_lo() == old(self).spec_bank_lo(),
            final(self).spec_number() == old(self).spec_number(),
            final(self).spec_nofn() == old(self).spec_nofn(),
    {
        self.bank_hi = hi;
    }

    pub fn set_bank_lo(&mut self, lo: u8)
        ensures
            final(self).spec_bank_lo() == lo,
            final(self).spec_name() == old(self).spec_name(),
            final(self).spec_text() == old(self).spec_text(),
            final(self).spec_category() == old(self).spec_category(),
            final(self).spec_bank_hi() == old(self).spec_bank_hi(),
            final(self).spec_number() == old(self).spec_number(),
            final(self).spec_nofn() == old(self).spec_nofn(),
    {
        self.bank_lo = lo;
    }

    pub fn set_number(&mut self, num: u8)
        ensures
            final(self).spec_number() == num,
            final(self).spec_name() == old(self).spec_name(),
            final(self).spec_text() == old(self).spec_text(),
            final(self).spec_category() == old(self).spec_category(),
            final(self).spec_bank_hi() == old(self).spec_bank_hi(),
            final(self).spec_bank_lo() == old(self).spec_bank_lo(),
            final(self).spec_nofn() == old(self).spec_nofn(),
    {
        self.number = num;
    }

    pub fn set_nofn(&mut self, nofn: NofN)
        ensures
            final(self).spec_nofn() == nofn,
            final(self).spec_name() == old(self).spec_name(),
            final(self).spec_text() == old(self).spec_text(),
            final(self).spec_category() == old(self).spec_category(),
            final(self).spec_bank_hi() == old(self).spec_bank_hi(),
            final(self).spec_bank_lo() == old(self).spec_bank_lo(),
            final(self).spec_number() == old(self).spec_number(),
    {
        self.nofn = nofn;
    }

    /// Clears every field and marks the number unset.
    pub fn start(&mut self)
        ensures
            final(self).is_reset(),
    {
        self.name = String::new();
        self.text = String::new();
        self.category = String::new();
        self.bank_hi = 0;
        self.bank_lo = 0;
        self.number = NUMBER_UNSET;
        self.nofn = NofN::Single;
    }

    /// Yields the gathered preset and resets. A preset is complete only
    /// when a number was set and the name is non-empty; otherwise nothing
    /// is returned and the partial state is discarded.
    pub fn finish(&mut self) -> (r: Option<ContinuumPreset>)
        ensures
            final(self).is_reset(),
            (old(self).spec_number() == NUMBER_UNSET || old(self).spec_name().len() == 0) <==> r
                is None,
            r is Some ==> {
                let p = r->0;
                &&& p.name@ == old(self).spec_name()
                &&& p.text@ == old(self).spec_text()
                &&& p.category@ == old(self).spec_category()
                &&& p.bank_hi == old(self).spec_bank_hi()
                &&& p.bank_lo == old(self).spec_bank_lo()
                &&& p.number == old(self).spec_number()
                &&& p.nofn == old(self).spec_nofn()
            },
    {
        if self.number == NUMBER_UNSET || self.name.as_str().is_empty() {
            self.start();
            return None;
        }
        let result = ContinuumPreset {
            name: self.name.clone(),
            text: self.text.clone(),
            category: self.category.clone(),
            bank_hi: self.bank_hi,
            bank_lo: self.bank_lo,
            number: self.number,
            nofn: self.nofn,
        };
        self.start();
        Some(result)
    }
}


/// The semantic group a category code belongs to.
#[derive(Clone, Copy, Debug, PartialEq, Eq, Structural)]
pub enum PresetGroup {
    Unknown,
    Category,
    Type,
    Character,
    Matrix,
    Setting,
}

/// The display name of a group.
pub open spec fn group_name_chars(g: PresetGroup) -> Seq<char> {
    match g {
        PresetGroup::Unknown => "x"@,
        PresetGroup::Category => "category"@,
        PresetGroup::Type => "type"@,
        PresetGroup::Character => "character"@,
        PresetGroup::Matrix => "matrix"@,
        PresetGroup::Setting => "setting"@,
    }
}

impl crate::midi_traits::Named for PresetGroup {
    fn name(&self) -> &'static str {
        group_name(*self)
    }
}

fn group_name(g: PresetGroup) -> (r: &'static str)
    ensures
        r@ == group_name_chars(g),
{
    match g {
        PresetGroup::Unknown => "x",
        PresetGroup::Category => "category",
        PresetGroup::Type => "type",
        PresetGroup::Character => "character",
        PresetGroup::Matrix => "matrix",
        PresetGroup::Setting => "setting",
    }
}

/// What closes the previous group when a new group begins.
pub open spec fn group_sep_chars(g: PresetGroup) -> Seq<char> {
    match g {
        PresetGroup::Category => ", "@,
        PresetGroup::Unknown => ""@,
        _ => "], "@,
    }
}

fn group_sep(g: PresetGroup) -> (r: &'static str)
    ensures
        r@ == group_sep_chars(g),
{
    match g {
        PresetGroup::Category => ", ",
        PresetGroup::Unknown => "",
        _ => "], ",
    }
}

/// What follows a group name: category values stand inline, the other
/// groups open a bracketed list.
pub open spec fn group_colon_chars(g: PresetGroup) -> Seq<char> {
    if g == PresetGroup::Category {
        ":"@
    } else {
        ":["@
    }
}

fn group_colon(g: PresetGroup) -> (r: &'static str)
    ensures
        r@ == group_colon_chars(g),
{
    if let PresetGroup::Category = g {
        ":"
    } else {
        ":["
    }
}

/// One entry of the category code table.
#[derive(Clone, Copy)]
pub struct PresetMeta {
    pub code: &'static str,
    pub group: PresetGroup,
    pub index: u8,
    pub name: &'static str,
}

/// The first space or newline at or after `i`, or the length.
pub open spec fn find_sep(s: Seq<char>, i: int) -> int
    decreases s.len() - i,
{
    if i < 0 || i >= s.len() {
        s.len() as int
    } else if s[i] == ' ' || s[i] == '\n' {
        i
    } else {
        find_sep(s, i + 1)
    }
}

proof fn lemma_find_sep_ge(s: Seq<char>, i: int)
    requires
        0 <= i <= s.len(),
    ensures
        i <= find_sep(s, i) <= s.len(),
    decreases s.len() - i,
{
    if i < s.len() && !(s[i] == ' ' || s[i] == '\n') {
        lemma_find_sep_ge(s, i + 1);
    }
}

/// The first `C=` marker strictly inside `[i, j)`.
pub open spec fn find_cmark(s: Seq<char>, i: int, j: int) -> Option<int>
    decreases j - i,
{
    if i < 0 || i + 1 >= j || j > s.len() {
        None
    } else if s[i] == 'C' && s[i + 1] == '=' {
        Some(i)
    } else {
        find_cmark(s, i + 1, j)
    }
}

proof fn lemma_find_cmark_range(s: Seq<char>, i: int, j: int)
    requires
        find_cmark(s, i, j) is Some,
    ensures
        i <= find_cmark(s, i, j)->0,
        find_cmark(s, i, j)->0 + 2 <= j <= s.len(),
    decreases j - i,
{
    if !(i < 0 || i + 1 >= j || j > s.len()) && !(s[i] == 'C' && s[i + 1] == '=') {
        lemma_find_cmark_range(s, i + 1, j);
    }
}

/// The first underscore in `[i, j)`, or `j`.
pub open spec fn find_underscore(s: Seq<char>, i: int, j: int) -> int
    decreases j - i,
{
    if i < 0 || i >= j || j > s.len() {
        j
    } else if s[i] == '_' {
        i
    } else {
        find_underscore(s, i + 1, j)
    }
}

proof fn lemma_find_underscore_ge(s: Seq<char>, i: int, j: int)
    requires
        0 <= i <= j <= s.len(),
    ensures
        i <= find_underscore(s, i, j) <= j,
    decreases j - i,
{
    if i < j && s[i] != '_' {
        lemma_find_underscore_ge(s, i + 1, j);
    }
}

/// The pieces of `s[i..j)` split on underscores; a piece may be empty.
pub open spec fn split_codes(s: Seq<char>, i: int, j: int) -> Seq<Seq<char>>
    decreases j - i + 1,
{
    if i < 0 || i > j || j > s.len() {
        Seq::empty()
    } else {
        let k = find_underscore(s, i, j);
        if k >= j {
            seq![s.subrange(i, j)]
        } else if k < i {
            Seq::empty()
        } else {
            seq![s.subrange(i, k)] + split_codes(s, k + 1, j)
        }
    }
}

/// The coded pieces of `text`: each space- or newline-separated section
/// that holds a `C=` marker contributes what follows the marker, split on
/// underscores.
pub open spec fn category_list_spec(s: Seq<char>, i: int) -> Seq<Seq<char>>
    decreases s.len() - i + 1,
{
    if i < 0 || i > s.len() {
        Seq::empty()
    } else {
        let j = find_sep(s, i);
        let here = match find_cmark(s, i, j) {
            Some(p) => split_codes(s, p + 2, j),
            None => Seq::empty(),
        };
        if j >= s.len() || j < i {
            here
        } else {
            here + category_list_spec(s, j + 1)
        }
    }
}

/// The views of a vector of strings.
pub open spec fn string_views(v: Seq<String>) -> Seq<Seq<char>> {
    v.map_values(|t: String| t@)
}

fn find_sep_from(text: &str, i: usize) -> (r: usize)
    requires
        i <= text@.len(),
    ensures
        r == find_sep(text@, i as int),
        i <= r <= text@.len(),
    decreases text@.len() - i,
{
    let n = text.unicode_len();
    if i >= n {
        n
    } else {
        let c = text.get_char(i);
        if c == ' ' || c == '\n' {
            i
        } else {
            find_sep_from(text, i + 1)
        }
    }
}

fn find_cmark_from(text: &str, i: usize, j: usize) -> (r: Option<usize>)
    requires
        i <= j <= text@.len(),
    ensures
        match r {
            Some(p) => find_cmark(text@, i as int, j as int) == Some(p as int) && i <= p && p + 2
                <= j,
            None => find_cmark(text@, i as int, j as int) is None,
        },
    decreases j - i,
{
    if j - i < 2 {
        None
    } else if text.get_char(i) == 'C' && text.get_char(i + 1) == '=' {
        Some(i)
    } else {
        find_cmark_from(text, i + 1, j)
    }
}

fn find_underscore_from(text: &str, i: usize, j: usize) -> (r: usize)
    requires
        i <= j <= text@.len(),
    ensures
        r == find_underscore(text@, i as int, j as int),
        i <= r <= j,
    decreases j - i,
{
    if i >= j {
        j
    } else if text.get_char(i) == '_' {
        i
    } else {
        find_underscore_from(text, i + 1, j)
    }
}

fn push_codes(text: &str, i: usize, j: usize, out: &mut Vec<String>)
    requires
        i <= j <= text@.len(),
    ensures
        string_views(final(out)@) == string_views(old(out)@) + split_codes(
            text@,
            i as int,
            j as int,
        ),
    decreases j - i + 1,
{
    let k = find_underscore_from(text, i, j);
    if k >= j {
        let piece = text.substring_char(i, j).to_owned();
        out.push(piece);
        proof {
            assert(string_views(out@) =~= string_views(old(out)@) + split_codes(
                text@,
                i as int,
                j as int,
            ));
        }
    } else {
        let piece = text.substring_char(i, k).to_owned();
        out.push(piece);
        let ghost mid = out@;
        push_codes(text, k + 1, j, out);
        proof {
            assert(string_views(mid) =~= string_views(old(out)@).push(text@.subrange(
                i as int,
                k as int,
            )));
            assert(string_views(out@) =~= string_views(old(out)@) + split_codes(
                text@,
                i as int,
                j as int,
            ));
        }
    }
}

fn gather_list(text: &str, i: usize, out: &mut Vec<String>)
    requires
        i <= text@.len(),
    ensures
        string_views(final(out)@) == string_views(old(out)@) + category_list_spec(
            text@,
            i as int,
        ),
    decreases text@.len() - i + 1,
{
    let n = text.unicode_len();
    let j = find_sep_from(text, i);
    match find_cmark_from(text, i, j) {
        Some(p) => {
            push_codes(text, p + 2, j, out);
        },
        None => {
            proof {
                assert(string_views(out@) =~= string_views(old(out)@) + Seq::<Seq<char>>::empty());
            }
        },
    }
    if j < n {
        let ghost mid = out@;
        gather_list(text, j + 1, out);
        proof {
            assert(string_views(out@) =~= string_views(old(out)@) + category_list_spec(
                text@,
                i as int,
            ));
        }
    }
}

/// Every coded piece of `text`, in order of appearance.
pub fn category_list(text: &str) -> (result: Vec<String>)
    ensures
        string_views(result@) == category_list_spec(text@, 0),
{
    let mut result: Vec<String> = Vec::new();
    proof {
        assert(string_views(result@) =~= Seq::<Seq<char>>::empty());
    }
    gather_list(text, 0, &mut result);
    proof {
        assert(string_views(result@) =~= category_list_spec(text@, 0));
    }
    result
}

/// The first table entry whose code is `code`.
pub open spec fn lookup_meta(entries: Seq<PresetMeta>, k: int, code: Seq<char>) -> Option<
    PresetMeta,
>
    decreases entries.len() - k,
{
    if k < 0 || k >= entries.len() {
        None
    } else if entries[k].code@ == code {
        Some(entries[k])
    } else {
        lookup_meta(entries, k + 1, code)
    }
}

/// The first category-group entry accepted by `sel` (by name or by code).
pub open spec fn lookup_category(
    entries: Seq<PresetMeta>,
    k: int,
    key: Seq<char>,
    by_name: bool,
) -> Option<PresetMeta>
    decreases entries.len() - k,
{
    if k < 0 || k >= entries.len() {
        None
    } else if entries[k].group == PresetGroup::Category && (if by_name {
        entries[k].name@ == key
    } else {
        entries[k].code@ == key
    }) {
        Some(entries[k])
    } else {
        lookup_category(entries, k + 1, key, by_name)
    }
}

/// What the decoder appends for the codes from `k` on, given the group of
/// the previous recognized code and whether a value was already written
/// for it.
pub open spec fn decode_fold(
    entries: Seq<PresetMeta>,
    codes: Seq<Seq<char>>,
    k: int,
    group: PresetGroup,
    first: bool,
) -> Seq<char>
    decreases codes.len() - k,
{
    if k < 0 || k >= codes.len() {
        Seq::empty()
    } else {
        match lookup_meta(entries, 0, codes[k]) {
            None => decode_fold(entries, codes, k + 1, group, first),
            Some(meta) => {
                let quoted = seq!['"'] + meta.name@ + seq!['"'];
                if group != meta.group {
                    group_sep_chars(group) + group_name_chars(meta.group) + group_colon_chars(
                        meta.group,
                    ) + quoted + decode_fold(entries, codes, k + 1, meta.group, false)
                } else {
                    (if first {
                        Seq::<char>::empty()
                    } else {
                        ", "@
                    }) + quoted + decode_fold(entries, codes, k + 1, group, false)
                }
            },
        }
    }
}

/// The whole decoded category description of `text`.
pub open spec fn decode_spec(entries: Seq<PresetMeta>, s: Seq<char>) -> Seq<char> {
    seq!['{'] + decode_fold(entries, category_list_spec(s, 0), 0, PresetGroup::Unknown, true)
        + seq![']', '}']
}

/// The fixed category code table.
pub struct HCCategoryCode {
    data: Vec<PresetMeta>,
}

impl Default for HCCategoryCode {
    fn default() -> (r: Self)
        ensures
            r.spec_entries() == cat_table(),
    {
        HCCategoryCode::new()
    }
}

/// The entries of the table, in insertion order.
pub open spec fn cat_table() -> Seq<PresetMeta> {
    cat_category_entries() + cat_type_entries() + cat_character_entries() + cat_matrix_entries() + cat_setting_entries()
}

/// The category-group entries of the table.
pub open spec fn cat_category_entries() -> Seq<PresetMeta> {
    seq![
        PresetMeta { code: "ST", group: PresetGroup::Category, index: 1, name: "Strings" },
        PresetMeta { code: "WI", group: PresetGroup::Category, index: 2, name: "Winds" },
        PresetMeta { code: "VO", group: PresetGroup::Category, index: 3, name: "Vocal" },
        PresetMeta { code: "KY", group: PresetGroup::Category, index: 4, name: "Keyboard" },
        PresetMeta { code: "CL", group: PresetGroup::Category, index: 5, name: "Classic" },
        PresetMeta { code: "OT", group: PresetGroup::Category, index: 6, name: "Other" },
        PresetMeta { code: "PE", group: PresetGroup::Category, index: 7, name: "Percussion" },
        PresetMeta { code: "PT", group: PresetGroup::Category, index: 8, name: "Tuned Perc" },
        PresetMeta { code: "PR", group: PresetGroup::Category, index: 9, name: "Processor" },
        PresetMeta { code: "DO", group: PresetGroup::Category, index: 10, name: "Drone" },
        PresetMeta { code: "MD", group: PresetGroup::Category, index: 11, name: "Midi" },
        PresetMeta { code: "CV", group: PresetGroup::Category, index: 12, name: "Control Voltage" },
        PresetMeta { code: "UT", group: PresetGroup::Category, index: 13, name: "Utility" },
    ]
}

/// The type-group entries of the table.
pub open spec fn cat_type_entries() -> Seq<PresetMeta> {
    seq![
        PresetMeta { code: "AT", group: PresetGroup::Type, index: 0, name: "Atonal" },
        PresetMeta { code: "BA", group: PresetGroup::Type, index: 1, name: "Bass" },
        PresetMeta { code: "BO", group: PresetGroup::Type, index: 2, name: "Bowed" },
        PresetMeta { code: "BR", group: PresetGroup::Type, index: 3, name: "Brass" },
        PresetMeta { code: "DP", group: PresetGroup::Type, index: 4, name: "Demo Preset" },
        PresetMeta { code: "EP", group: PresetGroup::Type, index: 5, name: "Elec Piano" },
        PresetMeta { code: "FL", group: PresetGroup::Type, index: 6, name: "Flute" },
        PresetMeta { code: "LE", group: PresetGroup::Type, index: 7, name: "Lead" },
        PresetMeta { code: "OR", group: PresetGroup::Type, index: 8, name: "Organ" },
        PresetMeta { code: "PA", group: PresetGroup::Type, index: 9, name: "Pad" },
        PresetMeta { code: "PL", group: PresetGroup::Type, index: 10, name: "Plucked" },
        PresetMeta { code: "RD", group: PresetGroup::Type, index: 11, name: "Double Reed" },
        PresetMeta { code: "RS", group: PresetGroup::Type, index: 12, name: "Single Reed" },
        PresetMeta { code: "SU", group: PresetGroup::Type, index: 13, name: "Struck" },
    ]
}

/// The character-group entries of the table.
pub open spec fn cat_character_entries() -> Seq<PresetMeta> {
    seq![
        PresetMeta { code: "AC", group: PresetGroup::Character, index: 0, name: "Acoustic" },
        PresetMeta { code: "AG", group: PresetGroup::Character, index: 1, name: "Aggressive" },
        PresetMeta { code: "AI", group: PresetGroup::Character, index: 2, name: "Airy" },
        PresetMeta { code: "AN", group: PresetGroup::Character, index: 3, name: "Analog" },
        PresetMeta { code: "AR", group: PresetGroup::Character, index: 4, name: "Arpeggio" },
        PresetMeta { code: "BG", group: PresetGroup::Character, index: 5, name: "Big" },
        PresetMeta { code: "BI", group: PresetGroup::Character, index: 6, name: "Bright" },
        PresetMeta { code: "CH", group: PresetGroup::Character, index: 7, name: "Chords" },
        PresetMeta { code: "CN", group: PresetGroup::Character, index: 8, name: "Clean" },
        PresetMeta { code: "DA", group: PresetGroup::Character, index: 9, name: "Dark" },
        PresetMeta { code: "DI", group: PresetGroup::Character, index: 10, name: "Digital" },
        PresetMeta { code: "DT", group: PresetGroup::Character, index: 11, name: "Distorted" },
        PresetMeta { code: "DY", group: PresetGroup::Character, index: 12, name: "Dry" },
        PresetMeta { code: "EC", group: PresetGroup::Character, index: 13, name: "Echo" },
        PresetMeta { code: "EL", group: PresetGroup::Character, index: 14, name: "Electric" },
        PresetMeta { code: "EN", group: PresetGroup::Character, index: 15, name: "Ensemble" },
        PresetMeta { code: "EV", group: PresetGroup::Character, index: 16, name: "Evolving" },
        PresetMeta { code: "FM", group: PresetGroup::Character, index: 17, name: "FM" },
        PresetMeta { code: "HY", group: PresetGroup::Character, index: 18, name: "Hybrid" },
        PresetMeta { code: "IC", group: PresetGroup::Character, index: 19, name: "Icy" },
        PresetMeta { code: "IN", group: PresetGroup::Character, index: 20, name: "Intimate" },
        PresetMeta { code: "LF", group: PresetGroup::Character, index: 21, name: "Lo-fi" },
        PresetMeta { code: "LP", group: PresetGroup::Character, index: 22, name: "Looping" },
        PresetMeta { code: "LY", group: PresetGroup::Character, index: 23, name: "Layered" },
        PresetMeta { code: "MO", group: PresetGroup::Character, index: 24, name: "Morphing" },
        PresetMeta { code: "MT", group: PresetGroup::Character, index: 25, name: "Metallic" },
        PresetMeta { code: "NA", group: PresetGroup::Character, index: 26, name: "Nature" },
        PresetMeta { code: "NO", group: PresetGroup::Character, index: 27, name: "Noise" },
        PresetMeta { code: "RN", group: PresetGroup::Character, index: 28, name: "Random" },
        PresetMeta { code: "RV", group: PresetGroup::Character, index: 29, name: "Reverberant" },
        PresetMeta { code: "SD", group: PresetGroup::Character, index: 30, name: "Snd Design" },
        PresetMeta { code: "SE", group: PresetGroup::Character, index: 31, name: "Stereo" },
        PresetMeta { code: "SH", group: PresetGroup::Character, index: 32, name: "Shaking" },
        PresetMeta { code: "SI", group: PresetGroup::Character, index: 33, name: "Simple" },
        PresetMeta { code: "SO", group: PresetGroup::Character, index: 34, name: "Soft" },
        PresetMeta { code: "SR", group: PresetGroup::Character, index: 35, name: "Strumming" },
        PresetMeta { code: "SY", group: PresetGroup::Character, index: 36, name: "Synthetic" },
        PresetMeta { code: "WA", group: PresetGroup::Character, index: 37, name: "Warm" },
        PresetMeta { code: "WO", group: PresetGroup::Character, index: 38, name: "Woody" },
    ]
}

/// The matrix-group entries of the table.
pub open spec fn cat_matrix_entries() -> Seq<PresetMeta> {
    seq![
        PresetMeta { code: "AD", group: PresetGroup::Matrix, index: 0, name: "Additive" },
        PresetMeta { code: "BB", group: PresetGroup::Matrix, index: 1, name: "BiqBank" },
        PresetMeta { code: "BH", group: PresetGroup::Matrix, index: 2, name: "BiqGraph" },
        PresetMeta { code: "BM", group: PresetGroup::Matrix, index: 3, name: "BiqMouth" },
        PresetMeta { code: "CM", group: PresetGroup::Matrix, index: 4, name: "Cutoff Mod" },
        PresetMeta { code: "DF", group: PresetGroup::Matrix, index: 5, name: "Formula Delay" },
        PresetMeta { code: "DM", group: PresetGroup::Matrix, index: 6, name: "Micro Delay" },
        PresetMeta { code: "DS", group: PresetGroup::Matrix, index: 7, name: "Sum Delay" },
        PresetMeta { code: "DV", group: PresetGroup::Matrix, index: 8, name: "Voice Delay" },
        PresetMeta { code: "HM", group: PresetGroup::Matrix, index: 9, name: "HarMan" },
        PresetMeta { code: "KI", group: PresetGroup::Matrix, index: 10, name: "Kinetic" },
        PresetMeta { code: "MM", group: PresetGroup::Matrix, index: 11, name: "ModMan" },
        PresetMeta { code: "OJ", group: PresetGroup::Matrix, index: 12, name: "Osc Jenny" },
        PresetMeta { code: "OP", group: PresetGroup::Matrix, index: 13, name: "Osc Phase" },
        PresetMeta { code: "OS", group: PresetGroup::Matrix, index: 14, name: "Osc DSF" },
        PresetMeta { code: "SB", group: PresetGroup::Matrix, index: 15, name: "SineBank" },
        PresetMeta { code: "SS", group: PresetGroup::Matrix, index: 16, name: "SineSpray" },
        PresetMeta { code: "WB", group: PresetGroup::Matrix, index: 17, name: "WaveBank" },
    ]
}

/// The setting-group entries of the table.
pub open spec fn cat_setting_entries() -> Seq<PresetMeta> {
    seq![
        PresetMeta { code: "C1", group: PresetGroup::Setting, index: 0, name: "Channel 1" },
        PresetMeta { code: "EM", group: PresetGroup::Setting, index: 1, name: "Ext Midi Clk" },
        PresetMeta { code: "MI", group: PresetGroup::Setting, index: 2, name: "Mono Interval" },
        PresetMeta { code: "PO", group: PresetGroup::Setting, index: 3, name: "Portamento" },
        PresetMeta { code: "RO", group: PresetGroup::Setting, index: 4, name: "Rounding" },
        PresetMeta { code: "SP", group: PresetGroup::Setting, index: 5, name: "Split Voice" },
        PresetMeta { code: "SV", group: PresetGroup::Setting, index: 6, name: "Single Voice" },
        PresetMeta { code: "TA", group: PresetGroup::Setting, index: 7, name: "Touch Area" },
    ]
}

impl HCCategoryCode {
    pub closed spec fn spec_entries(&self) -> Seq<PresetMeta> {
        self.data@
    }

    fn add(&mut self, item: PresetMeta)
        ensures
            final(self).spec_entries() == old(self).spec_entries().push(item),
    {
        self.data.push(item);
    }

    fn meta_from(&self, k: usize, code: &str) -> (r: Option<PresetMeta>)
        requires
            k <= self.spec_entries().len(),
        ensures
            r == lookup_meta(self.spec_entries(), k as int, code@),
        decreases self.spec_entries().len() - k,
    {
        if k >= self.data.len() {
            None
        } else {
            let m = self.data[k];
            if crate::util::str_eq_chars(m.code, code) {
                Some(m)
            } else {
                self.meta_from(k + 1, code)
            }
        }
    }

    fn category_from(&self, k: usize, key: &str, by_name: bool) -> (r: Option<PresetMeta>)
        requires
            k <= self.spec_entries().len(),
        ensures
            r == lookup_category(self.spec_entries(), k as int, key@, by_name),
        decreases self.spec_entries().len() - k,
    {
        if k >= self.data.len() {
            None
        } else {
            let m = self.data[k];
            let hit = match m.group {
                PresetGroup::Category => {
                    if by_name {
                        crate::util::str_eq_chars(m.name, key)
                    } else {
                        crate::util::str_eq_chars(m.code, key)
                    }
                },
                _ => false,
            };
            if hit {
                Some(m)
            } else {
                self.category_from(k + 1, key, by_name)
            }
        }
    }

    /// The first category-group entry with this display name.
    pub fn get_by_category_name(&self, name: &str) -> (r: Option<PresetMeta>)
        ensures
            r == lookup_category(self.spec_entries(), 0, name@, true),
    {
        self.category_from(0, name, true)
    }

    /// The first category-group entry with this two-letter code.
    pub fn get_by_category_code(&self, code: &str) -> (r: Option<PresetMeta>)
        ensures
            r == lookup_category(self.spec_entries(), 0, code@, false),
    {
        self.category_from(0, code, false)
    }

    fn decode_from(
        &self,
        codes: &Vec<String>,
        k: usize,
        group: PresetGroup,
        first: bool,
        out: &mut String,
    )
        requires
            k <= codes@.len(),
        ensures
            final(out)@ == old(out)@ + decode_fold(
                self.spec_entries(),
                string_views(codes@),
                k as int,
                group,
                first,
            ),
        decreases codes@.len() - k,
    {
        if k >= codes.len() {
            proof {
                assert(out@ =~= old(out)@ + Seq::<char>::empty());
            }
            return ;
        }
        let code = &codes[k];
        proof {
            assert(string_views(codes@)[k as int] == code@);
        }
        match self.meta_from(0, code.as_str()) {
            None => {
                self.decode_from(codes, k + 1, group, first, out);
            },
            Some(meta) => {
                if group != meta.group {
                    out.append(group_sep(group));
                    out.append(group_name(meta.group));
                    out.append(group_colon(meta.group));
                    push_char(out, '"');
                    out.append(meta.name);
                    push_char(out, '"');
                    let ghost mid = out@;
                    self.decode_from(codes, k + 1, meta.group, false, out);
                    proof {
                        assert(out@ =~= old(out)@ + decode_fold(
                            self.spec_entries(),
                            string_views(codes@),
                            k as int,
                            group,
                            first,
                        ));
                    }
                } else {
                    if !first {
                        out.append(", ");
                    }
                    push_char(out, '"');
                    out.append(meta.name);
                    push_char(out, '"');
                    let ghost mid = out@;
                    self.decode_from(codes, k + 1, group, false, out);
                    proof {
                        assert(out@ =~= old(out)@ + decode_fold(
                            self.spec_entries(),
                            string_views(codes@),
                            k as int,
                            group,
                            first,
                        ));
                    }
                }
            },
        }
    }

    /// Decodes coded category text into a bracketed, comma-joined display
    /// string. Text shorter than four characters yields nothing.
    pub fn decode(&self, text: &str) -> (r: Option<String>)
        ensures
            (text@.len() < 4) <==> r is None,
            r is Some ==> r->0@ == decode_spec(self.spec_entries(), text@),
    {
        if text.unicode_len() < 4 {
            return None;
        }
        let codes = category_list(text);
        let mut result = String::new();
        push_char(&mut result, '{');
        self.decode_from(&codes, 0, PresetGroup::Unknown, true, &mut result);
        push_char(&mut result, ']');
        push_char(&mut result, '}');
        proof {
            assert(result@ =~= decode_spec(self.spec_entries(), text@));
        }
        Some(result)
    }

    /// Builds the fixed table.
    pub fn new() -> (result: Self)
        ensures
            result.spec_entries() == cat_table(),
    {
        let mut result = HCCategoryCode { data: Vec::new() };
        result.add_category_entries();
        result.add_type_entries();
        result.add_character_entries();
        result.add_matrix_entries();
        result.add_setting_entries();
        proof {
            assert(result.spec_entries() =~= cat_table());
        }
        result
    }

    fn add_category_entries(&mut self)
        ensures
            final(self).spec_entries() == old(self).spec_entries() + cat_category_entries(),
    {
        self.add(PresetMeta { code: "ST", group: PresetGroup::Category, index: 1, name: "Strings" });
        self.add(PresetMeta { code: "WI", group: PresetGroup::Category, index: 2, name: "Winds" });
        self.add(PresetMeta { code: "VO", group: PresetGroup::Category, index: 3, name: "Vocal" });
        self.add(PresetMeta { code: "KY", group: PresetGroup::Category, index: 4, name: "Keyboard" });
        self.add(PresetMeta { code: "CL", group: PresetGroup::Category, index: 5, name: "Classic" });
        self.add(PresetMeta { code: "OT", group: PresetGroup::Category, index: 6, name: "Other" });
        self.add(PresetMeta { code: "PE", group: PresetGroup::Category, index: 7, name: "Percussion" });
        self.add(PresetMeta { code: "PT", group: PresetGroup::Category, index: 8, name: "Tuned Perc" });
        self.add(PresetMeta { code: "PR", group: PresetGroup::Category, index: 9, name: "Processor" });
        self.add(PresetMeta { code: "DO", group: PresetGroup::Category, index: 10, name: "Drone" });
        self.add(PresetMeta { code: "MD", group: PresetGroup::Category, index: 11, name: "Midi" });
        self.add(PresetMeta { code: "CV", group: PresetGroup::Category, index: 12, name: "Control Voltage" });
        self.add(PresetMeta { code: "UT", group: PresetGroup::Category, index: 13, name: "Utility" });
        proof {
            assert(self.spec_entries() =~= old(self).spec_entries() + cat_category_entries());
        }
    }

    fn add_type_entries(&mut self)
        ensures
            final(self).spec_entries() == old(self).spec_entries() + cat_type_entries(),
    {
        self.add(PresetMeta { code: "AT", group: PresetGroup::Type, index: 0, name: "Atonal" });
        self.add(PresetMeta { code: "BA", group: PresetGroup::Type, index: 1, name: "Bass" });
        self.add(PresetMeta { code: "BO", group: PresetGroup::Type, index: 2, name: "Bowed" });
        self.add(PresetMeta { code: "BR", group: PresetGroup::Type, index: 3, name: "Brass" });
        self.add(PresetMeta { code: "DP", group: PresetGroup::Type, index: 4, name: "Demo Preset" });
        self.add(PresetMeta { code: "EP", group: PresetGroup::Type, index: 5, name: "Elec Piano" });
        self.add(PresetMeta { code: "FL", group: PresetGroup::Type, index: 6, name: "Flute" });
        self.add(PresetMeta { code: "LE", group: PresetGroup::Type, index: 7, name: "Lead" });
        self.add(PresetMeta { code: "OR", group: PresetGroup::Type, index: 8, name: "Organ" });
        self.add(PresetMeta { code: "PA", group: PresetGroup::Type, index: 9, name: "Pad" });
        self.add(PresetMeta { code: "PL", group: PresetGroup::Type, index: 10, name: "Plucked" });
        self.add(PresetMeta { code: "RD", group: PresetGroup::Type, index: 11, name: "Double Reed" });
        self.add(PresetMeta { code: "RS", group: PresetGroup::Type, index: 12, name: "Single Reed" });
        self.add(PresetMeta { code: "SU", group: PresetGroup::Type, index: 13, name: "Struck" });
        proof {
            assert(self.spec_entries() =~= old(self).spec_entries() + cat_type_entries());
        }
    }

    fn add_character_entries(&mut self)
        ensures
            final(self).spec_entries() == old(self).spec_entries() + cat_character_entries(),
    {
        self.add(PresetMeta { code: "AC", group: PresetGroup::Character, index: 0, name: "Acoustic" });
        self.add(PresetMeta { code: "AG", group: PresetGroup::Character, index: 1, name: "Aggressive" });
        self.add(PresetMeta { code: "AI", group: PresetGroup::Character, index: 2, name: "Airy" });
        self.add(PresetMeta { code: "AN", group: PresetGroup::Character, index: 3, name: "Analog" });
        self.add(PresetMeta { code: "AR", group: PresetGroup::Character, index: 4, name: "Arpeggio" });
        self.add(PresetMeta { code: "BG", group: PresetGroup::Character, index: 5, name: "Big" });
        self.add(PresetMeta { code: "BI", group: PresetGroup::Character, index: 6, name: "Bright" });
        self.add(PresetMeta { code: "CH", group: PresetGroup::Character, index: 7, name: "Chords" });
        self.add(PresetMeta { code: "CN", group: PresetGroup::Character, index: 8, name: "Clean" });
        self.add(PresetMeta { code: "DA", group: PresetGroup::Character, index: 9, name: "Dark" });
        self.add(PresetMeta { code: "DI", group: PresetGroup::Character, index: 10, name: "Digital" });
        self.add(PresetMeta { code: "DT", group: PresetGroup::Character, index: 11, name: "Distorted" });
        self.add(PresetMeta { code: "DY", group: PresetGroup::Character, index: 12, name: "Dry" });
        self.add(PresetMeta { code: "EC", group: PresetGroup::Character, index: 13, name: "Echo" });
        self.add(PresetMeta { code: "EL", group: PresetGroup::Character, index: 14, name: "Electric" });
        self.add(PresetMeta { code: "EN", group: PresetGroup::Character, index: 15, name: "Ensemble" });
        self.add(PresetMeta { code: "EV", group: PresetGroup::Character, index: 16, name: "Evolving" });
        self.add(PresetMeta { code: "FM", group: PresetGroup::Character, index: 17, name: "FM" });
        self.add(PresetMeta { code: "HY", group: PresetGroup::Character, index: 18, name: "Hybrid" });
        self.add(PresetMeta { code: "IC", group: PresetGroup::Character, index: 19, name: "Icy" });
        self.add(PresetMeta { code: "IN", group: PresetGroup::Character, index: 20, name: "Intimate" });
        self.add(PresetMeta { code: "LF", group: PresetGroup::Character, index: 21, name: "Lo-fi" });
        self.add(PresetMeta { code: "LP", group: PresetGroup::Character, index: 22, name: "Looping" });
        self.add(PresetMeta { code: "LY", group: PresetGroup::Character, index: 23, name: "Layered" });
        self.add(PresetMeta { code: "MO", group: PresetGroup::Character, index: 24, name: "Morphing" });
        self.add(PresetMeta { code: "MT", group: PresetGroup::Character, index: 25, name: "Metallic" });
        self.add(PresetMeta { code: "NA", group: PresetGroup::Character, index: 26, name: "Nature" });
        self.add(PresetMeta { code: "NO", group: PresetGroup::Character, index: 27, name: "Noise" });
        self.add(PresetMeta { code: "RN", group: PresetGroup::Character, index: 28, name: "Random" });
        self.add(PresetMeta { code: "RV", group: PresetGroup::Character, index: 29, name: "Reverberant" });
        self.add(PresetMeta { code: "SD", group: PresetGroup::Character, index: 30, name: "Snd Design" });
        self.add(PresetMeta { code: "SE", group: PresetGroup::Character, index: 31, name: "Stereo" });
        self.add(PresetMeta { code: "SH", group: PresetGroup::Character, index: 32, name: "Shaking" });
        self.add(PresetMeta { code: "SI", group: PresetGroup::Character, index: 33, name: "Simple" });
        self.add(PresetMeta { code: "SO", group: PresetGroup::Character, index: 34, name: "Soft" });
        self.add(PresetMeta { code: "SR", group: PresetGroup::Character, index: 35, name: "Strumming" });
        self.add(PresetMeta { code: "SY", group: PresetGroup::Character, index: 36, name: "Synthetic" });
        self.add(PresetMeta { code: "WA", group: PresetGroup::Character, index: 37, name: "Warm" });
        self.add(PresetMeta { code: "WO", group: PresetGroup::Character, index: 38, name: "Woody" });
        proof {
            assert(self.spec_entries() =~= old(self).spec_entries() + cat_character_entries());
        }
    }

    fn add_matrix_entries(&mut self)
        ensures
            final(self).spec_entries() == old(self).spec_entries() + cat_matrix_entries(),
    {
        self.add(PresetMeta { code: "AD", group: PresetGroup::Matrix, index: 0, name: "Additive" });
        self.add(PresetMeta { code: "BB", group: PresetGroup::Matrix, index: 1, name: "BiqBank" });
        self.add(PresetMeta { code: "BH", group: PresetGroup::Matrix, index: 2, name: "BiqGraph" });
        self.add(PresetMeta { code: "BM", group: PresetGroup::Matrix, index: 3, name: "BiqMouth" });
        self.add(PresetMeta { code: "CM", group: PresetGroup::Matrix, index: 4, name: "Cutoff Mod" });
        self.add(PresetMeta { code: "DF", group: PresetGroup::Matrix, index: 5, name: "Formula Delay" });
        self.add(PresetMeta { code: "DM", group: PresetGroup::Matrix, index: 6, name: "Micro Delay" });
        self.add(PresetMeta { code: "DS", group: PresetGroup::Matrix, index: 7, name: "Sum Delay" });
        self.add(PresetMeta { code: "DV", group: PresetGroup::Matrix, index: 8, name: "Voice Delay" });
        self.add(PresetMeta { code: "HM", group: PresetGroup::Matrix, index: 9, name: "HarMan" });
        self.add(PresetMeta { code: "KI", group: PresetGroup::Matrix, index: 10, name: "Kinetic" });
        self.add(PresetMeta { code: "MM", group: PresetGroup::Matrix, index: 11, name: "ModMan" });
        self.add(PresetMeta { code: "OJ", group: PresetGroup::Matrix, index: 12, name: "Osc Jenny" });
        self.add(PresetMeta { code: "OP", group: PresetGroup::Matrix, index: 13, name: "Osc Phase" });
        self.add(PresetMeta { code: "OS", group: PresetGroup::Matrix, index: 14, name: "Osc DSF" });
        self.add(PresetMeta { code: "SB", group: PresetGroup::Matrix, index: 15, name: "SineBank" });
        self.add(PresetMeta { code: "SS", group: PresetGroup::Matrix, index: 16, name: "SineSpray" });
        self.add(PresetMeta { code: "WB", group: PresetGroup::Matrix, index: 17, name: "WaveBank" });
        proof {
            assert(self.spec_entries() =~= old(self).spec_entries() + cat_matrix_entries());
        }
    }

    fn add_setting_entries(&mut self)
        ensures
            final(self).spec_entries() == old(self).spec_entries() + cat_setting_entries(),
    {
        self.add(PresetMeta { code: "C1", group: PresetGroup::Setting, index: 0, name: "Channel 1" });
        self.add(PresetMeta { code: "EM", group: PresetGroup::Setting, index: 1, name: "Ext Midi Clk" });
        self.add(PresetMeta { code: "MI", group: PresetGroup::Setting, index: 2, name: "Mono Interval" });
        self.add(PresetMeta { code: "PO", group: PresetGroup::Setting, index: 3, name: "Portamento" });
        self.add(PresetMeta { code: "RO", group: PresetGroup::Setting, index: 4, name: "Rounding" });
        self.add(PresetMeta { code: "SP", group: PresetGroup::Setting, index: 5, name: "Split Voice" });
        self.add(PresetMeta { code: "SV", group: PresetGroup::Setting, index: 6, name: "Single Voice" });
        self.add(PresetMeta { code: "TA", group: PresetGroup::Setting, index: 7, name: "Touch Area" });
        proof {
            assert(self.spec_entries() =~= old(self).spec_entries() + cat_setting_entries());
        }
    }
}

} // verus!
