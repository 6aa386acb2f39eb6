//! Picking an instrument among the connected MIDI devices: recognizing the
//! compatible device families and ranking candidate names against a
//! user-supplied hint by edit distance. Enumerating and opening the OS
//! ports is the embedding program's work.

use vstd::prelude::*;
use crate::util::{edit_dist, edit_distance, push_char};
use vstd::string::StringSliceAdditionalSpecFns;

verus! {

/// Whether a port is an input or an output.
#[derive(Clone, Copy, Debug, PartialEq, Eq, Structural)]
pub enum Direction {
    In,
    Out,
}

/// The device families that speak this protocol.
#[derive(Clone, Copy, Debug, PartialEq, Eq, Structural)]
pub enum HakenDeviceKind {
    Continuum,
    ContinuuMini,
    EaganMatrixModule,
    Osmose,
    NotHakenDevice,
}

/// Whether `sub` occurs in `s` starting at `p`.
pub open spec fn match_at(s: Seq<char>, sub: Seq<char>, p: int) -> bool {
    0 <= p && p + sub.len() <= s.len() && s.subrange(p, p + sub.len()) == sub
}

/// Whether `sub` occurs anywhere in `s`.
pub open spec fn contains_sub(s: Seq<char>, sub: Seq<char>) -> bool {
    exists|p: int| match_at(s, sub, p)
}

fn match_at_exec(s: &str, sub: &str, p: usize, s_len: usize, sub_len: usize) -> (r: bool)
    requires
        s_len == s@.len(),
        sub_len == sub@.len(),
        p + sub_len <= s_len,
    ensures
        r == match_at(s@, sub@, p as int),
{
    let mut k: usize = 0;
    while k < sub_len
        invariant
            k <= sub_len,
            s_len == s@.len(),
            sub_len == sub@.len(),
            p + sub_len <= s_len,
            forall|t: int| 0 <= t < k ==> s@[p + t] == sub@[t],
        decreases sub_len - k,
    {
        if s.get_char(p + k) != sub.get_char(k) {
            proof {
                assert(s@.subrange(p as int, p + sub@.len())[k as int] == s@[p + k]);
            }
            return false;
        }
        k = k + 1;
    }
    proof {
        assert(s@.subrange(p as int, p + sub@.len()) =~= sub@);
    }
    true
}

/// Whether one string contains another.
pub fn contains_str(s: &str, sub: &str) -> (r: bool)
    ensures
        r == contains_sub(s@, sub@),
{
    let s_len = s.unicode_len();
    let sub_len = sub.unicode_len();
    if sub_len > s_len {
        proof {
            assert(forall|p: int| !match_at(s@, sub@, p));
        }
        return false;
    }
    if sub_len == 0 {
        proof {
            assert(s@.subrange(0, 0) =~= sub@);
            assert(match_at(s@, sub@, 0));
        }
        return true;
    }
    let mut p: usize = 0;
    while p <= s_len - sub_len
        invariant
            1 <= sub_len <= s_len,
            s_len == s@.len(),
            sub_len == sub@.len(),
            forall|t: int| 0 <= t < p ==> !match_at(s@, sub@, t),
        decreases s_len - sub_len - p + 1,
    {
        if match_at_exec(s, sub, p, s_len, sub_len) {
            return true;
        }
        p = p + 1;
    }
    proof {
        assert(forall|t: int| match_at(s@, sub@, t) ==> 0 <= t <= s@.len() - sub@.len());
    }
    false
}

/// Which device family a (normalized) name announces, by substring.
pub open spec fn identify_spec(name: Seq<char>) -> HakenDeviceKind {
    if name.len() < 6 {
        HakenDeviceKind::NotHakenDevice
    } else if contains_sub(name, "Continuum"@) {
        HakenDeviceKind::Continuum
    } else if contains_sub(name, "ContinuuMini"@) {
        HakenDeviceKind::ContinuuMini
    } else if contains_sub(name, "EaganMatrix"@) {
        HakenDeviceKind::EaganMatrixModule
    } else if contains_sub(name, "Osmose"@) {
        HakenDeviceKind::Osmose
    } else {
        HakenDeviceKind::NotHakenDevice
    }
}

impl HakenDeviceKind {
    /// Identifies a device name.
    pub fn identify(name: &str) -> (r: HakenDeviceKind)
        ensures
            r == identify_spec(name@),
    {
        if name.unicode_len() < 6 {
            HakenDeviceKind::NotHakenDevice
        } else if contains_str(name, "Continuum") {
            HakenDeviceKind::Continuum
        } else if contains_str(name, "ContinuuMini") {
            HakenDeviceKind::ContinuuMini
        } else if contains_str(name, "EaganMatrix") {
            HakenDeviceKind::EaganMatrixModule
        } else if contains_str(name, "Osmose") {
            HakenDeviceKind::Osmose
        } else {
            HakenDeviceKind::NotHakenDevice
        }
    }
}

/// Whether trailing port decoration (brackets and digits) is stripped.
pub open spec fn is_port_tag_char(c: char) -> bool {
    c == '[' || c == ']' || ('0' <= c && c <= '9')
}

/// The length of `s` once trailing port decoration and trailing spaces are
/// removed.
pub open spec fn rstrip_tag(s: Seq<char>, j: int) -> int
    decreases j,
{
    if j <= 0 || j > s.len() {
        0
    } else if is_port_tag_char(s[j - 1]) {
        rstrip_tag(s, j - 1)
    } else {
        j
    }
}

pub open spec fn rstrip_space(s: Seq<char>, j: int) -> int
    decreases j,
{
    if j <= 0 || j > s.len() {
        0
    } else if s[j - 1] == ' ' {
        rstrip_space(s, j - 1)
    } else {
        j
    }
}

pub open spec fn trimmed_port_len(s: Seq<char>) -> int {
    rstrip_space(s, rstrip_tag(s, s.len() as int))
}

fn rstrip_tag_at(name: &str, j: usize) -> (r: usize)
    requires
        j <= name@.len(),
    ensures
        r == rstrip_tag(name@, j as int),
        r <= j,
    decreases j,
{
    if j == 0 {
        0
    } else {
        let c = name.get_char(j - 1);
        if c == '[' || c == ']' || ('0' <= c && c <= '9') {
            rstrip_tag_at(name, j - 1)
        } else {
            j
        }
    }
}

fn rstrip_space_at(name: &str, j: usize) -> (r: usize)
    requires
        j <= name@.len(),
    ensures
        r == rstrip_space(name@, j as int),
        r <= j,
    decreases j,
{
    if j == 0 {
        0
    } else {
        if name.get_char(j - 1) == ' ' {
            rstrip_space_at(name, j - 1)
        } else {
            j
        }
    }
}

/// The name with trailing port decoration such as `[2]` stripped.
pub fn trim_port_tag(name: &str) -> (r: &str)
    ensures
        r@ == name@.subrange(0, trimmed_port_len(name@)),
{
    let len = name.unicode_len();
    let j = rstrip_tag_at(name, len);
    let j2 = rstrip_space_at(name, j);
    name.substring_char(0, j2)
}

/// The normalized form of a device name from position `i`, given whether
/// anything was kept yet and whether the last kept character was a space:
/// single interior spaces and alphanumeric characters survive, digits only
/// after a letter, anything else is dropped.
pub open spec fn normalize_from(s: Seq<char>, i: int, leading: bool, was_space: bool) -> Seq<char>
    decreases s.len() - i,
{
    if i < 0 || i >= s.len() {
        Seq::empty()
    } else {
        let c = s[i];
        if c == ' ' {
            if !leading && !was_space {
                seq![' '] + normalize_from(s, i + 1, leading, true)
            } else {
                normalize_from(s, i + 1, leading, was_space)
            }
        } else if '0' <= c && c <= '9' {
            if !leading {
                seq![c] + normalize_from(s, i + 1, leading, false)
            } else {
                normalize_from(s, i + 1, leading, false)
            }
        } else if ('a' <= c && c <= 'z') || ('A' <= c && c <= 'Z') {
            seq![c] + normalize_from(s, i + 1, false, false)
        } else {
            normalize_from(s, i + 1, leading, was_space)
        }
    }
}

/// A run of tildes.
pub open spec fn tildes(n: nat) -> Seq<char>
    decreases n,
{
    if n == 0 {
        Seq::empty()
    } else {
        seq!['~'] + tildes((n - 1) as nat)
    }
}

/// The ranked form of a device name: the trimmed name normalized, padded
/// with tildes to mitigate length-driven distance bias.
pub open spec fn rank_name_spec(s: Seq<char>) -> Seq<char> {
    let trimmed = s.subrange(0, trimmed_port_len(s));
    let norm = normalize_from(trimmed, 0, true, false);
    if norm.len() >= 33 {
        norm
    } else {
        norm + tildes((33 - norm.len()) as nat)
    }
}

fn normalize_push(name: &str, i: usize, leading: bool, was_space: bool, out: &mut String)
    requires
        i <= name@.len(),
    ensures
        final(out)@ == old(out)@ + normalize_from(name@, i as int, leading, was_space),
    decreases name@.len() - i,
{
    if i >= name.unicode_len() {
        proof {
            assert(out@ =~= old(out)@ + Seq::<char>::empty());
        }
        return ;
    }
    let c = name.get_char(i);
    if c == ' ' {
        if !leading && !was_space {
            push_char(out, ' ');
            normalize_push(name, i + 1, leading, true, out);
        } else {
            normalize_push(name, i + 1, leading, was_space, out);
        }
    } else if '0' <= c && c <= '9' {
        if !leading {
            push_char(out, c);
        }
        normalize_push(name, i + 1, leading, false, out);
    } else if ('a' <= c && c <= 'z') || ('A' <= c && c <= 'Z') {
        push_char(out, c);
        normalize_push(name, i + 1, false, false, out);
    } else {
        normalize_push(name, i + 1, leading, was_space, out);
    }
    proof {
        assert(out@ =~= old(out)@ + normalize_from(name@, i as int, leading, was_space));
    }
}

/// The ranked form of a device name used for distance scoring.
pub fn rank_name(name: &str) -> (r: String)
    ensures
        r@ == rank_name_spec(name@),
{
    let trimmed = trim_port_tag(name);
    let mut out = String::new();
    normalize_push(trimmed, 0, true, false, &mut out);
    proof {
        lemma_trimmed_range(name@);
        let norm = normalize_from(name@.subrange(0, trimmed_port_len(name@)), 0, true, false);
        assert(out@ =~= norm);
        assert(out@.subrange(0, norm.len() as int) =~= norm);
    }
    let mut n = out.as_str().unicode_len();
    while n < 33
        invariant
            0 <= trimmed_port_len(name@) <= name@.len(),
            n == out@.len(),
            n <= 33 || n == normalize_from(
                name@.subrange(0, trimmed_port_len(name@)),
                0,
                true,
                false,
            ).len(),
            out@.subrange(
                0,
                normalize_from(name@.subrange(0, trimmed_port_len(name@)), 0, true, false).len() as int,
            ) == normalize_from(name@.subrange(0, trimmed_port_len(name@)), 0, true, false),
            out@.len() >= normalize_from(
                name@.subrange(0, trimmed_port_len(name@)),
                0,
                true,
                false,
            ).len(),
            forall|t: int|
                normalize_from(name@.subrange(0, trimmed_port_len(name@)), 0, true, false).len()
                    <= t < out@.len() ==> out@[t] == '~',
        decreases 33 - n,
    {
        push_char(&mut out, '~');
        n = n + 1;
        proof {
            lemma_trimmed_range(name@);
            let norm = normalize_from(name@.subrange(0, trimmed_port_len(name@)), 0, true, false);
            assert(out@.subrange(0, norm.len() as int) =~= norm);
        }
    }
    proof {
        lemma_trimmed_range(name@);
        let norm = normalize_from(name@.subrange(0, trimmed_port_len(name@)), 0, true, false);
        lemma_tildes_tail(out@, norm);
        assert(tildes(0) =~= Seq::<char>::empty());
        assert(out@ =~= rank_name_spec(name@));
    }
    out
}

proof fn lemma_tildes_tail(s: Seq<char>, prefix: Seq<char>)
    requires
        prefix.len() <= s.len(),
        s.subrange(0, prefix.len() as int) == prefix,
        forall|t: int| prefix.len() <= t < s.len() ==> s[t] == '~',
    ensures
        s == prefix + tildes((s.len() - prefix.len()) as nat),
    decreases s.len() - prefix.len(),
{
    if s.len() == prefix.len() {
        assert(s =~= prefix + tildes(0));
    } else {
        let p2 = prefix.push('~');
        assert(s.subrange(0, p2.len() as int) =~= p2);
        lemma_tildes_tail(s, p2);
        assert(tildes((s.len() - prefix.len()) as nat) =~= seq!['~'] + tildes(
            (s.len() - p2.len()) as nat,
        ));
        assert(prefix + tildes((s.len() - prefix.len()) as nat) =~= p2 + tildes(
            (s.len() - p2.len()) as nat,
        ));
    }
}

/// The score of one candidate against the hint: the edit distance between
/// the hint and the ranked name, less a bonus of five (floored at zero)
/// when the ranked name contains the hint.
pub open spec fn match_score(hint: Seq<char>, ranked: Seq<char>) -> nat {
    let d = edit_dist(
        vstd::utf8::encode_utf8(hint),
        vstd::utf8::encode_utf8(ranked),
        vstd::utf8::encode_utf8(hint).len() as int,
        vstd::utf8::encode_utf8(ranked).len() as int,
    );
    if contains_sub(ranked, hint) {
        if d >= 5 {
            (d - 5) as nat
        } else {
            0
        }
    } else {
        d
    }
}

/// Each character encodes to at most four bytes.
proof fn lemma_encode_utf8_len(s: Seq<char>)
    ensures
        vstd::utf8::encode_utf8(s).len() <= 4 * s.len(),
    decreases s.len(),
{
    if s.len() > 0 {
        lemma_encode_utf8_len(s.drop_first());
    }
}

/// Normalization never lengthens a name.
proof fn lemma_normalize_len(s: Seq<char>, i: int, leading: bool, was_space: bool)
    ensures
        i >= 0 ==> normalize_from(s, i, leading, was_space).len() <= s.len() - i || s.len() < i,
        normalize_from(s, i, leading, was_space).len() <= s.len(),
    decreases s.len() - i,
{
    if 0 <= i < s.len() {
        lemma_normalize_len(s, i + 1, leading, was_space);
        lemma_normalize_len(s, i + 1, leading, true);
        lemma_normalize_len(s, i + 1, leading, false);
        lemma_normalize_len(s, i + 1, false, false);
    }
}

proof fn lemma_tildes_len(n: nat)
    ensures
        tildes(n).len() == n,
    decreases n,
{
    if n > 0 {
        lemma_tildes_len((n - 1) as nat)
    }
}

/// The ranked name is no longer than the raw name and the fixed pad.
proof fn lemma_rank_name_len(s: Seq<char>)
    ensures
        rank_name_spec(s).len() <= s.len() + 33,
{
    let trimmed = s.subrange(0, trimmed_port_len(s));
    lemma_trimmed_range(s);
    lemma_normalize_len(trimmed, 0, true, false);
    let norm = normalize_from(trimmed, 0, true, false);
    if norm.len() < 33 {
        lemma_tildes_len((33 - norm.len()) as nat);
    }
}

proof fn lemma_trimmed_range(s: Seq<char>)
    ensures
        0 <= trimmed_port_len(s) <= s.len(),
{
    lemma_rstrip_tag_range(s, s.len() as int);
    lemma_rstrip_space_range(s, rstrip_tag(s, s.len() as int));
}

proof fn lemma_rstrip_tag_range(s: Seq<char>, j: int)
    ensures
        0 <= rstrip_tag(s, j),
        j >= 0 ==> rstrip_tag(s, j) <= j,
        rstrip_tag(s, j) <= s.len(),
    decreases j,
{
    if 0 < j <= s.len() && is_port_tag_char(s[j - 1]) {
        lemma_rstrip_tag_range(s, j - 1);
    }
}

proof fn lemma_rstrip_space_range(s: Seq<char>, j: int)
    ensures
        0 <= rstrip_space(s, j),
        j >= 0 ==> rstrip_space(s, j) <= j,
        rstrip_space(s, j) <= s.len(),
    decreases j,
{
    if 0 < j <= s.len() && s[j - 1] == ' ' {
        lemma_rstrip_space_range(s, j - 1);
    }
}

/// The index of the best-matching compatible device among the candidate
/// names, given the user's hint: the candidate whose ranked name has the
/// least score; ties keep the first-seen candidate. `None` when no
/// candidate is a compatible device.
pub fn pick_device(candidates: &Vec<String>, hint: &str) -> (r: Option<usize>)
    requires
        hint@.len() <= 1000,
        forall|k: int| 0 <= k < candidates@.len() ==> (#[trigger] candidates@[k])@.len() <= 100000,
    ensures
        match r {
            None => forall|k: int|
                0 <= k < candidates@.len() ==> identify_spec(
                    rank_name_spec((#[trigger] candidates@[k])@),
                ) == HakenDeviceKind::NotHakenDevice,
            Some(best) => {
                &&& best < candidates@.len()
                &&& identify_spec(rank_name_spec(candidates@[best as int]@))
                    != HakenDeviceKind::NotHakenDevice
                &&& forall|k: int|
                    0 <= k < candidates@.len() && identify_spec(
                        rank_name_spec((#[trigger] candidates@[k])@),
                    ) != HakenDeviceKind::NotHakenDevice ==> match_score(
                    hint@,
                    rank_name_spec(candidates@[k]@),
                ) >= match_score(hint@, rank_name_spec(candidates@[best as int]@))
                &&& forall|k: int|
                    0 <= k < best && identify_spec(rank_name_spec((#[trigger] candidates@[k])@))
                        != HakenDeviceKind::NotHakenDevice ==> match_score(
                    hint@,
                    rank_name_spec(candidates@[k]@),
                ) > match_score(hint@, rank_name_spec(candidates@[best as int]@))
            },
        },
{
    let mut best: Option<usize> = None;
    let mut best_score: u32 = u32::MAX;
    let mut k: usize = 0;
    while k < candidates.len()
        invariant
            k <= candidates@.len(),
            hint@.len() <= 1000,
            forall|k: int| 0 <= k < candidates@.len() ==> (#[trigger] candidates@[k])@.len() <= 100000,
            match best {
                None => best_score == u32::MAX && forall|t: int|
                    0 <= t < k ==> identify_spec(rank_name_spec((#[trigger] candidates@[t])@))
                        == HakenDeviceKind::NotHakenDevice,
                Some(b) => {
                    &&& b < k
                    &&& identify_spec(rank_name_spec(candidates@[b as int]@))
                        != HakenDeviceKind::NotHakenDevice
                    &&& best_score == match_score(hint@, rank_name_spec(candidates@[b as int]@))
                    &&& best_score < u32::MAX
                    &&& forall|t: int|
                        0 <= t < k && identify_spec(rank_name_spec((#[trigger] candidates@[t])@))
                            != HakenDeviceKind::NotHakenDevice ==> match_score(
                        hint@,
                        rank_name_spec(candidates@[t]@),
                    ) >= best_score
                    &&& forall|t: int|
                        0 <= t < b && identify_spec(rank_name_spec((#[trigger] candidates@[t])@))
                            != HakenDeviceKind::NotHakenDevice ==> match_score(
                        hint@,
                        rank_name_spec(candidates@[t]@),
                    ) > best_score
                },
            },
        decreases candidates@.len() - k,
    {
        let ranked = rank_name(candidates[k].as_str());
        let kind = HakenDeviceKind::identify(ranked.as_str());
        let is_haken = match kind {
            HakenDeviceKind::NotHakenDevice => false,
            _ => true,
        };
        if is_haken {
            proof {
                lemma_rank_name_len(candidates@[k as int]@);
            }
            let score = candidate_score(hint, ranked.as_str());
            if score < best_score {
                best = Some(k);
                best_score = score;
            }
        }
        k = k + 1;
    }
    best
}

/// Computes one candidate's score.
fn candidate_score(hint: &str, ranked: &str) -> (score: u32)
    requires
        hint@.len() <= 1000,
        ranked@.len() <= 200000,
    ensures
        score == match_score(hint@, ranked@),
        score < u32::MAX,
{
    proof {
        lemma_encode_utf8_len(hint@);
        lemma_encode_utf8_len(ranked@);
        let ha = vstd::utf8::encode_utf8(hint@);
        let rb = vstd::utf8::encode_utf8(ranked@);
        crate::util::lemma_edit_dist_bound(ha, rb, ha.len() as int, rb.len() as int);
    }
    let d = edit_distance(hint, ranked);
    if contains_str(ranked, hint) {
        if d >= 5 {
            d - 5
        } else {
            0
        }
    } else {
        d
    }
}


} // verus!
