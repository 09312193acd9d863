//! Romanization-to-Hangul conversion engine.
//!
//! The engine tokenizes a romanized string into initial-consonant
//! (choseong), vowel (jungseong) and final-consonant (jongseong) units
//! with greedy longest match, resolves syllable boundaries with a small
//! lookahead, and composes each triple into one Hangul code point.
//!
//! The whole behaviour is pinned down by a spec-level model: the three
//! tables are spec functions, and [`convert_seq`] is the mathematical
//! conversion that the executable converter is proved to implement.

use vstd::prelude::*;
use vstd::string::StrSliceExecFns;

verus! {

// === Phonetic tables ===
//
// Each table maps a romanized spelling of one to three lowercase Latin
// letters to a component index.  Several spellings may share an index
// (tense consonants have doubled spellings, the liquid consonant is
// written "r" or "l").  No initial-consonant spelling is longer than two
// letters and no final-consonant spelling is longer than two letters;
// vowel spellings reach three letters.
/// Initial consonants spelled with one letter (19 indices, 0..=18;
/// index 11 is the silent consonant and has no spelling of its own).
pub open spec fn spec_cho1(c: char) -> Option<u32> {
    match c {
        'g' => Some(0u32),
        'n' => Some(2u32),
        'd' => Some(3u32),
        'r' => Some(5u32),
        'l' => Some(5u32),
        'm' => Some(6u32),
        'b' => Some(7u32),
        's' => Some(9u32),
        'j' => Some(12u32),
        'k' => Some(15u32),
        't' => Some(16u32),
        'p' => Some(17u32),
        'h' => Some(18u32),
        _ => None,
    }
}

/// Initial consonants spelled with two letters.
pub open spec fn spec_cho2(a: char, b: char) -> Option<u32> {
    match (a, b) {
        ('g', 'g') => Some(1u32),
        ('k', 'k') => Some(1u32),
        ('d', 'd') => Some(4u32),
        ('t', 't') => Some(4u32),
        ('b', 'b') => Some(8u32),
        ('p', 'p') => Some(8u32),
        ('s', 's') => Some(10u32),
        ('j', 'j') => Some(13u32),
        ('c', 'h') => Some(14u32),
        _ => None,
    }
}

/// Vowels spelled with one letter (21 indices, 0..=20).
pub open spec fn spec_jung1(c: char) -> Option<u32> {
    match c {
        'a' => Some(0u32),
        'e' => Some(5u32),
        'o' => Some(8u32),
        'u' => Some(13u32),
        'i' => Some(20u32),
        _ => None,
    }
}

/// Vowels spelled with two letters.
pub open spec fn spec_jung2(a: char, b: char) -> Option<u32> {
    match (a, b) {
        ('a', 'e') => Some(1u32),
        ('y', 'a') => Some(2u32),
        ('e', 'o') => Some(4u32),
        ('y', 'e') => Some(7u32),
        ('w', 'a') => Some(9u32),
        ('o', 'e') => Some(11u32),
        ('y', 'o') => Some(12u32),
        ('w', 'o') => Some(14u32),
        ('w', 'e') => Some(15u32),
        ('w', 'i') => Some(16u32),
        ('y', 'u') => Some(17u32),
        ('e', 'u') => Some(18u32),
        ('u', 'i') => Some(19u32),
        _ => None,
    }
}

/// Vowels spelled with three letters.
pub open spec fn spec_jung3(a: char, b: char, c: char) -> Option<u32> {
    match (a, b, c) {
        ('y', 'a', 'e') => Some(3u32),
        ('y', 'e', 'o') => Some(6u32),
        ('w', 'a', 'e') => Some(10u32),
        _ => None,
    }
}

/// Final consonants spelled with one letter (28 indices, 0..=27;
/// index 0 means "no final" and has no spelling).
pub open spec fn spec_jong1(c: char) -> Option<u32> {
    match c {
        'g' => Some(1u32),
        'n' => Some(4u32),
        'd' => Some(7u32),
        'l' => Some(8u32),
        'm' => Some(16u32),
        'b' => Some(17u32),
        's' => Some(19u32),
        'j' => Some(22u32),
        'k' => Some(24u32),
        't' => Some(25u32),
        'p' => Some(26u32),
        'h' => Some(27u32),
        _ => None,
    }
}

/// Final consonants spelled with two letters.
pub open spec fn spec_jong2(a: char, b: char) -> Option<u32> {
    match (a, b) {
        ('g', 'g') => Some(2u32),
        ('g', 's') => Some(3u32),
        ('n', 'j') => Some(5u32),
        ('n', 'h') => Some(6u32),
        ('l', 'g') => Some(9u32),
        ('l', 'm') => Some(10u32),
        ('l', 'b') => Some(11u32),
        ('l', 's') => Some(12u32),
        ('l', 't') => Some(13u32),
        ('l', 'p') => Some(14u32),
        ('l', 'h') => Some(15u32),
        ('b', 's') => Some(18u32),
        ('s', 's') => Some(20u32),
        ('n', 'g') => Some(21u32),
        ('c', 'h') => Some(23u32),
        _ => None,
    }
}

// === Longest-match tokenization, as a spec model ===
/// Longest initial-consonant match at `pos`: the index found and the
/// number of letters consumed.
pub open spec fn match_cho(s: Seq<char>, pos: int) -> Option<(u32, int)> {
    if pos + 2 <= s.len() && spec_cho2(s[pos], s[pos + 1]) is Some {
        match spec_cho2(s[pos], s[pos + 1]) {
            Some(i) => Some((i, 2)),
            None => None,
        }
    } else if pos + 1 <= s.len() && spec_cho1(s[pos]) is Some {
        match spec_cho1(s[pos]) {
            Some(i) => Some((i, 1)),
            None => None,
        }
    } else {
        None
    }
}

/// Longest vowel match at `pos`.
pub open spec fn match_jung(s: Seq<char>, pos: int) -> Option<(u32, int)> {
    if pos + 3 <= s.len() && spec_jung3(s[pos], s[pos + 1], s[pos + 2]) is Some {
        match spec_jung3(s[pos], s[pos + 1], s[pos + 2]) {
            Some(i) => Some((i, 3)),
            None => None,
        }
    } else if pos + 2 <= s.len() && spec_jung2(s[pos], s[pos + 1]) is Some {
        match spec_jung2(s[pos], s[pos + 1]) {
            Some(i) => Some((i, 2)),
            None => None,
        }
    } else if pos + 1 <= s.len() && spec_jung1(s[pos]) is Some {
        match spec_jung1(s[pos]) {
            Some(i) => Some((i, 1)),
            None => None,
        }
    } else {
        None
    }
}

/// Whether a final-consonant candidate ending at `np` is accepted.  It
/// is accepted at the end of the segment, or when another initial
/// consonant follows (the next syllable starts there), or when what
/// follows matches nothing at all; it is rejected only when a bare vowel
/// follows, which would strand that vowel.
pub open spec fn jong_accepted(s: Seq<char>, np: int) -> bool {
    np >= s.len() || match_cho(s, np) is Some || match_jung(s, np) is None
}

/// Final-consonant resolution with lookahead: the index chosen (0 for
/// "no final") and the position after it.  Longer candidates are tried
/// first; a candidate followed directly by a vowel is rejected in favour
/// of a shorter one.
pub open spec fn match_jong(s: Seq<char>, pos: int) -> (u32, int) {
    if pos + 2 <= s.len() && spec_jong2(s[pos], s[pos + 1]) is Some && jong_accepted(
        s,
        pos + 2,
    ) {
        match spec_jong2(s[pos], s[pos + 1]) {
            Some(i) => (i, pos + 2),
            None => (0u32, pos),
        }
    } else if pos + 1 <= s.len() && spec_jong1(s[pos]) is Some && jong_accepted(s, pos + 1) {
        match spec_jong1(s[pos]) {
            Some(i) => (i, pos + 1),
            None => (0u32, pos),
        }
    } else {
        (0u32, pos)
    }
}

// === Syllable composition ===
/// Unicode code point of the syllable block for a component triple.
pub open spec fn syllable_code(cho: int, jung: int, jong: int) -> int {
    0xAC00 + (cho * 21 + jung) * 28 + jong
}

/// The composed syllable as a character.
pub open spec fn compose_char(cho: int, jung: int, jong: int) -> char {
    syllable_code(cho, jung, jong) as char
}

/// Index of the silent initial consonant used for vowel-led syllables.
pub open spec fn silent_choseong() -> int {
    11
}

/// One step of the per-segment conversion at `pos`: the characters
/// emitted and the position to continue from.
///
/// An initial consonant followed by a vowel opens a syllable; a vowel
/// alone opens a vowel-led syllable with the silent initial; an initial
/// consonant without a vowel is passed through verbatim; anything else
/// is passed through one character at a time.
pub open spec fn syllable_step(s: Seq<char>, pos: int) -> (Seq<char>, int) {
    match match_cho(s, pos) {
        Some((ci, cl)) => match match_jung(s, pos + cl) {
            Some((ji, jl)) => {
                let (jo, np) = match_jong(s, pos + cl + jl);
                (seq![compose_char(ci as int, ji as int, jo as int)], np)
            },
            None => (s.subrange(pos, pos + cl), pos + cl),
        },
        None => match match_jung(s, pos) {
            Some((ji, jl)) => {
                let (jo, np) = match_jong(s, pos + jl);
                (seq![compose_char(silent_choseong(), ji as int, jo as int)], np)
            },
            None => (seq![s[pos]], pos + 1),
        },
    }
}

/// Conversion of one space-free segment, from `pos` to the end.
pub open spec fn convert_syllable_seq(s: Seq<char>, pos: int) -> Seq<char>
    decreases s.len() - pos,
{
    if !(0 <= pos < s.len()) {
        Seq::empty()
    } else {
        let (out, np) = syllable_step(s, pos);
        out + convert_syllable_seq(s, np)
    }
}

// === Space handling ===
/// Length of the run of consecutive spaces starting at `i`.
pub open spec fn space_run(s: Seq<char>, i: int) -> nat
    decreases s.len() - i,
{
    if 0 <= i < s.len() && s[i] == ' ' {
        (1 + space_run(s, i + 1)) as nat
    } else {
        0
    }
}

/// Conversion of the whole input from position `i`, with the current
/// segment reaching back to `start`.  A run of `m` spaces flushes the
/// segment and emits `m / 2` literal spaces.
pub open spec fn convert_seq_from(s: Seq<char>, i: int, start: int) -> Seq<char>
    decreases s.len() - i,
    via convert_seq_from_decreases
{
    if !(0 <= start <= i <= s.len()) {
        Seq::empty()
    } else if i == s.len() {
        convert_syllable_seq(s.subrange(start, i), 0)
    } else if s[i] == ' ' {
        let m = space_run(s, i) as int;
        convert_syllable_seq(s.subrange(start, i), 0) + Seq::new((m / 2) as nat, |k: int| ' ')
            + convert_seq_from(s, i + m, i + m)
    } else {
        convert_seq_from(s, i + 1, start)
    }
}

#[via_fn]
proof fn convert_seq_from_decreases(s: Seq<char>, i: int, start: int) {
    if 0 <= start <= i <= s.len() && i < s.len() && s[i] == ' ' {
        lemma_space_run_bound(s, i);
        assert(space_run(s, i) >= 1);
    }
}

/// The conversion that [`HangulConverter::convert`] implements, on an
/// already case-folded character sequence.
pub open spec fn convert_seq(s: Seq<char>) -> Seq<char> {
    convert_seq_from(s, 0, 0)
}

/// A space run never reaches past the end of the sequence.
pub proof fn lemma_space_run_bound(s: Seq<char>, i: int)
    requires
        0 <= i <= s.len(),
    ensures
        i + space_run(s, i) <= s.len(),
    decreases s.len() - i,
{
    if i < s.len() && s[i] == ' ' {
        lemma_space_run_bound(s, i + 1);
    }
}

/// An initial-consonant hit is in range and one or two letters long.
pub proof fn lemma_match_cho_range(s: Seq<char>, pos: int)
    requires
        0 <= pos,
    ensures
        match match_cho(s, pos) {
            Some((i, l)) => i < 19 && (l == 1 || l == 2) && pos + l <= s.len(),
            None => true,
        },
{
}

/// A vowel hit is in range and one to three letters long.
pub proof fn lemma_match_jung_range(s: Seq<char>, pos: int)
    requires
        0 <= pos,
    ensures
        match match_jung(s, pos) {
            Some((i, l)) => i < 21 && (l == 1 || l == 2 || l == 3) && pos + l <= s.len(),
            None => true,
        },
{
}

/// The resolved final consonant is in range and consumes at most two
/// letters.
pub proof fn lemma_match_jong_range(s: Seq<char>, pos: int)
    requires
        0 <= pos <= s.len(),
    ensures
        ({
            let (i, np) = match_jong(s, pos);
            i < 28 && pos <= np <= s.len() && np <= pos + 2
        }),
{
}

// === Case folding ===
/// ASCII lowering of one character.
pub open spec fn ascii_lower_char(c: char) -> char {
    if 'A' <= c <= 'Z' {
        ((c as u32) + 32) as char
    } else {
        c
    }
}

/// ASCII lowering of a character sequence.
pub open spec fn ascii_lower(s: Seq<char>) -> Seq<char> {
    s.map_values(|c: char| ascii_lower_char(c))
}

/// Lowering is the identity on text without ASCII capitals.
pub proof fn lemma_ascii_lower_id(s: Seq<char>)
    requires
        forall|i: int| 0 <= i < s.len() ==> !('A' <= #[trigger] s[i] && s[i] <= 'Z'),
    ensures
        ascii_lower(s) == s,
{
    assert(ascii_lower(s) =~= s);
}

/// What `str::to_lowercase` returns: Unicode lowercasing, a function of
/// the input characters alone.
pub uninterp spec fn lower_of(s: Seq<char>) -> Seq<char>;

/// Relies on str::to_lowercase: the result depends on the input
/// characters alone, an empty input stays empty, and an all-ASCII input
/// is lowered letter by letter (`A`..`Z` to `a`..`z`).
#[verifier::external_body]
fn to_lowercase_string(s: &str) -> (r: String)
    ensures
        r@ == lower_of(s@),
        s@.len() == 0 ==> r@.len() == 0,
        vstd::string::is_ascii(s) ==> r@ == ascii_lower(s@),
{
    s.to_lowercase()
}

/// Relies on char::from_u32: Some exactly for the Unicode scalar
/// values, that is everything up to 0x10FFFF except the surrogate range.
#[verifier::external_body]
fn char_from_u32(v: u32) -> (r: Option<char>)
    ensures
        (v < 0xD800 || (0xE000 <= v && v <= 0x10FFFF)) ==> r == Some(v as char),
        !(v < 0xD800 || (0xE000 <= v && v <= 0x10FFFF)) ==> r is None,
{
    char::from_u32(v)
}

/// Relies on String::push: appends exactly the given character.
#[verifier::external_body]
fn push_char(s: &mut String, c: char)
    ensures
        final(s)@ == old(s)@.push(c),
{
    s.push(c);
}

/// The characters of a string, in order, as a vector.
fn collect_chars(s: &str) -> (r: Vec<char>)
    ensures
        r@ == s@,
{
    let n = s.unicode_len();
    let mut v: Vec<char> = Vec::new();
    let mut i: usize = 0;
    while i < n
        invariant
            i <= n,
            n == s@.len(),
            v@ == s@.subrange(0, i as int),
        decreases n - i,
    {
        let c = s.get_char(i);
        v.push(c);
        i = i + 1;
        proof {
            assert(v@ =~= s@.subrange(0, i as int));
        }
    }
    proof {
        assert(v@ =~= s@);
    }
    v
}

/// The characters of a vector, in order, as a string.
pub(crate) fn chars_to_string(v: &Vec<char>) -> (r: String)
    ensures
        r@ == v@,
{
    let mut s = String::new();
    let mut i: usize = 0;
    while i < v.len()
        invariant
            i <= v@.len(),
            s@ == v@.subrange(0, i as int),
        decreases v@.len() - i,
    {
        push_char(&mut s, v[i]);
        i = i + 1;
        proof {
            assert(s@ =~= v@.subrange(0, i as int));
        }
    }
    proof {
        assert(s@ =~= v@);
    }
    s
}

// === Executable tables ===
fn cho1(c: char) -> (r: Option<u32>)
    ensures
        r == spec_cho1(c),
{
    match c {
        'g' => Some(0),
        'n' => Some(2),
        'd' => Some(3),
        'r' => Some(5),
        'l' => Some(5),
        'm' => Some(6),
        'b' => Some(7),
        's' => Some(9),
        'j' => Some(12),
        'k' => Some(15),
        't' => Some(16),
        'p' => Some(17),
        'h' => Some(18),
        _ => None,
    }
}

fn cho2(a: char, b: char) -> (r: Option<u32>)
    ensures
        r == spec_cho2(a, b),
{
    match (a, b) {
        ('g', 'g') => Some(1),
        ('k', 'k') => Some(1),
        ('d', 'd') => Some(4),
        ('t', 't') => Some(4),
        ('b', 'b') => Some(8),
        ('p', 'p') => Some(8),
        ('s', 's') => Some(10),
        ('j', 'j') => Some(13),
        ('c', 'h') => Some(14),
        _ => None,
    }
}

fn jung1(c: char) -> (r: Option<u32>)
    ensures
        r == spec_jung1(c),
{
    match c {
        'a' => Some(0),
        'e' => Some(5),
        'o' => Some(8),
        'u' => Some(13),
        'i' => Some(20),
        _ => None,
    }
}

fn jung2(a: char, b: char) -> (r: Option<u32>)
    ensures
        r == spec_jung2(a, b),
{
    match (a, b) {
        ('a', 'e') => Some(1),
        ('y', 'a') => Some(2),
        ('e', 'o') => Some(4),
        ('y', 'e') => Some(7),
        ('w', 'a') => Some(9),
        ('o', 'e') => Some(11),
        ('y', 'o') => Some(12),
        ('w', 'o') => Some(14),
        ('w', 'e') => Some(15),
        ('w', 'i') => Some(16),
        ('y', 'u') => Some(17),
        ('e', 'u') => Some(18),
        ('u', 'i') => Some(19),
        _ => None,
    }
}

fn jung3(a: char, b: char, c: char) -> (r: Option<u32>)
    ensures
        r == spec_jung3(a, b, c),
{
    match (a, b, c) {
        ('y', 'a', 'e') => Some(3),
        ('y', 'e', 'o') => Some(6),
        ('w', 'a', 'e') => Some(10),
        _ => None,
    }
}

fn jong1(c: char) -> (r: Option<u32>)
    ensures
        r == spec_jong1(c),
{
    match c {
        'g' => Some(1),
        'n' => Some(4),
        'd' => Some(7),
        'l' => Some(8),
        'm' => Some(16),
        'b' => Some(17),
        's' => Some(19),
        'j' => Some(22),
        'k' => Some(24),
        't' => Some(25),
        'p' => Some(26),
        'h' => Some(27),
        _ => None,
    }
}

fn jong2(a: char, b: char) -> (r: Option<u32>)
    ensures
        r == spec_jong2(a, b),
{
    match (a, b) {
        ('g', 'g') => Some(2),
        ('g', 's') => Some(3),
        ('n', 'j') => Some(5),
        ('n', 'h') => Some(6),
        ('l', 'g') => Some(9),
        ('l', 'm') => Some(10),
        ('l', 'b') => Some(11),
        ('l', 's') => Some(12),
        ('l', 't') => Some(13),
        ('l', 'p') => Some(14),
        ('l', 'h') => Some(15),
        ('b', 's') => Some(18),
        ('s', 's') => Some(20),
        ('n', 'g') => Some(21),
        ('c', 'h') => Some(23),
    _ => None,
    }
}

/// Relates an executable match result to the spec-level one.
pub open spec fn found_eq(r: Option<(u32, usize)>, m: Option<(u32, int)>) -> bool {
    match (r, m) {
        (Some((ri, rl)), Some((mi, ml))) => ri == mi && rl as int == ml,
        (None, None) => true,
        _ => false,
    }
}

// === The converter ===
/// Romanization-to-Hangul converter.
///
/// The phonetic tables are fixed, so the converter itself carries no
/// state; it exists so callers hold one value with the conversion
/// behaviour, as the input method does.
pub struct HangulConverter {}

impl HangulConverter {
    /// A new converter over the fixed phonetic tables.
    pub fn new() -> (r: Self) {
        HangulConverter {  }
    }

    /// Longest initial-consonant match at `pos`.
    fn find_choseong(&self, chars: &Vec<char>, pos: usize) -> (r: Option<(u32, usize)>)
        requires
            pos <= chars@.len(),
        ensures
            found_eq(r, match_cho(chars@, pos as int)),
    {
        let n = chars.len();
        if n - pos >= 2 {
            if let Some(i) = cho2(chars[pos], chars[pos + 1]) {
                return Some((i, 2));
            }
        }
        if n - pos >= 1 {
            if let Some(i) = cho1(chars[pos]) {
                return Some((i, 1));
            }
        }
        None
    }

    /// Longest vowel match at `pos`.
    fn find_jungseong(&self, chars: &Vec<char>, pos: usize) -> (r: Option<(u32, usize)>)
        requires
            pos <= chars@.len(),
        ensures
            found_eq(r, match_jung(chars@, pos as int)),
    {
        let n = chars.len();
        if n - pos >= 3 {
            if let Some(i) = jung3(chars[pos], chars[pos + 1], chars[pos + 2]) {
                return Some((i, 3));
            }
        }
        if n - pos >= 2 {
            if let Some(i) = jung2(chars[pos], chars[pos + 1]) {
                return Some((i, 2));
            }
        }
        if n - pos >= 1 {
            if let Some(i) = jung1(chars[pos]) {
                return Some((i, 1));
            }
        }
        None
    }

    /// Final-consonant resolution with lookahead at the next syllable.
    /// Advances `pos` past the accepted candidate, if any, and returns
    /// the final-consonant index (0 for none).
    fn find_jongseong_with_lookahead(&self, chars: &Vec<char>, pos: &mut usize) -> (r: u32)
        requires
            *old(pos) <= chars@.len(),
        ensures
            ({
                let (ji, np) = match_jong(chars@, *old(pos) as int);
                r == ji && *final(pos) as int == np
            }),
    {
        let n = chars.len();
        let p = *pos;
        if n - p >= 2 {
            if let Some(j) = jong2(chars[p], chars[p + 1]) {
                let np = p + 2;
                if np >= n {
                    *pos = np;
                    return j;
                }
                if self.find_choseong(chars, np).is_some() {
                    *pos = np;
                    return j;
                }
                if self.find_jungseong(chars, np).is_none() {
                    *pos = np;
                    return j;
                }
                // a bare vowel follows: retry with the shorter candidate
            }
        }
        if n - p >= 1 {
            if let Some(j) = jong1(chars[p]) {
                let np = p + 1;
                if np >= n {
                    *pos = np;
                    return j;
                }
                if self.find_choseong(chars, np).is_some() {
                    *pos = np;
                    return j;
                }
                if self.find_jungseong(chars, np).is_none() {
                    *pos = np;
                    return j;
                }
            }
        }
        0
    }

    /// Composes one syllable block from its component indices.
    fn compose(&self, cho: u32, jung: u32, jong: u32) -> (r: char)
        requires
            cho < 19,
            jung < 21,
            jong < 28,
        ensures
            r == compose_char(cho as int, jung as int, jong as int),
    {
        let code: u32 = 0xAC00 + (cho * 21 + jung) * 28 + jong;
        match char_from_u32(code) {
            Some(c) => c,
            None => '?',
        }
    }

    /// Converts one space-free segment of romanized characters.
    fn convert_syllable(&self, seg: &Vec<char>) -> (r: Vec<char>)
        ensures
            r@ == convert_syllable_seq(seg@, 0),
    {
        let ghost s = seg@;
        let mut result: Vec<char> = Vec::new();
        let mut pos: usize = 0;
        while pos < seg.len()
            invariant
                pos <= s.len(),
                seg@ == s,
                convert_syllable_seq(s, 0) == result@ + convert_syllable_seq(s, pos as int),
            decreases s.len() - pos,
        {
            let ghost p = pos as int;
            let ghost result0 = result@;
            proof {
                lemma_match_cho_range(s, p);
            }
            match self.find_choseong(seg, pos) {
                Some((ci, cl)) => {
                    proof {
                        lemma_match_jung_range(s, p + cl);
                    }
                    match self.find_jungseong(seg, pos + cl) {
                        Some((ji, jl)) => {
                            proof {
                                lemma_match_jong_range(s, p + cl + jl);
                            }
                            let mut np = pos + cl + jl;
                            let jo = self.find_jongseong_with_lookahead(seg, &mut np);
                            let c = self.compose(ci, ji, jo);
                            result.push(c);
                            pos = np;
                            proof {
                                assert(result@ =~= result0 + seq![c]);
                                assert(convert_syllable_seq(s, p) == seq![c]
                                    + convert_syllable_seq(s, pos as int));
                                assert(result0 + (seq![c] + convert_syllable_seq(s, pos as int))
                                    =~= result@ + convert_syllable_seq(s, pos as int));
                            }
                        },
                        None => {
                            // a consonant with no vowel after it cannot
                            // open a syllable: pass its letters through
                            result.push(seg[pos]);
                            if cl == 2 {
                                result.push(seg[pos + 1]);
                            }
                            pos = pos + cl;
                            proof {
                                assert(result@ =~= result0 + s.subrange(p, p + cl));
                                assert(convert_syllable_seq(s, p) == s.subrange(p, p + cl)
                                    + convert_syllable_seq(s, pos as int));
                                assert(result0 + (s.subrange(p, p + cl) + convert_syllable_seq(
                                    s,
                                    pos as int,
                                )) =~= result@ + convert_syllable_seq(s, pos as int));
                            }
                        },
                    }
                },
                None => {
                    proof {
                        lemma_match_jung_range(s, p);
                    }
                    match self.find_jungseong(seg, pos) {
                        Some((ji, jl)) => {
                            proof {
                                lemma_match_jong_range(s, p + jl);
                            }
                            let mut np = pos + jl;
                            let jo = self.find_jongseong_with_lookahead(seg, &mut np);
                            let c = self.compose(11, ji, jo);
                            result.push(c);
                            pos = np;
                            proof {
                                assert(result@ =~= result0 + seq![c]);
                                assert(convert_syllable_seq(s, p) == seq![c]
                                    + convert_syllable_seq(s, pos as int));
                                assert(result0 + (seq![c] + convert_syllable_seq(s, pos as int))
                                    =~= result@ + convert_syllable_seq(s, pos as int));
                            }
                        },
                        None => {
                            // no table match at all: pass one character
                            // through unchanged
                            let c = seg[pos];
                            result.push(c);
                            pos = pos + 1;
                            proof {
                                assert(result@ =~= result0 + seq![c]);
                                assert(convert_syllable_seq(s, p) == seq![c]
                                    + convert_syllable_seq(s, pos as int));
                                assert(result0 + (seq![c] + convert_syllable_seq(s, pos as int))
                                    =~= result@ + convert_syllable_seq(s, pos as int));
                            }
                        },
                    }
                },
            }
        }
        proof {
            assert(convert_syllable_seq(s, s.len() as int) =~= Seq::<char>::empty());
            assert(result@ + Seq::<char>::empty() =~= result@);
        }
        result
    }

    /// Converts romanized text to Hangul.
    ///
    /// The input is case-folded first; recognized Latin runs become
    /// Hangul syllables, unrecognized characters pass through unchanged,
    /// and a run of `m` spaces between segments becomes `m / 2` literal
    /// spaces while ending the current segment.  The result is a
    /// function of the case-folded input alone, so equal inputs always
    /// convert to equal outputs.
    pub fn convert(&self, input: &str) -> (r: String)
        ensures
            r@ == convert_seq(lower_of(input@)),
            vstd::string::is_ascii(input) ==> r@ == convert_seq(ascii_lower(input@)),
    {
        let lowered = to_lowercase_string(input);
        let chars = collect_chars(lowered.as_str());
        let ghost s = chars@;
        let mut result: Vec<char> = Vec::new();
        let mut seg: Vec<char> = Vec::new();
        let ghost mut start: int = 0;
        let mut i: usize = 0;
        while i < chars.len()
            invariant
                0 <= start <= i as int <= s.len(),
                chars@ == s,
                seg@ == s.subrange(start, i as int),
                convert_seq(s) == result@ + convert_seq_from(s, i as int, start),
            decreases s.len() - i,
        {
            let ghost i0 = i as int;
            let ghost result0 = result@;
            let c = chars[i];
            if c == ' ' {
                // count the whole space run
                let mut j = i + 1;
                while j < chars.len() && chars[j] == ' '
                    invariant
                        i0 < j as int <= s.len(),
                        chars@ == s,
                        s[i0] == ' ',
                        space_run(s, i0) == (j as int - i0) + space_run(s, j as int),
                    decreases s.len() - j,
                {
                    j = j + 1;
                }
                proof {
                    assert(space_run(s, j as int) == 0);
                    assert(space_run(s, i0) == j as int - i0);
                }
                let m = j - i;
                // flush the pending segment
                if seg.len() > 0 {
                    let mut piece = self.convert_syllable(&seg);
                    result.append(&mut piece);
                    seg.clear();
                } else {
                    proof {
                        assert(convert_syllable_seq(s.subrange(start, i0), 0) =~= Seq::<
                            char,
                        >::empty());
                    }
                }
                // every second space becomes a literal output space
                let half = m / 2;
                let ghost flushed = result@;
                let mut k: usize = 0;
                while k < half
                    invariant
                        k <= half,
                        result@ == flushed + Seq::new(k as nat, |q: int| ' '),
                    decreases half - k,
                {
                    result.push(' ');
                    k = k + 1;
                    proof {
                        assert(result@ =~= flushed + Seq::new(k as nat, |q: int| ' '));
                    }
                }
                i = j;
                proof {
                    let start_old = start;
                    start = i as int;
                    let piece_s = convert_syllable_seq(s.subrange(start_old, i0), 0);
                    let sp = Seq::new((space_run(s, i0) / 2) as nat, |q: int| ' ');
                    assert(convert_seq_from(s, i0, start_old) == piece_s + sp + convert_seq_from(
                        s,
                        i as int,
                        i as int,
                    ));
                    assert(result@ =~= (result0 + piece_s) + sp);
                    assert(result@ + convert_seq_from(s, i as int, i as int) =~= result0
                        + convert_seq_from(s, i0, start_old));
                }
            } else {
                seg.push(c);
                i = i + 1;
                proof {
                    assert(seg@ =~= s.subrange(start, i as int));
                }
            }
        }
        // flush the final segment
        if seg.len() > 0 {
            let mut piece = self.convert_syllable(&seg);
            result.append(&mut piece);
        } else {
            proof {
                assert(convert_syllable_seq(s.subrange(start, s.len() as int), 0) =~= Seq::<
                    char,
                >::empty());
            }
        }
        proof {
            assert(result@ =~= convert_seq(s));
        }
        chars_to_string(&result)
    }
}

// === Laws of the conversion ===
/// A syllable composed from in-range components decomposes back into
/// exactly those components; in particular a syllable composed with no
/// final consonant gives back its initial consonant and vowel.
pub proof fn lemma_compose_decompose(cho: int, jung: int, jong: int)
    requires
        0 <= cho < 19,
        0 <= jung < 21,
        0 <= jong < 28,
    ensures
        ({
            let off = syllable_code(cho, jung, jong) - 0xAC00;
            off % 28 == jong && (off / 28) % 21 == jung && (off / 28) / 21 == cho
        }),
{
    let off = syllable_code(cho, jung, jong) - 0xAC00;
    vstd::arithmetic::div_mod::lemma_fundamental_div_mod_converse(
        off,
        28,
        cho * 21 + jung,
        jong,
    );
    vstd::arithmetic::div_mod::lemma_fundamental_div_mod_converse(cho * 21 + jung, 21, cho, jung);
}

/// Letters that occur in some table spelling.
pub open spec fn table_letter(c: char) -> bool {
    c == 'a' || c == 'b' || c == 'c' || c == 'd' || c == 'e' || c == 'g' || c == 'h' || c == 'i'
        || c == 'j' || c == 'k' || c == 'l' || c == 'm' || c == 'n' || c == 'o' || c == 'p' || c
        == 'r' || c == 's' || c == 't' || c == 'u' || c == 'w' || c == 'y'
}

/// A character the engine can only pass through: not a space, not a
/// letter of any table spelling, and outside the Hangul-syllable block
/// that composed output lands in.
pub open spec fn passthrough_char(c: char) -> bool {
    c != ' ' && !table_letter(c) && (c as u32) < 0xAC00
}

/// The pass-through predicate as a single value, so every filter over
/// it uses the same function.
pub open spec fn passthrough_pred() -> spec_fn(char) -> bool {
    |c: char| passthrough_char(c)
}

/// Every letter of an initial-consonant hit is a table letter.
proof fn lemma_cho_letters(s: Seq<char>, pos: int)
    requires
        0 <= pos,
    ensures
        match match_cho(s, pos) {
            Some((i, l)) => forall|k: int| pos <= k < pos + l ==> table_letter(#[trigger] s[k]),
            None => true,
        },
{
    match match_cho(s, pos) {
        Some((i, l)) => {
            assert forall|k: int| pos <= k < pos + l implies table_letter(s[k]) by {
                if l == 2 {
                    assert(spec_cho2(s[pos], s[pos + 1]) is Some);
                } else {
                    assert(spec_cho1(s[pos]) is Some);
                }
            }
        },
        None => {},
    }
}

/// Every letter of a vowel hit is a table letter.
proof fn lemma_jung_letters(s: Seq<char>, pos: int)
    requires
        0 <= pos,
    ensures
        match match_jung(s, pos) {
            Some((i, l)) => forall|k: int| pos <= k < pos + l ==> table_letter(#[trigger] s[k]),
            None => true,
        },
{
    match match_jung(s, pos) {
        Some((i, l)) => {
            assert forall|k: int| pos <= k < pos + l implies table_letter(s[k]) by {
                if l == 3 {
                    assert(spec_jung3(s[pos], s[pos + 1], s[pos + 2]) is Some);
                } else if l == 2 {
                    assert(spec_jung2(s[pos], s[pos + 1]) is Some);
                } else {
                    assert(spec_jung1(s[pos]) is Some);
                }
            }
        },
        None => {},
    }
}

/// Every letter consumed by the final-consonant resolution is a table
/// letter.
proof fn lemma_jong_letters(s: Seq<char>, pos: int)
    requires
        0 <= pos,
    ensures
        ({
            let (i, np) = match_jong(s, pos);
            forall|k: int| pos <= k < np ==> table_letter(#[trigger] s[k])
        }),
{
    let (i, np) = match_jong(s, pos);
    assert forall|k: int| pos <= k < np implies table_letter(s[k]) by {
        if np == pos + 2 {
            assert(spec_jong2(s[pos], s[pos + 1]) is Some);
        } else if np == pos + 1 {
            assert(spec_jong1(s[pos]) is Some);
        }
    }
}

/// One conversion step emits exactly the pass-through characters it
/// consumes: a composed syllable consumes table letters only and emits
/// a Hangul character, and everything else is copied verbatim.
proof fn lemma_step_filter(s: Seq<char>, pos: int)
    requires
        0 <= pos < s.len(),
    ensures
        ({
            let (out, np) = syllable_step(s, pos);
            pos < np <= s.len() && out.filter(passthrough_pred()) == s.subrange(pos, np).filter(
                passthrough_pred(),
            )
        }),
{
    let pred = passthrough_pred();
    let (out, np) = syllable_step(s, pos);
    lemma_match_cho_range(s, pos);
    lemma_match_jung_range(s, pos);
    lemma_cho_letters(s, pos);
    lemma_jung_letters(s, pos);
    match match_cho(s, pos) {
        Some((ci, cl)) => {
            lemma_match_jung_range(s, pos + cl);
            lemma_jung_letters(s, pos + cl);
            match match_jung(s, pos + cl) {
                Some((ji, jl)) => {
                    lemma_match_jong_range(s, pos + cl + jl);
                    lemma_jong_letters(s, pos + cl + jl);
                    let sub = s.subrange(pos, np);
                    assert forall|k: int| 0 <= k < sub.len() implies !pred(sub[k]) by {
                        assert(sub[k] == s[pos + k]);
                        assert(table_letter(s[pos + k]));
                    }
                    sub.lemma_all_neg_filter_empty(pred);
                    assert forall|k: int| 0 <= k < out.len() implies !pred(out[k]) by {
                        assert(out[k] == compose_char(ci as int, ji as int, match_jong(
                            s,
                            pos + cl + jl,
                        ).0 as int));
                    }
                    out.lemma_all_neg_filter_empty(pred);
                    assert(out.filter(pred) =~= sub.filter(pred));
                },
                None => {
                    assert(out =~= s.subrange(pos, np));
                },
            }
        },
        None => {
            match match_jung(s, pos) {
                Some((ji, jl)) => {
                    lemma_match_jong_range(s, pos + jl);
                    lemma_jong_letters(s, pos + jl);
                    let sub = s.subrange(pos, np);
                    assert forall|k: int| 0 <= k < sub.len() implies !pred(sub[k]) by {
                        assert(sub[k] == s[pos + k]);
                        assert(table_letter(s[pos + k]));
                    }
                    sub.lemma_all_neg_filter_empty(pred);
                    assert forall|k: int| 0 <= k < out.len() implies !pred(out[k]) by {
                        assert(out[k] == compose_char(silent_choseong(), ji as int, match_jong(
                            s,
                            pos + jl,
                        ).0 as int));
                    }
                    out.lemma_all_neg_filter_empty(pred);
                    assert(out.filter(pred) =~= sub.filter(pred));
                },
                None => {
                    assert(out =~= s.subrange(pos, np));
                },
            }
        },
    }
}

/// Pass-through characters of one segment survive segment conversion
/// unchanged and in order.
proof fn lemma_passthrough_syllable(s: Seq<char>, pos: int)
    requires
        0 <= pos <= s.len(),
    ensures
        convert_syllable_seq(s, pos).filter(passthrough_pred()) == s.subrange(
            pos,
            s.len() as int,
        ).filter(passthrough_pred()),
    decreases s.len() - pos,
{
    let pred = passthrough_pred();
    if pos >= s.len() {
        assert(s.subrange(pos, s.len() as int) =~= Seq::<char>::empty());
        reveal(Seq::filter);
    } else {
        lemma_step_filter(s, pos);
        let (out, np) = syllable_step(s, pos);
        lemma_passthrough_syllable(s, np);
        Seq::<char>::filter_distributes_over_add(out, convert_syllable_seq(s, np), pred);
        Seq::<char>::filter_distributes_over_add(
            s.subrange(pos, np),
            s.subrange(np, s.len() as int),
            pred,
        );
        assert(s.subrange(pos, np) + s.subrange(np, s.len() as int) =~= s.subrange(
            pos,
            s.len() as int,
        ));
    }
}

/// Every character inside a space run is a space.
proof fn lemma_space_run_spaces(s: Seq<char>, i: int, k: int)
    requires
        0 <= i <= k < i + space_run(s, i),
    ensures
        s[k] == ' ',
    decreases k - i,
{
    if k > i {
        lemma_space_run_spaces(s, i + 1, k);
    }
}

/// Pass-through characters survive whole-input conversion from any
/// intermediate state of the space-splitting walk.
proof fn lemma_passthrough_from(s: Seq<char>, i: int, start: int)
    requires
        0 <= start <= i <= s.len(),
    ensures
        convert_seq_from(s, i, start).filter(passthrough_pred()) == s.subrange(
            start,
            s.len() as int,
        ).filter(passthrough_pred()),
    decreases s.len() - i,
{
    let pred = passthrough_pred();
    if i == s.len() {
        let sub = s.subrange(start, i);
        lemma_passthrough_syllable(sub, 0);
        assert(sub.subrange(0, sub.len() as int) =~= sub);
        assert(sub =~= s.subrange(start, s.len() as int));
    } else if s[i] == ' ' {
        let m = space_run(s, i) as int;
        lemma_space_run_bound(s, i);
        let sub = s.subrange(start, i);
        lemma_passthrough_syllable(sub, 0);
        assert(sub.subrange(0, sub.len() as int) =~= sub);
        let a = convert_syllable_seq(sub, 0);
        let b = Seq::new((m / 2) as nat, |k: int| ' ');
        let c = convert_seq_from(s, i + m, i + m);
        assert forall|k: int| 0 <= k < b.len() implies !pred(b[k]) by {}
        b.lemma_all_neg_filter_empty(pred);
        lemma_passthrough_from(s, i + m, i + m);
        let mid = s.subrange(i, i + m);
        assert forall|k: int| 0 <= k < mid.len() implies !pred(mid[k]) by {
            lemma_space_run_spaces(s, i, i + k);
        }
        mid.lemma_all_neg_filter_empty(pred);
        Seq::<char>::filter_distributes_over_add(a, b, pred);
        Seq::<char>::filter_distributes_over_add(a + b, c, pred);
        Seq::<char>::filter_distributes_over_add(sub, mid, pred);
        Seq::<char>::filter_distributes_over_add(
            sub + mid,
            s.subrange(i + m, s.len() as int),
            pred,
        );
        assert((sub + mid) + s.subrange(i + m, s.len() as int) =~= s.subrange(
            start,
            s.len() as int,
        ));
        assert(b.filter(pred) =~= Seq::<char>::empty());
        assert(mid.filter(pred) =~= Seq::<char>::empty());
        assert(convert_seq_from(s, i, start) == (a + b) + c);
        assert(((a + b) + c).filter(pred) =~= s.subrange(start, s.len() as int).filter(pred));
    } else {
        lemma_passthrough_from(s, i + 1, start);
    }
}

/// Pass-through law: a character with no match in any table (and below
/// the Hangul block the engine composes into) appears in the output
/// unchanged and in its original relative position — the subsequences
/// of such characters on either side of the conversion are equal.
pub proof fn lemma_passthrough(s: Seq<char>)
    ensures
        convert_seq(s).filter(passthrough_pred()) == s.filter(passthrough_pred()),
{
    lemma_passthrough_from(s, 0, 0);
    assert(s.subrange(0, s.len() as int) =~= s);
}

/// The space predicate as a single value.
pub open spec fn space_pred() -> spec_fn(char) -> bool {
    |c: char| c == ' '
}

/// A run of spaces bounded on the right has exactly the bounded length.
proof fn lemma_space_run_exact(s: Seq<char>, i: int, j: int)
    requires
        0 <= i <= j <= s.len(),
        forall|k: int| i <= k < j ==> #[trigger] s[k] == ' ',
        j == s.len() || s[j] != ' ',
    ensures
        space_run(s, i) == j - i,
    decreases j - i,
{
    if i < j {
        lemma_space_run_exact(s, i + 1, j);
    }
}

/// Filtering keeps a sequence whole when every element satisfies the
/// predicate.
proof fn lemma_all_pos_filter_self(s: Seq<char>, pred: spec_fn(char) -> bool)
    requires
        forall|k: int| 0 <= k < s.len() ==> pred(#[trigger] s[k]),
    ensures
        s.filter(pred) == s,
    decreases s.len(),
{
    reveal(Seq::filter);
    if s.len() != 0 {
        lemma_all_pos_filter_self(s.drop_last(), pred);
        assert(s.filter(pred) =~= s);
    } else {
        assert(s.filter(pred) =~= s);
    }
}

/// Space rule: a run of `n` spaces between two convertible tokens
/// yields exactly `n / 2` literal spaces in the output.
pub proof fn lemma_space_rule(n: nat)
    ensures
        ({
            let s = seq!['a'] + Seq::new(n, |k: int| ' ') + seq!['i'];
            convert_seq(s).filter(space_pred()).len() == n / 2
        }),
{
    let pred = space_pred();
    let sp = Seq::new(n, |k: int| ' ');
    let s = seq!['a'] + sp + seq!['i'];
    assert(s.len() == n + 2);
    assert(s[0] == 'a');
    assert(s[n as int + 1] == 'i');
    assert(forall|k: int| 1 <= k < n + 1 ==> #[trigger] s[k] == ' ');
    let a_seg = seq!['a'];
    let i_seg = seq!['i'];
    let a_out = seq![compose_char(silent_choseong(), 0, 0)];
    let i_out = seq![compose_char(silent_choseong(), 20, 0)];
    assert(convert_syllable_seq(a_seg, 0) =~= a_out) by {
        assert(match_cho(a_seg, 0) is None);
        assert(match_jung(a_seg, 0) == Some((0u32, 1int)));
        assert(match_jong(a_seg, 1) == (0u32, 1int));
        reveal_with_fuel(convert_syllable_seq, 2);
    }
    assert(convert_syllable_seq(i_seg, 0) =~= i_out) by {
        assert(match_cho(i_seg, 0) is None);
        assert(match_jung(i_seg, 0) == Some((20u32, 1int)));
        assert(match_jong(i_seg, 1) == (0u32, 1int));
        reveal_with_fuel(convert_syllable_seq, 2);
    }
    assert(!pred(compose_char(silent_choseong(), 0, 0)));
    assert(!pred(compose_char(silent_choseong(), 20, 0)));
    if n == 0 {
        let both = seq!['a', 'i'];
        assert(s =~= both);
        assert(convert_seq_from(s, 0, 0) == convert_seq_from(s, 1, 0));
        assert(convert_seq_from(s, 1, 0) == convert_seq_from(s, 2, 0));
        assert(convert_seq_from(s, 2, 0) == convert_syllable_seq(s.subrange(0, 2), 0));
        assert(s.subrange(0, 2) =~= both);
        let out = seq![
            compose_char(silent_choseong(), 0, 0),
            compose_char(silent_choseong(), 20, 0),
        ];
        assert(convert_syllable_seq(both, 0) =~= out) by {
            assert(match_cho(both, 0) is None);
            assert(match_jung(both, 0) == Some((0u32, 1int)));
            assert(match_jong(both, 1) == (0u32, 1int));
            assert(match_cho(both, 1) is None);
            assert(match_jung(both, 1) == Some((20u32, 1int)));
            assert(match_jong(both, 2) == (0u32, 2int));
            reveal_with_fuel(convert_syllable_seq, 3);
        }
        assert forall|k: int| 0 <= k < out.len() implies !pred(out[k]) by {}
        out.lemma_all_neg_filter_empty(pred);
        assert(convert_seq(s).filter(pred).len() == 0);
    } else {
        let ni = n as int;
        assert(convert_seq_from(s, 0, 0) == convert_seq_from(s, 1, 0));
        assert(s[1] == ' ');
        lemma_space_run_exact(s, 1, ni + 1);
        assert(space_run(s, 1) == n);
        let half = Seq::new((ni / 2) as nat, |k: int| ' ');
        assert(convert_seq_from(s, 1, 0) == convert_syllable_seq(s.subrange(0, 1), 0) + half
            + convert_seq_from(s, ni + 1, ni + 1));
        assert(s.subrange(0, 1) =~= a_seg);
        assert(convert_seq_from(s, ni + 1, ni + 1) == convert_seq_from(s, ni + 2, ni + 1));
        assert(convert_seq_from(s, ni + 2, ni + 1) == convert_syllable_seq(
            s.subrange(ni + 1, ni + 2),
            0,
        ));
        assert(s.subrange(ni + 1, ni + 2) =~= i_seg);
        Seq::<char>::filter_distributes_over_add(a_out, half, pred);
        Seq::<char>::filter_distributes_over_add(a_out + half, i_out, pred);
        assert forall|k: int| 0 <= k < a_out.len() implies !pred(a_out[k]) by {}
        a_out.lemma_all_neg_filter_empty(pred);
        assert forall|k: int| 0 <= k < i_out.len() implies !pred(i_out[k]) by {}
        i_out.lemma_all_neg_filter_empty(pred);
        assert(forall|k: int| 0 <= k < half.len() ==> pred(#[trigger] half[k]));
        lemma_all_pos_filter_self(half, pred);
        assert(convert_seq(s) == (a_out + half) + i_out);
        assert(((a_out + half) + i_out).filter(pred).len() == n / 2);
    }
}

impl Default for HangulConverter {
    /// Same as [`HangulConverter::new`].
    fn default() -> (r: Self)
        ensures
            r == (HangulConverter {  }),
    {
        HangulConverter {  }
    }
}

} // verus!
