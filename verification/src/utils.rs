//! Small text predicates around the scanner: the ASCII-text check used
//! when rendering fields, and the supported-extension rule used when
//! collecting candidate files.

use vstd::prelude::*;

use crate::helpers::spec_ci_eq;
use crate::title::str_chars;

verus! {

/// ASCII letter, digit, whitespace or punctuation — the characters the
/// renderer treats as plain displayable text.
pub open spec fn spec_is_roman_char(c: char) -> bool {
    let u = c as u32;
    (0x41 <= u && u <= 0x5A) || (0x61 <= u && u <= 0x7A) || (0x30 <= u && u <= 0x39) || u
        == 0x20 || u == 0x09 || u == 0x0A || u == 0x0C || u == 0x0D || (0x21 <= u && u <= 0x2F)
        || (0x3A <= u && u <= 0x40) || (0x5B <= u && u <= 0x60) || (0x7B <= u && u <= 0x7E)
}

pub open spec fn spec_is_roman(s: Seq<char>) -> bool {
    forall|i: int| 0 <= i < s.len() ==> spec_is_roman_char(s[i])
}

/// Whether every character of the string is ASCII alphabetic, numeric,
/// whitespace or punctuation.
pub fn is_roman_alphabet(s: String) -> (r: bool)
    ensures
        r == spec_is_roman(s@),
{
    let cs = str_chars(s.as_str());
    let mut i: usize = 0;
    while i < cs.len()
        invariant
            i <= cs@.len(),
            cs@ == s@,
            forall|k: int| 0 <= k < i ==> spec_is_roman_char(s@[k]),
        decreases cs@.len() - i,
    {
        let u = cs[i] as u32;
        let ok = (0x41 <= u && u <= 0x5A) || (0x61 <= u && u <= 0x7A) || (0x30 <= u && u
            <= 0x39) || u == 0x20 || u == 0x09 || u == 0x0A || u == 0x0C || u == 0x0D || (0x21
            <= u && u <= 0x2F) || (0x3A <= u && u <= 0x40) || (0x5B <= u && u <= 0x60) || (0x7B
            <= u && u <= 0x7E);
        if !ok {
            return false;
        }
        i = i + 1;
    }
    true
}

/// The file extensions the scanner accepts, compared
/// ASCII-case-insensitively: `mp3`, `m4a`, `wav`, `flac`.
pub open spec fn spec_supported_extension(s: Seq<char>) -> bool {
    (s.len() == 3 && spec_ci_eq(s[0], 'm') && spec_ci_eq(s[1], 'p') && s[2] == '3') || (s.len()
        == 3 && spec_ci_eq(s[0], 'm') && s[1] == '4' && spec_ci_eq(s[2], 'a')) || (s.len() == 3
        && spec_ci_eq(s[0], 'w') && spec_ci_eq(s[1], 'a') && spec_ci_eq(s[2], 'v')) || (s.len()
        == 4 && spec_ci_eq(s[0], 'f') && spec_ci_eq(s[1], 'l') && spec_ci_eq(s[2], 'a')
        && spec_ci_eq(s[3], 'c'))
}

fn ci_eq(c: char, l: char) -> (r: bool)
    ensures
        r == spec_ci_eq(c, l),
{
    c == l || (c as u32) + 32 == (l as u32)
}

/// Whether a file extension names a supported audio container.
pub fn is_supported_extension(ext: &str) -> (r: bool)
    ensures
        r == spec_supported_extension(ext@),
{
    let cs = str_chars(ext);
    if cs.len() == 3 {
        (ci_eq(cs[0], 'm') && ci_eq(cs[1], 'p') && cs[2] == '3') || (ci_eq(cs[0], 'm') && cs[1]
            == '4' && ci_eq(cs[2], 'a')) || (ci_eq(cs[0], 'w') && ci_eq(cs[1], 'a') && ci_eq(
            cs[2],
            'v',
        ))
    } else if cs.len() == 4 {
        ci_eq(cs[0], 'f') && ci_eq(cs[1], 'l') && ci_eq(cs[2], 'a') && ci_eq(cs[3], 'c')
    } else {
        false
    }
}

} // verus!
