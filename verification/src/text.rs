//! Text decoding and trimming.
//!
//! The decoding steps that std performs (UTF-8 and UTF-16 conversion,
//! Unicode upper-casing) sit behind small trusted wrappers; everything
//! around them — Latin-1 decoding, NUL and whitespace trimming, searching
//! and case-insensitive comparison — is verified character-level code.

use vstd::prelude::*;

verus! {

/// The characters that `String::from_utf8_lossy` produces for the given
/// bytes: valid UTF-8 sequences decode normally, invalid ones become
/// replacement characters.
pub uninterp spec fn utf8_lossy_of(b: Seq<u8>) -> Seq<char>;

/// The characters that `String::from_utf16_lossy` produces for the given
/// big-endian-assembled code units: well-formed UTF-16 decodes normally,
/// unpaired surrogates become replacement characters.
pub uninterp spec fn utf16_lossy_of(u: Seq<u16>) -> Seq<char>;

/// The characters of the Unicode uppercase mapping of a single character.
pub uninterp spec fn upper_of(c: char) -> Seq<char>;

/// The characters of the lossy UTF-8 decoding: valid UTF-8 decodes per
/// the UTF-8 model of `vstd::utf8`; anything else is what
/// `String::from_utf8_lossy` makes of it.
pub open spec fn spec_utf8_lossy(b: Seq<u8>) -> Seq<char> {
    if vstd::utf8::valid_utf8(b) {
        vstd::utf8::decode_utf8(b)
    } else {
        utf8_lossy_of(b)
    }
}

/// Relies on `String::from_utf8_lossy`: the result is a function of the
/// bytes alone, and bytes that already form valid UTF-8 decode exactly.
#[verifier::external_body]
pub(crate) fn utf8_lossy(b: &[u8]) -> (r: Vec<char>)
    ensures
        r@ == utf8_lossy_of(b@),
        r@ == spec_utf8_lossy(b@),
{
    String::from_utf8_lossy(b).chars().collect()
}

/// Relies on `String::from_utf16_lossy`: the result is a function of the
/// code units alone.
#[verifier::external_body]
pub(crate) fn utf16_lossy(u: &[u16]) -> (r: Vec<char>)
    ensures
        r@ == utf16_lossy_of(u@),
{
    String::from_utf16_lossy(u).chars().collect()
}

/// Relies on `str::from_utf8`: it succeeds exactly on valid UTF-8 and
/// then decodes it, per the UTF-8 model of `vstd::utf8`.
#[verifier::external_body]
pub(crate) fn utf8_strict(b: &[u8]) -> (r: Option<Vec<char>>)
    ensures
        r is Some <==> vstd::utf8::valid_utf8(b@),
        r is Some ==> r->0@ == vstd::utf8::decode_utf8(b@),
{
    match core::str::from_utf8(b) {
        Ok(s) => Some(s.chars().collect()),
        Err(_) => None,
    }
}

/// Relies on `char::to_uppercase`: the mapping depends on the character
/// alone and always yields at least one character.
#[verifier::external_body]
pub(crate) fn char_to_upper(c: char) -> (r: Vec<char>)
    ensures
        r@ == upper_of(c),
        r@.len() >= 1,
{
    c.to_uppercase().collect()
}

/// Relies on `String: FromIterator<char>`: collecting characters yields
/// the string of exactly those characters.
#[verifier::external_body]
pub(crate) fn chars_to_string(v: &Vec<char>) -> (r: String)
    ensures
        r@ == v@,
{
    v.iter().collect()
}

/// The Unicode `White_Space` set, as `char::is_whitespace` recognizes it.
pub open spec fn spec_is_space(c: char) -> bool {
    let u = c as u32;
    u == 0x20 || (0x09 <= u && u <= 0x0D) || u == 0x85 || u == 0xA0 || u == 0x1680 || (0x2000
        <= u && u <= 0x200A) || u == 0x2028 || u == 0x2029 || u == 0x202F || u == 0x205F || u
        == 0x3000
}

pub fn is_space(c: char) -> (r: bool)
    ensures
        r == spec_is_space(c),
{
    let u = c as u32;
    u == 0x20 || (0x09 <= u && u <= 0x0D) || u == 0x85 || u == 0xA0 || u == 0x1680 || (0x2000
        <= u && u <= 0x200A) || u == 0x2028 || u == 0x2029 || u == 0x202F || u == 0x205F || u
        == 0x3000
}

pub open spec fn spec_is_nul(c: char) -> bool {
    c as u32 == 0
}

pub fn is_nul(c: char) -> (r: bool)
    ensures
        r == spec_is_nul(c),
{
    c as u32 == 0
}

/// The sequence with its trailing NUL characters removed.
pub open spec fn spec_trim_end_nuls(s: Seq<char>) -> Seq<char>
    decreases s.len(),
{
    if s.len() > 0 && spec_is_nul(s.last()) {
        spec_trim_end_nuls(s.drop_last())
    } else {
        s
    }
}

/// The sequence with its leading NUL characters removed.
pub open spec fn spec_trim_start_nuls(s: Seq<char>) -> Seq<char>
    decreases s.len(),
{
    if s.len() > 0 && spec_is_nul(s.first()) {
        spec_trim_start_nuls(s.drop_first())
    } else {
        s
    }
}

/// The sequence with its trailing whitespace removed.
pub open spec fn spec_trim_end_spaces(s: Seq<char>) -> Seq<char>
    decreases s.len(),
{
    if s.len() > 0 && spec_is_space(s.last()) {
        spec_trim_end_spaces(s.drop_last())
    } else {
        s
    }
}

/// The sequence with its leading whitespace removed.
pub open spec fn spec_trim_start_spaces(s: Seq<char>) -> Seq<char>
    decreases s.len(),
{
    if s.len() > 0 && spec_is_space(s.first()) {
        spec_trim_start_spaces(s.drop_first())
    } else {
        s
    }
}

/// NUL characters removed from both ends.
pub open spec fn spec_trim_nuls(s: Seq<char>) -> Seq<char> {
    spec_trim_start_nuls(spec_trim_end_nuls(s))
}

/// Whitespace removed from both ends.
pub open spec fn spec_trim_spaces(s: Seq<char>) -> Seq<char> {
    spec_trim_start_spaces(spec_trim_end_spaces(s))
}

pub fn trim_end_nuls(v: Vec<char>) -> (r: Vec<char>)
    ensures
        r@ == spec_trim_end_nuls(v@),
{
    let mut v = v;
    let ghost v0: Seq<char> = v@;
    while v.len() > 0 && is_nul(v[v.len() - 1])
        invariant
            spec_trim_end_nuls(v0) == spec_trim_end_nuls(v@),
        decreases v@.len(),
    {
        v.pop();
    }
    assert(spec_trim_end_nuls(v@) == v@);
    v
}

pub fn trim_start_nuls(v: Vec<char>) -> (r: Vec<char>)
    ensures
        r@ == spec_trim_start_nuls(v@),
{
    let mut v = v;
    let ghost v0: Seq<char> = v@;
    while v.len() > 0 && is_nul(v[0])
        invariant
            spec_trim_start_nuls(v0) == spec_trim_start_nuls(v@),
        decreases v@.len(),
    {
        let ghost prev: Seq<char> = v@;
        v.remove(0);
        assert(v@ =~= prev.drop_first());
    }
    assert(spec_trim_start_nuls(v@) == v@);
    v
}

pub fn trim_end_spaces(v: Vec<char>) -> (r: Vec<char>)
    ensures
        r@ == spec_trim_end_spaces(v@),
{
    let mut v = v;
    let ghost v0: Seq<char> = v@;
    while v.len() > 0 && is_space(v[v.len() - 1])
        invariant
            spec_trim_end_spaces(v0) == spec_trim_end_spaces(v@),
        decreases v@.len(),
    {
        v.pop();
    }
    assert(spec_trim_end_spaces(v@) == v@);
    v
}

pub fn trim_start_spaces(v: Vec<char>) -> (r: Vec<char>)
    ensures
        r@ == spec_trim_start_spaces(v@),
{
    let mut v = v;
    let ghost v0: Seq<char> = v@;
    while v.len() > 0 && is_space(v[0])
        invariant
            spec_trim_start_spaces(v0) == spec_trim_start_spaces(v@),
        decreases v@.len(),
    {
        let ghost prev: Seq<char> = v@;
        v.remove(0);
        assert(v@ =~= prev.drop_first());
    }
    assert(spec_trim_start_spaces(v@) == v@);
    v
}

/// NUL characters trimmed from both ends, executably.
pub fn trim_nuls(v: Vec<char>) -> (r: Vec<char>)
    ensures
        r@ == spec_trim_nuls(v@),
{
    trim_start_nuls(trim_end_nuls(v))
}

/// Whitespace trimmed from both ends, executably.
pub fn trim_spaces(v: Vec<char>) -> (r: Vec<char>)
    ensures
        r@ == spec_trim_spaces(v@),
{
    trim_start_spaces(trim_end_spaces(v))
}

/// The characters written one-for-one as bytes.
pub open spec fn spec_ascii_bytes(s: Seq<char>) -> Seq<u8> {
    s.map(|i: int, c: char| c as u8)
}

/// ASCII characters written as bytes form valid UTF-8 and decode back
/// to themselves, also under the lossy decoding.
pub proof fn lemma_ascii_utf8(s: Seq<char>)
    requires
        vstd::utf8::is_ascii_chars(s),
    ensures
        vstd::utf8::valid_utf8(spec_ascii_bytes(s)),
        vstd::utf8::decode_utf8(spec_ascii_bytes(s)) == s,
        spec_utf8_lossy(spec_ascii_bytes(s)) == s,
{
    vstd::utf8::is_ascii_chars_encode_utf8(s);
    assert(spec_ascii_bytes(s) =~= vstd::utf8::encode_utf8(s));
    vstd::utf8::encode_utf8_valid_utf8(s);
    vstd::utf8::encode_utf8_decode_utf8(s);
}

/// A run of NUL characters.
pub open spec fn spec_nul_run(k: nat) -> Seq<char> {
    Seq::new(k, |i: int| '\u{0}')
}

/// Appended trailing NULs trim away again, and nothing more.
pub proof fn lemma_trim_end_nuls_pad(s: Seq<char>, k: nat)
    requires
        s.len() == 0 || !spec_is_nul(s.last()),
    ensures
        spec_trim_end_nuls(s + spec_nul_run(k)) == s,
    decreases k,
{
    if k == 0 {
        assert(s + spec_nul_run(0) =~= s);
        assert(spec_trim_end_nuls(s) == s);
    } else {
        let w = s + spec_nul_run(k);
        assert(spec_is_nul(w.last()));
        assert(w.drop_last() =~= s + spec_nul_run((k - 1) as nat));
        lemma_trim_end_nuls_pad(s, (k - 1) as nat);
    }
}

/// A sequence without leading or trailing NULs is its own trim.
pub proof fn lemma_trim_nuls_id(s: Seq<char>)
    requires
        s.len() == 0 || (!spec_is_nul(s.first()) && !spec_is_nul(s.last())),
    ensures
        spec_trim_nuls(s) == s,
{
    assert(spec_trim_end_nuls(s) == s);
    assert(spec_trim_start_nuls(s) == s);
}

/// A sequence without leading or trailing whitespace is its own trim.
pub proof fn lemma_trim_spaces_id(s: Seq<char>)
    requires
        s.len() == 0 || (!spec_is_space(s.first()) && !spec_is_space(s.last())),
    ensures
        spec_trim_spaces(s) == s,
{
    assert(spec_trim_end_spaces(s) == s);
    assert(spec_trim_start_spaces(s) == s);
}

/// The bytes read one-for-one as characters (Latin-1 decoding).
pub open spec fn spec_latin1(b: Seq<u8>) -> Seq<char> {
    b.map(|i: int, x: u8| x as char)
}

pub fn latin1_chars(b: &[u8]) -> (r: Vec<char>)
    ensures
        r@ == spec_latin1(b@),
{
    let mut r: Vec<char> = Vec::new();
    let mut i: usize = 0;
    while i < b.len()
        invariant
            i <= b@.len(),
            r@ == spec_latin1(b@.subrange(0, i as int)),
        decreases b@.len() - i,
    {
        r.push(b[i] as char);
        assert(b@.subrange(0, i + 1 as int) =~= b@.subrange(0, i as int).push(b@[i as int]));
        assert(r@ =~= spec_latin1(b@.subrange(0, i + 1)));
        i = i + 1;
    }
    assert(b@.subrange(0, b@.len() as int) =~= b@);
    r
}

/// Copies the characters of `v[a .. b]`.
pub fn vec_range(v: &Vec<char>, a: usize, b: usize) -> (r: Vec<char>)
    requires
        a <= b <= v@.len(),
    ensures
        r@ == v@.subrange(a as int, b as int),
{
    let mut r: Vec<char> = Vec::new();
    let mut i: usize = a;
    while i < b
        invariant
            a <= i <= b <= v@.len(),
            r@ == v@.subrange(a as int, i as int),
        decreases b - i,
    {
        r.push(v[i]);
        assert(v@.subrange(a as int, i + 1 as int) =~= v@.subrange(a as int, i as int).push(
            v@[i as int],
        ));
        i = i + 1;
    }
    r
}

/// Big-endian 16-bit code units formed from consecutive byte pairs; a
/// trailing odd byte is dropped.
pub open spec fn spec_be_units(b: Seq<u8>) -> Seq<u16> {
    Seq::new((b.len() / 2) as nat, |k: int| (((b[2 * k] as u16) << 8) | (b[2 * k + 1] as u16)))
}

pub fn be_units(b: &[u8]) -> (r: Vec<u16>)
    ensures
        r@ == spec_be_units(b@),
{
    let mut r: Vec<u16> = Vec::new();
    let mut i: usize = 0;
    while i < b.len() && i + 1 < b.len()
        invariant
            i % 2 == 0,
            i <= b@.len(),
            r@.len() == i / 2,
            forall|k: int| 0 <= k < r@.len() ==> r@[k] == spec_be_units(b@)[k],
        decreases b@.len() - i,
    {
        r.push(((b[i] as u16) << 8) | (b[i + 1] as u16));
        i = i + 2;
    }
    assert(r@ =~= spec_be_units(b@));
    r
}

} // verus!
