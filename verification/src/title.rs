//! Filename-derived title fallback: the file's stem with underscores and
//! hyphens turned to spaces, each word capitalized, words joined by
//! single spaces. Applied only when no tag parser produced a title.

use vstd::prelude::*;

use vstd::string::StrSliceExecFns;

use crate::text::{char_to_upper, chars_to_string, is_space, spec_is_space, upper_of, vec_range};
use crate::{MetaModel, SongMetadata};

verus! {

/// Index of the last `'.'` in `s`, or -1 when there is none.
pub open spec fn spec_last_dot(s: Seq<char>) -> int
    decreases s.len(),
{
    if s.len() == 0 {
        -1
    } else if s.last() == '.' {
        s.len() - 1
    } else {
        spec_last_dot(s.drop_last())
    }
}

/// The file stem: everything before the final `'.'`; the whole name
/// when there is no `'.'` or when the only `'.'` leads the name.
pub open spec fn spec_stem(s: Seq<char>) -> Seq<char> {
    let i = spec_last_dot(s);
    if i <= 0 {
        s
    } else {
        s.subrange(0, i)
    }
}

/// The placeholder stem for a nameless file.
pub open spec fn spec_unknown() -> Seq<char> {
    seq!['U', 'n', 'k', 'n', 'o', 'w', 'n']
}

/// The stem, or the placeholder when the name is empty.
pub open spec fn spec_stem_or_unknown(s: Seq<char>) -> Seq<char> {
    if s.len() == 0 {
        spec_unknown()
    } else {
        spec_stem(s)
    }
}

/// Underscores and hyphens replaced by spaces.
pub open spec fn spec_blankify(s: Seq<char>) -> Seq<char> {
    s.map(
        |i: int, c: char|
            if c == '_' || c == '-' {
                ' '
            } else {
                c
            },
    )
}

/// The first position at or after `i` that is past the end or holds
/// whitespace: the end of the word starting at `i`.
pub open spec fn spec_word_end(s: Seq<char>, i: int) -> int
    decreases s.len() - i,
{
    if i >= s.len() {
        i
    } else if spec_is_space(s[i]) {
        i
    } else {
        spec_word_end(s, i + 1)
    }
}

proof fn lemma_word_end(s: Seq<char>, i: int)
    ensures
        spec_word_end(s, i) >= i,
        i <= s.len() ==> spec_word_end(s, i) <= s.len(),
    decreases s.len() - i,
{
    if i < s.len() && !spec_is_space(s[i]) {
        lemma_word_end(s, i + 1);
    }
}

/// A word with its first character mapped through the Unicode uppercase
/// mapping, the rest unchanged.
pub open spec fn spec_capitalize(w: Seq<char>) -> Seq<char> {
    if w.len() == 0 {
        w
    } else {
        upper_of(w[0]) + w.skip(1)
    }
}

/// The whitespace-separated words of `s` from position `i` on, each
/// capitalized, joined by single spaces; `first` tells whether a
/// separator is still owed before the next word.
pub open spec fn spec_render(s: Seq<char>, i: int, first: bool) -> Seq<char>
    decreases s.len() - i,
    via spec_render_decreases
{
    if i >= s.len() {
        Seq::empty()
    } else if spec_is_space(s[i]) {
        spec_render(s, i + 1, first)
    } else {
        let e = spec_word_end(s, i);
        let w = spec_capitalize(s.subrange(i, e));
        if first {
            w + spec_render(s, e, false)
        } else {
            seq![' '] + w + spec_render(s, e, false)
        }
    }
}

#[via_fn]
proof fn spec_render_decreases(s: Seq<char>, i: int, first: bool) {
    if i < s.len() && !spec_is_space(s[i]) {
        lemma_word_end(s, i + 1);
    }
}

/// The prettified title for a file name: its stem (or "Unknown" when
/// the name is empty), underscores and hyphens as spaces, each word's
/// first character uppercased, words joined by single spaces.
pub open spec fn spec_prettified(name: Seq<char>) -> Seq<char> {
    spec_render(spec_blankify(spec_stem_or_unknown(name)), 0, true)
}

/// The stem of the name held in `cs`, or the placeholder for an empty
/// name.
#[verifier::loop_isolation(false)]
fn stem_chars(cs: Vec<char>) -> (r: Vec<char>)
    ensures
        r@ == spec_stem_or_unknown(cs@),
{
    let mut j: usize = cs.len();
    let mut found: bool = false;
    assert(cs@.subrange(0, cs@.len() as int) =~= cs@);
    while j > 0 && !found
        invariant
            j <= cs@.len(),
            !found ==> spec_last_dot(cs@) == spec_last_dot(cs@.subrange(0, j as int)),
            found ==> j >= 1 && spec_last_dot(cs@) == j - 1,
        decreases
                j,
                (if found {
                    0int
                } else {
                    1int
                }),
    {
        if cs[j - 1] == '.' {
            assert(cs@.subrange(0, j as int).last() == cs@[j - 1]);
            found = true;
        } else {
            assert(cs@.subrange(0, j - 1 as int) =~= cs@.subrange(0, j as int).drop_last());
            j = j - 1;
        }
    }
    if cs.len() == 0 {
        let mut u: Vec<char> = Vec::new();
        u.push('U');
        u.push('n');
        u.push('k');
        u.push('n');
        u.push('o');
        u.push('w');
        u.push('n');
        assert(u@ =~= spec_unknown());
        u
    } else if found && j - 1 > 0 {
        vec_range(&cs, 0, j - 1)
    } else {
        assert(cs@.subrange(0, 0) =~= Seq::<char>::empty());
        cs
    }
}

/// Underscores and hyphens replaced by spaces, executably.
#[verifier::loop_isolation(false)]
fn blankify_chars(stem: &Vec<char>) -> (r: Vec<char>)
    ensures
        r@ == spec_blankify(stem@),
{
    let mut s: Vec<char> = Vec::new();
    let mut k: usize = 0;
    while k < stem.len()
        invariant
            k <= stem@.len(),
            s@ == spec_blankify(stem@.subrange(0, k as int)),
        decreases stem@.len() - k,
    {
        let c = stem[k];
        if c == '_' || c == '-' {
            s.push(' ');
        } else {
            s.push(c);
        }
        assert(s@ =~= spec_blankify(stem@.subrange(0, k + 1)));
        k = k + 1;
    }
    assert(stem@.subrange(0, stem@.len() as int) =~= stem@);
    s
}

/// Splits on whitespace, capitalizes each word, joins with single
/// spaces, executably.
#[verifier::loop_isolation(false)]
#[verifier::rlimit(30)]
fn render_words(s: &Vec<char>) -> (r: Vec<char>)
    ensures
        r@ == spec_render(s@, 0, true),
{
    let n = s.len();
    let mut out: Vec<char> = Vec::new();
    let mut first: bool = true;
    let mut i: usize = 0;
    while i < n
        invariant
            i <= n,
            n == s@.len(),
            spec_render(s@, 0, true) == out@ + spec_render(s@, i as int, first),
        decreases n - i,
    {
        if is_space(s[i]) {
            i = i + 1;
        } else {
            if !first {
                out.push(' ');
            }
            let mut e: usize = i;
            while e < n && !is_space(s[e])
                invariant
                    i <= e <= n,
                    spec_word_end(s@, i as int) == spec_word_end(s@, e as int),
                decreases n - e,
            {
                e = e + 1;
            }
            assert(spec_word_end(s@, i as int) == e);
            let ghost base: Seq<char> = out@;
            let mut up = char_to_upper(s[i]);
            let ghost upv: Seq<char> = up@;
            out.append(&mut up);
            let mut k2: usize = i + 1;
            while k2 < e
                invariant
                    i + 1 <= k2 <= e <= n,
                    n == s@.len(),
                    out@ == base + upv + s@.subrange(i + 1 as int, k2 as int),
                decreases e - k2,
            {
                out.push(s[k2]);
                assert(s@.subrange(i + 1 as int, k2 + 1 as int) =~= s@.subrange(
                    i + 1 as int,
                    k2 as int,
                ).push(s@[k2 as int]));
                k2 = k2 + 1;
            }
            assert(s@.subrange(i as int, e as int)[0] == s@[i as int]);
            assert(s@.subrange(i as int, e as int).skip(1) =~= s@.subrange(
                i + 1 as int,
                e as int,
            ));
            assert(out@ =~= base + upv + s@.subrange(i + 1 as int, e as int));
            first = false;
            i = e;
        }
    }
    assert(out@ =~= spec_render(s@, 0, true));
    out
}

impl SongMetadata {
    /// Derives a display title from a file name: `foo_bar-baz.mp3`
    /// becomes `Foo Bar Baz`; an empty name becomes `Unknown`.
    pub fn prettify_filename(name: &str) -> (r: String)
        ensures
            r@ == spec_prettified(name@),
    {
        let cs = str_chars(name);
        let stem = stem_chars(cs);
        let s = blankify_chars(&stem);
        let out = render_words(&s);
        chars_to_string(&out)
    }

    /// An empty record whose title is the prettified file name.
    pub fn default_with_filename(name: &str) -> (r: SongMetadata)
        ensures
            r@ == (MetaModel {
                artist: None,
                title: Some(spec_prettified(name@)),
                album: None,
                genre: None,
                duration_ms: None,
            }),
    {
        let mut m = SongMetadata::default();
        m.title = Some(Self::prettify_filename(name));
        m
    }
}

/// The characters of a string slice, in order.
pub fn str_chars(s: &str) -> (r: Vec<char>)
    ensures
        r@ == s@,
{
    let n = s.unicode_len();
    let mut v: Vec<char> = Vec::new();
    let mut i: usize = 0;
    while i < n
        invariant
            i <= n,
            n == s@.len(),
            v@ == s@.subrange(0, i as int),
        decreases n - i,
    {
        v.push(s.get_char(i));
        assert(s@.subrange(0, i + 1 as int) =~= s@.subrange(0, i as int).push(s@[i as int]));
        i = i + 1;
    }
    assert(s@.subrange(0, s@.len() as int) =~= s@);
    v
}

} // verus!
