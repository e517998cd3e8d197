//! Names and titles: the file-name form of a theme name, and the
//! capitalised form of a variant name.

use vstd::prelude::*;
use vstd::string::*;

verus! {

/// The lowercase form of a string, as `str::to_lowercase` gives it.
pub uninterp spec fn lowercase_of(s: Seq<char>) -> Seq<char>;

/// The uppercase form of one character, as `char::to_uppercase` gives it: one
/// character or more.
pub uninterp spec fn uppercase_of(c: char) -> Seq<char>;

/// `str::to_lowercase`: the lowercase form of `s` by Unicode's rules.
#[verifier::external_body]
pub(crate) fn to_lowercase(s: &str) -> (res: String)
    ensures
        res@ == lowercase_of(s@),
{
    s.to_lowercase()
}

/// `char::to_uppercase`: the uppercase form of `c` by Unicode's rules,
/// collected into a string.
#[verifier::external_body]
pub(crate) fn to_uppercase(c: char) -> (res: String)
    ensures
        res@ == uppercase_of(c),
{
    c.to_uppercase().collect()
}

/// Each space of `s` replaced by a hyphen.
pub open spec fn hyphenated(s: Seq<char>) -> Seq<char> {
    Seq::new(
        s.len(),
        |i: int|
            if s[i] == ' ' {
                '-'
            } else {
                s[i]
            },
    )
}

/// The file-name form of a theme name: in lowercase, with a hyphen for each
/// space.
pub open spec fn slug_spec(name: Seq<char>) -> Seq<char> {
    hyphenated(lowercase_of(name))
}

/// A string without its first character; the empty string stays empty.
pub open spec fn tail_of(s: Seq<char>) -> Seq<char> {
    if s.len() == 0 {
        s
    } else {
        s.subrange(1, s.len() as int)
    }
}

/// A name with its first character in uppercase; the empty name stays
/// empty.
pub open spec fn capitalize_spec(s: Seq<char>) -> Seq<char> {
    if s.len() == 0 {
        s
    } else {
        uppercase_of(s[0]) + tail_of(s)
    }
}

/// Replaces each space of `s` by a hyphen.
pub fn hyphenate(s: &str) -> (res: String)
    ensures
        res@ == hyphenated(s@),
{
    let n: usize = s.unicode_len();
    let mut out = String::new();
    let mut i: usize = 0;
    while i < n
        invariant
            i <= n,
            n == s@.len(),
            out@ == hyphenated(s@).subrange(0, i as int),
        decreases n - i,
    {
        proof {
            reveal_strlit("-");
        }
        if s.get_char(i) == ' ' {
            out.append("-");
        } else {
            out.append(s.substring_char(i, i + 1));
        }
        assert(out@ =~= hyphenated(s@).subrange(0, i as int + 1));
        i = i + 1;
    }
    assert(out@ =~= hyphenated(s@));
    out
}

/// The file-name form of a theme name.
pub fn slug(name: &str) -> (res: String)
    ensures
        res@ == slug_spec(name@),
{
    let lower = to_lowercase(name);
    hyphenate(lower.as_str())
}

/// Puts `head` in the place of the first character of `s`; before the
/// empty string it stands alone.
pub fn replace_first(s: &str, head: String) -> (res: String)
    ensures
        res@ == head@ + tail_of(s@),
{
    let n: usize = s.unicode_len();
    let mut out = head;
    if n > 0 {
        out.append(s.substring_char(1, n));
    } else {
        assert(out@ =~= head@ + tail_of(s@));
    }
    out
}

/// Puts the first character of `s` in uppercase.
pub fn capitalize(s: &str) -> (res: String)
    ensures
        res@ == capitalize_spec(s@),
{
    if s.unicode_len() == 0 {
        let out = String::new();
        assert(out@ =~= s@);
        out
    } else {
        replace_first(s, to_uppercase(s.get_char(0)))
    }
}

/// Whether two strings hold the same characters.
pub fn same_text(a: &str, b: &str) -> (res: bool)
    ensures
        res == (a@ == b@),
{
    let x = a.to_owned();
    let y = b.to_owned();
    x == y
}

} // verus!
