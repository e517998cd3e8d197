//! Structural operations on hex colour strings such as `#RRGGBB` and
//! `#RRGGBBAA`. The digits are never parsed: colours are cut and joined by
//! position only.

use vstd::prelude::*;
use vstd::string::*;

verus! {

/// What is left of `s` once every leading `#` is removed.
pub open spec fn trim_hashes(s: Seq<char>) -> Seq<char>
    decreases s.len(),
{
    if s.len() > 0 && s[0] == '#' {
        trim_hashes(s.subrange(1, s.len() as int))
    } else {
        s
    }
}

/// The colour part of a hex string: the first six characters after the
/// leading `#`, or all of them where there are fewer than six.
pub open spec fn color_digits(hex: Seq<char>) -> Seq<char> {
    let h = trim_hashes(hex);
    if h.len() >= 6 {
        h.subrange(0, 6)
    } else {
        h
    }
}

/// The upper-case hex digit that stands for `n`, for `n` below 16.
pub open spec fn hex_digit(n: int) -> char
    recommends
        0 <= n < 16,
{
    "0123456789ABCDEF"@[n]
}

/// The two upper-case hex digits of an alpha channel byte.
pub open spec fn alpha_digits(alpha: u8) -> Seq<char> {
    seq![hex_digit(alpha as int / 16), hex_digit(alpha as int % 16)]
}

/// A colour without its alpha channel: `#` and the colour part.
pub open spec fn strip_alpha_spec(hex: Seq<char>) -> Seq<char> {
    seq!['#'] + color_digits(hex)
}

/// A colour with the given alpha channel: `#`, the colour part, and the two
/// digits of the alpha byte. An alpha channel already present is replaced.
pub open spec fn apply_alpha_spec(hex: Seq<char>, alpha: u8) -> Seq<char> {
    seq!['#'] + color_digits(hex) + alpha_digits(alpha)
}

/// The colour part of `hex` as a slice of it.
fn digits_of<'a>(hex: &'a str) -> (res: &'a str)
    ensures
        res@ == color_digits(hex@),
{
    let n: usize = hex.unicode_len();
    let mut i: usize = 0;
    assert(hex@.subrange(0, n as int) =~= hex@);
    while i < n && hex.get_char(i) == '#'
        invariant
            i <= n,
            n == hex@.len(),
            trim_hashes(hex@) == trim_hashes(hex@.subrange(i as int, n as int)),
        decreases n - i,
    {
        proof {
            let cur = hex@.subrange(i as int, n as int);
            assert(cur.subrange(1, cur.len() as int) =~= hex@.subrange(i as int + 1, n as int));
        }
        i = i + 1;
    }
    let end: usize = if n - i >= 6 {
        i + 6
    } else {
        n
    };
    proof {
        let cur = hex@.subrange(i as int, n as int);
        assert(trim_hashes(cur) == cur);
        assert(hex@.subrange(i as int, end as int) =~= color_digits(hex@));
    }
    hex.substring_char(i, end)
}

/// The hex digit of `n` as a string of one character.
fn hex_digit_str(n: u8) -> (res: &'static str)
    requires
        n < 16,
    ensures
        res@ == seq![hex_digit(n as int)],
{
    proof {
        reveal_strlit("0123456789ABCDEF");
    }
    let i: usize = n as usize;
    let res = "0123456789ABCDEF".substring_char(i, i + 1);
    assert(res@ =~= seq![hex_digit(n as int)]);
    res
}

/// Drops the alpha channel of a hex colour. Input shorter than six digits
/// passes through, with one leading `#`.
pub fn strip_alpha(hex: &str) -> (res: String)
    ensures
        res@ == strip_alpha_spec(hex@),
{
    proof {
        reveal_strlit("#");
    }
    let mut out = String::from_str("#");
    out.append(digits_of(hex));
    assert(out@ =~= strip_alpha_spec(hex@));
    out
}

/// Sets the alpha channel of a hex colour to `alpha`, where 0 is fully
/// transparent and 255 fully opaque.
pub fn apply_alpha(hex: &str, alpha: u8) -> (res: String)
    ensures
        res@ == apply_alpha_spec(hex@, alpha),
{
    proof {
        reveal_strlit("#");
    }
    let mut out = String::from_str("#");
    out.append(digits_of(hex));
    out.append(hex_digit_str(alpha / 16));
    out.append(hex_digit_str(alpha % 16));
    assert(out@ =~= apply_alpha_spec(hex@, alpha));
    out
}

/// What is left once the leading `#` are removed does not begin with `#`.
pub proof fn lemma_trimmed_has_no_leading_hash(s: Seq<char>)
    ensures
        trim_hashes(s).len() > 0 ==> trim_hashes(s)[0] != '#',
        trim_hashes(trim_hashes(s)) == trim_hashes(s),
    decreases s.len(),
{
    if s.len() > 0 && s[0] == '#' {
        lemma_trimmed_has_no_leading_hash(s.subrange(1, s.len() as int));
    }
}

/// Stripping undoes the alpha channel: where a colour has its six digits,
/// the colour with any alpha channel strips to what the colour itself
/// strips to.
pub proof fn lemma_strip_drops_applied_alpha(hex: Seq<char>, alpha: u8)
    requires
        color_digits(hex).len() == 6,
    ensures
        strip_alpha_spec(apply_alpha_spec(hex, alpha)) == strip_alpha_spec(hex),
{
    let digits = color_digits(hex);
    let with_alpha = apply_alpha_spec(hex, alpha);
    let rest = digits + alpha_digits(alpha);
    lemma_trimmed_has_no_leading_hash(hex);
    assert(digits[0] == trim_hashes(hex)[0]);
    assert(with_alpha.subrange(1, with_alpha.len() as int) =~= rest);
    assert(with_alpha[0] == '#');
    assert(rest[0] == digits[0]);
    assert(trim_hashes(rest) == rest);
    assert(trim_hashes(with_alpha) == rest);
    assert(rest.subrange(0, 6) =~= digits);
}

/// Setting the alpha channel twice is setting it to the second value, where
/// a colour has its six digits.
pub proof fn lemma_alpha_is_replaced(hex: Seq<char>, first: u8, second: u8)
    requires
        color_digits(hex).len() == 6,
    ensures
        apply_alpha_spec(apply_alpha_spec(hex, first), second) == apply_alpha_spec(hex, second),
{
    lemma_strip_drops_applied_alpha(hex, first);
    let once = apply_alpha_spec(hex, first);
    assert(strip_alpha_spec(once).subrange(1, 7) =~= color_digits(once));
    assert(strip_alpha_spec(hex).subrange(1, 7) =~= color_digits(hex));
}

} // verus!
