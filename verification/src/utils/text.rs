//! Questions about the characters of a string.

use vstd::prelude::*;

verus! {

/// Whether `c` is one of the decimal digits `0` to `9`.
pub open spec fn is_decimal_digit(c: char) -> bool {
    '0' <= c <= '9'
}

/// Number of decimal digits among `s`.
pub open spec fn digit_count(s: Seq<char>) -> nat {
    s.filter(|c: char| is_decimal_digit(c)).len()
}

/// Whether `c` counts as white space for `char::is_whitespace`, that is,
/// whether Unicode gives it the property `White_Space`.
pub uninterp spec fn char_is_whitespace(c: char) -> bool;

/// Whether every character of `s` is white space; true of the empty string.
pub open spec fn is_blank(s: Seq<char>) -> bool {
    forall|i: int| 0 <= i < s.len() ==> char_is_whitespace(#[trigger] s[i])
}

/// Whether `needle` occurs in `hay` as a run of consecutive characters.
pub open spec fn has_substring(hay: Seq<char>, needle: Seq<char>) -> bool {
    exists|i: int|
        0 <= i && i + needle.len() <= hay.len() && #[trigger] hay.subrange(
            i,
            i + needle.len() as int,
        ) == needle
}

/// `s` in lower case, as `str::to_lowercase` gives it.
pub uninterp spec fn lowercase(s: Seq<char>) -> Seq<char>;

/// `char::is_whitespace`: whether `c` has the Unicode property
/// `White_Space`. The answer is given a name and nothing else is claimed.
#[verifier::external_body]
pub(crate) fn is_whitespace(c: char) -> (r: bool)
    ensures
        r == char_is_whitespace(c),
{
    c.is_whitespace()
}

/// `str::to_lowercase`: the lower-case form of `s`. The result is given a
/// name and nothing else is claimed.
#[verifier::external_body]
pub(crate) fn to_lowercase(s: &str) -> (r: String)
    ensures
        r@ == lowercase(s@),
{
    s.to_lowercase()
}

/// `str::contains` with a string for a pattern: whether `needle` matches a
/// sub-slice of `hay`.
#[verifier::external_body]
pub(crate) fn contains_text(hay: &str, needle: &str) -> (r: bool)
    ensures
        r == has_substring(hay@, needle@),
{
    hay.contains(needle)
}

/// Whether `s` holds nothing but white space, so that trimming it leaves
/// nothing.
pub fn blank(s: &str) -> (r: bool)
    ensures
        r == is_blank(s@),
{
    let mut all = true;
    for c in it: s.chars()
        invariant
            it.seq() == s@,
            all == is_blank(s@.take(it.index() as int)),
    {
        proof {
            let k = it.index() as int;
            let shorter = s@.take(k);
            let longer = s@.take(k + 1);
            assert(longer[k] == c);
            assert forall|i: int| 0 <= i < k implies shorter[i] == longer[i] by {}
            if is_blank(longer) {
                assert forall|i: int| 0 <= i < shorter.len() implies char_is_whitespace(
                    #[trigger] shorter[i],
                ) by {
                    assert(shorter[i] == longer[i]);
                }
            }
            if is_blank(shorter) && char_is_whitespace(c) {
                assert forall|i: int| 0 <= i < longer.len() implies char_is_whitespace(
                    #[trigger] longer[i],
                ) by {
                    if i < k {
                        assert(shorter[i] == longer[i]);
                    }
                }
            }
        }
        if !is_whitespace(c) {
            all = false;
        }
    }
    proof {
        assert(s@.take(s@.len() as int) =~= s@);
    }
    all
}

/// Whether the character `c` occurs in `s`.
pub fn contains_char(s: &str, c: char) -> (r: bool)
    ensures
        r == s@.contains(c),
{
    let mut found = false;
    for x in it: s.chars()
        invariant
            it.seq() == s@,
            found == s@.take(it.index() as int).contains(c),
    {
        proof {
            let k = it.index() as int;
            let shorter = s@.take(k);
            let longer = s@.take(k + 1);
            assert(longer =~= shorter.push(x));
            if shorter.contains(c) {
                let i = choose|i: int| 0 <= i < shorter.len() && shorter[i] == c;
                assert(longer[i] == c);
            }
            if x == c {
                assert(longer[k] == c);
            }
        }
        if x == c {
            found = true;
        }
    }
    proof {
        assert(s@.take(s@.len() as int) =~= s@);
    }
    found
}

/// Number of decimal digits in `s`.
pub fn count_digits(s: &str) -> (n: usize)
    ensures
        n == digit_count(s@),
{
    let mut n: usize = 0;
    let chars = s.unicode_len();
    for c in it: s.chars()
        invariant
            it.seq() == s@,
            chars == s@.len(),
            n == digit_count(s@.take(it.index() as int)),
            n <= it.index(),
    {
        proof {
            let k = it.index() as int;
            assert(k < s@.len());
            let pred = |c: char| is_decimal_digit(c);
            assert(s@.take(k + 1) =~= s@.take(k).push(c));
            s@.take(k).lemma_filter_len_push(pred, c);
        }
        if '0' <= c && c <= '9' {
            n = n + 1;
        }
    }
    proof {
        assert(s@.take(s@.len() as int) =~= s@);
    }
    n
}

} // verus!
