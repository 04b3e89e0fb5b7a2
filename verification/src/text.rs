//! Character classes and text measures shared by the validated value types.

use unicode_segmentation::UnicodeSegmentation;
use vstd::prelude::*;

verus! {

/// The code points that carry the Unicode property `White_Space`.
pub open spec fn is_white_space(c: char) -> bool {
    let n = c as u32;
    ||| 0x09 <= n <= 0x0D
    ||| n == 0x20
    ||| n == 0x85
    ||| n == 0xA0
    ||| n == 0x1680
    ||| 0x2000 <= n <= 0x200A
    ||| n == 0x2028
    ||| n == 0x2029
    ||| n == 0x202F
    ||| n == 0x205F
    ||| n == 0x3000
}

/// Every character of `s` satisfies `p`.
pub open spec fn every(s: Seq<char>, p: spec_fn(char) -> bool) -> bool {
    forall|i: int| 0 <= i < s.len() ==> #[trigger] p(s[i])
}

/// `every` distributes over appending one character.
pub proof fn lemma_every_push(s: Seq<char>, c: char, p: spec_fn(char) -> bool)
    ensures
        every(s.push(c), p) == (every(s, p) && p(c)),
{
    let t = s.push(c);
    if every(s, p) && p(c) {
        assert forall|i: int| 0 <= i < t.len() implies #[trigger] p(t[i]) by {
            if i < s.len() {
                assert(t[i] == s[i]);
            }
        }
    }
    if every(t, p) {
        assert(p(t[s.len() as int]));
        assert forall|i: int| 0 <= i < s.len() implies #[trigger] p(s[i]) by {
            assert(t[i] == s[i]);
        }
    }
}

/// A text is blank when it is empty or holds white space only.
pub open spec fn is_blank(s: Seq<char>) -> bool {
    every(s, |c: char| is_white_space(c))
}

/// `String::push` appends one character.
pub assume_specification[ String::push ](s: &mut String, ch: char)
    ensures
        final(s)@ == old(s)@.push(ch),
;

/// The number of extended grapheme clusters of a text, as Unicode Standard
/// Annex #29 delimits them.
pub uninterp spec fn grapheme_count(s: Seq<char>) -> nat;

/// The characters U+0020 to U+007E.
pub open spec fn is_printable_ascii(c: char) -> bool {
    0x20 <= c as u32 <= 0x7E
}

/// Counts the extended grapheme clusters of `s` with
/// `UnicodeSegmentation::graphemes`. The count is a function of the text
/// alone. Only the empty text has no cluster, and in a text of printable
/// ASCII characters every character is a cluster of its own.
#[verifier::external_body]
pub(crate) fn grapheme_len(s: &str) -> (n: usize)
    ensures
        n == grapheme_count(s@),
        (n == 0) == (s@.len() == 0),
        every(s@, |c: char| is_printable_ascii(c)) ==> n == s@.len(),
{
    s.graphemes(true).count()
}

/// Whether `c` carries the Unicode property `White_Space`.
pub fn check_white_space(c: char) -> (b: bool)
    ensures
        b == is_white_space(c),
{
    let n: u32 = c as u32;
    (0x09 <= n && n <= 0x0D) || n == 0x20 || n == 0x85 || n == 0xA0 || n == 0x1680 || (0x2000 <= n
        && n <= 0x200A) || n == 0x2028 || n == 0x2029 || n == 0x202F || n == 0x205F || n == 0x3000
}

/// Whether `s` is empty or holds white space only: whether nothing is left
/// of it once the white space at its ends is trimmed away.
pub fn blank(s: &str) -> (b: bool)
    ensures
        b == is_blank(s@),
{
    broadcast use vstd::string::axiom_spec_iter;

    let mut b = true;
    for c in it: s.chars()
        invariant
            it.seq() == s@,
            b == is_blank(s@.take(it.index())),
    {
        proof {
            assert(s@.take(it.index() + 1) == s@.take(it.index()).push(c));
            lemma_every_push(s@.take(it.index()), c, |c: char| is_white_space(c));
        }
        if !check_white_space(c) {
            b = false;
        }
    }
    assert(s@.take(s@.len() as int) == s@);
    b
}

/// The ASCII letters and digits.
pub open spec fn is_alphanumeric(c: char) -> bool {
    ||| '0' <= c <= '9'
    ||| 'a' <= c <= 'z'
    ||| 'A' <= c <= 'Z'
}

/// Whether `ch` is an ASCII letter or digit.
pub fn check_alphanumeric(ch: char) -> (ok: bool)
    ensures
        ok == is_alphanumeric(ch),
{
    if ('0' <= ch && ch <= '9') || ('a' <= ch && ch <= 'z') || ('A' <= ch && ch <= 'Z') {
        return true;
    }
    false
}

/// Every character of `s` is an ASCII letter or digit.
pub open spec fn all_alphanumeric(s: Seq<char>) -> bool {
    every(s, |c: char| is_alphanumeric(c))
}

/// Whether `s` holds ASCII letters and digits only.
pub fn only_alphanumeric(s: &str) -> (ok: bool)
    ensures
        ok == all_alphanumeric(s@),
{
    broadcast use vstd::string::axiom_spec_iter;

    let mut ok = true;
    for c in it: s.chars()
        invariant
            it.seq() == s@,
            ok == all_alphanumeric(s@.take(it.index())),
    {
        proof {
            assert(s@.take(it.index() + 1) == s@.take(it.index()).push(c));
            lemma_every_push(s@.take(it.index()), c, |c: char| is_alphanumeric(c));
        }
        if !check_alphanumeric(c) {
            ok = false;
        }
    }
    assert(s@.take(s@.len() as int) == s@);
    ok
}

} // verus!
