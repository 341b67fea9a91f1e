//! Symbol canonicalization: the single normalization rule is the uppercase
//! transform over ASCII letters.

use vstd::prelude::*;
use crate::text::push_char;

verus! {

/// The uppercase image of one character: ASCII lowercase letters map to
/// their uppercase counterparts, every other character is unchanged.
pub open spec fn upper_char(c: char) -> char {
    match c {
        'a' => 'A',
        'b' => 'B',
        'c' => 'C',
        'd' => 'D',
        'e' => 'E',
        'f' => 'F',
        'g' => 'G',
        'h' => 'H',
        'i' => 'I',
        'j' => 'J',
        'k' => 'K',
        'l' => 'L',
        'm' => 'M',
        'n' => 'N',
        'o' => 'O',
        'p' => 'P',
        'q' => 'Q',
        'r' => 'R',
        's' => 'S',
        't' => 'T',
        'u' => 'U',
        'v' => 'V',
        'w' => 'W',
        'x' => 'X',
        'y' => 'Y',
        'z' => 'Z',
        _ => c,
    }
}

/// The canonical (uppercase) form of a character sequence.
pub open spec fn canon_seq(s: Seq<char>) -> Seq<char> {
    Seq::new(s.len(), |i: int| upper_char(s[i]))
}

fn upper_char_of(c: char) -> (r: char)
    ensures
        r == upper_char(c),
{
    match c {
        'a' => 'A',
        'b' => 'B',
        'c' => 'C',
        'd' => 'D',
        'e' => 'E',
        'f' => 'F',
        'g' => 'G',
        'h' => 'H',
        'i' => 'I',
        'j' => 'J',
        'k' => 'K',
        'l' => 'L',
        'm' => 'M',
        'n' => 'N',
        'o' => 'O',
        'p' => 'P',
        'q' => 'Q',
        'r' => 'R',
        's' => 'S',
        't' => 'T',
        'u' => 'U',
        'v' => 'V',
        'w' => 'W',
        'x' => 'X',
        'y' => 'Y',
        'z' => 'Z',
        _ => c,
    }
}

/// Canonicalize a symbol to the uppercase format used throughout the
/// pipeline.
pub fn canonical_symbol(input: &str) -> (r: String)
    ensures
        r@ == canon_seq(input@),
{
    let n: usize = input.unicode_len();
    let mut out = String::new();
    let mut i: usize = 0;
    while i < n
        invariant
            n == input@.len(),
            i <= n,
            out@ =~= canon_seq(input@).take(i as int),
        decreases n - i,
    {
        let c = input.get_char(i);
        push_char(&mut out, upper_char_of(c));
        proof {
            assert(out@ =~= canon_seq(input@).take(i + 1 as int));
        }
        i = i + 1;
    }
    proof {
        assert(out@ =~= canon_seq(input@));
    }
    out
}

/// The lowercase image of one character: ASCII uppercase letters map to
/// their lowercase counterparts, every other character is unchanged.
pub open spec fn lower_char(c: char) -> char {
    match c {
        'A' => 'a',
        'B' => 'b',
        'C' => 'c',
        'D' => 'd',
        'E' => 'e',
        'F' => 'f',
        'G' => 'g',
        'H' => 'h',
        'I' => 'i',
        'J' => 'j',
        'K' => 'k',
        'L' => 'l',
        'M' => 'm',
        'N' => 'n',
        'O' => 'o',
        'P' => 'p',
        'Q' => 'q',
        'R' => 'r',
        'S' => 's',
        'T' => 't',
        'U' => 'u',
        'V' => 'v',
        'W' => 'w',
        'X' => 'x',
        'Y' => 'y',
        'Z' => 'z',
        _ => c,
    }
}

/// The lowercase form of a character sequence, used for wire topics.
pub open spec fn lower_seq(s: Seq<char>) -> Seq<char> {
    Seq::new(s.len(), |i: int| lower_char(s[i]))
}

fn lower_char_of(c: char) -> (r: char)
    ensures
        r == lower_char(c),
{
    match c {
        'A' => 'a',
        'B' => 'b',
        'C' => 'c',
        'D' => 'd',
        'E' => 'e',
        'F' => 'f',
        'G' => 'g',
        'H' => 'h',
        'I' => 'i',
        'J' => 'j',
        'K' => 'k',
        'L' => 'l',
        'M' => 'm',
        'N' => 'n',
        'O' => 'o',
        'P' => 'p',
        'Q' => 'q',
        'R' => 'r',
        'S' => 's',
        'T' => 't',
        'U' => 'u',
        'V' => 'v',
        'W' => 'w',
        'X' => 'x',
        'Y' => 'y',
        'Z' => 'z',
        _ => c,
    }
}

/// Lowercase a symbol for use inside a wire topic.
pub fn lower_symbol(input: &str) -> (r: String)
    ensures
        r@ == lower_seq(input@),
{
    let n: usize = input.unicode_len();
    let mut out = String::new();
    let mut i: usize = 0;
    while i < n
        invariant
            n == input@.len(),
            i <= n,
            out@ =~= lower_seq(input@).take(i as int),
        decreases n - i,
    {
        let c = input.get_char(i);
        push_char(&mut out, lower_char_of(c));
        proof {
            assert(out@ =~= lower_seq(input@).take(i + 1 as int));
        }
        i = i + 1;
    }
    proof {
        assert(out@ =~= lower_seq(input@));
    }
    out
}

/// Uppercase is not affected by applying it twice: every character produced
/// by `upper_char` is a fixed point of `upper_char`.
pub proof fn lemma_upper_char_idempotent(c: char)
    ensures
        upper_char(upper_char(c)) == upper_char(c),
{
}

/// Canonicalization is idempotent: canonicalizing an already canonical
/// sequence leaves it unchanged.
pub proof fn lemma_canonical_idempotent(s: Seq<char>)
    ensures
        canon_seq(canon_seq(s)) == canon_seq(s),
{
    assert(canon_seq(canon_seq(s)) =~= canon_seq(s)) by {
        assert forall|i: int| 0 <= i < s.len() implies canon_seq(canon_seq(s))[i] == canon_seq(
            s,
        )[i] by {
            lemma_upper_char_idempotent(s[i]);
        }
    }
}

/// Uppercasing does not distinguish letter case: lowering a character
/// first changes nothing about its uppercase image.
pub proof fn lemma_upper_char_case_insensitive(c: char)
    ensures
        upper_char(lower_char(c)) == upper_char(c),
{
}

/// Canonicalization is case-insensitive: two spellings of a symbol that
/// differ only in letter case have the same canonical form.
pub proof fn lemma_canonical_case_insensitive(s: Seq<char>)
    ensures
        canon_seq(lower_seq(s)) == canon_seq(s),
{
    assert(canon_seq(lower_seq(s)) =~= canon_seq(s)) by {
        assert forall|i: int| 0 <= i < s.len() implies canon_seq(lower_seq(s))[i] == canon_seq(
            s,
        )[i] by {
            lemma_upper_char_case_insensitive(s[i]);
        }
    }
}

} // verus!
