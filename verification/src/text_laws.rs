//! What the operations on strings give, told by their results.

use crate::text::{
    ascii_lowercase, decimal, digit, is_white_space, occurs_at, occurs_in, trimmed, trimmed_end,
    trimmed_start, without_suffix, without_suffixes,
};
use vstd::prelude::*;

verus! {

// ---------------------------------------------------------------------------
// Numbers
// ---------------------------------------------------------------------------

/// A decimal digit.
pub open spec fn is_digit(c: char) -> bool {
    '0' <= c <= '9'
}

/// The number that a string of digits stands for.
pub open spec fn number(digits: Seq<char>) -> int
    decreases digits.len(),
{
    if digits.len() == 0 {
        0
    } else {
        10 * number(digits.drop_last()) + (digits.last() as int - '0' as int)
    }
}

/// A number in decimal reads back as that number: it is made of digits, and has no zero
/// in front unless it is zero itself.
pub proof fn decimal_reads_back(n: nat)
    ensures
        number(decimal(n)) == n,
        decimal(n).len() > 0,
        forall|i: int| 0 <= i < decimal(n).len() ==> is_digit(#[trigger] decimal(n)[i]),
        decimal(n)[0] == '0' <==> n == 0,
    decreases n,
{
    let text = decimal(n);
    digit_reads_back(n % 10);
    if n < 10 {
        assert(text.drop_last() =~= Seq::<char>::empty());
        assert(number(text.drop_last()) == 0);
    } else {
        decimal_reads_back(n / 10);
        assert(text.drop_last() =~= decimal(n / 10));
        assert(n / 10 > 0);
        assert(text[0] == decimal(n / 10)[0]);
        assert forall|i: int| 0 <= i < text.len() implies is_digit(#[trigger] text[i]) by {
            if i < text.len() - 1 {
                assert(text[i] == decimal(n / 10)[i]);
            }
        }
    }
}

/// A digit is as far behind zero as its number says.
pub proof fn digit_reads_back(d: nat)
    requires
        d < 10,
    ensures
        is_digit(digit(d)),
        digit(d) as int - '0' as int == d,
{
}

// ---------------------------------------------------------------------------
// White space
// ---------------------------------------------------------------------------

/// Nothing but white space from `from` up to `to`.
pub open spec fn is_blank(s: Seq<char>, from: int, to: int) -> bool {
    forall|i: int| from <= i < to ==> is_white_space(#[trigger] s[i])
}

/// Trimming leaves what stands between the white space at both ends: it does not begin
/// or end with white space, and nothing else was taken off.
pub proof fn trimming_takes_off_white_space_only(s: Seq<char>) -> (ends: (int, int))
    ensures
        0 <= ends.0 <= ends.1 <= s.len(),
        trimmed(s) == s.subrange(ends.0, ends.1),
        is_blank(s, 0, ends.0),
        is_blank(s, ends.1, s.len() as int),
        trimmed(s).len() > 0 ==> !is_white_space(trimmed(s)[0]) && !is_white_space(
            trimmed(s).last(),
        ),
        trimmed(s).len() == 0 <==> is_blank(s, 0, s.len() as int),
{
    let from = lemma_start(s);
    let rest = trimmed_start(s);
    let to = lemma_end(rest);
    let inner = trimmed(s);
    assert(inner =~= s.subrange(from, from + to));
    assert forall|i: int| from + to <= i < s.len() implies is_white_space(#[trigger] s[i]) by {
        assert(rest[i - from] == s[i]);
    }
    if inner.len() > 0 {
        assert(inner[0] == rest[0]);
        assert(inner[0] == s[from]);
        assert(!is_blank(s, 0, s.len() as int));
    } else {
        assert(is_blank(s, 0, s.len() as int));
    }
    (from, from + to)
}

proof fn lemma_start(s: Seq<char>) -> (from: int)
    ensures
        0 <= from <= s.len(),
        trimmed_start(s) == s.skip(from),
        is_blank(s, 0, from),
        from < s.len() ==> !is_white_space(s[from]),
    decreases s.len(),
{
    if s.len() > 0 && is_white_space(s[0]) {
        let rest = s.drop_first();
        let from = lemma_start(rest);
        assert(rest.skip(from) =~= s.skip(from + 1));
        assert forall|i: int| 0 <= i < from + 1 implies is_white_space(#[trigger] s[i]) by {
            if i > 0 {
                assert(rest[i - 1] == s[i]);
            }
        }
        if from < rest.len() {
            assert(rest[from] == s[from + 1]);
        }
        from + 1
    } else {
        assert(s.skip(0) =~= s);
        0
    }
}

proof fn lemma_end(s: Seq<char>) -> (to: int)
    ensures
        0 <= to <= s.len(),
        trimmed_end(s) == s.take(to),
        is_blank(s, to, s.len() as int),
        to > 0 ==> !is_white_space(s[to - 1]),
    decreases s.len(),
{
    if s.len() > 0 && is_white_space(s.last()) {
        let rest = s.drop_last();
        let to = lemma_end(rest);
        assert(rest.take(to) =~= s.take(to));
        assert forall|i: int| to <= i < s.len() implies is_white_space(#[trigger] s[i]) by {
            if i < rest.len() {
                assert(rest[i] == s[i]);
            }
        }
        to
    } else {
        assert(s.take(s.len() as int) =~= s);
        s.len() as int
    }
}

// ---------------------------------------------------------------------------
// Parts
// ---------------------------------------------------------------------------

/// Taking a suffix off undoes adding it, and leaves alone what does not end with it.
pub proof fn a_suffix_comes_off_once(rest: Seq<char>, suffix: Seq<char>, s: Seq<char>)
    ensures
        without_suffix(rest + suffix, suffix) == rest,
        without_suffix(s, suffix) == s || without_suffix(s, suffix) + suffix == s,
        without_suffix(s, suffix) != s ==> suffix.is_suffix_of(s),
{
    let all = rest + suffix;
    assert(all.subrange(rest.len() as int, all.len() as int) =~= suffix);
    assert(all.take(all.len() - suffix.len()) =~= rest);
    if suffix.is_suffix_of(s) {
        assert(s.take(s.len() - suffix.len()) + suffix =~= s);
    }
}

/// A text so many times over.
pub open spec fn repeated(part: Seq<char>, times: nat) -> Seq<char>
    decreases times,
{
    if times == 0 {
        Seq::empty()
    } else {
        repeated(part, (times - 1) as nat) + part
    }
}

/// Taking every suffix off leaves a text that does not end with it, and takes off
/// nothing but repetitions of it.
pub proof fn every_suffix_comes_off(s: Seq<char>, suffix: Seq<char>) -> (times: nat)
    requires
        suffix.len() > 0,
    ensures
        s == without_suffixes(s, suffix) + repeated(suffix, times),
        !suffix.is_suffix_of(without_suffixes(s, suffix)),
    decreases s.len(),
{
    if suffix.is_suffix_of(s) {
        let less = s.take(s.len() - suffix.len());
        let times = every_suffix_comes_off(less, suffix);
        assert(s =~= less + suffix);
        assert(s =~= without_suffixes(s, suffix) + repeated(suffix, times + 1));
        times + 1
    } else {
        assert(s =~= s + repeated(suffix, 0));
        0
    }
}

/// A part occurs in a text exactly where the text is made of something, the part, and
/// something.
pub proof fn a_part_occurs_between(before: Seq<char>, part: Seq<char>, behind: Seq<char>)
    ensures
        occurs_in(before + part + behind, part),
{
    let all = before + part + behind;
    assert(all.subrange(before.len() as int, (before.len() + part.len()) as int) =~= part);
    assert(occurs_at(all, part, before.len() as int));
}

/// What stands around a part that occurs in a text.
pub proof fn what_is_around_a_part(s: Seq<char>, part: Seq<char>) -> (around: (Seq<char>, Seq<char>))
    requires
        occurs_in(s, part),
    ensures
        s == around.0 + part + around.1,
{
    let at = choose|at: int| occurs_at(s, part, at);
    let before = s.take(at);
    let behind = s.skip(at + part.len());
    assert(s =~= before + part + behind) by {
        assert forall|i: int| 0 <= i < s.len() implies s[i] == (before + part + behind)[i] by {
            if at <= i < at + part.len() {
                assert(s.subrange(at, at + part.len())[i - at] == s[i]);
            }
        }
    }
    (before, behind)
}

/// Lower case changes capital letters only, each to its small letter.
pub proof fn lower_case_changes_capitals_only(s: Seq<char>, i: int)
    requires
        0 <= i < s.len(),
    ensures
        ascii_lowercase(s).len() == s.len(),
        !('A' <= ascii_lowercase(s)[i] <= 'Z'),
        ascii_lowercase(s)[i] != s[i] <==> 'A' <= s[i] <= 'Z',
        'A' <= s[i] <= 'Z' ==> ascii_lowercase(s)[i] as int - 'a' as int == s[i] as int
            - 'A' as int,
{
}

} // verus!
