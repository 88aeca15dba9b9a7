//! Strings as sequences of characters: the string operations that the audio
//! layer needs, each with an exact statement of what it computes.

use vstd::prelude::*;
use vstd::utf8::*;

verus! {

// ---------------------------------------------------------------------------
// Models
// ---------------------------------------------------------------------------

/// The Unicode `White_Space` property, as `PropList.txt` lists it.
pub open spec fn is_white_space(c: char) -> bool {
    ||| '\u{9}' <= c <= '\u{d}'
    ||| c == ' '
    ||| c == '\u{85}'
    ||| c == '\u{a0}'
    ||| c == '\u{1680}'
    ||| '\u{2000}' <= c <= '\u{200a}'
    ||| c == '\u{2028}'
    ||| c == '\u{2029}'
    ||| c == '\u{202f}'
    ||| c == '\u{205f}'
    ||| c == '\u{3000}'
}

/// `s` without its leading white space.
pub open spec fn trimmed_start(s: Seq<char>) -> Seq<char>
    decreases s.len(),
{
    if s.len() > 0 && is_white_space(s[0]) {
        trimmed_start(s.drop_first())
    } else {
        s
    }
}

/// `s` without its trailing white space.
pub open spec fn trimmed_end(s: Seq<char>) -> Seq<char>
    decreases s.len(),
{
    if s.len() > 0 && is_white_space(s.last()) {
        trimmed_end(s.drop_last())
    } else {
        s
    }
}

/// `s` without leading and trailing white space.
pub open spec fn trimmed(s: Seq<char>) -> Seq<char> {
    trimmed_end(trimmed_start(s))
}

/// `s` with one occurrence of `suffix` taken off its end, if it ends with it.
pub open spec fn without_suffix(s: Seq<char>, suffix: Seq<char>) -> Seq<char> {
    if suffix.is_suffix_of(s) {
        s.take(s.len() - suffix.len())
    } else {
        s
    }
}

/// `s` with every occurrence of `suffix` taken off its end.
pub open spec fn without_suffixes(s: Seq<char>, suffix: Seq<char>) -> Seq<char>
    decreases s.len(),
{
    if suffix.len() > 0 && suffix.is_suffix_of(s) {
        without_suffixes(s.take(s.len() - suffix.len()), suffix)
    } else {
        s
    }
}

/// `part` occurs in `s`, starting at position `at`.
pub open spec fn occurs_at(s: Seq<char>, part: Seq<char>, at: int) -> bool {
    0 <= at && at + part.len() <= s.len() && s.subrange(at, at + part.len()) == part
}

/// `part` occurs somewhere in `s`.
pub open spec fn occurs_in(s: Seq<char>, part: Seq<char>) -> bool {
    exists|at: int| occurs_at(s, part, at)
}

/// The lower-case form of an ASCII character; any other character is kept.
pub open spec fn ascii_lower(c: char) -> char {
    if 'A' <= c <= 'Z' {
        (c as u32 + 32) as char
    } else {
        c
    }
}

/// Every ASCII letter of `s` in lower case.
pub open spec fn ascii_lowercase(s: Seq<char>) -> Seq<char> {
    s.map_values(|c: char| ascii_lower(c))
}

/// What `str::to_lowercase` returns for a string.
pub uninterp spec fn lowercase(s: Seq<char>) -> Seq<char>;

/// The decimal digit of a number below ten.
pub open spec fn digit(d: nat) -> char {
    (('0' as u32) + d) as char
}

/// A number in decimal, without leading zeros.
pub open spec fn decimal(n: nat) -> Seq<char>
    decreases n,
{
    if n < 10 {
        seq![digit(n)]
    } else {
        decimal(n / 10).push(digit(n % 10))
    }
}

/// The characters of an optional string.
pub open spec fn optional(s: Option<String>) -> Option<Seq<char>> {
    match s {
        Some(text) => Some(text@),
        None => None,
    }
}

/// The characters of each string of a list.
pub open spec fn texts(list: Seq<String>) -> Seq<Seq<char>> {
    list.map_values(|s: String| s@)
}

// ---------------------------------------------------------------------------
// Trusted: standard library functions
// ---------------------------------------------------------------------------

/// `char::is_whitespace`: true exactly of the characters that have the Unicode
/// `White_Space` property.
pub assume_specification[ char::is_whitespace ](c: char) -> (white: bool)
    ensures
        white == is_white_space(c),
;

/// `str::to_lowercase`. The result is a function of the string alone, named
/// `lowercase`. Characters are mapped one by one (only the letter sigma looks at
/// its neighbours), so an ASCII string becomes its ASCII lower case, and wherever
/// the rest of a string is ASCII, the result ends with that rest in ASCII lower
/// case; what other letters become is left unsaid.
#[verifier::external_body]
pub(crate) fn to_lowercase(s: &str) -> (lower: String)
    ensures
        lower@ == lowercase(s@),
        is_ascii_chars(s@) ==> lower@ == ascii_lowercase(s@),
        forall|from: int|
            0 <= from <= s@.len() && is_ascii_chars(#[trigger] s@.skip(from)) ==> ascii_lowercase(
                s@.skip(from),
            ).is_suffix_of(lower@),
{
    s.to_lowercase()
}

// ---------------------------------------------------------------------------
// Operations
// ---------------------------------------------------------------------------

/// The characters of a string, in order.
pub(crate) fn characters(s: &str) -> (chars: Vec<char>)
    ensures
        chars@ == s@,
{
    let mut chars: Vec<char> = Vec::new();
    for c in iter: s.chars()
        invariant
            iter.seq() == s@,
            chars@ == iter.seq().take(iter.index()),
    {
        proof {
            assert(iter.seq().take(iter.index() + 1) == iter.seq().take(iter.index()).push(c));
        }
        chars.push(c);
    }
    proof {
        assert(s@.take(s@.len() as int) == s@);
    }
    chars
}

/// Whether two strings hold the same characters.
pub(crate) fn same_text(a: &str, b: &str) -> (same: bool)
    ensures
        same == (a@ == b@),
{
    a.to_owned() == b.to_owned()
}

/// The first string followed by the second.
pub(crate) fn joined(a: &str, b: &str) -> (both: String)
    ensures
        both@ == a@ + b@,
{
    let mut both = a.to_owned();
    both.append(b);
    both
}

/// `prefix`, then `middle`, then `suffix`.
pub(crate) fn enclosed(prefix: &str, middle: &str, suffix: &str) -> (all: String)
    ensures
        all@ == prefix@ + middle@ + suffix@,
{
    let mut all = joined(prefix, middle);
    all.append(suffix);
    all
}

/// Whether the string ends with `suffix`.
pub(crate) fn ends_with(s: &str, suffix: &str) -> (ends: bool)
    ensures
        ends == suffix@.is_suffix_of(s@),
{
    let length: usize = s.unicode_len();
    let tail: usize = suffix.unicode_len();
    if tail > length {
        return false;
    }
    same_text(s.substring_char(length - tail, length), suffix)
}

/// The string with one `suffix` taken off its end, or the string itself.
pub(crate) fn strip_suffix_or_keep<'a>(s: &'a str, suffix: &str) -> (rest: &'a str)
    ensures
        rest@ == without_suffix(s@, suffix@),
{
    if ends_with(s, suffix) {
        let kept: usize = s.unicode_len() - suffix.unicode_len();
        proof {
            assert(s@.subrange(0, kept as int) == s@.take(kept as int));
        }
        s.substring_char(0, kept)
    } else {
        s
    }
}

/// The string with every `suffix` taken off its end.
pub(crate) fn strip_suffixes<'a>(s: &'a str, suffix: &str) -> (rest: &'a str)
    requires
        suffix@.len() > 0,
    ensures
        rest@ == without_suffixes(s@, suffix@),
{
    let mut rest: &'a str = s;
    while ends_with(rest, suffix)
        invariant
            suffix@.len() > 0,
            without_suffixes(rest@, suffix@) == without_suffixes(s@, suffix@),
        decreases rest@.len(),
    {
        rest = strip_suffix_or_keep(rest, suffix);
    }
    rest
}

/// The string without leading and trailing white space.
pub(crate) fn trim(s: &str) -> (inner: &str)
    ensures
        inner@ == trimmed(s@),
{
    let chars = characters(s);
    let mut first: usize = 0;
    proof {
        assert(s@.skip(0) == s@);
    }
    while first < chars.len() && chars[first].is_whitespace()
        invariant
            chars@ == s@,
            first <= chars.len(),
            trimmed_start(s@) == trimmed_start(s@.skip(first as int)),
        decreases chars.len() - first,
    {
        proof {
            assert(s@.skip(first as int).drop_first() == s@.skip(first + 1));
        }
        first = first + 1;
    }
    let ghost rest = s@.skip(first as int);
    let mut last: usize = chars.len();
    proof {
        assert(trimmed_start(s@) == rest);
        assert(s@.subrange(first as int, last as int) == rest);
    }
    while first < last && chars[last - 1].is_whitespace()
        invariant
            chars@ == s@,
            first <= last <= chars.len(),
            trimmed_end(rest) == trimmed_end(s@.subrange(first as int, last as int)),
        decreases last,
    {
        proof {
            assert(s@.subrange(first as int, last as int).drop_last() == s@.subrange(
                first as int,
                last - 1,
            ));
        }
        last = last - 1;
    }
    s.substring_char(first, last)
}

/// Whether `part` occurs somewhere in the string.
pub(crate) fn contains(s: &str, part: &str) -> (found: bool)
    ensures
        found == occurs_in(s@, part@),
{
    let length: usize = s.unicode_len();
    let width: usize = part.unicode_len();
    if width > length {
        return false;
    }
    let mut at: usize = 0;
    while at <= length - width
        invariant
            length == s@.len(),
            width == part@.len(),
            width <= length,
            at <= length - width + 1,
            forall|k: int| 0 <= k < at ==> !occurs_at(s@, part@, k),
        decreases length - at,
    {
        if same_text(s.substring_char(at, at + width), part) {
            proof {
                assert(occurs_at(s@, part@, at as int));
            }
            return true;
        }
        if at == length - width {
            return false;
        }
        at = at + 1;
    }
    false
}

/// A number in decimal.
pub(crate) fn decimal_text(n: u64) -> (text: String)
    ensures
        text@ == decimal(n as nat),
    decreases n,
{
    if n < 10 {
        digit_text(n).to_owned()
    } else {
        let mut text = decimal_text(n / 10);
        text.append(digit_text(n % 10));
        text
    }
}

fn digit_text(d: u64) -> (text: &'static str)
    requires
        d < 10,
    ensures
        text@ == seq![digit(d as nat)],
{
    proof {
        reveal_strlit("0");
        reveal_strlit("1");
        reveal_strlit("2");
        reveal_strlit("3");
        reveal_strlit("4");
        reveal_strlit("5");
        reveal_strlit("6");
        reveal_strlit("7");
        reveal_strlit("8");
        reveal_strlit("9");
    }
    match d {
        0 => "0",
        1 => "1",
        2 => "2",
        3 => "3",
        4 => "4",
        5 => "5",
        6 => "6",
        7 => "7",
        8 => "8",
        _ => "9",
    }
}

/// The position of the first string of a list that equals `key`.
pub(crate) fn position_of(keys: &Vec<String>, key: &str) -> (position: Option<usize>)
    ensures
        match position {
            Some(at) => texts(keys@).index_of_first(key@) == Some(at as int) && at < keys.len(),
            None => texts(keys@).index_of_first(key@) is None,
        },
{
    let ghost all = texts(keys@);
    proof {
        all.index_of_first_ensures(key@);
    }
    let mut at: usize = 0;
    while at < keys.len()
        invariant
            all == texts(keys@),
            at <= keys.len(),
            forall|k: int| 0 <= k < at ==> all[k] != key@,
            match all.index_of_first(key@) {
                Some(i) => 0 <= i < all.len() && all[i] == key@ && (forall|j: int|
                    0 <= j < i ==> all[j] != key@),
                None => !all.contains(key@),
            },
        decreases keys.len() - at,
    {
        proof {
            assert(all[at as int] == keys@[at as int]@);
        }
        if same_text(keys[at].as_str(), key) {
            return Some(at);
        }
        at = at + 1;
    }
    None
}

} // verus!
