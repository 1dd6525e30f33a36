//! Text primitives: character classes and the scans that the matchers share.
//!
//! Text is modelled as its sequence of characters, `Seq<char>`. Every
//! function here reads a `&str` front to back and hands back a suffix of it.

use vstd::prelude::*;
use vstd::std_specs::iter::IteratorSpec;
use vstd::string::StrSliceExecFns;

verus! {

/// What `char::is_alphabetic` answers for `c`.
pub uninterp spec fn alphabetic(c: char) -> bool;

/// What `char::is_alphanumeric` answers for `c`.
pub uninterp spec fn alphanumeric(c: char) -> bool;

/// What `char::is_whitespace` answers for `c`.
pub uninterp spec fn whitespace(c: char) -> bool;

/// Whether `c` is one of the ten ASCII decimal digits.
pub open spec fn ascii_digit(c: char) -> bool {
    '0' <= c && c <= '9'
}

/// Whitespace that does not end a line.
pub open spec fn horizontal_space(c: char) -> bool {
    whitespace(c) && c != '\n' && c != '\r'
}

/// A character of a word: alphanumeric, a digit, or a hyphen.
pub open spec fn word_char(c: char) -> bool {
    alphanumeric(c) || ascii_digit(c) || c == '-'
}

/// Calls `char::is_alphabetic`, which tests the Unicode `Alphabetic`
/// property; the result is a function of the character alone.
#[verifier::external_body]
pub(crate) fn is_alphabetic(c: char) -> (b: bool)
    ensures
        b == alphabetic(c),
{
    c.is_alphabetic()
}

/// Calls `char::is_alphanumeric`, which tests the Unicode `Alphabetic` and
/// numeric categories; the result is a function of the character alone.
#[verifier::external_body]
pub(crate) fn is_alphanumeric(c: char) -> (b: bool)
    ensures
        b == alphanumeric(c),
{
    c.is_alphanumeric()
}

/// Calls `char::is_whitespace`, which tests the Unicode `White_Space`
/// property; the result is a function of the character alone.
#[verifier::external_body]
pub(crate) fn is_whitespace(c: char) -> (b: bool)
    ensures
        b == whitespace(c),
{
    c.is_whitespace()
}

pub fn is_ascii_digit(c: char) -> (b: bool)
    ensures
        b == ascii_digit(c),
{
    c >= '0' && c <= '9'
}

pub fn is_horizontal_space(c: char) -> (b: bool)
    ensures
        b == horizontal_space(c),
{
    is_whitespace(c) && c != '\n' && c != '\r'
}

pub fn is_word_char(c: char) -> (b: bool)
    ensures
        b == word_char(c),
{
    is_alphanumeric(c) || is_ascii_digit(c) || c == '-'
}

/// `Chars::as_str` views the text that the iterator has not yet yielded as a
/// subslice of the text that the iterator was made from.
pub assume_specification<'a>[ std::str::Chars::<'a>::as_str ](chars: &std::str::Chars<'a>) -> (s:
    &'a str)
    ensures
        s@ == chars.remaining(),
;

/// The length of the longest prefix of `s` that holds no stop character.
pub open spec fn run_len(s: Seq<char>, stop: spec_fn(char) -> bool) -> nat
    decreases s.len(),
{
    if s.len() == 0 || stop(s[0]) {
        0
    } else {
        1 + run_len(s.skip(1), stop)
    }
}

/// A run ends in front of the first stop character, or at the end of the
/// text, and holds no stop character.
pub proof fn lemma_run_len(s: Seq<char>, stop: spec_fn(char) -> bool)
    ensures
        run_len(s, stop) <= s.len(),
        forall|j: int| 0 <= j < run_len(s, stop) ==> !stop(#[trigger] s[j]),
        run_len(s, stop) < s.len() ==> stop(s[run_len(s, stop) as int]),
    decreases s.len(),
{
    if s.len() == 0 || stop(s[0]) {
    } else {
        let t = s.skip(1);
        lemma_run_len(t, stop);
        assert forall|j: int| 0 <= j < run_len(s, stop) implies !stop(#[trigger] s[j]) by {
            if j > 0 {
                assert(s[j] == t[j - 1]);
            }
        }
        if run_len(s, stop) < s.len() {
            assert(s[run_len(s, stop) as int] == t[run_len(t, stop) as int]);
        }
    }
}

/// `n` is where the first stop character of `s` stands, or the length of `s`
/// if it has none, going by what the predicate `stop` may answer.
pub open spec fn stops_at<F: Fn(char) -> bool>(stop: F, s: Seq<char>, n: int) -> bool {
    &&& 0 <= n <= s.len()
    &&& forall|j: int| 0 <= j < n ==> call_ensures(stop, (#[trigger] s[j],), false)
    &&& n < s.len() ==> call_ensures(stop, (s[n],), true)
}

/// A predicate that answers as `p` does has exactly one stopping place.
pub proof fn lemma_stops_at_run_len<F: Fn(char) -> bool>(
    stop: F,
    p: spec_fn(char) -> bool,
    s: Seq<char>,
    n: int,
)
    requires
        forall|c: char, b: bool| call_ensures(stop, (c,), b) ==> b == p(c),
        stops_at(stop, s, n),
    ensures
        n == run_len(s, p),
    decreases s.len(),
{
    if s.len() == 0 {
    } else if n == 0 {
        assert(call_ensures(stop, (s[0],), true));
    } else {
        assert(call_ensures(stop, (s[0],), false));
        let t = s.skip(1);
        assert forall|j: int| 0 <= j < n - 1 implies call_ensures(
            stop,
            (#[trigger] t[j],),
            false,
        ) by {
            assert(t[j] == s[j + 1]);
        }
        assert(n - 1 < t.len() ==> t[n - 1] == s[n]);
        lemma_stops_at_run_len(stop, p, t, n - 1);
    }
}

/// Splits `s` before its first stop character: the number of characters in
/// front of it, and the text from it on.
pub fn split_run<'a, F: Fn(char) -> bool>(s: &'a str, stop: F) -> (r: (usize, &'a str))
    requires
        forall|c: char| call_requires(stop, (c,)),
    ensures
        stops_at(stop, s@, r.0 as int),
        r.1@ == s@.skip(r.0 as int),
{
    broadcast use vstd::string::group_string_axioms;

    let len = s.unicode_len();
    let mut it = s.chars();
    let mut i: usize = 0;
    while i < len
        invariant
            len == s@.len(),
            i <= len,
            it.remaining() == s@.skip(i as int),
            it.obeys_prophetic_iter_laws(),
            forall|c: char| call_requires(stop, (c,)),
            forall|j: int| 0 <= j < i ==> call_ensures(stop, (#[trigger] s@[j],), false),
        decreases len - i,
    {
        let rest = it.as_str();
        match it.next() {
            Some(c) => {
                assert(c == s@[i as int]);
                if stop(c) {
                    return (i, rest);
                }
                assert(it.remaining() == s@.skip(i as int + 1));
                i = i + 1;
            },
            None => {
                return (i, rest);
            },
        }
    }
    (i, it.as_str())
}

/// The number of characters of `s`.
pub fn char_count(s: &str) -> (n: usize)
    ensures
        n == s@.len(),
{
    s.unicode_len()
}

/// What is left of `s` behind the prefix `word`, if `s` starts with it.
pub open spec fn stripped(s: Seq<char>, word: Seq<char>) -> Option<Seq<char>> {
    if word.is_prefix_of(s) {
        Some(s.skip(word.len() as int))
    } else {
        None
    }
}

/// Strips the exact prefix `word` from `s`.
pub fn strip_prefix<'a>(s: &'a str, word: &str) -> (r: Option<&'a str>)
    ensures
        match r {
            Some(t) => stripped(s@, word@) == Some(t@),
            None => stripped(s@, word@).is_none(),
        },
{
    broadcast use vstd::string::group_string_axioms;

    let len = word.unicode_len();
    let mut its = s.chars();
    let mut itw = word.chars();
    let mut i: usize = 0;
    while i < len
        invariant
            len == word@.len(),
            i <= len,
            i <= s@.len(),
            its.remaining() == s@.skip(i as int),
            itw.remaining() == word@.skip(i as int),
            its.obeys_prophetic_iter_laws(),
            itw.obeys_prophetic_iter_laws(),
            forall|j: int| 0 <= j < i ==> #[trigger] s@[j] == word@[j],
        decreases len - i,
    {
        let w = itw.next();
        let c = its.next();
        assert(w == Some(word@[i as int]));
        match c {
            Some(c) => {
                assert(c == s@[i as int]);
                if Some(c) != w {
                    assert(!word@.is_prefix_of(s@)) by {
                        if word@.is_prefix_of(s@) {
                            assert(word@[i as int] == s@.subrange(0, word@.len() as int)[i as int]);
                        }
                    }
                    return None;
                }
                assert(its.remaining() == s@.skip(i as int + 1));
                assert(itw.remaining() == word@.skip(i as int + 1));
                i = i + 1;
            },
            None => {
                assert(s@.len() == i);
                return None;
            },
        }
    }
    assert(word@ =~= s@.subrange(0, word@.len() as int));
    Some(its.as_str())
}

/// Whether `needle` stands in `s` at the character index `k`.
pub open spec fn occurs_at(s: Seq<char>, needle: Seq<char>, k: int) -> bool {
    0 <= k <= s.len() && needle.is_prefix_of(s.skip(k))
}

/// Whether `k` is the first place in `s` where `needle` stands.
pub open spec fn first_occurrence(s: Seq<char>, needle: Seq<char>, k: int) -> bool {
    occurs_at(s, needle, k) && forall|j: int| 0 <= j < k ==> !occurs_at(s, needle, j)
}

/// The first place in `s` where `needle` stands, if there is one.
pub open spec fn found_at(s: Seq<char>, needle: Seq<char>) -> Option<int> {
    if exists|k: int| first_occurrence(s, needle, k) {
        Some(choose|k: int| first_occurrence(s, needle, k))
    } else {
        None
    }
}

/// A first occurrence is the only one.
pub proof fn lemma_found_at(s: Seq<char>, needle: Seq<char>, k: int)
    requires
        first_occurrence(s, needle, k),
    ensures
        found_at(s, needle) == Some(k),
{
    let j = choose|j: int| first_occurrence(s, needle, j);
    assert(first_occurrence(s, needle, j));
    if j < k {
        assert(!occurs_at(s, needle, j));
    } else if k < j {
        assert(!occurs_at(s, needle, k));
    }
}

/// Finds the first occurrence of `needle` in `s`: its character index and
/// the text from there on.
pub fn find_text<'a>(s: &'a str, needle: &str) -> (r: Option<(usize, &'a str)>)
    ensures
        match r {
            Some((k, at)) => found_at(s@, needle@) == Some(k as int) && first_occurrence(
                s@,
                needle@,
                k as int,
            ) && at@ == s@.skip(k as int),
            None => found_at(s@, needle@).is_none(),
        },
{
    broadcast use vstd::string::group_string_axioms;

    let len = s.unicode_len();
    let mut it = s.chars();
    let mut i: usize = 0;
    loop
        invariant
            len == s@.len(),
            i <= len,
            it.remaining() == s@.skip(i as int),
            it.obeys_prophetic_iter_laws(),
            forall|j: int| 0 <= j < i ==> !occurs_at(s@, needle@, j),
        decreases len - i,
    {
        let rest = it.as_str();
        if strip_prefix(rest, needle).is_some() {
            proof {
                lemma_found_at(s@, needle@, i as int);
            }
            return Some((i, rest));
        }
        match it.next() {
            Some(_) => {
                assert(it.remaining() == s@.skip(i as int + 1));
                i = i + 1;
            },
            None => {
                assert(i == len);
                return None;
            },
        }
    }
}

/// Whether two texts hold the same characters.
pub fn text_eq(a: &str, b: &str) -> (eq: bool)
    ensures
        eq == (a@ == b@),
{
    match strip_prefix(a, b) {
        Some(rest) => {
            let eq = rest.is_empty();
            assert(eq ==> a@ =~= b@);
            eq
        },
        None => {
            assert(a@ != b@) by {
                if a@ == b@ {
                    assert(b@ =~= a@.subrange(0, b@.len() as int));
                }
            }
            false
        },
    }
}

/// Whether `c` is one of `chars`.
pub fn contains_char(chars: &[char], c: char) -> (found: bool)
    ensures
        found == chars@.contains(c),
{
    let mut i: usize = 0;
    while i < chars.len()
        invariant
            i <= chars@.len(),
            forall|j: int| 0 <= j < i ==> chars@[j] != c,
        decreases chars@.len() - i,
    {
        if chars[i] == c {
            return true;
        }
        i = i + 1;
    }
    false
}

/// The stop predicate of a run of characters of the class `class`.
pub open spec fn outside_of(class: spec_fn(char) -> bool) -> spec_fn(char) -> bool {
    |c: char| !class(c)
}

/// The class of ASCII decimal digits.
pub open spec fn digit_class() -> spec_fn(char) -> bool {
    |c: char| ascii_digit(c)
}

/// The class of alphabetic characters.
pub open spec fn alphabetic_class() -> spec_fn(char) -> bool {
    |c: char| alphabetic(c)
}

/// The class of alphanumeric characters.
pub open spec fn alphanumeric_class() -> spec_fn(char) -> bool {
    |c: char| alphanumeric(c)
}

/// The class of whitespace characters.
pub open spec fn space_class() -> spec_fn(char) -> bool {
    |c: char| whitespace(c)
}

/// The class of all characters but whitespace.
pub open spec fn non_space_class() -> spec_fn(char) -> bool {
    |c: char| !whitespace(c)
}

/// The class of whitespace that does not end a line.
pub open spec fn horizontal_space_class() -> spec_fn(char) -> bool {
    |c: char| horizontal_space(c)
}

/// The class of characters of a word.
pub open spec fn word_class() -> spec_fn(char) -> bool {
    |c: char| word_char(c)
}

/// The class of the characters listed in `chars`.
pub open spec fn one_of(chars: Seq<char>) -> spec_fn(char) -> bool {
    |c: char| chars.contains(c)
}

/// The class of the characters not listed in `chars`.
pub open spec fn none_of(chars: Seq<char>) -> spec_fn(char) -> bool {
    |c: char| !chars.contains(c)
}

/// The class of all characters but the line feed.
pub open spec fn within_line() -> spec_fn(char) -> bool {
    |c: char| c != '\n'
}

/// `s` without its longest prefix of characters of the class `class`.
pub open spec fn trimmed(s: Seq<char>, class: spec_fn(char) -> bool) -> Seq<char> {
    s.skip(run_len(s, outside_of(class)) as int)
}

/// Drops leading whitespace.
pub fn skip_spaces(s: &str) -> (r: &str)
    ensures
        r@ == trimmed(s@, space_class()),
{
    let stop = |c: char| -> (b: bool)
        ensures
            b == outside_of(space_class())(c),
        { !is_whitespace(c) };
    let (n, rest) = split_run(s, stop);
    proof {
        lemma_stops_at_run_len(stop, outside_of(space_class()), s@, n as int);
    }
    rest
}

/// Drops leading characters that are not whitespace.
pub fn skip_non_spaces(s: &str) -> (r: &str)
    ensures
        r@ == trimmed(s@, non_space_class()),
{
    let stop = |c: char| -> (b: bool)
        ensures
            b == outside_of(non_space_class())(c),
        { is_whitespace(c) };
    let (n, rest) = split_run(s, stop);
    proof {
        lemma_stops_at_run_len(stop, outside_of(non_space_class()), s@, n as int);
    }
    rest
}

/// Drops leading whitespace up to the end of the line.
pub fn skip_horizontal_spaces(s: &str) -> (r: &str)
    ensures
        r@ == trimmed(s@, horizontal_space_class()),
{
    let stop = |c: char| -> (b: bool)
        ensures
            b == outside_of(horizontal_space_class())(c),
        { !is_horizontal_space(c) };
    let (n, rest) = split_run(s, stop);
    proof {
        lemma_stops_at_run_len(stop, outside_of(horizontal_space_class()), s@, n as int);
    }
    rest
}

/// Drops a leading word.
pub fn skip_word(s: &str) -> (r: &str)
    ensures
        r@ == trimmed(s@, word_class()),
{
    let stop = |c: char| -> (b: bool)
        ensures
            b == outside_of(word_class())(c),
        { !is_word_char(c) };
    let (n, rest) = split_run(s, stop);
    proof {
        lemma_stops_at_run_len(stop, outside_of(word_class()), s@, n as int);
    }
    rest
}

/// The text behind the first line feed of `s`, or the empty end of `s` if it
/// holds none.
pub open spec fn after_line(s: Seq<char>) -> Seq<char> {
    let n = run_len(s, outside_of(within_line()));
    if n < s.len() {
        s.skip(n as int + 1)
    } else {
        s.skip(s.len() as int)
    }
}

/// Drops the rest of the line and its line feed.
pub fn skip_line(s: &str) -> (r: &str)
    ensures
        r@ == after_line(s@),
{
    broadcast use vstd::string::group_string_axioms;

    let stop = |c: char| -> (b: bool)
        ensures
            b == outside_of(within_line())(c),
        { c == '\n' };
    let (n, rest) = split_run(s, stop);
    proof {
        lemma_stops_at_run_len(stop, outside_of(within_line()), s@, n as int);
    }
    let mut it = rest.chars();
    let first = it.next();
    let tail = it.as_str();
    assert(first is Some ==> tail@ =~= s@.skip(n + 1));
    assert(first is None ==> tail@ =~= s@.skip(s@.len() as int));
    tail
}

/// What is left of `s` behind the first of `words`, in their order, that `s`
/// starts with.
pub open spec fn stripped_any(s: Seq<char>, words: Seq<&str>) -> Option<Seq<char>>
    decreases words.len(),
{
    if words.len() == 0 {
        None
    } else if words[0]@.is_prefix_of(s) {
        stripped(s, words[0]@)
    } else {
        stripped_any(s, words.skip(1))
    }
}

/// Strips from `s` the first of `words`, in their order, that it starts with.
pub fn strip_any<'a>(s: &'a str, words: &[&str]) -> (r: Option<&'a str>)
    ensures
        match r {
            Some(t) => stripped_any(s@, words@) == Some(t@),
            None => stripped_any(s@, words@).is_none(),
        },
{
    let mut i: usize = 0;
    assert(words@.skip(0) =~= words@);
    while i < words.len()
        invariant
            i <= words@.len(),
            stripped_any(s@, words@) == stripped_any(s@, words@.skip(i as int)),
        decreases words@.len() - i,
    {
        let ghost rest = words@.skip(i as int);
        assert(rest[0] == words@[i as int]);
        assert(rest.skip(1) =~= words@.skip(i as int + 1));
        match strip_prefix(s, words[i]) {
            Some(t) => {
                return Some(t);
            },
            None => {},
        }
        i = i + 1;
    }
    assert(words@.skip(i as int).len() == 0);
    None
}

/// The end of a line: the text itself where it is empty, else what follows
/// a leading line terminator, `\r\n` or `\n`.
pub open spec fn line_end(s: Seq<char>) -> Option<Seq<char>> {
    if s.len() == 0 {
        Some(s)
    } else if stripped(s, "\r\n"@).is_some() {
        stripped(s, "\r\n"@)
    } else {
        stripped(s, "\n"@)
    }
}

/// Accepts the end of the text or a line terminator at its front.
pub fn strip_line_end(s: &str) -> (r: Option<&str>)
    ensures
        match r {
            Some(t) => line_end(s@) == Some(t@),
            None => line_end(s@).is_none(),
        },
{
    if s.is_empty() {
        Some(s)
    } else {
        match strip_prefix(s, "\r\n") {
            Some(t) => Some(t),
            None => strip_prefix(s, "\n"),
        }
    }
}

} // verus!
