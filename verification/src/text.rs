//! Character-sequence vocabulary shared by the rest of the crate, and the few
//! primitive string operations it borrows from the standard library.

use vstd::prelude::*;

verus! {

/// `needle` occurs in `hay` as a contiguous run that starts at index `at`.
pub open spec fn occurs_at(hay: Seq<char>, needle: Seq<char>, at: int) -> bool {
    &&& 0 <= at
    &&& at + needle.len() <= hay.len()
    &&& hay.subrange(at, at + needle.len()) == needle
}

/// `needle` occurs somewhere in `hay` as a contiguous run.
pub open spec fn contains(hay: Seq<char>, needle: Seq<char>) -> bool {
    exists|at: int| occurs_at(hay, needle, at)
}

/// The characters that carry the Unicode `White_Space` property.
pub open spec fn is_white_space(c: char) -> bool {
    let n = c as u32;
    ||| 0x0009 <= n <= 0x000D
    ||| n == 0x0020
    ||| n == 0x0085
    ||| n == 0x00A0
    ||| n == 0x1680
    ||| 0x2000 <= n <= 0x200A
    ||| n == 0x2028
    ||| n == 0x2029
    ||| n == 0x202F
    ||| n == 0x205F
    ||| n == 0x3000
}

/// `s` without its leading white space.
pub open spec fn trim_start(s: Seq<char>) -> Seq<char>
    decreases s.len(),
{
    if s.len() > 0 && is_white_space(s.first()) {
        trim_start(s.drop_first())
    } else {
        s
    }
}

/// `s` without its trailing white space.
pub open spec fn trim_end(s: Seq<char>) -> Seq<char>
    decreases s.len(),
{
    if s.len() > 0 && is_white_space(s.last()) {
        trim_end(s.drop_last())
    } else {
        s
    }
}

/// `s` without its leading and trailing white space.
pub open spec fn trimmed(s: Seq<char>) -> Seq<char> {
    trim_end(trim_start(s))
}

/// `s` with every occurrence of `from` replaced by `to`, scanning from the
/// left; an occurrence that overlaps an earlier match is not a match.
pub open spec fn replace_all(s: Seq<char>, from: Seq<char>, to: Seq<char>) -> Seq<char>
    recommends
        from.len() > 0,
    decreases s.len(),
{
    if from.len() == 0 || s.len() < from.len() {
        s
    } else if s.subrange(0, from.len() as int) == from {
        to + replace_all(s.subrange(from.len() as int, s.len() as int), from, to)
    } else {
        seq![s.first()] + replace_all(s.drop_first(), from, to)
    }
}

/// The characters of an optional string slice, if there is one.
pub open spec fn chars_of(text: Option<&str>) -> Option<Seq<char>> {
    match text {
        Some(t) => Some(t@),
        None => None,
    }
}

/// The characters of an optional owned string, if there is one.
pub open spec fn string_chars(text: Option<String>) -> Option<Seq<char>> {
    match text {
        Some(t) => Some(t@),
        None => None,
    }
}

/// Compares two string slices with `str`'s own `==`, which holds exactly when
/// both spell the same sequence of characters.
#[verifier::external_body]
pub(crate) fn same_text(a: &str, b: &str) -> (same: bool)
    ensures
        same == (a@ == b@),
{
    a == b
}

/// Calls `str::trim`, which returns the slice of its argument that is left once
/// leading and trailing characters with the `White_Space` property are removed.
#[verifier::external_body]
pub(crate) fn trim<'a>(s: &'a str) -> (inner: &'a str)
    ensures
        inner@ == trimmed(s@),
{
    s.trim()
}

/// Calls `str::replace`, which copies its receiver and puts `to` in place of
/// each match of the non-empty pattern `from`, the matches being found from
/// left to right and disjoint.
#[verifier::external_body]
pub(crate) fn replace(s: &str, from: &str, to: &str) -> (replaced: String)
    requires
        from@.len() > 0,
    ensures
        replaced@ == replace_all(s@, from@, to@),
{
    s.replace(from, to)
}

/// Borrows the string inside an option.
pub fn as_text(text: &Option<String>) -> (borrowed: Option<&str>)
    ensures
        chars_of(borrowed) == string_chars(*text),
{
    match text {
        Some(t) => Some(t.as_str()),
        None => None,
    }
}

/// A run in the middle of a concatenation occurs in the whole.
pub proof fn lemma_contains_middle(before: Seq<char>, middle: Seq<char>, after: Seq<char>)
    ensures
        contains(before + middle + after, middle),
{
    let whole = before + middle + after;
    let at = before.len() as int;
    assert(whole.subrange(at, at + middle.len()) =~= middle);
    assert(occurs_at(whole, middle, at));
}

/// A run at the end of a text occurs in it.
pub proof fn lemma_contains_suffix(before: Seq<char>, needle: Seq<char>)
    ensures
        contains(before + needle, needle),
{
    assert(before + needle =~= before + needle + Seq::<char>::empty());
    lemma_contains_middle(before, needle, Seq::empty());
}

/// Whatever occurs in a text still occurs in it once more is appended.
pub proof fn lemma_append_keeps_occurrences(hay: Seq<char>, more: Seq<char>)
    ensures
        forall|needle: Seq<char>| #[trigger]
            contains(hay, needle) ==> contains(hay + more, needle),
{
    assert forall|needle: Seq<char>| #[trigger] contains(hay, needle) implies contains(
        hay + more,
        needle,
    ) by {
        let at = choose|at: int| occurs_at(hay, needle, at);
        assert((hay + more).subrange(at, at + needle.len()) =~= hay.subrange(
            at,
            at + needle.len(),
        ));
        assert(occurs_at(hay + more, needle, at));
    }
}

/// Trimming at the start leaves the end of the text, from its first character
/// that is not white space on.
pub proof fn lemma_trim_start_leaves_a_suffix(s: Seq<char>)
    ensures
        trim_start(s).len() <= s.len(),
        trim_start(s) == s.subrange(s.len() - trim_start(s).len(), s.len() as int),
        forall|i: int| 0 <= i < s.len() - trim_start(s).len() ==> is_white_space(#[trigger] s[i]),
        trim_start(s).len() > 0 ==> !is_white_space(trim_start(s).first()),
    decreases s.len(),
{
    if s.len() > 0 && is_white_space(s.first()) {
        let rest = s.drop_first();
        lemma_trim_start_leaves_a_suffix(rest);
        let cut = s.len() - trim_start(s).len();
        assert(trim_start(s) =~= s.subrange(cut, s.len() as int));
        assert forall|i: int| 0 <= i < cut implies is_white_space(#[trigger] s[i]) by {
            if i > 0 {
                assert(s[i] == rest[i - 1]);
            }
        }
    } else {
        assert(s =~= s.subrange(0, s.len() as int));
    }
}

/// Trimming at the end leaves the start of the text, up to its last character
/// that is not white space.
pub proof fn lemma_trim_end_leaves_a_prefix(s: Seq<char>)
    ensures
        trim_end(s).len() <= s.len(),
        trim_end(s) == s.subrange(0, trim_end(s).len() as int),
        forall|i: int| trim_end(s).len() <= i < s.len() ==> is_white_space(#[trigger] s[i]),
        trim_end(s).len() > 0 ==> !is_white_space(trim_end(s).last()),
    decreases s.len(),
{
    if s.len() > 0 && is_white_space(s.last()) {
        let rest = s.drop_last();
        lemma_trim_end_leaves_a_prefix(rest);
        assert(trim_end(s) =~= s.subrange(0, trim_end(s).len() as int));
        assert forall|i: int| trim_end(s).len() <= i < s.len() implies is_white_space(
            #[trigger] s[i],
        ) by {
            if i < s.len() - 1 {
                assert(s[i] == rest[i]);
            }
        }
    } else {
        assert(s =~= s.subrange(0, s.len() as int));
    }
}

/// Trimming takes white space away and nothing else: what is left is a run of
/// the text, all that was before and after it is white space, and it neither
/// begins nor ends with white space.
pub proof fn lemma_trimmed_is_bare(s: Seq<char>)
    ensures
        occurs_at(s, trimmed(s), s.len() - trim_start(s).len()),
        forall|i: int|
            0 <= i < s.len() - trim_start(s).len() ==> is_white_space(#[trigger] s[i]),
        forall|i: int|
            s.len() - trim_start(s).len() + trimmed(s).len() <= i < s.len() ==> is_white_space(
                #[trigger] s[i],
            ),
        trimmed(s).len() > 0 ==> !is_white_space(trimmed(s).first()) && !is_white_space(
            trimmed(s).last(),
        ),
{
    let inner = trim_start(s);
    let cut = s.len() - inner.len();
    lemma_trim_start_leaves_a_suffix(s);
    lemma_trim_end_leaves_a_prefix(inner);
    assert(s.subrange(cut, cut + trimmed(s).len()) =~= trimmed(s));
    assert forall|i: int| cut + trimmed(s).len() <= i < s.len() implies is_white_space(
        #[trigger] s[i],
    ) by {
        assert(s[i] == inner[i - cut]);
    }
    if trimmed(s).len() > 0 {
        assert(trimmed(s).first() == inner.first());
    }
}

/// Where the first character of `s` is not the first character of `from`, no
/// match starts there, and replacement carries that character over unchanged.
pub proof fn lemma_replace_keeps_other_head(s: Seq<char>, from: Seq<char>, to: Seq<char>)
    requires
        from.len() > 0,
        s.len() > 0,
        s.first() != from.first(),
    ensures
        replace_all(s, from, to) == seq![s.first()] + replace_all(s.drop_first(), from, to),
{
    if s.len() < from.len() {
        assert(s.drop_first().len() < from.len());
        assert(s =~= seq![s.first()] + s.drop_first());
    } else {
        assert(s.subrange(0, from.len() as int).first() == s.first());
    }
}

} // verus!
