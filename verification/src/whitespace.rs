//! Leading and trailing white space of a field.
//!
//! A field is a sequence of characters. Trimming removes the longest run of
//! white space at its start and the longest run at its end, and nothing else.

use vstd::prelude::*;

verus! {

/// Whether `c` has the Unicode property `White_Space`.
pub open spec fn is_white_space(c: char) -> bool {
    let code = c as u32;
    ||| 0x09 <= code <= 0x0D
    ||| code == 0x20
    ||| code == 0x85
    ||| code == 0xA0
    ||| code == 0x1680
    ||| 0x2000 <= code <= 0x200A
    ||| code == 0x2028
    ||| code == 0x2029
    ||| code == 0x202F
    ||| code == 0x205F
    ||| code == 0x3000
}

/// `s` without its leading white space.
pub open spec fn trim_start(s: Seq<char>) -> Seq<char>
    decreases s.len(),
{
    if s.len() > 0 && is_white_space(s.first()) {
        trim_start(s.drop_first())
    } else {
        s
    }
}

/// `s` without its trailing white space.
pub open spec fn trim_end(s: Seq<char>) -> Seq<char>
    decreases s.len(),
{
    if s.len() > 0 && is_white_space(s.last()) {
        trim_end(s.drop_last())
    } else {
        s
    }
}

/// `s` without its leading and trailing white space.
pub open spec fn trimmed(s: Seq<char>) -> Seq<char> {
    trim_end(trim_start(s))
}

/// A field that neither starts nor ends with white space.
pub open spec fn is_trimmed(s: Seq<char>) -> bool {
    s.len() > 0 ==> !is_white_space(s.first()) && !is_white_space(s.last())
}

/// Every field of the record, trimmed; count and order stay.
pub open spec fn trimmed_fields(fields: Seq<Seq<char>>) -> Seq<Seq<char>> {
    Seq::new(fields.len(), |i: int| trimmed(fields[i]))
}

/// `trim_start` drops a prefix made of white space only, and stops at the
/// first character that is none.
pub proof fn lemma_trim_start_is_suffix(s: Seq<char>) -> (cut: int)
    ensures
        0 <= cut <= s.len(),
        trim_start(s) == s.subrange(cut, s.len() as int),
        forall|i: int| 0 <= i < cut ==> is_white_space(#[trigger] s[i]),
        cut < s.len() ==> !is_white_space(s[cut]),
    decreases s.len(),
{
    if s.len() > 0 && is_white_space(s.first()) {
        let rest = s.drop_first();
        let inner = lemma_trim_start_is_suffix(rest);
        assert(rest.subrange(inner, rest.len() as int) =~= s.subrange(inner + 1, s.len() as int));
        assert forall|i: int| 0 <= i < inner + 1 implies is_white_space(#[trigger] s[i]) by {
            if i > 0 {
                assert(s[i] == rest[i - 1]);
            }
        }
        inner + 1
    } else {
        assert(s.subrange(0, s.len() as int) =~= s);
        0
    }
}

/// `trim_end` drops a suffix made of white space only, and stops at the last
/// character that is none.
pub proof fn lemma_trim_end_is_prefix(s: Seq<char>) -> (cut: int)
    ensures
        0 <= cut <= s.len(),
        trim_end(s) == s.subrange(0, cut),
        forall|i: int| cut <= i < s.len() ==> is_white_space(#[trigger] s[i]),
        cut > 0 ==> !is_white_space(s[cut - 1]),
    decreases s.len(),
{
    if s.len() > 0 && is_white_space(s.last()) {
        let rest = s.drop_last();
        let inner = lemma_trim_end_is_prefix(rest);
        assert(rest.subrange(0, inner) =~= s.subrange(0, inner));
        assert forall|i: int| inner <= i < s.len() implies is_white_space(#[trigger] s[i]) by {
            if i < s.len() - 1 {
                assert(s[i] == rest[i]);
            }
        }
        inner
    } else {
        assert(s.subrange(0, s.len() as int) =~= s);
        s.len() as int
    }
}

/// Trimming keeps one contiguous part of the field: everything outside it is
/// white space, and it neither starts nor ends with white space.
pub proof fn lemma_trimmed_is_middle(s: Seq<char>) -> (bounds: (int, int))
    ensures
        0 <= bounds.0 <= bounds.1 <= s.len(),
        trimmed(s) == s.subrange(bounds.0, bounds.1),
        forall|i: int| 0 <= i < bounds.0 ==> is_white_space(#[trigger] s[i]),
        forall|i: int| bounds.1 <= i < s.len() ==> is_white_space(#[trigger] s[i]),
        is_trimmed(trimmed(s)),
{
    let from = lemma_trim_start_is_suffix(s);
    let tail = s.subrange(from, s.len() as int);
    let kept = lemma_trim_end_is_prefix(tail);
    assert(tail.subrange(0, kept) =~= s.subrange(from, from + kept));
    assert forall|i: int| from + kept <= i < s.len() implies is_white_space(#[trigger] s[i]) by {
        assert(s[i] == tail[i - from]);
    }
    if kept > 0 {
        assert(trimmed(s).first() == s[from]);
        assert(trimmed(s).last() == tail[kept - 1]);
    }
    (from, from + kept)
}

/// A field without white space at either end is left as it is.
pub proof fn lemma_trimmed_fixes_trimmed(s: Seq<char>)
    requires
        is_trimmed(s),
    ensures
        trimmed(s) == s,
{
}

/// Trimming twice is trimming once.
pub proof fn lemma_trimmed_idempotent(s: Seq<char>)
    ensures
        trimmed(trimmed(s)) == trimmed(s),
{
    lemma_trimmed_is_middle(s);
    lemma_trimmed_fixes_trimmed(trimmed(s));
}

/// Trimming every field twice is trimming every field once.
pub proof fn lemma_trimmed_fields_idempotent(fields: Seq<Seq<char>>)
    ensures
        trimmed_fields(trimmed_fields(fields)) == trimmed_fields(fields),
{
    assert forall|i: int| 0 <= i < fields.len() implies trimmed(#[trigger] trimmed_fields(fields)[i])
        == trimmed(fields[i]) by {
        lemma_trimmed_idempotent(fields[i]);
    }
    assert(trimmed_fields(trimmed_fields(fields)) =~= trimmed_fields(fields));
}

} // verus!
