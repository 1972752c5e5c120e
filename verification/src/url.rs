//! Endpoint bases and call targets as character sequences.

use vstd::prelude::*;
use vstd::string::*;

verus! {

/// The character that separates path segments.
pub const SEPARATOR: char = '/';

/// `text` ends with a path separator.
pub open spec fn ends_with_separator(text: Seq<char>) -> bool {
    text.len() > 0 && text.last() == SEPARATOR
}

/// Every character of `text` is a path separator.
pub open spec fn all_separators(text: Seq<char>) -> bool {
    forall|i: int| 0 <= i < text.len() ==> text[i] == SEPARATOR
}

/// `text` without its run of trailing path separators.
pub open spec fn trim_separators(text: Seq<char>) -> Seq<char>
    decreases text.len(),
{
    if ends_with_separator(text) {
        trim_separators(text.drop_last())
    } else {
        text
    }
}

/// The absolute target of a call: the path appended to the endpoint base.
pub open spec fn join(base: Seq<char>, path: Seq<char>) -> Seq<char> {
    base + path
}

/// Trimming yields the longest prefix that does not end with a separator:
/// the result is a prefix of the input, it does not end with a separator,
/// and everything cut off is separators.
pub proof fn lemma_trim_is_longest_clean_prefix(text: Seq<char>)
    ensures
        trim_separators(text).len() <= text.len(),
        trim_separators(text) == text.subrange(0, trim_separators(text).len() as int),
        !ends_with_separator(trim_separators(text)),
        all_separators(text.subrange(trim_separators(text).len() as int, text.len() as int)),
    decreases text.len(),
{
    if ends_with_separator(text) {
        let shorter = text.drop_last();
        lemma_trim_is_longest_clean_prefix(shorter);
        let kept = trim_separators(text).len() as int;
        assert(shorter.subrange(0, kept) =~= text.subrange(0, kept));
        assert forall|i: int| 0 <= i < text.len() - kept implies text.subrange(
            kept,
            text.len() as int,
        )[i] == SEPARATOR by {
            if i < shorter.len() - kept {
                assert(shorter.subrange(kept, shorter.len() as int)[i] == SEPARATOR);
            }
        }
    } else {
        assert(text.subrange(0, text.len() as int) =~= text);
    }
}

/// A text that does not end with a separator is left as it is.
pub proof fn lemma_trim_keeps_clean(text: Seq<char>)
    requires
        !ends_with_separator(text),
    ensures
        trim_separators(text) == text,
{
}

/// Trimming twice is trimming once.
pub proof fn lemma_trim_idempotent(text: Seq<char>)
    ensures
        trim_separators(trim_separators(text)) == trim_separators(text),
{
    lemma_trim_is_longest_clean_prefix(text);
}

/// Separators appended to a text do not change what trimming yields.
pub proof fn lemma_trim_ignores_trailing_separators(text: Seq<char>, tail: Seq<char>)
    requires
        all_separators(tail),
    ensures
        trim_separators(text + tail) == trim_separators(text),
    decreases tail.len(),
{
    if tail.len() == 0 {
        assert(text + tail =~= text);
    } else {
        let whole = text + tail;
        assert(whole.last() == tail.last());
        assert(whole.drop_last() =~= text + tail.drop_last());
        lemma_trim_ignores_trailing_separators(text, tail.drop_last());
    }
}

/// A base with a trailing separator and the same base without it give the
/// same target for every path, once both are trimmed.
pub proof fn lemma_trailing_separator_is_ignored(base: Seq<char>, path: Seq<char>)
    ensures
        join(trim_separators(base.push(SEPARATOR)), path) == join(trim_separators(base), path),
{
    assert(base.push(SEPARATOR).drop_last() =~= base);
}

/// Copies `base` without its trailing path separators.
pub fn normalize_base(base: &str) -> (out: String)
    ensures
        out@ == trim_separators(base@),
        !ends_with_separator(out@),
{
    let mut end: usize = base.unicode_len();
    assert(base@.subrange(0, end as int) =~= base@);
    while end > 0 && base.get_char(end - 1) == SEPARATOR
        invariant
            end <= base@.len(),
            trim_separators(base@) == trim_separators(base@.subrange(0, end as int)),
        decreases end,
    {
        proof {
            let current = base@.subrange(0, end as int);
            assert(current.drop_last() =~= base@.subrange(0, end - 1));
        }
        end = end - 1;
    }
    proof {
        lemma_trim_is_longest_clean_prefix(base@);
    }
    String::from_str(base.substring_char(0, end))
}

/// The absolute target for `path` under `base`.
pub fn resolve(base: &str, path: &str) -> (target: String)
    ensures
        target@ == join(base@, path@),
{
    String::from_str(base).concat(path)
}

} // verus!
