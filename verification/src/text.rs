//! Text helpers of the directory browser: trimming a typed name and joining
//! it to a directory.

use vstd::prelude::*;
use vstd::string::*;

verus! {

/// Whether a character has the Unicode property `White_Space`.
pub uninterp spec fn is_white_space(c: char) -> bool;

/// The path that a directory and a name below it make.
pub uninterp spec fn joined_path(dir: Seq<char>, name: Seq<char>) -> Seq<char>;

/// `char::is_whitespace` of std: whether the character has the Unicode
/// property `White_Space`. The contract gives that answer a name and claims
/// nothing else of it.
#[verifier::external_body]
fn char_is_whitespace(c: char) -> (b: bool)
    ensures
        b == is_white_space(c),
{
    c.is_whitespace()
}

/// `Path::join` of std, on paths that are text: the path with `name`
/// adjoined to `dir`, as the platform writes it. The contract gives that
/// path a name and claims nothing else of it.
#[verifier::external_body]
pub(crate) fn join_path(dir: &str, name: &str) -> (path: String)
    ensures
        path@ == joined_path(dir@, name@),
{
    std::path::Path::new(dir).join(name).to_string_lossy().into_owned()
}

/// The text without the white space that it begins with.
pub open spec fn trim_start(s: Seq<char>) -> Seq<char>
    decreases s.len(),
{
    if s.len() > 0 && is_white_space(s.first()) {
        trim_start(s.drop_first())
    } else {
        s
    }
}

/// The text without the white space that it ends with.
pub open spec fn trim_end(s: Seq<char>) -> Seq<char>
    decreases s.len(),
{
    if s.len() > 0 && is_white_space(s.last()) {
        trim_end(s.drop_last())
    } else {
        s
    }
}

/// The text without the white space at either end.
pub open spec fn trimmed(s: Seq<char>) -> Seq<char> {
    trim_end(trim_start(s))
}

/// What trimming leaves is a stretch of the text that neither begins nor
/// ends with white space, and all that was cut off is white space.
pub proof fn lemma_trimmed_is_core(s: Seq<char>) -> (bounds: (int, int))
    ensures
        0 <= bounds.0 <= bounds.1 <= s.len(),
        trimmed(s) == s.subrange(bounds.0, bounds.1),
        forall|i: int| 0 <= i < bounds.0 ==> is_white_space(#[trigger] s[i]),
        forall|i: int| bounds.1 <= i < s.len() ==> is_white_space(#[trigger] s[i]),
        trimmed(s).len() > 0 ==> !is_white_space(trimmed(s).first()) && !is_white_space(
            trimmed(s).last(),
        ),
{
    let start = lemma_trim_start_bound(s);
    let rest = s.subrange(start, s.len() as int);
    let keep = lemma_trim_end_bound(rest);
    let end = start + keep;
    assert(rest.subrange(0, keep) =~= s.subrange(start, end));
    assert forall|i: int| end <= i < s.len() implies is_white_space(#[trigger] s[i]) by {
        assert(rest[i - start] == s[i]);
    }
    if trimmed(s).len() > 0 {
        assert(rest.len() > 0);
        assert(trimmed(s).first() == rest.first());
    }
    (start, end)
}

/// Where `trim_start` cuts.
proof fn lemma_trim_start_bound(s: Seq<char>) -> (start: int)
    ensures
        0 <= start <= s.len(),
        trim_start(s) == s.subrange(start, s.len() as int),
        forall|i: int| 0 <= i < start ==> is_white_space(#[trigger] s[i]),
        start < s.len() ==> !is_white_space(s[start]),
    decreases s.len(),
{
    if s.len() > 0 && is_white_space(s.first()) {
        let tail = s.drop_first();
        let inner = lemma_trim_start_bound(tail);
        assert(tail.subrange(inner, tail.len() as int) =~= s.subrange(inner + 1, s.len() as int));
        assert forall|i: int| 0 <= i < inner + 1 implies is_white_space(#[trigger] s[i]) by {
            if i > 0 {
                assert(tail[i - 1] == s[i]);
            }
        }
        if inner < tail.len() {
            assert(tail[inner] == s[inner + 1]);
        }
        inner + 1
    } else {
        assert(s.subrange(0, s.len() as int) =~= s);
        0
    }
}

/// Where `trim_end` cuts.
proof fn lemma_trim_end_bound(s: Seq<char>) -> (end: int)
    ensures
        0 <= end <= s.len(),
        trim_end(s) == s.subrange(0, end),
        forall|i: int| end <= i < s.len() ==> is_white_space(#[trigger] s[i]),
        end > 0 ==> !is_white_space(s[end - 1]),
    decreases s.len(),
{
    if s.len() > 0 && is_white_space(s.last()) {
        let front = s.drop_last();
        let inner = lemma_trim_end_bound(front);
        assert(front.subrange(0, inner) =~= s.subrange(0, inner));
        assert forall|i: int| inner <= i < s.len() implies is_white_space(#[trigger] s[i]) by {
            if i < front.len() {
                assert(front[i] == s[i]);
            }
        }
        if inner > 0 {
            assert(front[inner - 1] == s[inner - 1]);
        }
        inner
    } else {
        assert(s.subrange(0, s.len() as int) =~= s);
        s.len() as int
    }
}

/// The text without the white space at either end.
pub fn trim(text: &str) -> (core: String)
    ensures
        core@ == trimmed(text@),
{
    let n = text.unicode_len();
    let mut start: usize = 0;
    proof {
        assert(text@.subrange(0, n as int) =~= text@);
    }
    while start < n && char_is_whitespace(text.get_char(start))
        invariant
            n == text@.len(),
            start <= n,
            trim_start(text@) == trim_start(text@.subrange(start as int, n as int)),
        decreases n - start,
    {
        proof {
            let rest = text@.subrange(start as int, n as int);
            assert(rest.first() == text@[start as int]);
            assert(rest.drop_first() =~= text@.subrange(start + 1, n as int));
        }
        start += 1;
    }
    proof {
        let rest = text@.subrange(start as int, n as int);
        if start < n {
            assert(rest.first() == text@[start as int]);
        }
        assert(trim_start(text@) == rest);
    }
    let mut end: usize = n;
    while end > start && char_is_whitespace(text.get_char(end - 1))
        invariant
            n == text@.len(),
            start <= end <= n,
            trimmed(text@) == trim_end(text@.subrange(start as int, end as int)),
        decreases end,
    {
        proof {
            let part = text@.subrange(start as int, end as int);
            assert(part.last() == text@[end - 1]);
            assert(part.drop_last() =~= text@.subrange(start as int, end - 1));
        }
        end -= 1;
    }
    proof {
        let part = text@.subrange(start as int, end as int);
        if end > start {
            assert(part.last() == text@[end - 1]);
        }
        assert(trimmed(text@) == part);
    }
    String::from_str(text.substring_char(start, end))
}

} // verus!
