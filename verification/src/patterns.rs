//! Patterns of the store's `LIKE`: what they match, and what the patterns of
//! a meme filter select.

use vstd::prelude::*;
use vstd::string::*;
use crate::text::{is_infix, occurs_at};

verus! {

/// Whether a text matches a pattern in which `%` stands for any run of
/// characters, `_` for any one character, and every other character for
/// itself. The escape character of the store has no meaning of its own here:
/// the patterns that this crate reasons about hold none.
pub open spec fn like(text: Seq<char>, pattern: Seq<char>) -> bool
    decreases pattern.len(), text.len(),
{
    if pattern.len() == 0 {
        text.len() == 0
    } else if pattern[0] == '%' {
        like(text, pattern.drop_first()) || (text.len() > 0 && like(text.drop_first(), pattern))
    } else if text.len() == 0 {
        false
    } else if pattern[0] == '_' || pattern[0] == text[0] {
        like(text.drop_first(), pattern.drop_first())
    } else {
        false
    }
}

/// Whether a character stands for itself in a pattern of the store: it is
/// neither a wildcard nor the escape character.
pub open spec fn literal(c: char) -> bool {
    c != '%' && c != '_' && c != '\\'
}

/// Whether every character of a text stands for itself in a pattern.
pub open spec fn plain(text: Seq<char>) -> bool {
    forall|i: int| 0 <= i < text.len() ==> literal(#[trigger] text[i])
}

/// A pattern that begins with `%` matches a text where its rest matches the
/// text from some position on.
pub proof fn lemma_like_from(text: Seq<char>, pattern: Seq<char>, at: int)
    requires
        pattern.len() > 0,
        pattern[0] == '%',
        0 <= at <= text.len(),
        like(text.skip(at), pattern.drop_first()),
    ensures
        like(text, pattern),
    decreases at,
{
    if at == 0 {
        assert(text.skip(0) =~= text);
    } else {
        assert(text.drop_first().skip(at - 1) =~= text.skip(at));
        lemma_like_from(text.drop_first(), pattern, at - 1);
    }
}

/// A pattern that begins with `%` matches a text only where its rest matches
/// the text from some position on.
pub proof fn lemma_like_somewhere(text: Seq<char>, pattern: Seq<char>) -> (at: int)
    requires
        pattern.len() > 0,
        pattern[0] == '%',
        like(text, pattern),
    ensures
        0 <= at <= text.len(),
        like(text.skip(at), pattern.drop_first()),
    decreases text.len(),
{
    if like(text, pattern.drop_first()) {
        assert(text.skip(0) =~= text);
        0
    } else {
        let at = lemma_like_somewhere(text.drop_first(), pattern);
        assert(text.drop_first().skip(at) =~= text.skip(at + 1));
        at + 1
    }
}

/// The pattern `%` matches every text.
pub proof fn lemma_like_any(text: Seq<char>)
    ensures
        like(text, seq!['%']),
{
    let pattern = seq!['%'];
    assert(pattern.drop_first() =~= Seq::<char>::empty());
    assert(text.skip(text.len() as int) =~= Seq::<char>::empty());
    assert(like(text.skip(text.len() as int), pattern.drop_first()));
    lemma_like_from(text, pattern, text.len() as int);
}

/// A plain pattern matches itself and nothing else.
pub proof fn lemma_like_plain(text: Seq<char>, pattern: Seq<char>)
    requires
        plain(pattern),
    ensures
        like(text, pattern) <==> text == pattern,
    decreases pattern.len(),
{
    if pattern.len() == 0 {
        assert(text.len() == 0 <==> text =~= pattern);
    } else {
        assert(literal(pattern[0]));
        if text.len() > 0 {
            assert(plain(pattern.drop_first())) by {
                assert forall|i: int| 0 <= i < pattern.drop_first().len() implies literal(
                    #[trigger] pattern.drop_first()[i],
                ) by {
                    assert(pattern.drop_first()[i] == pattern[i + 1]);
                }
            }
            lemma_like_plain(text.drop_first(), pattern.drop_first());
            if text[0] == pattern[0] && text.drop_first() == pattern.drop_first() {
                assert(text.len() == pattern.len()) by {
                    assert(text.drop_first().len() == pattern.drop_first().len());
                }
                assert forall|i: int| 0 <= i < text.len() implies text[i] == pattern[i] by {
                    if i > 0 {
                        assert(text.drop_first()[i - 1] == pattern.drop_first()[i - 1]);
                    }
                }
                assert(text =~= pattern);
            }
        }
    }
}

/// A plain text followed by `%` matches the texts that begin with it.
pub proof fn lemma_like_prefix(text: Seq<char>, start: Seq<char>)
    requires
        plain(start),
    ensures
        like(text, start.push('%')) <==> occurs_at(text, start, 0),
    decreases start.len(),
{
    let pattern = start.push('%');
    if start.len() == 0 {
        assert(pattern =~= seq!['%']);
        lemma_like_any(text);
        assert(text.subrange(0, 0) =~= start);
    } else {
        assert(literal(start[0]));
        assert(pattern[0] == start[0]);
        assert(pattern.drop_first() =~= start.drop_first().push('%'));
        if text.len() > 0 {
            assert(plain(start.drop_first())) by {
                assert forall|i: int| 0 <= i < start.drop_first().len() implies literal(
                    #[trigger] start.drop_first()[i],
                ) by {
                    assert(start.drop_first()[i] == start[i + 1]);
                }
            }
            lemma_like_prefix(text.drop_first(), start.drop_first());
            let n = start.len() as int;
            if occurs_at(text, start, 0) {
                assert(text.subrange(0, n)[0] == start[0]);
                assert(text.drop_first().subrange(0, n - 1) =~= start.drop_first()) by {
                    assert forall|i: int| 0 <= i < n - 1 implies text.drop_first().subrange(
                        0,
                        n - 1,
                    )[i] == start.drop_first()[i] by {
                        assert(text.subrange(0, n)[i + 1] == start[i + 1]);
                    }
                }
            }
            if text[0] == start[0] && occurs_at(text.drop_first(), start.drop_first(), 0) {
                assert(text.subrange(0, n) =~= start) by {
                    assert forall|i: int| 0 <= i < n implies text.subrange(0, n)[i]
                        == start[i] by {
                        if i > 0 {
                            assert(text.drop_first().subrange(0, n - 1)[i - 1]
                                == start.drop_first()[i - 1]);
                        }
                    }
                }
            }
        }
    }
}

/// A plain text between two `%` matches the texts that contain it.
pub proof fn lemma_like_infix(text: Seq<char>, part: Seq<char>)
    requires
        plain(part),
    ensures
        like(text, seq!['%'] + part + seq!['%']) <==> is_infix(text, part),
{
    let pattern = seq!['%'] + part + seq!['%'];
    assert(pattern.drop_first() =~= part.push('%'));
    assert(pattern[0] == '%');
    if like(text, pattern) {
        let at = lemma_like_somewhere(text, pattern);
        lemma_like_prefix(text.skip(at), part);
        assert(text.skip(at).subrange(0, part.len() as int) =~= text.subrange(
            at,
            at + part.len(),
        ));
        assert(occurs_at(text, part, at));
    }
    if is_infix(text, part) {
        let at = choose|at: int| occurs_at(text, part, at);
        assert(text.skip(at).subrange(0, part.len() as int) =~= text.subrange(
            at,
            at + part.len(),
        ));
        lemma_like_prefix(text.skip(at), part);
        lemma_like_from(text, pattern, at);
    }
}

/// Whether the text from `from` on matches the pattern from `at` on.
fn like_from(text: &str, from: usize, pattern: &str, at: usize) -> (r: bool)
    requires
        from <= text@.len(),
        at <= pattern@.len(),
    ensures
        r == like(text@.skip(from as int), pattern@.skip(at as int)),
    decreases pattern@.len() - at, text@.len() - from,
{
    let n = text.unicode_len();
    let m = pattern.unicode_len();
    let ghost rest = text@.skip(from as int);
    let ghost tail = pattern@.skip(at as int);
    proof {
        if from < n {
            assert(rest.drop_first() =~= text@.skip(from + 1));
            assert(rest[0] == text@[from as int]);
        }
        if at < m {
            assert(tail.drop_first() =~= pattern@.skip(at + 1));
            assert(tail[0] == pattern@[at as int]);
        }
    }
    if at == m {
        from == n
    } else {
        let p = pattern.get_char(at);
        if p == '%' {
            like_from(text, from, pattern, at + 1) || (from < n && like_from(
                text,
                from + 1,
                pattern,
                at,
            ))
        } else if from == n {
            false
        } else if p == '_' || p == text.get_char(from) {
            like_from(text, from + 1, pattern, at + 1)
        } else {
            false
        }
    }
}

/// Whether a text matches a pattern.
pub fn is_like(text: &str, pattern: &str) -> (r: bool)
    ensures
        r == like(text@, pattern@),
{
    proof {
        assert(text@.skip(0) =~= text@);
        assert(pattern@.skip(0) =~= pattern@);
    }
    like_from(text, 0, pattern, 0)
}

} // verus!
