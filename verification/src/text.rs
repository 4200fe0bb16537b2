//! Strings as sequences of characters.

use vstd::prelude::*;
use vstd::std_specs::iter::IteratorSpec;

verus! {

/// The characters of `s`, in order.
pub fn chars_of(s: &str) -> (v: Vec<char>)
    ensures
        v@ == s@,
{
    let mut v: Vec<char> = Vec::new();
    let mut it = s.chars();
    loop
        invariant
            it.obeys_prophetic_iter_laws(),
            v@ + it.remaining() == s@,
            it.decrease() is Some,
        decreases it.decrease()->0,
    {
        match it.next() {
            Some(c) => {
                v.push(c);
            },
            None => {
                return v;
            },
        }
    }
}

/// Whether two texts are the same.
pub fn same_text(a: &str, b: &str) -> (r: bool)
    ensures
        r == (a@ == b@),
{
    let x: String = a.to_owned();
    let y: String = b.to_owned();
    x == y
}

/// Whether `word` stands in `chars` at position `at`.
pub fn stands_at(chars: &Vec<char>, at: usize, word: &str) -> (r: bool)
    ensures
        r == (at + word@.len() <= chars.len() && chars@.subrange(at as int, at + word@.len()) == word@),
{
    let w = chars_of(word);
    if at > chars.len() || w.len() > chars.len() - at {
        return false;
    }
    let mut i: usize = 0;
    while i < w.len()
        invariant
            i <= w.len(),
            w@ == word@,
            at + w.len() <= chars.len(),
            chars@.subrange(at as int, at + i) == w@.subrange(0, i as int),
        decreases w.len() - i,
    {
        if chars[at + i] != w[i] {
            proof {
                let piece = chars@.subrange(at as int, at + w.len());
                assert(piece[i as int] != w@[i as int]);
            }
            return false;
        }
        assert(chars@.subrange(at as int, at + i + 1) =~= chars@.subrange(at as int, at + i).push(
            chars@[at + i],
        ));
        assert(w@.subrange(0, i + 1) =~= w@.subrange(0, i as int).push(w@[i as int]));
        i += 1;
    }
    assert(w@.subrange(0, w.len() as int) =~= w@);
    true
}

/// Whether `c` is white space: one of the characters that Unicode marks as
/// `White_Space`.
pub open spec fn is_whitespace(c: char) -> bool {
    ||| '\u{9}' <= c <= '\u{d}'
    ||| c == ' '
    ||| c == '\u{85}'
    ||| c == '\u{a0}'
    ||| c == '\u{1680}'
    ||| '\u{2000}' <= c <= '\u{200a}'
    ||| c == '\u{2028}'
    ||| c == '\u{2029}'
    ||| c == '\u{202f}'
    ||| c == '\u{205f}'
    ||| c == '\u{3000}'
}

/// Whether `c` is white space.
pub fn is_space(c: char) -> (r: bool)
    ensures
        r == is_whitespace(c),
{
    (c >= '\u{9}' && c <= '\u{d}') || c == ' ' || c == '\u{85}' || c == '\u{a0}' || c == '\u{1680}'
        || (c >= '\u{2000}' && c <= '\u{200a}') || c == '\u{2028}' || c == '\u{2029}' || c
        == '\u{202f}' || c == '\u{205f}' || c == '\u{3000}'
}

/// The length of the longest prefix of `s` that holds no white space.
pub open spec fn word_len(s: Seq<char>) -> int
    decreases s.len(),
{
    if s.len() == 0 || is_whitespace(s[0]) {
        0
    } else {
        1 + word_len(s.skip(1))
    }
}

/// The second of the pieces into which white space cuts `s`, each white space
/// character ending one piece: what stands between the first such character
/// and the next, or the end. There is none where `s` holds no white space.
pub open spec fn second_piece(s: Seq<char>) -> Option<Seq<char>> {
    let first = word_len(s);
    if first == s.len() {
        None
    } else {
        let rest = s.skip(first + 1);
        Some(rest.take(word_len(rest)))
    }
}

/// The first piece lies within the text, holds no white space, and ends at the
/// end of the text or before white space.
pub proof fn lemma_word_len(s: Seq<char>)
    ensures
        0 <= word_len(s) <= s.len(),
        forall|k: int| 0 <= k < word_len(s) ==> !is_whitespace(#[trigger] s[k]),
        word_len(s) < s.len() ==> is_whitespace(s[word_len(s)]),
    decreases s.len(),
{
    if s.len() == 0 || is_whitespace(s[0]) {
    } else {
        let rest = s.skip(1);
        lemma_word_len(rest);
        assert forall|k: int| 0 <= k < word_len(s) implies !is_whitespace(#[trigger] s[k]) by {
            if k > 0 {
                assert(s[k] == rest[k - 1]);
            }
        }
        if word_len(s) < s.len() {
            assert(s[word_len(s)] == rest[word_len(rest)]);
        }
    }
}

/// The second piece of a text holds no white space, and the text has one exactly
/// if it holds white space.
pub proof fn law_second_piece(s: Seq<char>)
    ensures
        second_piece(s) is Some <==> exists|k: int| 0 <= k < s.len() && is_whitespace(#[trigger] s[k]),
        second_piece(s) matches Some(piece) ==> forall|k: int|
            0 <= k < piece.len() ==> !is_whitespace(#[trigger] piece[k]),
{
    lemma_word_len(s);
    let first = word_len(s);
    if first < s.len() {
        let rest = s.skip(first + 1);
        lemma_word_len(rest);
        assert(is_whitespace(s[first]));
    }
}

/// A stretch without white space that ends at the end or before white space is
/// the first piece.
pub proof fn lemma_word_len_is(s: Seq<char>, n: int)
    requires
        0 <= n <= s.len(),
        forall|k: int| 0 <= k < n ==> !is_whitespace(#[trigger] s[k]),
        n < s.len() ==> is_whitespace(s[n]),
    ensures
        word_len(s) == n,
    decreases s.len(),
{
    if n > 0 {
        let rest = s.skip(1);
        assert(!is_whitespace(s[0]));
        assert forall|k: int| 0 <= k < n - 1 implies !is_whitespace(#[trigger] rest[k]) by {
            assert(rest[k] == s[k + 1]);
        }
        if n - 1 < rest.len() {
            assert(rest[n - 1] == s[n]);
        }
        lemma_word_len_is(rest, n - 1);
    }
}

/// The position of the first white space in `chars` from `from` on, or the
/// length of `chars` if there is none.
fn word_end(chars: &Vec<char>, from: usize) -> (end: usize)
    requires
        from <= chars.len(),
    ensures
        from <= end <= chars.len(),
        end - from == word_len(chars@.skip(from as int)),
{
    let mut end: usize = from;
    while end < chars.len() && !is_space(chars[end])
        invariant
            from <= end <= chars.len(),
            forall|k: int| from <= k < end ==> !is_whitespace(#[trigger] chars@[k]),
        decreases chars.len() - end,
    {
        end += 1;
    }
    proof {
        let rest = chars@.skip(from as int);
        assert forall|k: int| 0 <= k < end - from implies !is_whitespace(#[trigger] rest[k]) by {
            assert(rest[k] == chars@[from + k]);
        }
        if end - from < rest.len() {
            assert(rest[end - from] == chars@[end as int]);
        }
        lemma_word_len_is(rest, end - from);
    }
    end
}

/// The second of the pieces into which white space cuts `s`.
pub fn second_word(s: &str) -> (r: Option<String>)
    ensures
        crate::views::opt_view(r) == second_piece(s@),
{
    let chars = chars_of(s);
    assert(chars@.skip(0) =~= chars@);
    let first = word_end(&chars, 0);
    if first == chars.len() {
        return None;
    }
    let end = word_end(&chars, first + 1);
    let piece = s.substring_char(first + 1, end);
    proof {
        let rest = s@.skip(first + 1);
        assert(rest.take(word_len(rest)) =~= s@.subrange(first + 1, end as int));
    }
    Some(piece.to_owned())
}

} // verus!
