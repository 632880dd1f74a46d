//! What is counted in a sequence of bytes: line feeds, words and characters.

use vstd::prelude::*;
use vstd::utf8::{decode_utf8, pop_first_scalar, valid_utf8};

verus! {

/// The line-feed byte.
pub const LINE_FEED: u8 = 0x0A;

/// ASCII whitespace: space, horizontal tab, line feed, form feed and carriage
/// return.
pub open spec fn is_space(b: u8) -> bool {
    b == 0x20 || b == 0x09 || b == 0x0A || b == 0x0C || b == 0x0D
}

/// Tells whether `b` is ASCII whitespace.
pub fn is_ascii_space(b: u8) -> (r: bool)
    ensures
        r == is_space(b),
{
    b == 0x20 || b == 0x09 || b == 0x0A || b == 0x0C || b == 0x0D
}

/// The number of line feeds among the first `n` bytes of `s`.
pub open spec fn line_feeds_in(s: Seq<u8>, n: int) -> nat
    decreases n,
{
    if n <= 0 {
        0
    } else {
        line_feeds_in(s, n - 1) + if s[n - 1] == LINE_FEED {
            1nat
        } else {
            0nat
        }
    }
}

/// The number of line feeds in `s`.
pub open spec fn line_count(s: Seq<u8>) -> nat {
    line_feeds_in(s, s.len() as int)
}

/// A word is closed at position `i` of `s` when `s[i]` is the first byte of a
/// run of whitespace: whitespace itself, and either the first byte of `s` or
/// preceded by a byte that is not whitespace.
pub open spec fn closes_word(s: Seq<u8>, i: int) -> bool {
    is_space(s[i]) && (i == 0 || !is_space(s[i - 1]))
}

/// The number of positions among the first `n` of `s` at which a word is
/// closed.
pub open spec fn words_closed_in(s: Seq<u8>, n: int) -> nat
    decreases n,
{
    if n <= 0 {
        0
    } else {
        words_closed_in(s, n - 1) + if closes_word(s, n - 1) {
            1nat
        } else {
            0nat
        }
    }
}

/// The number of words in `s`, a word being counted where it is closed by
/// whitespace. Whitespace at the very start of `s` closes a word too, and
/// bytes after the last whitespace are not counted as a word.
pub open spec fn word_count(s: Seq<u8>) -> nat {
    words_closed_in(s, s.len() as int)
}

/// The number of characters in `s`: the number of Unicode scalar values that
/// `s` encodes where it is well-formed UTF-8, and the number of bytes where
/// it is not.
pub open spec fn char_count(s: Seq<u8>) -> nat {
    if valid_utf8(s) {
        decode_utf8(s).len()
    } else {
        s.len()
    }
}

/// The line count is the number of bytes that are line feeds: the length of
/// what is left of `s` when every other byte is taken out.
pub proof fn lemma_line_count_is_filter(s: Seq<u8>)
    ensures
        line_count(s) == s.filter(|b: u8| b == LINE_FEED).len(),
    decreases s.len(),
{
    reveal(Seq::filter);
    if s.len() > 0 {
        let front = s.drop_last();
        lemma_line_count_is_filter(front);
        lemma_line_feeds_of_prefix(s, front, front.len() as int);
    }
}

/// The line feeds among the first `n` bytes depend on those bytes alone.
proof fn lemma_line_feeds_of_prefix(s: Seq<u8>, t: Seq<u8>, n: int)
    requires
        0 <= n <= s.len(),
        n <= t.len(),
        forall|i: int| 0 <= i < n ==> s[i] == t[i],
    ensures
        line_feeds_in(s, n) == line_feeds_in(t, n),
    decreases n,
{
    if n > 0 {
        lemma_line_feeds_of_prefix(s, t, n - 1);
    }
}

/// The words closed among the first `n` bytes depend on those bytes alone.
proof fn lemma_words_closed_of_prefix(s: Seq<u8>, t: Seq<u8>, n: int)
    requires
        0 <= n <= s.len(),
        n <= t.len(),
        forall|i: int| 0 <= i < n ==> s[i] == t[i],
    ensures
        words_closed_in(s, n) == words_closed_in(t, n),
    decreases n,
{
    if n > 0 {
        lemma_words_closed_of_prefix(s, t, n - 1);
    }
}

/// Bytes that hold no whitespace add no word: a word that no whitespace
/// closes is not counted.
pub proof fn lemma_unclosed_word_not_counted(s: Seq<u8>, tail: Seq<u8>)
    requires
        forall|i: int| 0 <= i < tail.len() ==> !is_space(#[trigger] tail[i]),
    ensures
        word_count(s + tail) == word_count(s),
    decreases tail.len(),
{
    if tail.len() == 0 {
        assert(s + tail =~= s);
    } else {
        let front = tail.drop_last();
        lemma_unclosed_word_not_counted(s, front);
        assert(!is_space(tail[tail.len() - 1]));
        lemma_words_closed_of_prefix(s + tail, s + front, (s + front).len() as int);
    }
}

/// Whitespace at the very start closes a word, though no byte precedes it.
pub proof fn lemma_leading_whitespace_counted(s: Seq<u8>)
    requires
        s.len() > 0,
        is_space(s[0]),
    ensures
        word_count(s) >= 1,
{
    lemma_words_closed_grow(s, 1, s.len() as int);
}

/// The more bytes are looked at, the more words are found closed.
proof fn lemma_words_closed_grow(s: Seq<u8>, m: int, n: int)
    requires
        m <= n,
    ensures
        words_closed_in(s, m) <= words_closed_in(s, n),
    decreases n - m,
{
    if m < n {
        lemma_words_closed_grow(s, m, n - 1);
    }
}

/// No text has more characters than bytes.
pub proof fn lemma_char_count_bounded(s: Seq<u8>)
    ensures
        char_count(s) <= s.len(),
    decreases s.len(),
{
    if valid_utf8(s) && s.len() > 0 {
        lemma_char_count_bounded(pop_first_scalar(s));
    }
}

/// Nothing is counted in the empty sequence.
pub proof fn lemma_empty_counts()
    ensures
        line_count(Seq::<u8>::empty()) == 0,
        word_count(Seq::<u8>::empty()) == 0,
        char_count(Seq::<u8>::empty()) == 0,
{
}

} // verus!
