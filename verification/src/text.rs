//! Text as a sequence of characters: white space, words and lines.
//!
//! Positions are counted in characters, not in bytes.

use vstd::prelude::*;
use vstd::string::*;
use vstd::utf8::*;

verus! {

/// The text that `String::from_utf8_lossy` makes of `bytes`: the characters
/// that `bytes` encode in UTF-8, with U+FFFD in place of each stretch of
/// bytes that encodes none.
pub uninterp spec fn lossy_utf8(bytes: Seq<u8>) -> Seq<char>;

/// The characters with the Unicode property `White_Space`.
pub open spec fn is_whitespace(c: char) -> bool {
    ||| '\u{9}' <= c <= '\u{d}'
    ||| c == ' '
    ||| c == '\u{85}'
    ||| c == '\u{a0}'
    ||| c == '\u{1680}'
    ||| '\u{2000}' <= c <= '\u{200a}'
    ||| c == '\u{2028}'
    ||| c == '\u{2029}'
    ||| c == '\u{202f}'
    ||| c == '\u{205f}'
    ||| c == '\u{3000}'
}

/// Position of the first character at or after `from` that is not white
/// space, or the length of `s` where only white space follows.
pub open spec fn word_start(s: Seq<char>, from: int) -> int
    decreases s.len() - from,
{
    if 0 <= from < s.len() && is_whitespace(s[from]) {
        word_start(s, from + 1)
    } else {
        from
    }
}

/// Position of the first white space character at or after `from`, or the
/// length of `s` where none follows.
pub open spec fn word_end(s: Seq<char>, from: int) -> int
    decreases s.len() - from,
{
    if 0 <= from < s.len() && !is_whitespace(s[from]) {
        word_end(s, from + 1)
    } else {
        from
    }
}

/// The words of `s` that begin at or after `from`, in order. A word is a
/// longest run of characters none of which is white space.
pub open spec fn words_from(s: Seq<char>, from: int) -> Seq<Seq<char>>
    decreases s.len() - from,
    via words_from_decreases
{
    let start = word_start(s, from);
    let end = word_end(s, start);
    if 0 <= from && start < s.len() {
        seq![s.subrange(start, end)] + words_from(s, end)
    } else {
        Seq::empty()
    }
}

#[via_fn]
proof fn words_from_decreases(s: Seq<char>, from: int) {
    let start = word_start(s, from);
    if 0 <= from && start < s.len() {
        if from <= s.len() {
            lemma_word_start(s, from);
            lemma_word_end(s, start);
        }
    }
}

/// The words of `s`: what is left of it when it is cut at white space and the
/// empty pieces are dropped.
pub open spec fn words(s: Seq<char>) -> Seq<Seq<char>> {
    words_from(s, 0)
}

/// Position of the first line feed at or after `from`, or the length of `s`
/// where none follows.
pub open spec fn line_end(s: Seq<char>, from: int) -> int
    decreases s.len() - from,
{
    if 0 <= from < s.len() && s[from] != '\n' {
        line_end(s, from + 1)
    } else {
        from
    }
}

/// The first line of `s`, without its terminator. A line ends before a line
/// feed, or before a carriage return that a line feed follows directly, or
/// with the text.
pub open spec fn first_line(s: Seq<char>) -> Seq<char> {
    let end = line_end(s, 0);
    if 0 < end < s.len() && s[end - 1] == '\r' {
        s.take(end - 1)
    } else {
        s.take(end)
    }
}

/// `word_start` lies between `from` and the end, passes over white space
/// only, and stops on a character that is not white space.
pub proof fn lemma_word_start(s: Seq<char>, from: int)
    requires
        0 <= from <= s.len(),
    ensures
        from <= word_start(s, from) <= s.len(),
        forall|i: int| from <= i < word_start(s, from) ==> is_whitespace(#[trigger] s[i]),
        word_start(s, from) < s.len() ==> !is_whitespace(s[word_start(s, from)]),
    decreases s.len() - from,
{
    if from < s.len() && is_whitespace(s[from]) {
        lemma_word_start(s, from + 1);
    }
}

/// `word_end` lies between `from` and the end, passes over no white space,
/// and stops on a white space character. It moves where a word begins.
pub proof fn lemma_word_end(s: Seq<char>, from: int)
    requires
        0 <= from <= s.len(),
    ensures
        from <= word_end(s, from) <= s.len(),
        forall|i: int| from <= i < word_end(s, from) ==> !is_whitespace(#[trigger] s[i]),
        word_end(s, from) < s.len() ==> is_whitespace(s[word_end(s, from)]),
        from < s.len() && !is_whitespace(s[from]) ==> from < word_end(s, from),
    decreases s.len() - from,
{
    if from < s.len() && !is_whitespace(s[from]) {
        lemma_word_end(s, from + 1);
    }
}

/// Every word holds at least one character, and no white space.
pub proof fn lemma_words_from(s: Seq<char>, from: int)
    requires
        0 <= from <= s.len(),
    ensures
        forall|k: int, i: int|
            0 <= k < words_from(s, from).len() && 0 <= i < words_from(s, from)[k].len()
                ==> !is_whitespace(#[trigger] words_from(s, from)[k][i]),
        forall|k: int|
            0 <= k < words_from(s, from).len() ==> (#[trigger] words_from(s, from)[k]).len() > 0,
    decreases s.len() - from,
{
    let start = word_start(s, from);
    let end = word_end(s, start);
    lemma_word_start(s, from);
    if start < s.len() {
        lemma_word_end(s, start);
        lemma_words_from(s, end);
        let first = s.subrange(start, end);
        let rest = words_from(s, end);
        assert(words_from(s, from) =~= seq![first] + rest);
        assert forall|k: int, i: int|
            0 <= k < words_from(s, from).len() && 0 <= i < words_from(s, from)[k].len()
            implies !is_whitespace(#[trigger] words_from(s, from)[k][i]) by {
            if k == 0 {
                assert(first[i] == s[start + i]);
            } else {
                assert(words_from(s, from)[k] == rest[k - 1]);
            }
        }
        assert forall|k: int| 0 <= k < words_from(s, from).len() implies (#[trigger] words_from(
            s,
            from,
        )[k]).len() > 0 by {
            if k > 0 {
                assert(words_from(s, from)[k] == rest[k - 1]);
            }
        }
    }
}

/// The encoding of two texts, one after the other, is the encoding of the
/// first followed by that of the second.
pub proof fn lemma_encode_utf8_concat(a: Seq<char>, b: Seq<char>)
    ensures
        encode_utf8(a + b) == encode_utf8(a) + encode_utf8(b),
    decreases a.len(),
{
    if a.len() == 0 {
        assert(a + b =~= b);
    } else {
        assert((a + b).drop_first() =~= a.drop_first() + b);
        lemma_encode_utf8_concat(a.drop_first(), b);
    }
}

/// Decodes `bytes` as UTF-8 and tolerates malformed input.
///
/// Calls `String::from_utf8_lossy`. Trusted: the result is the text named
/// `lossy_utf8`, and where `bytes` are well-formed UTF-8 it is the text that
/// they encode, with nothing replaced.
#[verifier::external_body]
pub(crate) fn decode_lossy(bytes: &[u8]) -> (text: String)
    ensures
        text@ == lossy_utf8(bytes@),
        valid_utf8(bytes@) ==> text@ == decode_utf8(bytes@),
{
    String::from_utf8_lossy(bytes).into_owned()
}

/// Tells whether `c` is white space.
pub fn whitespace(c: char) -> (b: bool)
    ensures
        b == is_whitespace(c),
{
    ('\u{9}' <= c && c <= '\u{d}') || c == ' ' || c == '\u{85}' || c == '\u{a0}' || c == '\u{1680}'
        || ('\u{2000}' <= c && c <= '\u{200a}') || c == '\u{2028}' || c == '\u{2029}' || c
        == '\u{202f}' || c == '\u{205f}' || c == '\u{3000}'
}

/// The characters of `text`, in order.
pub fn to_chars(text: &str) -> (chars: Vec<char>)
    ensures
        chars@ == text@,
{
    let mut chars: Vec<char> = Vec::new();
    for c in it: text.chars()
        invariant
            it.seq() == text@,
            chars@ == it.seq().take(it.index() as int),
    {
        chars.push(c);
    }
    chars
}

fn skip_whitespace(chars: &[char], from: usize) -> (at: usize)
    requires
        from <= chars@.len(),
    ensures
        at == word_start(chars@, from as int),
        from <= at <= chars@.len(),
{
    let mut at: usize = from;
    while at < chars.len() && whitespace(chars[at])
        invariant
            from <= at <= chars@.len(),
            word_start(chars@, from as int) == word_start(chars@, at as int),
        decreases chars@.len() - at,
    {
        at += 1;
    }
    at
}

fn skip_word(chars: &[char], from: usize) -> (at: usize)
    requires
        from <= chars@.len(),
    ensures
        at == word_end(chars@, from as int),
        from <= at <= chars@.len(),
{
    let mut at: usize = from;
    while at < chars.len() && !whitespace(chars[at])
        invariant
            from <= at <= chars@.len(),
            word_end(chars@, from as int) == word_end(chars@, at as int),
        decreases chars@.len() - at,
    {
        at += 1;
    }
    at
}

fn skip_line(chars: &[char], from: usize) -> (at: usize)
    requires
        from <= chars@.len(),
    ensures
        at == line_end(chars@, from as int),
        from <= at <= chars@.len(),
{
    let mut at: usize = from;
    while at < chars.len() && chars[at] != '\n'
        invariant
            from <= at <= chars@.len(),
            line_end(chars@, from as int) == line_end(chars@, at as int),
        decreases chars@.len() - at,
    {
        at += 1;
    }
    at
}

/// Cuts `text` at white space and returns its words, in order.
pub fn split_whitespace(text: &str) -> (out: Vec<String>)
    ensures
        out.deep_view() == words(text@),
{
    let chars = to_chars(text);
    let mut out: Vec<String> = Vec::new();
    let mut at: usize = 0;
    loop
        invariant
            chars@ == text@,
            at <= chars@.len(),
            words(text@) == out.deep_view() + words_from(text@, at as int),
        ensures
            out.deep_view() == words(text@),
        decreases chars@.len() - at,
    {
        let start = skip_whitespace(chars.as_slice(), at);
        if start >= chars.len() {
            break ;
        }
        let end = skip_word(chars.as_slice(), start);
        proof {
            lemma_word_end(text@, start as int);
        }
        let word = text.substring_char(start, end).to_owned();
        let ghost before = out.deep_view();
        out.push(word);
        assert(out.deep_view() == before.push(text@.subrange(start as int, end as int)));
        at = end;
    }
    out
}

/// The first line of `text`, without its terminator.
pub fn first_line_of(text: &str) -> (line: &str)
    ensures
        line@ == first_line(text@),
{
    let chars = to_chars(text);
    let end = skip_line(chars.as_slice(), 0);
    if 0 < end && end < chars.len() && chars[end - 1] == '\r' {
        text.substring_char(0, end - 1)
    } else {
        text.substring_char(0, end)
    }
}

} // verus!
