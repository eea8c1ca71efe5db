//! Splitting extracted text into the words that playback shows one at a time.

use vstd::prelude::*;
use crate::text::{chars_of, string_of, text_views};

verus! {

/// Whether `c` separates words: the code points that Unicode gives the
/// `White_Space` property.
pub open spec fn is_space(c: char) -> bool {
    let u = c as u32;
    ||| 0x09 <= u <= 0x0D
    ||| u == 0x20
    ||| u == 0x85
    ||| u == 0xA0
    ||| u == 0x1680
    ||| 0x2000 <= u <= 0x200A
    ||| u == 0x2028
    ||| u == 0x2029
    ||| u == 0x202F
    ||| u == 0x205F
    ||| u == 0x3000
}

/// Decides [`is_space`].
pub fn is_whitespace(c: char) -> (r: bool)
    ensures
        r == is_space(c),
{
    let u: u32 = c as u32;
    (0x09 <= u && u <= 0x0D) || u == 0x20 || u == 0x85 || u == 0xA0 || u == 0x1680 || (0x2000 <= u
        && u <= 0x200A) || u == 0x2028 || u == 0x2029 || u == 0x202F || u == 0x205F || u == 0x3000
}

/// The end of the run of non-space characters that starts at `i`: the first
/// position from `i` on that holds a space, or the end of the text.
pub open spec fn word_end(text: Seq<char>, i: int) -> int
    decreases text.len() - i,
{
    if i < 0 || i >= text.len() || is_space(text[i]) {
        i
    } else {
        word_end(text, i + 1)
    }
}

/// The words of `text` from position `i` on.
pub open spec fn words_from(text: Seq<char>, i: int) -> Seq<Seq<char>>
    decreases text.len() - i,
{
    if i < 0 || i >= text.len() {
        Seq::empty()
    } else if is_space(text[i]) {
        words_from(text, i + 1)
    } else {
        let end = word_end(text, i);
        if i < end <= text.len() {
            seq![text.subrange(i, end)] + words_from(text, end)
        } else {
            Seq::empty()
        }
    }
}

/// The words of `text`: its maximal runs of non-space characters, in reading
/// order.
pub open spec fn words_of(text: Seq<char>) -> Seq<Seq<char>> {
    words_from(text, 0)
}

/// A run that starts on a non-space character is not empty, stays inside the
/// text, holds no space and stops at a space or at the end.
pub proof fn lemma_word_end(text: Seq<char>, i: int)
    requires
        0 <= i < text.len(),
        !is_space(text[i]),
    ensures
        i < word_end(text, i) <= text.len(),
        forall|j: int| i <= j < word_end(text, i) ==> !is_space(#[trigger] text[j]),
        word_end(text, i) < text.len() ==> is_space(text[word_end(text, i)]),
    decreases text.len() - i,
{
    if i + 1 < text.len() && !is_space(text[i + 1]) {
        lemma_word_end(text, i + 1);
    } else {
        assert(word_end(text, i + 1) == i + 1);
    }
}

/// From any position on, no word is empty and no word holds a space.
proof fn lemma_no_space_from(text: Seq<char>, i: int)
    requires
        0 <= i,
    ensures
        forall|k: int, j: int|
            0 <= k < words_from(text, i).len() && 0 <= j < words_from(text, i)[k].len()
                ==> !is_space(#[trigger] words_from(text, i)[k][j]),
        forall|k: int|
            0 <= k < words_from(text, i).len() ==> (#[trigger] words_from(text, i)[k]).len() > 0,
    decreases text.len() - i,
{
    if i < text.len() {
        if is_space(text[i]) {
            lemma_no_space_from(text, i + 1);
            assert(words_from(text, i) == words_from(text, i + 1));
        } else {
            lemma_word_end(text, i);
            let end = word_end(text, i);
            lemma_no_space_from(text, end);
            let first = text.subrange(i, end);
            let rest = words_from(text, end);
            assert(words_from(text, i) == seq![first] + rest);
            assert forall|k: int, j: int|
                0 <= k < words_from(text, i).len() && 0 <= j < words_from(text, i)[k].len()
                implies !is_space(#[trigger] words_from(text, i)[k][j]) by {
                if k == 0 {
                    assert(first[j] == text[i + j]);
                } else {
                    assert(words_from(text, i)[k] == rest[k - 1]);
                }
            }
            assert forall|k: int| 0 <= k < words_from(text, i).len() implies (
            #[trigger] words_from(text, i)[k]).len() > 0 by {
                if k > 0 {
                    assert(words_from(text, i)[k] == rest[k - 1]);
                }
            }
        }
    } else {
        assert(words_from(text, i).len() == 0);
    }
}

/// The characters of `text` from position `i` on that are no spaces.
pub open spec fn letters_from(text: Seq<char>, i: int) -> Seq<char>
    decreases text.len() - i,
{
    if i < 0 || i >= text.len() {
        Seq::empty()
    } else if is_space(text[i]) {
        letters_from(text, i + 1)
    } else {
        seq![text[i]] + letters_from(text, i + 1)
    }
}

/// A stretch without a space is taken over as it is.
proof fn lemma_letters_of_run(text: Seq<char>, i: int, end: int)
    requires
        0 <= i <= end <= text.len(),
        forall|j: int| i <= j < end ==> !is_space(#[trigger] text[j]),
    ensures
        letters_from(text, i) == text.subrange(i, end) + letters_from(text, end),
    decreases end - i,
{
    if i < end {
        lemma_letters_of_run(text, i + 1, end);
        assert(text.subrange(i, end) =~= seq![text[i]] + text.subrange(i + 1, end));
        assert(letters_from(text, i) =~= text.subrange(i, end) + letters_from(text, end));
    } else {
        assert(text.subrange(i, end) + letters_from(text, end) =~= letters_from(text, end));
    }
}

/// From any position on, the words, one after the other, are the text
/// without its spaces.
proof fn lemma_letters_kept_from(text: Seq<char>, i: int)
    requires
        0 <= i,
    ensures
        words_from(text, i).flatten() == letters_from(text, i),
    decreases text.len() - i,
{
    if i < text.len() {
        if is_space(text[i]) {
            lemma_letters_kept_from(text, i + 1);
        } else {
            lemma_word_end(text, i);
            let end = word_end(text, i);
            let first = text.subrange(i, end);
            let rest = words_from(text, end);
            lemma_letters_kept_from(text, end);
            lemma_letters_of_run(text, i, end);
            assert(words_from(text, i) == seq![first] + rest);
            assert((seq![first] + rest).drop_first() =~= rest);
            assert((seq![first] + rest).first() == first);
        }
    } else {
        assert(words_from(text, i).len() == 0);
    }
}

/// No word is empty and no word holds a space.
pub proof fn lemma_words_hold_no_space(text: Seq<char>)
    ensures
        forall|k: int, j: int|
            0 <= k < words_of(text).len() && 0 <= j < words_of(text)[k].len() ==> !is_space(
                #[trigger] words_of(text)[k][j],
            ),
        forall|k: int| 0 <= k < words_of(text).len() ==> (#[trigger] words_of(text)[k]).len() > 0,
{
    lemma_no_space_from(text, 0);
}

/// Splitting loses and moves nothing but spaces: the words, one after the
/// other, are the text without its spaces.
pub proof fn lemma_words_keep_the_letters(text: Seq<char>)
    ensures
        words_of(text).flatten() == letters_from(text, 0),
{
    lemma_letters_kept_from(text, 0);
}

/// A text of spaces alone has no words.
pub proof fn lemma_blank_text_has_no_words(text: Seq<char>)
    requires
        forall|j: int| 0 <= j < text.len() ==> is_space(#[trigger] text[j]),
    ensures
        words_of(text) == Seq::<Seq<char>>::empty(),
{
    lemma_blank_from(text, 0);
}

/// From any position on, a text of spaces alone has no words.
proof fn lemma_blank_from(text: Seq<char>, i: int)
    requires
        0 <= i,
        forall|j: int| 0 <= j < text.len() ==> is_space(#[trigger] text[j]),
    ensures
        words_from(text, i) == Seq::<Seq<char>>::empty(),
    decreases text.len() - i,
{
    if i < text.len() {
        lemma_blank_from(text, i + 1);
    }
}

/// Splits `text` into its words.
pub fn tokenize(text: &str) -> (words: Vec<String>)
    ensures
        text_views(words@) == words_of(text@),
{
    let chars = chars_of(text);
    let n = chars.len();
    let mut words: Vec<String> = Vec::new();
    let mut i: usize = 0;
    while i < n
        invariant
            chars@ == text@,
            n == chars@.len(),
            i <= n,
            text_views(words@) + words_from(text@, i as int) == words_of(text@),
        decreases n - i,
    {
        if is_whitespace(chars[i]) {
            i += 1;
        } else {
            let start = i;
            proof {
                lemma_word_end(text@, start as int);
            }
            while i < n && !is_whitespace(chars[i])
                invariant
                    chars@ == text@,
                    n == chars@.len(),
                    start <= i <= n,
                    word_end(text@, i as int) == word_end(text@, start as int),
                decreases n - i,
            {
                i += 1;
            }
            let ghost before = words@;
            words.push(string_of(&chars, start, i));
            proof {
                assert(word_end(text@, start as int) == i);
                assert(text_views(words@) == text_views(before) + seq![
                    text@.subrange(start as int, i as int),
                ]);
            }
        }
    }
    assert(words_from(text@, n as int) == Seq::<Seq<char>>::empty());
    words
}

} // verus!
