//! The four measurements over a text: bytes, characters, lines and words.
//!
//! Each measurement has a mathematical definition over the text's sequence
//! of Unicode scalar values, and an executable counting function proved
//! against it.

use vstd::prelude::*;

verus! {

/// Number of Unicode scalar values in the text.
pub open spec fn char_count(text: Seq<char>) -> int {
    text.len() as int
}

/// Length of the text's UTF-8 encoded byte form.
pub open spec fn byte_count(text: Seq<char>) -> int {
    vstd::utf8::encode_utf8(text).len() as int
}

/// Returns the length of the text's encoded byte representation.
/// (Any text held in memory has a byte length that fits in `usize`,
/// so the cast below never truncates on an actual input.)
pub fn fetch_byte_count(file_contents: &str) -> (r: usize)
    ensures
        r == byte_count(file_contents@) as usize,
{
    file_contents.len()
}

/// Returns the number of Unicode scalar values in the text.
pub fn fetch_char_count(file_contents: &str) -> (r: usize)
    ensures
        r == char_count(file_contents@),
{
    file_contents.unicode_len()
}

/// Number of line-terminator characters among the first `n` characters.
pub open spec fn newlines_up_to(text: Seq<char>, n: int) -> int
    decreases n,
{
    if n <= 0 {
        0
    } else {
        newlines_up_to(text, n - 1) + if text[n - 1] == '\n' {
            1int
        } else {
            0int
        }
    }
}

/// Number of line segments: one per line break, plus one final
/// unterminated segment when non-empty content follows the last break.
/// A trailing terminator therefore adds no extra empty segment.
pub open spec fn line_count(text: Seq<char>) -> int {
    newlines_up_to(text, text.len() as int) + if text.len() > 0 && text[text.len() - 1] != '\n' {
        1int
    } else {
        0int
    }
}

/// The number of line terminators in a prefix never exceeds its length.
proof fn lemma_newlines_up_to_bound(text: Seq<char>, n: int)
    requires
        0 <= n <= text.len(),
    ensures
        0 <= newlines_up_to(text, n) <= n,
        n > 0 && text[n - 1] != '\n' ==> newlines_up_to(text, n) <= n - 1,
    decreases n,
{
    if n > 0 {
        lemma_newlines_up_to_bound(text, n - 1);
    }
}

/// Returns the number of lines in the text, counting the way a split on
/// line breaks does: a trailing break yields no extra empty line.
pub fn fetch_line_count(file_contents: &str) -> (r: usize)
    ensures
        r == line_count(file_contents@),
{
    let n = file_contents.unicode_len();
    let mut breaks: usize = 0;
    let mut i: usize = 0;
    while i < n
        invariant
            n == file_contents@.len(),
            0 <= i <= n,
            breaks == newlines_up_to(file_contents@, i as int),
            breaks <= i,
        decreases n - i,
    {
        proof {
            lemma_newlines_up_to_bound(file_contents@, i + 1);
        }
        if file_contents.get_char(i) == '\n' {
            breaks = breaks + 1;
        }
        i = i + 1;
    }
    if n > 0 && file_contents.get_char(n - 1) != '\n' {
        proof {
            lemma_newlines_up_to_bound(file_contents@, n as int);
        }
        breaks + 1
    } else {
        breaks
    }
}

/// The characters this library treats as word separators: the ASCII
/// whitespace set.
pub open spec fn is_separator(c: char) -> bool {
    c == ' ' || c == '\t' || c == '\n' || c == '\r' || c == '\u{b}' || c == '\u{c}'
}

/// Whether a word (a maximal non-empty run of non-separator characters)
/// begins at position `i`.
pub open spec fn is_word_start(text: Seq<char>, i: int) -> bool {
    &&& 0 <= i < text.len()
    &&& !is_separator(text[i])
    &&& (i == 0 || is_separator(text[i - 1]))
}

/// Number of word starts among the first `n` positions.
pub open spec fn words_up_to(text: Seq<char>, n: int) -> int
    decreases n,
{
    if n <= 0 {
        0
    } else {
        words_up_to(text, n - 1) + if is_word_start(text, n - 1) {
            1int
        } else {
            0int
        }
    }
}

/// Number of maximal non-empty runs of non-separator characters.
pub open spec fn word_count(text: Seq<char>) -> int {
    words_up_to(text, text.len() as int)
}

/// The number of word starts in a prefix never exceeds its length.
proof fn lemma_words_up_to_bound(text: Seq<char>, n: int)
    requires
        0 <= n <= text.len(),
    ensures
        0 <= words_up_to(text, n) <= n,
    decreases n,
{
    if n > 0 {
        lemma_words_up_to_bound(text, n - 1);
    }
}

/// Returns whether `c` is an ASCII whitespace separator.
fn is_separator_exec(c: char) -> (r: bool)
    ensures
        r == is_separator(c),
{
    c == ' ' || c == '\t' || c == '\n' || c == '\r' || c == '\u{b}' || c == '\u{c}'
}

/// Returns the number of words in the text: maximal non-empty runs of
/// non-whitespace characters, with any whitespace as the separator.
pub fn fetch_word_count(file_contents: &str) -> (r: usize)
    ensures
        r == word_count(file_contents@),
{
    let n = file_contents.unicode_len();
    let mut words: usize = 0;
    let mut prev_sep: bool = true;
    let mut i: usize = 0;
    while i < n
        invariant
            n == file_contents@.len(),
            0 <= i <= n,
            words == words_up_to(file_contents@, i as int),
            words <= i,
            prev_sep == (i == 0 || is_separator(file_contents@[i as int - 1])),
        decreases n - i,
    {
        proof {
            lemma_words_up_to_bound(file_contents@, i + 1);
        }
        let cur_sep = is_separator_exec(file_contents.get_char(i));
        if !cur_sep && prev_sep {
            words = words + 1;
        }
        prev_sep = cur_sep;
        i = i + 1;
    }
    words
}

/// For ASCII-only text, the byte count equals the character count.
pub proof fn lemma_ascii_bytes_equal_chars(text: Seq<char>)
    requires
        vstd::utf8::is_ascii_chars(text),
    ensures
        byte_count(text) == char_count(text),
{
    vstd::utf8::is_ascii_chars_encode_utf8(text);
}

proof fn lemma_words_up_to_all_separators(text: Seq<char>, n: int)
    requires
        0 <= n <= text.len(),
        forall|i: int| 0 <= i < text.len() ==> is_separator(#[trigger] text[i]),
    ensures
        words_up_to(text, n) == 0,
    decreases n,
{
    if n > 0 {
        lemma_words_up_to_all_separators(text, n - 1);
    }
}

/// Text consisting only of whitespace (including empty text) has no words.
pub proof fn lemma_separators_only_no_words(text: Seq<char>)
    requires
        forall|i: int| 0 <= i < text.len() ==> is_separator(#[trigger] text[i]),
    ensures
        word_count(text) == 0,
{
    lemma_words_up_to_all_separators(text, text.len() as int);
}

proof fn lemma_newlines_up_to_none(text: Seq<char>, n: int)
    requires
        0 <= n <= text.len(),
        forall|i: int| 0 <= i < text.len() ==> #[trigger] text[i] != '\n',
    ensures
        newlines_up_to(text, n) == 0,
    decreases n,
{
    if n > 0 {
        lemma_newlines_up_to_none(text, n - 1);
    }
}

/// Non-empty text without line terminators forms exactly one line;
/// empty text forms none.
pub proof fn lemma_line_count_without_terminators(text: Seq<char>)
    requires
        forall|i: int| 0 <= i < text.len() ==> #[trigger] text[i] != '\n',
    ensures
        text.len() > 0 ==> line_count(text) == 1,
        text.len() == 0 ==> line_count(text) == 0,
{
    lemma_newlines_up_to_none(text, text.len() as int);
}

} // verus!
