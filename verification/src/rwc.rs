//! Counting the lines, words and characters of a text.
//!
//! A word is a run of characters that are not white space, as long as it can
//! be; the characters counted are those of the words.
use crate::text::{chars_of, white_space};
use vstd::prelude::*;

verus! {

/// The counts of one text.
#[derive(Debug, Clone, Copy, PartialEq, Eq)]
pub struct Counts {
    /// The number of lines.
    pub lines: usize,
    /// The number of words.
    pub words: usize,
    /// The number of characters in the words.
    pub characters: usize,
}

/// The number of line feeds in `s`.
pub open spec fn newline_count(s: Seq<char>) -> nat
    decreases s.len(),
{
    if s.len() == 0 {
        0
    } else {
        newline_count(s.drop_last()) + if s.last() == '\n' {
            1nat
        } else {
            0nat
        }
    }
}

/// The number of lines of `s`: each line feed ends a line, and what follows the
/// last line feed is one more line unless it is empty.
pub open spec fn line_count(s: Seq<char>) -> nat {
    newline_count(s) + if s.len() > 0 && s.last() != '\n' {
        1nat
    } else {
        0nat
    }
}

/// Whether a word of `s` begins at index `i`: the character there is not white
/// space, and it is the first of `s` or follows white space.
pub open spec fn starts_word(s: Seq<char>, i: int) -> bool {
    &&& 0 <= i < s.len()
    &&& !white_space(s[i])
    &&& (i == 0 || white_space(s[i - 1]))
}

/// The number of words of `s`.
pub open spec fn word_count(s: Seq<char>) -> nat
    decreases s.len(),
{
    if s.len() == 0 {
        0
    } else {
        word_count(s.drop_last()) + if starts_word(s, s.len() - 1) {
            1nat
        } else {
            0nat
        }
    }
}

/// The number of characters of `s` that are not white space.
pub open spec fn character_count(s: Seq<char>) -> nat
    decreases s.len(),
{
    if s.len() == 0 {
        0
    } else {
        character_count(s.drop_last()) + if white_space(s.last()) {
            0nat
        } else {
            1nat
        }
    }
}

/// The counts of `s`.
pub open spec fn counts_of(s: Seq<char>) -> Counts {
    Counts {
        lines: line_count(s) as usize,
        words: word_count(s) as usize,
        characters: character_count(s) as usize,
    }
}

/// None of the counts exceeds the length of the text, and there are at most
/// as many words as characters in them.
pub proof fn lemma_counts_bounded(s: Seq<char>)
    ensures
        newline_count(s) <= s.len(),
        line_count(s) <= s.len(),
        word_count(s) <= character_count(s) <= s.len(),
    decreases s.len(),
{
    if s.len() > 0 {
        lemma_counts_bounded(s.drop_last());
    }
}

/// Counts the lines, words and characters of `contents`.
pub fn count(contents: &str) -> (counts: Counts)
    ensures
        counts == counts_of(contents@),
        counts.lines == line_count(contents@),
        counts.words == word_count(contents@),
        counts.characters == character_count(contents@),
{
    let chars = chars_of(contents);
    let ghost s = chars@;
    let mut newlines: usize = 0;
    let mut words: usize = 0;
    let mut characters: usize = 0;
    let mut in_word = false;
    let mut ends_line = true;
    let mut i: usize = 0;
    assert(s.take(0) =~= Seq::<char>::empty());
    while i < chars.len()
        invariant
            s == chars@,
            i <= chars.len(),
            newlines == newline_count(s.take(i as int)),
            words == word_count(s.take(i as int)),
            characters == character_count(s.take(i as int)),
            in_word == (i > 0 && !white_space(s[i - 1])),
            ends_line == (i == 0 || s[i - 1] == '\n'),
        decreases chars.len() - i,
    {
        let c = chars[i];
        proof {
            let next = s.take(i + 1);
            assert(next.drop_last() =~= s.take(i as int));
            assert(next.last() == c);
            assert(starts_word(next, i as int) == (!white_space(c) && !in_word));
            lemma_counts_bounded(next);
        }
        if c == '\n' {
            newlines += 1;
        }
        ends_line = c == '\n';
        if c.is_whitespace() {
            in_word = false;
        } else {
            if !in_word {
                words += 1;
            }
            characters += 1;
            in_word = true;
        }
        i += 1;
    }
    proof {
        assert(s.take(i as int) =~= s);
        lemma_counts_bounded(s);
    }
    let lines = if ends_line {
        newlines
    } else {
        newlines + 1
    };
    Counts { lines, words, characters }
}

} // verus!
