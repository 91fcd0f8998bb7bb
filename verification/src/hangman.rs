//! The rules of a word-guessing game.
//!
//! A secret word is drawn from a list. The player names one letter at a time: a
//! letter that the word still hides is uncovered, once per guess; any other
//! guess costs one of a fixed number of chances. The game is won when the whole
//! word is uncovered and lost when no chance is left.
use crate::text::{chars_of, line_ranges, lines, string_of, trim_range, trimmed};
use rand::Rng;
use vstd::prelude::*;

verus! {

/// The number of wrong guesses that ends the game.
pub const NUM_INCORRECT_GUESSES: u32 = 5;

/// The word `secret` with a dash for each letter that `shown` does not mark.
pub open spec fn masked(secret: Seq<char>, shown: Seq<bool>) -> Seq<char>
    recommends
        secret.len() <= shown.len(),
{
    Seq::new(
        secret.len(),
        |i: int|
            if shown[i] {
                secret[i]
            } else {
                '-'
            },
    )
}

/// The number of marks in `shown`.
pub open spec fn count_shown(shown: Seq<bool>) -> nat
    decreases shown.len(),
{
    if shown.len() == 0 {
        0
    } else {
        count_shown(shown.drop_last()) + if shown.last() {
            1nat
        } else {
            0nat
        }
    }
}

/// There are at most as many marks as places, and exactly as many when every
/// place is marked.
pub proof fn lemma_count_shown_bounds(shown: Seq<bool>)
    ensures
        count_shown(shown) <= shown.len(),
        count_shown(shown) == shown.len() <==> forall|i: int| 0 <= i < shown.len() ==> shown[i],
    decreases shown.len(),
{
    if shown.len() > 0 {
        let front = shown.drop_last();
        lemma_count_shown_bounds(front);
        if count_shown(shown) == shown.len() {
            assert forall|i: int| 0 <= i < shown.len() implies shown[i] by {
                if i < front.len() {
                    assert(front[i]);
                }
            }
        }
        if forall|i: int| 0 <= i < shown.len() ==> shown[i] {
            assert forall|i: int| 0 <= i < front.len() implies front[i] by {
                assert(shown[i]);
            }
            assert(shown.last());
        }
    }
}

/// Marking a place that was not marked adds one mark.
pub proof fn lemma_count_shown_update(shown: Seq<bool>, i: int)
    requires
        0 <= i < shown.len(),
        !shown[i],
    ensures
        count_shown(shown.update(i, true)) == count_shown(shown) + 1,
    decreases shown.len(),
{
    let marked = shown.update(i, true);
    if i == shown.len() - 1 {
        assert(marked.drop_last() =~= shown.drop_last());
    } else {
        assert(marked.drop_last() =~= shown.drop_last().update(i, true));
        lemma_count_shown_update(shown.drop_last(), i);
    }
}

/// Writes the secret word with a dash in place of each letter that is still
/// hidden: the letter at an index is written where `idx` holds `true` there.
pub fn word_with_mask(secret_word_chars: &Vec<char>, idx: &Vec<bool>) -> (ans: String)
    requires
        secret_word_chars.len() <= idx.len(),
    ensures
        ans@ == masked(secret_word_chars@, idx@),
{
    let mut ans = String::new();
    let mut i: usize = 0;
    while i < secret_word_chars.len()
        invariant
            i <= secret_word_chars.len() <= idx.len(),
            ans@ == masked(secret_word_chars@, idx@).take(i as int),
        decreases secret_word_chars.len() - i,
    {
        if idx[i] {
            ans.push(secret_word_chars[i]);
        } else {
            ans.push('-');
        }
        i += 1;
        assert(ans@ =~= masked(secret_word_chars@, idx@).take(i as int));
    }
    assert(ans@ =~= masked(secret_word_chars@, idx@));
    ans
}

/// Draws a number below `high`, by `gen_range` of the `rand` crate on the
/// thread's generator (`rand::thread_rng`).
///
/// Trusted. `gen_range(low, high)` returns a value from `low` up to, and not
/// including, `high`, and panics unless `low < high`; here `low` is 0. Which
/// value comes is left open.
#[verifier::external_body]
fn random_below(high: usize) -> (n: usize)
    requires
        high > 0,
    ensures
        n < high,
{
    rand::thread_rng().gen_range(0, high)
}

/// Returns the word on line `index` of the word list `file_string`, counted
/// from 0, without the white space around it; `None` if the list has no such
/// line.
///
/// The lines are the pieces between line feeds (see `lines`).
pub fn nth_word(file_string: &str, index: usize) -> (word: Option<String>)
    ensures
        match word {
            Some(word) => index < lines(file_string@).len() && word@ == trimmed(
                lines(file_string@)[index as int],
            ),
            None => index >= lines(file_string@).len(),
        },
{
    let chars = chars_of(file_string);
    let ranges = line_ranges(&chars);
    if index < ranges.len() {
        let (from, to) = ranges[index];
        let (start, end) = trim_range(&chars, from, to);
        Some(string_of(&chars, start, end))
    } else {
        None
    }
}

/// Picks one line of the word list `file_string` at random and returns the
/// word on it, without the white space around it.
pub fn pick_a_random_word(file_string: &str) -> (word: String)
    ensures
        exists|k: int|
            0 <= k < lines(file_string@).len() && word@ == trimmed(
                #[trigger] lines(file_string@)[k],
            ),
{
    let chars = chars_of(file_string);
    let ranges = line_ranges(&chars);
    let index = random_below(ranges.len());
    let (from, to) = ranges[index];
    let (start, end) = trim_range(&chars, from, to);
    let word = string_of(&chars, start, end);
    assert(word@ == trimmed(lines(file_string@)[index as int]));
    word
}

/// A game in progress.
pub struct Game {
    secret: Vec<char>,
    shown: Vec<bool>,
    guessed: Vec<char>,
    chances: u32,
    right: usize,
}

/// What a game is, apart from how it is stored.
pub struct GameView {
    /// The letters of the secret word.
    pub secret: Seq<char>,
    /// For each letter of the secret word, whether it is uncovered.
    pub shown: Seq<bool>,
    /// The letters guessed so far, in the order of the guesses.
    pub guessed: Seq<char>,
    /// The number of wrong guesses that the player can still afford.
    pub chances: nat,
}

impl GameView {
    /// Whether the whole word is uncovered.
    pub open spec fn won(self) -> bool {
        forall|i: int| 0 <= i < self.shown.len() ==> self.shown[i]
    }

    /// Whether the game has ended: the word is uncovered or no chance is left.
    pub open spec fn over(self) -> bool {
        self.chances == 0 || self.won()
    }

    /// Whether `ch` can be uncovered at index `i`: the letter there is `ch` and
    /// is still hidden.
    pub open spec fn hides(self, ch: char, i: int) -> bool {
        0 <= i < self.secret.len() && !self.shown[i] && self.secret[i] == ch
    }
}

impl View for Game {
    type V = GameView;

    closed spec fn view(&self) -> GameView {
        GameView {
            secret: self.secret@,
            shown: self.shown@,
            guessed: self.guessed@,
            chances: self.chances as nat,
        }
    }
}

impl Game {
    /// Every letter has its mark, the marks are counted, and the chances are
    /// within the limit.
    pub closed spec fn well_formed(&self) -> bool {
        &&& self.shown@.len() == self.secret@.len()
        &&& self.right == count_shown(self.shown@)
        &&& self.chances <= NUM_INCORRECT_GUESSES
    }

    /// Starts a game on `secret_word`: every letter hidden, nothing guessed,
    /// all chances left.
    pub fn new(secret_word: &str) -> (game: Game)
        ensures
            game.well_formed(),
            game@.secret == secret_word@,
            game@.shown == Seq::new(secret_word@.len(), |i: int| false),
            game@.guessed == Seq::<char>::empty(),
            game@.chances == NUM_INCORRECT_GUESSES,
    {
        let secret = chars_of(secret_word);
        let mut shown: Vec<bool> = Vec::new();
        let mut i: usize = 0;
        while i < secret.len()
            invariant
                i <= secret.len(),
                shown@ == Seq::new(i as nat, |i: int| false),
                count_shown(shown@) == 0,
            decreases secret.len() - i,
        {
            let ghost before = shown@;
            shown.push(false);
            i += 1;
            assert(shown@.drop_last() =~= before);
            assert(shown@ =~= Seq::new(i as nat, |i: int| false));
        }
        Game { secret, shown, guessed: Vec::new(), chances: NUM_INCORRECT_GUESSES, right: 0 }
    }

    /// Takes the guess `ch`.
    ///
    /// The guess is noted. If the secret word still hides `ch`, the first such
    /// letter is uncovered and its index returned. Otherwise one chance is lost
    /// and the result is `None`. A game that is over takes no guess.
    pub fn guess(&mut self, ch: char) -> (hit: Option<usize>)
        requires
            old(self).well_formed(),
            !old(self)@.over(),
        ensures
            final(self).well_formed(),
            final(self)@.secret == old(self)@.secret,
            final(self)@.guessed == old(self)@.guessed.push(ch),
            match hit {
                Some(i) => {
                    &&& old(self)@.hides(ch, i as int)
                    &&& forall|j: int| 0 <= j < i ==> !old(self)@.hides(ch, j)
                    &&& final(self)@.shown == old(self)@.shown.update(i as int, true)
                    &&& final(self)@.chances == old(self)@.chances
                },
                None => {
                    &&& forall|j: int| !old(self)@.hides(ch, j)
                    &&& final(self)@.shown == old(self)@.shown
                    &&& final(self)@.chances == old(self)@.chances - 1
                },
            },
    {
        self.guessed.push(ch);
        let mut i: usize = 0;
        while i < self.secret.len() && !(!self.shown[i] && self.secret[i] == ch)
            invariant
                i <= self.secret.len(),
                self.shown@.len() == self.secret@.len(),
                self.secret@ == old(self)@.secret,
                self.shown@ == old(self)@.shown,
                forall|j: int| 0 <= j < i ==> !old(self)@.hides(ch, j),
            decreases self.secret.len() - i,
        {
            i += 1;
        }
        if i == self.secret.len() {
            self.chances -= 1;
            None
        } else {
            proof {
                lemma_count_shown_update(self.shown@, i as int);
                lemma_count_shown_bounds(self.shown@.update(i as int, true));
            }
            self.shown.set(i, true);
            self.right += 1;
            Some(i)
        }
    }

    /// Tells whether the whole word is uncovered.
    pub fn is_won(&self) -> (won: bool)
        requires
            self.well_formed(),
        ensures
            won == self@.won(),
    {
        proof {
            lemma_count_shown_bounds(self.shown@);
            assert(self@.shown == self.shown@);
        }
        self.right == self.secret.len()
    }

    /// Tells whether the game has ended.
    pub fn is_over(&self) -> (over: bool)
        requires
            self.well_formed(),
        ensures
            over == self@.over(),
    {
        proof {
            lemma_count_shown_bounds(self.shown@);
            assert(self@.shown == self.shown@);
        }
        self.chances == 0 || self.right == self.secret.len()
    }

    /// Returns the number of wrong guesses that the player can still afford.
    pub fn chances_left(&self) -> (chances: u32)
        requires
            self.well_formed(),
        ensures
            chances == self@.chances,
            chances <= NUM_INCORRECT_GUESSES,
    {
        self.chances
    }

    /// Returns the letters guessed so far, in the order of the guesses.
    pub fn guessed_letters(&self) -> (letters: String)
        ensures
            letters@ == self@.guessed,
    {
        let letters = string_of(&self.guessed, 0, self.guessed.len());
        assert(self.guessed@.subrange(0, self.guessed@.len() as int) =~= self.guessed@);
        letters
    }

    /// Returns the secret word as the player may see it, with a dash for each
    /// hidden letter.
    pub fn word_so_far(&self) -> (word: String)
        requires
            self.well_formed(),
        ensures
            word@ == masked(self@.secret, self@.shown),
    {
        word_with_mask(&self.secret, &self.shown)
    }

    /// Returns the secret word.
    pub fn secret_word(&self) -> (word: String)
        ensures
            word@ == self@.secret,
    {
        let word = string_of(&self.secret, 0, self.secret.len());
        assert(self.secret@.subrange(0, self.secret@.len() as int) =~= self.secret@);
        word
    }
}

} // verus!
