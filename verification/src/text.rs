//! Text as sequences of characters: lines, white space, trimming.
//!
//! A string is modelled by its view, the sequence of its characters. The
//! functions here work on a `Vec<char>`, in which a character is found by its
//! index.
use vstd::prelude::*;

verus! {

/// Whether `c` is white space, as `char::is_whitespace` decides it: whether it
/// has the Unicode property `White_Space`.
pub uninterp spec fn white_space(c: char) -> bool;

/// `char::is_whitespace` of the standard library.
///
/// Trusted. The result depends on the character alone, and is given the name
/// `white_space`; nothing else is claimed of it.
pub assume_specification[ char::is_whitespace ](c: char) -> (b: bool)
    ensures
        b == white_space(c),
;

/// `String::push` of the standard library.
///
/// Trusted. As documented, it appends the character to the end of the string.
pub assume_specification[ String::push ](s: &mut String, c: char)
    ensures
        final(s)@ == old(s)@.push(c),
;

/// The index of the first line feed in `s`; the length of `s` if it has none.
pub open spec fn first_newline(s: Seq<char>) -> int
    decreases s.len(),
{
    if s.len() == 0 || s[0] == '\n' {
        0
    } else {
        1 + first_newline(s.skip(1))
    }
}

/// The pieces of `s` between its line feeds, in order.
///
/// There is one piece more than there are line feeds: a text without a line
/// feed is one piece, and a text that ends in a line feed has an empty last
/// piece.
pub open spec fn lines(s: Seq<char>) -> Seq<Seq<char>>
    decreases s.len(),
{
    let i = first_newline(s);
    if 0 <= i < s.len() {
        seq![s.take(i)] + lines(s.skip(i + 1))
    } else {
        seq![s]
    }
}

/// `s` without the white space at its two ends.
pub open spec fn trimmed(s: Seq<char>) -> Seq<char>
    decreases s.len(),
{
    if s.len() == 0 {
        s
    } else if white_space(s[0]) {
        trimmed(s.drop_first())
    } else if white_space(s.last()) {
        trimmed(s.drop_last())
    } else {
        s
    }
}

/// The first line feed of `s` is at `k` if no line feed comes before `k` and
/// one stands at `k`, or `s` ends there.
pub proof fn lemma_first_newline(s: Seq<char>, k: int)
    requires
        0 <= k <= s.len(),
        forall|j: int| 0 <= j < k ==> s[j] != '\n',
        k < s.len() ==> s[k] == '\n',
    ensures
        first_newline(s) == k,
    decreases k,
{
    if k > 0 {
        let rest = s.skip(1);
        assert forall|j: int| 0 <= j < k - 1 implies rest[j] != '\n' by {
            assert(rest[j] == s[j + 1]);
        }
        lemma_first_newline(rest, k - 1);
    }
}

/// Returns the characters of `s`.
pub fn chars_of(s: &str) -> (chars: Vec<char>)
    ensures
        chars@ == s@,
{
    let mut chars: Vec<char> = Vec::new();
    for c in it: s.chars()
        invariant
            it.seq() == s@,
            chars@ == it.seq().take(it.index() as int),
    {
        chars.push(c);
        assert(chars@ =~= it.seq().take(it.index() + 1));
    }
    assert(chars@ =~= s@);
    chars
}

/// Returns the characters of `chars` from index `from` up to `to` as a string.
pub fn string_of(chars: &Vec<char>, from: usize, to: usize) -> (s: String)
    requires
        from <= to <= chars.len(),
    ensures
        s@ == chars@.subrange(from as int, to as int),
{
    let mut s = String::new();
    let mut i: usize = from;
    while i < to
        invariant
            from <= i <= to <= chars.len(),
            s@ == chars@.subrange(from as int, i as int),
        decreases to - i,
    {
        s.push(chars[i]);
        i += 1;
        assert(s@ =~= chars@.subrange(from as int, i as int));
    }
    s
}

/// Finds where the lines of `chars` begin and end.
///
/// Returns, for each piece of `lines` in order, the index of its first
/// character and the index behind its last.
pub fn line_ranges(chars: &Vec<char>) -> (ranges: Vec<(usize, usize)>)
    ensures
        ranges.len() >= 1,
        ranges.len() == lines(chars@).len(),
        forall|k: int|
            0 <= k < ranges.len() ==> {
                &&& (#[trigger] ranges[k]).0 <= ranges[k].1 <= chars.len()
                &&& chars@.subrange(ranges[k].0 as int, ranges[k].1 as int) == lines(chars@)[k]
            },
{
    let ghost s = chars@;
    let ghost mut done: Seq<Seq<char>> = Seq::empty();
    let mut ranges: Vec<(usize, usize)> = Vec::new();
    let mut start: usize = 0;
    let mut i: usize = 0;
    assert(s.skip(0) =~= s);
    while i < chars.len()
        invariant
            s == chars@,
            0 <= start <= i <= chars.len(),
            forall|j: int| start <= j < i ==> s[j] != '\n',
            lines(s) == done + lines(s.skip(start as int)),
            ranges.len() == done.len(),
            forall|k: int|
                0 <= k < ranges.len() ==> {
                    &&& (#[trigger] ranges[k]).0 <= ranges[k].1 <= chars.len()
                    &&& s.subrange(ranges[k].0 as int, ranges[k].1 as int) == done[k]
                },
        decreases chars.len() - i,
    {
        if chars[i] == '\n' {
            proof {
                let rest = s.skip(start as int);
                lemma_first_newline(rest, i - start);
                assert(rest.take(i - start) =~= s.subrange(start as int, i as int));
                assert(rest.skip(i - start + 1) =~= s.skip(i + 1));
                assert(lines(rest) == seq![rest.take(i - start)] + lines(rest.skip(i - start + 1)));
                assert(done + lines(rest) =~= done.push(s.subrange(start as int, i as int)) + lines(
                    s.skip(i + 1),
                ));
                done = done.push(s.subrange(start as int, i as int));
            }
            ranges.push((start, i));
            start = i + 1;
        }
        i += 1;
    }
    proof {
        let rest = s.skip(start as int);
        lemma_first_newline(rest, rest.len() as int);
        assert(lines(rest) == seq![rest]);
        assert(rest =~= s.subrange(start as int, chars.len() as int));
        assert(done + lines(rest) =~= done.push(rest));
        done = done.push(rest);
    }
    ranges.push((start, chars.len()));
    ranges
}

/// Narrows the range from `from` up to `to` of `chars` until no white space
/// stands at either end.
pub fn trim_range(chars: &Vec<char>, from: usize, to: usize) -> (range: (usize, usize))
    requires
        from <= to <= chars.len(),
    ensures
        from <= range.0 <= range.1 <= to,
        chars@.subrange(range.0 as int, range.1 as int) == trimmed(
            chars@.subrange(from as int, to as int),
        ),
{
    let ghost s = chars@;
    let mut start = from;
    let mut end = to;
    while start < end && chars[start].is_whitespace()
        invariant
            s == chars@,
            from <= start <= end <= to <= chars.len(),
            trimmed(s.subrange(start as int, end as int)) == trimmed(
                s.subrange(from as int, to as int),
            ),
        decreases end - start,
    {
        assert(s.subrange(start as int, end as int).drop_first() =~= s.subrange(
            start + 1,
            end as int,
        ));
        start += 1;
    }
    while start < end && chars[end - 1].is_whitespace()
        invariant
            s == chars@,
            from <= start <= end <= to <= chars.len(),
            start < end ==> !white_space(s[start as int]),
            trimmed(s.subrange(start as int, end as int)) == trimmed(
                s.subrange(from as int, to as int),
            ),
        decreases end - start,
    {
        assert(s.subrange(start as int, end as int).drop_last() =~= s.subrange(
            start as int,
            end - 1,
        ));
        end -= 1;
    }
    (start, end)
}

} // verus!
