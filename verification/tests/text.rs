use deet::text::{chars_of, line_ranges, string_of, trim_range};

#[test]
fn chars_of_gives_the_characters_in_order() {
    assert_eq!(chars_of(""), Vec::<char>::new());
    assert_eq!(chars_of("abc"), vec!['a', 'b', 'c']);
    assert_eq!(chars_of("é\n日"), vec!['é', '\n', '日']);
}

#[test]
fn string_of_copies_a_range() {
    let chars = chars_of("hello world");
    assert_eq!(string_of(&chars, 0, 5), "hello");
    assert_eq!(string_of(&chars, 6, 11), "world");
    assert_eq!(string_of(&chars, 3, 3), "");
    assert_eq!(string_of(&chars, 0, 11), "hello world");
    assert_eq!(string_of(&chars, 11, 11), "");
}

#[test]
fn line_ranges_split_at_line_feeds() {
    assert_eq!(line_ranges(&chars_of("")), vec![(0, 0)]);
    assert_eq!(line_ranges(&chars_of("abc")), vec![(0, 3)]);
    assert_eq!(line_ranges(&chars_of("abc\n")), vec![(0, 3), (4, 4)]);
    assert_eq!(line_ranges(&chars_of("\n")), vec![(0, 0), (1, 1)]);
    assert_eq!(line_ranges(&chars_of("a\n\nbc\nd")), vec![(0, 1), (2, 2), (3, 5), (6, 7)]);
}

#[test]
fn line_ranges_agree_with_split() {
    for text in ["", "\n", "a", "a\nb", "a\r\nb\n", "\n\n", "x y\n z \n"] {
        let chars = chars_of(text);
        let lines: Vec<String> =
            line_ranges(&chars).iter().map(|range| string_of(&chars, range.0, range.1)).collect();
        let expected: Vec<String> = text.split('\n').map(String::from).collect();
        assert_eq!(lines, expected, "text {:?}", text);
    }
}

#[test]
fn trim_range_drops_white_space_at_both_ends() {
    let chars = chars_of("  a b \t");
    assert_eq!(trim_range(&chars, 0, 7), (2, 5));
    assert_eq!(trim_range(&chars, 2, 5), (2, 5));
    assert_eq!(trim_range(&chars, 3, 7), (4, 5));
    assert_eq!(trim_range(&chars, 0, 2), (2, 2));
    assert_eq!(trim_range(&chars, 5, 7), (7, 7));
    assert_eq!(trim_range(&chars, 4, 4), (4, 4));
}

#[test]
fn trim_range_agrees_with_trim() {
    for text in ["", " ", "x", " x", "x ", "\u{a0}x y\u{3000}", "\t\r\n", "\u{200b} a \u{200b}"] {
        let chars = chars_of(text);
        let (start, end) = trim_range(&chars, 0, chars.len());
        assert_eq!(string_of(&chars, start, end), text.trim(), "text {:?}", text);
    }
}
