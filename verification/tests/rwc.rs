use deet::rwc::{count, Counts};

/// The counts of `text` as the standard library's iterators give them.
fn expected(text: &str) -> Counts {
    Counts {
        lines: text.lines().count(),
        words: text.split_whitespace().count(),
        characters: text.split_whitespace().map(|word| word.chars().count()).sum(),
    }
}

#[test]
fn count_of_the_empty_text_is_zero() {
    assert_eq!(count(""), Counts { lines: 0, words: 0, characters: 0 });
}

#[test]
fn count_of_plain_lines() {
    assert_eq!(count("hello world\n"), Counts { lines: 1, words: 2, characters: 10 });
    assert_eq!(count("hello world"), Counts { lines: 1, words: 2, characters: 10 });
    assert_eq!(
        count("one two  three\nfour\n\nfive six\n"),
        Counts { lines: 4, words: 6, characters: 22 }
    );
}

#[test]
fn last_line_needs_no_line_feed() {
    assert_eq!(count("a\nb").lines, 2);
    assert_eq!(count("a\nb\n").lines, 2);
    assert_eq!(count("\n").lines, 1);
    assert_eq!(count("\n\n\n").lines, 3);
    assert_eq!(count("\n\nx").lines, 3);
    assert_eq!(count(" ").lines, 1);
}

#[test]
fn words_are_runs_between_white_space() {
    assert_eq!(count("   ").words, 0);
    assert_eq!(count("  lead").words, 1);
    assert_eq!(count("trail  ").words, 1);
    assert_eq!(count("a\tb\nc\r\nd e").words, 5);
    assert_eq!(count("a\tb\nc\r\nd e").characters, 5);
}

#[test]
fn characters_are_counted_not_bytes() {
    assert_eq!(count("héllo wörld"), Counts { lines: 1, words: 2, characters: 10 });
    assert_eq!(count("日本語 テキスト\n"), Counts { lines: 1, words: 2, characters: 7 });
}

#[test]
fn count_agrees_with_the_standard_iterators() {
    let texts = [
        "",
        "\n",
        "a",
        "a\n",
        "a\nb",
        "a\r\nb\r\n",
        "\r",
        "x\r",
        "  \t leading and trailing \t\n",
        "one\u{a0}two\u{3000}three\u{2003}four",
        "tab\tseparated\tvalues\n\n\nend",
        "\u{85}next line\u{2028}separator\u{2029}",
        "zero\u{200b}width",
        "héllo wörld — ça va?\n",
    ];
    for text in texts {
        assert_eq!(count(text), expected(text), "text {:?}", text);
    }
}
