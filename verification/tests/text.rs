use subtitle_extractor::text::{
    chars_of, concat3, contains, matches_at, split_lines, to_lower,
};

fn chars(text: &str) -> Vec<char> {
    text.chars().collect()
}

#[test]
fn chars_of_gives_the_characters() {
    assert_eq!(chars_of(""), Vec::<char>::new());
    assert_eq!(chars_of("a/b"), vec!['a', '/', 'b']);
    assert_eq!(chars_of("é✓"), vec!['é', '✓']);
}

#[test]
fn matches_at_compares_a_window() {
    let hay = chars("S_TEXT/ASS");
    assert!(matches_at(&hay, &chars("S_TEXT"), 0));
    assert!(matches_at(&hay, &chars("ASS"), 7));
    assert!(!matches_at(&hay, &chars("ASS"), 6));
    assert!(matches_at(&hay, &chars(""), 10));
    assert!(!matches_at(&hay, &chars(""), 11));
    assert!(!matches_at(&hay, &chars("ASS"), 8));
    assert!(!matches_at(&hay, &chars("S"), usize::MAX));
}

#[test]
fn contains_finds_a_piece_anywhere() {
    let hay = chars("|  + Codec ID: S_TEXT/UTF8");
    assert!(contains(&hay, &chars("S_TEXT/UTF8")));
    assert!(contains(&hay, &chars("|")));
    assert!(contains(&hay, &chars("8")));
    assert!(contains(&hay, &chars("")));
    assert!(!contains(&hay, &chars("S_TEXT/ASS")));
    assert!(!contains(&hay, &chars("S_TEXT/UTF88")));
    assert!(!contains(&chars("ab"), &chars("abc")));
    assert!(contains(&chars(""), &chars("")));
    assert!(contains(&chars("aab"), &chars("ab")));
}

#[test]
fn to_lower_changes_capital_letters_only() {
    assert_eq!(to_lower('A'), 'a');
    assert_eq!(to_lower('Z'), 'z');
    assert_eq!(to_lower('m'), 'm');
    assert_eq!(to_lower('.'), '.');
    assert_eq!(to_lower('@'), '@');
    assert_eq!(to_lower('['), '[');
    assert_eq!(to_lower('É'), 'É');
    assert_eq!(to_lower('\u{212A}'), '\u{212A}');
}

#[test]
fn split_lines_cuts_at_line_feeds() {
    assert_eq!(split_lines(""), vec![""]);
    assert_eq!(split_lines("one"), vec!["one"]);
    assert_eq!(split_lines("one\ntwo"), vec!["one", "two"]);
    assert_eq!(split_lines("one\n"), vec!["one", ""]);
    assert_eq!(split_lines("\n"), vec!["", ""]);
    assert_eq!(split_lines("\n\nx"), vec!["", "", "x"]);
    assert_eq!(split_lines("a\r\nb"), vec!["a\r", "b"]);
    assert_eq!(split_lines("é\n✓✓\nz"), vec!["é", "✓✓", "z"]);
}

#[test]
fn split_lines_joins_back() {
    for text in ["", "a", "a\nb\n", "\n\n", "x\ny\n\nz"] {
        assert_eq!(split_lines(text).join("\n"), text);
        assert_eq!(split_lines(text), text.split('\n').collect::<Vec<_>>());
    }
}

#[test]
fn concat3_puts_three_texts_together() {
    assert_eq!(concat3("a", "b", "c"), "abc");
    assert_eq!(concat3("", "", ""), "");
    assert_eq!(concat3("file '", "x.mkv", "'"), "file 'x.mkv'");
}
