use public_trading::text::{join3 as join_three, same_text, split_words};

fn std_words(text: &str) -> Vec<String> {
    text.split_whitespace().map(|word| word.to_string()).collect()
}

#[test]
fn same_text_compares_characters() {
    assert!(same_text("", ""));
    assert!(same_text("BROKERAGE", "BROKERAGE"));
    assert!(!same_text("BROKERAGE", "BROKERAGe"));
    assert!(!same_text("BROKERAGE", "BROKERAG"));
    assert!(!same_text("a", ""));
    assert!(same_text("\u{20ac}1", "\u{20ac}1"));
    assert!(!same_text("\u{20ac}1", "\u{20ad}1"));
}

#[test]
fn split_words_on_plain_text() {
    assert_eq!(split_words("QCOM $138 Put Feb 20, '26"), vec!["QCOM", "$138", "Put", "Feb", "20,", "'26"]);
    assert_eq!(split_words("one"), vec!["one"]);
    assert_eq!(split_words(""), Vec::<String>::new());
}

#[test]
fn split_words_drops_runs_of_separators() {
    assert_eq!(split_words("  a  b "), vec!["a", "b"]);
    assert_eq!(split_words(" \t\r\n"), Vec::<String>::new());
    assert_eq!(split_words("a\tb\nc\r\nd"), vec!["a", "b", "c", "d"]);
    assert_eq!(split_words("x "), vec!["x"]);
    assert_eq!(split_words(" x"), vec!["x"]);
}

#[test]
fn split_words_knows_wide_separators() {
    assert_eq!(split_words("a\u{a0}b\u{2003}c\u{3000}d"), vec!["a", "b", "c", "d"]);
    assert_eq!(split_words("\u{20ac}1\u{2028}\u{e9}t\u{e9}"), vec!["\u{20ac}1", "\u{e9}t\u{e9}"]);
    // a zero-width space is no separator
    assert_eq!(split_words("a\u{200b}b"), vec!["a\u{200b}b"]);
}

#[test]
fn split_words_agrees_with_std() {
    let samples = [
        "",
        " ",
        "a",
        " a",
        "a ",
        "a b",
        "  lead and trail  ",
        "tabs\tand\nlines\r\n",
        "\u{85}next\u{1680}line",
        "AAPL $172.50 Call Jan 3, '27",
        "\u{feff}bom \u{200a}hair",
    ];
    for sample in samples {
        assert_eq!(split_words(sample), std_words(sample));
    }
}

#[test]
fn join_three_parts() {
    assert_eq!(join_three("/a/", "id", "/b"), "/a/id/b");
    assert_eq!(join_three("", "", ""), "");
}
