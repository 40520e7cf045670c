use voiceflow::text::{count_words, same_text, trim};

#[test]
fn same_text_compares_characters() {
    assert!(same_text("", ""));
    assert!(same_text("pt", "pt"));
    assert!(!same_text("pt", "pT"));
    assert!(!same_text("pt", "p"));
    assert!(!same_text("p", "pt"));
    assert!(!same_text("", "x"));
    assert!(same_text("né — então", "né — então"));
    assert!(!same_text("né", "ne"));
}

#[test]
fn trim_removes_whitespace_at_both_ends() {
    assert_eq!(trim("  hello world \n"), "hello world");
    assert_eq!(trim("hello"), "hello");
    assert_eq!(trim("\t\r\n x \t"), "x");
    assert_eq!(trim("a  b"), "a  b");
}

#[test]
fn trim_of_blank_text_is_empty() {
    assert_eq!(trim(""), "");
    assert_eq!(trim("   "), "");
    assert_eq!(trim("\n\t\r "), "");
}

#[test]
fn trim_agrees_with_std_on_unicode() {
    for text in [
        "\u{a0}caf\u{e9}\u{2003}",
        "\u{3000}日本語 テキスト\u{3000}",
        "\u{feff}bom is not whitespace",
        " né — então ",
        "x\u{85}",
        "\u{1680}\u{2028}\u{2029}\u{202f}\u{205f}",
    ] {
        assert_eq!(trim(text), text.trim());
    }
}

#[test]
fn count_words_counts_runs() {
    assert_eq!(count_words(""), 0);
    assert_eq!(count_words("   "), 0);
    assert_eq!(count_words("hello"), 1);
    assert_eq!(count_words("Hello, world!"), 2);
    assert_eq!(count_words("  a  b\tc\nd  "), 4);
    assert_eq!(count_words("one-two three"), 2);
}

#[test]
fn count_words_agrees_with_std_on_unicode() {
    for text in [
        "caf\u{e9}\u{a0}au\u{2003}lait",
        "日本語\u{3000}テキスト",
        "a\u{85}b\u{1680}c",
        "Fix the deploy — então commit",
    ] {
        assert_eq!(count_words(text), text.split_whitespace().count());
    }
}

#[test]
fn whitespace_is_the_unicode_property_for_every_character() {
    let listed = |c: char| {
        let code = c as u32;
        (0x0009..=0x000d).contains(&code)
            || code == 0x0020
            || code == 0x0085
            || code == 0x00a0
            || code == 0x1680
            || (0x2000..=0x200a).contains(&code)
            || code == 0x2028
            || code == 0x2029
            || code == 0x202f
            || code == 0x205f
            || code == 0x3000
    };
    let mut buffer = String::new();
    let mut found = 0;
    for code in 0..=0x10ffffu32 {
        let Some(c) = char::from_u32(code) else {
            continue;
        };
        buffer.clear();
        buffer.push(c);
        let blank = count_words(&buffer) == 0;
        assert_eq!(blank, listed(c));
        assert_eq!(blank, c.is_whitespace());
        assert_eq!(trim(&buffer).is_empty(), blank);
        if blank {
            found += 1;
        }
    }
    assert_eq!(found, 25);
}

#[test]
fn hello_world_has_two_words() {
    assert_eq!(count_words("hello world"), 2);
    assert_eq!(count_words("Hello, world!"), 2);
    assert_eq!(trim(" Hello, world!\n"), "Hello, world!");
}
