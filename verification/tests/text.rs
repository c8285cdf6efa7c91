use mcp_server_digitalocean::text::{is_blank, replace, same_text, trim};

#[test]
fn trim_removes_surrounding_whitespace() {
    assert_eq!(trim("  droplets, apps  "), "droplets, apps");
    assert_eq!(trim("\t\n abc\r\n"), "abc");
    assert_eq!(trim("abc"), "abc");
}

#[test]
fn trim_keeps_inner_whitespace() {
    assert_eq!(trim(" a  b\tc "), "a  b\tc");
}

#[test]
fn trim_of_blank_text_is_empty() {
    assert_eq!(trim(""), "");
    assert_eq!(trim("   "), "");
    assert_eq!(trim(" \t\r\n"), "");
}

#[test]
fn trim_knows_whitespace_beyond_ascii() {
    assert_eq!(trim("\u{3000}token\u{00a0}"), "token");
    assert_eq!(trim("\u{2003}\u{2028}"), "");
}

#[test]
fn trim_counts_characters_not_bytes() {
    assert_eq!(trim(" héllo wörld "), "héllo wörld");
    assert_eq!(trim("\u{3000}日本語\u{3000}"), "日本語");
}

#[test]
fn trim_agrees_with_std() {
    let samples = [
        "", " ", "a", " a", "a ", " a ", "  a b  ", "\n\n", "x\ny", "\u{0085}x\u{1680}",
        "\u{200b}x", "_ _",
    ];
    for sample in samples {
        assert_eq!(trim(sample), sample.trim());
    }
}

#[test]
fn blank_texts() {
    assert!(is_blank(""));
    assert!(is_blank(" "));
    assert!(is_blank("\t \n"));
    assert!(is_blank("\u{3000}"));
    assert!(!is_blank("a"));
    assert!(!is_blank("  a  "));
    assert!(!is_blank("\u{200b}"));
}

#[test]
fn replace_every_occurrence() {
    assert_eq!(replace("a-b-c", "-", "+"), "a+b+c");
    assert_eq!(replace("xx", "x", "yy"), "yyyy");
    assert_eq!(replace("abab", "ab", "c"), "cc");
}

#[test]
fn replace_without_occurrence_copies() {
    assert_eq!(replace("abc", "d", "e"), "abc");
    assert_eq!(replace("", "d", "e"), "");
    assert_eq!(replace("ab", "abc", "e"), "ab");
}

#[test]
fn replace_takes_occurrences_from_the_left() {
    assert_eq!(replace("aaa", "aa", "b"), "ba");
    assert_eq!(replace("aaaa", "aa", "b"), "bb");
    assert_eq!(replace("ababa", "aba", "x"), "xba");
}

#[test]
fn replace_at_both_ends() {
    assert_eq!(replace("abXab", "ab", ""), "X");
    assert_eq!(replace("ab", "ab", "longer"), "longer");
}

#[test]
fn replace_puts_the_text_around_every_character_for_an_empty_pattern() {
    assert_eq!(replace("abc", "", "-"), "-a-b-c-");
    assert_eq!(replace("", "", "x"), "x");
    assert_eq!(replace("é", "", "<>"), "<>é<>");
    assert_eq!(replace("ab", "", ""), "ab");
}

#[test]
fn replace_counts_characters_not_bytes() {
    assert_eq!(replace("héllo wörld", "ö", "o"), "héllo world");
    assert_eq!(replace("日本語", "本", "-"), "日-語");
}

#[test]
fn replace_agrees_with_std() {
    let texts = ["", "a", "aa", "aaa", "abcabc", "\"X\" and \"X\"", "xyz", "wörld"];
    let patterns = ["", "a", "aa", "abc", "\"X\"", "z", "ö"];
    for text in texts {
        for pattern in patterns {
            assert_eq!(replace(text, pattern, "<>"), text.replace(pattern, "<>"));
            assert_eq!(replace(text, pattern, ""), text.replace(pattern, ""));
        }
    }
}

#[test]
fn same_text_compares_characters() {
    assert!(same_text("", ""));
    assert!(same_text("latest", "latest"));
    assert!(!same_text("latest", "lates"));
    assert!(!same_text("latest", "latesT"));
    assert!(!same_text("a", ""));
    assert!(same_text("wörld", "wörld"));
}

fn listed_as_whitespace(c: char) -> bool {
    matches!(
        u32::from(c),
        0x09..=0x0D
            | 0x20
            | 0x85
            | 0xA0
            | 0x1680
            | 0x2000..=0x200A
            | 0x2028
            | 0x2029
            | 0x202F
            | 0x205F
            | 0x3000
    )
}

#[test]
fn whitespace_is_what_the_list_says_for_every_character() {
    let mut text = String::new();
    for code in 0..=0x10FFFF_u32 {
        if let Some(c) = char::from_u32(code) {
            text.clear();
            text.push(c);
            assert_eq!(is_blank(&text), listed_as_whitespace(c), "U+{:04X}", code);
            assert_eq!(c.is_whitespace(), listed_as_whitespace(c), "U+{:04X}", code);
        }
    }
}
