use syneroym::text::{
    chars_of, contains_text, equals_ignore_case, find, is_space, matches_at, same_text,
    split_first_word, split_lines, starts_with_ignore_case, string_of, take_before, to_lower,
    trimmed,
};

fn chars(s: &str) -> Vec<char> {
    s.chars().collect()
}

fn text(s: &[char]) -> String {
    s.iter().collect()
}

#[test]
fn white_space_is_what_the_standard_library_calls_so() {
    for code in 0u32..0x3100 {
        if let Some(c) = char::from_u32(code) {
            assert_eq!(is_space(c), c.is_whitespace(), "U+{:04X}", code);
        }
    }
    assert!(!is_space('\u{FEFF}'));
    assert!(!is_space('\u{200B}'));
    assert!(!is_space('\u{10FFFF}'));
}

#[test]
fn lower_case_of_ascii_letters_only() {
    for code in 0u32..0x250 {
        let c = char::from_u32(code).unwrap();
        assert_eq!(to_lower(c), c.to_ascii_lowercase());
    }
    assert_eq!(to_lower('A'), 'a');
    assert_eq!(to_lower('Z'), 'z');
    assert_eq!(to_lower('@'), '@');
    assert_eq!(to_lower('['), '[');
    assert_eq!(to_lower('\u{00C9}'), '\u{00C9}');
}

#[test]
fn chars_and_back() {
    for s in ["", "a", "h\u{00E9}llo \u{1F600} w\u{FFFD}rld", "\r\n\t"] {
        assert_eq!(chars_of(s), chars(s));
        assert_eq!(string_of(&chars(s)), s);
    }
}

#[test]
fn same_text_compares_strings() {
    assert!(same_text("", ""));
    assert!(same_text("offer", "offer"));
    assert!(same_text("\u{00E9}", "\u{00E9}"));
    assert!(!same_text("offer", "offe"));
    assert!(!same_text("offer", "Offer"));
    assert!(!same_text("offer", "offex"));
    assert!(!same_text("", " "));
}

#[test]
fn prefixes_and_equality_without_case() {
    assert!(starts_with_ignore_case(&chars("HoSt: x"), &chars("host:")));
    assert!(starts_with_ignore_case(&chars("host:"), &chars("host:")));
    assert!(starts_with_ignore_case(&chars("anything"), &chars("")));
    assert!(!starts_with_ignore_case(&chars("hos"), &chars("host:")));
    assert!(!starts_with_ignore_case(&chars("hostx x"), &chars("host:")));
    assert!(!starts_with_ignore_case(&chars("h\u{00F6}st:"), &chars("host:")));
    assert!(equals_ignore_case(&chars("WebSocket"), &chars("websocket")));
    assert!(!equals_ignore_case(&chars("websockets"), &chars("websocket")));
    assert!(!equals_ignore_case(&chars("websocke"), &chars("websocket")));
    assert!(equals_ignore_case(&chars(""), &chars("")));
    assert!(!equals_ignore_case(&chars("K"), &chars("\u{212A}")));
}

#[test]
fn first_index_and_what_stands_before() {
    assert_eq!(find(&chars("a:b:c"), ':'), 1);
    assert_eq!(find(&chars(":"), ':'), 0);
    assert_eq!(find(&chars("abc"), ':'), 3);
    assert_eq!(find(&chars(""), ':'), 0);
    assert_eq!(text(take_before(&chars("host:80:1"), ':')), "host");
    assert_eq!(text(take_before(&chars("host"), ':')), "host");
    assert_eq!(text(take_before(&chars(":80"), ':')), "");
}

#[test]
fn trimming() {
    for s in ["", " ", "a", "  a b  ", "\t\r\n x \u{00A0}\u{3000}", "\u{2003}", "x\u{200B} "] {
        assert_eq!(text(trimmed(&chars(s))), s.trim(), "{:?}", s);
    }
}

#[test]
fn first_word_and_rest() {
    let line = chars("  GET   /path HTTP/1.1 ");
    let (word, rest) = split_first_word(&line);
    assert_eq!(text(word), "GET");
    assert_eq!(text(rest), "   /path HTTP/1.1 ");
    let (second, rest) = split_first_word(rest);
    assert_eq!(text(second), "/path");
    assert_eq!(text(rest), " HTTP/1.1 ");
    let blank = chars(" \t ");
    let (none, rest) = split_first_word(&blank);
    assert_eq!(text(none), "");
    assert_eq!(text(rest), "");
    let empty = chars("");
    assert_eq!(split_first_word(&empty).0.len(), 0);
}

#[test]
fn words_agree_with_the_standard_library() {
    for s in ["a b c", "  lead", "trail  ", "\u{00A0}x\u{2003}y", "", "one"] {
        let all = chars(s);
        let mut rest: &[char] = &all;
        let mut words: Vec<String> = Vec::new();
        loop {
            let (word, after) = split_first_word(rest);
            if word.is_empty() {
                break;
            }
            words.push(text(word));
            rest = after;
        }
        let expected: Vec<String> = s.split_whitespace().map(|w| w.to_string()).collect();
        assert_eq!(words, expected);
    }
}

#[test]
fn lines_agree_with_the_standard_library() {
    for s in [
        "",
        "\n",
        "a",
        "a\n",
        "a\r\n",
        "a\r",
        "a\nb",
        "a\r\nb\r\n",
        "a\n\nb",
        "\r\n\r\n",
        "a\r\r\nb",
        "\ra\n\rb\r",
        "GET / HTTP/1.1\r\nHost: x.y\r\n\r\nbody\n",
    ] {
        let all = chars(s);
        let found: Vec<String> = split_lines(&all).iter().map(|l| text(l)).collect();
        let expected: Vec<String> = s.lines().map(|l| l.to_string()).collect();
        assert_eq!(found, expected, "{:?}", s);
    }
}

#[test]
fn lines_of_a_request() {
    let all = chars("GET / HTTP/1.1\r\nHost: x.y\r\n\r\nlast\r");
    let found: Vec<String> = split_lines(&all).iter().map(|l| text(l)).collect();
    assert_eq!(found, vec!["GET / HTTP/1.1", "Host: x.y", "", "last\r"]);
}

#[test]
fn text_inside_text() {
    assert!(contains_text(&chars("ws://localhost:8000/ws"), &chars("localhost")));
    assert!(contains_text(&chars("localhost"), &chars("localhost")));
    assert!(contains_text(&chars("xx127.0.0.1"), &chars("127.0.0.1")));
    assert!(contains_text(&chars("abc"), &chars("")));
    assert!(contains_text(&chars(""), &chars("")));
    assert!(!contains_text(&chars("localhos"), &chars("localhost")));
    assert!(!contains_text(&chars("local host"), &chars("localhost")));
    assert!(!contains_text(&chars(""), &chars("a")));
    assert!(matches_at(&chars("abcabc"), &chars("cab"), 2));
    assert!(!matches_at(&chars("abcabc"), &chars("cab"), 3));
    assert!(matches_at(&chars("abc"), &chars(""), 3));
    assert!(!matches_at(&chars("abc"), &chars(""), 4));
    assert!(!matches_at(&chars("abc"), &chars("bcd"), 1));
    assert!(!matches_at(&chars("abc"), &chars("c"), usize::MAX));
}
