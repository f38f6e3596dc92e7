//! Character helpers, held against the standard library's own string methods.

use solaris_tty::text::{
    chars_eq, chars_of, is_whitespace, push_chars, push_str, skip_chars, split_char, split_once_char,
    split_whitespace, str_eq, string_from_chars, strip_prefix_chars, strip_suffix_chars, trim_chars,
};

fn chars(s: &str) -> Vec<char> {
    s.chars().collect()
}

fn text(v: &[char]) -> String {
    v.iter().collect()
}

const SAMPLES: [&str; 8] = ["", "  spawn  mass=1 ", "\tinspect\u{a0}Mars\n", "a,b,,c", "x=y=z", "au", "1.5au", "\u{3000}全角\u{2003}"];

#[test]
fn whitespace_matches_char_is_whitespace() {
    for c in ['\t', '\n', ' ', '\u{85}', '\u{a0}', '\u{1680}', '\u{2009}', '\u{3000}', 'a', '_', '\u{200b}', '\u{feff}'] {
        assert_eq!(is_whitespace(c), c.is_whitespace(), "{:?}", c);
    }
}

#[test]
fn trim_and_words_match_str() {
    for s in SAMPLES {
        assert_eq!(text(&trim_chars(&chars(s))), s.trim());
        let words: Vec<String> = split_whitespace(&chars(s)).iter().map(|w| text(w)).collect();
        let expected: Vec<String> = s.split_whitespace().map(String::from).collect();
        assert_eq!(words, expected, "{s:?}");
    }
}

#[test]
fn splits_match_str() {
    for s in SAMPLES {
        let parts: Vec<String> = split_char(&chars(s), ',').iter().map(|p| text(p)).collect();
        let expected: Vec<String> = s.split(',').map(String::from).collect();
        assert_eq!(parts, expected, "{s:?}");
        let once = split_once_char(&chars(s), '=').map(|(a, b)| (text(&a), text(&b)));
        assert_eq!(once, s.split_once('=').map(|(a, b)| (a.to_string(), b.to_string())));
    }
}

#[test]
fn prefixes_and_suffixes_match_str() {
    for s in SAMPLES {
        assert_eq!(strip_suffix_chars(&chars(s), "au").map(|v| text(&v)), s.strip_suffix("au").map(String::from));
        assert_eq!(strip_prefix_chars(&chars(s), "  ").map(|v| text(&v)), s.strip_prefix("  ").map(String::from));
    }
    assert_eq!(text(&skip_chars(&chars("scale realistic"), 6)), "realistic");
}

#[test]
fn building_and_comparing_strings() {
    assert_eq!(chars_of("☉ Sun"), vec!['☉', ' ', 'S', 'u', 'n']);
    assert_eq!(string_from_chars(&['a', 'é']), "aé");
    assert!(chars_eq(&['a', 'b'], &['a', 'b']));
    assert!(!chars_eq(&['a', 'b'], &['a']));
    assert!(str_eq("Earth", "Earth"));
    assert!(!str_eq("Earth", "earth"));
    let mut s = String::from("m = ");
    push_str(&mut s, "5.97e24");
    push_chars(&mut s, &[' ', 'k', 'g']);
    assert_eq!(s, "m = 5.97e24 kg");
}
