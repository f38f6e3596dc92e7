//! Command-line arguments and the recorder's text encoding.

use solaris_tty::cli::{arg_value, json_escape, mode_from_args, parse_usize, record_frames, Mode};

fn args(v: &[&str]) -> Vec<String> {
    v.iter().map(|s| s.to_string()).collect()
}

fn chars(s: &str) -> Vec<char> {
    s.chars().collect()
}

#[test]
fn modes_by_precedence() {
    assert!(matches!(mode_from_args(&args(&["solaris-tty", "--bench", "--check"])), Mode::Check));
    assert!(matches!(mode_from_args(&args(&["solaris-tty", "--frame", "--bench"])), Mode::Bench));
    assert!(matches!(mode_from_args(&args(&["solaris-tty", "--frame"])), Mode::Frame));
    match mode_from_args(&args(&["solaris-tty", "--record", "demo.cast", "300"])) {
        Mode::Record(path) => assert_eq!(path, "demo.cast"),
        _ => panic!("record mode"),
    }
    match mode_from_args(&args(&["solaris-tty", "--record"])) {
        Mode::Record(path) => assert_eq!(path, "solaris.cast"),
        _ => panic!("record mode"),
    }
}

#[test]
fn run_mode_picks_the_scenario() {
    match mode_from_args(&args(&["solaris-tty", "run", "jupiter"])) {
        Mode::Run { scenario, screensaver } => {
            assert_eq!(scenario, "jupiter");
            assert!(!screensaver);
        },
        _ => panic!("run mode"),
    }
    match mode_from_args(&args(&["solaris-tty", "--screensaver"])) {
        Mode::Run { scenario, screensaver } => {
            assert_eq!(scenario, "solar");
            assert!(screensaver);
        },
        _ => panic!("run mode"),
    }
}

#[test]
fn usize_parsing_follows_str_parse() {
    for text in ["0", "42", "+7", "007", "18446744073709551615", "", "+", "-1", "1e3", "4 2", "18446744073709551616"] {
        assert_eq!(parse_usize(&chars(text)), text.parse::<usize>().ok(), "{text:?}");
    }
}

#[test]
fn record_frames_clamps_the_first_number() {
    assert_eq!(record_frames(&args(&["x", "--record", "a.cast", "500"])), 500);
    assert_eq!(record_frames(&args(&["x", "--record", "a.cast", "5000"])), 1200);
    assert_eq!(record_frames(&args(&["x", "--record", "0"])), 1);
    assert_eq!(record_frames(&args(&["x", "--record"])), 300);
}

#[test]
fn arg_value_takes_the_first_prefixed_argument() {
    let a = args(&["x", "--record", "scene=trojans", "scene=solar"]);
    assert_eq!(arg_value(&a, "scene="), Some("trojans".to_string()));
    assert_eq!(arg_value(&a, "fill="), None);
    assert_eq!(arg_value(&args(&["scene="]), "scene="), Some(String::new()));
}

#[test]
fn json_escape_writes_json_string_contents() {
    assert_eq!(json_escape("plain ☉ text"), "plain ☉ text");
    assert_eq!(json_escape("a\"b\\c"), "a\\\"b\\\\c");
    assert_eq!(json_escape("\n\r\t"), "\\n\\r\\t");
    assert_eq!(json_escape("\u{1b}[0m"), "\\u001b[0m");
    assert_eq!(json_escape("\u{0}\u{1f}"), "\\u0000\\u001f");
}

#[test]
fn json_escape_reads_back() {
    // Undo the escapes the way a JSON reader does and get the input again.
    fn unescape(s: &str) -> String {
        let mut out = String::new();
        let mut it = s.chars();
        while let Some(c) = it.next() {
            if c != '\\' {
                out.push(c);
                continue;
            }
            match it.next().unwrap() {
                'n' => out.push('\n'),
                'r' => out.push('\r'),
                't' => out.push('\t'),
                'u' => {
                    let hex: String = it.by_ref().take(4).collect();
                    out.push(char::from_u32(u32::from_str_radix(&hex, 16).unwrap()).unwrap());
                },
                other => out.push(other),
            }
        }
        out
    }
    for s in ["", "plain", "a\"b\\c", "\u{1b}[2J\u{1b}[?25l", "line\nbreak\ttab\r", "☉ \u{7f} \u{0}"] {
        assert_eq!(unescape(&json_escape(s)), s);
    }
}
