//! The command line: which mode to run, and the text helpers the headless
//! modes need (argument values, decimal numbers, JSON string escaping).

use vstd::prelude::*;

use crate::text::{chars_of, chars_eq, push_chars, string_from_chars, skip_chars, str_eq};

verus! {

/// What the program was asked to do.
pub enum Mode {
    /// Headless load, orbit classification and energy check.
    Check,
    /// Headless N-body throughput benchmark.
    Bench,
    /// Render one frame to a plain-text grid.
    Frame,
    /// Record an asciinema cast to this path.
    Record(String),
    /// The interactive simulator on a bundled scenario.
    Run { scenario: String, screensaver: bool },
}

/// A mode as the contracts see it.
pub enum ModeView {
    Check,
    Bench,
    Frame,
    Record(Seq<char>),
    Run { scenario: Seq<char>, screensaver: bool },
}

impl View for Mode {
    type V = ModeView;

    open spec fn view(&self) -> ModeView {
        match self {
            Mode::Check => ModeView::Check,
            Mode::Bench => ModeView::Bench,
            Mode::Frame => ModeView::Frame,
            Mode::Record(p) => ModeView::Record(p@),
            Mode::Run { scenario, screensaver } => ModeView::Run {
                scenario: scenario@,
                screensaver: *screensaver,
            },
        }
    }
}

/// Position of the first argument equal to `flag`.
pub open spec fn arg_pos(args: Seq<Seq<char>>, flag: Seq<char>) -> Option<nat>
    decreases args.len(),
{
    if args.len() == 0 {
        None
    } else if args[0] == flag {
        Some(0)
    } else {
        match arg_pos(args.drop_first(), flag) {
            Some(i) => Some(i + 1),
            None => None,
        }
    }
}

/// The mode the arguments (program name first) ask for: `--check`,
/// `--bench`, `--frame` and `--record [path]` in that order of precedence;
/// otherwise the interactive simulator on `run <scenario>` (default
/// `solar`), with `--screensaver` starting the screensaver.
pub open spec fn spec_mode(args: Seq<Seq<char>>) -> ModeView {
    if arg_pos(args, "--check"@) is Some {
        ModeView::Check
    } else if arg_pos(args, "--bench"@) is Some {
        ModeView::Bench
    } else if arg_pos(args, "--frame"@) is Some {
        ModeView::Frame
    } else if arg_pos(args, "--record"@) is Some {
        let p = arg_pos(args, "--record"@).unwrap();
        ModeView::Record(
            if p < args.len() - 1 {
                args[p as int + 1]
            } else {
                "solaris.cast"@
            },
        )
    } else {
        ModeView::Run {
            scenario: if args.len() > 1 && args[1] == "run"@ && args.len() > 2 {
                args[2]
            } else {
                "solar"@
            },
            screensaver: arg_pos(args, "--screensaver"@) is Some,
        }
    }
}

proof fn lemma_arg_pos_bound(args: Seq<Seq<char>>, flag: Seq<char>)
    ensures
        arg_pos(args, flag) matches Some(i) ==> i < args.len() && args[i as int] == flag,
    decreases args.len(),
{
    if args.len() > 0 && args[0] != flag {
        lemma_arg_pos_bound(args.drop_first(), flag);
    }
}

fn find_arg(args: &Vec<String>, flag: &str) -> (r: Option<usize>)
    ensures
        r matches Some(i) ==> arg_pos(args@.map_values(|a: String| a@), flag@) == Some(i as nat),
        r is None ==> arg_pos(args@.map_values(|a: String| a@), flag@) is None,
{
    let ghost all = args@.map_values(|a: String| a@);
    let mut i: usize = 0;
    assert(all.skip(0) =~= all);
    while i < args.len()
        invariant
            i <= args@.len(),
            all == args@.map_values(|a: String| a@),
            arg_pos(all, flag@) == match arg_pos(all.skip(i as int), flag@) {
                Some(k) => Some((k + i) as nat),
                None => None::<nat>,
            },
        decreases args@.len() - i,
    {
        assert(all.skip(i as int)[0] == args@[i as int]@);
        assert(all.skip(i as int).drop_first() =~= all.skip(i + 1));
        if str_eq(args[i].as_str(), flag) {
            return Some(i);
        }
        i += 1;
    }
    None
}

/// The mode the arguments (program name first) ask for.
pub fn mode_from_args(args: &Vec<String>) -> (m: Mode)
    ensures
        m@ == spec_mode(args@.map_values(|a: String| a@)),
{
    let ghost all = args@.map_values(|a: String| a@);
    if find_arg(args, "--check").is_some() {
        return Mode::Check;
    }
    if find_arg(args, "--bench").is_some() {
        return Mode::Bench;
    }
    if find_arg(args, "--frame").is_some() {
        return Mode::Frame;
    }
    if let Some(p) = find_arg(args, "--record") {
        proof {
            lemma_arg_pos_bound(all, "--record"@);
            assert(all.len() == args@.len());
            assert(p < args@.len());
        }
        if p < args.len() - 1 {
            return Mode::Record(args[p + 1].clone());
        } else {
            return Mode::Record("solaris.cast".to_owned());
        }
    }
    let scenario = if args.len() > 2 && str_eq(args[1].as_str(), "run") {
        args[2].clone()
    } else {
        "solar".to_owned()
    };
    let screensaver = find_arg(args, "--screensaver").is_some();
    Mode::Run { scenario, screensaver }
}

/// Whether every character of `s` is an ASCII decimal digit.
pub open spec fn all_digits(s: Seq<char>) -> bool {
    forall|i: int| 0 <= i < s.len() ==> '0' <= #[trigger] s[i] <= '9'
}

/// The number the decimal digits `s` write.
pub open spec fn digits_value(s: Seq<char>) -> nat
    decreases s.len(),
{
    if s.len() == 0 {
        0
    } else {
        digits_value(s.drop_last()) * 10 + ((s.last() as u32) - ('0' as u32)) as nat
    }
}

/// `str::parse::<usize>`: an optional `+`, then one or more decimal digits
/// whose value fits in a `usize`.
pub open spec fn spec_parse_usize(s: Seq<char>) -> Option<usize> {
    let digits = if s.len() > 0 && s[0] == '+' {
        s.drop_first()
    } else {
        s
    };
    if digits.len() == 0 || !all_digits(digits) || digits_value(digits) > usize::MAX {
        None
    } else {
        Some(digits_value(digits) as usize)
    }
}

proof fn lemma_digits_value_grows(s: Seq<char>, k: int)
    requires
        0 <= k <= s.len(),
    ensures
        digits_value(s.take(k)) <= digits_value(s),
    decreases s.len(),
{
    if k < s.len() {
        assert(s.drop_last().take(k) =~= s.take(k));
        lemma_digits_value_grows(s.drop_last(), k);
    } else {
        assert(s.take(k) =~= s);
    }
}

/// Reads a decimal `usize` the way `str::parse` does.
pub fn parse_usize(s: &[char]) -> (r: Option<usize>)
    ensures
        r == spec_parse_usize(s@),
{
    let start: usize = if s.len() > 0 && s[0] == '+' {
        1
    } else {
        0
    };
    let ghost digits = s@.skip(start as int);
    assert(start == 1 ==> digits =~= s@.drop_first());
    assert(start == 0 ==> digits =~= s@);
    if start == s.len() {
        return None;
    }
    let mut acc: usize = 0;
    let mut i: usize = start;
    while i < s.len()
        invariant
            start <= i <= s@.len(),
            start < s@.len(),
            digits == s@.skip(start as int),
            digits == (if s@.len() > 0 && s@[0] == '+' {
                s@.drop_first()
            } else {
                s@
            }),
            all_digits(digits.take(i - start)),
            acc as nat == digits_value(digits.take(i - start)),
        decreases s@.len() - i,
    {
        let c = s[i];
        let ghost prefix = digits.take(i - start + 1);
        assert(prefix.drop_last() =~= digits.take(i - start));
        assert(prefix.last() == c);
        if c < '0' || c > '9' {
            assert(!all_digits(digits)) by {
                assert(digits[i - start] == c);
            }
            return None;
        }
        let d = (c as u32 - '0' as u32) as usize;
        match acc.checked_mul(10) {
            Some(m) => match m.checked_add(d) {
                Some(v) => {
                    acc = v;
                },
                None => {
                    proof {
                        lemma_digits_value_grows(digits, i - start + 1);
                    }
                    return None;
                },
            },
            None => {
                proof {
                    lemma_digits_value_grows(digits, i - start + 1);
                }
                return None;
            },
        }
        i += 1;
        assert(all_digits(digits.take(i - start)));
    }
    assert(digits.take(i - start) =~= digits);
    Some(acc)
}

/// Frames `--record` renders: the first argument that reads as a number,
/// kept within 1..=1200; 300 when none does.
pub open spec fn spec_record_frames(args: Seq<Seq<char>>) -> usize
    decreases args.len(),
{
    if args.len() == 0 {
        300
    } else {
        match spec_parse_usize(args[0]) {
            Some(n) => if n < 1 {
                1
            } else if n > 1200 {
                1200
            } else {
                n
            },
            None => spec_record_frames(args.drop_first()),
        }
    }
}

/// Frames `--record` renders.
pub fn record_frames(args: &Vec<String>) -> (n: usize)
    ensures
        n == spec_record_frames(args@.map_values(|a: String| a@)),
{
    let ghost all = args@.map_values(|a: String| a@);
    let mut i: usize = 0;
    assert(all.skip(0) =~= all);
    while i < args.len()
        invariant
            i <= args@.len(),
            all == args@.map_values(|a: String| a@),
            spec_record_frames(all) == spec_record_frames(all.skip(i as int)),
        decreases args@.len() - i,
    {
        assert(all.skip(i as int)[0] == args@[i as int]@);
        assert(all.skip(i as int).drop_first() =~= all.skip(i + 1));
        let chars = chars_of(args[i].as_str());
        if let Some(n) = parse_usize(chars.as_slice()) {
            return if n < 1 {
                1
            } else if n > 1200 {
                1200
            } else {
                n
            };
        }
        i += 1;
    }
    300
}

/// The rest of the first argument that starts with `prefix` (as in
/// `scene=trojans`), if any.
pub open spec fn spec_arg_value(args: Seq<Seq<char>>, prefix: Seq<char>) -> Option<Seq<char>>
    decreases args.len(),
{
    if args.len() == 0 {
        None
    } else {
        match crate::text::strip_prefix(args[0], prefix) {
            Some(v) => Some(v),
            None => spec_arg_value(args.drop_first(), prefix),
        }
    }
}

/// The rest of the first argument that starts with `prefix`, if any.
pub fn arg_value(args: &Vec<String>, prefix: &str) -> (r: Option<String>)
    ensures
        r is Some <==> spec_arg_value(args@.map_values(|a: String| a@), prefix@) is Some,
        r matches Some(v) ==> spec_arg_value(args@.map_values(|a: String| a@), prefix@) == Some(v@),
{
    let ghost all = args@.map_values(|a: String| a@);
    let mut i: usize = 0;
    assert(all.skip(0) =~= all);
    while i < args.len()
        invariant
            i <= args@.len(),
            all == args@.map_values(|a: String| a@),
            spec_arg_value(all, prefix@) == spec_arg_value(all.skip(i as int), prefix@),
        decreases args@.len() - i,
    {
        assert(all.skip(i as int)[0] == args@[i as int]@);
        assert(all.skip(i as int).drop_first() =~= all.skip(i + 1));
        let chars = chars_of(args[i].as_str());
        if let Some(v) = crate::text::strip_prefix_chars(chars.as_slice(), prefix) {
            return Some(string_from_chars(v.as_slice()));
        }
        i += 1;
    }
    None
}

/// A lower-case hexadecimal digit.
pub open spec fn hex_digit(d: u32) -> char {
    if d < 10 {
        (('0' as u32) + d) as char
    } else {
        (('a' as u32) + d - 10) as char
    }
}

fn hex_digit_exec(d: u32) -> (c: char)
    requires
        d < 16,
    ensures
        c == hex_digit(d),
{
    match d {
        0 => '0',
        1 => '1',
        2 => '2',
        3 => '3',
        4 => '4',
        5 => '5',
        6 => '6',
        7 => '7',
        8 => '8',
        9 => '9',
        10 => 'a',
        11 => 'b',
        12 => 'c',
        13 => 'd',
        14 => 'e',
        _ => 'f',
    }
}

/// How one character is written inside a JSON string: quotes, backslashes
/// and the common control characters get their short escapes, other
/// control characters `\u00XX`, everything else is kept as it is.
pub open spec fn json_escape_char(c: char) -> Seq<char> {
    if c == '"' {
        seq!['\\', '"']
    } else if c == '\\' {
        seq!['\\', '\\']
    } else if c == '\n' {
        seq!['\\', 'n']
    } else if c == '\r' {
        seq!['\\', 'r']
    } else if c == '\t' {
        seq!['\\', 't']
    } else if (c as u32) < 0x20 {
        seq!['\\', 'u', '0', '0', hex_digit((c as u32) / 16), hex_digit((c as u32) % 16)]
    } else {
        seq![c]
    }
}

/// `s` written as the inside of a JSON string.
pub open spec fn spec_json_escape(s: Seq<char>) -> Seq<char>
    decreases s.len(),
{
    if s.len() == 0 {
        Seq::empty()
    } else {
        spec_json_escape(s.drop_last()) + json_escape_char(s.last())
    }
}

/// Escapes `s` for use inside a JSON string.
pub fn json_escape(s: &str) -> (o: String)
    ensures
        o@ == spec_json_escape(s@),
{
    let chars = chars_of(s);
    let mut o = String::new();
    let mut i: usize = 0;
    while i < chars.len()
        invariant
            i <= chars@.len(),
            chars@ == s@,
            o@ == spec_json_escape(chars@.take(i as int)),
        decreases chars@.len() - i,
    {
        let c = crate::text::char_at(&chars, i);
        let ghost before = o@;
        if c == '"' {
            push_chars(&mut o, &['\\', '"']);
        } else if c == '\\' {
            push_chars(&mut o, &['\\', '\\']);
        } else if c == '\n' {
            push_chars(&mut o, &['\\', 'n']);
        } else if c == '\r' {
            push_chars(&mut o, &['\\', 'r']);
        } else if c == '\t' {
            push_chars(&mut o, &['\\', 't']);
        } else if (c as u32) < 0x20 {
            let u = c as u32;
            let hi = hex_digit_exec(u / 16);
            let lo = hex_digit_exec(u % 16);
            push_chars(&mut o, &['\\', 'u', '0', '0', hi, lo]);
        } else {
            push_chars(&mut o, &[c]);
        }
        proof {
            assert(chars@.take(i + 1).drop_last() =~= chars@.take(i as int));
            assert(chars@.take(i + 1).last() == c);
            assert(o@ =~= before + json_escape_char(c));
        }
        i += 1;
    }
    assert(chars@.take(i as int) =~= chars@);
    o
}

/// Escaped text holds no raw control character, so it is a valid JSON
/// string body.
pub proof fn lemma_json_escape_no_control(s: Seq<char>)
    ensures
        forall|i: int| 0 <= i < spec_json_escape(s).len() ==> (#[trigger] spec_json_escape(s)[i] as u32) >= 0x20,
    decreases s.len(),
{
    if s.len() > 0 {
        lemma_json_escape_no_control(s.drop_last());
        let pre = spec_json_escape(s.drop_last());
        let tail = json_escape_char(s.last());
        assert forall|i: int| 0 <= i < tail.len() implies (#[trigger] tail[i] as u32) >= 0x20 by {
            let u = s.last() as u32;
            if u < 0x20 && s.last() != '"' && s.last() != '\\' && s.last() != '\n' && s.last() != '\r'
                && s.last() != '\t' {
                assert(u / 16 < 16 && u % 16 < 16);
            }
        }
        assert forall|i: int| 0 <= i < spec_json_escape(s).len() implies (
        #[trigger] spec_json_escape(s)[i] as u32) >= 0x20 by {
            if i < pre.len() {
                assert(spec_json_escape(s)[i] == pre[i]);
            } else {
                assert(spec_json_escape(s)[i] == tail[i - pre.len()]);
            }
        }
    }
}

/// Text with no quote, backslash or control character is kept as it is.
pub proof fn lemma_json_escape_plain(s: Seq<char>)
    requires
        forall|i: int|
            0 <= i < s.len() ==> (#[trigger] s[i] as u32) >= 0x20 && s[i] != '"' && s[i] != '\\',
    ensures
        spec_json_escape(s) == s,
    decreases s.len(),
{
    if s.len() > 0 {
        lemma_json_escape_plain(s.drop_last());
        assert(s.drop_last().push(s.last()) =~= s);
    }
}

/// The value of a hexadecimal digit (either case).
pub open spec fn hex_value(c: char) -> Option<int> {
    let u = c as u32;
    if '0' as u32 <= u <= '9' as u32 {
        Some(u - '0' as u32)
    } else if 'a' as u32 <= u <= 'f' as u32 {
        Some(u - 'a' as u32 + 10)
    } else if 'A' as u32 <= u <= 'F' as u32 {
        Some(u - 'A' as u32 + 10)
    } else {
        None
    }
}

/// `c` in front of a read text, if the text was read.
pub open spec fn prepend(c: char, o: Option<Seq<char>>) -> Option<Seq<char>> {
    match o {
        Some(t) => Some(seq![c] + t),
        None => None,
    }
}

/// Reads the inside of a JSON string: the escapes `\"`, `\\`, `\/`,
/// `\b`, `\f`, `\n`, `\r`, `\t` and `\uXXXX` (of a code point that is
/// not a surrogate half), and any other character but a quote or a control
/// character as itself; `None` where the text is not such a string.
/// (Surrogate pairs written as two `\u` escapes are not read here.)
pub open spec fn json_unescape(s: Seq<char>) -> Option<Seq<char>>
    decreases s.len(),
{
    if s.len() == 0 {
        Some(Seq::empty())
    } else if s[0] == '\\' {
        if s.len() < 2 {
            None
        } else {
            let e = s[1];
            if e == '"' || e == '\\' || e == '/' {
                prepend(e, json_unescape(s.skip(2)))
            } else if e == 'b' {
                prepend('\x08', json_unescape(s.skip(2)))
            } else if e == 'f' {
                prepend('\x0c', json_unescape(s.skip(2)))
            } else if e == 'n' {
                prepend('\n', json_unescape(s.skip(2)))
            } else if e == 'r' {
                prepend('\r', json_unescape(s.skip(2)))
            } else if e == 't' {
                prepend('\t', json_unescape(s.skip(2)))
            } else if e == 'u' && s.len() >= 6 && hex_value(s[2]) is Some && hex_value(s[3]) is Some
                && hex_value(s[4]) is Some && hex_value(s[5]) is Some {
                let v = hex_value(s[2])->0 * 4096 + hex_value(s[3])->0 * 256 + hex_value(s[4])->0 * 16
                    + hex_value(s[5])->0;
                if 0xD800 <= v <= 0xDFFF {
                    None
                } else {
                    prepend(v as char, json_unescape(s.skip(6)))
                }
            } else {
                None
            }
        }
    } else if s[0] == '"' || (s[0] as u32) < 0x20 {
        None
    } else {
        prepend(s[0], json_unescape(s.drop_first()))
    }
}

proof fn lemma_json_escape_front(s: Seq<char>)
    requires
        s.len() > 0,
    ensures
        spec_json_escape(s) == json_escape_char(s[0]) + spec_json_escape(s.drop_first()),
    decreases s.len(),
{
    if s.len() == 1 {
        assert(s.drop_last() =~= Seq::<char>::empty());
        assert(s.drop_first() =~= Seq::<char>::empty());
        assert(spec_json_escape(s.drop_last()) == Seq::<char>::empty());
        assert(s.last() == s[0]);
        assert(spec_json_escape(s) =~= json_escape_char(s[0]));
    } else {
        let d = s.drop_last();
        lemma_json_escape_front(d);
        assert(d.drop_first() =~= s.drop_first().drop_last());
        assert(s.drop_first().last() == s.last());
        assert(spec_json_escape(s) =~= json_escape_char(s[0]) + spec_json_escape(s.drop_first()));
    }
}

proof fn lemma_hex_digit_value(d: u32)
    requires
        d < 16,
    ensures
        hex_value(hex_digit(d)) == Some(d as int),
{
}

proof fn lemma_unescape_one(c: char, t: Seq<char>)
    ensures
        json_unescape(json_escape_char(c) + t) == prepend(c, json_unescape(t)),
{
    let e = json_escape_char(c);
    let s = e + t;
    let u = c as u32;
    if c == '"' || c == '\\' || c == '\n' || c == '\r' || c == '\t' {
        assert(s.skip(2) =~= t);
    } else if u < 0x20 {
        lemma_hex_digit_value(u / 16);
        lemma_hex_digit_value(u % 16);
        assert(s[2] == '0' && s[3] == '0');
        assert(s.skip(6) =~= t);
        let v = 0 * 4096 + 0 * 256 + (u / 16) * 16 + (u % 16);
        assert(v == u);
        assert((u as int) as char == c);
    } else {
        assert(s[0] == c);
        assert(s.drop_first() =~= t);
    }
}

/// Reading the escaped text back as the inside of a JSON string gives the
/// text that was escaped.
pub proof fn lemma_json_escape_round_trip(s: Seq<char>)
    ensures
        json_unescape(spec_json_escape(s)) == Some(s),
    decreases s.len(),
{
    if s.len() == 0 {
    } else {
        lemma_json_escape_front(s);
        lemma_json_escape_round_trip(s.drop_first());
        lemma_unescape_one(s[0], spec_json_escape(s.drop_first()));
        assert(seq![s[0]] + s.drop_first() =~= s);
    }
}

} // verus!
