//! Character-level helpers shared by the parsers and the text renderers.

use vstd::prelude::*;

verus! {

/// The characters of `s`, in order.
pub fn chars_of(s: &str) -> (v: Vec<char>)
    ensures
        v@ == s@,
{
    let mut v: Vec<char> = Vec::new();
    for c in it: s.chars()
        invariant
            v@ == it.seq().take(it.index() as int),
    {
        v.push(c);
    }
    v
}

/// The character at index `i` of `v`.
pub fn char_at(v: &Vec<char>, i: usize) -> (c: char)
    requires
        i < v@.len(),
    ensures
        c == v@[i as int],
{
    v[i]
}

/// Appends one character to a `String` (`String::push`).
#[verifier::external_body]
pub(crate) fn push_char(s: &mut String, c: char)
    ensures
        final(s)@ == old(s)@.push(c),
{
    s.push(c);
}

/// A `String` holding exactly the characters of `v`.
pub fn string_from_chars(v: &[char]) -> (s: String)
    ensures
        s@ == v@,
{
    let mut s = String::new();
    let mut i: usize = 0;
    while i < v.len()
        invariant
            i <= v@.len(),
            s@ == v@.take(i as int),
        decreases v@.len() - i,
    {
        push_char(&mut s, v[i]);
        i += 1;
        assert(v@.take(i as int) =~= v@.take((i - 1) as int).push(v@[i - 1]));
    }
    assert(v@.take(v@.len() as int) =~= v@);
    s
}

/// Whether two character sequences are equal.
pub fn chars_eq(a: &[char], b: &[char]) -> (r: bool)
    ensures
        r == (a@ == b@),
{
    if a.len() != b.len() {
        return false;
    }
    let mut i: usize = 0;
    while i < a.len()
        invariant
            a@.len() == b@.len(),
            i <= a@.len(),
            forall|j: int| 0 <= j < i ==> a@[j] == b@[j],
        decreases a@.len() - i,
    {
        if a[i] != b[i] {
            return false;
        }
        i += 1;
    }
    assert(a@ =~= b@);
    true
}

/// Whether two strings hold the same characters.
pub fn str_eq(a: &str, b: &str) -> (r: bool)
    ensures
        r == (a@ == b@),
{
    let av = chars_of(a);
    let bv = chars_of(b);
    chars_eq(av.as_slice(), bv.as_slice())
}

/// Unicode `White_Space`, the set `char::is_whitespace` tests for.
pub open spec fn is_ws(c: char) -> bool {
    let u = c as u32;
    ||| 0x09 <= u <= 0x0D
    ||| u == 0x20
    ||| u == 0x85
    ||| u == 0xA0
    ||| u == 0x1680
    ||| 0x2000 <= u <= 0x200A
    ||| u == 0x2028
    ||| u == 0x2029
    ||| u == 0x202F
    ||| u == 0x205F
    ||| u == 0x3000
}

/// Whether `c` is Unicode white space.
pub fn is_whitespace(c: char) -> (b: bool)
    ensures
        b == is_ws(c),
{
    let u = c as u32;
    (0x09 <= u && u <= 0x0D) || u == 0x20 || u == 0x85 || u == 0xA0 || u == 0x1680 || (0x2000 <= u
        && u <= 0x200A) || u == 0x2028 || u == 0x2029 || u == 0x202F || u == 0x205F || u == 0x3000
}

/// `s` without leading white space.
pub open spec fn trim_start(s: Seq<char>) -> Seq<char>
    decreases s.len(),
{
    if s.len() > 0 && is_ws(s[0]) {
        trim_start(s.drop_first())
    } else {
        s
    }
}

/// `s` without trailing white space.
pub open spec fn trim_end(s: Seq<char>) -> Seq<char>
    decreases s.len(),
{
    if s.len() > 0 && is_ws(s.last()) {
        trim_end(s.drop_last())
    } else {
        s
    }
}

/// `s` without leading or trailing white space (`str::trim`).
pub open spec fn trim(s: Seq<char>) -> Seq<char> {
    trim_end(trim_start(s))
}

proof fn lemma_trim_start_skip(s: Seq<char>, i: int)
    requires
        0 <= i <= s.len(),
        forall|j: int| 0 <= j < i ==> is_ws(#[trigger] s[j]),
    ensures
        trim_start(s) == trim_start(s.skip(i)),
    decreases i,
{
    if i > 0 {
        assert(s.skip(1) =~= s.drop_first());
        lemma_trim_start_skip(s.drop_first(), i - 1);
        assert(s.drop_first().skip(i - 1) =~= s.skip(i));
    } else {
        assert(s.skip(0) =~= s);
    }
}

proof fn lemma_trim_end_take(s: Seq<char>, e: int)
    requires
        0 <= e <= s.len(),
        forall|j: int| e <= j < s.len() ==> is_ws(#[trigger] s[j]),
    ensures
        trim_end(s) == trim_end(s.take(e)),
    decreases s.len() - e,
{
    if e < s.len() {
        assert(s.drop_last() =~= s.take(s.len() - 1));
        lemma_trim_end_take(s.drop_last(), e);
        assert(s.drop_last().take(e) =~= s.take(e));
    } else {
        assert(s.take(e) =~= s);
    }
}

/// `v` without leading or trailing white space.
pub fn trim_chars(v: &[char]) -> (t: Vec<char>)
    ensures
        t@ == trim(v@),
{
    let mut start: usize = 0;
    while start < v.len() && is_whitespace(v[start])
        invariant
            start <= v@.len(),
            forall|j: int| 0 <= j < start ==> is_ws(#[trigger] v@[j]),
        decreases v@.len() - start,
    {
        start += 1;
    }
    proof {
        lemma_trim_start_skip(v@, start as int);
    }
    let ghost rest = v@.skip(start as int);
    assert(trim_start(rest) == rest);
    let mut end: usize = v.len();
    while end > start && is_whitespace(v[end - 1])
        invariant
            start <= end <= v@.len(),
            forall|j: int| end <= j < v@.len() ==> is_ws(#[trigger] v@[j]),
        decreases end,
    {
        end -= 1;
    }
    proof {
        assert forall|j: int| end - start <= j < rest.len() implies is_ws(#[trigger] rest[j]) by {
            assert(rest[j] == v@[j + start]);
        }
        lemma_trim_end_take(rest, end - start);
        let kept = rest.take(end - start);
        if kept.len() > 0 {
            assert(kept.last() == v@[end - 1]);
        }
    }
    let mut t: Vec<char> = Vec::new();
    let mut i: usize = start;
    while i < end
        invariant
            start <= i <= end,
            end <= v@.len(),
            t@ == v@.subrange(start as int, i as int),
        decreases end - i,
    {
        t.push(v[i]);
        i += 1;
        assert(t@ =~= v@.subrange(start as int, i as int));
    }
    assert(t@ =~= rest.take(end - start));
    t
}

/// Length of the run of non-white-space characters that starts `s`.
pub open spec fn word_len(s: Seq<char>) -> nat
    decreases s.len(),
{
    if s.len() == 0 || is_ws(s[0]) {
        0
    } else {
        1 + word_len(s.drop_first())
    }
}

/// A word is no longer than the text it starts, and is not empty unless
/// the text is empty or starts with white space.
pub proof fn lemma_word_len_bound(s: Seq<char>)
    ensures
        word_len(s) <= s.len(),
        s.len() > 0 && !is_ws(s[0]) ==> word_len(s) >= 1,
    decreases s.len(),
{
    if s.len() > 0 && !is_ws(s[0]) {
        lemma_word_len_bound(s.drop_first());
    }
}

proof fn lemma_word_len_exact(s: Seq<char>, k: int)
    requires
        0 <= k <= s.len(),
        forall|m: int| 0 <= m < k ==> !is_ws(#[trigger] s[m]),
        k == s.len() || is_ws(s[k]),
    ensures
        word_len(s) == k,
    decreases k,
{
    if k > 0 {
        lemma_word_len_exact(s.drop_first(), k - 1);
    }
}

/// The white-space separated words of `s`, in order (`str::split_whitespace`).
pub open spec fn words(s: Seq<char>) -> Seq<Seq<char>>
    decreases s.len(),
{
    if s.len() == 0 {
        Seq::empty()
    } else if is_ws(s[0]) {
        words(s.drop_first())
    } else {
        proof {
            lemma_word_len_bound(s);
        }
        seq![s.take(word_len(s) as int)] + words(s.skip(word_len(s) as int))
    }
}

/// The white-space separated words of `v`, in order.
pub fn split_whitespace(v: &[char]) -> (ws: Vec<Vec<char>>)
    ensures
        ws@.len() == words(v@).len(),
        forall|k: int| 0 <= k < ws@.len() ==> #[trigger] ws@[k]@ == words(v@)[k],
{
    let mut out: Vec<Vec<char>> = Vec::new();
    let ghost mut acc: Seq<Seq<char>> = Seq::empty();
    let mut i: usize = 0;
    assert(v@.skip(0) =~= v@);
    while i < v.len()
        invariant
            i <= v@.len(),
            words(v@) == acc + words(v@.skip(i as int)),
            out@.len() == acc.len(),
            forall|k: int| 0 <= k < out@.len() ==> #[trigger] out@[k]@ == acc[k],
        decreases v@.len() - i,
    {
        let ghost rest = v@.skip(i as int);
        if is_whitespace(v[i]) {
            assert(rest.drop_first() =~= v@.skip(i + 1));
            i += 1;
        } else {
            let mut j: usize = i;
            let mut word: Vec<char> = Vec::new();
            while j < v.len() && !is_whitespace(v[j])
                invariant
                    i <= j <= v@.len(),
                    forall|m: int| i <= m < j ==> !is_ws(#[trigger] v@[m]),
                    word@ == v@.subrange(i as int, j as int),
                decreases v@.len() - j,
            {
                word.push(v[j]);
                j += 1;
                assert(word@ =~= v@.subrange(i as int, j as int));
            }
            proof {
                assert forall|m: int| 0 <= m < j - i implies !is_ws(#[trigger] rest[m]) by {
                    assert(rest[m] == v@[m + i]);
                }
                if j < v@.len() {
                    assert(rest[j - i] == v@[j as int]);
                }
                lemma_word_len_exact(rest, j - i);
                assert(rest.take(j - i) =~= word@);
                assert(rest.skip(j - i) =~= v@.skip(j as int));
                assert(acc + words(rest) =~= acc.push(word@) + words(v@.skip(j as int)));
                acc = acc.push(word@);
            }
            out.push(word);
            i = j;
        }
    }
    proof {
        assert(v@.skip(i as int) =~= Seq::<char>::empty());
        assert(acc + Seq::<Seq<char>>::empty() =~= acc);
    }
    out
}

/// Position of the first `c` in `s`, if any.
pub open spec fn char_pos(s: Seq<char>, c: char) -> Option<nat>
    decreases s.len(),
{
    if s.len() == 0 {
        None
    } else if s[0] == c {
        Some(0)
    } else {
        match char_pos(s.drop_first(), c) {
            Some(i) => Some(i + 1),
            None => None,
        }
    }
}

/// The first `c` in `s` is at an index inside `s`.
pub proof fn lemma_char_pos_bound(s: Seq<char>, c: char)
    ensures
        char_pos(s, c) matches Some(i) ==> i < s.len() && s[i as int] == c,
    decreases s.len(),
{
    if s.len() > 0 && s[0] != c {
        lemma_char_pos_bound(s.drop_first(), c);
    }
}

proof fn lemma_char_pos_exact(s: Seq<char>, c: char, k: int)
    requires
        0 <= k <= s.len(),
        forall|m: int| 0 <= m < k ==> #[trigger] s[m] != c,
    ensures
        k < s.len() && s[k] == c ==> char_pos(s, c) == Some(k as nat),
        k == s.len() ==> char_pos(s, c) is None,
    decreases k,
{
    if k > 0 {
        lemma_char_pos_exact(s.drop_first(), c, k - 1);
    }
}

/// `s` split around its first `c` (`str::split_once`).
pub open spec fn split_once(s: Seq<char>, c: char) -> Option<(Seq<char>, Seq<char>)> {
    match char_pos(s, c) {
        Some(i) => Some((s.take(i as int), s.skip(i as int + 1))),
        None => None,
    }
}

/// `v` split around its first `c`, if it holds one.
pub fn split_once_char(v: &[char], c: char) -> (r: Option<(Vec<char>, Vec<char>)>)
    ensures
        r is Some <==> split_once(v@, c) is Some,
        r matches Some((a, b)) ==> split_once(v@, c) == Some((a@, b@)),
{
    let mut k: usize = 0;
    while k < v.len() && v[k] != c
        invariant
            k <= v@.len(),
            forall|m: int| 0 <= m < k ==> #[trigger] v@[m] != c,
        decreases v@.len() - k,
    {
        k += 1;
    }
    proof {
        lemma_char_pos_exact(v@, c, k as int);
    }
    if k == v.len() {
        return None;
    }
    let mut a: Vec<char> = Vec::new();
    let mut i: usize = 0;
    while i < k
        invariant
            i <= k,
            k < v@.len(),
            a@ == v@.take(i as int),
        decreases k - i,
    {
        a.push(v[i]);
        i += 1;
        assert(a@ =~= v@.take(i as int));
    }
    let mut b: Vec<char> = Vec::new();
    let mut i: usize = k + 1;
    while i < v.len()
        invariant
            k + 1 <= i <= v@.len(),
            b@ == v@.subrange(k + 1, i as int),
        decreases v@.len() - i,
    {
        b.push(v[i]);
        i += 1;
        assert(b@ =~= v@.subrange(k + 1, i as int));
    }
    assert(b@ =~= v@.skip(k + 1));
    Some((a, b))
}

/// The pieces of `s` between the `c`s (`str::split`): one more piece than
/// there are `c`s, empty pieces included.
pub open spec fn split_on(s: Seq<char>, c: char) -> Seq<Seq<char>>
    decreases s.len(),
{
    match char_pos(s, c) {
        Some(i) => {
            proof {
                lemma_char_pos_bound(s, c);
            }
            seq![s.take(i as int)] + split_on(s.skip(i as int + 1), c)
        },
        None => seq![s],
    }
}

/// The pieces of `v` between the `c`s.
pub fn split_char(v: &[char], c: char) -> (ps: Vec<Vec<char>>)
    ensures
        ps@.len() == split_on(v@, c).len(),
        forall|k: int| 0 <= k < ps@.len() ==> #[trigger] ps@[k]@ == split_on(v@, c)[k],
{
    let mut out: Vec<Vec<char>> = Vec::new();
    let ghost mut acc: Seq<Seq<char>> = Seq::empty();
    let mut piece: Vec<char> = Vec::new();
    let mut start: usize = 0;
    let mut i: usize = 0;
    assert(v@.skip(0) =~= v@);
    while i < v.len()
        invariant
            start <= i <= v@.len(),
            split_on(v@, c) == acc + split_on(v@.skip(start as int), c),
            forall|m: int| start <= m < i ==> #[trigger] v@[m] != c,
            piece@ == v@.subrange(start as int, i as int),
            out@.len() == acc.len(),
            forall|k: int| 0 <= k < out@.len() ==> #[trigger] out@[k]@ == acc[k],
        decreases v@.len() - i,
    {
        if v[i] == c {
            proof {
                let rest = v@.skip(start as int);
                assert forall|m: int| 0 <= m < i - start implies #[trigger] rest[m] != c by {
                    assert(rest[m] == v@[m + start]);
                }
                assert(rest[i - start] == v@[i as int]);
                lemma_char_pos_exact(rest, c, i - start);
                assert(rest.take(i - start) =~= piece@);
                assert(rest.skip(i - start + 1) =~= v@.skip(i + 1));
                assert(acc + split_on(rest, c) =~= acc.push(piece@) + split_on(v@.skip(i + 1), c));
                acc = acc.push(piece@);
            }
            out.push(piece);
            piece = Vec::new();
            i += 1;
            start = i;
            assert(piece@ =~= v@.subrange(start as int, i as int));
        } else {
            piece.push(v[i]);
            i += 1;
            assert(piece@ =~= v@.subrange(start as int, i as int));
        }
    }
    proof {
        let rest = v@.skip(start as int);
        assert forall|m: int| 0 <= m < rest.len() implies #[trigger] rest[m] != c by {
            assert(rest[m] == v@[m + start]);
        }
        lemma_char_pos_exact(rest, c, rest.len() as int);
        assert(rest =~= piece@);
        assert(acc + split_on(rest, c) =~= acc.push(piece@));
        acc = acc.push(piece@);
    }
    out.push(piece);
    out
}

/// Whether `s` ends with `suffix`.
pub open spec fn ends_with(s: Seq<char>, suffix: Seq<char>) -> bool {
    s.len() >= suffix.len() && s.skip(s.len() - suffix.len()) == suffix
}

/// `s` without `suffix`, if it ends with it (`str::strip_suffix`).
pub open spec fn strip_suffix(s: Seq<char>, suffix: Seq<char>) -> Option<Seq<char>> {
    if ends_with(s, suffix) {
        Some(s.take(s.len() - suffix.len()))
    } else {
        None
    }
}

/// `v` without `suffix`, if it ends with it.
pub fn strip_suffix_chars(v: &[char], suffix: &str) -> (r: Option<Vec<char>>)
    ensures
        r is Some <==> strip_suffix(v@, suffix@) is Some,
        r matches Some(t) ==> strip_suffix(v@, suffix@) == Some(t@),
{
    let suf = chars_of(suffix);
    if suf.len() > v.len() {
        return None;
    }
    let off = v.len() - suf.len();
    let mut i: usize = 0;
    while i < suf.len()
        invariant
            off + suf@.len() == v@.len(),
            v@.len() == v.len(),
            i <= suf@.len(),
            suffix@ == suf@,
            forall|m: int| 0 <= m < i ==> #[trigger] suf@[m] == v@[off + m],
        decreases suf@.len() - i,
    {
        if char_at(&suf, i) != v[off + i] {
            assert(v@.skip(off as int)[i as int] != suf@[i as int]);
            assert(!ends_with(v@, suffix@));
            return None;
        }
        i += 1;
    }
    assert(v@.skip(off as int) =~= suf@);
    let mut t: Vec<char> = Vec::new();
    let mut i: usize = 0;
    while i < off
        invariant
            i <= off,
            off <= v@.len(),
            t@ == v@.take(i as int),
        decreases off - i,
    {
        t.push(v[i]);
        i += 1;
        assert(t@ =~= v@.take(i as int));
    }
    Some(t)
}

/// Appends the characters of `t` to `s`.
pub fn push_chars(s: &mut String, t: &[char])
    ensures
        final(s)@ == old(s)@ + t@,
{
    let mut i: usize = 0;
    while i < t.len()
        invariant
            i <= t@.len(),
            s@ == old(s)@ + t@.take(i as int),
        decreases t@.len() - i,
    {
        push_char(s, t[i]);
        i += 1;
        assert(t@.take(i as int) =~= t@.take((i - 1) as int).push(t@[i - 1]));
    }
    assert(t@.take(t@.len() as int) =~= t@);
}

/// Appends `t` to `s`.
pub fn push_str(s: &mut String, t: &str)
    ensures
        final(s)@ == old(s)@ + t@,
{
    let v = chars_of(t);
    push_chars(s, v.as_slice());
}

/// `v` without its first `n` characters.
pub fn skip_chars(v: &[char], n: usize) -> (t: Vec<char>)
    requires
        n <= v@.len(),
    ensures
        t@ == v@.skip(n as int),
{
    let mut t: Vec<char> = Vec::new();
    let mut i: usize = n;
    while i < v.len()
        invariant
            n <= i <= v@.len(),
            t@ == v@.subrange(n as int, i as int),
        decreases v@.len() - i,
    {
        t.push(v[i]);
        i += 1;
        assert(t@ =~= v@.subrange(n as int, i as int));
    }
    assert(t@ =~= v@.skip(n as int));
    t
}

/// Whether `s` starts with `prefix`.
pub open spec fn starts_with(s: Seq<char>, prefix: Seq<char>) -> bool {
    s.len() >= prefix.len() && s.take(prefix.len() as int) == prefix
}

/// `s` without `prefix`, if it starts with it (`str::strip_prefix`).
pub open spec fn strip_prefix(s: Seq<char>, prefix: Seq<char>) -> Option<Seq<char>> {
    if starts_with(s, prefix) {
        Some(s.skip(prefix.len() as int))
    } else {
        None
    }
}

/// `v` without `prefix`, if it starts with it.
pub fn strip_prefix_chars(v: &[char], prefix: &str) -> (r: Option<Vec<char>>)
    ensures
        r is Some <==> strip_prefix(v@, prefix@) is Some,
        r matches Some(t) ==> strip_prefix(v@, prefix@) == Some(t@),
{
    let p = chars_of(prefix);
    if p.len() > v.len() {
        return None;
    }
    let mut i: usize = 0;
    while i < p.len()
        invariant
            i <= p@.len(),
            p@.len() <= v@.len(),
            p@ == prefix@,
            forall|j: int| 0 <= j < i ==> #[trigger] v@[j] == p@[j],
        decreases p@.len() - i,
    {
        if v[i] != char_at(&p, i) {
            assert(v@.take(p@.len() as int)[i as int] != p@[i as int]);
            return None;
        }
        i += 1;
    }
    assert(v@.take(p@.len() as int) =~= p@);
    Some(skip_chars(v, p.len()))
}

} // verus!
