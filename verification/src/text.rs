//! Character-level text helpers: the models of the `str` operations that the
//! parser, the serializer and the status messages use, over `Seq<char>`, and
//! executable versions proved against them.
use vstd::prelude::*;
use vstd::std_specs::iter::IteratorSpec;

verus! {

/// `String::push` appends one character to the end of the string.
pub assume_specification[ String::push ](s: &mut String, ch: char)
    ensures
        final(s)@ == old(s)@.push(ch),
;

/// The characters of `s`, in order.
pub fn chars_of(s: &str) -> (out: Vec<char>)
    ensures
        out@ == s@,
{
    let mut out: Vec<char> = Vec::new();
    let mut it = s.chars();
    loop
        invariant
            it.remaining() == s@.skip(out@.len() as int),
            out@ == s@.take(out@.len() as int),
            out@.len() <= s@.len(),
        ensures
            out@ == s@,
        decreases s@.len() - out@.len(),
    {
        match it.next() {
            Some(c) => {
                out.push(c);
            },
            None => {
                assert(out@ =~= s@);
                break;
            },
        }
    }
    out
}

/// A `String` holding exactly the given characters.
pub fn string_of(cs: &[char]) -> (out: String)
    ensures
        out@ == cs@,
{
    let mut out = String::new();
    let mut i: usize = 0;
    while i < cs.len()
        invariant
            i <= cs@.len(),
            out@ == cs@.take(i as int),
        decreases cs@.len() - i,
    {
        out.push(cs[i]);
        i = i + 1;
        assert(cs@.take(i as int) =~= cs@.take(i - 1).push(cs@[i - 1]));
    }
    assert(cs@.take(cs@.len() as int) =~= cs@);
    out
}

/// An owned copy of `s`.
pub fn owned(s: &str) -> (out: String)
    ensures
        out@ == s@,
{
    let cs = chars_of(s);
    string_of(cs.as_slice())
}

/// Appends `t` to `s`.
pub fn append_str(s: &mut String, t: &str)
    ensures
        final(s)@ == old(s)@ + t@,
{
    let cs = chars_of(t);
    let mut i: usize = 0;
    while i < cs.len()
        invariant
            i <= cs@.len(),
            cs@ == t@,
            s@ == old(s)@ + cs@.take(i as int),
        decreases cs@.len() - i,
    {
        s.push(cs[i]);
        i = i + 1;
        assert(old(s)@ + cs@.take(i as int) =~= old(s)@ + cs@.take(i - 1) + seq![cs@[i - 1]]);
    }
    assert(cs@.take(cs@.len() as int) =~= cs@);
}

// ---------------------------------------------------------------------------
//  Character classes
// ---------------------------------------------------------------------------

/// The Unicode `White_Space` property, which `char::is_whitespace` tests.
pub open spec fn is_ws(c: char) -> bool {
    ||| ('\u{9}' <= c && c <= '\u{d}')
    ||| c == ' '
    ||| c == '\u{85}'
    ||| c == '\u{a0}'
    ||| c == '\u{1680}'
    ||| ('\u{2000}' <= c && c <= '\u{200a}')
    ||| c == '\u{2028}'
    ||| c == '\u{2029}'
    ||| c == '\u{202f}'
    ||| c == '\u{205f}'
    ||| c == '\u{3000}'
}

/// Whether `c` is white space in the sense of `char::is_whitespace`.
pub fn is_white_space(c: char) -> (b: bool)
    ensures
        b == is_ws(c),
{
    ('\u{9}' <= c && c <= '\u{d}') || c == ' ' || c == '\u{85}' || c == '\u{a0}' || c
        == '\u{1680}' || ('\u{2000}' <= c && c <= '\u{200a}') || c == '\u{2028}' || c
        == '\u{2029}' || c == '\u{202f}' || c == '\u{205f}' || c == '\u{3000}'
}

/// The characters that draw a rule in a comment line: `=`, `-`, `─`, `━`
/// and `═`.
pub open spec fn is_rule_char(c: char) -> bool {
    c == '=' || c == '-' || c == '\u{2500}' || c == '\u{2501}' || c == '\u{2550}'
}

/// What frames a header title: the comment sign `#`, `=`, `-`, `─` and
/// `━`. The double rule `═` draws separator lines but frames no title.
pub open spec fn is_frame_char(c: char) -> bool {
    c == '#' || c == '=' || c == '-' || c == '\u{2500}' || c == '\u{2501}'
}

pub fn is_rule(c: char) -> (b: bool)
    ensures
        b == is_rule_char(c),
{
    c == '=' || c == '-' || c == '\u{2500}' || c == '\u{2501}' || c == '\u{2550}'
}

pub open spec fn is_ascii_digit(c: char) -> bool {
    '0' <= c && c <= '9'
}

pub open spec fn is_ascii_alpha(c: char) -> bool {
    ('a' <= c && c <= 'z') || ('A' <= c && c <= 'Z')
}

pub open spec fn is_ascii_alnum(c: char) -> bool {
    is_ascii_alpha(c) || is_ascii_digit(c)
}

/// The characters that `strip_lead` and `strip_trail` remove.
pub enum Strip {
    /// White space, as `str::trim` removes it.
    Space,
    /// White space and frame characters, as a header title is cut out.
    Frame,
}

pub open spec fn in_class(k: Strip, c: char) -> bool {
    match k {
        Strip::Space => is_ws(c),
        Strip::Frame => is_ws(c) || is_frame_char(c),
    }
}

pub fn class_has(k: &Strip, c: char) -> (b: bool)
    ensures
        b == in_class(*k, c),
{
    match k {
        Strip::Space => is_white_space(c),
        Strip::Frame => is_white_space(c) || c == '#' || c == '=' || c == '-' || c == '\u{2500}'
            || c == '\u{2501}',
    }
}

// ---------------------------------------------------------------------------
//  Trimming
// ---------------------------------------------------------------------------

/// `s` without the characters of class `k` at its start.
pub open spec fn strip_lead(s: Seq<char>, k: Strip) -> Seq<char>
    decreases s.len(),
{
    if s.len() > 0 && in_class(k, s[0]) {
        strip_lead(s.drop_first(), k)
    } else {
        s
    }
}

/// `s` without the characters of class `k` at its end.
pub open spec fn strip_trail(s: Seq<char>, k: Strip) -> Seq<char>
    decreases s.len(),
{
    if s.len() > 0 && in_class(k, s.last()) {
        strip_trail(s.drop_last(), k)
    } else {
        s
    }
}

/// `s` without the characters of class `k` at either end.
pub open spec fn strip(s: Seq<char>, k: Strip) -> Seq<char> {
    strip_trail(strip_lead(s, k), k)
}

/// `str::trim`.
pub open spec fn trim(s: Seq<char>) -> Seq<char> {
    strip(s, Strip::Space)
}

/// What stripping leaves at the start is no character of the class.
pub proof fn lemma_strip_lead_first(s: Seq<char>, k: Strip)
    ensures
        strip_lead(s, k).len() > 0 ==> !in_class(k, strip_lead(s, k)[0]),
    decreases s.len(),
{
    if s.len() > 0 && in_class(k, s[0]) {
        lemma_strip_lead_first(s.drop_first(), k);
    }
}

/// Stripping the end leaves a prefix whose last character is no character
/// of the class.
pub proof fn lemma_strip_trail_prefix(s: Seq<char>, k: Strip)
    ensures
        strip_trail(s, k) == s.take(strip_trail(s, k).len() as int),
        strip_trail(s, k).len() <= s.len(),
        strip_trail(s, k).len() > 0 ==> !in_class(k, strip_trail(s, k).last()),
    decreases s.len(),
{
    if s.len() > 0 && in_class(k, s.last()) {
        lemma_strip_trail_prefix(s.drop_last(), k);
        let r = strip_trail(s.drop_last(), k);
        assert(s.drop_last().take(r.len() as int) =~= s.take(r.len() as int));
    } else {
        assert(s.take(s.len() as int) =~= s);
    }
}

/// A trimmed text has no white space at either end.
pub proof fn lemma_trim_ends(s: Seq<char>)
    ensures
        trim(s).len() > 0 ==> !is_ws(trim(s)[0]) && !is_ws(trim(s).last()),
{
    let a = strip_lead(s, Strip::Space);
    lemma_strip_lead_first(s, Strip::Space);
    lemma_strip_trail_prefix(a, Strip::Space);
    if trim(s).len() > 0 {
        assert(trim(s)[0] == a[0]);
    }
}

/// `str::trim_start`.
pub open spec fn trim_start(s: Seq<char>) -> Seq<char> {
    strip_lead(s, Strip::Space)
}

/// The number of class-`k` characters at the start of `s`.
pub fn lead_len(s: &[char], k: &Strip) -> (n: usize)
    ensures
        n <= s@.len(),
        strip_lead(s@, *k) == s@.skip(n as int),
        forall|j: int| 0 <= j < n ==> in_class(*k, #[trigger] s@[j]),
{
    let mut i: usize = 0;
    assert(s@.skip(0) =~= s@);
    while i < s.len() && class_has(k, s[i])
        invariant
            i <= s@.len(),
            strip_lead(s@, *k) == strip_lead(s@.skip(i as int), *k),
            forall|j: int| 0 <= j < i ==> in_class(*k, #[trigger] s@[j]),
        decreases s@.len() - i,
    {
        assert(s@.skip(i as int).drop_first() =~= s@.skip(i + 1));
        i = i + 1;
    }
    i
}

/// The number of class-`k` characters at the end of `s`.
pub fn trail_len(s: &[char], k: &Strip) -> (n: usize)
    ensures
        n <= s@.len(),
        strip_trail(s@, *k) == s@.take(s@.len() - n),
        forall|j: int| s@.len() - n <= j < s@.len() ==> in_class(*k, #[trigger] s@[j]),
{
    let mut m: usize = s.len();
    assert(s@.take(s@.len() as int) =~= s@);
    while m > 0 && class_has(k, s[m - 1])
        invariant
            m <= s@.len(),
            strip_trail(s@, *k) == strip_trail(s@.take(m as int), *k),
            forall|j: int| m <= j < s@.len() ==> in_class(*k, #[trigger] s@[j]),
        decreases m,
    {
        assert(s@.take(m as int).drop_last() =~= s@.take(m - 1));
        m = m - 1;
    }
    assert(s@.take(s@.len() as int) =~= s@);
    s.len() - m
}

/// A copy of `s[lo..hi]`.
pub fn copy_range(s: &[char], lo: usize, hi: usize) -> (out: Vec<char>)
    requires
        lo <= hi <= s@.len(),
    ensures
        out@ == s@.subrange(lo as int, hi as int),
{
    let mut out: Vec<char> = Vec::new();
    let mut i = lo;
    while i < hi
        invariant
            lo <= i <= hi <= s@.len(),
            out@ == s@.subrange(lo as int, i as int),
        decreases hi - i,
    {
        out.push(s[i]);
        i = i + 1;
        assert(out@ =~= s@.subrange(lo as int, i as int));
    }
    out
}

/// `s` without class-`k` characters at either end.
pub fn stripped(s: &[char], k: &Strip) -> (out: Vec<char>)
    ensures
        out@ == strip(s@, *k),
{
    let a = lead_len(s, k);
    let rest = copy_range(s, a, s.len());
    assert(rest@ =~= s@.skip(a as int));
    let b = trail_len(rest.as_slice(), k);
    copy_range(rest.as_slice(), 0, rest.len() - b)
}

/// `str::trim`.
pub fn trimmed(s: &[char]) -> (out: Vec<char>)
    ensures
        out@ == trim(s@),
{
    stripped(s, &Strip::Space)
}

/// `str::trim_start`.
pub fn trimmed_start(s: &[char]) -> (out: Vec<char>)
    ensures
        out@ == trim_start(s@),
{
    let a = lead_len(s, &Strip::Space);
    copy_range(s, a, s.len())
}

// ---------------------------------------------------------------------------
//  Searching
// ---------------------------------------------------------------------------

/// `str::starts_with` with a string pattern.
pub open spec fn starts_with(s: Seq<char>, p: Seq<char>) -> bool {
    p.len() <= s.len() && s.take(p.len() as int) == p
}

/// `str::ends_with` with a string pattern.
pub open spec fn ends_with(s: Seq<char>, p: Seq<char>) -> bool {
    p.len() <= s.len() && s.skip(s.len() - p.len()) == p
}

/// `p` occurs in `s` at index `i`.
pub open spec fn occurs_at(s: Seq<char>, p: Seq<char>, i: int) -> bool {
    0 <= i && i + p.len() <= s.len() && s.subrange(i, i + p.len()) == p
}

/// `str::contains` with a string pattern.
pub open spec fn contains_seq(s: Seq<char>, p: Seq<char>) -> bool {
    exists|i: int| occurs_at(s, p, i)
}

/// `i` is the first index of `c` in `s`.
pub open spec fn first_is(s: Seq<char>, c: char, i: int) -> bool {
    &&& 0 <= i < s.len()
    &&& s[i] == c
    &&& forall|j: int| 0 <= j < i ==> s[j] != c
}

/// `str::split_once` with a character: the parts before and after the first `c`.
pub open spec fn split_first(s: Seq<char>, c: char) -> Option<(Seq<char>, Seq<char>)> {
    if s.contains(c) {
        let i = choose|i: int| first_is(s, c, i);
        Some((s.take(i), s.skip(i + 1)))
    } else {
        None
    }
}

pub proof fn lemma_first_unique(s: Seq<char>, c: char, i: int, j: int)
    requires
        first_is(s, c, i),
        first_is(s, c, j),
    ensures
        i == j,
{
    if i < j {
        assert(s[i] != c);
    } else if j < i {
        assert(s[j] != c);
    }
}

/// A text that holds `c` has a first `c`.
pub proof fn lemma_first_exists(s: Seq<char>, c: char)
    requires
        s.contains(c),
    ensures
        exists|i: int| first_is(s, c, i),
    decreases s.len(),
{
    if s[0] == c {
        assert(first_is(s, c, 0));
    } else {
        let k = choose|k: int| 0 <= k < s.len() && s[k] == c;
        assert(s.drop_first()[k - 1] == c);
        lemma_first_exists(s.drop_first(), c);
        let i = choose|i: int| first_is(s.drop_first(), c, i);
        assert forall|j: int| 0 <= j < i + 1 implies s[j] != c by {
            if j > 0 {
                assert(s[j] == s.drop_first()[j - 1]);
            }
        }
        assert(first_is(s, c, i + 1));
    }
}

/// Whether `p` occurs in `s` at index `i`.
pub fn matches_at(s: &[char], p: &[char], i: usize) -> (b: bool)
    ensures
        b == occurs_at(s@, p@, i as int),
{
    if i > s.len() || p.len() > s.len() - i {
        return false;
    }
    let n = s.len();
    let mut j: usize = 0;
    while j < p.len()
        invariant
            n == s@.len(),
            i + p@.len() <= s@.len(),
            j <= p@.len(),
            forall|t: int| 0 <= t < j ==> s@[i + t] == p@[t],
        decreases p@.len() - j,
    {
        if s[i + j] != p[j] {
            assert(s@.subrange(i as int, i + p@.len())[j as int] != p@[j as int]);
            return false;
        }
        j = j + 1;
    }
    assert(s@.subrange(i as int, i + p@.len()) =~= p@);
    true
}

pub fn has_prefix(s: &[char], p: &[char]) -> (b: bool)
    ensures
        b == starts_with(s@, p@),
{
    let b = matches_at(s, p, 0);
    assert(p@.len() <= s@.len() ==> s@.take(p@.len() as int) =~= s@.subrange(0, p@.len() as int));
    b
}

pub fn has_suffix(s: &[char], p: &[char]) -> (b: bool)
    ensures
        b == ends_with(s@, p@),
{
    if p.len() > s.len() {
        return false;
    }
    let b = matches_at(s, p, s.len() - p.len());
    assert(s@.skip(s@.len() - p@.len()) =~= s@.subrange(s@.len() - p@.len(), s@.len() as int));
    b
}

pub fn has_infix(s: &[char], p: &[char]) -> (b: bool)
    ensures
        b == contains_seq(s@, p@),
{
    if p.len() > s.len() {
        return false;
    }
    let last = s.len() - p.len();
    let mut i: usize = 0;
    loop
        invariant
            last == s@.len() - p@.len(),
            i <= last,
            forall|t: int| 0 <= t < i ==> !occurs_at(s@, p@, t),
        ensures
            forall|t: int| 0 <= t <= last ==> !occurs_at(s@, p@, t),
        decreases last - i,
    {
        if matches_at(s, p, i) {
            return true;
        }
        if i == last {
            break;
        }
        i = i + 1;
    }
    assert forall|t: int| !occurs_at(s@, p@, t) by {
        if 0 <= t && t + p@.len() <= s@.len() {
            assert(t <= last);
        }
    }
    false
}

/// The first index of `c` in `s`, if any.
pub fn index_of(s: &[char], c: char) -> (r: Option<usize>)
    ensures
        match r {
            Some(i) => first_is(s@, c, i as int),
            None => !s@.contains(c),
        },
{
    let mut i: usize = 0;
    while i < s.len()
        invariant
            i <= s@.len(),
            forall|j: int| 0 <= j < i ==> s@[j] != c,
        decreases s@.len() - i,
    {
        if s[i] == c {
            return Some(i);
        }
        i = i + 1;
    }
    None
}

/// `str::split_once` with a character.
pub fn split_at_first(s: &[char], c: char) -> (r: Option<(Vec<char>, Vec<char>)>)
    ensures
        match r {
            Some((a, b)) => split_first(s@, c) == Some((a@, b@)),
            None => split_first(s@, c) is None,
        },
{
    let n = s.len();
    match index_of(s, c) {
        Some(i) => {
            proof {
                let k = choose|k: int| first_is(s@, c, k);
                lemma_first_unique(s@, c, i as int, k);
            }
            let a = copy_range(s, 0, i);
            let b = copy_range(s, i + 1, s.len());
            assert(a@ =~= s@.take(i as int));
            assert(b@ =~= s@.skip(i + 1));
            Some((a, b))
        },
        None => None,
    }
}

/// Whether any character of `s` is white space.
pub fn any_white_space(s: &[char]) -> (b: bool)
    ensures
        b == exists|j: int| 0 <= j < s@.len() && is_ws(#[trigger] s@[j]),
{
    let mut i: usize = 0;
    while i < s.len()
        invariant
            i <= s@.len(),
            forall|j: int| 0 <= j < i ==> !is_ws(#[trigger] s@[j]),
        decreases s@.len() - i,
    {
        if is_white_space(s[i]) {
            return true;
        }
        i = i + 1;
    }
    false
}

// ---------------------------------------------------------------------------
//  Lines
// ---------------------------------------------------------------------------

/// A line without the carriage return that precedes its line feed.
pub open spec fn drop_cr(t: Seq<char>) -> Seq<char> {
    if t.len() > 0 && t.last() == '\r' {
        t.drop_last()
    } else {
        t
    }
}

/// The lines of `s` after the partial line `cur`, as `str::lines` splits
/// them: at each `\n`, dropping a `\r` right before it; a last line without
/// a line feed is kept as it is, and no empty line follows a final `\n`.
pub open spec fn lines_from(s: Seq<char>, cur: Seq<char>) -> Seq<Seq<char>>
    decreases s.len(),
{
    if s.len() == 0 {
        if cur.len() == 0 {
            seq![]
        } else {
            seq![cur]
        }
    } else if s[0] == '\n' {
        seq![drop_cr(cur)] + lines_from(s.drop_first(), seq![])
    } else {
        lines_from(s.drop_first(), cur.push(s[0]))
    }
}

/// `str::lines`.
pub open spec fn lines(s: Seq<char>) -> Seq<Seq<char>> {
    lines_from(s, seq![])
}

pub open spec fn views_of(v: Seq<Vec<char>>) -> Seq<Seq<char>> {
    v.map_values(|l: Vec<char>| l@)
}

fn without_cr(cur: Vec<char>) -> (out: Vec<char>)
    ensures
        out@ == drop_cr(cur@),
{
    let mut cur = cur;
    if cur.len() > 0 && cur[cur.len() - 1] == '\r' {
        cur.pop();
    }
    cur
}

/// `str::lines`.
pub fn split_lines(s: &[char]) -> (out: Vec<Vec<char>>)
    ensures
        views_of(out@) == lines(s@),
{
    let mut out: Vec<Vec<char>> = Vec::new();
    let mut cur: Vec<char> = Vec::new();
    let mut i: usize = 0;
    assert(s@.skip(0) =~= s@);
    while i < s.len()
        invariant
            i <= s@.len(),
            lines(s@) == views_of(out@) + lines_from(s@.skip(i as int), cur@),
        decreases s@.len() - i,
    {
        let c = s[i];
        assert(s@.skip(i as int).drop_first() =~= s@.skip(i + 1));
        if c == '\n' {
            let line = without_cr(cur);
            proof {
                assert(views_of(out@.push(line)) =~= views_of(out@).push(line@));
                assert(views_of(out@) + lines_from(s@.skip(i as int), cur@) =~= views_of(out@.push(line)) + lines_from(s@.skip(i + 1), seq![]));
            }
            out.push(line);
            cur = Vec::new();
        } else {
            cur.push(c);
        }
        i = i + 1;
    }
    assert(s@.skip(i as int) =~= Seq::<char>::empty());
    if cur.len() > 0 {
        proof {
            assert(views_of(out@.push(cur)) =~= views_of(out@).push(cur@));
        }
        out.push(cur);
    } else {
        assert(views_of(out@) + seq![] =~= views_of(out@));
    }
    out
}

// ---------------------------------------------------------------------------
//  Case, length and replacement
// ---------------------------------------------------------------------------

/// `char::to_ascii_uppercase`.
pub open spec fn upper_char(c: char) -> char {
    if 'a' <= c && c <= 'z' {
        ((c as int) - 32) as char
    } else {
        c
    }
}

/// `str::to_ascii_uppercase`.
pub open spec fn ascii_upper(s: Seq<char>) -> Seq<char> {
    s.map_values(|c: char| upper_char(c))
}

pub fn upper_of(c: char) -> (u: char)
    ensures
        u == upper_char(c),
{
    if 'a' <= c && c <= 'z' {
        let b: u8 = (c as u32 - 32) as u8;
        b as char
    } else {
        c
    }
}

/// `str::to_ascii_uppercase`.
pub fn to_ascii_upper(s: &[char]) -> (out: Vec<char>)
    ensures
        out@ == ascii_upper(s@),
{
    let mut out: Vec<char> = Vec::new();
    let mut i: usize = 0;
    while i < s.len()
        invariant
            i <= s@.len(),
            out@ == ascii_upper(s@.take(i as int)),
        decreases s@.len() - i,
    {
        out.push(upper_of(s[i]));
        i = i + 1;
        assert(ascii_upper(s@.take(i as int)) =~= ascii_upper(s@.take(i - 1)).push(upper_char(s@[i - 1])));
    }
    assert(s@.take(s@.len() as int) =~= s@);
    out
}

/// The number of bytes that `c` takes in UTF-8.
pub open spec fn char_utf8_len(c: char) -> nat {
    if c <= '\u{7f}' {
        1
    } else if c <= '\u{7ff}' {
        2
    } else if c <= '\u{ffff}' {
        3
    } else {
        4
    }
}

/// `str::len`: the number of bytes of the UTF-8 encoding.
pub open spec fn utf8_len(s: Seq<char>) -> nat
    decreases s.len(),
{
    if s.len() == 0 {
        0
    } else {
        utf8_len(s.drop_last()) + char_utf8_len(s.last())
    }
}

/// The UTF-8 length of `s`, or `limit + 1` where it exceeds `limit`.
pub fn utf8_len_capped(s: &[char], limit: usize) -> (n: usize)
    requires
        limit < usize::MAX - 4,
    ensures
        n <= limit ==> n == utf8_len(s@),
        n > limit <==> utf8_len(s@) > limit,
{
    let mut i: usize = 0;
    let mut acc: usize = 0;
    while i < s.len()
        invariant
            limit < usize::MAX - 4,
            i <= s@.len(),
            acc == utf8_len(s@.take(i as int)),
            acc <= limit,
        decreases s@.len() - i,
    {
        let c = s[i];
        let w: usize = if c <= '\u{7f}' {
            1
        } else if c <= '\u{7ff}' {
            2
        } else if c <= '\u{ffff}' {
            3
        } else {
            4
        };
        assert(s@.take(i + 1).drop_last() =~= s@.take(i as int));
        acc = acc + w;
        i = i + 1;
        if acc > limit {
            proof {
                lemma_utf8_len_prefix(s@, i as int);
            }
            return limit + 1;
        }
    }
    assert(s@.take(s@.len() as int) =~= s@);
    acc
}

/// The UTF-8 length of a prefix is at most that of the whole.
pub proof fn lemma_utf8_len_prefix(s: Seq<char>, i: int)
    requires
        0 <= i <= s.len(),
    ensures
        utf8_len(s.take(i)) <= utf8_len(s),
    decreases s.len() - i,
{
    if i < s.len() {
        lemma_utf8_len_prefix(s, i + 1);
        assert(s.take(i + 1).drop_last() =~= s.take(i));
    } else {
        assert(s.take(i) =~= s);
    }
}

/// `str::replace` with a non-empty pattern: every match of `p`, scanning
/// from the left without overlap, replaced by `r`.
pub open spec fn replace_all(s: Seq<char>, p: Seq<char>, r: Seq<char>) -> Seq<char>
    decreases s.len(),
{
    if p.len() > 0 && starts_with(s, p) {
        r + replace_all(s.skip(p.len() as int), p, r)
    } else if s.len() == 0 {
        seq![]
    } else {
        seq![s[0]] + replace_all(s.drop_first(), p, r)
    }
}

/// `str::replace` with a non-empty pattern.
pub fn replaced(s: &[char], p: &[char], r: &[char]) -> (out: Vec<char>)
    requires
        p@.len() > 0,
    ensures
        out@ == replace_all(s@, p@, r@),
{
    let mut out: Vec<char> = Vec::new();
    let mut i: usize = 0;
    assert(s@.skip(0) =~= s@);
    while i < s.len()
        invariant
            p@.len() > 0,
            i <= s@.len(),
            replace_all(s@, p@, r@) == out@ + replace_all(s@.skip(i as int), p@, r@),
        decreases s@.len() - i,
    {
        let rest = copy_range(s, i, s.len());
        assert(rest@ =~= s@.skip(i as int));
        if has_prefix(rest.as_slice(), p) {
            let mut j: usize = 0;
            let ghost before = out@;
            while j < r.len()
                invariant
                    j <= r@.len(),
                    out@ == before + r@.take(j as int),
                decreases r@.len() - j,
            {
                out.push(r[j]);
                j = j + 1;
                assert(out@ =~= before + r@.take(j as int));
            }
            assert(r@.take(r@.len() as int) =~= r@);
            assert(s@.skip(i as int).skip(p@.len() as int) =~= s@.skip(i + p@.len()));
            assert(before + replace_all(s@.skip(i as int), p@, r@) =~= out@ + replace_all(s@.skip(i + p@.len()), p@, r@));
            i = i + p.len();
        } else {
            assert(s@.skip(i as int).drop_first() =~= s@.skip(i + 1));
            let ghost before = out@;
            out.push(s[i]);
            assert(before + replace_all(s@.skip(i as int), p@, r@) =~= out@ + replace_all(s@.skip(i + 1), p@, r@));
            i = i + 1;
        }
    }
    assert(s@.skip(i as int) =~= Seq::<char>::empty());
    assert(out@ + Seq::<char>::empty() =~= out@);
    out
}

} // verus!
