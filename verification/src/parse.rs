//! Reading an `.env` template into items.
//!
//! Headers are recognised by their shape alone: a title line between two
//! rule lines, or a title framed by rule characters in one line. A variable
//! is a `KEY=value` line, active or commented out with `#` directly before
//! the key. Other comment lines become the help text of the next variable,
//! gathered into paragraphs.
use vstd::prelude::*;
use crate::item::{EnvItem, ItemView, is_sensitive, items_view, sensitive_chars, strings_view};
use crate::text::{
    Strip, any_white_space, chars_of, contains_seq, has_infix, has_prefix,
    is_ascii_alnum, is_ascii_alpha, is_ascii_digit, is_rule, is_rule_char, is_white_space,
    is_ws, lines, split_at_first, split_first, split_lines, starts_with, string_of, strip, stripped,
    trim, trim_start, trimmed, trimmed_start, utf8_len, utf8_len_capped, views_of,
};

verus! {

// ---------------------------------------------------------------------------
//  The outside fact: Unicode lower case
// ---------------------------------------------------------------------------

/// What `char::is_lowercase` answers: whether `c` has the Unicode
/// `Lowercase` property.
pub uninterp spec fn unicode_lowercase(c: char) -> bool;

/// `char::is_lowercase`. Its result is the `Lowercase` property of `c`; of
/// the ASCII characters exactly `a` to `z` have it.
#[verifier::external_body]
pub(crate) fn char_is_lowercase(c: char) -> (b: bool)
    ensures
        b == unicode_lowercase(c),
        c <= '\u{7f}' ==> (b <==> ('a' <= c && c <= 'z')),
{
    c.is_lowercase()
}

// ---------------------------------------------------------------------------
//  Line shapes
// ---------------------------------------------------------------------------

/// A comment line made only of rule characters and white space, with at
/// least one rule character, such as `# ----------`.
pub open spec fn is_pure_separator(t: Seq<char>) -> bool {
    &&& t.len() > 0
    &&& t[0] == '#'
    &&& exists|j: int| 1 <= j < t.len() && is_rule_char(#[trigger] t[j])
    &&& forall|j: int| 1 <= j < t.len() ==> is_rule_char(#[trigger] t[j]) || is_ws(t[j])
}

/// The title that a header line frames: the line without `#`, rule
/// characters and white space at either end.
pub open spec fn header_title(t: Seq<char>) -> Seq<char> {
    strip(t, Strip::Frame)
}

/// A one-line header such as `# --- Title ---`, `# ── Title ──` or
/// `# ===== Title =====`: a comment, not a pure separator, holding `===`,
/// `---`, `──` or `━━`, with a title left inside the frame.
pub open spec fn is_inline_header(t: Seq<char>) -> bool {
    &&& t.len() > 0
    &&& t[0] == '#'
    &&& !is_pure_separator(t)
    &&& (contains_seq(t, "==="@) || contains_seq(t, "---"@) || contains_seq(t, "\u{2500}\u{2500}"@)
        || contains_seq(t, "\u{2501}\u{2501}"@))
    &&& header_title(t).len() > 0
}

/// The number of ASCII digits at the start of `s`.
pub open spec fn lead_digits(s: Seq<char>) -> nat
    decreases s.len(),
{
    if s.len() > 0 && is_ascii_digit(s[0]) {
        1 + lead_digits(s.drop_first())
    } else {
        0
    }
}

/// A short legend or list entry: a single word of at most 20 bytes before
/// the first `=` (`587 = STARTTLS submission`), or a number followed by `.`
/// (`1. a binary built with ...`).
pub open spec fn is_legend_entry(body: Seq<char>) -> bool {
    let by_eq = match split_first(body, '=') {
        Some((before, _)) => {
            let b = trim(before);
            &&& b.len() > 0
            &&& utf8_len(b) <= 20
            &&& !(exists|j: int| 0 <= j < b.len() && is_ws(#[trigger] b[j]))
        },
        None => false,
    };
    let n = lead_digits(body);
    let by_number = n > 0 && starts_with(trim_start(body.skip(n as int)), "."@);
    by_eq || by_number
}

/// The characters a variable name is made of.
pub open spec fn is_key_char(c: char) -> bool {
    is_ascii_alnum(c) || c == '_'
}

/// The text in which a line's assignment is sought: the line itself, or,
/// for a comment, what follows the `#` where no white space follows it.
pub open spec fn assignment_text(t: Seq<char>) -> Option<Seq<char>> {
    if t.len() > 0 && t[0] == '#' {
        let rest = t.drop_first();
        if rest.len() > 0 && is_ws(rest[0]) {
            None
        } else {
            Some(rest)
        }
    } else {
        Some(t)
    }
}

/// The key and value that a trimmed line assigns, both trimmed: the text
/// starts with an ASCII letter or `_`, and the part before its first `=`,
/// trimmed, is a non-empty name of ASCII letters, digits and `_`.
pub open spec fn assignment(t: Seq<char>) -> Option<(Seq<char>, Seq<char>)> {
    match assignment_text(t) {
        None => None,
        Some(l) => if l.len() == 0 || !(is_ascii_alpha(l[0]) || l[0] == '_') {
            None
        } else {
            match split_first(l, '=') {
                None => None,
                Some((k, v)) => {
                    let key = trim(k);
                    if key.len() == 0 || !(forall|j: int|
                        0 <= j < key.len() ==> is_key_char(#[trigger] key[j])) {
                        None
                    } else {
                        Some((key, trim(v)))
                    }
                },
            }
        },
    }
}

/// A comment line: it starts with `#`.
pub open spec fn is_commented(t: Seq<char>) -> bool {
    t.len() > 0 && t[0] == '#'
}

// ---------------------------------------------------------------------------
//  The scan over the lines
// ---------------------------------------------------------------------------

/// What the scan carries from line to line: the items so far, the help text
/// gathered since the last item, and whether the next comment line starts a
/// new paragraph.
pub struct Scan {
    pub items: Seq<ItemView>,
    pub paragraphs: Seq<Seq<char>>,
    pub brk: bool,
}

pub open spec fn initial_scan() -> Scan {
    Scan { items: seq![], paragraphs: seq![], brk: true }
}

/// The items with a header for `title` appended, where the title is not empty.
pub open spec fn with_header(items: Seq<ItemView>, title: Seq<char>) -> Seq<ItemView> {
    if title.len() > 0 {
        items.push(ItemView::Header { text: title })
    } else {
        items
    }
}

/// Comment text that only tells the reader to copy the template.
pub open spec fn is_copy_hint(body: Seq<char>) -> bool {
    contains_seq(body, "Copy this file"@) || contains_seq(body, "cp example.env"@)
}

/// The scan after a comment line whose text, after `#` and leading white
/// space, is `body`. A legend entry joins the last paragraph on a line of
/// its own; a line starting in lower case right after another comment line
/// continues the last paragraph after a space; any other line starts a new
/// paragraph.
pub open spec fn comment_step(st: Scan, body: Seq<char>) -> Scan {
    if is_copy_hint(body) {
        st
    } else if body.len() == 0 {
        Scan { brk: true, ..st }
    } else {
        let legend = is_legend_entry(body);
        let n = st.paragraphs.len();
        let cont = !legend && !st.brk && n > 0 && unicode_lowercase(body[0]);
        let paragraphs = if legend && n > 0 {
            st.paragraphs.update(n - 1, st.paragraphs[n - 1] + seq!['\n'] + body)
        } else if cont {
            st.paragraphs.update(n - 1, st.paragraphs[n - 1] + seq![' '] + body)
        } else {
            st.paragraphs.push(body)
        };
        Scan { items: st.items, paragraphs, brk: false }
    }
}

/// The variable that the line `t` declares, with the gathered help text.
pub open spec fn variable_of(t: Seq<char>, key: Seq<char>, value: Seq<char>, description: Seq<
    Seq<char>,
>) -> ItemView {
    ItemView::Variable {
        key,
        value,
        description,
        is_commented_out: is_commented(t),
        show_password: !is_sensitive(key),
    }
}

/// The scan after one trimmed line `t` that does not open a three-line header.
pub open spec fn line_step(st: Scan, t: Seq<char>) -> Scan {
    if t.len() == 0 {
        Scan { brk: true, ..st }
    } else if is_pure_separator(t) {
        Scan { items: st.items, paragraphs: seq![], brk: true }
    } else if is_inline_header(t) {
        Scan { items: with_header(st.items, header_title(t)), paragraphs: seq![], brk: true }
    } else if let Some((key, value)) = assignment(t) {
        Scan {
            items: st.items.push(variable_of(t, key, value, st.paragraphs)),
            paragraphs: seq![],
            brk: true,
        }
    } else if t[0] == '#' {
        comment_step(st, trim_start(t.drop_first()))
    } else {
        st
    }
}

/// Line `i` opens a three-line header: separator, title comment, separator.
pub open spec fn block_header_at(tl: Seq<Seq<char>>, i: int) -> bool {
    &&& 0 <= i
    &&& i + 2 < tl.len()
    &&& is_pure_separator(tl[i])
    &&& !is_pure_separator(tl[i + 1])
    &&& tl[i + 1].len() > 0
    &&& tl[i + 1][0] == '#'
    &&& is_pure_separator(tl[i + 2])
}

/// The items that the scan yields from line `i` of the trimmed lines `tl` on.
pub open spec fn scan_from(tl: Seq<Seq<char>>, i: int, st: Scan) -> Seq<ItemView>
    decreases tl.len() - i,
{
    if i < 0 || i >= tl.len() {
        st.items
    } else if block_header_at(tl, i) {
        scan_from(
            tl,
            i + 3,
            Scan {
                items: with_header(st.items, header_title(tl[i + 1])),
                paragraphs: seq![],
                brk: true,
            },
        )
    } else {
        scan_from(tl, i + 1, line_step(st, tl[i]))
    }
}

/// The trimmed lines of a text.
pub open spec fn trimmed_lines(content: Seq<char>) -> Seq<Seq<char>> {
    lines(content).map_values(|l: Seq<char>| trim(l))
}

/// The items of an `.env` text.
pub open spec fn parse_text(content: Seq<char>) -> Seq<ItemView> {
    scan_from(trimmed_lines(content), 0, initial_scan())
}

// ---------------------------------------------------------------------------
//  Executable line shapes
// ---------------------------------------------------------------------------

/// `is_pure_separator` on characters.
pub fn pure_separator(t: &[char]) -> (b: bool)
    ensures
        b == is_pure_separator(t@),
{
    if t.len() == 0 || t[0] != '#' {
        return false;
    }
    let mut has_rule = false;
    let mut i: usize = 1;
    while i < t.len()
        invariant
            t@.len() > 0,
            1 <= i <= t@.len(),
            has_rule == exists|j: int| 1 <= j < i && is_rule_char(#[trigger] t@[j]),
            forall|j: int| 1 <= j < i ==> is_rule_char(#[trigger] t@[j]) || is_ws(t@[j]),
        decreases t@.len() - i,
    {
        let c = t[i];
        if is_rule(c) {
            has_rule = true;
        } else if !is_white_space(c) {
            return false;
        }
        i = i + 1;
    }
    has_rule
}

/// `header_title` on characters.
pub fn title_of(t: &[char]) -> (out: Vec<char>)
    ensures
        out@ == header_title(t@),
{
    stripped(t, &Strip::Frame)
}

fn holds_text(t: &[char], part: &str) -> (b: bool)
    ensures
        b == contains_seq(t@, part@),
{
    let p = chars_of(part);
    has_infix(t, p.as_slice())
}

/// `is_inline_header` on characters.
pub fn inline_header(t: &[char]) -> (b: bool)
    ensures
        b == is_inline_header(t@),
{
    if t.len() == 0 || t[0] != '#' || pure_separator(t) {
        return false;
    }
    let framed = holds_text(t, "===") || holds_text(t, "---") || holds_text(t, "\u{2500}\u{2500}")
        || holds_text(t, "\u{2501}\u{2501}");
    if !framed {
        return false;
    }
    title_of(t).len() > 0
}

/// `lead_digits` on characters.
fn lead_digit_count(s: &[char]) -> (n: usize)
    ensures
        n == lead_digits(s@),
        n <= s@.len(),
{
    let mut i: usize = 0;
    assert(s@.skip(0) =~= s@);
    while i < s.len() && '0' <= s[i] && s[i] <= '9'
        invariant
            i <= s@.len(),
            lead_digits(s@) == i + lead_digits(s@.skip(i as int)),
        decreases s@.len() - i,
    {
        assert(s@.skip(i as int).drop_first() =~= s@.skip(i + 1));
        i = i + 1;
    }
    i
}

/// `is_legend_entry` on characters.
pub fn legend_entry(body: &[char]) -> (b: bool)
    ensures
        b == is_legend_entry(body@),
{
    let by_eq = match split_at_first(body, '=') {
        Some((before, _)) => {
            let b = trimmed(before.as_slice());
            b.len() > 0 && utf8_len_capped(b.as_slice(), 20) <= 20 && !any_white_space(
                b.as_slice(),
            )
        },
        None => false,
    };
    let n = lead_digit_count(body);
    let rest = crate::text::copy_range(body, n, body.len());
    assert(rest@ =~= body@.skip(n as int));
    let rest_trimmed = trimmed_start(rest.as_slice());
    let dot = chars_of(".");
    let by_number = n > 0 && has_prefix(rest_trimmed.as_slice(), dot.as_slice());
    by_eq || by_number
}

/// Whether every character of `key` may stand in a variable name.
fn key_chars_only(key: &[char]) -> (b: bool)
    ensures
        b == forall|j: int| 0 <= j < key@.len() ==> is_key_char(#[trigger] key@[j]),
{
    let mut i: usize = 0;
    while i < key.len()
        invariant
            i <= key@.len(),
            forall|j: int| 0 <= j < i ==> is_key_char(#[trigger] key@[j]),
        decreases key@.len() - i,
    {
        let c = key[i];
        if !(('a' <= c && c <= 'z') || ('A' <= c && c <= 'Z') || ('0' <= c && c <= '9') || c
            == '_') {
            assert(!is_key_char(key@[i as int]));
            return false;
        }
        i = i + 1;
    }
    true
}

/// `assignment` on characters.
pub fn assignment_of(t: &[char]) -> (r: Option<(Vec<char>, Vec<char>)>)
    ensures
        match r {
            Some((k, v)) => assignment(t@) == Some((k@, v@)),
            None => assignment(t@) is None,
        },
{
    let l: Vec<char> = if t.len() > 0 && t[0] == '#' {
        if t.len() > 1 && is_white_space(t[1]) {
            return None;
        }
        let rest = crate::text::copy_range(t, 1, t.len());
        assert(rest@ =~= t@.drop_first());
        rest
    } else {
        crate::text::copy_range(t, 0, t.len())
    };
    assert(l@ =~= assignment_text(t@).unwrap());
    if l.len() == 0 || !(('a' <= l[0] && l[0] <= 'z') || ('A' <= l[0] && l[0] <= 'Z') || l[0]
        == '_') {
        return None;
    }
    match split_at_first(l.as_slice(), '=') {
        None => None,
        Some((k, v)) => {
            let key = trimmed(k.as_slice());
            if key.len() == 0 {
                return None;
            }
            if !key_chars_only(key.as_slice()) {
                return None;
            }
            let value = trimmed(v.as_slice());
            Some((key, value))
        },
    }
}

// ---------------------------------------------------------------------------
//  The executable scan
// ---------------------------------------------------------------------------

/// Appends `cs` to `s`.
pub fn push_chars(s: &mut String, cs: &[char])
    ensures
        final(s)@ == old(s)@ + cs@,
{
    let mut i: usize = 0;
    while i < cs.len()
        invariant
            i <= cs@.len(),
            s@ == old(s)@ + cs@.take(i as int),
        decreases cs@.len() - i,
    {
        s.push(cs[i]);
        i = i + 1;
        assert(old(s)@ + cs@.take(i as int) =~= old(s)@ + cs@.take(i - 1) + seq![cs@[i - 1]]);
    }
    assert(cs@.take(cs@.len() as int) =~= cs@);
}

/// The trimmed lines of a text, as characters.
fn trimmed_lines_of(content: &str) -> (out: Vec<Vec<char>>)
    ensures
        views_of(out@) == trimmed_lines(content@),
{
    let cs = chars_of(content);
    let raw = split_lines(cs.as_slice());
    let mut out: Vec<Vec<char>> = Vec::new();
    let mut i: usize = 0;
    while i < raw.len()
        invariant
            i <= raw@.len(),
            views_of(raw@) == lines(content@),
            out@.len() == i,
            forall|j: int| 0 <= j < i ==> (#[trigger] out@[j])@ == trim(lines(content@)[j]),
        decreases raw@.len() - i,
    {
        let t = trimmed(raw[i].as_slice());
        proof {
            assert(views_of(raw@)[i as int] == raw@[i as int]@);
        }
        out.push(t);
        i = i + 1;
    }
    assert(views_of(out@) =~= trimmed_lines(content@));
    out
}

/// The comment step on the executable state.
fn apply_comment(paragraphs: &mut Vec<String>, brk: &mut bool, body: &[char])
    ensures
        ({
            let before = Scan { items: seq![], paragraphs: strings_view(old(paragraphs)@), brk: *old(brk) };
            let after = comment_step(before, body@);
            strings_view(final(paragraphs)@) == after.paragraphs && *final(brk) == after.brk
        }),
{
    let copy_hint = holds_text(body, "Copy this file") || holds_text(body, "cp example.env");
    if copy_hint {
        return;
    }
    if body.len() == 0 {
        *brk = true;
        return;
    }
    let legend = legend_entry(body);
    let n = paragraphs.len();
    let cont = !legend && !*brk && n > 0 && char_is_lowercase(body[0]);
    let ghost old_views = strings_view(paragraphs@);
    if legend && n > 0 {
        let mut last = paragraphs.pop().unwrap();
        last.push('\n');
        push_chars(&mut last, body);
        assert(last@ =~= old_views[n - 1] + seq!['\n'] + body@);
        paragraphs.push(last);
        proof {
            assert(strings_view(paragraphs@) =~= old_views.update(n - 1, old_views[n - 1] + seq!['\n'] + body@));
        }
    } else if cont {
        let mut last = paragraphs.pop().unwrap();
        last.push(' ');
        push_chars(&mut last, body);
        assert(last@ =~= old_views[n - 1] + seq![' '] + body@);
        paragraphs.push(last);
        proof {
            assert(strings_view(paragraphs@) =~= old_views.update(n - 1, old_views[n - 1] + seq![' '] + body@));
        }
    } else {
        paragraphs.push(string_of(body));
        proof {
            assert(strings_view(paragraphs@) =~= old_views.push(body@));
        }
    }
    *brk = false;
}

/// The items of an `.env` text.
pub fn parse_content(content: &str) -> (items: Vec<EnvItem>)
    ensures
        items_view(items@) == parse_text(content@),
{
    let tl = trimmed_lines_of(content);
    let ghost g = views_of(tl@);
    let mut items: Vec<EnvItem> = Vec::new();
    let mut paragraphs: Vec<String> = Vec::new();
    let mut brk = true;
    let mut i: usize = 0;
    proof {
        assert(items_view(items@) =~= Seq::<ItemView>::empty());
        assert(strings_view(paragraphs@) =~= Seq::<Seq<char>>::empty());
    }
    while i < tl.len()
        invariant
            g == views_of(tl@),
            g == trimmed_lines(content@),
            i <= tl@.len(),
            parse_text(content@) == scan_from(
                g,
                i as int,
                Scan { items: items_view(items@), paragraphs: strings_view(paragraphs@), brk },
            ),
        decreases tl@.len() - i,
    {
        let ghost st = Scan { items: items_view(items@), paragraphs: strings_view(paragraphs@), brk };
        let t = &tl[i];
        assert(g[i as int] == t@);
        if pure_separator(t.as_slice()) && tl.len() - i > 2 && !pure_separator(tl[i + 1].as_slice())
            && tl[i + 1].len() > 0 && tl[i + 1][0] == '#' && pure_separator(tl[i + 2].as_slice()) {
            assert(g[i + 1] == tl@[i + 1]@);
            assert(g[i + 2] == tl@[i + 2]@);
            assert(block_header_at(g, i as int));
            let title = title_of(tl[i + 1].as_slice());
            if title.len() > 0 {
                items.push(EnvItem::Header { text: string_of(title.as_slice()) });
            }
            paragraphs = Vec::new();
            brk = true;
            proof {
                assert(items_view(items@) =~= with_header(st.items, header_title(g[i + 1])));
                assert(strings_view(paragraphs@) =~= Seq::<Seq<char>>::empty());
            }
            i = i + 3;
        } else {
            proof {
                if block_header_at(g, i as int) {
                    assert(g[i + 1] == tl@[i + 1]@);
                    assert(g[i + 2] == tl@[i + 2]@);
                }
                assert(!block_header_at(g, i as int));
            }
            let ghost next = line_step(st, t@);
            if t.len() == 0 {
                brk = true;
            } else if pure_separator(t.as_slice()) {
                paragraphs = Vec::new();
                brk = true;
                assert(strings_view(paragraphs@) =~= Seq::<Seq<char>>::empty());
            } else if inline_header(t.as_slice()) {
                let title = title_of(t.as_slice());
                if title.len() > 0 {
                    items.push(EnvItem::Header { text: string_of(title.as_slice()) });
                }
                paragraphs = Vec::new();
                brk = true;
                proof {
                    assert(items_view(items@) =~= with_header(st.items, header_title(t@)));
                    assert(strings_view(paragraphs@) =~= Seq::<Seq<char>>::empty());
                }
            } else {
                match assignment_of(t.as_slice()) {
                    Some((key, value)) => {
                        let hidden = sensitive_chars(key.as_slice());
                        let description = paragraphs;
                        let item = EnvItem::Variable {
                            key: string_of(key.as_slice()),
                            value: string_of(value.as_slice()),
                            description,
                            is_commented_out: t[0] == '#',
                            show_password: !hidden,
                        };
                        items.push(item);
                        paragraphs = Vec::new();
                        brk = true;
                        proof {
                            assert(items_view(items@) =~= st.items.push(
                                variable_of(t@, key@, value@, st.paragraphs),
                            ));
                            assert(strings_view(paragraphs@) =~= Seq::<Seq<char>>::empty());
                        }
                    },
                    None => {
                        if t[0] == '#' {
                            let rest = crate::text::copy_range(t.as_slice(), 1, t.len());
                            assert(rest@ =~= t@.drop_first());
                            let body = trimmed_start(rest.as_slice());
                            apply_comment(&mut paragraphs, &mut brk, body.as_slice());
                        }
                    },
                }
            }
            assert(items_view(items@) == next.items);
            assert(strings_view(paragraphs@) == next.paragraphs);
            assert(brk == next.brk);
            i = i + 1;
        }
    }
    items
}

} // verus!
