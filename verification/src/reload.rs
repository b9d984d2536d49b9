//! Loading a file, saving the loaded items and loading again: the entries
//! that loading makes read back as written, under conditions on their
//! titles, commented-out values and help text.
use vstd::prelude::*;
use crate::item::{ItemView, is_sensitive};
use crate::parse::{
    Scan, assignment, assignment_text as assignment_source, block_header_at, comment_step,
    header_title, initial_scan, is_inline_header, is_key_char, is_pure_separator, line_step,
    parse_text, scan_from, trimmed_lines, variable_of, with_header,
};
use crate::roundtrip::{
    description_reads_back, is_eol, item_reads_back, key_reads_back, lemma_lines_from_no_newline,
    lemma_trim_fixed, value_reads_back,
};
use crate::serialize::{assignment_text, serialize_text};
use crate::text::{
    Strip, contains_seq, first_is, in_class, is_rule_char, is_ws, lemma_first_exists,
    lemma_strip_lead_first, lemma_strip_trail_prefix, lemma_trim_ends, occurs_at, split_first,
    lines, starts_with, strip, strip_lead, strip_trail, trim, trim_start,
};

verus! {

/// Stripping the start leaves a suffix.
pub proof fn lemma_strip_lead_suffix(s: Seq<char>, k: Strip)
    ensures
        strip_lead(s, k).len() <= s.len(),
        strip_lead(s, k) == s.skip(s.len() - strip_lead(s, k).len()),
    decreases s.len(),
{
    if s.len() > 0 && in_class(k, s[0]) {
        lemma_strip_lead_suffix(s.drop_first(), k);
        let r = strip_lead(s.drop_first(), k);
        assert(s.drop_first().skip(s.drop_first().len() - r.len()) =~= s.skip(s.len() - r.len()));
    } else {
        assert(s.skip(0) =~= s);
    }
}

/// Stripping both ends leaves a part of the text, at offset `o`.
pub proof fn lemma_strip_part(s: Seq<char>, k: Strip) -> (o: int)
    ensures
        0 <= o,
        o + strip(s, k).len() <= s.len(),
        strip(s, k) == s.subrange(o, o + strip(s, k).len()),
{
    lemma_strip_lead_suffix(s, k);
    let a = strip_lead(s, k);
    lemma_strip_trail_prefix(a, k);
    let o = s.len() - a.len();
    let r = strip(s, k);
    assert(r == a.take(r.len() as int));
    assert(a.take(r.len() as int) =~= s.subrange(o, o + r.len()));
    o
}

/// A part of a text without line feeds holds none.
pub proof fn lemma_part_plain(s: Seq<char>, i: int, j: int)
    requires
        0 <= i <= j <= s.len(),
        !s.contains('\n'),
    ensures
        !s.subrange(i, j).contains('\n'),
{
    if s.subrange(i, j).contains('\n') {
        let x = choose|x: int| 0 <= x < s.subrange(i, j).len() && s.subrange(i, j)[x] == '\n';
        assert(s[i + x] == '\n');
    }
}

/// What stripping leaves has no character of the class at either end.
pub proof fn lemma_strip_ends(s: Seq<char>, k: Strip)
    ensures
        strip(s, k).len() > 0 ==> !in_class(k, strip(s, k)[0]) && !in_class(k, strip(s, k).last()),
{
    let a = strip_lead(s, k);
    lemma_strip_lead_first(s, k);
    lemma_strip_trail_prefix(a, k);
    if strip(s, k).len() > 0 {
        assert(strip(s, k)[0] == a[0]);
    }
}


/// A text whose first character is not of the class keeps that character
/// when its end is stripped.
pub proof fn lemma_strip_trail_keeps_first(s: Seq<char>, k: Strip)
    requires
        s.len() > 0,
        !in_class(k, s[0]),
    ensures
        strip_trail(s, k).len() > 0,
    decreases s.len(),
{
    if in_class(k, s.last()) {
        assert(s.len() > 1);
        assert(s.drop_last()[0] == s[0]);
        lemma_strip_trail_keeps_first(s.drop_last(), k);
    }
}

/// A frame cannot start at the name of a rebuilt commented-out assignment,
/// nor at its `=` unless the value starts with `==`; so the rebuilt line
/// holds a frame only where the value does.
proof fn lemma_frame_in_rebuilt(key: Seq<char>, value: Seq<char>, f: Seq<char>)
    requires
        f.len() >= 2,
        forall|j: int| 0 <= j < f.len() ==> is_rule_char(#[trigger] f[j]),
        f[0] == '=' ==> f.len() == 3 && f[1] == '=' && f[2] == '=',
        forall|j: int| 0 <= j < key.len() ==> is_key_char(#[trigger] key[j]),
        !starts_with(value, "=="@),
        contains_seq(assignment_text(key, value, true), f),
    ensures
        contains_seq(value, f),
{
    let r = assignment_text(key, value, true);
    let p = choose|p: int| occurs_at(r, f, p);
    assert(r.subrange(p, p + f.len())[0] == f[0]);
    assert(r[p] == f[0]);
    let kl = key.len() as int;
    if p == 0 {
        assert(r[0] == '#');
    } else if p <= kl {
        assert(r[p] == key[p - 1]);
        assert(is_key_char(key[p - 1]));
    } else if p == kl + 1 {
        assert(r[p] == '=');
        assert(r.subrange(p, p + f.len())[1] == f[1]);
        assert(r.subrange(p, p + f.len())[2] == f[2]);
        assert(r[p + 1] == value[0]);
        assert(r[p + 2] == value[1]);
        reveal_strlit("==");
        assert(value.take(2) =~= "=="@);
    } else {
        let q = p - kl - 2;
        assert(value.subrange(q, q + f.len()) =~= r.subrange(p, p + f.len()));
        assert(occurs_at(value, f, q));
    }
}

/// A part of a text that holds `f` makes the text hold it.
proof fn lemma_contains_part(t: Seq<char>, o: int, n: int, f: Seq<char>)
    requires
        0 <= o,
        o + n <= t.len(),
        0 <= n,
        contains_seq(t.subrange(o, o + n), f),
    ensures
        contains_seq(t, f),
{
    let v = t.subrange(o, o + n);
    let q = choose|q: int| occurs_at(v, f, q);
    assert(t.subrange(o + q, o + q + f.len()) =~= v.subrange(q, q + f.len()));
    assert(occurs_at(t, f, o + q));
}

/// The value of an assignment line reads back; and where the line is a
/// comment that is no header and the value does not start with `==`, the
/// commented-out assignment rebuilt from its name and value is no header.
pub proof fn lemma_assignment_value(t: Seq<char>)
    requires
        !t.contains('\n'),
        assignment(t) is Some,
    ensures
        value_reads_back(assignment(t).unwrap().1),
        ({
            let (k, v) = assignment(t).unwrap();
            t.len() > 0 && t[0] == '#' && !is_inline_header(t) && !starts_with(v, "=="@)
                ==> !is_inline_header(assignment_text(k, v, true))
        }),
{
    let l = assignment_source(t).unwrap();
    let c: int = if t.len() > 0 && t[0] == '#' { 1 } else { 0 };
    assert(l == t.subrange(c, t.len() as int)) by {
        if c == 1 {
            assert(t.drop_first() =~= t.subrange(1, t.len() as int));
        } else {
            assert(t =~= t.subrange(0, t.len() as int));
        }
    }
    assert(l.contains('='));
    lemma_first_exists(l, '=');
    let i = choose|i: int| first_is(l, '=', i);
    assert(split_first(l, '=') == Some((l.take(i), l.skip(i + 1))));
    let raw = l.skip(i + 1);
    let k = trim(l.take(i));
    let v = trim(raw);
    assert(assignment(t).unwrap() == (k, v));
    let o = lemma_strip_part(raw, Strip::Space);
    let o2 = c + i + 1 + o;
    assert(v =~= t.subrange(o2, o2 + v.len()));
    lemma_part_plain(t, o2, o2 + v.len());
    lemma_trim_ends(raw);
    lemma_trim_fixed(v);
    if t.len() > 0 && t[0] == '#' && !is_inline_header(t) && !starts_with(v, "=="@) {
        crate::laws::lemma_assignment_key(t);
        // The loaded line holds no frame: it is a comment, no rule, and its
        // title holds the name's first letter.
        assert(l[0] == t[1]);
        assert(!is_rule_char(t[1]) && !is_ws(t[1]));
        assert(!is_pure_separator(t));
        assert(strip_lead(t, Strip::Frame) == strip_lead(l, Strip::Frame)) by {
            assert(t.drop_first() == l);
        }
        assert(!in_class(Strip::Frame, l[0]));
        assert(strip_lead(l, Strip::Frame) == l);
        lemma_strip_trail_keeps_first(l, Strip::Frame);
        assert(header_title(t).len() > 0);
        let r = assignment_text(k, v, true);
        assert forall|f: Seq<char>|
            f.len() >= 2 && (forall|j: int| 0 <= j < f.len() ==> is_rule_char(#[trigger] f[j])) && (
            f[0] == '=' ==> f.len() == 3 && f[1] == '=' && f[2] == '=') && !contains_seq(t, f)
            implies !contains_seq(r, f) by {
            if contains_seq(r, f) {
                lemma_frame_in_rebuilt(k, v, f);
                lemma_contains_part(t, o2, v.len() as int, f);
            }
        }
        reveal_strlit("===");
        reveal_strlit("---");
        reveal_strlit("\u{2500}\u{2500}");
        reveal_strlit("\u{2501}\u{2501}");
        assert(!contains_seq(t, "==="@));
        assert(!contains_seq(t, "---"@));
        assert(!contains_seq(t, "\u{2500}\u{2500}"@));
        assert(!contains_seq(t, "\u{2501}\u{2501}"@));
        assert(!contains_seq(r, "==="@));
        assert(!contains_seq(r, "---"@));
        assert(!contains_seq(r, "\u{2500}\u{2500}"@));
        assert(!contains_seq(r, "\u{2501}\u{2501}"@));
    }
}


/// What loading guarantees of an entry towards reading it back: a header's
/// title is one non-empty line without frame characters or white space at
/// its ends; a variable's name and value read back, its value starts hidden
/// exactly when its name is sensitive, and a commented-out variable whose
/// value does not start with `==` is written as no header.
pub open spec fn loaded_for_reload(item: ItemView) -> bool {
    match item {
        ItemView::Header { text } => {
            &&& text.len() > 0
            &&& !text.contains('\n')
            &&& !in_class(Strip::Frame, text[0])
            &&& !in_class(Strip::Frame, text.last())
        },
        ItemView::Variable { key, value, is_commented_out, show_password, .. } => {
            &&& key_reads_back(key)
            &&& value_reads_back(value)
            &&& show_password == !is_sensitive(key)
            &&& (is_commented_out && !starts_with(value, "=="@) ==> !is_inline_header(
                assignment_text(key, value, true),
            ))
        },
    }
}

pub open spec fn all_loaded_for_reload(items: Seq<ItemView>) -> bool {
    forall|i: int| 0 <= i < items.len() ==> loaded_for_reload(#[trigger] items[i])
}

proof fn lemma_push_ok(items: Seq<ItemView>, item: ItemView)
    requires
        all_loaded_for_reload(items),
        loaded_for_reload(item),
    ensures
        all_loaded_for_reload(items.push(item)),
{
    assert forall|i: int| 0 <= i < items.push(item).len() implies loaded_for_reload(
        #[trigger] items.push(item)[i],
    ) by {
        if i < items.len() {
            assert(items.push(item)[i] == items[i]);
        }
    }
}

/// The title cut out of a line without line feeds is one line without
/// frame characters or white space at its ends.
proof fn lemma_title_ok(t: Seq<char>)
    requires
        !t.contains('\n'),
        header_title(t).len() > 0,
    ensures
        loaded_for_reload(ItemView::Header { text: header_title(t) }),
{
    let o = lemma_strip_part(t, Strip::Frame);
    lemma_part_plain(t, o, o + header_title(t).len());
    lemma_strip_ends(t, Strip::Frame);
}

proof fn lemma_step_ok(st: Scan, t: Seq<char>)
    requires
        all_loaded_for_reload(st.items),
        !t.contains('\n'),
    ensures
        all_loaded_for_reload(line_step(st, t).items),
{
    if t.len() == 0 || is_pure_separator(t) {
    } else if is_inline_header(t) {
        if header_title(t).len() > 0 {
            lemma_title_ok(t);
            lemma_push_ok(st.items, ItemView::Header { text: header_title(t) });
        }
    } else if let Some((key, value)) = assignment(t) {
        crate::laws::lemma_assignment_key(t);
        lemma_assignment_value(t);
        lemma_push_ok(st.items, variable_of(t, key, value, st.paragraphs));
    } else if t[0] == '#' {
        assert(comment_step(st, trim_start(t.drop_first())).items == st.items);
    }
}

proof fn lemma_scan_ok(tl: Seq<Seq<char>>, i: int, st: Scan)
    requires
        all_loaded_for_reload(st.items),
        forall|j: int| 0 <= j < tl.len() ==> !(#[trigger] tl[j]).contains('\n'),
    ensures
        all_loaded_for_reload(scan_from(tl, i, st)),
    decreases tl.len() - i,
{
    if i < 0 || i >= tl.len() {
    } else if block_header_at(tl, i) {
        let title = header_title(tl[i + 1]);
        if title.len() > 0 {
            lemma_title_ok(tl[i + 1]);
            lemma_push_ok(st.items, ItemView::Header { text: title });
        }
        lemma_scan_ok(
            tl,
            i + 3,
            Scan { items: with_header(st.items, title), paragraphs: seq![], brk: true },
        );
    } else {
        lemma_step_ok(st, tl[i]);
        lemma_scan_ok(tl, i + 1, line_step(st, tl[i]));
    }
}

/// Every entry that loading yields is as `loaded_for_reload` says.
pub proof fn lemma_loaded_for_reload(content: Seq<char>)
    ensures
        all_loaded_for_reload(parse_text(content)),
{
    let tl = trimmed_lines(content);
    lemma_lines_from_no_newline(content, seq![]);
    assert forall|j: int| 0 <= j < tl.len() implies !(#[trigger] tl[j]).contains('\n') by {
        let raw = lines(content)[j];
        assert(tl[j] == trim(raw));
        let o = lemma_strip_part(raw, Strip::Space);
        lemma_part_plain(raw, o, o + trim(raw).len());
    }
    lemma_scan_ok(tl, 0, initial_scan());
}

/// The conditions under which loaded entries read back: header titles of
/// at most 62 characters that hold a character other than a rule character
/// or white space; commented-out values that do not start with `==`; help
/// text that reads back.
pub open spec fn reload_conditions(items: Seq<ItemView>) -> bool {
    forall|i: int|
        0 <= i < items.len() ==> match #[trigger] items[i] {
            ItemView::Header { text } => text.len() <= 62 && exists|j: int|
                0 <= j < text.len() && !is_rule_char(#[trigger] text[j]) && !is_ws(text[j]),
            ItemView::Variable { value, description, is_commented_out, .. } => (is_commented_out
                ==> !starts_with(value, "=="@)) && description_reads_back(description),
        }
}

/// Loading a file, saving what was loaded and loading the saved text gives
/// the same entries, with either line ending, wherever the loaded titles
/// are at most 62 characters and hold a character other than a rule
/// character or white space, no loaded commented-out value starts with
/// `==`, and the loaded help text reads back as written.
pub proof fn law_reload_saved_file(content: Seq<char>, eol: Seq<char>)
    requires
        is_eol(eol),
        reload_conditions(parse_text(content)),
    ensures
        parse_text(serialize_text(parse_text(content), eol)) == parse_text(content),
{
    let items = parse_text(content);
    lemma_loaded_for_reload(content);
    assert forall|i: int| 0 <= i < items.len() implies item_reads_back(#[trigger] items[i]) by {
        assert(loaded_for_reload(items[i]));
        match items[i] {
            ItemView::Header { text } => {
                assert(text.len() <= 62);
            },
            ItemView::Variable { .. } => {},
        }
    }
    crate::laws::law_save_load_roundtrip(items, eol);
}

} // verus!
