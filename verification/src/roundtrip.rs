//! Saving and loading again: the text written for a list of items reads
//! back as the same items, wherever each written line reads back as it was
//! written.
use vstd::prelude::*;
use crate::item::{ItemView, is_sensitive};
use crate::serialize::{
    assignment_text, centered, comment_lines, description_text, header_width, item_text,
    serialize_text,
};
use crate::parse::{
    Scan, assignment, initial_scan, is_key_char, variable_of, assignment_text as assignment_source, block_header_at, comment_step,
    header_title, is_copy_hint, is_inline_header, is_legend_entry, is_pure_separator, line_step,
    scan_from,
};
use crate::text::{
    Strip, drop_cr, in_class, is_ws, lines, lines_from, strip_lead, strip_trail, trim,
    trim_start,
};

verus! {

// ---------------------------------------------------------------------------
//  The written lines
// ---------------------------------------------------------------------------

/// The lines of `ls`, each followed by `eol`.
pub open spec fn join_eol(ls: Seq<Seq<char>>, eol: Seq<char>) -> Seq<char>
    decreases ls.len(),
{
    if ls.len() == 0 {
        seq![]
    } else {
        join_eol(ls.drop_last(), eol) + ls.last() + eol
    }
}

/// A line of help text as written: `# ` and the line.
pub open spec fn commented(l: Seq<char>) -> Seq<char> {
    seq!['#', ' '] + l
}

/// The lines written for a paragraph.
pub open spec fn paragraph_lines(p: Seq<char>) -> Seq<Seq<char>> {
    lines(p).map_values(|l: Seq<char>| commented(l))
}

/// The lines written for a variable's help text.
pub open spec fn description_lines(d: Seq<Seq<char>>) -> Seq<Seq<char>>
    decreases d.len(),
{
    if d.len() == 0 {
        seq![]
    } else {
        description_lines(d.drop_last()) + (if d.len() > 1 {
            seq![seq!['#']]
        } else {
            seq![]
        }) + paragraph_lines(d.last())
    }
}

/// The line written for a header.
pub open spec fn header_line(text: Seq<char>) -> Seq<char> {
    seq!['#', ' '] + centered(seq![' '] + text + seq![' '], header_width(), '=')
}

/// The lines written for one item.
pub open spec fn item_lines(item: ItemView) -> Seq<Seq<char>> {
    match item {
        ItemView::Header { text } => seq![header_line(text)],
        ItemView::Variable { key, value, description, is_commented_out, .. } => description_lines(
            description,
        ) + seq![assignment_text(key, value, is_commented_out), seq![]],
    }
}

/// The lines written for a list of items.
pub open spec fn written_lines(items: Seq<ItemView>) -> Seq<Seq<char>>
    decreases items.len(),
{
    if items.len() == 0 {
        seq![]
    } else {
        written_lines(items.drop_last()) + item_lines(items.last())
    }
}

pub proof fn lemma_join_eol_single(x: Seq<char>, eol: Seq<char>)
    ensures
        join_eol(seq![x], eol) == x + eol,
{
    let ls = seq![x];
    assert(ls.drop_last() =~= Seq::<Seq<char>>::empty());
    assert(join_eol(ls.drop_last(), eol) == Seq::<char>::empty());
    assert(ls.last() == x);
    assert(Seq::<char>::empty() + x + eol =~= x + eol);
}

pub proof fn lemma_join_eol_add(a: Seq<Seq<char>>, b: Seq<Seq<char>>, eol: Seq<char>)
    ensures
        join_eol(a + b, eol) == join_eol(a, eol) + join_eol(b, eol),
    decreases b.len(),
{
    if b.len() == 0 {
        assert(a + b =~= a);
    } else {
        lemma_join_eol_add(a, b.drop_last(), eol);
        assert((a + b).drop_last() =~= a + b.drop_last());
        assert((a + b).last() == b.last());
    }
}

pub proof fn lemma_comment_lines(ls: Seq<Seq<char>>, eol: Seq<char>)
    ensures
        comment_lines(ls, eol) == join_eol(ls.map_values(|l: Seq<char>| commented(l)), eol),
    decreases ls.len(),
{
    let m = ls.map_values(|l: Seq<char>| commented(l));
    if ls.len() > 0 {
        lemma_comment_lines(ls.drop_last(), eol);
        assert(m.drop_last() =~= ls.drop_last().map_values(|l: Seq<char>| commented(l)));
        assert(comment_lines(ls, eol) =~= join_eol(m, eol));
    } else {
        assert(m =~= Seq::<Seq<char>>::empty());
    }
}

pub proof fn lemma_description_text(d: Seq<Seq<char>>, eol: Seq<char>)
    ensures
        description_text(d, eol) == join_eol(description_lines(d), eol),
    decreases d.len(),
{
    if d.len() > 0 {
        lemma_description_text(d.drop_last(), eol);
        let sep: Seq<Seq<char>> = if d.len() > 1 {
            seq![seq!['#']]
        } else {
            seq![]
        };
        lemma_join_eol_add(description_lines(d.drop_last()), sep, eol);
        lemma_join_eol_add(description_lines(d.drop_last()) + sep, paragraph_lines(d.last()), eol);
        lemma_comment_lines(lines(d.last()), eol);
        if d.len() > 1 {
            lemma_join_eol_single(seq!['#'], eol);
        } else {
            assert(join_eol(sep, eol) =~= Seq::<char>::empty());
        }
        assert(description_text(d, eol) =~= join_eol(description_lines(d), eol));
    }
}

pub proof fn lemma_item_text(item: ItemView, eol: Seq<char>)
    ensures
        item_text(item, eol) == join_eol(item_lines(item), eol),
{
    match item {
        ItemView::Header { text } => {
            lemma_join_eol_single(header_line(text), eol);
            assert(item_text(item, eol) =~= join_eol(item_lines(item), eol));
        },
        ItemView::Variable { key, value, description, is_commented_out, .. } => {
            let tail: Seq<Seq<char>> = seq![assignment_text(key, value, is_commented_out), seq![]];
            lemma_description_text(description, eol);
            lemma_join_eol_add(description_lines(description), tail, eol);
            assert(tail.drop_last() =~= seq![assignment_text(key, value, is_commented_out)]);
            lemma_join_eol_single(assignment_text(key, value, is_commented_out), eol);
            assert(join_eol(tail, eol) =~= assignment_text(key, value, is_commented_out) + eol + eol);
            assert(item_text(item, eol) =~= join_eol(item_lines(item), eol));
        },
    }
}

pub proof fn lemma_serialize_text(items: Seq<ItemView>, eol: Seq<char>)
    ensures
        serialize_text(items, eol) == join_eol(written_lines(items), eol),
    decreases items.len(),
{
    if items.len() > 0 {
        lemma_serialize_text(items.drop_last(), eol);
        lemma_item_text(items.last(), eol);
        lemma_join_eol_add(written_lines(items.drop_last()), item_lines(items.last()), eol);
    }
}

// ---------------------------------------------------------------------------
//  Splitting the written text into lines
// ---------------------------------------------------------------------------

pub proof fn lemma_lines_from_plain(s: Seq<char>, rest: Seq<char>, cur: Seq<char>)
    requires
        !s.contains('\n'),
    ensures
        lines_from(s + rest, cur) == lines_from(rest, cur + s),
    decreases s.len(),
{
    if s.len() == 0 {
        assert(s + rest =~= rest);
        assert(cur + s =~= cur);
    } else {
        assert((s + rest)[0] == s[0]);
        assert((s + rest).drop_first() =~= s.drop_first() + rest);
        assert(!s.drop_first().contains('\n')) by {
            if s.drop_first().contains('\n') {
                let j = choose|j: int| 0 <= j < s.drop_first().len() && s.drop_first()[j] == '\n';
                assert(s[j + 1] == '\n');
            }
        }
        lemma_lines_from_plain(s.drop_first(), rest, cur.push(s[0]));
        assert(cur.push(s[0]) + s.drop_first() =~= cur + s);
    }
}

/// The two line endings that the editor writes.
pub open spec fn is_eol(eol: Seq<char>) -> bool {
    eol == seq!['\n'] || eol == seq!['\r', '\n']
}

/// A line that splitting gives back as it is, after `eol`.
pub open spec fn splits_back(l: Seq<char>, eol: Seq<char>) -> bool {
    &&& !l.contains('\n')
    &&& (eol == seq!['\n'] ==> !(l.len() > 0 && l.last() == '\r'))
}

pub proof fn lemma_lines_of_line(l: Seq<char>, eol: Seq<char>, rest: Seq<char>)
    requires
        is_eol(eol),
        splits_back(l, eol),
    ensures
        lines(l + eol + rest) == seq![l] + lines(rest),
{
    lemma_lines_from_plain(l, eol + rest, seq![]);
    assert(l + eol + rest =~= l + (eol + rest));
    assert(Seq::<char>::empty() + l =~= l);
    if eol == seq!['\n'] {
        assert((eol + rest)[0] == '\n');
        assert((eol + rest).drop_first() =~= rest);
        assert(drop_cr(l) == l);
    } else {
        assert((eol + rest) =~= seq!['\r'] + (seq!['\n'] + rest));
        lemma_lines_from_plain(seq!['\r'], seq!['\n'] + rest, l);
        assert((seq!['\n'] + rest).drop_first() =~= rest);
        assert(drop_cr(l + seq!['\r']) =~= l);
    }
}

pub proof fn lemma_join_eol_front(ls: Seq<Seq<char>>, eol: Seq<char>)
    requires
        ls.len() > 0,
    ensures
        join_eol(ls, eol) == ls[0] + eol + join_eol(ls.drop_first(), eol),
{
    lemma_join_eol_add(seq![ls[0]], ls.drop_first(), eol);
    assert(seq![ls[0]] + ls.drop_first() =~= ls);
    lemma_join_eol_single(ls[0], eol);
}

/// Splitting the lines of `ls` joined with `eol` gives `ls` back.
pub proof fn lemma_lines_of_join(ls: Seq<Seq<char>>, eol: Seq<char>)
    requires
        is_eol(eol),
        forall|i: int| 0 <= i < ls.len() ==> splits_back(#[trigger] ls[i], eol),
    ensures
        lines(join_eol(ls, eol)) == ls,
    decreases ls.len(),
{
    if ls.len() == 0 {
        assert(lines(Seq::<char>::empty()) =~= Seq::<Seq<char>>::empty());
    } else {
        lemma_join_eol_front(ls, eol);
        assert(splits_back(ls[0], eol));
        lemma_lines_of_line(ls[0], eol, join_eol(ls.drop_first(), eol));
        assert forall|i: int| 0 <= i < ls.drop_first().len() implies splits_back(
            #[trigger] ls.drop_first()[i],
            eol,
        ) by {
            assert(ls.drop_first()[i] == ls[i + 1]);
        }
        lemma_lines_of_join(ls.drop_first(), eol);
        assert(seq![ls[0]] + ls.drop_first() =~= ls);
    }
}

/// No line of a text's lines holds a line feed.
pub proof fn lemma_lines_from_no_newline(s: Seq<char>, cur: Seq<char>)
    requires
        !cur.contains('\n'),
    ensures
        forall|i: int|
            0 <= i < lines_from(s, cur).len() ==> !(#[trigger] lines_from(s, cur)[i]).contains(
                '\n',
            ),
    decreases s.len(),
{
    if s.len() == 0 {
        if cur.len() == 0 {
            assert(lines_from(s, cur) =~= Seq::<Seq<char>>::empty());
        } else {
            assert(lines_from(s, cur) =~= seq![cur]);
        }
    } else if s[0] == '\n' {
        lemma_lines_from_no_newline(s.drop_first(), seq![]);
        let rest = lines_from(s.drop_first(), seq![]);
        assert(!drop_cr(cur).contains('\n')) by {
            if drop_cr(cur).contains('\n') {
                let j = choose|j: int| 0 <= j < drop_cr(cur).len() && drop_cr(cur)[j] == '\n';
                assert(cur[j] == '\n');
            }
        }
        assert(lines_from(s, cur) == seq![drop_cr(cur)] + rest);
        assert forall|i: int| 0 <= i < lines_from(s, cur).len() implies !(#[trigger] lines_from(
            s,
            cur,
        )[i]).contains('\n') by {
            if i == 0 {
                assert(lines_from(s, cur)[0] == drop_cr(cur));
            } else {
                assert(lines_from(s, cur)[i] == rest[i - 1]);
            }
        }
    } else {
        assert(!cur.push(s[0]).contains('\n')) by {
            if cur.push(s[0]).contains('\n') {
                let j = choose|j: int| 0 <= j < cur.push(s[0]).len() && cur.push(s[0])[j] == '\n';
                if j < cur.len() {
                    assert(cur[j] == '\n');
                }
            }
        }
        lemma_lines_from_no_newline(s.drop_first(), cur.push(s[0]));
        assert(lines_from(s, cur) == lines_from(s.drop_first(), cur.push(s[0])));
    }
}

// ---------------------------------------------------------------------------
//  The scan as a fold over the lines
// ---------------------------------------------------------------------------

/// The scan state after each line of `tl` in turn.
pub open spec fn run_steps(st: Scan, tl: Seq<Seq<char>>) -> Scan
    decreases tl.len(),
{
    if tl.len() == 0 {
        st
    } else {
        run_steps(line_step(st, tl[0]), tl.drop_first())
    }
}

pub proof fn lemma_run_steps_add(st: Scan, a: Seq<Seq<char>>, b: Seq<Seq<char>>)
    ensures
        run_steps(st, a + b) == run_steps(run_steps(st, a), b),
    decreases a.len(),
{
    if a.len() == 0 {
        assert(a + b =~= b);
    } else {
        assert((a + b)[0] == a[0]);
        assert((a + b).drop_first() =~= a.drop_first() + b);
        lemma_run_steps_add(line_step(st, a[0]), a.drop_first(), b);
    }
}

/// Where no line is a pure separator, no three-line header opens, and the
/// scan is the fold of the line steps.
pub proof fn lemma_scan_is_run(tl: Seq<Seq<char>>, i: int, st: Scan)
    requires
        0 <= i <= tl.len(),
        forall|j: int| i <= j < tl.len() ==> !is_pure_separator(#[trigger] tl[j]),
    ensures
        scan_from(tl, i, st) == run_steps(st, tl.skip(i)).items,
    decreases tl.len() - i,
{
    if i < tl.len() {
        assert(!is_pure_separator(tl[i]));
        assert(!block_header_at(tl, i));
        lemma_scan_is_run(tl, i + 1, line_step(st, tl[i]));
        assert(tl.skip(i)[0] == tl[i]);
        assert(tl.skip(i).drop_first() =~= tl.skip(i + 1));
    } else {
        assert(tl.skip(i) =~= Seq::<Seq<char>>::empty());
    }
}

// ---------------------------------------------------------------------------
//  Trimming
// ---------------------------------------------------------------------------

pub proof fn lemma_strip_lead_prefix(a: Seq<char>, b: Seq<char>, k: Strip)
    requires
        forall|j: int| 0 <= j < a.len() ==> in_class(k, #[trigger] a[j]),
    ensures
        strip_lead(a + b, k) == strip_lead(b, k),
    decreases a.len(),
{
    if a.len() > 0 {
        assert((a + b)[0] == a[0]);
        assert(in_class(k, a[0]));
        assert((a + b).drop_first() =~= a.drop_first() + b);
        assert forall|j: int| 0 <= j < a.drop_first().len() implies in_class(
            k,
            #[trigger] a.drop_first()[j],
        ) by {
            assert(a.drop_first()[j] == a[j + 1]);
        }
        lemma_strip_lead_prefix(a.drop_first(), b, k);
    } else {
        assert(a + b =~= b);
    }
}

pub proof fn lemma_strip_trail_suffix(a: Seq<char>, b: Seq<char>, k: Strip)
    requires
        forall|j: int| 0 <= j < b.len() ==> in_class(k, #[trigger] b[j]),
    ensures
        strip_trail(a + b, k) == strip_trail(a, k),
    decreases b.len(),
{
    if b.len() > 0 {
        assert((a + b).last() == b.last());
        assert(in_class(k, b[b.len() - 1]));
        assert((a + b).drop_last() =~= a + b.drop_last());
        assert forall|j: int| 0 <= j < b.drop_last().len() implies in_class(
            k,
            #[trigger] b.drop_last()[j],
        ) by {
            assert(b.drop_last()[j] == b[j]);
        }
        lemma_strip_trail_suffix(a, b.drop_last(), k);
    } else {
        assert(a + b =~= a);
    }
}

pub proof fn lemma_strip_lead_len(s: Seq<char>, k: Strip)
    ensures
        strip_lead(s, k).len() <= s.len(),
        strip_lead(s, k).len() == s.len() ==> strip_lead(s, k) == s,
    decreases s.len(),
{
    if s.len() > 0 && in_class(k, s[0]) {
        lemma_strip_lead_len(s.drop_first(), k);
    }
}

pub proof fn lemma_strip_trail_len(s: Seq<char>, k: Strip)
    ensures
        strip_trail(s, k).len() <= s.len(),
        strip_trail(s, k).len() == s.len() ==> strip_trail(s, k) == s,
    decreases s.len(),
{
    if s.len() > 0 && in_class(k, s.last()) {
        lemma_strip_trail_len(s.drop_last(), k);
    }
}

/// A text that trimming leaves alone has no white space at either end.
pub proof fn lemma_trimmed_ends(l: Seq<char>)
    requires
        l.len() > 0,
        trim(l) == l,
    ensures
        !is_ws(l[0]),
        !is_ws(l.last()),
{
    lemma_strip_lead_len(l, Strip::Space);
    lemma_strip_trail_len(strip_lead(l, Strip::Space), Strip::Space);
    if is_ws(l[0]) {
        lemma_strip_lead_len(l.drop_first(), Strip::Space);
        assert(strip_lead(l, Strip::Space) == strip_lead(l.drop_first(), Strip::Space));
    }
    assert(strip_lead(l, Strip::Space) == l);
    if is_ws(l.last()) {
        lemma_strip_trail_len(l.drop_last(), Strip::Space);
        assert(strip_trail(l, Strip::Space) == strip_trail(l.drop_last(), Strip::Space));
    }
}

/// A text with no white space at either end is its own trim.
pub proof fn lemma_trim_fixed(l: Seq<char>)
    requires
        l.len() > 0 ==> !is_ws(l[0]) && !is_ws(l.last()),
    ensures
        trim(l) == l,
{
}

// ---------------------------------------------------------------------------
//  How each written line reads back
// ---------------------------------------------------------------------------

/// A line of help text that reads back as written: not empty, no white
/// space at its ends, not a copy hint, and, once written after `# `, not
/// taken for a rule or a header.
pub open spec fn help_line_reads_back(l: Seq<char>) -> bool {
    &&& l.len() > 0
    &&& trim(l) == l
    &&& !is_copy_hint(l)
    &&& !is_pure_separator(commented(l))
    &&& !is_inline_header(commented(l))
}

pub proof fn lemma_help_line(st: Scan, l: Seq<char>)
    requires
        help_line_reads_back(l),
    ensures
        trim(commented(l)) == commented(l),
        line_step(st, commented(l)) == comment_step(st, l),
{
    let t = commented(l);
    lemma_trimmed_ends(l);
    assert(t.last() == l.last());
    assert(t[0] == '#');
    lemma_trim_fixed(t);
    assert(assignment_source(t) is None) by {
        assert(t.drop_first()[0] == ' ');
    }
    assert(assignment(t) is None);
    assert(t.drop_first() =~= seq![' '] + l);
    lemma_strip_lead_prefix(seq![' '], l, Strip::Space);
    assert(trim_start(t.drop_first()) == l);
}

pub proof fn lemma_break_line(st: Scan)
    ensures
        trim(seq!['#']) == seq!['#'],
        line_step(st, seq!['#']) == (Scan { brk: true, ..st }),
{
    let t = seq!['#'];
    lemma_trim_fixed(t);
    assert(!is_pure_separator(t));
    assert(!crate::text::contains_seq(t, "==="@)) by {
        reveal_strlit("===");
    }
    assert(!crate::text::contains_seq(t, "---"@)) by {
        reveal_strlit("---");
    }
    assert(!crate::text::contains_seq(t, "\u{2500}\u{2500}"@)) by {
        reveal_strlit("\u{2500}\u{2500}");
    }
    assert(!crate::text::contains_seq(t, "\u{2501}\u{2501}"@)) by {
        reveal_strlit("\u{2501}\u{2501}");
    }
    assert(!is_inline_header(t));
    assert(t.drop_first() =~= Seq::<char>::empty());
    assert(assignment(t) is None);
    assert(trim_start(t.drop_first()) == Seq::<char>::empty());
    assert(!is_copy_hint(Seq::<char>::empty())) by {
        reveal_strlit("Copy this file");
        reveal_strlit("cp example.env");
    }
}

pub proof fn lemma_empty_line(st: Scan)
    ensures
        trim(Seq::<char>::empty()) == Seq::<char>::empty(),
        line_step(st, Seq::<char>::empty()) == (Scan { brk: true, ..st }),
{
}

// ---------------------------------------------------------------------------
//  Header lines
// ---------------------------------------------------------------------------

/// `s` holds one of the frames that mark a one-line header.
pub open spec fn has_frame(s: Seq<char>) -> bool {
    crate::text::contains_seq(s, "==="@) || crate::text::contains_seq(s, "---"@)
        || crate::text::contains_seq(s, "\u{2500}\u{2500}"@) || crate::text::contains_seq(
        s,
        "\u{2501}\u{2501}"@,
    )
}

/// A header title that reads back as written: one non-empty line that
/// neither starts nor ends with a frame character or white space, holds a
/// character that is neither a rule character nor white space, and is
/// either short enough (62 characters) for the written frame to show `===`,
/// or holding a frame itself.
pub open spec fn title_reads_back(text: Seq<char>) -> bool {
    &&& text.len() > 0
    &&& !text.contains('\n')
    &&& exists|j: int| 0 <= j < text.len() && !crate::text::is_rule_char(#[trigger] text[j]) && !is_ws(text[j])
    &&& !in_class(Strip::Frame, text[0])
    &&& !in_class(Strip::Frame, text.last())
    &&& (text.len() <= 62 || has_frame(text))
}

pub proof fn lemma_contains_shift(s: Seq<char>, a: Seq<char>, b: Seq<char>, p: Seq<char>)
    requires
        crate::text::contains_seq(s, p),
    ensures
        crate::text::contains_seq(a + s + b, p),
{
    let i = choose|i: int| crate::text::occurs_at(s, p, i);
    let t = a + s + b;
    assert(t.subrange(a.len() + i, a.len() + i + p.len()) =~= s.subrange(i, i + p.len()));
    assert(crate::text::occurs_at(t, p, a.len() + i));
}

/// A line made of `a`, the title and `b`, where `a` starts with `#` and
/// `a` and `b` hold only frame characters and white space, reads as a
/// header with that title wherever it holds a frame.
pub proof fn lemma_framed_title(st: Scan, a: Seq<char>, text: Seq<char>, b: Seq<char>)
    requires
        title_reads_back(text),
        a.len() > 0,
        a[0] == '#',
        forall|j: int| 0 <= j < a.len() ==> in_class(Strip::Frame, #[trigger] a[j]),
        forall|j: int| 0 <= j < b.len() ==> in_class(Strip::Frame, #[trigger] b[j]),
        has_frame(a + text + b),
    ensures
        line_step(st, a + text + b) == (Scan {
            items: st.items.push(ItemView::Header { text }),
            paragraphs: seq![],
            brk: true,
        }),
{
    let t = a + text + b;
    assert(t =~= a + (text + b));
    lemma_strip_lead_prefix(a, text + b, Strip::Frame);
    assert((text + b)[0] == text[0]);
    assert(strip_lead(text + b, Strip::Frame) == text + b);
    lemma_strip_trail_suffix(text, b, Strip::Frame);
    assert(strip_trail(text, Strip::Frame) == text);
    assert(header_title(t) == text);
    assert(!is_pure_separator(t)) by {
        let j = choose|j: int| 0 <= j < text.len() && !crate::text::is_rule_char(#[trigger] text[j]) && !is_ws(text[j]);
        assert(t[a.len() + j] == text[j]);
    }
    assert(t[0] == '#');
    assert(is_inline_header(t));
}

/// The written line for a header, once trimmed, reads as that header.
pub proof fn lemma_header_line(st: Scan, text: Seq<char>)
    requires
        title_reads_back(text),
    ensures
        line_step(st, trim(header_line(text))) == (Scan {
            items: st.items.push(ItemView::Header { text }),
            paragraphs: seq![],
            brk: true,
        }),
        !is_pure_separator(trim(header_line(text))),
        !header_line(text).contains('\n'),
        header_line(text).len() > 0,
        header_line(text).last() != '\r',
{
    let framed = seq![' '] + text + seq![' '];
    let h = header_line(text);
    let n = framed.len();
    assert(!in_class(Strip::Space, text[0]));
    assert(!in_class(Strip::Space, text.last()));
    if n >= header_width() {
        assert(h =~= seq!['#', ' ', ' '] + text + seq![' ']);
        let a = seq!['#', ' ', ' '];
        lemma_strip_trail_suffix(a + text, seq![' '], Strip::Space);
        assert((a + text).last() == text.last());
        assert(strip_trail(a + text, Strip::Space) == a + text);
        assert(strip_lead(h, Strip::Space) == h);
        assert(trim(h) == a + text);
        assert(text.len() > 62);
        assert(has_frame(text));
        assert(has_frame(a + text + Seq::<char>::empty())) by {
            if crate::text::contains_seq(text, "==="@) {
                lemma_contains_shift(text, a, Seq::<char>::empty(), "==="@);
            } else if crate::text::contains_seq(text, "---"@) {
                lemma_contains_shift(text, a, Seq::<char>::empty(), "---"@);
            } else if crate::text::contains_seq(text, "\u{2500}\u{2500}"@) {
                lemma_contains_shift(text, a, Seq::<char>::empty(), "\u{2500}\u{2500}"@);
            } else {
                lemma_contains_shift(text, a, Seq::<char>::empty(), "\u{2501}\u{2501}"@);
            }
        }
        assert(a + text + Seq::<char>::empty() =~= a + text);
        lemma_framed_title(st, a, text, Seq::<char>::empty());
        assert(!is_pure_separator(a + text)) by {
            let j = choose|j: int| 0 <= j < text.len() && !crate::text::is_rule_char(#[trigger] text[j]) && !is_ws(text[j]);
            assert((a + text)[3 + j] == text[j]);
        }
        assert(!h.contains('\n')) by {
            if h.contains('\n') {
                let j = choose|j: int| 0 <= j < h.len() && h[j] == '\n';
                assert(text[j - 3] == '\n');
            }
        }
    } else {
        let pad = (header_width() - n) as nat;
        let left = pad / 2;
        let right = (pad - left) as nat;
        let rl = crate::serialize::repeat_char('=', left);
        let rr = crate::serialize::repeat_char('=', right);
        let a = seq!['#', ' '] + rl + seq![' '];
        let b = seq![' '] + rr;
        assert(h =~= a + text + b);
        assert(h.last() == '=');
        assert(trim(h) == h);
        assert forall|j: int| 0 <= j < a.len() implies in_class(Strip::Frame, #[trigger] a[j]) by {
            if 2 <= j < 2 + left {
                assert(a[j] == rl[j - 2]);
            }
        }
        assert forall|j: int| 0 <= j < b.len() implies in_class(Strip::Frame, #[trigger] b[j]) by {
            if j >= 1 {
                assert(b[j] == rr[j - 1]);
            }
        }
        assert(has_frame(a + text + b)) by {
            if text.len() <= 62 {
                reveal_strlit("===");
                assert(right >= 3);
                let t = a + text + b;
                let i: int = (a.len() + text.len() + 1) as int;
                assert(t.subrange(i, i + 3) =~= "==="@);
                assert(crate::text::occurs_at(t, "==="@, i));
            } else if crate::text::contains_seq(text, "==="@) {
                lemma_contains_shift(text, a, b, "==="@);
            } else if crate::text::contains_seq(text, "---"@) {
                lemma_contains_shift(text, a, b, "---"@);
            } else if crate::text::contains_seq(text, "\u{2500}\u{2500}"@) {
                lemma_contains_shift(text, a, b, "\u{2500}\u{2500}"@);
            } else {
                lemma_contains_shift(text, a, b, "\u{2501}\u{2501}"@);
            }
        }
        lemma_framed_title(st, a, text, b);
        assert(!is_pure_separator(h)) by {
            let j = choose|j: int| 0 <= j < text.len() && !crate::text::is_rule_char(#[trigger] text[j]) && !is_ws(text[j]);
            assert(h[a.len() + j] == text[j]);
        }
        assert(!h.contains('\n')) by {
            if h.contains('\n') {
                let j = choose|j: int| 0 <= j < h.len() && h[j] == '\n';
                if j < a.len() {
                    assert(h[j] == a[j]);
                    if 2 <= j < 2 + left {
                        assert(a[j] == rl[j - 2]);
                    }
                } else if j < a.len() + text.len() {
                    assert(text[j - a.len()] == '\n');
                } else {
                    assert(h[j] == b[j - a.len() - text.len()]);
                    if j - a.len() - text.len() >= 1 {
                        assert(b[j - a.len() - text.len()] == rr[j - a.len() - text.len() - 1]);
                    }
                }
            }
        }
    }
}

// ---------------------------------------------------------------------------
//  Assignment lines
// ---------------------------------------------------------------------------

/// A variable name that reads back: non-empty, starting with an ASCII
/// letter or `_`, made of ASCII letters, digits and `_`.
pub open spec fn key_reads_back(key: Seq<char>) -> bool {
    &&& key.len() > 0
    &&& (crate::text::is_ascii_alpha(key[0]) || key[0] == '_')
    &&& forall|j: int| 0 <= j < key.len() ==> is_key_char(#[trigger] key[j])
}

/// A value that reads back: one line, no white space at its ends.
pub open spec fn value_reads_back(value: Seq<char>) -> bool {
    &&& !value.contains('\n')
    &&& trim(value) == value
}

pub proof fn lemma_assignment_line(st: Scan, key: Seq<char>, value: Seq<char>, c: bool)
    requires
        key_reads_back(key),
        value_reads_back(value),
        c ==> !is_inline_header(assignment_text(key, value, true)),
    ensures
        trim(assignment_text(key, value, c)) == assignment_text(key, value, c),
        !is_pure_separator(assignment_text(key, value, c)),
        !assignment_text(key, value, c).contains('\n'),
        assignment_text(key, value, c).len() > 0,
        assignment_text(key, value, c).last() != '\r',
        line_step(st, assignment_text(key, value, c)) == (Scan {
            items: st.items.push(variable_of(assignment_text(key, value, c), key, value, st.paragraphs)),
            paragraphs: seq![],
            brk: true,
        }),
        crate::parse::is_commented(assignment_text(key, value, c)) == c,
{
    let l = key + seq!['='] + value;
    let t = assignment_text(key, value, c);
    assert(is_key_char(key[0]));
    assert(is_key_char(key.last()));
    if value.len() > 0 {
        lemma_trimmed_ends(value);
    }
    if c {
        assert(t =~= seq!['#'] + l);
    } else {
        assert(t =~= l);
    }
    assert(t.last() == (if value.len() > 0 { value.last() } else { '=' }));
    lemma_trim_fixed(t);
    // The line holds no line feed.
    assert(!t.contains('\n')) by {
        if t.contains('\n') {
            let j = choose|j: int| 0 <= j < t.len() && t[j] == '\n';
            let o: int = if c { 1 } else { 0 };
            if j >= o && j < o + key.len() {
                assert(is_key_char(key[j - o]));
            } else if j > o + key.len() {
                assert(value[j - o - key.len() - 1] == '\n');
            }
        }
    }
    // It is no rule.
    assert(!is_pure_separator(t)) by {
        if c {
            assert(t[1] == key[0]);
        }
    }
    // The key ends at the first `=`.
    assert(crate::text::first_is(l, '=', key.len() as int)) by {
        assert forall|j: int| 0 <= j < key.len() implies l[j] != '=' by {
            assert(is_key_char(key[j]));
        }
    }
    assert(l.contains('='));
    let i = choose|i: int| crate::text::first_is(l, '=', i);
    crate::text::lemma_first_unique(l, '=', i, key.len() as int);
    assert(l.take(key.len() as int) =~= key);
    assert(l.skip(key.len() as int + 1) =~= value);
    assert(crate::text::split_first(l, '=') == Some((key, value)));
    lemma_trim_fixed(key);
    assert(assignment_source(t) == Some(l)) by {
        if c {
            assert(t.drop_first() =~= l);
            assert(!is_ws(key[0]));
        }
    }
    assert(assignment(t) == Some((key, value)));
    if !c {
        assert(t[0] == key[0]);
        assert(!is_inline_header(t));
    }
}


// ---------------------------------------------------------------------------
//  Paragraphs of help text
// ---------------------------------------------------------------------------

/// Lines joined with line feeds between them.
pub open spec fn join_lines(ls: Seq<Seq<char>>) -> Seq<char>
    decreases ls.len(),
{
    if ls.len() == 0 {
        seq![]
    } else if ls.len() == 1 {
        ls[0]
    } else {
        join_lines(ls.drop_last()) + seq!['\n'] + ls.last()
    }
}

/// A paragraph that reads back as written: it is its lines joined with
/// line feeds, each line reads back, and every line after the first is a
/// legend entry, which the reader keeps on a line of its own.
pub open spec fn paragraph_reads_back(p: Seq<char>) -> bool {
    let ls = lines(p);
    &&& ls.len() > 0
    &&& join_lines(ls) == p
    &&& forall|j: int| 0 <= j < ls.len() ==> help_line_reads_back(#[trigger] ls[j])
    &&& forall|j: int| 1 <= j < ls.len() ==> is_legend_entry(#[trigger] ls[j])
}

/// Help text that reads back as written: each paragraph does, and no
/// paragraph but the first starts with a legend entry, which the reader
/// would join to the paragraph before.
pub open spec fn description_reads_back(d: Seq<Seq<char>>) -> bool {
    forall|k: int|
        0 <= k < d.len() ==> paragraph_reads_back(#[trigger] d[k]) && (k > 0
            ==> !is_legend_entry(lines(d[k])[0]))
}

pub proof fn lemma_run_single(st: Scan, x: Seq<char>)
    ensures
        run_steps(st, seq![x]) == line_step(st, x),
{
    assert(seq![x].drop_first() =~= Seq::<Seq<char>>::empty());
    assert(seq![x][0] == x);
    assert(run_steps(line_step(st, x), Seq::<Seq<char>>::empty()) == line_step(st, x));
}

/// The first `k` lines of a paragraph, written as comments, read back as
/// one more paragraph holding those lines.
proof fn lemma_paragraph_prefix(st: Scan, ls: Seq<Seq<char>>, k: int)
    requires
        1 <= k <= ls.len(),
        st.brk,
        st.paragraphs.len() > 0 ==> !is_legend_entry(ls[0]),
        forall|j: int| 0 <= j < ls.len() ==> help_line_reads_back(#[trigger] ls[j]),
        forall|j: int| 1 <= j < ls.len() ==> is_legend_entry(#[trigger] ls[j]),
    ensures
        run_steps(st, ls.take(k).map_values(|l: Seq<char>| commented(l))) == (Scan {
            items: st.items,
            paragraphs: st.paragraphs.push(join_lines(ls.take(k))),
            brk: false,
        }),
    decreases k,
{
    let m = ls.take(k).map_values(|l: Seq<char>| commented(l));
    if k == 1 {
        assert(m =~= seq![commented(ls[0])]);
        lemma_run_single(st, commented(ls[0]));
        assert(help_line_reads_back(ls[0]));
        lemma_help_line(st, ls[0]);
        assert(ls.take(1) =~= seq![ls[0]]);
    } else {
        lemma_paragraph_prefix(st, ls, k - 1);
        let m0 = ls.take(k - 1).map_values(|l: Seq<char>| commented(l));
        assert(m =~= m0 + seq![commented(ls[k - 1])]);
        lemma_run_steps_add(st, m0, seq![commented(ls[k - 1])]);
        let mid = run_steps(st, m0);
        lemma_run_single(mid, commented(ls[k - 1]));
        assert(help_line_reads_back(ls[k - 1]));
        assert(is_legend_entry(ls[k - 1]));
        lemma_help_line(mid, ls[k - 1]);
        assert(ls.take(k).drop_last() =~= ls.take(k - 1));
        assert(ls.take(k).last() == ls[k - 1]);
        let n = mid.paragraphs.len();
        assert(mid.paragraphs.update(n - 1, mid.paragraphs[n - 1] + seq!['\n'] + ls[k - 1])
            =~= st.paragraphs.push(join_lines(ls.take(k))));
    }
}

/// A paragraph written as comment lines reads back as that paragraph.
pub proof fn lemma_paragraph(st: Scan, p: Seq<char>)
    requires
        paragraph_reads_back(p),
        st.brk,
        st.paragraphs.len() > 0 ==> !is_legend_entry(lines(p)[0]),
    ensures
        run_steps(st, paragraph_lines(p)) == (Scan {
            items: st.items,
            paragraphs: st.paragraphs.push(p),
            brk: false,
        }),
{
    let ls = lines(p);
    lemma_paragraph_prefix(st, ls, ls.len() as int);
    assert(ls.take(ls.len() as int) =~= ls);
}

/// Help text written before a variable reads back as that help text.
pub proof fn lemma_description(st: Scan, d: Seq<Seq<char>>)
    requires
        description_reads_back(d),
        st.brk,
        st.paragraphs.len() == 0,
    ensures
        run_steps(st, description_lines(d)) == (Scan {
            items: st.items,
            paragraphs: d,
            brk: d.len() == 0,
        }),
    decreases d.len(),
{
    if d.len() == 0 {
        assert(st.paragraphs =~= d);
    } else {
        let d0 = d.drop_last();
        assert(description_reads_back(d0)) by {
            assert forall|k: int| 0 <= k < d0.len() implies paragraph_reads_back(#[trigger] d0[k])
                && (k > 0 ==> !is_legend_entry(lines(d0[k])[0])) by {
                assert(d0[k] == d[k]);
            }
        }
        lemma_description(st, d0);
        let s0 = run_steps(st, description_lines(d0));
        let sep: Seq<Seq<char>> = if d.len() > 1 {
            seq![seq!['#']]
        } else {
            seq![]
        };
        lemma_run_steps_add(st, description_lines(d0), sep);
        lemma_run_steps_add(st, description_lines(d0) + sep, paragraph_lines(d.last()));
        let s1 = run_steps(s0, sep);
        if d.len() > 1 {
            lemma_run_single(s0, seq!['#']);
            lemma_break_line(s0);
        } else {
            assert(s1 == s0);
        }
        assert(s1 == (Scan { items: st.items, paragraphs: d0, brk: true }));
        assert(paragraph_reads_back(d[d.len() - 1]));
        lemma_paragraph(s1, d.last());
        assert(d0.push(d.last()) =~= d);
    }
}


// ---------------------------------------------------------------------------
//  Lines that split back and hold no rule
// ---------------------------------------------------------------------------

/// Each line trimmed.
pub open spec fn trims(ls: Seq<Seq<char>>) -> Seq<Seq<char>> {
    ls.map_values(|l: Seq<char>| trim(l))
}

/// A written line that splitting gives back, and that trimmed is no rule.
pub open spec fn line_fits(l: Seq<char>, eol: Seq<char>) -> bool {
    splits_back(l, eol) && !is_pure_separator(trim(l))
}

/// Every line fits.
pub open spec fn all_fit(ls: Seq<Seq<char>>, eol: Seq<char>) -> bool {
    forall|j: int| 0 <= j < ls.len() ==> line_fits(#[trigger] ls[j], eol)
}

/// Every line fits and trimming leaves it alone.
pub open spec fn all_clean(ls: Seq<Seq<char>>, eol: Seq<char>) -> bool {
    forall|j: int| 0 <= j < ls.len() ==> trim(#[trigger] ls[j]) == ls[j] && line_fits(ls[j], eol)
}

pub proof fn lemma_clean_add(a: Seq<Seq<char>>, b: Seq<Seq<char>>, eol: Seq<char>)
    requires
        all_clean(a, eol),
        all_clean(b, eol),
    ensures
        all_clean(a + b, eol),
{
    assert forall|j: int| 0 <= j < (a + b).len() implies trim(#[trigger] (a + b)[j]) == (a
        + b)[j] && line_fits((a + b)[j], eol) by {
        if j < a.len() {
            assert((a + b)[j] == a[j]);
        } else {
            assert((a + b)[j] == b[j - a.len()]);
        }
    }
}

pub proof fn lemma_fit_add(a: Seq<Seq<char>>, b: Seq<Seq<char>>, eol: Seq<char>)
    requires
        all_fit(a, eol),
        all_fit(b, eol),
    ensures
        all_fit(a + b, eol),
{
    assert forall|j: int| 0 <= j < (a + b).len() implies line_fits(#[trigger] (a + b)[j], eol) by {
        if j < a.len() {
            assert((a + b)[j] == a[j]);
        } else {
            assert((a + b)[j] == b[j - a.len()]);
        }
    }
}

pub proof fn lemma_clean_trims(ls: Seq<Seq<char>>, eol: Seq<char>)
    requires
        all_clean(ls, eol),
    ensures
        trims(ls) == ls,
        all_fit(ls, eol),
{
    assert(trims(ls) =~= ls);
}

pub proof fn lemma_trims_add(a: Seq<Seq<char>>, b: Seq<Seq<char>>)
    ensures
        trims(a + b) == trims(a) + trims(b),
{
    assert(trims(a + b) =~= trims(a) + trims(b));
}

/// A help line written after `# ` is clean.
pub proof fn lemma_help_line_clean(l: Seq<char>, eol: Seq<char>)
    requires
        help_line_reads_back(l),
        !l.contains('\n'),
        is_eol(eol),
    ensures
        trim(commented(l)) == commented(l),
        line_fits(commented(l), eol),
{
    let t = commented(l);
    lemma_help_line(initial_scan(), l);
    lemma_trimmed_ends(l);
    assert(t.last() == l.last());
    assert(!t.contains('\n')) by {
        if t.contains('\n') {
            let j = choose|j: int| 0 <= j < t.len() && t[j] == '\n';
            assert(l[j - 2] == '\n');
        }
    }
}

/// The lines written for a paragraph are clean.
pub proof fn lemma_paragraph_clean(p: Seq<char>, eol: Seq<char>)
    requires
        paragraph_reads_back(p),
        is_eol(eol),
    ensures
        all_clean(paragraph_lines(p), eol),
{
    let ls = lines(p);
    let pl = paragraph_lines(p);
    lemma_lines_from_no_newline(p, seq![]);
    assert forall|j: int| 0 <= j < pl.len() implies trim(#[trigger] pl[j]) == pl[j] && line_fits(
        pl[j],
        eol,
    ) by {
        assert(pl[j] == commented(ls[j]));
        assert(help_line_reads_back(ls[j]));
        lemma_help_line_clean(ls[j], eol);
    }
}

/// The lines written for help text are clean.
pub proof fn lemma_description_clean(d: Seq<Seq<char>>, eol: Seq<char>)
    requires
        description_reads_back(d),
        is_eol(eol),
    ensures
        all_clean(description_lines(d), eol),
    decreases d.len(),
{
    if d.len() == 0 {
        assert(description_lines(d) =~= Seq::<Seq<char>>::empty());
    } else {
        let d0 = d.drop_last();
        assert(description_reads_back(d0)) by {
            assert forall|k: int| 0 <= k < d0.len() implies paragraph_reads_back(#[trigger] d0[k])
                && (k > 0 ==> !is_legend_entry(lines(d0[k])[0])) by {
                assert(d0[k] == d[k]);
            }
        }
        lemma_description_clean(d0, eol);
        let sep: Seq<Seq<char>> = if d.len() > 1 {
            seq![seq!['#']]
        } else {
            seq![]
        };
        assert(all_clean(sep, eol)) by {
            if d.len() > 1 {
                lemma_break_line(initial_scan());
                assert(!seq!['#'].contains('\n')) by {
                    if seq!['#'].contains('\n') {
                        let j = choose|j: int| 0 <= j < 1 && seq!['#'][j] == '\n';
                    }
                }
                assert(!is_pure_separator(seq!['#']));
                assert(sep[0] == seq!['#']);
            }
        }
        assert(paragraph_reads_back(d[d.len() - 1]));
        lemma_paragraph_clean(d.last(), eol);
        lemma_clean_add(description_lines(d0), sep, eol);
        lemma_clean_add(description_lines(d0) + sep, paragraph_lines(d.last()), eol);
    }
}


// ---------------------------------------------------------------------------
//  Items
// ---------------------------------------------------------------------------

/// An item that reads back as written: a header whose title does, or a
/// variable whose name, value and help text do, whose commented-out line
/// is not taken for a header, and whose value starts hidden exactly when
/// its name is sensitive.
pub open spec fn item_reads_back(item: ItemView) -> bool {
    match item {
        ItemView::Header { text } => title_reads_back(text),
        ItemView::Variable { key, value, description, is_commented_out, show_password } => {
            &&& key_reads_back(key)
            &&& value_reads_back(value)
            &&& description_reads_back(description)
            &&& (is_commented_out ==> !is_inline_header(assignment_text(key, value, true)))
            &&& show_password == !is_sensitive(key)
        },
    }
}

/// The trimmed lines written for an item read back as that item.
pub proof fn lemma_item(st: Scan, item: ItemView, eol: Seq<char>)
    requires
        item_reads_back(item),
        is_eol(eol),
        st.brk,
        st.paragraphs.len() == 0,
    ensures
        run_steps(st, trims(item_lines(item))) == (Scan {
            items: st.items.push(item),
            paragraphs: seq![],
            brk: true,
        }),
        all_fit(item_lines(item), eol),
{
    match item {
        ItemView::Header { text } => {
            let h = header_line(text);
            assert(trims(item_lines(item)) =~= seq![trim(h)]);
            lemma_run_single(st, trim(h));
            lemma_header_line(st, text);
            assert(item_lines(item)[0] == h);
            assert(all_fit(item_lines(item), eol));
        },
        ItemView::Variable { key, value, description, is_commented_out, show_password } => {
            let a = assignment_text(key, value, is_commented_out);
            let tail: Seq<Seq<char>> = seq![a, seq![]];
            lemma_description_clean(description, eol);
            lemma_description(st, description);
            let s0 = run_steps(st, description_lines(description));
            lemma_assignment_line(s0, key, value, is_commented_out);
            assert(all_clean(tail, eol)) by {
                assert(tail[0] == a);
                assert(tail[1] == Seq::<char>::empty());
                assert(!Seq::<char>::empty().contains('\n'));
            }
            lemma_clean_add(description_lines(description), tail, eol);
            lemma_clean_trims(item_lines(item), eol);
            lemma_run_steps_add(st, description_lines(description), tail);
            assert(tail.drop_first() =~= seq![Seq::<char>::empty()]);
            assert(tail[0] == a);
            let s1 = line_step(s0, a);
            assert(run_steps(s0, tail) == run_steps(s1, seq![Seq::<char>::empty()]));
            lemma_run_single(s1, Seq::<char>::empty());
            lemma_empty_line(s1);
            assert(s0.paragraphs == description);
            assert(variable_of(a, key, value, description) == item);
        },
    }
}

/// The trimmed lines written for a list of items read back as those items.
pub proof fn lemma_written(items: Seq<ItemView>, eol: Seq<char>)
    requires
        is_eol(eol),
        forall|i: int| 0 <= i < items.len() ==> item_reads_back(#[trigger] items[i]),
    ensures
        run_steps(initial_scan(), trims(written_lines(items))) == (Scan {
            items,
            paragraphs: seq![],
            brk: true,
        }),
        all_fit(written_lines(items), eol),
    decreases items.len(),
{
    if items.len() == 0 {
        assert(trims(written_lines(items)) =~= Seq::<Seq<char>>::empty());
        assert(initial_scan().items =~= items);
    } else {
        let i0 = items.drop_last();
        assert forall|i: int| 0 <= i < i0.len() implies item_reads_back(#[trigger] i0[i]) by {
            assert(i0[i] == items[i]);
        }
        lemma_written(i0, eol);
        let s0 = run_steps(initial_scan(), trims(written_lines(i0)));
        assert(item_reads_back(items[items.len() - 1]));
        lemma_item(s0, items.last(), eol);
        lemma_trims_add(written_lines(i0), item_lines(items.last()));
        lemma_run_steps_add(initial_scan(), trims(written_lines(i0)), trims(item_lines(items.last())));
        lemma_fit_add(written_lines(i0), item_lines(items.last()), eol);
        assert(i0.push(items.last()) =~= items);
    }
}


// ---------------------------------------------------------------------------
//  Line endings
// ---------------------------------------------------------------------------

/// `s` with each line feed written as carriage return and line feed.
pub open spec fn crlf(s: Seq<char>) -> Seq<char>
    decreases s.len(),
{
    if s.len() == 0 {
        seq![]
    } else {
        crlf(s.drop_last()) + (if s.last() == '\n' {
            seq!['\r', '\n']
        } else {
            seq![s.last()]
        })
    }
}

pub proof fn lemma_crlf_add(a: Seq<char>, b: Seq<char>)
    ensures
        crlf(a + b) == crlf(a) + crlf(b),
    decreases b.len(),
{
    if b.len() == 0 {
        assert(a + b =~= a);
        assert(crlf(a) + crlf(b) =~= crlf(a));
    } else {
        lemma_crlf_add(a, b.drop_last());
        assert((a + b).drop_last() =~= a + b.drop_last());
        assert((a + b).last() == b.last());
        let tail: Seq<char> = if b.last() == '\n' {
            seq!['\r', '\n']
        } else {
            seq![b.last()]
        };
        assert(crlf(a) + crlf(b.drop_last()) + tail =~= crlf(a) + (crlf(b.drop_last()) + tail));
    }
}

/// A text without line feeds keeps its form.
pub proof fn lemma_crlf_plain(s: Seq<char>)
    requires
        !s.contains('\n'),
    ensures
        crlf(s) == s,
    decreases s.len(),
{
    if s.len() > 0 {
        assert(!s.drop_last().contains('\n')) by {
            if s.drop_last().contains('\n') {
                let j = choose|j: int| 0 <= j < s.drop_last().len() && s.drop_last()[j] == '\n';
                assert(s[j] == '\n');
            }
        }
        lemma_crlf_plain(s.drop_last());
        assert(s.last() != '\n') by {
            if s.last() == '\n' {
                assert(s[s.len() - 1] == '\n');
            }
        }
        assert(s.drop_last() + seq![s.last()] =~= s);
    }
}

/// No line holds a line feed.
pub open spec fn lines_plain(ls: Seq<Seq<char>>) -> bool {
    forall|j: int| 0 <= j < ls.len() ==> !(#[trigger] ls[j]).contains('\n')
}

pub proof fn lemma_plain_add(a: Seq<Seq<char>>, b: Seq<Seq<char>>)
    requires
        lines_plain(a),
        lines_plain(b),
    ensures
        lines_plain(a + b),
{
    assert forall|j: int| 0 <= j < (a + b).len() implies !(#[trigger] (a + b)[j]).contains('\n') by {
        if j < a.len() {
            assert((a + b)[j] == a[j]);
        } else {
            assert((a + b)[j] == b[j - a.len()]);
        }
    }
}

pub proof fn lemma_no_newline_add(a: Seq<char>, b: Seq<char>)
    requires
        !a.contains('\n'),
        !b.contains('\n'),
    ensures
        !(a + b).contains('\n'),
{
    if (a + b).contains('\n') {
        let j = choose|j: int| 0 <= j < (a + b).len() && (a + b)[j] == '\n';
        if j < a.len() {
            assert(a[j] == '\n');
        } else {
            assert(b[j - a.len()] == '\n');
        }
    }
}

/// Lines joined with LF, with each line feed written as CR LF, are the
/// lines joined with CR LF, where no line holds a line feed.
pub proof fn lemma_crlf_join(ls: Seq<Seq<char>>)
    requires
        lines_plain(ls),
    ensures
        crlf(join_eol(ls, seq!['\n'])) == join_eol(ls, seq!['\r', '\n']),
    decreases ls.len(),
{
    if ls.len() > 0 {
        let l0 = ls.drop_last();
        assert forall|j: int| 0 <= j < l0.len() implies !(#[trigger] l0[j]).contains('\n') by {
            assert(l0[j] == ls[j]);
        }
        lemma_crlf_join(l0);
        assert(!ls.last().contains('\n')) by {
            assert(ls.last() == ls[ls.len() - 1]);
        }
        lemma_crlf_add(join_eol(l0, seq!['\n']) + ls.last(), seq!['\n']);
        lemma_crlf_add(join_eol(l0, seq!['\n']), ls.last());
        lemma_crlf_plain(ls.last());
        assert(seq!['\n'].drop_last() =~= Seq::<char>::empty());
        assert(seq!['\n'].last() == '\n');
        assert(crlf(Seq::<char>::empty()) == Seq::<char>::empty());
        assert(crlf(seq!['\n']) =~= Seq::<char>::empty() + seq!['\r', '\n']);
        assert(crlf(seq!['\n']) =~= seq!['\r', '\n']);
    }
}

/// A text without line feeds, its characters repeated: none.
proof fn lemma_repeat_plain(c: char, n: nat)
    requires
        c != '\n',
    ensures
        !crate::serialize::repeat_char(c, n).contains('\n'),
{
}

/// The written header line holds no line feed where the title holds none.
pub proof fn lemma_header_line_plain(text: Seq<char>)
    requires
        !text.contains('\n'),
    ensures
        !header_line(text).contains('\n'),
{
    let framed = seq![' '] + text + seq![' '];
    assert(!seq![' '].contains('\n')) by {
        if seq![' '].contains('\n') {
            let j = choose|j: int| 0 <= j < 1 && seq![' '][j] == '\n';
        }
    }
    assert(!seq!['#', ' '].contains('\n')) by {
        if seq!['#', ' '].contains('\n') {
            let j = choose|j: int| 0 <= j < 2 && seq!['#', ' '][j] == '\n';
        }
    }
    lemma_no_newline_add(seq![' '], text);
    lemma_no_newline_add(seq![' '] + text, seq![' ']);
    let n = framed.len();
    if n >= header_width() {
        lemma_no_newline_add(seq!['#', ' '], framed);
    } else {
        let pad = (header_width() - n) as nat;
        let left = pad / 2;
        let rl = crate::serialize::repeat_char('=', left);
        let rr = crate::serialize::repeat_char('=', (pad - left) as nat);
        lemma_repeat_plain('=', left);
        lemma_repeat_plain('=', (pad - left) as nat);
        lemma_no_newline_add(rl, framed);
        lemma_no_newline_add(rl + framed, rr);
        lemma_no_newline_add(seq!['#', ' '], rl + framed + rr);
        assert(header_line(text) =~= seq!['#', ' '] + (rl + framed + rr));
    }
}

/// Help text written as lines holds no line feed in any line.
pub proof fn lemma_description_plain(d: Seq<Seq<char>>)
    ensures
        lines_plain(description_lines(d)),
    decreases d.len(),
{
    if d.len() == 0 {
        assert(description_lines(d) =~= Seq::<Seq<char>>::empty());
    } else {
        lemma_description_plain(d.drop_last());
        let sep: Seq<Seq<char>> = if d.len() > 1 {
            seq![seq!['#']]
        } else {
            seq![]
        };
        assert(lines_plain(sep)) by {
            if d.len() > 1 {
                assert(sep[0] == seq!['#']);
                assert(!seq!['#'].contains('\n')) by {
                    if seq!['#'].contains('\n') {
                        let j = choose|j: int| 0 <= j < 1 && seq!['#'][j] == '\n';
                    }
                }
            }
        }
        let ls = lines(d.last());
        let pl = paragraph_lines(d.last());
        lemma_lines_from_no_newline(d.last(), seq![]);
        assert(lines_plain(pl)) by {
            assert forall|j: int| 0 <= j < pl.len() implies !(#[trigger] pl[j]).contains('\n') by {
                assert(pl[j] == commented(ls[j]));
                assert(!ls[j].contains('\n'));
                assert(!seq!['#', ' '].contains('\n')) by {
                    if seq!['#', ' '].contains('\n') {
                        let i = choose|i: int| 0 <= i < 2 && seq!['#', ' '][i] == '\n';
                    }
                }
                lemma_no_newline_add(seq!['#', ' '], ls[j]);
            }
        }
        lemma_plain_add(description_lines(d.drop_last()), sep);
        lemma_plain_add(description_lines(d.drop_last()) + sep, pl);
    }
}

/// Headers, names and values without line feeds.
pub open spec fn single_line_item(item: ItemView) -> bool {
    match item {
        ItemView::Header { text } => !text.contains('\n'),
        ItemView::Variable { key, value, .. } => !key.contains('\n') && !value.contains('\n'),
    }
}

/// No written line holds a line feed where headers, names and values hold
/// none.
pub proof fn lemma_written_plain(items: Seq<ItemView>)
    requires
        forall|i: int| 0 <= i < items.len() ==> single_line_item(#[trigger] items[i]),
    ensures
        lines_plain(written_lines(items)),
    decreases items.len(),
{
    if items.len() == 0 {
        assert(written_lines(items) =~= Seq::<Seq<char>>::empty());
    } else {
        let i0 = items.drop_last();
        assert forall|i: int| 0 <= i < i0.len() implies single_line_item(#[trigger] i0[i]) by {
            assert(i0[i] == items[i]);
        }
        lemma_written_plain(i0);
        let it = items.last();
        assert(single_line_item(items[items.len() - 1]));
        assert(lines_plain(item_lines(it))) by {
            match it {
                ItemView::Header { text } => {
                    lemma_header_line_plain(text);
                    assert(item_lines(it)[0] == header_line(text));
                },
                ItemView::Variable { key, value, description, is_commented_out, .. } => {
                    let a = assignment_text(key, value, is_commented_out);
                    let tail: Seq<Seq<char>> = seq![a, seq![]];
                    let c: Seq<char> = if is_commented_out {
                        seq!['#']
                    } else {
                        seq![]
                    };
                    assert(!c.contains('\n')) by {
                        if c.contains('\n') {
                            let j = choose|j: int| 0 <= j < c.len() && c[j] == '\n';
                        }
                    }
                    assert(!seq!['='].contains('\n')) by {
                        if seq!['='].contains('\n') {
                            let j = choose|j: int| 0 <= j < 1 && seq!['='][j] == '\n';
                        }
                    }
                    lemma_no_newline_add(c, key);
                    lemma_no_newline_add(c + key, seq!['=']);
                    lemma_no_newline_add(c + key + seq!['='], value);
                    assert(lines_plain(tail)) by {
                        assert(tail[0] == a);
                        assert(tail[1] == Seq::<char>::empty());
                    }
                    lemma_description_plain(description);
                    lemma_plain_add(description_lines(description), tail);
                },
            }
        }
        lemma_plain_add(written_lines(i0), item_lines(it));
    }
}

} // verus!
