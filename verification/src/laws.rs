//! What holds of the library's operations in general.
use vstd::prelude::*;
use crate::app::{RemoteForm, validation};
use crate::numeral::digits_value;
use crate::item::{is_visible, unicode_lower};
use crate::item::{ItemView, is_sensitive};
use crate::merge::{find_var, first_var_is, is_var_named, merge_count, merged_item, merged_items};
use crate::parse::{
    Scan, assignment, assignment_text as assignment_source, block_header_at, comment_step,
    header_title, initial_scan, is_commented, is_copy_hint, is_legend_entry, is_inline_header, is_pure_separator, line_step, parse_text,
    scan_from, trimmed_lines, variable_of, with_header,
};
use crate::roundtrip::{
    all_fit, commented, crlf, is_eol, lemma_help_line, lemma_strip_lead_prefix, lemma_trimmed_ends, item_reads_back, single_line_item, lemma_crlf_join, lemma_written_plain, key_reads_back, lemma_lines_of_join, lemma_scan_is_run, lemma_serialize_text,
    lemma_written, trims, written_lines,
};
use crate::remote::{SavedConnection, not_named, others_than, key_accepted, remembered_key, lemma_without_trailing_slashes, without_trailing_slashes};
use crate::session::{last_slash_is, navigate_target, profile_name_text};
use crate::serialize::serialize_text;
use crate::text::{
    Strip, ascii_upper, first_is, is_ascii_alpha, is_ws, split_first, strip_trail, lemma_first_exists, lemma_strip_trail_prefix, lemma_trim_ends, strip_lead,
    contains_seq, ends_with, is_ascii_digit, occurs_at, starts_with, trim, trim_start, upper_char,
};

verus! {

// ---------------------------------------------------------------------------
//  Sensitive keys
// ---------------------------------------------------------------------------

pub proof fn lemma_upper_char_idempotent(c: char)
    ensures
        upper_char(upper_char(c)) == upper_char(c),
{
    if 'a' <= c && c <= 'z' {
        assert('A' <= upper_char(c) && upper_char(c) <= 'Z');
    }
}

/// Whether a key names a secret does not depend on the case of its ASCII
/// letters: a key and its upper-case form are judged alike.
pub proof fn law_sensitive_ignores_case(key: Seq<char>)
    ensures
        is_sensitive(ascii_upper(key)) == is_sensitive(key),
{
    assert forall|i: int| 0 <= i < key.len() implies upper_char(upper_char(#[trigger] key[i]))
        == upper_char(key[i]) by {
        lemma_upper_char_idempotent(key[i]);
    }
    assert(ascii_upper(ascii_upper(key)) =~= ascii_upper(key));
}

// ---------------------------------------------------------------------------
//  Validation
// ---------------------------------------------------------------------------

/// An empty value passes validation, whatever the key.
pub proof fn law_empty_value_is_valid(key: Seq<char>)
    ensures
        validation(key, Seq::<char>::empty()) is None,
{
}

// ---------------------------------------------------------------------------
//  Merging
// ---------------------------------------------------------------------------

/// A merge keeps the layout of the template: the same number of entries,
/// each header unchanged, and each variable with its key, help text and
/// visibility; only values and the commented-out state change.
pub proof fn law_merge_keeps_layout(items: Seq<ItemView>, new: Seq<ItemView>)
    ensures
        merged_items(items, new).len() == items.len(),
        forall|i: int|
            0 <= i < items.len() ==> match (#[trigger] merged_items(items, new)[i], items[i]) {
                (ItemView::Header { text: a }, ItemView::Header { text: b }) => a == b,
                (
                    ItemView::Variable { key: k1, description: d1, show_password: s1, .. },
                    ItemView::Variable { key: k2, description: d2, show_password: s2, .. },
                ) => k1 == k2 && d1 == d2 && s1 == s2,
                _ => false,
            },
{
    assert forall|i: int| 0 <= i < items.len() implies match (
        #[trigger] merged_items(items, new)[i],
        items[i],
    ) {
        (ItemView::Header { text: a }, ItemView::Header { text: b }) => a == b,
        (
            ItemView::Variable { key: k1, description: d1, show_password: s1, .. },
            ItemView::Variable { key: k2, description: d2, show_password: s2, .. },
        ) => k1 == k2 && d1 == d2 && s1 == s2,
        _ => false,
    } by {
        let e = items[i];
        assert(merged_items(items, new)[i] == merged_item(e, new));
        if let ItemView::Variable { key, .. } = e {
            if let Some(j) = find_var(new, key) {
                let j0 = choose|j: int| first_var_is(new, key, j);
                assert(first_var_is(new, key, j0));
                assert(is_var_named(new[j0], key));
            }
        }
    }
}

/// Merging the same file twice gives what merging it once gave.
pub proof fn law_merge_idempotent(items: Seq<ItemView>, new: Seq<ItemView>)
    ensures
        merged_items(merged_items(items, new), new) == merged_items(items, new),
{
    let once = merged_items(items, new);
    law_merge_keeps_layout(items, new);
    assert forall|i: int| 0 <= i < items.len() implies #[trigger] merged_item(once[i], new)
        == once[i] by {
        let e = items[i];
        assert(once[i] == merged_item(e, new));
        if let ItemView::Variable { key, .. } = e {
            if exists|j: int| first_var_is(new, key, j) {
                let j0 = choose|j: int| first_var_is(new, key, j);
                assert(is_var_named(new[j0], key));
            }
        }
    }
    assert(merged_items(once, new) =~= once);
}

/// Merging a file without variables changes nothing and takes no value.
pub proof fn law_merge_without_variables(items: Seq<ItemView>, new: Seq<ItemView>)
    requires
        forall|j: int| 0 <= j < new.len() ==> (#[trigger] new[j]) is Header,
    ensures
        merged_items(items, new) == items,
        merge_count(items, new) == 0,
    decreases items.len(),
{
    assert forall|i: int| 0 <= i < items.len() implies #[trigger] merged_item(items[i], new)
        == items[i] by {
        if let ItemView::Variable { key, .. } = items[i] {
            if exists|j: int| first_var_is(new, key, j) {
                let j0 = choose|j: int| first_var_is(new, key, j);
                assert(new[j0] is Header);
            }
        }
    }
    assert(merged_items(items, new) =~= items);
    if items.len() > 0 {
        law_merge_without_variables(items.drop_last(), new);
        if let ItemView::Variable { key, .. } = items.last() {
            if exists|j: int| first_var_is(new, key, j) {
                let j0 = choose|j: int| first_var_is(new, key, j);
                assert(new[j0] is Header);
            }
        }
    }
}

/// The number of values taken is the number of template variables whose
/// key the file holds, so at most the number of entries.
pub proof fn law_merge_count_bound(items: Seq<ItemView>, new: Seq<ItemView>)
    ensures
        merge_count(items, new) <= items.len(),
{
    crate::merge::lemma_merge_count_bound(items, new);
}

// ---------------------------------------------------------------------------
//  Saving and loading again
// ---------------------------------------------------------------------------

/// Saving a list of items and loading the saved text gives the same items
/// back, with either line ending, wherever each item reads back as it was
/// written (see `item_reads_back`).
pub proof fn law_save_load_roundtrip(items: Seq<ItemView>, eol: Seq<char>)
    requires
        is_eol(eol),
        forall|i: int| 0 <= i < items.len() ==> item_reads_back(#[trigger] items[i]),
    ensures
        parse_text(serialize_text(items, eol)) == items,
{
    let w = written_lines(items);
    lemma_serialize_text(items, eol);
    lemma_written(items, eol);
    assert(all_fit(w, eol));
    lemma_lines_of_join(w, eol);
    let tl = trimmed_lines(serialize_text(items, eol));
    assert(tl =~= trims(w));
    assert forall|j: int| 0 <= j < tl.len() implies !is_pure_separator(
        #[trigger] tl[j],
    ) by {
        assert(crate::roundtrip::line_fits(w[j], eol));
    }
    lemma_scan_is_run(tl, 0, initial_scan());
    assert(tl.skip(0) =~= tl);
}

/// No two variables of `items` share a key.
pub open spec fn keys_unique(items: Seq<ItemView>) -> bool {
    forall|i: int, j: int|
        #![trigger items[i], items[j]]
        0 <= i < items.len() && 0 <= j < items.len() && i != j && items[i] is Variable
            ==> !is_var_named(items[j], items[i]->key)
}

/// Merging a file just saved from a template back into that template
/// changes nothing, wherever each item reads back as written and no two
/// variables share a key.
pub proof fn law_merge_saved_file(items: Seq<ItemView>, eol: Seq<char>)
    requires
        is_eol(eol),
        forall|i: int| 0 <= i < items.len() ==> item_reads_back(#[trigger] items[i]),
        keys_unique(items),
    ensures
        merged_items(items, parse_text(serialize_text(items, eol))) == items,
{
    law_save_load_roundtrip(items, eol);
    assert forall|i: int| 0 <= i < items.len() implies #[trigger] merged_item(items[i], items)
        == items[i] by {
        if let ItemView::Variable { key, .. } = items[i] {
            assert forall|t: int| 0 <= t < i implies !is_var_named(#[trigger] items[t], key) by {
                assert(!is_var_named(items[t], items[i]->key));
            }
            assert(first_var_is(items, key, i));
            let j = choose|j: int| first_var_is(items, key, j);
            crate::merge::lemma_first_var_unique(items, key, i, j);
        }
    }
    assert(merged_items(items, items) =~= items);
}

/// The text saved for Windows is the text saved for Linux with each line
/// feed written as carriage return and line feed, wherever no header, name
/// or value holds a line feed; no items give the empty text.
pub proof fn law_windows_line_endings(items: Seq<ItemView>)
    requires
        forall|i: int| 0 <= i < items.len() ==> single_line_item(#[trigger] items[i]),
    ensures
        serialize_text(items, seq!['\r', '\n']) == crlf(serialize_text(items, seq!['\n'])),
        items.len() == 0 ==> serialize_text(items, seq!['\n']).len() == 0,
{
    lemma_serialize_text(items, seq!['\n']);
    lemma_serialize_text(items, seq!['\r', '\n']);
    lemma_written_plain(items);
    lemma_crlf_join(written_lines(items));
}

// ---------------------------------------------------------------------------
//  Host keys
// ---------------------------------------------------------------------------

/// Trust on first use: a host seen for the first time is accepted and its
/// fingerprint remembered; from then on the host is accepted with that
/// fingerprint and refused with any other.
pub proof fn law_trust_on_first_use(first: Seq<char>, later: Seq<char>)
    ensures
        key_accepted(None, first),
        remembered_key(None, first) == Some(first),
        key_accepted(remembered_key(None, first), later) <==> later == first,
        remembered_key(remembered_key(None, first), later) == Some(first),
{
}

// ---------------------------------------------------------------------------
//  The folder browser
// ---------------------------------------------------------------------------

/// Opening a sub-folder and then going up leads back to the folder one
/// started from, without slashes at its end (or to `/` where nothing is
/// left of it). The folder is given, not `.`; the sub-folder's name is one
/// path segment without white space at its ends.
pub proof fn law_navigate_down_then_up(current: Seq<char>, name: Seq<char>)
    requires
        trim(current).len() > 0,
        trim(current) != "."@,
        name.len() > 0,
        name != ".."@,
        !name.contains('/'),
        trim(name) == name,
    ensures
        navigate_target(navigate_target(current, name), ".."@) == (if without_trailing_slashes(
            trim(current),
        ).len() > 0 {
            without_trailing_slashes(trim(current))
        } else {
            "/"@
        }),
{
    let cur = trim(current);
    let x = without_trailing_slashes(cur);
    let t = x + seq!['/'] + name;
    assert(navigate_target(current, name) == t);
    lemma_without_trailing_slashes(cur);
    lemma_trim_ends(current);
    lemma_trim_ends(name);
    assert(t.last() == name.last());
    if x.len() > 0 {
        assert(t[0] == x[0]);
        assert(x[0] == cur[0]);
    } else {
        assert(t[0] == '/');
    }
    assert(trim(t) == t);
    assert(name[name.len() - 1] != '/');
    assert(without_trailing_slashes(t) == t);
    let xl = x.len() as int;
    assert(t[xl] == '/');
    assert(t.contains('/'));
    assert(last_slash_is(t, xl)) by {
        assert forall|j: int| xl < j < t.len() implies t[j] != '/' by {
            assert(t[j] == name[j - xl - 1]);
        }
    }
    let i = choose|i: int| last_slash_is(t, i);
    assert(i == xl) by {
        if i < xl {
            assert(t[xl] != '/');
        } else if i > xl {
            assert(t[i] == name[i - xl - 1]);
        }
    }
    if xl > 0 {
        assert(t.take(xl) =~= x);
    }
}

// ---------------------------------------------------------------------------
//  What loading yields
// ---------------------------------------------------------------------------

/// An entry as loading makes it: a header with a title, or a variable with
/// a proper name whose value starts hidden exactly when the name is
/// sensitive.
pub open spec fn loaded_item(item: ItemView) -> bool {
    match item {
        ItemView::Header { text } => text.len() > 0,
        ItemView::Variable { key, show_password, .. } => key_reads_back(key) && show_password
            == !is_sensitive(key),
    }
}

/// Every entry so far is as loading makes it.
pub open spec fn all_loaded(items: Seq<ItemView>) -> bool {
    forall|i: int| 0 <= i < items.len() ==> loaded_item(#[trigger] items[i])
}

proof fn lemma_loaded_push(items: Seq<ItemView>, item: ItemView)
    requires
        all_loaded(items),
        loaded_item(item),
    ensures
        all_loaded(items.push(item)),
{
    assert forall|i: int| 0 <= i < items.push(item).len() implies loaded_item(
        #[trigger] items.push(item)[i],
    ) by {
        if i < items.len() {
            assert(items.push(item)[i] == items[i]);
        }
    }
}

/// The name that an assignment line gives is a proper variable name.
pub proof fn lemma_assignment_key(t: Seq<char>)
    requires
        assignment(t) is Some,
    ensures
        key_reads_back(assignment(t).unwrap().0),
{
    let l = assignment_source(t).unwrap();
    assert(l.len() > 0 && (is_ascii_alpha(l[0]) || l[0] == '_'));
    assert(l.contains('='));
    lemma_first_exists(l, '=');
    let i = choose|i: int| first_is(l, '=', i);
    let a = l.take(i);
    let key = trim(a);
    assert(split_first(l, '=') == Some((a, l.skip(i + 1))));
    assert(assignment(t).unwrap().0 == key);
    assert(key.len() > 0);
    assert(a.len() > 0) by {
        if a.len() == 0 {
            assert(strip_lead(a, Strip::Space) == a);
            assert(strip_trail(a, Strip::Space) == a);
        }
    }
    assert(a[0] == l[0]);
    assert(!is_ws(a[0]));
    assert(strip_lead(a, Strip::Space) == a);
    lemma_strip_trail_prefix(a, Strip::Space);
    assert(key[0] == a[0]);
}

/// One line step keeps every entry as loading makes it.
proof fn lemma_line_step_loaded(st: Scan, t: Seq<char>)
    requires
        all_loaded(st.items),
    ensures
        all_loaded(line_step(st, t).items),
{
    if t.len() == 0 || is_pure_separator(t) {
    } else if is_inline_header(t) {
        if header_title(t).len() > 0 {
            lemma_loaded_push(st.items, ItemView::Header { text: header_title(t) });
        }
    } else if let Some((key, value)) = assignment(t) {
        lemma_assignment_key(t);
        lemma_loaded_push(st.items, variable_of(t, key, value, st.paragraphs));
    } else if t[0] == '#' {
        let body = trim_start(t.drop_first());
        assert(comment_step(st, body).items == st.items);
    }
}

proof fn lemma_scan_loaded(tl: Seq<Seq<char>>, i: int, st: Scan)
    requires
        all_loaded(st.items),
    ensures
        all_loaded(scan_from(tl, i, st)),
    decreases tl.len() - i,
{
    if i < 0 || i >= tl.len() {
    } else if block_header_at(tl, i) {
        let title = header_title(tl[i + 1]);
        if title.len() > 0 {
            lemma_loaded_push(st.items, ItemView::Header { text: title });
        }
        lemma_scan_loaded(
            tl,
            i + 3,
            Scan { items: with_header(st.items, title), paragraphs: seq![], brk: true },
        );
    } else {
        lemma_line_step_loaded(st, tl[i]);
        lemma_scan_loaded(tl, i + 1, line_step(st, tl[i]));
    }
}

/// Each variable of `items` stands for a line of `tl` before `bound`,
/// recorded in `m`: the line assigns the variable's name and value, and is
/// commented out exactly when the variable is; later variables stand for
/// later lines.
pub open spec fn vars_from_lines(
    items: Seq<ItemView>,
    tl: Seq<Seq<char>>,
    m: Seq<int>,
    bound: int,
) -> bool {
    &&& m.len() == items.len()
    &&& forall|v: int|
        #![trigger items[v]]
        0 <= v < items.len() && items[v] is Variable ==> {
            &&& 0 <= m[v] < bound
            &&& m[v] < tl.len()
            &&& assignment(tl[m[v]]) == Some((items[v]->key, items[v]->value))
            &&& items[v]->is_commented_out == is_commented(tl[m[v]])
        }
    &&& forall|v: int, w: int|
        #![trigger items[v], items[w]]
        0 <= v < w < items.len() && items[v] is Variable && items[w] is Variable ==> m[v] < m[w]
}

proof fn lemma_vars_push(items: Seq<ItemView>, tl: Seq<Seq<char>>, m: Seq<int>, i: int, item: ItemView)
    requires
        vars_from_lines(items, tl, m, i),
        0 <= i < tl.len(),
        item is Variable ==> assignment(tl[i]) == Some((item->key, item->value))
            && item->is_commented_out == is_commented(tl[i]),
    ensures
        vars_from_lines(items.push(item), tl, m.push(i), i + 1),
{
    let it = items.push(item);
    let m2 = m.push(i);
    assert forall|v: int| #![trigger it[v]] 0 <= v < it.len() && it[v] is Variable implies {
        &&& 0 <= m2[v] < i + 1
        &&& m2[v] < tl.len()
        &&& assignment(tl[m2[v]]) == Some((it[v]->key, it[v]->value))
        &&& it[v]->is_commented_out == is_commented(tl[m2[v]])
    } by {
        if v < items.len() {
            assert(it[v] == items[v]);
            assert(m2[v] == m[v]);
        }
    }
    assert forall|v: int, w: int|
        #![trigger it[v], it[w]]
        0 <= v < w < it.len() && it[v] is Variable && it[w] is Variable implies m2[v] < m2[w] by {
        assert(it[v] == items[v]);
        assert(m2[v] == m[v]);
        if w < items.len() {
            assert(it[w] == items[w]);
            assert(m2[w] == m[w]);
        }
    }
}

proof fn lemma_vars_widen(items: Seq<ItemView>, tl: Seq<Seq<char>>, m: Seq<int>, i: int, j: int)
    requires
        vars_from_lines(items, tl, m, i),
        i <= j,
    ensures
        vars_from_lines(items, tl, m, j),
{
}

proof fn lemma_scan_vars(tl: Seq<Seq<char>>, i: int, st: Scan, m: Seq<int>) -> (m2: Seq<int>)
    requires
        0 <= i <= tl.len(),
        vars_from_lines(st.items, tl, m, i),
    ensures
        vars_from_lines(scan_from(tl, i, st), tl, m2, tl.len() as int),
    decreases tl.len() - i,
{
    if i >= tl.len() {
        m
    } else if block_header_at(tl, i) {
        let title = header_title(tl[i + 1]);
        let st2 = Scan { items: with_header(st.items, title), paragraphs: seq![], brk: true };
        let m1 = if title.len() > 0 {
            lemma_vars_push(st.items, tl, m, i, ItemView::Header { text: title });
            m.push(i)
        } else {
            m
        };
        lemma_vars_widen(st2.items, tl, m1, i + 1, i + 3);
        lemma_scan_vars(tl, i + 3, st2, m1)
    } else {
        let t = tl[i];
        let next = line_step(st, t);
        let m1 = if t.len() == 0 || is_pure_separator(t) {
            m
        } else if is_inline_header(t) {
            if header_title(t).len() > 0 {
                lemma_vars_push(st.items, tl, m, i, ItemView::Header { text: header_title(t) });
                m.push(i)
            } else {
                m
            }
        } else if let Some((key, value)) = assignment(t) {
            lemma_vars_push(st.items, tl, m, i, variable_of(t, key, value, st.paragraphs));
            m.push(i)
        } else {
            if t[0] == '#' {
                assert(comment_step(st, trim_start(t.drop_first())).items == st.items);
            }
            m
        };
        assert(vars_from_lines(next.items, tl, m1, i + 1)) by {
            if next.items == st.items {
                lemma_vars_widen(st.items, tl, m, i, i + 1);
            }
        }
        lemma_scan_vars(tl, i + 1, next, m1)
    }
}

/// The variables that loading yields come from assignment lines in order:
/// each stands for its own line of the text, trimmed, which assigns
/// the variable's name and value and starts with `#` exactly when the
/// variable is commented out; later variables stand for later lines.
pub proof fn law_variables_follow_lines(content: Seq<char>)
    ensures
        exists|m: Seq<int>|
            vars_from_lines(
                parse_text(content),
                trimmed_lines(content),
                m,
                trimmed_lines(content).len() as int,
            ),
{
    let tl = trimmed_lines(content);
    let m0 = Seq::<int>::empty();
    assert(vars_from_lines(initial_scan().items, tl, m0, 0));
    let m = lemma_scan_vars(tl, 0, initial_scan(), m0);
    assert(vars_from_lines(parse_text(content), tl, m, tl.len() as int));
}

/// Every entry that loading yields is a header with a title, or a variable
/// with a name of ASCII letters, digits and `_` that does not start with a
/// digit, whose value starts hidden exactly when the name is sensitive.
pub proof fn law_loaded_entries(content: Seq<char>)
    ensures
        all_loaded(parse_text(content)),
{
    lemma_scan_loaded(trimmed_lines(content), 0, initial_scan());
}

// ---------------------------------------------------------------------------
//  Saved profiles
// ---------------------------------------------------------------------------

proof fn lemma_others_than_idempotent(list: Seq<SavedConnection>, name: Seq<char>)
    ensures
        others_than(others_than(list, name), name) == others_than(list, name),
    decreases list.len(),
{
    let keep = not_named(name);
    if list.len() == 0 {
        assert(list.filter(keep) =~= Seq::<SavedConnection>::empty()) by {
            reveal(Seq::filter);
        }
        assert(Seq::<SavedConnection>::empty().filter(keep) =~= Seq::<SavedConnection>::empty())
            by {
            reveal(Seq::filter);
        }
    } else {
        let l0 = list.drop_last();
        let x = list.last();
        lemma_others_than_idempotent(l0, name);
        assert(l0.push(x) =~= list);
        l0.lemma_filter_push(x, keep);
        l0.filter(keep).lemma_filter_push(x, keep);
        assert(others_than(others_than(list, name), name) == list.filter(keep).filter(keep));
        if keep(x) {
            assert(list.filter(keep) == l0.filter(keep).push(x));
        } else {
            assert(list.filter(keep) == l0.filter(keep));
        }
    }
}

/// After a profile is saved, exactly one profile carries its name, the
/// last; deleting that name then leaves the profiles as they were before
/// the save, less any that had that name.
pub proof fn law_profile_save_then_delete(
    list: Seq<SavedConnection>,
    conn: SavedConnection,
    stored: bool,
)
    ensures
        ({
            let saved = others_than(list, conn.name@).push(
                SavedConnection { has_secret: stored || conn.has_secret, ..conn },
            );
            &&& forall|i: int| 0 <= i < saved.len() ==> (#[trigger] saved[i].name@ == conn.name@
                <==> i == saved.len() - 1)
            &&& others_than(saved, conn.name@) == others_than(list, conn.name@)
        }),
{
    let keep = not_named(conn.name@);
    let f = others_than(list, conn.name@);
    let c2 = SavedConnection { has_secret: stored || conn.has_secret, ..conn };
    let saved = f.push(c2);
    assert forall|i: int| 0 <= i < saved.len() implies (#[trigger] saved[i].name@ == conn.name@
        <==> i == saved.len() - 1) by {
        if i < f.len() {
            list.lemma_filter_pred(keep, i);
            assert(saved[i] == f[i]);
        }
    }
    f.lemma_filter_push(c2, keep);
    lemma_others_than_idempotent(list, conn.name@);
}

// ---------------------------------------------------------------------------
//  What each operation is for
// ---------------------------------------------------------------------------

/// At a rule line, a one-line header or a three-line header block, the help
/// text gathered so far is dropped: what loading makes from that line on
/// depends on the entries before it, not on the comment lines before it.
pub proof fn law_headers_drop_gathered_help(tl: Seq<Seq<char>>, i: int, st1: Scan, st2: Scan)
    requires
        0 <= i < tl.len(),
        is_pure_separator(tl[i]) || is_inline_header(tl[i]),
        st1.items == st2.items,
    ensures
        scan_from(tl, i, st1) == scan_from(tl, i, st2),
{
    if block_header_at(tl, i) {
    } else {
        assert(line_step(st1, tl[i]) == line_step(st2, tl[i]));
    }
}

/// After an empty line, a comment line that is no legend entry starts a
/// new paragraph of help text holding its text; a legend entry after other
/// help text joins the last paragraph on a line of its own; a copy hint
/// adds nothing.
pub proof fn law_comment_lines_gather_help(st: Scan, body: Seq<char>)
    requires
        body.len() > 0,
        trim(body) == body,
        !is_pure_separator(commented(body)),
        !is_inline_header(commented(body)),
    ensures
        !is_copy_hint(body) && !is_legend_entry(body) ==> line_step(
            line_step(st, Seq::<char>::empty()),
            commented(body),
        ).paragraphs == st.paragraphs.push(body),
        !is_copy_hint(body) && is_legend_entry(body) && st.paragraphs.len() > 0 ==> line_step(
            st,
            commented(body),
        ).paragraphs == st.paragraphs.update(
            st.paragraphs.len() - 1,
            st.paragraphs.last() + seq!['\n'] + body,
        ),
        is_copy_hint(body) ==> line_step(st, commented(body)) == st,
{
    let st0 = line_step(st, Seq::<char>::empty());
    assert(st0 == (Scan { brk: true, ..st }));
    if !is_copy_hint(body) {
        lemma_help_line(st0, body);
        lemma_help_line(st, body);
    } else {
        let t = commented(body);
        lemma_trimmed_ends(body);
        assert(t[0] == '#');
        assert(assignment_source(t) is None) by {
            assert(t.drop_first()[0] == ' ');
        }
        assert(t.drop_first() =~= seq![' '] + body);
        lemma_strip_lead_prefix(seq![' '], body, Strip::Space);
    }
}

/// A variable's help text is the help gathered since the last entry: the
/// line that declares it adds it with exactly that text, and the next
/// variable starts from none.
pub proof fn law_variable_takes_gathered_help(tl: Seq<Seq<char>>, i: int, st: Scan)
    requires
        0 <= i < tl.len(),
        !is_pure_separator(tl[i]),
        !is_inline_header(tl[i]),
        assignment(tl[i]) is Some,
    ensures
        ({
            let next = line_step(st, tl[i]);
            &&& next.items.len() == st.items.len() + 1
            &&& next.items.drop_last() == st.items
            &&& next.items.last() matches ItemView::Variable { key, value, description, .. }
            &&& (key, value) == assignment(tl[i]).unwrap()
            &&& description == st.paragraphs
            &&& next.paragraphs.len() == 0
        }),
        scan_from(tl, i, st) == scan_from(tl, i + 1, line_step(st, tl[i])),
{
    assert(!block_header_at(tl, i));
    assert(line_step(st, tl[i]).items.drop_last() =~= st.items);
}

/// A URL or HOST value that names a scheme (holds `://`) or is `localhost`
/// passes the URL/HOST check: the only objection left to it is a PORT one.
/// A key that mentions none of URL, HOST and PORT accepts any value.
pub proof fn law_validation_accepts(key: Seq<char>, value: Seq<char>)
    ensures
        contains_seq(value, "://"@) || value == "localhost"@ ==> validation(key, value) is None
            || validation(key, value) == Some("Port must be a number between 0 and 65535"@),
        !contains_seq(ascii_upper(key), "URL"@) && !contains_seq(ascii_upper(key), "HOST"@)
            && !contains_seq(ascii_upper(key), "PORT"@) ==> validation(key, value) is None,
        !contains_seq(ascii_upper(key), "PORT"@) && (contains_seq(value, "://"@) || value
            == "localhost"@) ==> validation(key, value) is None,
{
}

/// The URL/HOST check objects exactly to a non-empty value that names no
/// scheme and is not `localhost`, for a key that mentions URL or HOST.
pub proof fn law_validation_refuses(key: Seq<char>, value: Seq<char>)
    ensures
        value.len() > 0 && (contains_seq(ascii_upper(key), "URL"@) || contains_seq(
            ascii_upper(key),
            "HOST"@,
        )) && !contains_seq(value, "://"@) && value != "localhost"@ ==> validation(key, value)
            == Some(
            if contains_seq(ascii_upper(key), "URL"@) {
                "URL should start with http:// or https://"@
            } else {
                "HOST should be a hostname or full URL"@
            },
        ),
{
    reveal_strlit("http://");
    reveal_strlit("https://");
    reveal_strlit("://");
    assert("http://"@.subrange(4, 7) =~= "://"@);
    assert("https://"@.subrange(5, 8) =~= "://"@);
    if value.len() > 0 && !contains_seq(value, "://"@) {
        if starts_with(value, "http://"@) {
            lemma_prefix_contains(value, "http://"@, "://"@, 4);
        }
        if starts_with(value, "https://"@) {
            lemma_prefix_contains(value, "https://"@, "://"@, 5);
        }
    }
}

/// Where `p` starts `s` and `q` occurs in `p` at `o`, `q` occurs in `s`.
proof fn lemma_prefix_contains(s: Seq<char>, p: Seq<char>, q: Seq<char>, o: int)
    requires
        starts_with(s, p),
        0 <= o,
        o + q.len() <= p.len(),
        p.subrange(o, o + q.len()) == q,
    ensures
        contains_seq(s, q),
{
    reveal_strlit("http://");
    reveal_strlit("https://");
    reveal_strlit("://");
    assert(s.subrange(o, o + q.len()) =~= p.subrange(o, o + q.len()));
    assert(occurs_at(s, q, o));
}

/// Each mark of a secret makes a key sensitive, whatever the case of its
/// letters: the words SECRET, TOKEN and KEY, a name ending in `_PASSWORD`,
/// `_PASS`, `_SECRET`, `_TOKEN`, `_KEY`, `_PRIVATE_KEY` or `PASSWORD`, and a
/// name holding `JWT_`, `API_KEY` or `CLIENT_SECRET`.
pub proof fn law_secret_marks(key: Seq<char>)
    ensures
        ({
            let u = ascii_upper(key);
            &&& u == "SECRET"@ ==> is_sensitive(key)
            &&& u == "TOKEN"@ ==> is_sensitive(key)
            &&& u == "KEY"@ ==> is_sensitive(key)
            &&& ends_with(u, "_PASSWORD"@) ==> is_sensitive(key)
            &&& ends_with(u, "_PASS"@) ==> is_sensitive(key)
            &&& ends_with(u, "_SECRET"@) ==> is_sensitive(key)
            &&& ends_with(u, "_TOKEN"@) ==> is_sensitive(key)
            &&& ends_with(u, "_KEY"@) ==> is_sensitive(key)
            &&& ends_with(u, "_PRIVATE_KEY"@) ==> is_sensitive(key)
            &&& ends_with(u, "PASSWORD"@) ==> is_sensitive(key)
            &&& contains_seq(u, "JWT_"@) ==> is_sensitive(key)
            &&& contains_seq(u, "API_KEY"@) ==> is_sensitive(key)
            &&& contains_seq(u, "CLIENT_SECRET"@) ==> is_sensitive(key)
        }),
{
}

/// Where `p` occurs in `s` at `i` and `q` occurs in `p` at `o`, `q` occurs
/// in `s`.
proof fn lemma_occurs_within(s: Seq<char>, p: Seq<char>, i: int, q: Seq<char>, o: int)
    requires
        occurs_at(s, p, i),
        occurs_at(p, q, o),
    ensures
        contains_seq(s, q),
{
    assert(s.subrange(i + o, i + o + q.len()) =~= p.subrange(o, o + q.len()));
    assert(occurs_at(s, q, i + o));
}

/// A key is sensitive only where its upper-case form holds `PASS`,
/// `SECRET`, `TOKEN`, `KEY` or `JWT_`: a key with none of these starts
/// shown in clear.
pub proof fn law_plain_keys_not_sensitive(key: Seq<char>)
    ensures
        ({
            let u = ascii_upper(key);
            !contains_seq(u, "PASS"@) && !contains_seq(u, "SECRET"@) && !contains_seq(u, "TOKEN"@)
                && !contains_seq(u, "KEY"@) && !contains_seq(u, "JWT_"@) ==> !is_sensitive(key)
        }),
{
    let u = ascii_upper(key);
    reveal_strlit("PASS");
    reveal_strlit("SECRET");
    reveal_strlit("TOKEN");
    reveal_strlit("KEY");
    reveal_strlit("JWT_");
    reveal_strlit("_PASSWORD");
    reveal_strlit("_PASS");
    reveal_strlit("_SECRET");
    reveal_strlit("_TOKEN");
    reveal_strlit("_KEY");
    reveal_strlit("_PRIVATE_KEY");
    reveal_strlit("PASSWORD");
    reveal_strlit("API_KEY");
    reveal_strlit("CLIENT_SECRET");
    if is_sensitive(key) {
        if u == "SECRET"@ {
            assert(u.subrange(0, 6) =~= u);
            assert(occurs_at(u, "SECRET"@, 0));
        } else if u == "TOKEN"@ {
            assert(u.subrange(0, 5) =~= u);
            assert(occurs_at(u, "TOKEN"@, 0));
        } else if u == "KEY"@ {
            assert(u.subrange(0, 3) =~= u);
            assert(occurs_at(u, "KEY"@, 0));
        } else if ends_with(u, "_PASSWORD"@) {
            assert(occurs_at(u, "_PASSWORD"@, u.len() - 9));
            assert("_PASSWORD"@.subrange(1, 5) =~= "PASS"@);
            lemma_occurs_within(u, "_PASSWORD"@, u.len() - 9, "PASS"@, 1);
        } else if ends_with(u, "_PASS"@) {
            assert(occurs_at(u, "_PASS"@, u.len() - 5));
            assert("_PASS"@.subrange(1, 5) =~= "PASS"@);
            lemma_occurs_within(u, "_PASS"@, u.len() - 5, "PASS"@, 1);
        } else if ends_with(u, "_SECRET"@) {
            assert(occurs_at(u, "_SECRET"@, u.len() - 7));
            assert("_SECRET"@.subrange(1, 7) =~= "SECRET"@);
            lemma_occurs_within(u, "_SECRET"@, u.len() - 7, "SECRET"@, 1);
        } else if ends_with(u, "_TOKEN"@) {
            assert(occurs_at(u, "_TOKEN"@, u.len() - 6));
            assert("_TOKEN"@.subrange(1, 6) =~= "TOKEN"@);
            lemma_occurs_within(u, "_TOKEN"@, u.len() - 6, "TOKEN"@, 1);
        } else if ends_with(u, "_KEY"@) {
            assert(occurs_at(u, "_KEY"@, u.len() - 4));
            assert("_KEY"@.subrange(1, 4) =~= "KEY"@);
            lemma_occurs_within(u, "_KEY"@, u.len() - 4, "KEY"@, 1);
        } else if ends_with(u, "_PRIVATE_KEY"@) {
            assert(occurs_at(u, "_PRIVATE_KEY"@, u.len() - 12));
            assert("_PRIVATE_KEY"@.subrange(9, 12) =~= "KEY"@);
            lemma_occurs_within(u, "_PRIVATE_KEY"@, u.len() - 12, "KEY"@, 9);
        } else if ends_with(u, "PASSWORD"@) {
            assert(occurs_at(u, "PASSWORD"@, u.len() - 8));
            assert("PASSWORD"@.subrange(0, 4) =~= "PASS"@);
            lemma_occurs_within(u, "PASSWORD"@, u.len() - 8, "PASS"@, 0);
        } else if contains_seq(u, "JWT_"@) {
        } else if contains_seq(u, "API_KEY"@) {
            let i = choose|i: int| occurs_at(u, "API_KEY"@, i);
            assert("API_KEY"@.subrange(4, 7) =~= "KEY"@);
            lemma_occurs_within(u, "API_KEY"@, i, "KEY"@, 4);
        } else {
            let i = choose|i: int| occurs_at(u, "CLIENT_SECRET"@, i);
            assert("CLIENT_SECRET"@.subrange(7, 13) =~= "SECRET"@);
            lemma_occurs_within(u, "CLIENT_SECRET"@, i, "SECRET"@, 7);
        }
    }
}

/// For a key that mentions PORT but neither URL nor HOST, a non-empty value
/// passes exactly when it is a decimal number of at most 65535, optionally
/// after a `+`: a value of digits within range passes, and a value holding
/// any other character after its first is refused.
pub proof fn law_port_values(key: Seq<char>, value: Seq<char>)
    ensures
        ({
            let u = ascii_upper(key);
            contains_seq(u, "PORT"@) && !contains_seq(u, "URL"@) && !contains_seq(u, "HOST"@)
                && value.len() > 0 ==> {
                &&& (forall|j: int| 0 <= j < value.len() ==> is_ascii_digit(#[trigger] value[j]))
                    && digits_value(value) <= 65535 ==> validation(key, value) is None
                &&& (exists|j: int| 1 <= j < value.len() && !is_ascii_digit(#[trigger] value[j]))
                    ==> validation(key, value) == Some(
                    "Port must be a number between 0 and 65535"@,
                )
                &&& !is_ascii_digit(value[0]) && value[0] != '+' ==> validation(key, value)
                    == Some("Port must be a number between 0 and 65535"@)
            }
        }),
{
    if value.len() > 0 {
        if exists|j: int| 1 <= j < value.len() && !is_ascii_digit(#[trigger] value[j]) {
            let j = choose|j: int| 1 <= j < value.len() && !is_ascii_digit(#[trigger] value[j]);
            if value[0] == '+' {
                assert(!is_ascii_digit(value.drop_first()[j - 1]));
            }
        }
        if !is_ascii_digit(value[0]) && value[0] != '+' {
            assert(!is_ascii_digit(value[0]));
        }
    }
}

/// For a search text that is not empty once lowered, a variable is shown
/// exactly when its lowered key, or one of its lowered paragraphs, holds
/// the lowered search text anywhere; a header is hidden. An empty search
/// shows everything.
pub proof fn law_search_finds_anywhere(item: ItemView, query: Seq<char>)
    ensures
        unicode_lower(query).len() == 0 ==> is_visible(item, query),
        unicode_lower(query).len() > 0 && item is Header ==> !is_visible(item, query),
        ({
            let q = unicode_lower(query);
            item matches ItemView::Variable { key, description, .. } ==> (q.len() > 0 ==> (
            is_visible(item, query) <==> (contains_seq(unicode_lower(key), q) || exists|i: int|
                0 <= i < description.len() && contains_seq(
                    unicode_lower(#[trigger] description[i]),
                    q,
                ))))
        }),
        forall|i: int|
            #![trigger unicode_lower(item->key).subrange(i, i + unicode_lower(query).len())]
            item is Variable && unicode_lower(query).len() > 0 && 0 <= i && i + unicode_lower(
                query,
            ).len() <= unicode_lower(item->key).len() && unicode_lower(item->key).subrange(
                i,
                i + unicode_lower(query).len(),
            ) == unicode_lower(query) ==> is_visible(item, query),
{
    assert forall|i: int|
        #![trigger unicode_lower(item->key).subrange(i, i + unicode_lower(query).len())]
        item is Variable && unicode_lower(query).len() > 0 && 0 <= i && i + unicode_lower(
            query,
        ).len() <= unicode_lower(item->key).len() && unicode_lower(item->key).subrange(
            i,
            i + unicode_lower(query).len(),
        ) == unicode_lower(query) implies is_visible(item, query) by {
        assert(occurs_at(unicode_lower(item->key), unicode_lower(query), i));
    }
}

/// A profile is saved under the name the user gave it, trimmed; only where
/// that is blank is it named `user@host` from the dialog's fields.
pub proof fn law_profile_named_by_user(f: RemoteForm)
    ensures
        trim(f.profile_name@).len() > 0 ==> profile_name_text(f) == trim(f.profile_name@),
        trim(f.profile_name@).len() == 0 ==> profile_name_text(f) == f.username@ + seq!['@']
            + f.host@,
{
}

} // verus!
