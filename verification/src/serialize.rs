//! Writing items back as `.env` text.
//!
//! A header becomes one framed line, `# ===== Title =====`, which the
//! parser recognises as a one-line header. A variable's help text comes
//! first, one `# ` line per line of each paragraph and a lone `#` line
//! between paragraphs, then the assignment, `#` in front where it is
//! commented out, then an empty line.
use vstd::prelude::*;
use crate::item::{EnvItem, ItemView, items_view, strings_view};
use crate::parse::push_chars;
use crate::text::{chars_of, lines, split_lines, views_of};

verus! {

/// `n` copies of `c`.
pub open spec fn repeat_char(c: char, n: nat) -> Seq<char> {
    Seq::new(n, |_i: int| c)
}

/// `s` centred in a field of `width` characters filled with `fill`, as
/// `format!("{:=^width$}", s)` does: where the padding is odd, the extra
/// character goes to the right.
pub open spec fn centered(s: Seq<char>, width: nat, fill: char) -> Seq<char> {
    if s.len() >= width {
        s
    } else {
        let pad = (width - s.len()) as nat;
        let left = pad / 2;
        repeat_char(fill, left) + s + repeat_char(fill, (pad - left) as nat)
    }
}

/// The width of a header line after `# `.
pub open spec fn header_width() -> nat {
    69
}

/// The line written for a header.
pub open spec fn header_text(text: Seq<char>, eol: Seq<char>) -> Seq<char> {
    seq!['#', ' '] + centered(seq![' '] + text + seq![' '], header_width(), '=') + eol
}

/// Each line of `ls` written as a comment line.
pub open spec fn comment_lines(ls: Seq<Seq<char>>, eol: Seq<char>) -> Seq<char>
    decreases ls.len(),
{
    if ls.len() == 0 {
        seq![]
    } else {
        comment_lines(ls.drop_last(), eol) + seq!['#', ' '] + ls.last() + eol
    }
}

/// The help text written before a variable: each paragraph as comment
/// lines, with a lone `#` line between paragraphs.
pub open spec fn description_text(d: Seq<Seq<char>>, eol: Seq<char>) -> Seq<char>
    decreases d.len(),
{
    if d.len() == 0 {
        seq![]
    } else {
        description_text(d.drop_last(), eol) + (if d.len() > 1 {
            seq!['#'] + eol
        } else {
            seq![]
        }) + comment_lines(lines(d.last()), eol)
    }
}

/// The assignment line written for a variable.
pub open spec fn assignment_text(key: Seq<char>, value: Seq<char>, commented: bool) -> Seq<char> {
    (if commented {
        seq!['#']
    } else {
        seq![]
    }) + key + seq!['='] + value
}

/// The text written for one item.
pub open spec fn item_text(item: ItemView, eol: Seq<char>) -> Seq<char> {
    match item {
        ItemView::Header { text } => header_text(text, eol),
        ItemView::Variable { key, value, description, is_commented_out, .. } => description_text(
            description,
            eol,
        ) + assignment_text(key, value, is_commented_out) + eol + eol,
    }
}

/// The text written for a list of items.
pub open spec fn serialize_text(items: Seq<ItemView>, eol: Seq<char>) -> Seq<char>
    decreases items.len(),
{
    if items.len() == 0 {
        seq![]
    } else {
        serialize_text(items.drop_last(), eol) + item_text(items.last(), eol)
    }
}

fn push_repeat(out: &mut String, c: char, n: usize)
    ensures
        final(out)@ == old(out)@ + repeat_char(c, n as nat),
{
    let mut i: usize = 0;
    while i < n
        invariant
            i <= n,
            out@ == old(out)@ + repeat_char(c, i as nat),
        decreases n - i,
    {
        out.push(c);
        i = i + 1;
        assert(out@ =~= old(out)@ + repeat_char(c, i as nat));
    }
}

fn push_header(out: &mut String, text: &String, eol: &Vec<char>)
    ensures
        final(out)@ == old(out)@ + header_text(text@, eol@),
{
    let mut framed: Vec<char> = Vec::new();
    framed.push(' ');
    let tc = chars_of(text.as_str());
    let mut i: usize = 0;
    while i < tc.len()
        invariant
            i <= tc@.len(),
            framed@ == seq![' '] + tc@.take(i as int),
        decreases tc@.len() - i,
    {
        framed.push(tc[i]);
        i = i + 1;
        assert(framed@ =~= seq![' '] + tc@.take(i as int));
    }
    framed.push(' ');
    assert(tc@.take(tc@.len() as int) =~= tc@);
    assert(framed@ =~= seq![' '] + text@ + seq![' ']);
    out.push('#');
    out.push(' ');
    let n = framed.len();
    if n >= 69 {
        push_chars(out, framed.as_slice());
    } else {
        let pad = 69 - n;
        let left = pad / 2;
        push_repeat(out, '=', left);
        push_chars(out, framed.as_slice());
        push_repeat(out, '=', pad - left);
    }
    push_chars(out, eol.as_slice());
    assert(out@ =~= old(out)@ + header_text(text@, eol@));
}

fn push_comment_lines(out: &mut String, paragraph: &String, eol: &Vec<char>)
    ensures
        final(out)@ == old(out)@ + comment_lines(lines(paragraph@), eol@),
{
    let pc = chars_of(paragraph.as_str());
    let ls = split_lines(pc.as_slice());
    let ghost lv = views_of(ls@);
    let mut i: usize = 0;
    while i < ls.len()
        invariant
            lv == views_of(ls@),
            lv == lines(paragraph@),
            i <= ls@.len(),
            out@ == old(out)@ + comment_lines(lv.take(i as int), eol@),
        decreases ls@.len() - i,
    {
        out.push('#');
        out.push(' ');
        push_chars(out, ls[i].as_slice());
        push_chars(out, eol.as_slice());
        i = i + 1;
        proof {
            assert(lv.take(i as int).drop_last() =~= lv.take(i - 1));
            assert(lv.take(i as int).last() == ls@[i - 1]@);
            assert(out@ =~= old(out)@ + comment_lines(lv.take(i as int), eol@));
        }
    }
    assert(lv.take(lv.len() as int) =~= lv);
}

fn push_description(out: &mut String, d: &Vec<String>, eol: &Vec<char>)
    ensures
        final(out)@ == old(out)@ + description_text(strings_view(d@), eol@),
{
    let ghost dv = strings_view(d@);
    let mut i: usize = 0;
    assert(dv.take(0) =~= Seq::<Seq<char>>::empty());
    while i < d.len()
        invariant
            dv == strings_view(d@),
            i <= d@.len(),
            out@ == old(out)@ + description_text(dv.take(i as int), eol@),
        decreases d@.len() - i,
    {
        let ghost before = out@;
        if i > 0 {
            out.push('#');
            push_chars(out, eol.as_slice());
        }
        push_comment_lines(out, &d[i], eol);
        i = i + 1;
        proof {
            assert(dv.take(i as int).drop_last() =~= dv.take(i - 1));
            assert(dv.take(i as int).last() == d@[i - 1]@);
            assert(out@ =~= old(out)@ + description_text(dv.take(i as int), eol@));
        }
    }
    assert(dv.take(dv.len() as int) =~= dv);
}

/// The `.env` text for `items`, with `eol` ending each line.
pub fn serialize_items(items: &Vec<EnvItem>, eol: &str) -> (out: String)
    ensures
        out@ == serialize_text(items_view(items@), eol@),
{
    let e = chars_of(eol);
    let ghost iv = items_view(items@);
    let mut out = String::new();
    let mut i: usize = 0;
    assert(iv.take(0) =~= Seq::<ItemView>::empty());
    while i < items.len()
        invariant
            iv == items_view(items@),
            e@ == eol@,
            i <= items@.len(),
            out@ == serialize_text(iv.take(i as int), eol@),
        decreases items@.len() - i,
    {
        let ghost before = out@;
        match &items[i] {
            EnvItem::Header { text } => {
                push_header(&mut out, text, &e);
            },
            EnvItem::Variable { key, value, description, is_commented_out, .. } => {
                push_description(&mut out, description, &e);
                if *is_commented_out {
                    out.push('#');
                }
                let kc = chars_of(key.as_str());
                push_chars(&mut out, kc.as_slice());
                out.push('=');
                let vc = chars_of(value.as_str());
                push_chars(&mut out, vc.as_slice());
                push_chars(&mut out, e.as_slice());
                push_chars(&mut out, e.as_slice());
            },
        }
        i = i + 1;
        proof {
            assert(iv.take(i as int).drop_last() =~= iv.take(i - 1));
            assert(iv.take(i as int).last() == items@[i - 1]@);
            assert(out@ =~= before + item_text(items@[i - 1]@, eol@));
        }
    }
    assert(iv.take(iv.len() as int) =~= iv);
    out
}

} // verus!
