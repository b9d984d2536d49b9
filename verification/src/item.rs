//! The entries of an `.env` template: section headers and variables.
use vstd::prelude::*;
use crate::text::{
    ascii_upper, chars_of, contains_seq, ends_with, has_infix, has_suffix, to_ascii_upper,
};

verus! {

/// One entry of a template, in file order.
#[derive(Debug, Clone, PartialEq, Eq)]
pub enum EnvItem {
    /// A section title.
    Header { text: String },
    /// A variable, active or commented out.
    Variable {
        key: String,
        value: String,
        /// The help text as paragraphs, in file order. The last paragraph
        /// usually explains this very key; earlier ones give the section's
        /// context.
        description: Vec<String>,
        is_commented_out: bool,
        /// Whether the value is shown in clear text; sensitive keys start hidden.
        show_password: bool,
    },
}

/// The mathematical value of an `EnvItem`.
pub enum ItemView {
    Header { text: Seq<char> },
    Variable {
        key: Seq<char>,
        value: Seq<char>,
        description: Seq<Seq<char>>,
        is_commented_out: bool,
        show_password: bool,
    },
}

/// The views of a list of strings.
pub open spec fn strings_view(v: Seq<String>) -> Seq<Seq<char>> {
    v.map_values(|p: String| p@)
}

impl View for EnvItem {
    type V = ItemView;

    open spec fn view(&self) -> ItemView {
        match self {
            EnvItem::Header { text } => ItemView::Header { text: text@ },
            EnvItem::Variable { key, value, description, is_commented_out, show_password } =>
                ItemView::Variable {
                key: key@,
                value: value@,
                description: strings_view(description@),
                is_commented_out: *is_commented_out,
                show_password: *show_password,
            },
        }
    }
}

/// The views of a list of items.
pub open spec fn items_view(v: Seq<EnvItem>) -> Seq<ItemView> {
    v.map_values(|i: EnvItem| i@)
}

/// Whether a key names a secret: in upper case, it is one of the words
/// `SECRET`, `TOKEN`, `KEY`, or it ends in one of `_PASSWORD`, `_PASS`,
/// `_SECRET`, `_TOKEN`, `_KEY`, `_PRIVATE_KEY`, `PASSWORD`, or it contains
/// one of `JWT_`, `API_KEY`, `CLIENT_SECRET`.
pub open spec fn is_sensitive(key: Seq<char>) -> bool {
    let u = ascii_upper(key);
    ||| u == "SECRET"@
    ||| u == "TOKEN"@
    ||| u == "KEY"@
    ||| ends_with(u, "_PASSWORD"@)
    ||| ends_with(u, "_PASS"@)
    ||| ends_with(u, "_SECRET"@)
    ||| ends_with(u, "_TOKEN"@)
    ||| ends_with(u, "_KEY"@)
    ||| ends_with(u, "_PRIVATE_KEY"@)
    ||| ends_with(u, "PASSWORD"@)
    ||| contains_seq(u, "JWT_"@)
    ||| contains_seq(u, "API_KEY"@)
    ||| contains_seq(u, "CLIENT_SECRET"@)
}

/// Whether the upper-cased key `u` ends with `suffix`.
fn ends_in(u: &Vec<char>, suffix: &str) -> (b: bool)
    ensures
        b == ends_with(u@, suffix@),
{
    let p = chars_of(suffix);
    has_suffix(u.as_slice(), p.as_slice())
}

/// Whether the upper-cased key `u` is exactly `word`.
fn is_word(u: &Vec<char>, word: &str) -> (b: bool)
    ensures
        b == (u@ == word@),
{
    crate::app::chars_equal(u, &chars_of(word))
}

fn holds(u: &Vec<char>, part: &str) -> (b: bool)
    ensures
        b == contains_seq(u@, part@),
{
    let p = chars_of(part);
    has_infix(u.as_slice(), p.as_slice())
}

/// `is_sensitive` on a key given as characters.
pub fn sensitive_chars(key: &[char]) -> (b: bool)
    ensures
        b == is_sensitive(key@),
{
    let u = to_ascii_upper(key);
    is_word(&u, "SECRET") || is_word(&u, "TOKEN") || is_word(&u, "KEY") || ends_in(&u, "_PASSWORD") || ends_in(&u, "_PASS") || ends_in(&u, "_SECRET") || ends_in(
        &u,
        "_TOKEN",
    ) || ends_in(&u, "_KEY") || ends_in(&u, "_PRIVATE_KEY") || ends_in(&u, "PASSWORD") || holds(
        &u,
        "JWT_",
    ) || holds(&u, "API_KEY") || holds(&u, "CLIENT_SECRET")
}

/// What `str::to_lowercase` gives for `s`: its Unicode lower-case form,
/// character by character except where Unicode lowers by context (a final
/// capital sigma).
pub uninterp spec fn unicode_lower(s: Seq<char>) -> Seq<char>;

/// `str::to_lowercase`: the Unicode lower-case mapping of `s`, which
/// depends on `s` alone; the empty text maps to the empty text.
#[verifier::external_body]
pub(crate) fn to_lower(s: &str) -> (out: String)
    ensures
        out@ == unicode_lower(s@),
        s@.len() == 0 ==> out@.len() == 0,
{
    s.to_lowercase()
}

/// Whether an item is shown for the search text `query`: everything is
/// shown for an empty query; otherwise headers are hidden and a variable is
/// shown where its key or one of its paragraphs, in lower case, holds the
/// query in lower case.
pub open spec fn is_visible(item: ItemView, query: Seq<char>) -> bool {
    let q = unicode_lower(query);
    if q.len() == 0 {
        true
    } else {
        match item {
            ItemView::Header { .. } => false,
            ItemView::Variable { key, description, .. } => contains_seq(unicode_lower(key), q)
                || exists|i: int|
                0 <= i < description.len() && contains_seq(
                    unicode_lower(#[trigger] description[i]),
                    q,
                ),
        }
    }
}

/// Whether some paragraph, in lower case, holds `q`.
fn any_paragraph_holds(desc: &Vec<String>, q: &Vec<char>) -> (b: bool)
    ensures
        b == exists|i: int|
            0 <= i < strings_view(desc@).len() && contains_seq(
                unicode_lower(#[trigger] strings_view(desc@)[i]),
                q@,
            ),
{
    let ghost dv = strings_view(desc@);
    let mut i: usize = 0;
    while i < desc.len()
        invariant
            dv == strings_view(desc@),
            i <= desc@.len(),
            forall|j: int| 0 <= j < i ==> !contains_seq(unicode_lower(#[trigger] dv[j]), q@),
        decreases desc@.len() - i,
    {
        let p = chars_of(to_lower(desc[i].as_str()).as_str());
        assert(dv[i as int] == desc@[i as int]@);
        if has_infix(p.as_slice(), q.as_slice()) {
            return true;
        }
        i = i + 1;
    }
    false
}

impl EnvItem {
    /// Whether the item is shown for the search text `query`; an empty
    /// search shows every item.
    pub fn matches_search(&self, query: &str) -> (b: bool)
        ensures
            b == is_visible(self@, query@),
            query@.len() == 0 ==> b,
    {
        let q = chars_of(to_lower(query).as_str());
        if q.len() == 0 {
            return true;
        }
        match self {
            EnvItem::Header { .. } => {
                assert(unicode_lower(query@).len() > 0);
                assert(self@ is Header);
                assert(!is_visible(self@, query@));
                false
            },
            EnvItem::Variable { key, description, .. } => {
                let k = chars_of(to_lower(key.as_str()).as_str());
                if has_infix(k.as_slice(), q.as_slice()) {
                    return true;
                }
                let r = any_paragraph_holds(description, &q);
                proof {
                    let dv = strings_view(description@);
                    if r {
                        let i = choose|i: int|
                            0 <= i < dv.len() && contains_seq(unicode_lower(#[trigger] dv[i]), q@);
                        assert(0 <= i < dv.len() && contains_seq(unicode_lower(dv[i]), q@));
                    } else {
                        assert(!exists|i: int|
                            0 <= i < dv.len() && contains_seq(unicode_lower(#[trigger] dv[i]), q@));
                    }
                    assert(q@ == unicode_lower(query@));
                    assert(!contains_seq(unicode_lower(key@), q@));
                    assert(self@ == ItemView::Variable { key: key@, value: self@->value, description: dv, is_commented_out: self@->is_commented_out, show_password: self@->show_password });
                    if r {
                        let i = choose|i: int|
                            0 <= i < dv.len() && contains_seq(unicode_lower(#[trigger] dv[i]), q@);
                        assert(self@->description[i] == dv[i]);
                        assert(is_visible(self@, query@));
                    } else {
                        assert forall|i: int| 0 <= i < dv.len() implies !contains_seq(unicode_lower(#[trigger] self@->description[i]), unicode_lower(query@)) by {
                            assert(self@->description[i] == dv[i]);
                        }
                        assert(!is_visible(self@, query@));
                    }
                }
                r
            },
        }
    }

    /// Whether a key names a secret, whose value should start hidden.
    pub fn is_sensitive_key(key: &str) -> (b: bool)
        ensures
            b == is_sensitive(key@),
    {
        let cs = chars_of(key);
        sensitive_chars(cs.as_slice())
    }
}

} // verus!
