//! Taking the values of an existing `.env` file into a loaded template.
use vstd::prelude::*;
use crate::item::{EnvItem, ItemView, items_view};

verus! {

/// `e` is a variable named `key`.
pub open spec fn is_var_named(e: ItemView, key: Seq<char>) -> bool {
    e matches ItemView::Variable { key: k, .. } && k == key
}

/// `j` is the first index of a variable named `key` in `items`.
pub open spec fn first_var_is(items: Seq<ItemView>, key: Seq<char>, j: int) -> bool {
    &&& 0 <= j < items.len()
    &&& is_var_named(items[j], key)
    &&& forall|t: int| 0 <= t < j ==> !is_var_named(#[trigger] items[t], key)
}

/// The first variable named `key` in `items`, if any.
pub open spec fn find_var(items: Seq<ItemView>, key: Seq<char>) -> Option<int> {
    if exists|j: int| first_var_is(items, key, j) {
        Some(choose|j: int| first_var_is(items, key, j))
    } else {
        None
    }
}

/// An item after the merge: a variable of the template takes the value and
/// the commented-out state of the first variable with its key in `new`;
/// everything else stays as it was.
pub open spec fn merged_item(e: ItemView, new: Seq<ItemView>) -> ItemView {
    match e {
        ItemView::Variable { key, value, description, is_commented_out, show_password } => {
            match find_var(new, key) {
                Some(j) => match new[j] {
                    ItemView::Variable { value: nv, is_commented_out: nc, .. } => ItemView::Variable {
                        key,
                        value: nv,
                        description,
                        is_commented_out: nc,
                        show_password,
                    },
                    _ => e,
                },
                None => e,
            }
        },
        _ => e,
    }
}

/// The template after the merge.
pub open spec fn merged_items(items: Seq<ItemView>, new: Seq<ItemView>) -> Seq<ItemView> {
    items.map_values(|e: ItemView| merged_item(e, new))
}

/// Whether `e` is a variable whose key `new` holds.
pub open spec fn takes_value(e: ItemView, new: Seq<ItemView>) -> bool {
    e matches ItemView::Variable { key, .. } && find_var(new, key) is Some
}

/// The number of variables of the template whose key `new` holds.
pub open spec fn merge_count(items: Seq<ItemView>, new: Seq<ItemView>) -> nat
    decreases items.len(),
{
    if items.len() == 0 {
        0
    } else {
        merge_count(items.drop_last(), new) + (if takes_value(items.last(), new) {
            1nat
        } else {
            0nat
        })
    }
}

pub proof fn lemma_first_var_unique(items: Seq<ItemView>, key: Seq<char>, i: int, j: int)
    requires
        first_var_is(items, key, i),
        first_var_is(items, key, j),
    ensures
        i == j,
{
    if i < j {
        assert(is_var_named(items[i], key));
    } else if j < i {
        assert(is_var_named(items[j], key));
    }
}

pub proof fn lemma_merge_count_bound(items: Seq<ItemView>, new: Seq<ItemView>)
    ensures
        merge_count(items, new) <= items.len(),
    decreases items.len(),
{
    if items.len() > 0 {
        lemma_merge_count_bound(items.drop_last(), new);
    }
}

/// The index of the first variable named `key` in `new`.
fn position_of(new: &[EnvItem], key: &String) -> (r: Option<usize>)
    ensures
        match r {
            Some(j) => find_var(items_view(new@), key@) == Some(j as int),
            None => find_var(items_view(new@), key@) is None,
        },
{
    let ghost nv = items_view(new@);
    let mut j: usize = 0;
    while j < new.len()
        invariant
            nv == items_view(new@),
            j <= new@.len(),
            forall|t: int| 0 <= t < j ==> !is_var_named(#[trigger] nv[t], key@),
        decreases new@.len() - j,
    {
        if let EnvItem::Variable { key: k, .. } = &new[j] {
            let same = k.eq(key);
            if !same {
                assert(!is_var_named(nv[j as int], key@));
            }
            if same {
                proof {
                    assert(nv[j as int] == new@[j as int]@);
                    assert(first_var_is(nv, key@, j as int));
                    let c = choose|c: int| first_var_is(nv, key@, c);
                    lemma_first_var_unique(nv, key@, j as int, c);
                }
                return Some(j);
            }
        }
        assert(nv[j as int] == new@[j as int]@);
        j = j + 1;
    }
    None
}

/// Takes into `items` the value and commented-out state of the first
/// variable with the same key in `new`, for each variable of `items`.
/// Returns the number of variables that took a value.
pub fn merge_into(items: &mut Vec<EnvItem>, new: &[EnvItem]) -> (count: usize)
    ensures
        items_view(final(items)@) == merged_items(items_view(old(items)@), items_view(new@)),
        count == merge_count(items_view(old(items)@), items_view(new@)),
{
    let ghost nv = items_view(new@);
    let ghost ov = items_view(items@);
    let mut count: usize = 0;
    let mut i: usize = 0;
    while i < items.len()
        invariant
            nv == items_view(new@),
            ov.len() == items@.len(),
            i <= items@.len(),
            forall|t: int| 0 <= t < i ==> (#[trigger] items@[t])@ == merged_item(ov[t], nv),
            forall|t: int| i <= t < items@.len() ==> (#[trigger] items@[t])@ == ov[t],
            count == merge_count(ov.take(i as int), nv),
            count <= i,
        decreases items@.len() - i,
    {
        let replacement: Option<EnvItem> = match &items[i] {
            EnvItem::Variable { key, value: _, description, is_commented_out: _, show_password } => {
                match position_of(new, key) {
                    Some(j) => match &new[j] {
                        EnvItem::Variable { value: nv2, is_commented_out: nc, .. } => {
                            let d = description.clone();
                            proof {
                                assert(strings_equal(d@, description@));
                            }
                            Some(
                                EnvItem::Variable {
                                    key: key.clone(),
                                    value: nv2.clone(),
                                    description: d,
                                    is_commented_out: *nc,
                                    show_password: *show_password,
                                },
                            )
                        },
                        EnvItem::Header { .. } => None,
                    },
                    None => None,
                }
            },
            EnvItem::Header { .. } => None,
        };
        proof {
            assert(ov.take(i + 1).drop_last() =~= ov.take(i as int));
            assert(ov[i as int] == items@[i as int]@);
        }
        match replacement {
            Some(item) => {
                items.set(i, item);
                count = count + 1;
            },
            None => {},
        }
        i = i + 1;
    }
    proof {
        assert(ov.take(ov.len() as int) =~= ov);
        assert(items_view(items@) =~= merged_items(ov, nv));
    }
    count
}

/// Two lists of strings with equal elements.
pub open spec fn strings_equal(a: Seq<String>, b: Seq<String>) -> bool {
    a == b
}

} // verus!
