//! Lists of strings and their mathematical values.

use vstd::prelude::*;
use vstd::string::StringExecFns;

verus! {

/// The value of an optional string.
pub open spec fn opt_text(value: Option<&str>) -> Option<Seq<char>> {
    match value {
        Some(s) => Some(s@),
        None => None,
    }
}

/// Appends a copy of `item` to `list`.
pub fn push_text(list: &mut Vec<String>, item: &str)
    ensures
        final(list).deep_view() == old(list).deep_view().push(item@),
{
    let owned = String::from_str(item);
    list.push(owned);
    assert(list.deep_view() =~= old(list).deep_view().push(item@));
}

/// Appends copies of all of `items` to `list`, in order.
pub fn extend_texts(list: &mut Vec<String>, items: &Vec<String>)
    ensures
        final(list).deep_view() == old(list).deep_view() + items.deep_view(),
{
    let mut i: usize = 0;
    while i < items.len()
        invariant
            i <= items.len(),
            list.deep_view() == old(list).deep_view() + items.deep_view().take(i as int),
        decreases items.len() - i,
    {
        let ghost before = list.deep_view();
        list.push(items[i].clone());
        assert(list.deep_view() =~= before.push(items[i as int]@));
        assert(items.deep_view().take(i + 1) =~= items.deep_view().take(i as int).push(
            items[i as int]@,
        ));
        i += 1;
    }
    assert(items.deep_view().take(i as int) =~= items.deep_view());
}

/// The list of `first` and `second`.
pub fn pair(first: &str, second: &str) -> (list: Vec<String>)
    ensures
        list.deep_view() == seq![first@, second@],
{
    let mut list: Vec<String> = Vec::new();
    list.push(String::from_str(first));
    list.push(String::from_str(second));
    assert(list.deep_view() =~= seq![first@, second@]);
    list
}

/// A copy of `items`.
pub fn copy_texts(items: &[String]) -> (list: Vec<String>)
    ensures
        list.deep_view() == items.deep_view(),
{
    let mut list: Vec<String> = Vec::new();
    let mut i: usize = 0;
    while i < items.len()
        invariant
            i <= items@.len(),
            list.deep_view() == items.deep_view().take(i as int),
        decreases items@.len() - i,
    {
        let ghost before = list.deep_view();
        list.push(items[i].clone());
        assert(list.deep_view() =~= before.push(items@[i as int]@));
        assert(items.deep_view().take(i + 1) =~= items.deep_view().take(i as int).push(
            items@[i as int]@,
        ));
        i += 1;
    }
    assert(items.deep_view().take(i as int) =~= items.deep_view());
    list
}

/// The list of `first`, `second` and `third`.
pub fn triple(first: &str, second: &str, third: &str) -> (list: Vec<String>)
    ensures
        list.deep_view() == seq![first@, second@, third@],
{
    let mut list: Vec<String> = Vec::new();
    list.push(String::from_str(first));
    list.push(String::from_str(second));
    list.push(String::from_str(third));
    assert(list.deep_view() =~= seq![first@, second@, third@]);
    list
}

} // verus!
