//! The non-empty list of `nonempty_collections`, as far as the library uses
//! it. Nothing here is proved: each item states what the method of `NEVec`
//! that it names does.

use vstd::prelude::*;

verus! {

/// The list of `nonempty_collections`. Its own methods keep at least one
/// item in it, but it also lends out the vector inside it for writing
/// (`as_mut`), so a list that was emptied that way can come in from outside.
#[verifier::external_type_specification]
#[verifier::external_body]
#[verifier::reject_recursive_types(T)]
pub struct ExNEVec<T>(nonempty_collections::NEVec<T>);

/// The texts that a list of strings holds, in order. Nothing is claimed of
/// their number.
pub uninterp spec fn nevec_items(list: nonempty_collections::NEVec<String>) -> Seq<Seq<char>>;

/// Calls `NEVec::try_from_vec`, which refuses the empty vector and otherwise
/// keeps every item in its place.
#[verifier::external_body]
pub(crate) fn try_from_vec(items: Vec<String>) -> (list: Option<
    nonempty_collections::NEVec<String>,
>)
    ensures
        list is None <==> items@.len() == 0,
        list matches Some(l) ==> nevec_items(l) == items@.map_values(|s: String| s@),
{
    nonempty_collections::NEVec::try_from_vec(items)
}

/// Calls `as_ref` on the list, which lends the vector inside it: the same
/// items in the same places.
#[verifier::external_body]
pub(crate) fn as_vec(list: &nonempty_collections::NEVec<String>) -> (items: &Vec<String>)
    ensures
        items@.map_values(|s: String| s@) == nevec_items(*list),
{
    list.as_ref()
}

/// Calls `NEVec::first`, the item at position 0. The method reads that
/// position unchecked, so the list has to hold an item.
#[verifier::external_body]
pub(crate) fn first(list: &nonempty_collections::NEVec<String>) -> (item: &String)
    requires
        nevec_items(*list).len() > 0,
    ensures
        item@ == nevec_items(*list)[0],
{
    list.first()
}

} // verus!
