//! The outside skip list, seen through the sequence of handles it holds.
//!
//! Every item here is trusted: Verus believes the contracts below without
//! reading the skip list crate. Each states only what that crate's source
//! shows for the method it wraps.
use skiplist::SkipList;
use vstd::prelude::*;

verus! {

#[verifier::external_type_specification]
#[verifier::external_body]
#[verifier::reject_recursive_types(T)]
pub struct ExSkipList<T>(SkipList<T>);

/// The handles a skip list holds, in logical (level-0) order.
pub uninterp spec fn skiplist_items(l: SkipList<u64>) -> Seq<u64>;

/// Relies on `SkipList::new`: a fresh list holds nothing.
#[verifier::external_body]
pub(crate) fn sl_new() -> (r: SkipList<u64>)
    ensures
        skiplist_items(r) == Seq::<u64>::empty(),
{
    SkipList::new()
}

/// Relies on `SkipList::len`: the element counter, kept equal to the number
/// of items by every mutation.
#[verifier::external_body]
pub(crate) fn sl_len(l: &SkipList<u64>) -> (r: usize)
    ensures
        r as int == skiplist_items(*l).len(),
{
    l.len()
}

/// Relies on `SkipList::insert`: places `v` at logical position `index`,
/// shifting later items back by one. It panics past the end, and its counter
/// is incremented unchecked, hence the two bounds.
#[verifier::external_body]
pub(crate) fn sl_insert(l: &mut SkipList<u64>, v: u64, index: usize)
    requires
        index <= skiplist_items(*old(l)).len(),
        skiplist_items(*old(l)).len() < usize::MAX,
    ensures
        skiplist_items(*final(l)) == skiplist_items(*old(l)).insert(index as int, v),
{
    l.insert(v, index)
}

/// Relies on `SkipList::push_back`: inserts at position `len`, so the counter
/// is incremented unchecked.
#[verifier::external_body]
pub(crate) fn sl_push_back(l: &mut SkipList<u64>, v: u64)
    requires
        skiplist_items(*old(l)).len() < usize::MAX,
    ensures
        skiplist_items(*final(l)) == skiplist_items(*old(l)).push(v),
{
    l.push_back(v)
}

/// Relies on `SkipList::push_front`: inserts at position 0.
#[verifier::external_body]
pub(crate) fn sl_push_front(l: &mut SkipList<u64>, v: u64)
    requires
        skiplist_items(*old(l)).len() < usize::MAX,
    ensures
        skiplist_items(*final(l)) == seq![v] + skiplist_items(*old(l)),
{
    l.push_front(v)
}

/// Relies on `SkipList::remove`: takes out and returns the item at `index`;
/// it panics when `index` is not below the length.
#[verifier::external_body]
pub(crate) fn sl_remove(l: &mut SkipList<u64>, index: usize) -> (r: u64)
    requires
        index < skiplist_items(*old(l)).len(),
    ensures
        r == skiplist_items(*old(l))[index as int],
        skiplist_items(*final(l)) == skiplist_items(*old(l)).remove(index as int),
{
    l.remove(index)
}

/// Relies on `SkipList::pop_back`: `None` on an empty list, else removes and
/// returns the last item.
#[verifier::external_body]
pub(crate) fn sl_pop_back(l: &mut SkipList<u64>) -> (r: Option<u64>)
    ensures
        skiplist_items(*old(l)).len() == 0 ==> r.is_none() && skiplist_items(*final(l))
            == skiplist_items(*old(l)),
        skiplist_items(*old(l)).len() > 0 ==> r == Some(skiplist_items(*old(l)).last())
            && skiplist_items(*final(l)) == skiplist_items(*old(l)).drop_last(),
{
    l.pop_back()
}

/// Relies on `SkipList::pop_front`: `None` on an empty list, else removes and
/// returns the first item.
#[verifier::external_body]
pub(crate) fn sl_pop_front(l: &mut SkipList<u64>) -> (r: Option<u64>)
    ensures
        skiplist_items(*old(l)).len() == 0 ==> r.is_none() && skiplist_items(*final(l))
            == skiplist_items(*old(l)),
        skiplist_items(*old(l)).len() > 0 ==> r == Some(skiplist_items(*old(l)).first())
            && skiplist_items(*final(l)) == skiplist_items(*old(l)).skip(1),
{
    l.pop_front()
}

/// Relies on `SkipList::get`: the item at `index`, or `None` past the end.
#[verifier::external_body]
pub(crate) fn sl_get(l: &SkipList<u64>, index: usize) -> (r: Option<u64>)
    ensures
        index < skiplist_items(*l).len() ==> r == Some(skiplist_items(*l)[index as int]),
        index >= skiplist_items(*l).len() ==> r.is_none(),
{
    l.get(index).copied()
}

/// Relies on `SkipList::get_mut`: a reference to the item at `index`, or
/// `None` past the end; writing through it replaces that item alone.
#[verifier::external_body]
pub(crate) fn sl_get_mut(l: &mut SkipList<u64>, index: usize) -> (r: Option<&mut u64>)
    ensures
        index >= skiplist_items(*old(l)).len() ==> r.is_none() && skiplist_items(*final(l))
            == skiplist_items(*old(l)),
        index < skiplist_items(*old(l)).len() ==> r.is_some() && *r.unwrap()
            == skiplist_items(*old(l))[index as int] && skiplist_items(*final(l))
            == skiplist_items(*old(l)).update(index as int, *final(r.unwrap())),
{
    l.get_mut(index)
}

/// Relies on `SkipList::clear`: afterwards the list holds nothing.
#[verifier::external_body]
pub(crate) fn sl_clear(l: &mut SkipList<u64>)
    ensures
        skiplist_items(*final(l)) == Seq::<u64>::empty(),
{
    l.clear()
}

/// Relies on `SkipList::iter`: walks the level-0 links front to back.
#[verifier::external_body]
pub(crate) fn sl_to_vec(l: &SkipList<u64>) -> (r: Vec<u64>)
    ensures
        r@ == skiplist_items(*l),
{
    l.iter().copied().collect()
}
} // verus!
