//! Properties that hold across the operations of [`crate::Vectorish`], stated
//! over the sequence model that the methods' contracts use.
use crate::vectorish::{insert_clamped, lookup};
use vstd::prelude::*;

verus! {

/// Reading rank `i` right after inserting `x` at rank `i` gives back `x`, for
/// every rank from 0 up to and including the length.
pub proof fn lemma_get_after_insert(s: Seq<u64>, i: int, x: u64)
    requires
        0 <= i <= s.len(),
    ensures
        lookup(insert_clamped(s, i, x), i) == Some(x),
{
}

/// Reading rank `i` right after replacing the element there with `x` gives
/// back `x`, and every other rank is left as it was.
pub proof fn lemma_get_after_set(s: Seq<u64>, i: int, x: u64)
    requires
        0 <= i < s.len(),
    ensures
        lookup(s.update(i, x), i) == Some(x),
        forall|j: int| j != i ==> #[trigger] lookup(s.update(i, x), j) == lookup(s, j),
{
}

/// Each successful insertion (at either end or at any rank) adds exactly one
/// to the length, and each successful removal (at a valid rank or at either
/// end of a non-empty list) takes exactly one away.
pub proof fn lemma_length_accounting(s: Seq<u64>, i: int, x: u64)
    requires
        0 <= i,
    ensures
        s.push(x).len() == s.len() + 1,
        (seq![x] + s).len() == s.len() + 1,
        insert_clamped(s, i, x).len() == s.len() + 1,
        i < s.len() ==> s.remove(i).len() == s.len() - 1,
        s.len() > 0 ==> s.drop_last().len() == s.len() - 1,
        s.len() > 0 ==> s.skip(1).len() == s.len() - 1,
{
}

/// An element pushed at the front is the first one met when walking the list
/// in order; one pushed at the back is the last. The rest keep their order.
pub proof fn lemma_push_order(s: Seq<u64>, x: u64)
    ensures
        (seq![x] + s).first() == x,
        (seq![x] + s).skip(1) == s,
        s.push(x).last() == x,
        s.push(x).drop_last() == s,
{
    assert((seq![x] + s).skip(1) =~= s);
    assert(s.push(x).drop_last() =~= s);
}

/// Reversing twice gives back the original order.
pub proof fn lemma_reverse_involution(s: Seq<u64>)
    ensures
        s.reverse().reverse() == s,
{
    assert(s.reverse().reverse() =~= s);
}

/// At the boundary: rank `len` holds nothing, so reading or removing there
/// fails; an insertion at or past `len` appends.
pub proof fn lemma_boundary(s: Seq<u64>, i: int, x: u64)
    requires
        i >= s.len(),
    ensures
        lookup(s, i) is None,
        insert_clamped(s, i, x) == s.push(x),
{
}

} // verus!
