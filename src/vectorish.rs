//! A positional list of element handles on top of the skip list.
//!
//! Elements are opaque `u64` handles: the list never inspects them, it only
//! keeps them in order. All positions are 0-based logical ranks.
use crate::store::{
    sl_clear, sl_get, sl_get_mut, sl_insert, sl_len, sl_new, sl_pop_back, sl_pop_front,
    sl_push_back, sl_push_front, sl_remove, sl_to_vec, skiplist_items,
};
use skiplist::SkipList;
use vstd::prelude::*;

verus! {

/// Why an operation on a [`Vectorish`] failed.
#[derive(PartialEq, Eq, Structural, Debug, Clone, Copy)]
pub enum VecError {
    /// The requested position is not below the current length.
    IndexOutOfRange,
    /// An end was popped while the list was empty.
    PopFromEmpty,
}

/// The position a possibly negative index names in a list of length `len`:
/// a negative index counts back from the end.
pub open spec fn resolve_index(len: int, index: int) -> int {
    if index < 0 {
        len + index
    } else {
        index
    }
}

/// The element at rank `i`, if `i` is a position of `s`.
pub open spec fn lookup(s: Seq<u64>, i: int) -> Option<u64> {
    if 0 <= i < s.len() {
        Some(s[i])
    } else {
        None
    }
}

/// `s` with `item` placed at rank `index`, or appended when `index` lies past
/// the end.
pub open spec fn insert_clamped(s: Seq<u64>, index: int, item: u64) -> Seq<u64> {
    if index < s.len() {
        s.insert(index, item)
    } else {
        s.push(item)
    }
}

/// An indexable list whose order is kept by a rank-indexed skip list.
pub struct Vectorish {
    pub inner: SkipList<u64>,
}

impl View for Vectorish {
    type V = Seq<u64>;

    open spec fn view(&self) -> Seq<u64> {
        skiplist_items(self.inner)
    }
}

/// The rank that `index` names in a list of length `len`, if it names one.
fn resolve(index: isize, len: usize) -> (r: Option<usize>)
    ensures
        0 <= resolve_index(len as int, index as int) < len ==> r == Some(
            resolve_index(len as int, index as int) as usize,
        ),
        !(0 <= resolve_index(len as int, index as int) < len) ==> r.is_none(),
{
    if index < 0 {
        let back: usize = (-(index + 1)) as usize + 1;
        if back <= len {
            Some(len - back)
        } else {
            None
        }
    } else if (index as usize) < len {
        Some(index as usize)
    } else {
        None
    }
}

impl Vectorish {
    /// An empty list.
    pub fn new() -> (r: Vectorish)
        ensures
            r@ == Seq::<u64>::empty(),
    {
        Vectorish { inner: sl_new() }
    }

    /// The number of elements.
    pub fn len(&self) -> (r: usize)
        ensures
            r as int == self@.len(),
    {
        sl_len(&self.inner)
    }

    /// Adds `item` after the last element.
    pub fn push_back(&mut self, item: u64)
        requires
            old(self)@.len() < usize::MAX,
        ensures
            final(self)@ == old(self)@.push(item),
    {
        sl_push_back(&mut self.inner, item);
    }

    /// Adds `item` before the first element.
    pub fn push_front(&mut self, item: u64)
        requires
            old(self)@.len() < usize::MAX,
        ensures
            final(self)@ == seq![item] + old(self)@,
    {
        sl_push_front(&mut self.inner, item);
    }

    /// Places `item` at rank `index`, shifting later elements back. An index
    /// past the end never fails: the item is appended instead.
    pub fn insert(&mut self, index: usize, item: u64)
        requires
            old(self)@.len() < usize::MAX,
        ensures
            final(self)@ == insert_clamped(old(self)@, index as int, item),
    {
        if index < sl_len(&self.inner) {
            sl_insert(&mut self.inner, item, index);
        } else {
            sl_push_back(&mut self.inner, item);
        }
    }

    /// The element at rank `index`, or `None` when `index` is not below the
    /// length.
    pub fn get(&self, index: usize) -> (r: Option<u64>)
        ensures
            r == lookup(self@, index as int),
    {
        sl_get(&self.inner, index)
    }

    /// Replaces the element at rank `index` with `item`.
    pub fn set(&mut self, index: usize, item: u64) -> (r: Result<(), VecError>)
        ensures
            index < old(self)@.len() ==> r == Ok::<(), VecError>(())
                && final(self)@ == old(self)@.update(index as int, item),
            index >= old(self)@.len() ==> r == Err::<(), VecError>(VecError::IndexOutOfRange)
                && final(self)@ == old(self)@,
    {
        match sl_get_mut(&mut self.inner, index) {
            Some(slot) => {
                *slot = item;
                Ok(())
            },
            None => Err(VecError::IndexOutOfRange),
        }
    }

    /// Takes out and returns the element at rank `index`.
    pub fn remove(&mut self, index: usize) -> (r: Result<u64, VecError>)
        ensures
            index < old(self)@.len() ==> r == Ok::<u64, VecError>(old(self)@[index as int])
                && final(self)@ == old(self)@.remove(index as int),
            index >= old(self)@.len() ==> r == Err::<u64, VecError>(VecError::IndexOutOfRange)
                && final(self)@ == old(self)@,
    {
        if index < sl_len(&self.inner) {
            Ok(sl_remove(&mut self.inner, index))
        } else {
            Err(VecError::IndexOutOfRange)
        }
    }

    /// Takes out and returns the last element.
    pub fn pop_back(&mut self) -> (r: Result<u64, VecError>)
        ensures
            old(self)@.len() > 0 ==> r == Ok::<u64, VecError>(old(self)@.last()) && final(self)@ == old(self)@.drop_last(),
            old(self)@.len() == 0 ==> r == Err::<u64, VecError>(VecError::PopFromEmpty)
                && final(self)@ == old(self)@,
    {
        match sl_pop_back(&mut self.inner) {
            Some(item) => Ok(item),
            None => Err(VecError::PopFromEmpty),
        }
    }

    /// Takes out and returns the first element.
    pub fn pop_front(&mut self) -> (r: Result<u64, VecError>)
        ensures
            old(self)@.len() > 0 ==> r == Ok::<u64, VecError>(old(self)@.first()) && final(self)@ == old(self)@.skip(1),
            old(self)@.len() == 0 ==> r == Err::<u64, VecError>(VecError::PopFromEmpty)
                && final(self)@ == old(self)@,
    {
        match sl_pop_front(&mut self.inner) {
            Some(item) => Ok(item),
            None => Err(VecError::PopFromEmpty),
        }
    }

    /// Drops every element.
    pub fn clear(&mut self)
        ensures
            final(self)@ == Seq::<u64>::empty(),
    {
        sl_clear(&mut self.inner);
    }

    /// Puts the elements in the opposite order, by moving them one at a time
    /// from the back of the list to the back of a fresh one: `n` removals and
    /// `n` insertions, each logarithmic in expectation.
    pub fn reverse(&mut self)
        ensures
            final(self)@ == old(self)@.reverse(),
    {
        let ghost orig = self@;
        let n = sl_len(&self.inner);
        let mut out = sl_new();
        let mut rest = n;
        while rest > 0
            invariant
                rest <= n,
                n == orig.len(),
                skiplist_items(self.inner) == orig.subrange(0, rest as int),
                skiplist_items(out).len() == n - rest,
                forall|k: int|
                    0 <= k < n - rest ==> #[trigger] skiplist_items(out)[k] == orig[n - 1 - k],
            decreases rest,
        {
            let ghost before = skiplist_items(out);
            if let Some(item) = sl_pop_back(&mut self.inner) {
                sl_push_back(&mut out, item);
            }
            rest = rest - 1;
            assert(skiplist_items(self.inner) =~= orig.subrange(0, rest as int));
            assert forall|k: int| 0 <= k < n - rest implies #[trigger] skiplist_items(out)[k]
                == orig[n - 1 - k] by {
                if k < n - rest - 1 {
                    assert(skiplist_items(out)[k] == before[k]);
                }
            }
        }
        self.inner = out;
        assert(self@ =~= orig.reverse());
    }

    /// Appends `item`; the list protocol's name for [`Vectorish::push_back`].
    pub fn append(&mut self, item: u64)
        requires
            old(self)@.len() < usize::MAX,
        ensures
            final(self)@ == old(self)@.push(item),
    {
        self.push_back(item);
    }

    /// Prepends `item`; the list protocol's name for [`Vectorish::push_front`].
    pub fn append_left(&mut self, item: u64)
        requires
            old(self)@.len() < usize::MAX,
        ensures
            final(self)@ == seq![item] + old(self)@,
    {
        self.push_front(item);
    }

    /// Removes and returns the element at rank `i`, or the last one when no
    /// rank is given.
    pub fn pop(&mut self, i: Option<usize>) -> (r: Result<u64, VecError>)
        ensures
            r == (match i {
                Some(k) => if k < old(self)@.len() {
                    Ok::<u64, VecError>(old(self)@[k as int])
                } else {
                    Err::<u64, VecError>(VecError::IndexOutOfRange)
                },
                None => if old(self)@.len() > 0 {
                    Ok::<u64, VecError>(old(self)@.last())
                } else {
                    Err::<u64, VecError>(VecError::PopFromEmpty)
                },
            }),
            final(self)@ == (match i {
                Some(k) => if k < old(self)@.len() {
                    old(self)@.remove(k as int)
                } else {
                    old(self)@
                },
                None => if old(self)@.len() > 0 {
                    old(self)@.drop_last()
                } else {
                    old(self)@
                },
            }),
    {
        match i {
            Some(k) => self.remove(k),
            None => self.pop_back(),
        }
    }

    /// The number of elements; the list protocol's name for [`Vectorish::len`].
    pub fn __len__(&self) -> (r: usize)
        ensures
            r as int == self@.len(),
    {
        self.len()
    }

    /// The element that `index` names; a negative index counts back from the
    /// end, so `-1` is the last element.
    pub fn __getitem__(&self, index: isize) -> (r: Result<u64, VecError>)
        ensures
            r == (match lookup(self@, resolve_index(self@.len() as int, index as int)) {
                Some(v) => Ok::<u64, VecError>(v),
                None => Err::<u64, VecError>(VecError::IndexOutOfRange),
            }),
    {
        match resolve(index, self.len()) {
            Some(j) => match self.get(j) {
                Some(v) => Ok(v),
                None => Err(VecError::IndexOutOfRange),
            },
            None => Err(VecError::IndexOutOfRange),
        }
    }

    /// Replaces the element that `index` names with `item`; a negative index
    /// counts back from the end.
    pub fn __setitem__(&mut self, index: isize, item: u64) -> (r: Result<(), VecError>)
        ensures
            ({
                let j = resolve_index(old(self)@.len() as int, index as int);
                &&& 0 <= j < old(self)@.len() ==> r == Ok::<(), VecError>(()) && final(self)@
                    == old(self)@.update(j, item)
                &&& !(0 <= j < old(self)@.len()) ==> r == Err::<(), VecError>(
                    VecError::IndexOutOfRange,
                ) && final(self)@ == old(self)@
            }),
    {
        match resolve(index, self.len()) {
            Some(j) => self.set(j, item),
            None => Err(VecError::IndexOutOfRange),
        }
    }

    /// The elements front to back.
    pub fn to_vec(&self) -> (r: Vec<u64>)
        ensures
            r@ == self@,
    {
        sl_to_vec(&self.inner)
    }

    /// The elements back to front.
    pub fn to_vec_rev(&self) -> (r: Vec<u64>)
        ensures
            r@ == self@.reverse(),
    {
        let items = sl_to_vec(&self.inner);
        let n = items.len();
        let mut out: Vec<u64> = Vec::new();
        let mut i: usize = n;
        while i > 0
            invariant
                i <= n,
                n == items@.len(),
                items@ == self@,
                out@.len() == n - i,
                forall|k: int| 0 <= k < n - i ==> #[trigger] out@[k] == items@[n - 1 - k],
            decreases i,
        {
            i = i - 1;
            out.push(items[i]);
        }
        assert(out@ =~= self@.reverse());
        out
    }
}

} // verus!
