use crate::iter::{SmallVecIterator, SmallVecMoveIterator, SmallVecMutIterator};
use vstd::prelude::*;

verus! {

/// The capacity a container moves to when a push finds it full: double the
/// current capacity, and at least one slot.
pub open spec fn grown_cap(cap: nat) -> nat {
    if cap == 0 {
        1
    } else {
        2 * cap
    }
}

/// The capacity after pushing onto a container of length `len` and
/// capacity `cap`.
pub open spec fn cap_after_push(len: nat, cap: nat) -> nat {
    if len == cap {
        grown_cap(cap)
    } else {
        cap
    }
}

/// A sequence that holds up to `N` elements before it spills.
///
/// `cap` is the container's logical capacity: it equals `N` while the
/// container is inline and is strictly larger once it has spilled. Spilling
/// is one-way. `buf` holds the live elements; it is reserved for `N` slots
/// when the container is made, and whenever the container grows the
/// elements are moved into a buffer reserved for the new capacity.
pub struct SmallVec<T, const N: usize> {
    buf: Vec<T>,
    cap: usize,
}

impl<T, const N: usize> View for SmallVec<T, N> {
    type V = Seq<T>;

    closed spec fn view(&self) -> Seq<T> {
        self.buf@
    }
}

impl<T, const N: usize> SmallVec<T, N> {
    /// The length never exceeds the capacity, and the capacity never falls
    /// below the inline size.
    pub closed spec fn wf(&self) -> bool {
        &&& N <= self.cap
        &&& self.buf@.len() <= self.cap
    }

    /// The current capacity.
    pub closed spec fn spec_cap(&self) -> nat {
        self.cap as nat
    }

    /// Whether the elements have moved out of the inline storage.
    pub open spec fn spec_spilled(&self) -> bool {
        self.spec_cap() > N
    }

    /// A well-formed container holds no more elements than its capacity,
    /// and its capacity is at least the inline size.
    pub proof fn lemma_wf_bounds(&self)
        requires
            self.wf(),
        ensures
            self@.len() <= self.spec_cap(),
            N <= self.spec_cap(),
    {
    }

    /// An empty, inline container.
    pub fn new() -> (r: Self)
        ensures
            r.wf(),
            r@ == Seq::<T>::empty(),
            r.spec_cap() == N,
            !r.spec_spilled(),
    {
        SmallVec { buf: Vec::with_capacity(N), cap: N }
    }

    /// The fixed inline capacity of this variant.
    pub fn inline_size(&self) -> (r: usize)
        ensures
            r == N,
    {
        N
    }

    /// The number of live elements.
    pub fn len(&self) -> (r: usize)
        ensures
            r == self@.len(),
    {
        self.buf.len()
    }

    /// The current capacity.
    pub fn cap(&self) -> (r: usize)
        ensures
            r == self.spec_cap(),
    {
        self.cap
    }

    /// Whether the container has spilled out of its inline storage.
    pub fn spilled(&self) -> (r: bool)
        ensures
            r == self.spec_spilled(),
    {
        self.cap > N
    }

    /// Appends `value`, growing to `max(2 * cap, 1)` first if the container
    /// is full. The doubled capacity must be representable.
    pub fn push(&mut self, value: T)
        requires
            old(self).wf(),
            old(self)@.len() * 2 <= usize::MAX,
        ensures
            final(self).wf(),
            final(self)@ == old(self)@.push(value),
            final(self).spec_cap() == cap_after_push(old(self)@.len(), old(self).spec_cap()),
    {
        let cap = self.cap;
        if self.buf.len() == cap {
            let new_cap: usize = if cap == 0 { 1 } else { cap * 2 };
            self.grow(new_cap);
        }
        self.buf.push(value);
    }

    /// Moves the elements into a fresh buffer of `new_cap` slots. The
    /// elements are relocated, not cloned; the previous buffer is released.
    pub fn grow(&mut self, new_cap: usize)
        requires
            old(self).wf(),
            old(self)@.len() <= new_cap,
            N < new_cap,
        ensures
            final(self).wf(),
            final(self)@ == old(self)@,
            final(self).spec_cap() == new_cap,
            final(self).spec_spilled(),
    {
        let mut fresh: Vec<T> = Vec::with_capacity(new_cap);
        fresh.append(&mut self.buf);
        self.buf = fresh;
        self.cap = new_cap;
    }
}

impl<T, const N: usize> SmallVec<T, N> {
    /// Removes and returns the last element, or `None` when empty. The
    /// capacity is unchanged: a spilled container stays spilled.
    pub fn pop(&mut self) -> (r: Option<T>)
        requires
            old(self).wf(),
        ensures
            final(self).wf(),
            final(self).spec_cap() == old(self).spec_cap(),
            old(self)@.len() == 0 ==> r is None && final(self)@ == old(self)@,
            old(self)@.len() > 0 ==> r == Some(old(self)@.last()) && final(self)@
                == old(self)@.drop_last(),
    {
        self.buf.pop()
    }

    /// The element at `index`; an index at or past the length is a bounds
    /// violation and is not admitted.
    pub fn get(&self, index: usize) -> (r: &T)
        requires
            index < self@.len(),
        ensures
            *r == self@[index as int],
    {
        &self.buf[index]
    }

    /// Exclusive access to the element at `index`.
    pub fn get_mut(&mut self, index: usize) -> (r: &mut T)
        requires
            old(self).wf(),
            index < old(self)@.len(),
        ensures
            *r == old(self)@[index as int],
            final(self).wf(),
            final(self).spec_cap() == old(self).spec_cap(),
            final(self)@ == old(self)@.update(index as int, *final(r)),
    {
        &mut self.buf[index]
    }

    /// The elements in `[start, end)`.
    pub fn slice(&self, start: usize, end: usize) -> (r: &[T])
        requires
            start <= end <= self@.len(),
        ensures
            r@ == self@.subrange(start as int, end as int),
    {
        &self.buf.as_slice()[start..end]
    }

    /// All the elements, in order.
    pub fn as_slice(&self) -> (r: &[T])
        ensures
            r@ == self@,
    {
        self.buf.as_slice()
    }

    /// Exclusive access to the elements in `[start, end)`. Writes through
    /// the view land in the container; a slice cannot change its length,
    /// which the last clause takes as its premise.
    pub fn mut_slice(&mut self, start: usize, end: usize) -> (r: &mut [T])
        requires
            old(self).wf(),
            start <= end <= old(self)@.len(),
        ensures
            r@ == old(self)@.subrange(start as int, end as int),
            final(self).spec_cap() == old(self).spec_cap(),
            final(r)@.len() == end - start ==> final(self).wf() && final(self)@ == old(self)@.subrange(
                0,
                start as int,
            ) + final(r)@ + old(self)@.subrange(end as int, old(self)@.len() as int),
    {
        let all = self.buf.as_mut_slice();
        let (_, rest) = all.split_at_mut(start);
        let (mid, _) = rest.split_at_mut(end - start);
        mid
    }

    /// Exclusive access to all the elements.
    pub fn as_mut_slice(&mut self) -> (r: &mut [T])
        requires
            old(self).wf(),
        ensures
            r@ == old(self)@,
            final(self).spec_cap() == old(self).spec_cap(),
            final(r)@.len() == old(self)@.len() ==> final(self).wf() && final(self)@ == final(r)@,
    {
        let len = self.buf.len();
        self.mut_slice(0, len)
    }

    /// Exclusive access to the elements from `start` to the end.
    pub fn mut_slice_from(&mut self, start: usize) -> (r: &mut [T])
        requires
            old(self).wf(),
            start <= old(self)@.len(),
        ensures
            r@ == old(self)@.subrange(start as int, old(self)@.len() as int),
            final(self).spec_cap() == old(self).spec_cap(),
            final(r)@.len() == old(self)@.len() - start ==> final(self).wf() && final(self)@
                == old(self)@.subrange(
                0,
                start as int,
            ) + final(r)@,
    {
        let len = self.buf.len();
        self.mut_slice(start, len)
    }
}

impl<T, const N: usize> SmallVec<T, N> {
    /// Lends the elements front to back.
    pub fn iter(&self) -> (r: SmallVecIterator<'_, T>)
        ensures
            r.wf(),
            r@ == self@,
    {
        SmallVecIterator::over(self.buf.as_slice())
    }

    /// Lends exclusive access to the elements front to back.
    pub fn mut_iter(&mut self) -> (r: SmallVecMutIterator<'_, T>)
        requires
            old(self).wf(),
        ensures
            r@ == old(self)@,
            final(self).spec_cap() == old(self).spec_cap(),
            final(self)@ == final(r.rest)@,
            final(r.rest)@.len() == old(self)@.len() ==> final(self).wf(),
    {
        SmallVecMutIterator::over(self.buf.as_mut_slice())
    }

    /// Hands all the elements over to an iterator that yields them by value.
    /// The container is left empty and inline at once, before anything is
    /// yielded, so it owns none of the elements any more.
    pub fn move_iter(&mut self) -> (r: SmallVecMoveIterator<T>)
        ensures
            r@ == old(self)@,
            final(self).wf(),
            final(self)@ == Seq::<T>::empty(),
            final(self).spec_cap() == N,
            !final(self).spec_spilled(),
    {
        let mut taken: Vec<T> = Vec::with_capacity(N);
        std::mem::swap(&mut taken, &mut self.buf);
        self.cap = N;
        SmallVecMoveIterator::new(taken)
    }

    /// Appends every element of `other`, front to back, taking ownership.
    pub fn push_all_move<const M: usize>(&mut self, other: SmallVec<T, M>)
        requires
            old(self).wf(),
            (old(self)@.len() + other@.len()) * 2 <= usize::MAX,
        ensures
            final(self).wf(),
            final(self)@ == old(self)@ + other@,
    {
        let mut other = other;
        let mut items = other.move_iter();
        let ghost start = self@;
        let ghost all = items@;
        while items.len() > 0
            invariant
                self.wf(),
                all.len() + start.len() == self@.len() + items@.len(),
                self@ + items@ == start + all,
                (start.len() + all.len()) * 2 <= usize::MAX,
            decreases items@.len(),
        {
            match items.next() {
                Some(item) => {
                    self.push(item);
                    assert(self@ + items@ =~= start + all);
                },
                None => {},
            }
        }
        assert(self@ =~= start + all);
    }
}

impl<T: Clone, const N: usize> Clone for SmallVec<T, N> {
    /// A container of the same variant and capacity holding a clone of each
    /// element; it shares nothing with `self`.
    fn clone(&self) -> (r: Self)
        ensures
            self.wf() ==> r.wf(),
            r.spec_cap() == self.spec_cap(),
            r@.len() == self@.len(),
            forall|i: int| 0 <= i < self@.len() ==> cloned(self@[i], #[trigger] r@[i]),
    {
        let mut buf: Vec<T> = Vec::with_capacity(self.cap);
        let mut i: usize = 0;
        while i < self.buf.len()
            invariant
                i <= self.buf@.len(),
                buf@.len() == i,
                forall|j: int| 0 <= j < i ==> cloned(self.buf@[j], #[trigger] buf@[j]),
            decreases self.buf@.len() - i,
        {
            buf.push(self.buf[i].clone());
            i = i + 1;
        }
        SmallVec { buf, cap: self.cap }
    }
}

} // verus!

verus! {

/// A small vector with one inline slot.
pub type SmallVec1<T> = SmallVec<T, 1>;

/// A small vector with two inline slots.
pub type SmallVec2<T> = SmallVec<T, 2>;

/// A small vector with four inline slots.
pub type SmallVec4<T> = SmallVec<T, 4>;

/// A small vector with eight inline slots.
pub type SmallVec8<T> = SmallVec<T, 8>;

/// A small vector with sixteen inline slots.
pub type SmallVec16<T> = SmallVec<T, 16>;

/// A small vector with twenty-four inline slots.
pub type SmallVec24<T> = SmallVec<T, 24>;

/// A small vector with thirty-two inline slots.
pub type SmallVec32<T> = SmallVec<T, 32>;

} // verus!
