use crate::small_vec::SmallVec;
use vstd::prelude::*;

verus! {

/// Sequences that can be built up at the end: a small vector or an ordinary
/// `Vec`, so that code which only appends can take either.
pub trait VecLike<T> {
    /// The elements, in order.
    spec fn vec_view(&self) -> Seq<T>;

    /// The container's own consistency condition.
    spec fn vec_wf(&self) -> bool;

    /// The number of elements.
    fn vec_len(&self) -> (r: usize)
        ensures
            r == self.vec_view().len(),
    ;

    /// Appends `value`.
    fn vec_push(&mut self, value: T)
        requires
            old(self).vec_wf(),
            old(self).vec_view().len() * 2 <= usize::MAX,
        ensures
            final(self).vec_wf(),
            final(self).vec_view() == old(self).vec_view().push(value),
    ;

    /// Exclusive access to the elements in `[start, end)`.
    fn vec_mut_slice(&mut self, start: usize, end: usize) -> (r: &mut [T])
        requires
            old(self).vec_wf(),
            start <= end <= old(self).vec_view().len(),
        ensures
            r@ == old(self).vec_view().subrange(start as int, end as int),
            final(r)@.len() == end - start ==> final(self).vec_wf() && final(self).vec_view()
                == old(self).vec_view().subrange(0, start as int) + final(r)@ + old(
                self,
            ).vec_view().subrange(end as int, old(self).vec_view().len() as int),
    ;

    /// Exclusive access to the elements from `start` to the end.
    fn vec_mut_slice_from(&mut self, start: usize) -> (r: &mut [T])
        requires
            old(self).vec_wf(),
            start <= old(self).vec_view().len(),
        ensures
            r@ == old(self).vec_view().subrange(start as int, old(self).vec_view().len() as int),
            final(r)@.len() == old(self).vec_view().len() - start ==> final(self).vec_wf()
                && final(self).vec_view() == old(self).vec_view().subrange(0, start as int)
                + final(r)@,
    {
        let len = self.vec_len();
        let r = self.vec_mut_slice(start, len);
        proof {
            let v = old(self).vec_view();
            assert(v.subrange(len as int, v.len() as int) =~= Seq::<T>::empty());
            assert(v.subrange(0, start as int) + final(r)@ + Seq::<T>::empty() =~= v.subrange(
                0,
                start as int,
            ) + final(r)@);
        }
        r
    }
}

impl<T> VecLike<T> for Vec<T> {
    open spec fn vec_view(&self) -> Seq<T> {
        self@
    }

    open spec fn vec_wf(&self) -> bool {
        true
    }

    fn vec_len(&self) -> (r: usize) {
        self.len()
    }

    fn vec_push(&mut self, value: T) {
        self.push(value);
    }

    fn vec_mut_slice(&mut self, start: usize, end: usize) -> (r: &mut [T]) {
        let all = self.as_mut_slice();
        let (_, rest) = all.split_at_mut(start);
        let (mid, _) = rest.split_at_mut(end - start);
        mid
    }
}

impl<T, const N: usize> VecLike<T> for SmallVec<T, N> {
    open spec fn vec_view(&self) -> Seq<T> {
        self@
    }

    open spec fn vec_wf(&self) -> bool {
        self.wf()
    }

    fn vec_len(&self) -> (r: usize) {
        self.len()
    }

    fn vec_push(&mut self, value: T) {
        self.push(value);
    }

    fn vec_mut_slice(&mut self, start: usize, end: usize) -> (r: &mut [T]) {
        self.mut_slice(start, end)
    }
}

} // verus!
