use vstd::prelude::*;

verus! {

/// Walks a container's elements front to back, lending each one.
pub struct SmallVecIterator<'a, T> {
    pub(crate) items: &'a [T],
    pub(crate) pos: usize,
}

impl<'a, T> View for SmallVecIterator<'a, T> {
    type V = Seq<T>;

    /// The elements not yet yielded, in the order they will come.
    closed spec fn view(&self) -> Seq<T> {
        self.items@.subrange(self.pos as int, self.items@.len() as int)
    }
}

impl<'a, T> SmallVecIterator<'a, T> {
    /// An iterator over all of `items`.
    pub(crate) fn over(items: &'a [T]) -> (r: Self)
        ensures
            r.wf(),
            r@ == items@,
    {
        SmallVecIterator { items, pos: 0 }
    }

    /// The position never passes the end.
    pub closed spec fn wf(&self) -> bool {
        self.pos <= self.items@.len()
    }

    /// The next element, or `None` once all have been yielded.
    pub fn next(&mut self) -> (r: Option<&'a T>)
        requires
            old(self).wf(),
        ensures
            final(self).wf(),
            old(self)@.len() == 0 ==> r is None && final(self)@ == old(self)@,
            old(self)@.len() > 0 ==> r == Some(&old(self)@[0]) && final(self)@ == old(self)@.drop_first(),
    {
        if self.pos == self.items.len() {
            return None;
        }
        let item = &self.items[self.pos];
        self.pos = self.pos + 1;
        assert(self@ =~= old(self)@.drop_first());
        Some(item)
    }
}

/// Walks a container's elements front to back, lending exclusive access to
/// each one. `rest` is the part not yet lent; what is finally written through
/// it, and through each element lent, is what the container ends up holding.
pub struct SmallVecMutIterator<'a, T> {
    pub rest: &'a mut [T],
}

impl<'a, T> View for SmallVecMutIterator<'a, T> {
    type V = Seq<T>;

    /// The elements not yet yielded, in the order they will come.
    closed spec fn view(&self) -> Seq<T> {
        self.rest@
    }
}

impl<'a, T> SmallVecMutIterator<'a, T> {
    /// An iterator over all of `rest`.
    pub(crate) fn over(rest: &'a mut [T]) -> (r: Self)
        ensures
            r@ == old(rest)@,
            final(r.rest)@ == final(rest)@,
    {
        SmallVecMutIterator { rest }
    }

    /// The next element, or `None` once all have been yielded.
    pub fn next(&mut self) -> (r: Option<&'a mut T>)
        ensures
            old(self)@.len() == 0 ==> r is None && final(self)@ == old(self)@,
            old(self)@.len() > 0 ==> r is Some && *r.unwrap() == old(self)@[0] && final(self)@
                == old(self)@.drop_first(),
            old(self)@.len() > 0 ==> final(old(self).rest)@ == seq![*final(r.unwrap())] + final(final(self).rest)@,
    {
        let mut taken: &'a mut [T] = &mut [];
        std::mem::swap(&mut taken, &mut self.rest);
        if taken.len() == 0 {
            self.rest = taken;
            return None;
        }
        let (head, tail) = taken.split_at_mut(1);
        self.rest = tail;
        head.first_mut()
    }
}

/// Yields a container's elements by value, front to back. The elements not
/// yet yielded are owned by the iterator and are dropped with it.
pub struct SmallVecMoveIterator<T> {
    /// The remaining elements, last one first, so that the next one to
    /// yield is at the end.
    pub(crate) stack: Vec<T>,
}

impl<T> View for SmallVecMoveIterator<T> {
    type V = Seq<T>;

    /// The elements not yet yielded, in the order they will come.
    closed spec fn view(&self) -> Seq<T> {
        Seq::new(self.stack@.len(), |i: int| self.stack@[self.stack@.len() - 1 - i])
    }
}

impl<T> SmallVecMoveIterator<T> {
    /// Takes ownership of `items`, to yield them front to back.
    pub(crate) fn new(items: Vec<T>) -> (r: Self)
        ensures
            r@ == items@,
    {
        let mut taken = items;
        let ghost whole = taken@;
        let mut stack: Vec<T> = Vec::with_capacity(taken.len());
        while taken.len() > 0
            invariant
                taken@.len() + stack@.len() == whole.len(),
                taken@ == whole.subrange(0, taken@.len() as int),
                forall|i: int|
                    0 <= i < stack@.len() ==> #[trigger] stack@[i] == whole[whole.len() - 1 - i],
            decreases taken@.len(),
        {
            match taken.pop() {
                Some(item) => stack.push(item),
                None => {},
            }
        }
        let r = SmallVecMoveIterator { stack };
        assert(r@ =~= whole);
        r
    }

    /// The next element, or `None` once all have been yielded.
    pub fn next(&mut self) -> (r: Option<T>)
        ensures
            old(self)@.len() == 0 ==> r is None && final(self)@ == old(self)@,
            old(self)@.len() > 0 ==> r == Some(old(self)@[0]) && final(self)@
                == old(self)@.drop_first(),
    {
        if self.stack.len() == 0 {
            assert(self@ =~= old(self)@);
            return None;
        }
        let r = self.stack.pop();
        assert(self@ =~= old(self)@.drop_first());
        r
    }

    /// The number of elements not yet yielded.
    pub fn len(&self) -> (r: usize)
        ensures
            r == self@.len(),
    {
        self.stack.len()
    }
}

} // verus!
