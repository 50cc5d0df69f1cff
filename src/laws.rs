//! Properties of sequences of operations, stated over the same terms that
//! the operations' contracts use.
use crate::small_vec::cap_after_push;
use vstd::prelude::*;

verus! {

/// The contents after pushing each of `xs`, in order, onto `s`.
pub open spec fn after_pushes<T>(s: Seq<T>, xs: Seq<T>) -> Seq<T>
    decreases xs.len(),
{
    if xs.len() == 0 {
        s
    } else {
        after_pushes(s, xs.drop_last()).push(xs.last())
    }
}

/// The values that successive pops return from contents `s` until a pop
/// comes back empty.
pub open spec fn popped_values<T>(s: Seq<T>) -> Seq<T>
    decreases s.len(),
{
    if s.len() == 0 {
        Seq::empty()
    } else {
        seq![s.last()] + popped_values(s.drop_last())
    }
}

/// The capacity of a container with inline size `n` after `k` pushes onto
/// it from empty.
pub open spec fn cap_after_pushes(n: nat, k: nat) -> nat
    decreases k,
{
    if k == 0 {
        n
    } else {
        cap_after_push((k - 1) as nat, cap_after_pushes(n, (k - 1) as nat))
    }
}

/// Pushing is transparent to growth: after any pushes the contents are the
/// old contents followed by the pushed values, in order.
pub proof fn lemma_pushes_append<T>(s: Seq<T>, xs: Seq<T>)
    ensures
        after_pushes(s, xs) == s + xs,
        after_pushes(Seq::<T>::empty(), xs) == xs,
    decreases xs.len(),
{
    if xs.len() > 0 {
        lemma_pushes_append(s, xs.drop_last());
        assert(s + xs.drop_last() + seq![xs.last()] =~= s + xs);
        assert(s + xs.drop_last() == (s + xs.drop_last()).push(xs.last()).drop_last());
    }
    lemma_empty_pushes(xs);
}

proof fn lemma_empty_pushes<T>(xs: Seq<T>)
    ensures
        after_pushes(Seq::<T>::empty(), xs) == xs,
    decreases xs.len(),
{
    if xs.len() > 0 {
        lemma_empty_pushes(xs.drop_last());
        assert(xs.drop_last().push(xs.last()) =~= xs);
    }
}

/// Pops return the pushed values last first: popping everything from a
/// container built by pushing `xs` onto an empty one yields `xs` reversed,
/// and a pop on an empty container yields nothing.
pub proof fn lemma_pops_reverse_pushes<T>(xs: Seq<T>)
    ensures
        popped_values(after_pushes(Seq::<T>::empty(), xs)) == xs.reverse(),
        popped_values(Seq::<T>::empty()) == Seq::<T>::empty(),
    decreases xs.len(),
{
    lemma_empty_pushes(xs);
    lemma_popped_is_reverse(xs);
}

proof fn lemma_popped_is_reverse<T>(s: Seq<T>)
    ensures
        popped_values(s) == s.reverse(),
    decreases s.len(),
{
    if s.len() > 0 {
        lemma_popped_is_reverse(s.drop_last());
        assert(seq![s.last()] + s.drop_last().reverse() =~= s.reverse());
    } else {
        assert(s.reverse() =~= Seq::<T>::empty());
    }
}

/// The first `n` pushes onto a container with inline size `n` keep it
/// inline; the next one spills it.
pub proof fn lemma_spill_after_inline_size(n: nat, k: nat)
    ensures
        k <= n ==> cap_after_pushes(n, k) == n,
        cap_after_pushes(n, n + 1) > n,
    decreases k,
{
    if k > 0 {
        lemma_spill_after_inline_size(n, (k - 1) as nat);
    }
    lemma_inline_through(n, n);
}

proof fn lemma_inline_through(n: nat, k: nat)
    requires
        k <= n,
    ensures
        cap_after_pushes(n, k) == n,
    decreases k,
{
    if k > 0 {
        lemma_inline_through(n, (k - 1) as nat);
    }
}

/// Whatever the inline size, after `k` pushes from empty there is room for
/// all `k` elements.
pub proof fn lemma_cap_covers_pushes(n: nat, k: nat)
    ensures
        k <= cap_after_pushes(n, k),
        n <= cap_after_pushes(n, k),
    decreases k,
{
    if k > 0 {
        lemma_cap_covers_pushes(n, (k - 1) as nat);
    }
}

} // verus!
