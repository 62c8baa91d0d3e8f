//! A hybrid dynamic array: up to `N` elements are held in the container's
//! inline buffer without a separate allocation; pushing the `(N+1)`-th
//! element promotes the storage to a heap buffer of fixed capacity
//! `heap_capacity(N)`, and removing elements until at most `N` remain
//! demotes the storage back to the inline buffer and releases the heap
//! buffer. Element types must be plain copyable values, because the mode
//! transitions move the contents by bulk copy.

use vstd::prelude::*;

verus! {

/// The recoverable failures of the hybrid container and of the FIFO queue
/// built on top of it. Everything else (index out of range) is a caller
/// contract violation and is excluded by `requires` instead.
#[derive(Clone, Copy, Debug, PartialEq, Eq, Structural)]
pub enum ContainerError {
    /// A push arrived while the heap buffer was full; the container does
    /// not grow past the capacity allocated at promotion.
    CapacityExceeded,
    /// A pop arrived while the queue held no elements.
    EmptyQueue,
}

/// The element capacity of the heap buffer allocated at promotion: twice
/// the inline capacity, with a floor of one element so that a container
/// with no inline room (`n == 0`) can still receive the element whose
/// arrival triggered the promotion.
pub open spec fn heap_capacity(n: nat) -> nat {
    if n == 0 {
        1
    } else {
        2 * n
    }
}

/// The hybrid container. `elems` holds the live elements in insertion
/// order; `is_heap` tells which storage mode is active; `cap` is the
/// element capacity of the active storage (exactly `N` while inline, the
/// size fixed at promotion while on the heap).
pub struct SmallVec<T: Copy, const N: usize> {
    elems: Vec<T>,
    is_heap: bool,
    cap: usize,
}

impl<T: Copy, const N: usize> View for SmallVec<T, N> {
    type V = Seq<T>;

    closed spec fn view(&self) -> Seq<T> {
        self.elems@
    }
}

impl<T: Copy, const N: usize> SmallVec<T, N> {
    /// Which storage mode is active: false for Inline, true for Heap.
    pub closed spec fn spec_is_heap(&self) -> bool {
        self.is_heap
    }

    /// The element capacity of the active storage.
    pub closed spec fn spec_capacity(&self) -> nat {
        self.cap as nat
    }

    /// Well-formedness: the length never exceeds the active capacity; the
    /// capacity is `N` while inline and `heap_capacity(N)` while on the
    /// heap; heap mode only ever holds more than `N` elements (a shorter
    /// container is always demoted back inline). The bound on `N` is what
    /// lets the promotion capacity be computed in a `usize`.
    pub closed spec fn wf(&self) -> bool {
        &&& N <= usize::MAX / 2
        &&& if self.is_heap {
            &&& self.cap == heap_capacity(N as nat)
            &&& self.elems@.len() > N
            &&& self.elems@.len() <= self.cap
        } else {
            &&& self.cap == N
            &&& self.elems@.len() <= N
        }
    }

    /// An empty container in Inline mode with capacity `N`. Performs no
    /// heap allocation.
    pub fn new() -> (r: Self)
        requires
            N <= usize::MAX / 2,
        ensures
            r.wf(),
            r@ == Seq::<T>::empty(),
            !r.spec_is_heap(),
            r.spec_capacity() == N,
    {
        SmallVec { elems: Vec::new(), is_heap: false, cap: N }
    }

    /// An Inline container holding exactly the elements of `arr`, in order.
    pub fn from_array(arr: [T; N]) -> (r: Self)
        requires
            N <= usize::MAX / 2,
        ensures
            r.wf(),
            r@ == arr@,
            !r.spec_is_heap(),
            r.spec_capacity() == N,
    {
        let mut elems: Vec<T> = Vec::new();
        let mut i: usize = 0;
        while i < N
            invariant
                i <= N,
                elems@ =~= arr@.subrange(0, i as int),
            decreases N - i,
        {
            elems.push(arr[i]);
            i = i + 1;
        }
        proof {
            assert(elems@ =~= arr@);
        }
        SmallVec { elems, is_heap: false, cap: N }
    }

    /// Promotion: switch a full inline container to a heap buffer of
    /// capacity `heap_capacity(N)`, carrying the `N` elements over by bulk
    /// copy. The caller (`push`) restores well-formedness by appending the
    /// element whose arrival triggered the promotion.
    fn move_to_heap(&mut self)
        requires
            old(self).wf(),
            !old(self).spec_is_heap(),
            old(self)@.len() == N,
        ensures
            final(self).spec_is_heap(),
            final(self).spec_capacity() == heap_capacity(N as nat),
            final(self)@ == old(self)@,
    {
        let new_cap: usize = if N == 0 {
            1
        } else {
            2 * N
        };
        self.cap = new_cap;
        self.is_heap = true;
    }

    /// Append `value` at the end. A full inline container is first
    /// promoted to the heap; a full heap container rejects the push with
    /// `CapacityExceeded` and is left unchanged.
    pub fn push(&mut self, value: T) -> (r: Result<(), ContainerError>)
        requires
            old(self).wf(),
        ensures
            final(self).wf(),
            old(self)@.len() < heap_capacity(N as nat) ==> r is Ok && final(self)@ == old(
                self,
            )@.push(value),
            old(self)@.len() >= heap_capacity(N as nat) ==> r == Err::<(), ContainerError>(
                ContainerError::CapacityExceeded,
            ) && *final(self) == *old(self),
            !old(self).spec_is_heap() && old(self)@.len() < N ==> !final(self).spec_is_heap()
                && final(self).spec_capacity() == N,
            !old(self).spec_is_heap() && old(self)@.len() == N ==> final(self).spec_is_heap()
                && final(self).spec_capacity() == heap_capacity(N as nat),
            old(self).spec_is_heap() && old(self)@.len() < old(self).spec_capacity()
                ==> final(self).spec_is_heap() && final(self).spec_capacity() == old(self).spec_capacity(),
    {
        if !self.is_heap && self.elems.len() == N {
            self.move_to_heap();
        }
        if self.elems.len() == self.cap {
            return Err(ContainerError::CapacityExceeded);
        }
        self.elems.push(value);
        Ok(())
    }

    /// Remove and return the element at `index`, shifting every later
    /// element one position toward the front. A heap container whose
    /// length thereby falls to at most `N` is demoted: the remaining
    /// elements are copied back inline and the heap buffer is released.
    pub fn remove(&mut self, index: usize) -> (r: T)
        requires
            old(self).wf(),
            index < old(self)@.len(),
        ensures
            final(self).wf(),
            r == old(self)@[index as int],
            final(self)@ == old(self)@.remove(index as int),
            old(self).spec_is_heap() && old(self)@.len() - 1 <= N ==> !final(self).spec_is_heap()
                && final(self).spec_capacity() == N,
            old(self).spec_is_heap() && old(self)@.len() - 1 > N ==> final(self).spec_is_heap()
                && final(self).spec_capacity() == old(self).spec_capacity(),
            !old(self).spec_is_heap() ==> !final(self).spec_is_heap() && final(self).spec_capacity() == N,
    {
        let item = self.elems.remove(index);
        if self.is_heap && self.elems.len() <= N {
            self.is_heap = false;
            self.cap = N;
        }
        item
    }

    /// The element capacity of the active storage: `N` while Inline, the
    /// size allocated at promotion while Heap.
    pub fn capacity(&self) -> (r: usize)
        ensures
            r == self.spec_capacity(),
    {
        self.cap
    }

    /// The number of live elements.
    pub fn len(&self) -> (r: usize)
        ensures
            r == self@.len(),
    {
        self.elems.len()
    }

    /// True exactly when the container holds no elements.
    pub fn is_empty(&self) -> (r: bool)
        ensures
            r == (self@.len() == 0),
    {
        self.elems.len() == 0
    }

    /// True while the separately allocated heap buffer is the active
    /// storage.
    pub fn is_heap_mode(&self) -> (r: bool)
        ensures
            r == self.spec_is_heap(),
    {
        self.is_heap
    }

    /// Bounds-checked indexed read.
    pub fn get(&self, index: usize) -> (r: T)
        requires
            index < self@.len(),
        ensures
            r == self@[index as int],
    {
        self.elems[index]
    }

    /// Bounds-checked indexed write.
    pub fn set(&mut self, index: usize, value: T)
        requires
            old(self).wf(),
            index < old(self)@.len(),
        ensures
            final(self).wf(),
            final(self)@ == old(self)@.update(index as int, value),
            final(self).spec_is_heap() == old(self).spec_is_heap(),
            final(self).spec_capacity() == old(self).spec_capacity(),
    {
        let slot = &mut self.elems[index];
        *slot = value;
    }
}

/// Law: a well-formed container holding at most `N` elements is always in
/// Inline mode with capacity exactly `N`. Since `push` grows the length by
/// one at a time, any sequence of at most `N` pushes into a fresh
/// container leaves it Inline with capacity `N`.
pub proof fn lemma_inline_while_small<T: Copy, const N: usize>(v: &SmallVec<T, N>)
    requires
        v.wf(),
        v@.len() <= N,
    ensures
        !v.spec_is_heap(),
        v.spec_capacity() == N,
{
}

/// Law: for a positive inline capacity, the heap buffer allocated at
/// promotion holds exactly twice the inline element count.
pub proof fn lemma_promotion_doubles(n: nat)
    requires
        n > 0,
    ensures
        heap_capacity(n) == 2 * n,
{
}

/// Law: removal at `i` shortens the sequence by exactly one, keeps every
/// element before `i` at its old index, and moves every element after `i`
/// one index toward the front, values unchanged.
pub proof fn lemma_remove_shifts<T>(s: Seq<T>, i: int)
    requires
        0 <= i < s.len(),
    ensures
        s.remove(i).len() == s.len() - 1,
        forall|j: int| 0 <= j < i ==> s.remove(i)[j] == s[j],
        forall|j: int| i <= j < s.len() - 1 ==> s.remove(i)[j] == s[j + 1],
{
    s.remove_ensures(i);
}

/// Law: a push adds exactly one occurrence of the new value to the
/// multiset of stored values and keeps every other count, so no value is
/// lost or duplicated.
pub proof fn lemma_push_preserves_values<T>(s: Seq<T>, x: T)
    ensures
        s.push(x).to_multiset() == s.to_multiset().insert(x),
{
    s.to_multiset_ensures();
}

/// Law: a removal takes exactly one occurrence of the removed value out of
/// the multiset of stored values and keeps every other count, so no value
/// is lost or duplicated.
pub proof fn lemma_remove_preserves_values<T>(s: Seq<T>, i: int)
    requires
        0 <= i < s.len(),
    ensures
        s.to_multiset() == s.remove(i).to_multiset().insert(s[i]),
{
    s.to_multiset_ensures();
    assert(s.contains(s[i]));
    assert(s.remove(i).to_multiset() =~= s.to_multiset().remove(s[i]));
    assert(s.to_multiset().remove(s[i]).insert(s[i]) =~= s.to_multiset());
}

} // verus!
