//! A bounded first-in-first-out queue: a thin adapter over the hybrid
//! container that appends at the logical back and pops from the logical
//! front (index 0). It adds no invariants of its own; its capacity is the
//! hybrid container's, twenty elements inline and forty after promotion.

use crate::smallvec::ContainerError;
use crate::smallvec::SmallVec;
use vstd::prelude::*;

verus! {

/// The queue: element order in the underlying container is queue order,
/// front first.
pub struct Fifo<E: Copy> {
    fifo: SmallVec<E, 20>,
}

impl<E: Copy> View for Fifo<E> {
    type V = Seq<E>;

    closed spec fn view(&self) -> Seq<E> {
        self.fifo@
    }
}

impl<E: Copy> Fifo<E> {
    /// Well-formedness of the underlying hybrid container.
    pub closed spec fn wf(&self) -> bool {
        self.fifo.wf()
    }

    /// An empty queue.
    pub fn new() -> (r: Self)
        ensures
            r.wf(),
            r@ == Seq::<E>::empty(),
    {
        Fifo { fifo: SmallVec::new() }
    }

    /// Remove and return the front element. Fails with `EmptyQueue`, and
    /// leaves the queue unchanged, exactly when the queue is empty.
    pub fn pop(&mut self) -> (r: Result<E, ContainerError>)
        requires
            old(self).wf(),
        ensures
            final(self).wf(),
            old(self)@.len() == 0 ==> r == Err::<E, ContainerError>(ContainerError::EmptyQueue)
                && *final(self) == *old(self),
            old(self)@.len() > 0 ==> r == Ok::<E, ContainerError>(old(self)@[0])
                && final(self)@ == old(self)@.drop_first(),
    {
        if self.fifo.is_empty() {
            return Err(ContainerError::EmptyQueue);
        }
        let front = self.fifo.remove(0);
        proof {
            assert(self@ =~= old(self)@.drop_first());
        }
        Ok(front)
    }

    /// Append `e` at the back. Fails with `CapacityExceeded`, and leaves
    /// the queue unchanged, exactly when the queue already holds forty
    /// elements, the capacity its container fixes at promotion.
    pub fn push(&mut self, e: E) -> (r: Result<(), ContainerError>)
        requires
            old(self).wf(),
        ensures
            final(self).wf(),
            old(self)@.len() < 40 ==> r is Ok && final(self)@ == old(self)@.push(e),
            old(self)@.len() >= 40 ==> r == Err::<(), ContainerError>(
                ContainerError::CapacityExceeded,
            ) && *final(self) == *old(self),
    {
        self.fifo.push(e)
    }

    /// True exactly when the queue holds no elements.
    pub fn is_empty(&self) -> (r: bool)
        ensures
            r == (self@.len() == 0),
    {
        self.fifo.is_empty()
    }
}

} // verus!
