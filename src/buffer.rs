use std::collections::VecDeque;
use vstd::prelude::*;

use crate::error::QueueError;

verus! {

/// Storage reserved up front when no bound is given; a sizing hint only.
pub const DEFAULT_CAPACITY: usize = 5;

/// The largest reservation made up front for a bounded buffer; storage grows
/// past it on demand.
pub const MAX_RESERVE: usize = 4096;

/// Whether a buffer holding `len` items may take one more under `bound`.
pub open spec fn has_room(len: nat, bound: Option<usize>) -> bool {
    match bound {
        None => true,
        Some(b) => len < b,
    }
}

/// Whether `len` items respect `bound`.
pub open spec fn within_bound(len: nat, bound: Option<usize>) -> bool {
    match bound {
        None => true,
        Some(b) => len <= b,
    }
}

/// The item at the front of `s`, if any.
pub open spec fn front_of<T>(s: Seq<T>) -> Option<T> {
    if s.len() > 0 {
        Some(s[0])
    } else {
        None
    }
}

/// The contents after a push of `x` onto `s` under `bound`.
pub open spec fn after_push<T>(s: Seq<T>, bound: Option<usize>, x: T) -> Seq<T> {
    if has_room(s.len(), bound) {
        s.push(x)
    } else {
        s
    }
}

/// What a push of one item onto `len` items under `bound` returns.
pub open spec fn push_outcome(len: nat, bound: Option<usize>) -> Result<(), QueueError> {
    if has_room(len, bound) {
        Ok(())
    } else {
        Err(QueueError::Full)
    }
}

/// The contents after a pop from `s`.
pub open spec fn after_pop<T>(s: Seq<T>) -> Seq<T> {
    if s.len() > 0 {
        s.drop_first()
    } else {
        s
    }
}

/// A FIFO buffer with an optional bound on the number of items it holds.
pub struct BoundedBuffer<T> {
    items: VecDeque<T>,
    max_size: Option<usize>,
}

impl<T> View for BoundedBuffer<T> {
    type V = Seq<T>;

    /// The items, front first.
    closed spec fn view(&self) -> Seq<T> {
        self.items@
    }
}

impl<T> BoundedBuffer<T> {
    /// The bound given at construction; `None` means unbounded.
    pub closed spec fn max_size(&self) -> Option<usize> {
        self.max_size
    }

    /// The buffer holds no more items than its bound.
    pub open spec fn wf(&self) -> bool {
        within_bound(self@.len(), self.max_size())
    }

    /// An empty buffer bounded by `size`, or unbounded where `size` is `None`.
    pub fn new(size: Option<usize>) -> (b: Self)
        ensures
            b@ == Seq::<T>::empty(),
            b.max_size() == size,
            b.wf(),
    {
        let reserve = match size {
            Some(n) => if n <= MAX_RESERVE {
                n
            } else {
                MAX_RESERVE
            },
            None => DEFAULT_CAPACITY,
        };
        BoundedBuffer { items: VecDeque::with_capacity(reserve), max_size: size }
    }
    /// Appends `task` at the back, unless the bound is reached, in which case
    /// the buffer is left as it was and `Full` is returned.
    pub fn push(&mut self, task: T) -> (r: Result<(), QueueError>)
        ensures
            final(self)@ == after_push(old(self)@, old(self).max_size(), task),
            final(self).max_size() == old(self).max_size(),
            r == push_outcome(old(self)@.len(), old(self).max_size()),
            old(self).wf() ==> final(self).wf(),
    {
        if let Some(max_size) = self.max_size {
            if self.items.len() >= max_size {
                return Err(QueueError::Full);
            }
        }
        self.items.push_back(task);
        Ok(())
    }

    /// Removes and returns the front item, or `None` when the buffer is empty.
    pub fn pop(&mut self) -> (r: Option<T>)
        ensures
            r == front_of(old(self)@),
            final(self)@ == after_pop(old(self)@),
            final(self).max_size() == old(self).max_size(),
            old(self).wf() ==> final(self).wf(),
    {
        self.items.pop_front()
    }

    /// The number of items held.
    pub fn len(&self) -> (r: usize)
        ensures
            r == self@.len(),
    {
        self.items.len()
    }

    /// Whether no item is held.
    pub fn is_empty(&self) -> (r: bool)
        ensures
            r == (self@.len() == 0),
    {
        self.items.len() == 0
    }

    /// Applies `f` to the front item, or to `None` when the buffer is empty,
    /// and returns what `f` returns; the buffer is only read.
    pub fn peek<F, R>(&self, f: F) -> (r: R)
        where
            F: FnOnce(Option<&T>) -> R,
        requires
            f.requires((if self@.len() > 0 { Some(&self@[0]) } else { None },)),
        ensures
            f.ensures((if self@.len() > 0 { Some(&self@[0]) } else { None },), r),
    {
        if self.items.len() > 0 {
            f(Some(&self.items[0]))
        } else {
            f(None)
        }
    }

    /// Removes every item; the bound is kept.
    pub fn clear(&mut self)
        ensures
            final(self)@ == Seq::<T>::empty(),
            final(self).max_size() == old(self).max_size(),
            final(self).wf(),
    {
        self.items.clear();
    }
}

} // verus!
