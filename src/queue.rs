use vstd::prelude::*;
use vstd::rwlock::{RwLock, RwLockPredicate};

use crate::buffer::{front_of, push_outcome, within_bound, BoundedBuffer};
use crate::error::QueueError;

verus! {

/// What the lock keeps true of the buffer it guards: the bound given at
/// construction, and no more items than that bound allows.
pub struct BoundKept {
    pub max_size: Option<usize>,
}

impl<T> RwLockPredicate<BoundedBuffer<T>> for BoundKept {
    open spec fn inv(self, b: BoundedBuffer<T>) -> bool {
        b.max_size() == self.max_size && b.wf()
    }
}

/// A FIFO queue that any number of threads may share. Every operation holds
/// the one exclusive lock while it reads or changes the buffer, so the check
/// of the bound and the insertion happen as one step.
///
/// Other threads may act between two calls, so each contract states what
/// holds of the buffer as it stood while the call held the lock: some
/// contents that respect the bound.
pub struct TaskQueue<T> {
    queue: RwLock<BoundedBuffer<T>, BoundKept>,
    max_size: Option<usize>,
}

impl<T> TaskQueue<T> {
    #[verifier::type_invariant]
    spec fn lock_keeps_bound(self) -> bool {
        self.queue.pred() == (BoundKept { max_size: self.max_size })
    }

    /// The bound given at construction; `None` means unbounded.
    pub closed spec fn max_size(&self) -> Option<usize> {
        self.max_size
    }

    /// An empty queue bounded by `size`, or unbounded where `size` is `None`.
    pub fn new(size: Option<usize>) -> (q: Self)
        ensures
            q.max_size() == size,
    {
        let buffer = BoundedBuffer::new(size);
        let queue = RwLock::new(buffer, Ghost(BoundKept { max_size: size }));
        TaskQueue { queue, max_size: size }
    }

    /// Appends `task` at the back, or returns `Full` without change when the
    /// queue already holds as many items as its bound.
    pub fn push(&self, task: T) -> (r: Result<(), QueueError>)
        ensures
            exists|len: nat|
                #[trigger] within_bound(len, self.max_size()) && r == push_outcome(
                    len,
                    self.max_size(),
                ),
            self.max_size() is None ==> r == Ok::<(), QueueError>(()),
            self.max_size() == Some(0usize) ==> r == Err::<(), QueueError>(QueueError::Full),
    {
        proof {
            use_type_invariant(self);
        }
        let (mut buffer, handle) = self.queue.acquire_write();
        let ghost len = buffer@.len();
        let r = buffer.push(task);
        handle.release_write(buffer);
        assert(within_bound(len, self.max_size()));
        r
    }

    /// Removes and returns the front item, or `None` when the queue is
    /// empty; never waits for an item to arrive.
    pub fn pop(&self) -> (r: Result<Option<T>, QueueError>)
        ensures
            exists|s: Seq<T>|
                #[trigger] within_bound(s.len(), self.max_size()) && r == Ok::<
                    Option<T>,
                    QueueError,
                >(front_of(s)),
            self.max_size() == Some(0usize) ==> r == Ok::<Option<T>, QueueError>(None),
    {
        proof {
            use_type_invariant(self);
        }
        let (mut buffer, handle) = self.queue.acquire_write();
        let ghost s = buffer@;
        let item = buffer.pop();
        handle.release_write(buffer);
        assert(within_bound(s.len(), self.max_size()));
        Ok(item)
    }

    /// The number of items held.
    pub fn len(&self) -> (r: Result<usize, QueueError>)
        ensures
            r is Ok,
            within_bound(r->Ok_0 as nat, self.max_size()),
            self.max_size() == Some(0usize) ==> r == Ok::<usize, QueueError>(0),
    {
        proof {
            use_type_invariant(self);
        }
        let (buffer, handle) = self.queue.acquire_write();
        let n = buffer.len();
        handle.release_write(buffer);
        Ok(n)
    }

    /// Applies `f` to the front item, or to `None` when the queue is empty,
    /// while the lock is held, and returns what `f` returns. The queue is
    /// only read, and no reference into it outlives the call.
    pub fn peek<F, R>(&self, f: F) -> (r: Result<R, QueueError>)
        where
            F: FnOnce(Option<&T>) -> R,
        requires
            forall|front: Option<&T>| #[trigger] f.requires((front,)),
        ensures
            r is Ok,
            exists|s: Seq<T>|
                #[trigger] within_bound(s.len(), self.max_size()) && f.ensures(
                    (if s.len() > 0 {
                        Some(&s[0])
                    } else {
                        None
                    },),
                    r->Ok_0,
                ),
            self.max_size() == Some(0usize) ==> f.ensures((None,), r->Ok_0),
    {
        proof {
            use_type_invariant(self);
        }
        let (buffer, handle) = self.queue.acquire_write();
        let ghost s = buffer@;
        let v = buffer.peek(f);
        handle.release_write(buffer);
        assert(within_bound(s.len(), self.max_size()));
        Ok(v)
    }

    /// Whether no item is held.
    pub fn is_empty(&self) -> (r: Result<bool, QueueError>)
        ensures
            exists|len: nat|
                #[trigger] within_bound(len, self.max_size()) && r == Ok::<bool, QueueError>(
                    len == 0,
                ),
            self.max_size() == Some(0usize) ==> r == Ok::<bool, QueueError>(true),
    {
        proof {
            use_type_invariant(self);
        }
        let (buffer, handle) = self.queue.acquire_write();
        let ghost len = buffer@.len();
        let empty = buffer.is_empty();
        handle.release_write(buffer);
        assert(within_bound(len, self.max_size()));
        Ok(empty)
    }

    /// Removes every item.
    pub fn clear(&self) -> (r: Result<(), QueueError>)
        ensures
            r == Ok::<(), QueueError>(()),
    {
        proof {
            use_type_invariant(self);
        }
        let (mut buffer, handle) = self.queue.acquire_write();
        buffer.clear();
        handle.release_write(buffer);
        Ok(())
    }
}

} // verus!
