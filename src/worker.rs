use std::sync::Arc;
use vstd::prelude::*;

use crate::queue::TaskQueue;

verus! {

/// A consumer of a shared queue that will hand each item it takes to its
/// handler `H`. Starting and stopping it is not designed yet.
pub struct Worker<T, H> {
    queue: Arc<TaskQueue<T>>,
    handler: H,
}

impl<T: Send + 'static, H: Fn(T) + Send + 'static> Worker<T, H> {
    /// The queue this worker takes items from.
    pub closed spec fn queue(&self) -> Arc<TaskQueue<T>> {
        self.queue
    }

    /// The handler that items are handed to.
    pub closed spec fn handler(&self) -> H {
        self.handler
    }

    /// A worker that takes items from `queue` and hands them to `handler`.
    pub fn new(queue: Arc<TaskQueue<T>>, handler: H) -> (w: Self)
        ensures
            w.queue() == queue,
            w.handler() == handler,
    {
        Worker { queue, handler }
    }
}

} // verus!
