use vstd::prelude::*;

verus! {

/// The closed set of failures that queue operations report.
#[derive(Debug, Clone, Copy, PartialEq, Eq, Structural)]
pub enum QueueError {
    /// The bounded queue is at capacity; the item was not inserted.
    Full,
    /// A time-bounded operation did not complete in time.
    Timeout,
    /// The queue has been placed into a terminal state.
    Shutdown,
    /// All counterpart endpoints are gone.
    Disconnected,
    /// The lock guarding the queue could not be acquired.
    Lock,
}

/// The fixed human-readable message of each error kind.
pub open spec fn message_of(e: QueueError) -> Seq<char> {
    match e {
        QueueError::Full => "Queue is full!"@,
        QueueError::Timeout => "Queue timed out!"@,
        QueueError::Shutdown => "Task has been shut down!"@,
        QueueError::Disconnected => "Queue has been disconnected!"@,
        QueueError::Lock => "Cannot lock thread!"@,
    }
}

impl QueueError {
    /// The fixed human-readable message of this error.
    pub fn message(&self) -> (r: &'static str)
        ensures
            r@ == message_of(*self),
    {
        match self {
            QueueError::Full => "Queue is full!",
            QueueError::Timeout => "Queue timed out!",
            QueueError::Shutdown => "Task has been shut down!",
            QueueError::Disconnected => "Queue has been disconnected!",
            QueueError::Lock => "Cannot lock thread!",
        }
    }
}

} // verus!
