use std::sync::Arc;

use task_queue::error::QueueError;
use task_queue::queue::TaskQueue;
use task_queue::worker::Worker;

#[test]
fn bounded_push_rejects_third_item() {
    let q: TaskQueue<i32> = TaskQueue::new(Some(2));
    assert_eq!(q.push(1), Ok(()));
    assert_eq!(q.push(2), Ok(()));
    assert_eq!(q.push(3), Err(QueueError::Full));
    assert_eq!(q.len(), Ok(2));
}

#[test]
fn pop_on_empty_returns_none() {
    let q: TaskQueue<i32> = TaskQueue::new(None);
    assert_eq!(q.pop(), Ok(None));
}

#[test]
fn pop_follows_push_order() {
    let q: TaskQueue<i32> = TaskQueue::new(None);
    assert_eq!(q.push(1), Ok(()));
    assert_eq!(q.push(2), Ok(()));
    assert_eq!(q.pop(), Ok(Some(1)));
    assert_eq!(q.pop(), Ok(Some(2)));
    assert_eq!(q.pop(), Ok(None));
}

#[test]
fn clear_empties_the_queue() {
    let q: TaskQueue<i32> = TaskQueue::new(None);
    assert_eq!(q.push(1), Ok(()));
    assert_eq!(q.clear(), Ok(()));
    assert_eq!(q.len(), Ok(0));
    assert_eq!(q.is_empty(), Ok(true));
}

#[test]
fn peek_keeps_front_and_length() {
    let q: TaskQueue<i32> = TaskQueue::new(None);
    assert_eq!(q.peek(|front| front.copied()), Ok(None));
    assert_eq!(q.push(7), Ok(()));
    assert_eq!(q.push(8), Ok(()));
    assert_eq!(q.peek(|front| front.map(|x| x * 10)), Ok(Some(70)));
    assert_eq!(q.len(), Ok(2));
    assert_eq!(q.is_empty(), Ok(false));
    assert_eq!(q.pop(), Ok(Some(7)));
}

#[test]
fn bound_of_zero_rejects_every_push() {
    let q: TaskQueue<i32> = TaskQueue::new(Some(0));
    assert_eq!(q.push(1), Err(QueueError::Full));
    assert_eq!(q.len(), Ok(0));
    assert_eq!(q.pop(), Ok(None));
}

#[test]
fn full_queue_accepts_again_after_pop() {
    let q: TaskQueue<i32> = TaskQueue::new(Some(1));
    assert_eq!(q.push(1), Ok(()));
    assert_eq!(q.push(2), Err(QueueError::Full));
    assert_eq!(q.pop(), Ok(Some(1)));
    assert_eq!(q.push(3), Ok(()));
    assert_eq!(q.pop(), Ok(Some(3)));
}

#[test]
fn unbounded_queue_grows_past_default_reservation() {
    let q: TaskQueue<u32> = TaskQueue::new(None);
    for i in 0..100u32 {
        assert_eq!(q.push(i), Ok(()));
    }
    assert_eq!(q.len(), Ok(100));
    for i in 0..100u32 {
        assert_eq!(q.pop(), Ok(Some(i)));
    }
}

#[test]
fn huge_bound_does_not_reserve_it_all() {
    let q: TaskQueue<u8> = TaskQueue::new(Some(usize::MAX));
    assert_eq!(q.push(1), Ok(()));
    assert_eq!(q.len(), Ok(1));
}

#[test]
fn producers_and_consumers_lose_nothing() {
    let q: Arc<TaskQueue<u32>> = Arc::new(TaskQueue::new(None));
    let producers: Vec<Arc<TaskQueue<u32>>> = (0..4).map(|_| Arc::clone(&q)).collect();
    let consumers: Vec<Arc<TaskQueue<u32>>> = (0..4).map(|_| Arc::clone(&q)).collect();
    let mut collected: Vec<u32> = Vec::new();
    let mut round: u32 = 0;
    while collected.len() < 100 {
        if round < 25 {
            for (p, handle) in producers.iter().enumerate() {
                assert_eq!(handle.push(p as u32 * 25 + round), Ok(()));
            }
        }
        for (c, handle) in consumers.iter().enumerate() {
            if (round as usize + c) % 3 != 0 {
                if let Ok(Some(x)) = handle.pop() {
                    collected.push(x);
                }
            }
        }
        round += 1;
    }
    collected.sort();
    let expected: Vec<u32> = (0..100u32).collect();
    assert_eq!(collected, expected);
    assert_eq!(q.len(), Ok(0));
}

#[test]
fn worker_keeps_its_queue() {
    let q: Arc<TaskQueue<i32>> = Arc::new(TaskQueue::new(None));
    let w = Worker::new(Arc::clone(&q), |_x: i32| {});
    assert_eq!(q.push(5), Ok(()));
    drop(w);
    assert_eq!(Arc::strong_count(&q), 1);
    assert_eq!(q.pop(), Ok(Some(5)));
}
