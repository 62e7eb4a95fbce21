use vstd::prelude::*;
use vstd::seq_lib::lemma_multiset_commutative;

use crate::buffer::{after_pop, after_push, front_of, has_room, push_outcome};
use crate::error::QueueError;

verus! {

/// One operation in a single thread's history on a buffer.
pub enum Step<T> {
    Push(T),
    Pop,
}

/// A history that pushes each item of `xs` in turn.
pub open spec fn pushes<T>(xs: Seq<T>) -> Seq<Step<T>> {
    Seq::new(xs.len(), |i: int| Step::Push(xs[i]))
}

/// Running `steps` on a buffer holding `s` under `bound`, as the buffer's
/// `push` and `pop` specify each step: the contents left, the items popped
/// in order, and the items that pushes accepted in order.
pub open spec fn run<T>(s: Seq<T>, bound: Option<usize>, steps: Seq<Step<T>>) -> (Seq<T>, Seq<T>, Seq<T>)
    decreases steps.len(),
{
    if steps.len() == 0 {
        (s, Seq::empty(), Seq::empty())
    } else {
        let (rest, out, acc) = run(s, bound, steps.drop_last());
        match steps.last() {
            Step::Push(x) => {
                if has_room(rest.len(), bound) {
                    (after_push(rest, bound, x), out, acc.push(x))
                } else {
                    (after_push(rest, bound, x), out, acc)
                }
            },
            Step::Pop => match front_of(rest) {
                Some(x) => (after_pop(rest), out.push(x), acc),
                None => (after_pop(rest), out, acc),
            },
        }
    }
}

/// The items that `steps` pushes, in order.
pub open spec fn pushed<T>(steps: Seq<Step<T>>) -> Seq<T>
    decreases steps.len(),
{
    if steps.len() == 0 {
        Seq::empty()
    } else {
        match steps.last() {
            Step::Push(x) => pushed(steps.drop_last()).push(x),
            Step::Pop => pushed(steps.drop_last()),
        }
    }
}

/// First in, first out: over any history of pushes and pops, the items
/// popped, followed by those still held, are the items held at the start
/// followed by every push that was accepted, in the order pushed.
pub proof fn lemma_fifo_order<T>(s: Seq<T>, bound: Option<usize>, steps: Seq<Step<T>>)
    ensures
        run(s, bound, steps).1 + run(s, bound, steps).0 == s + run(s, bound, steps).2,
    decreases steps.len(),
{
    if steps.len() > 0 {
        let prefix = steps.drop_last();
        lemma_fifo_order(s, bound, prefix);
        let (rest, out, acc) = run(s, bound, prefix);
        match steps.last() {
            Step::Push(x) => {
                if has_room(rest.len(), bound) {
                    assert(out + rest.push(x) =~= (s + acc).push(x));
                    assert(s + acc.push(x) =~= (s + acc).push(x));
                }
            },
            Step::Pop => {
                if rest.len() > 0 {
                    assert(out.push(rest[0]) + rest.drop_first() =~= out + rest);
                }
            },
        }
    }
}

/// On an unbounded buffer every push is accepted, so the items popped,
/// followed by those still held, are the items held at the start followed
/// by every item pushed, in order.
pub proof fn lemma_unbounded_fifo_order<T>(s: Seq<T>, steps: Seq<Step<T>>)
    ensures
        run(s, None, steps).1 + run(s, None, steps).0 == s + pushed(steps),
{
    lemma_unbounded_accepts_all(s, steps);
    lemma_fifo_order(s, None, steps);
}

/// On an unbounded buffer every push of a history is accepted.
pub proof fn lemma_unbounded_accepts_all<T>(s: Seq<T>, steps: Seq<Step<T>>)
    ensures
        run(s, None, steps).2 == pushed(steps),
    decreases steps.len(),
{
    if steps.len() > 0 {
        lemma_unbounded_accepts_all(s, steps.drop_last());
    }
}

/// Nothing is lost or duplicated: on an unbounded buffer, the items popped
/// and those still held make up, as a multiset, exactly the items held at
/// the start and every item pushed. The lock serialises the operations of
/// all threads on a shared queue into one such history.
pub proof fn lemma_no_loss_no_duplicate<T>(s: Seq<T>, steps: Seq<Step<T>>)
    ensures
        run(s, None, steps).1.to_multiset().add(run(s, None, steps).0.to_multiset())
            == s.to_multiset().add(pushed(steps).to_multiset()),
{
    lemma_unbounded_fifo_order(s, steps);
    lemma_multiset_commutative(run(s, None, steps).1, run(s, None, steps).0);
    lemma_multiset_commutative(s, pushed(steps));
}

/// A buffer bounded by `n` accepts `n` pushes from empty, then holds exactly
/// the items pushed; the next push returns `Full` and leaves it as it was.
pub proof fn lemma_full_after_bound<T>(xs: Seq<T>, n: usize, x: T)
    requires
        xs.len() == n,
    ensures
        run(Seq::empty(), Some(n), pushes(xs)).0 == xs,
        run(Seq::empty(), Some(n), pushes(xs)).2 == xs,
        push_outcome(xs.len(), Some(n)) == Err::<(), QueueError>(QueueError::Full),
        after_push(xs, Some(n), x) == xs,
{
    lemma_pushes_fill(xs, n, n as nat);
    assert(xs.take(n as int) =~= xs);
}

proof fn lemma_pushes_fill<T>(xs: Seq<T>, n: usize, k: nat)
    requires
        xs.len() == n,
        k <= n,
    ensures
        run(Seq::empty(), Some(n), pushes(xs.take(k as int))).0 == xs.take(k as int),
        run(Seq::empty(), Some(n), pushes(xs.take(k as int))).2 == xs.take(k as int),
    decreases k,
{
    if k > 0 {
        lemma_pushes_fill(xs, n, (k - 1) as nat);
        let steps = pushes(xs.take(k as int));
        assert(steps.drop_last() =~= pushes(xs.take(k - 1)));
        assert(xs.take(k - 1).push(xs[k - 1]) =~= xs.take(k as int));
    } else {
        assert(pushes(xs.take(0)) =~= Seq::<Step<T>>::empty());
        assert(xs.take(0) =~= Seq::<T>::empty());
    }
}

} // verus!
