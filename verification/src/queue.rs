//! A first-in first-out queue: what is pushed is popped in the same order.
use vstd::prelude::*;
use std::collections::VecDeque;

verus! {

/// A first-in first-out queue of values.
pub struct Queue<T> {
    data: VecDeque<T>,
}

/// Values leave a queue in the order they entered it: of two values pushed
/// onto an empty queue, the first is popped first and the second next.
pub proof fn lemma_first_in_first_out<T>(q: Seq<T>, a: T, b: T)
    requires
        q.len() == 0,
    ensures
        q.push(a).push(b)[0] == a,
        q.push(a).push(b).drop_first()[0] == b,
        q.push(a).push(b).drop_first().drop_first().len() == 0,
{
}

/// Pushing onto a queue that holds values does not change which value is
/// popped next.
pub proof fn lemma_push_keeps_front<T>(q: Seq<T>, v: T)
    requires
        q.len() > 0,
    ensures
        q.push(v)[0] == q[0],
        q.push(v).drop_first() == q.drop_first().push(v),
{
    assert(q.push(v).drop_first() =~= q.drop_first().push(v));
}

impl<T> View for Queue<T> {
    type V = Seq<T>;

    /// The queued values, the next one to be popped first.
    closed spec fn view(&self) -> Seq<T> {
        self.data@
    }
}

impl<T> Default for Queue<T> {
    fn default() -> (q: Self)
        ensures
            q@ == Seq::<T>::empty(),
    {
        Queue { data: VecDeque::new() }
    }
}

impl<T> Queue<T> {
    /// Puts a value at the back of the queue.
    pub fn push_front(&mut self, value: T)
        ensures
            final(self)@ == old(self)@.push(value),
    {
        self.data.push_back(value);
    }

    /// Takes the value at the front of the queue.
    pub fn pop_back(&mut self) -> (r: T)
        requires
            old(self)@.len() > 0,
        ensures
            r == old(self)@[0],
            final(self)@ == old(self)@.drop_first(),
    {
        self.data.pop_front().unwrap()
    }

    /// Nothing is queued.
    pub fn is_empty(&self) -> (r: bool)
        ensures
            r == (self@.len() == 0),
    {
        self.data.len() == 0
    }

    /// The number of queued values.
    pub fn len(&self) -> (r: usize)
        ensures
            r == self@.len(),
    {
        self.data.len()
    }
}

} // verus!
