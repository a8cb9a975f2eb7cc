//! The queue and its operations.
use vstd::prelude::*;
use crate::model::{fifo_front, fifo_pop, Stacks};

verus! {

/// A first-in, first-out queue of `T`, kept in two stacks.
pub struct Queue<T> {
    in_stack: Vec<T>,
    out_stack: Vec<T>,
}

impl<T> View for Queue<T> {
    type V = Seq<T>;

    /// The values in the queue, oldest first.
    open spec fn view(&self) -> Seq<T> {
        self.stacks().contents()
    }
}

impl<T> Queue<T> {
    /// The two stacks as sequences.
    pub closed spec fn stacks(&self) -> Stacks<T> {
        Stacks { ins: self.in_stack@, outs: self.out_stack@ }
    }

    /// The total number of values fits in a `usize`, so that `len` is exact.
    #[verifier::type_invariant]
    spec fn countable(&self) -> bool {
        self.in_stack@.len() + self.out_stack@.len() <= usize::MAX
    }
}

impl<T> Queue<T> {
    /// An empty queue.
    pub fn new() -> (q: Self)
        ensures
            q.stacks() == Stacks::<T>::empty(),
            q@ == Seq::<T>::empty(),
    {
        Queue { in_stack: Vec::default(), out_stack: Vec::default() }
    }

    /// The number of values in the queue.
    pub fn len(&self) -> (n: usize)
        ensures
            n == self.stacks().len(),
            n == self@.len(),
    {
        proof {
            use_type_invariant(self);
        }
        self.in_stack.len() + self.out_stack.len()
    }

    /// Puts `value` at the back of the queue, on top of the inbound stack.
    ///
    /// The queue must hold fewer than `usize::MAX` values, so that its
    /// length stays a `usize`.
    pub fn insert(&mut self, value: T)
        requires
            old(self)@.len() < usize::MAX,
        ensures
            final(self).stacks() == old(self).stacks().insert(value),
            final(self)@ == old(self)@.push(value),
    {
        proof {
            use_type_invariant(&*self);
        }
        // A stack leaves the queue while it changes, so that the queue is
        // whole wherever a panic could unwind through it.
        let mut ins: Vec<T> = Vec::default();
        std::mem::swap(&mut ins, &mut self.in_stack);
        ins.push(value);
        self.in_stack = ins;
    }

    /// Takes the value at the front of the queue, the oldest one, if there
    /// is any. An empty queue gives `None` and stays as it is.
    ///
    /// The value comes from the top of the outbound stack. Where that stack
    /// is empty, the inbound stack is first turned over onto it.
    pub fn pop(&mut self) -> (front: Option<T>)
        ensures
            front == old(self).stacks().front(),
            final(self).stacks() == old(self).stacks().pop(),
            front == fifo_front(old(self)@),
            final(self)@ == fifo_pop(old(self)@),
    {
        proof {
            use_type_invariant(&*self);
        }
        let mut outs: Vec<T> = Vec::default();
        std::mem::swap(&mut outs, &mut self.out_stack);
        if outs.is_empty() {
            let mut ins: Vec<T> = Vec::default();
            std::mem::swap(&mut ins, &mut self.in_stack);
            outs = turned_over(ins);
        }
        let front = outs.pop();
        self.out_stack = outs;
        front
    }
}

/// Empties `stack` from its top into a new stack, which so holds the same
/// values in reverse order.
fn turned_over<T>(stack: Vec<T>) -> (turned: Vec<T>)
    ensures
        turned@ == stack@.reverse(),
{
    let ghost whole = stack@;
    let mut rest = stack;
    let mut turned: Vec<T> = Vec::default();
    loop
        invariant
            rest@.len() + turned@.len() == whole.len(),
            rest@ == whole.take(rest@.len() as int),
            turned@ == whole.skip(rest@.len() as int).reverse(),
        ensures
            rest@.len() == 0,
        decreases rest@.len(),
    {
        match rest.pop() {
            Some(top) => {
                turned.push(top);
            },
            None => {
                break;
            },
        }
    }
    turned
}

} // verus!
