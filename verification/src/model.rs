//! The mathematical model of the queue: its two stacks as sequences.
use vstd::prelude::*;

verus! {

/// The two stacks of a queue. The top of each stack is the last element of
/// its sequence.
pub struct Stacks<T> {
    /// Inserted values that have not changed stacks yet, oldest first.
    pub ins: Seq<T>,
    /// Values ready to leave: the oldest one is on top.
    pub outs: Seq<T>,
}

impl<T> Stacks<T> {
    /// Both stacks empty.
    pub open spec fn empty() -> Self {
        Stacks { ins: Seq::empty(), outs: Seq::empty() }
    }

    /// The number of values held.
    pub open spec fn len(self) -> nat {
        self.ins.len() + self.outs.len()
    }

    /// The values held, oldest first: the outbound stack read from its top
    /// down, then the inbound stack read from its bottom up.
    pub open spec fn contents(self) -> Seq<T> {
        self.outs.reverse() + self.ins
    }

    /// The stacks after `value` is inserted: it goes on top of the inbound
    /// stack.
    pub open spec fn insert(self, value: T) -> Self {
        Stacks { ins: self.ins.push(value), outs: self.outs }
    }

    /// The stacks made ready for a pop. Where the outbound stack is empty,
    /// the whole inbound stack is turned over onto it; otherwise nothing
    /// moves.
    pub open spec fn refill(self) -> Self {
        if self.outs.len() == 0 {
            Stacks { ins: Seq::empty(), outs: self.ins.reverse() }
        } else {
            self
        }
    }

    /// What a pop returns: the top of the refilled outbound stack, if any.
    pub open spec fn front(self) -> Option<T> {
        let ready = self.refill();
        if ready.outs.len() == 0 {
            None
        } else {
            Some(ready.outs.last())
        }
    }

    /// The stacks after a pop: refilled, and without the top of the outbound
    /// stack.
    pub open spec fn pop(self) -> Self {
        let ready = self.refill();
        if ready.outs.len() == 0 {
            ready
        } else {
            Stacks { ins: ready.ins, outs: ready.outs.drop_last() }
        }
    }
}

/// What a pop returns from a plain first-in, first-out sequence, oldest value
/// first: its first value, if it has one.
pub open spec fn fifo_front<T>(s: Seq<T>) -> Option<T> {
    if s.len() == 0 {
        None
    } else {
        Some(s.first())
    }
}

/// A plain first-in, first-out sequence after a pop: without its first value.
/// An empty one stays empty.
pub open spec fn fifo_pop<T>(s: Seq<T>) -> Seq<T> {
    if s.len() == 0 {
        s
    } else {
        s.drop_first()
    }
}

/// Inserting puts the value behind all the values held.
pub proof fn lemma_insert_at_back<T>(st: Stacks<T>, value: T)
    ensures
        st.insert(value).contents() == st.contents().push(value),
        st.insert(value).len() == st.len() + 1,
{
}

/// A pop takes the oldest value held, and nothing from empty stacks.
pub proof fn lemma_pop_at_front<T>(st: Stacks<T>)
    ensures
        st.contents().len() == st.len(),
        st.front() == fifo_front(st.contents()),
        st.pop().contents() == fifo_pop(st.contents()),
        st.pop().len() == if st.len() == 0 { 0 } else { st.len() - 1 },
{
}

} // verus!
