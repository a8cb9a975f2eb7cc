//! Sequences of operations, run on the two stacks and on a plain
//! first-in, first-out sequence.
use vstd::prelude::*;
use crate::model::{fifo_front, fifo_pop, Stacks};

verus! {

/// One operation on a queue.
pub enum Op<T> {
    /// Put the value at the back.
    Insert(T),
    /// Take the value at the front, if there is one.
    Pop,
}

/// The script that inserts `values` one after the other.
pub open spec fn inserts<T>(values: Seq<T>) -> Seq<Op<T>> {
    Seq::new(values.len(), |i: int| Op::Insert(values[i]))
}

/// The script of `n` pops.
pub open spec fn pops<T>(n: nat) -> Seq<Op<T>> {
    Seq::new(n, |i: int| Op::Pop)
}

/// The number of inserts in a script.
pub open spec fn inserted<T>(ops: Seq<Op<T>>) -> nat {
    ops.filter(|op: Op<T>| op is Insert).len()
}

/// The number of replies that hold a value.
pub open spec fn served<T>(replies: Seq<Option<T>>) -> nat {
    replies.filter(|reply: Option<T>| reply is Some).len()
}

/// A plain first-in, first-out sequence after one operation.
pub open spec fn fifo_step<T>(s: Seq<T>, op: Op<T>) -> Seq<T> {
    match op {
        Op::Insert(value) => s.push(value),
        Op::Pop => fifo_pop(s),
    }
}

/// A plain first-in, first-out sequence after a script.
pub open spec fn fifo_run<T>(s: Seq<T>, ops: Seq<Op<T>>) -> Seq<T>
    decreases ops.len(),
{
    if ops.len() == 0 {
        s
    } else {
        fifo_step(fifo_run(s, ops.drop_last()), ops.last())
    }
}

/// What the pops of a script return, in order, when it is run on a plain
/// first-in, first-out sequence.
pub open spec fn fifo_replies<T>(s: Seq<T>, ops: Seq<Op<T>>) -> Seq<Option<T>>
    decreases ops.len(),
{
    if ops.len() == 0 {
        Seq::empty()
    } else {
        let earlier = fifo_replies(s, ops.drop_last());
        match ops.last() {
            Op::Insert(_) => earlier,
            Op::Pop => earlier.push(fifo_front(fifo_run(s, ops.drop_last()))),
        }
    }
}

impl<T> Stacks<T> {
    /// The stacks after one operation.
    pub open spec fn step(self, op: Op<T>) -> Self {
        match op {
            Op::Insert(value) => self.insert(value),
            Op::Pop => self.pop(),
        }
    }

    /// The stacks after a script.
    pub open spec fn run(self, ops: Seq<Op<T>>) -> Self
        decreases ops.len(),
    {
        if ops.len() == 0 {
            self
        } else {
            self.run(ops.drop_last()).step(ops.last())
        }
    }

    /// What the pops of a script return, in order, when it is run on the
    /// stacks.
    pub open spec fn replies(self, ops: Seq<Op<T>>) -> Seq<Option<T>>
        decreases ops.len(),
    {
        if ops.len() == 0 {
            Seq::empty()
        } else {
            let earlier = self.replies(ops.drop_last());
            match ops.last() {
                Op::Insert(_) => earlier,
                Op::Pop => earlier.push(self.run(ops.drop_last()).front()),
            }
        }
    }

    /// The number of values that change stacks during a script: at each pop
    /// that finds the outbound stack empty, all those of the inbound stack.
    pub open spec fn moved(self, ops: Seq<Op<T>>) -> nat
        decreases ops.len(),
    {
        if ops.len() == 0 {
            0
        } else {
            let before = self.run(ops.drop_last());
            let earlier = self.moved(ops.drop_last());
            match ops.last() {
                Op::Insert(_) => earlier,
                Op::Pop => if before.outs.len() == 0 {
                    earlier + before.ins.len()
                } else {
                    earlier
                },
            }
        }
    }
}

/// Running one script after another: the second starts where the first
/// ended, and its replies follow those of the first.
pub proof fn lemma_fifo_run_concat<T>(s: Seq<T>, first: Seq<Op<T>>, second: Seq<Op<T>>)
    ensures
        fifo_run(s, first + second) == fifo_run(fifo_run(s, first), second),
        fifo_replies(s, first + second) == fifo_replies(s, first) + fifo_replies(
            fifo_run(s, first),
            second,
        ),
    decreases second.len(),
{
    if second.len() > 0 {
        lemma_fifo_run_concat(s, first, second.drop_last());
        assert((first + second).drop_last() == first + second.drop_last());
    }
}

/// Inserts alone put their values behind those held, in order, and return
/// nothing.
pub proof fn lemma_fifo_inserts<T>(s: Seq<T>, values: Seq<T>)
    ensures
        fifo_run(s, inserts(values)) == s + values,
        fifo_replies(s, inserts(values)).len() == 0,
    decreases values.len(),
{
    if values.len() > 0 {
        lemma_fifo_inserts(s, values.drop_last());
        assert(inserts(values).drop_last() == inserts(values.drop_last()));
    }
}

/// Pops alone, no more of them than there are values, return the values
/// from the front, in order, and leave the rest.
pub proof fn lemma_fifo_pops<T>(s: Seq<T>, n: nat)
    requires
        n <= s.len(),
    ensures
        fifo_run(s, pops(n)) == s.skip(n as int),
        fifo_replies(s, pops(n)).len() == n,
        forall|i: int| 0 <= i < n ==> fifo_replies(s, pops(n))[i] == Some(s[i]),
    decreases n,
{
    if n > 0 {
        lemma_fifo_pops(s, (n - 1) as nat);
        assert(pops::<T>(n).drop_last() == pops::<T>((n - 1) as nat));
    }
}

} // verus!
