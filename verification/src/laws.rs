//! What holds of every run of the queue.
//!
//! By their contracts, a call of `Queue::insert` is one `Stacks::insert` on
//! the stacks of the queue, and a call of `Queue::pop` is one `Stacks::pop`
//! that returns `Stacks::front`. What is proved here of scripts therefore
//! holds of every sequence of calls.
use vstd::prelude::*;
use crate::model::{lemma_insert_at_back, lemma_pop_at_front, Stacks};
use crate::script::{
    fifo_replies, fifo_run, inserted, inserts, lemma_fifo_inserts, lemma_fifo_pops,
    lemma_fifo_run_concat, pops, served, Op,
};

verus! {

/// The two stacks behave as a plain first-in, first-out sequence does: run
/// on the stacks and on the sequence of their contents, a script leaves the
/// same contents and its pops return the same values.
pub proof fn law_same_as_fifo<T>(st: Stacks<T>, ops: Seq<Op<T>>)
    ensures
        st.run(ops).contents() == fifo_run(st.contents(), ops),
        st.replies(ops) == fifo_replies(st.contents(), ops),
    decreases ops.len(),
{
    if ops.len() > 0 {
        law_same_as_fifo(st, ops.drop_last());
        let before = st.run(ops.drop_last());
        match ops.last() {
            Op::Insert(value) => lemma_insert_at_back(before, value),
            Op::Pop => lemma_pop_at_front(before),
        }
    }
}

/// After any script, run from empty, the queue holds as many values as were
/// inserted, less one for each pop that returned a value.
pub proof fn law_length_counts<T>(ops: Seq<Op<T>>)
    ensures
        Stacks::<T>::empty().run(ops).len() == inserted(ops) - served(
            Stacks::<T>::empty().replies(ops),
        ),
    decreases ops.len(),
{
    let start = Stacks::<T>::empty();
    reveal(Seq::filter);
    if ops.len() > 0 {
        law_length_counts(ops.drop_last());
        if ops.last() is Pop {
            let earlier = start.replies(ops.drop_last());
            let reply = start.run(ops.drop_last()).front();
            assert(earlier.push(reply).drop_last() == earlier);
        }
    }
}

/// A value inserted into an empty queue is what the next pop returns, and
/// the queue is empty again after it.
pub proof fn law_insert_then_pop<T>(value: T)
    ensures
        Stacks::<T>::empty().insert(value).front() == Some(value),
        Stacks::<T>::empty().insert(value).pop() == Stacks::<T>::empty(),
{
    assert(Stacks::<T>::empty().insert(value).pop().outs == Seq::<T>::empty());
}

/// Pops and inserts in turn: of three values inserted into an empty queue,
/// two pops return the first two, and after two more inserts the next pop
/// returns the third, the oldest that is left.
pub proof fn law_oldest_left_comes_next<T>(v1: T, v2: T, v3: T, v4: T, v5: T)
    ensures
        ({
            let three = Stacks::<T>::empty().insert(v1).insert(v2).insert(v3);
            let one = three.pop().pop();
            let again = one.insert(v4).insert(v5);
            &&& three.front() == Some(v1)
            &&& three.pop().front() == Some(v2)
            &&& again.front() == Some(v3)
            &&& again.pop().contents() == seq![v4, v5]
        }),
{
}

/// Every value changes stacks at most once: after any script, run from
/// empty, the values that have changed stacks and those still on the inbound
/// stack are together the values inserted. A script of `n` operations so
/// moves no more than `n` values in all, however many a single pop moves.
pub proof fn law_each_value_moves_once<T>(ops: Seq<Op<T>>)
    ensures
        Stacks::<T>::empty().moved(ops) + Stacks::<T>::empty().run(ops).ins.len() == inserted(ops),
        Stacks::<T>::empty().moved(ops) <= ops.len(),
    decreases ops.len(),
{
    reveal(Seq::filter);
    if ops.len() > 0 {
        law_each_value_moves_once(ops.drop_last());
    }
}

/// First in, first out: after the values are inserted into an empty queue,
/// as many pops return them in the order of their insertion, and leave the
/// queue empty.
pub proof fn law_first_in_first_out<T>(values: Seq<T>)
    ensures
        Stacks::<T>::empty().replies(inserts(values) + pops(values.len())).len() == values.len(),
        forall|i: int|
            0 <= i < values.len() ==> Stacks::<T>::empty().replies(
                inserts(values) + pops(values.len()),
            )[i] == Some(values[i]),
        Stacks::<T>::empty().run(inserts(values) + pops(values.len())).len() == 0,
{
    let start = Stacks::<T>::empty();
    let script = inserts(values) + pops(values.len());
    law_same_as_fifo(start, script);
    lemma_fifo_run_concat(start.contents(), inserts(values), pops(values.len()));
    lemma_fifo_inserts(start.contents(), values);
    lemma_fifo_pops(values, values.len());
    lemma_pop_at_front(start.run(script));
}

/// Pops of an empty queue, however many, all return nothing and leave the
/// queue as it was.
pub proof fn law_pop_empty<T>(n: nat)
    ensures
        Stacks::<T>::empty().run(pops(n)) == Stacks::<T>::empty(),
        Stacks::<T>::empty().replies(pops(n)).len() == n,
        forall|i: int| 0 <= i < n ==> Stacks::<T>::empty().replies(pops(n))[i].is_none(),
    decreases n,
{
    if n > 0 {
        law_pop_empty::<T>((n - 1) as nat);
        assert(pops::<T>(n).drop_last() == pops::<T>((n - 1) as nat));
    }
}

} // verus!
