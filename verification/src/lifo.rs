//! Pushing and popping on the abstract stack: a `Seq<i32>` whose last element
//! is the top.

use vstd::prelude::*;

verus! {

/// The value that a pop hands out from a stack holding `s`: the top, or
/// nothing when the stack is empty.
pub open spec fn next_out(s: Seq<i32>) -> Option<i32> {
    if s.len() == 0 {
        None
    } else {
        Some(s.last())
    }
}

/// What a pop leaves of a stack holding `s`: everything below the top. An
/// empty stack stays as it is.
pub open spec fn after_pop(s: Seq<i32>) -> Seq<i32> {
    if s.len() == 0 {
        s
    } else {
        s.drop_last()
    }
}

/// The stack after the values of `vs` were pushed onto `s` one by one, `vs[0]`
/// first.
pub open spec fn after_pushes(s: Seq<i32>, vs: Seq<i32>) -> Seq<i32>
    decreases vs.len(),
{
    if vs.len() == 0 {
        s
    } else {
        after_pushes(s.push(vs.first()), vs.drop_first())
    }
}

/// The stack after `n` pops in a row from `s`.
pub open spec fn after_pops(s: Seq<i32>, n: nat) -> Seq<i32>
    decreases n,
{
    if n == 0 {
        s
    } else {
        after_pops(after_pop(s), (n - 1) as nat)
    }
}

/// What `n` pops in a row from `s` hand out, in the order in which they come.
pub open spec fn outputs(s: Seq<i32>, n: nat) -> Seq<Option<i32>>
    decreases n,
{
    if n == 0 {
        Seq::empty()
    } else {
        seq![next_out(s)] + outputs(after_pop(s), (n - 1) as nat)
    }
}

/// Pushing one value after another is appending them in that order.
pub proof fn lemma_pushes_append(s: Seq<i32>, vs: Seq<i32>)
    ensures
        after_pushes(s, vs) == s + vs,
    decreases vs.len(),
{
    if vs.len() == 0 {
        assert(s + vs =~= s);
    } else {
        lemma_pushes_append(s.push(vs.first()), vs.drop_first());
        assert(s.push(vs.first()) + vs.drop_first() =~= s + vs);
    }
}

/// Popping as many times as there are values above `s` hands those values out
/// from the top down and leaves `s`.
pub proof fn lemma_pops_of_append(s: Seq<i32>, vs: Seq<i32>)
    ensures
        outputs(s + vs, vs.len()) == Seq::new(vs.len(), |i: int| Some(vs[vs.len() - 1 - i])),
        after_pops(s + vs, vs.len()) == s,
    decreases vs.len(),
{
    let n = vs.len();
    let expected = Seq::new(n, |i: int| Some(vs[n - 1 - i]));
    if n == 0 {
        assert(s + vs =~= s);
        assert(outputs(s + vs, n) =~= expected);
    } else {
        let below = vs.drop_last();
        lemma_pops_of_append(s, below);
        assert(after_pop(s + vs) =~= s + below);
        assert(next_out(s + vs) == Some(vs[n - 1]));
        assert(outputs(s + vs, n) =~= expected);
    }
}

/// Last in, first out: after the values `vs` were pushed in order onto any
/// stack, the same number of pops hands them out in reverse order, each one
/// present, and leaves the stack as it was before the pushes.
pub proof fn lemma_lifo(s: Seq<i32>, vs: Seq<i32>)
    ensures
        outputs(after_pushes(s, vs), vs.len()) == Seq::new(
            vs.len(),
            |i: int| Some(vs[vs.len() - 1 - i]),
        ),
        after_pops(after_pushes(s, vs), vs.len()) == s,
{
    lemma_pushes_append(s, vs);
    lemma_pops_of_append(s, vs);
}

/// A pop right after a push hands out the pushed value and leaves the stack
/// as it was before the push.
pub proof fn lemma_push_then_pop(s: Seq<i32>, v: i32)
    ensures
        next_out(s.push(v)) == Some(v),
        after_pop(s.push(v)) == s,
{
    assert(s.push(v).drop_last() =~= s);
}

/// A pop from the empty stack hands out nothing and leaves it empty.
pub proof fn lemma_pop_empty()
    ensures
        next_out(Seq::<i32>::empty()) == None::<i32>,
        after_pop(Seq::<i32>::empty()) == Seq::<i32>::empty(),
{
}

/// Popping at least as often as the stack has values drains it.
pub proof fn lemma_pops_drain(s: Seq<i32>, n: nat)
    requires
        n >= s.len(),
    ensures
        after_pops(s, n) == Seq::<i32>::empty(),
    decreases n,
{
    if n == 0 {
        assert(s =~= Seq::<i32>::empty());
    } else {
        lemma_pops_drain(after_pop(s), (n - 1) as nat);
    }
}

/// A drained stack behaves like a new one: a further pop hands out nothing
/// and changes nothing, and a value pushed afterwards is the next one out,
/// after which the stack is empty again.
pub proof fn lemma_drained_is_fresh(s: Seq<i32>, v: i32)
    ensures
        ({
            let drained = after_pops(s, s.len());
            &&& drained == Seq::<i32>::empty()
            &&& next_out(drained) == None::<i32>
            &&& after_pop(drained) == drained
            &&& next_out(drained.push(v)) == Some(v)
            &&& after_pop(drained.push(v)) == drained
        }),
{
    lemma_pops_drain(s, s.len());
    lemma_push_then_pop(Seq::<i32>::empty(), v);
}

} // verus!
