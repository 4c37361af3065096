//! The linked stack and its operations.

use crate::lifo::{after_pop, next_out};
use vstd::prelude::*;

verus! {

/// The edge from one node to the next: either the end of the chain, or
/// ownership of one more node.
#[derive(Debug)]
enum Link {
    Empty,
    More(Box<Node>),
}

/// One element of the chain. It owns everything below it.
#[derive(Debug)]
struct Node {
    elem: i32,
    next: Link,
}

/// A stack of `i32` values. The head of the chain is the top of the stack;
/// every node has exactly one owner, so the chain has no cycle and ends in
/// the empty marker.
#[derive(Debug)]
pub struct List {
    head: Link,
}

impl Link {
    /// The values reachable through this link, the deepest one first and the
    /// one next to the link last.
    spec fn values(self) -> Seq<i32>
        decreases self,
    {
        match self {
            Link::Empty => Seq::empty(),
            Link::More(node) => node.next.values().push(node.elem),
        }
    }
}

impl View for List {
    type V = Seq<i32>;

    /// The stored values from the bottom of the stack to the top.
    closed spec fn view(&self) -> Seq<i32> {
        self.head.values()
    }
}

impl List {
    /// An empty stack.
    pub fn new() -> (list: List)
        ensures
            list@ == Seq::<i32>::empty(),
    {
        List { head: Link::Empty }
    }

    /// Puts `elem` on top of the stack.
    pub fn push(&mut self, elem: i32)
        ensures
            final(self)@ == old(self)@.push(elem),
    {
        let mut next = Link::Empty;
        core::mem::swap(&mut self.head, &mut next);
        self.head = Link::More(Box::new(Node { elem, next }));
    }

    /// Takes the top value off the stack and returns it. An empty stack gives
    /// `None` and stays empty.
    pub fn pop(&mut self) -> (popped: Option<i32>)
        ensures
            popped == next_out(old(self)@),
            final(self)@ == after_pop(old(self)@),
    {
        let mut head = Link::Empty;
        core::mem::swap(&mut self.head, &mut head);
        match head {
            Link::More(node) => {
                let node = *node;
                self.head = node.next;
                Some(node.elem)
            },
            Link::Empty => None,
        }
    }
}

impl Drop for List {
    /// Releases the chain one node at a time, in a loop. Each node is cut off
    /// from the nodes below it before it is released, so that releasing it
    /// never descends into the rest of the chain, however long that is.
    fn drop(&mut self)
        ensures
            final(self)@ == Seq::<i32>::empty(),
        opens_invariants none
        no_unwind
    {
        let ghost owned = self@.len();
        let ghost mut released: nat = 0;
        let mut cur = Link::Empty;
        core::mem::swap(&mut self.head, &mut cur);
        loop
            invariant
                self.head == Link::Empty,
                released + cur.values().len() == owned,
            ensures
                released == owned,
            decreases cur.values().len(),
        {
            match cur {
                Link::More(mut node) => {
                    let mut below = Link::Empty;
                    core::mem::swap(&mut node.next, &mut below);
                    // The node that goes out of scope here owns nothing more.
                    assert(node.next == Link::Empty);
                    cur = below;
                    proof {
                        released = released + 1;
                    }
                },
                Link::Empty => {
                    break;
                },
            }
        }
    }
}

} // verus!
