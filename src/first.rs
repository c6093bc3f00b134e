use vstd::prelude::*;

verus! {

/// A stack of `i32` values, stored as a chain of boxed nodes.
pub struct List {
    head: Link,
}

enum Link {
    Empty,
    More(Box<Node>),
}

struct Node {
    elem: i32,
    next: Link,
}

impl Link {
    /// The values along the chain, first node first.
    closed spec fn values(self) -> Seq<i32>
        decreases self,
    {
        match self {
            Link::Empty => Seq::empty(),
            Link::More(node) => seq![node.elem] + node.next.values(),
        }
    }
}

/// Hands back the chain held in `link`, leaving it empty.
fn take_link(link: &mut Link) -> (r: Link)
    ensures
        r == *old(link),
        *final(link) == Link::Empty,
{
    let mut taken = Link::Empty;
    core::mem::swap(link, &mut taken);
    taken
}

impl View for List {
    type V = Seq<i32>;

    /// The stored values, most recently pushed first.
    closed spec fn view(&self) -> Seq<i32> {
        self.head.values()
    }
}

impl List {
    /// An empty stack.
    pub fn new() -> (l: Self)
        ensures
            l@ == Seq::<i32>::empty(),
    {
        List { head: Link::Empty }
    }

    /// Puts `elem` on top of the stack.
    pub fn push(&mut self, elem: i32)
        ensures
            final(self)@ == seq![elem] + old(self)@,
    {
        let new_node: Box<Node> = Box::new(Node { elem, next: take_link(&mut self.head) });
        self.head = Link::More(new_node);
    }

    /// Removes the top value and returns it; `None`, with the stack unchanged,
    /// when it is empty.
    pub fn pop(&mut self) -> (r: Option<i32>)
        ensures
            old(self)@.len() == 0 ==> r is None && final(self)@ == old(self)@,
            old(self)@.len() > 0 ==> r == Some(old(self)@[0]) && final(self)@ == old(self)@.drop_first(),
    {
        match take_link(&mut self.head) {
            Link::Empty => None,
            Link::More(node) => {
                let node = *node;
                self.head = node.next;
                Some(node.elem)
            },
        }
    }
}

impl Drop for List {
    /// Releases the chain one node at a time: each node's tail is detached
    /// before the node goes, so dropping a long stack never recurses through it.
    fn drop(&mut self)
        ensures
            final(self)@ == Seq::<i32>::empty(),
        opens_invariants none
        no_unwind
    {
        // The chain is detached from the head first; the loop then swaps each
        // node's tail out before the node is freed at the end of its step.
        let mut current = Link::Empty;
        core::mem::swap(&mut self.head, &mut current);
        loop
            decreases current.values().len(),
        {
            match current {
                Link::Empty => break,
                Link::More(mut node) => {
                    let mut rest = Link::Empty;
                    core::mem::swap(&mut node.next, &mut rest);
                    current = rest;
                },
            }
        }
    }
}

} // verus!
