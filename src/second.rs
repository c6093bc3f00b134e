use vstd::prelude::*;

verus! {

/// A stack of `T` values, stored as a chain of boxed nodes.
pub struct List<T> {
    head: Option<Box<Node<T>>>,
}

/// One link of the chain: a value and the rest of the chain after it. Its
/// fields are private; traversals hand out references into it.
pub struct Node<T> {
    elem: T,
    next: Option<Box<Node<T>>>,
}

/// The values along a chain, first node first.
closed spec fn chain<T>(link: Option<Box<Node<T>>>) -> Seq<T>
    decreases link,
{
    match link {
        None => Seq::empty(),
        Some(node) => seq![node.elem] + chain(node.next),
    }
}

impl<T> Node<T> {
    /// The values along the chain that starts at this node.
    pub closed spec fn values(self) -> Seq<T> {
        seq![self.elem] + chain(self.next)
    }
}

impl<T> View for List<T> {
    type V = Seq<T>;

    /// The stored values, most recently pushed first.
    closed spec fn view(&self) -> Seq<T> {
        chain(self.head)
    }
}

impl<T> List<T> {
    /// An empty stack.
    pub fn new() -> (l: Self)
        ensures
            l@ == Seq::<T>::empty(),
    {
        List { head: None }
    }

    /// Puts `elem` on top of the stack.
    pub fn push(&mut self, elem: T)
        ensures
            final(self)@ == seq![elem] + old(self)@,
    {
        let new_node = Box::new(Node { elem, next: self.head.take() });
        self.head = Some(new_node);
    }

    /// Removes the top value and returns it; `None`, with the stack unchanged,
    /// when it is empty.
    pub fn pop(&mut self) -> (r: Option<T>)
        ensures
            old(self)@.len() == 0 ==> r is None && final(self)@ == old(self)@,
            old(self)@.len() > 0 ==> r == Some(old(self)@[0]) && final(self)@ == old(self)@.drop_first(),
    {
        match self.head.take() {
            None => None,
            Some(node) => {
                let node = *node;
                self.head = node.next;
                Some(node.elem)
            },
        }
    }

    /// The top value, left in place; `None` when the stack is empty.
    pub fn peek(&self) -> (r: Option<&T>)
        ensures
            self@.len() == 0 ==> r is None,
            self@.len() > 0 ==> r == Some(&self@[0]),
    {
        match &self.head {
            None => None,
            Some(node) => Some(&node.elem),
        }
    }

    /// Exclusive access to the top value, left in place; `None` when the
    /// stack is empty. What is written through the reference stays on top.
    pub fn peek_mut(&mut self) -> (r: Option<&mut T>)
        ensures
            old(self)@.len() == 0 ==> r is None && final(self)@ == old(self)@,
            old(self)@.len() > 0 ==> r is Some && *r.unwrap() == old(self)@[0]
                && final(self)@ == old(self)@.update(0, *final(r.unwrap())),
    {
        match &mut self.head {
            None => None,
            Some(node) => Some(&mut node.elem),
        }
    }

    /// A read-only traversal of the stored values, top first.
    pub fn iter(&self) -> (it: Iter<'_, T>)
        ensures
            it@ == self@,
    {
        match &self.head {
            None => Iter { next: None },
            Some(node) => Iter { next: Some(&**node) },
        }
    }

    /// A traversal with exclusive access to each stored value in turn, top
    /// first. What is written through it stays in the stack: once the
    /// traversal is done, the stack holds the values it leaves behind.
    pub fn iter_mut(&mut self) -> (it: IterMut<'_, T>)
        ensures
            it@ == old(self)@,
            (it.cursor() is None) == (old(self)@.len() == 0),
            it.cursor() is None ==> final(self)@ == old(self)@,
            it.cursor() is Some ==> final(self)@ == final(it.cursor().unwrap()).values(),
    {
        match &mut self.head {
            None => IterMut { next: None },
            Some(node) => IterMut { next: Some(&mut **node) },
        }
    }

    /// A traversal that takes the stack and hands out its values, top first.
    pub fn into_iter(self) -> (it: IntoIter<T>)
        ensures
            it@ == self@,
    {
        IntoIter(self)
    }
}

impl<T> Drop for List<T> {
    /// Releases the chain one node at a time: each node's tail is detached
    /// before the node goes, so dropping a long stack never recurses through it.
    fn drop(&mut self)
        ensures
            final(self)@ == Seq::<T>::empty(),
        opens_invariants none
        no_unwind
    {
        // The chain is detached from the head first; the loop then swaps each
        // node's tail out before the node is freed at the end of its step.
        let mut current = None;
        core::mem::swap(&mut self.head, &mut current);
        loop
            decreases chain(current).len(),
        {
            match current {
                None => break,
                Some(mut node) => {
                    let mut rest = None;
                    core::mem::swap(&mut node.next, &mut rest);
                    current = rest;
                },
            }
        }
    }
}

/// Consuming traversal: owns the stack and pops it one value per step.
pub struct IntoIter<T>(List<T>);

impl<T> View for IntoIter<T> {
    type V = Seq<T>;

    /// The values not yet handed out, next one first.
    closed spec fn view(&self) -> Seq<T> {
        self.0@
    }
}

impl<T> IntoIter<T> {
    /// The next value, taken off the stack; `None` once it is drained, which
    /// it then stays.
    pub fn next(&mut self) -> (r: Option<T>)
        ensures
            old(self)@.len() == 0 ==> r is None && final(self)@ == old(self)@,
            old(self)@.len() > 0 ==> r == Some(old(self)@[0]) && final(self)@ == old(self)@.drop_first(),
    {
        self.0.pop()
    }
}

/// Read-only traversal: a reference to the next node to visit.
pub struct Iter<'a, T> {
    next: Option<&'a Node<T>>,
}

impl<'a, T> View for Iter<'a, T> {
    type V = Seq<T>;

    /// The values not yet handed out, next one first.
    closed spec fn view(&self) -> Seq<T> {
        match self.next {
            None => Seq::empty(),
            Some(node) => node.values(),
        }
    }
}

impl<'a, T> Iter<'a, T> {
    /// A reference to the next value; `None` once all are visited, which it
    /// then stays.
    pub fn next(&mut self) -> (r: Option<&'a T>)
        ensures
            old(self)@.len() == 0 ==> r is None && final(self)@ == old(self)@,
            old(self)@.len() > 0 ==> r == Some(&old(self)@[0]) && final(self)@ == old(self)@.drop_first(),
    {
        match self.next {
            None => None,
            Some(node) => {
                self.next = match &node.next {
                    None => None,
                    Some(rest) => Some(&**rest),
                };
                Some(&node.elem)
            },
        }
    }
}

/// Exclusive traversal: the only reference to the next node to visit.
pub struct IterMut<'a, T> {
    next: Option<&'a mut Node<T>>,
}

impl<'a, T> View for IterMut<'a, T> {
    type V = Seq<T>;

    /// The values not yet handed out, next one first, as they are now.
    closed spec fn view(&self) -> Seq<T> {
        match self.next {
            None => Seq::empty(),
            Some(node) => node.values(),
        }
    }
}

impl<'a, T> IterMut<'a, T> {
    /// The exclusive reference to the next node to visit, if any is left.
    pub closed spec fn cursor(&self) -> Option<&'a mut Node<T>> {
        self.next
    }

    /// Exclusive access to the next value; `None` once all are visited, which
    /// it then stays. The value written through the reference is the one the
    /// stack keeps in that place.
    pub fn next(&mut self) -> (r: Option<&'a mut T>)
        ensures
            old(self)@.len() == 0 ==> r is None && final(self)@ == old(self)@
                && final(self).cursor() is None,
            old(self)@.len() > 0 ==> r is Some && *r.unwrap() == old(self)@[0]
                && final(self)@ == old(self)@.drop_first()
                && (final(self).cursor() is None) == (old(self)@.len() == 1)
                && final(old(self).cursor().unwrap()).values() == seq![*final(r.unwrap())] + (
                    match final(self).cursor() {
                        None => Seq::empty(),
                        Some(rest) => final(rest).values(),
                    }
                ),
    {
        match self.next.take() {
            None => None,
            Some(node) => {
                let Node { elem, next } = node;
                self.next = match next {
                    None => None,
                    Some(rest) => Some(&mut **rest),
                };
                Some(elem)
            },
        }
    }
}

impl<'a, T> IterMut<'a, T> {
    /// The cursor is the first of the nodes still to visit: there is one
    /// exactly when values are left, and the chain it starts holds them.
    pub proof fn lemma_cursor_view(&self)
        ensures
            (self.cursor() is None) == (self@.len() == 0),
            self.cursor() is Some ==> (*self.cursor().unwrap()).values() == self@,
    {
    }

    /// A traversal that is done with (nothing more is written through it)
    /// leaves the values it still holds as they are now.
    pub proof fn lemma_resolved_keeps_values(self)
        requires
            has_resolved(self),
        ensures
            self.cursor() is Some ==> final(self.cursor().unwrap()).values() == self@,
    {
    }
}

} // verus!
