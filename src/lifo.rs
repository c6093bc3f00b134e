//! Last in, first out, stated over the sequence view that both stacks'
//! `push` and `pop` contracts speak of: a push prepends (`seq![x] + s`), a pop
//! on a non-empty stack hands out `s[0]` and leaves `s.drop_first()`.
use vstd::prelude::*;

verus! {

/// The view after pushing `items`, in order, onto a stack whose view is `s`.
pub open spec fn after_pushes<T>(s: Seq<T>, items: Seq<T>) -> Seq<T>
    decreases items.len(),
{
    if items.len() == 0 {
        s
    } else {
        seq![items.last()] + after_pushes(s, items.drop_last())
    }
}

/// The values that `n` pops hand out, in order, from a stack whose view is `s`
/// (a pop on an empty stack hands out nothing).
pub open spec fn popped<T>(s: Seq<T>, n: nat) -> Seq<T>
    decreases n,
{
    if n == 0 || s.len() == 0 {
        Seq::empty()
    } else {
        seq![s[0]] + popped(s.drop_first(), (n - 1) as nat)
    }
}

/// The view after `n` pops from a stack whose view is `s`.
pub open spec fn after_pops<T>(s: Seq<T>, n: nat) -> Seq<T>
    decreases n,
{
    if n == 0 || s.len() == 0 {
        s
    } else {
        after_pops(s.drop_first(), (n - 1) as nat)
    }
}

/// Pushing `items` puts them on top of what was there, last one first.
pub proof fn lemma_after_pushes<T>(s: Seq<T>, items: Seq<T>)
    ensures
        after_pushes(s, items) == items.reverse() + s,
    decreases items.len(),
{
    if items.len() > 0 {
        lemma_after_pushes(s, items.drop_last());
        assert(items.reverse() =~= seq![items.last()] + items.drop_last().reverse());
        assert(after_pushes(s, items) =~= items.reverse() + s);
    } else {
        assert(items.reverse() + s =~= s);
    }
}

/// Popping `top.len()` times from a stack whose view starts with `top` hands
/// out `top`, in order, and leaves the rest.
pub proof fn lemma_pop_prefix<T>(top: Seq<T>, rest: Seq<T>)
    ensures
        popped(top + rest, top.len()) == top,
        after_pops(top + rest, top.len()) == rest,
    decreases top.len(),
{
    if top.len() > 0 {
        assert((top + rest).drop_first() =~= top.drop_first() + rest);
        lemma_pop_prefix(top.drop_first(), rest);
        assert(top =~= seq![top[0]] + top.drop_first());
    } else {
        assert(top + rest =~= rest);
    }
}

/// Last in, first out: pushing `items` onto any stack and then popping as many
/// times hands the items back in exactly the reverse order, and leaves the
/// stack as it was before the pushes.
pub proof fn lemma_lifo<T>(s: Seq<T>, items: Seq<T>)
    ensures
        popped(after_pushes(s, items), items.len()) == items.reverse(),
        after_pops(after_pushes(s, items), items.len()) == s,
{
    lemma_after_pushes(s, items);
    lemma_pop_prefix(items.reverse(), s);
}

/// Draining: popping as many times as a stack holds leaves it empty, and any
/// number of further pops then hands out nothing and leaves it empty.
pub proof fn lemma_drained<T>(s: Seq<T>, k: nat)
    ensures
        after_pops(s, s.len()) == Seq::<T>::empty(),
        popped(after_pops(s, s.len()), k) == Seq::<T>::empty(),
        after_pops(after_pops(s, s.len()), k) == Seq::<T>::empty(),
{
    lemma_pop_prefix(s, Seq::<T>::empty());
    assert(s + Seq::<T>::empty() =~= s);
}

} // verus!
