use linked_stack::second::List;

#[test]
fn pushes_then_pops_come_back_reversed() {
    let items = vec![4, 8, 15, 16, 23, 42];
    let mut list = List::new();
    list.push(99);
    for x in items.iter() {
        list.push(*x);
    }
    let mut out = Vec::new();
    for _ in 0..items.len() {
        out.push(list.pop().unwrap());
    }
    assert_eq!(out, vec![42, 23, 16, 15, 8, 4]);
    assert_eq!(list.pop(), Some(99));
    assert_eq!(list.pop(), None);
}

#[test]
fn pop_on_fresh_stack_is_absent() {
    let mut list: List<String> = List::new();
    assert_eq!(list.pop(), None);
    assert_eq!(list.peek(), None);
}

#[test]
fn pop_after_drain_stays_absent() {
    let mut list = List::new();
    list.push('a');
    list.push('b');
    assert_eq!(list.pop(), Some('b'));
    assert_eq!(list.pop(), Some('a'));
    assert_eq!(list.pop(), None);
    assert_eq!(list.pop(), None);
    assert_eq!(list.peek(), None);
}

#[test]
fn peek_tracks_latest_unpopped_push() {
    let mut list = List::new();
    assert_eq!(list.peek_mut(), None);
    list.push(1);
    assert_eq!(list.peek(), Some(&1));
    list.push(2);
    assert_eq!(list.peek(), Some(&2));
    assert_eq!(list.peek_mut(), Some(&mut 2));
    assert_eq!(list.pop(), Some(2));
    assert_eq!(list.peek(), Some(&1));
    assert_eq!(list.peek_mut(), Some(&mut 1));
}

#[test]
fn write_through_peek_mut_is_popped() {
    let mut list = List::new();
    list.push(1);
    list.push(2);
    list.push(3);
    if let Some(top) = list.peek_mut() {
        *top = 42;
    }
    assert_eq!(list.pop(), Some(42));
    assert_eq!(list.pop(), Some(2));
    assert_eq!(list.pop(), Some(1));
    assert_eq!(list.pop(), None);
}

#[test]
fn consuming_traversal_then_finishes() {
    let mut list = List::new();
    list.push(1);
    list.push(2);
    list.push(3);
    let mut iter = list.into_iter();
    assert_eq!(iter.next(), Some(3));
    assert_eq!(iter.next(), Some(2));
    assert_eq!(iter.next(), Some(1));
    assert_eq!(iter.next(), None);
    assert_eq!(iter.next(), None);
}

#[test]
fn shared_traversal_leaves_stack_alone() {
    let mut list = List::new();
    list.push(1);
    list.push(2);
    list.push(3);
    {
        let mut iter = list.iter();
        assert_eq!(iter.next(), Some(&3));
        assert_eq!(iter.next(), Some(&2));
        assert_eq!(iter.next(), Some(&1));
        assert_eq!(iter.next(), None);
    }
    assert_eq!(list.pop(), Some(3));
    assert_eq!(list.pop(), Some(2));
}

#[test]
fn exclusive_traversal_writes_persist() {
    let mut list = List::new();
    list.push(1);
    list.push(2);
    list.push(3);
    {
        let mut iter = list.iter_mut();
        let mut expected = 3;
        while let Some(x) = iter.next() {
            assert_eq!(*x, expected);
            *x *= 10;
            expected -= 1;
        }
        assert_eq!(expected, 0);
    }
    assert_eq!(list.pop(), Some(30));
    assert_eq!(list.pop(), Some(20));
    assert_eq!(list.pop(), Some(10));
    assert_eq!(list.pop(), None);
}

#[test]
fn long_chain_teardown() {
    let mut list = List::new();
    for i in 0..100_000u64 {
        list.push(i);
    }
    assert_eq!(list.peek(), Some(&99_999));
    drop(list);
}

#[test]
fn long_chain_teardown_after_partial_traversal() {
    let mut list = List::new();
    for i in 0..100_000u32 {
        list.push(i);
    }
    let mut iter = list.into_iter();
    assert_eq!(iter.next(), Some(99_999));
    drop(iter);
}

#[test]
fn exclusive_traversal_changes_only_written_positions() {
    let mut list = List::new();
    list.push(1);
    list.push(2);
    list.push(3);
    {
        let mut iter = list.iter_mut();
        if let Some(x) = iter.next() {
            *x = 7;
        }
        assert_eq!(iter.next(), Some(&mut 2));
        if let Some(x) = iter.next() {
            *x = 9;
        }
        assert_eq!(iter.next(), None);
    }
    assert_eq!(list.pop(), Some(7));
    assert_eq!(list.pop(), Some(2));
    assert_eq!(list.pop(), Some(9));
    assert_eq!(list.pop(), None);
}

#[test]
fn unused_exclusive_traversal_leaves_stack_alone() {
    let mut list = List::new();
    list.push(5);
    list.push(6);
    let _iter = list.iter_mut();
    assert_eq!(list.pop(), Some(6));
    assert_eq!(list.pop(), Some(5));
}
