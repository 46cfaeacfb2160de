use mpsc_channel::mut_single_linked_list::{LinkedList, LinkedListBadLayout};

#[test]
fn empty_list_peeks_and_pops_nothing() {
    let mut l = LinkedList::<i32>::new();
    assert_eq!(l.peek(), None);
    assert_eq!(l.pop_front(), None);
}

#[test]
fn append_and_pop_like_a_stack() {
    let mut l = LinkedList::new();
    l.append(1);
    l.append(2);
    l.append(3);
    assert_eq!(l.peek(), Some(&3));
    assert_eq!(l.pop_front(), Some(3));
    assert_eq!(l.pop_front(), Some(2));
    l.append(4);
    assert_eq!(l.pop_front(), Some(4));
    assert_eq!(l.pop_front(), Some(1));
    assert_eq!(l.pop_front(), None);
}

#[test]
fn iter_walks_from_head() {
    let mut l = LinkedList::new();
    l.append(1);
    l.append(2);
    let mut it = l.iter();
    assert_eq!(it.next(), Some(&2));
    assert_eq!(it.next(), Some(&1));
    assert_eq!(it.next(), None);
    assert_eq!(l.peek(), Some(&2));
}

#[test]
fn iter_mut_changes_values_in_place() {
    let mut l = LinkedList::new();
    l.append(1);
    l.append(2);
    {
        let mut it = l.iter_mut();
        while let Some(v) = it.next() {
            *v *= 10;
        }
    }
    assert_eq!(l.pop_front(), Some(20));
    assert_eq!(l.pop_front(), Some(10));
}

#[test]
fn into_iter_hands_out_values() {
    let mut l = LinkedList::new();
    l.append(String::from("a"));
    l.append(String::from("b"));
    let mut it = l.into_iter();
    assert_eq!(it.next(), Some(String::from("b")));
    assert_eq!(it.next(), Some(String::from("a")));
    assert_eq!(it.next(), None);
}

#[test]
fn bad_layout_builds() {
    let l = LinkedListBadLayout::Cons(1, Box::new(LinkedListBadLayout::Cons(2, Box::new(LinkedListBadLayout::Nil))));
    match l {
        LinkedListBadLayout::Cons(v, _) => assert_eq!(v, 1),
        LinkedListBadLayout::Nil => panic!("expected a node"),
    }
}

#[test]
fn iterators_over_empty_list_end_at_once() {
    let mut l = LinkedList::<u8>::new();
    assert_eq!(l.iter().next(), None);
    assert_eq!(l.iter_mut().next(), None);
    assert_eq!(l.into_iter().next(), None);
}
