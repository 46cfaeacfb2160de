//! A singly linked list used as a stack: values go in and come out at the
//! head.
use vstd::prelude::*;

verus! {

/// The list written as a recursive type, with each tail boxed.
pub enum LinkedListBadLayout {
    Nil,
    Cons(i32, Box<LinkedListBadLayout>),
}

/// The link to the next node, if any.
type Link<T> = Option<Box<Node<T>>>;

struct Node<T> {
    data: T,
    next: Link<T>,
}

/// The values reached from `l`, nearest first.
pub closed spec fn link_view<T>(l: Link<T>) -> Seq<T>
    decreases l,
{
    match l {
        None => Seq::empty(),
        Some(node) => seq![node.data] + link_view(node.next),
    }
}

/// A stack of values held in linked nodes.
pub struct LinkedList<T> {
    head: Link<T>,
}

impl<T> View for LinkedList<T> {
    type V = Seq<T>;

    /// The values from the head down.
    closed spec fn view(&self) -> Seq<T> {
        link_view(self.head)
    }
}

impl<T> LinkedList<T> {
    /// An empty list.
    pub fn new() -> (l: Self)
        ensures
            l@ == Seq::<T>::empty(),
    {
        LinkedList { head: None }
    }

    /// The value at the head, if any.
    pub fn peek(&self) -> (r: Option<&T>)
        ensures
            self@.len() == 0 ==> r is None,
            self@.len() > 0 ==> (r matches Some(x) && *x == self@[0]),
    {
        match &self.head {
            None => None,
            Some(node) => Some(&node.data),
        }
    }

    /// Puts `value` at the head.
    pub fn append(&mut self, value: T)
        ensures
            final(self)@ == seq![value] + old(self)@,
    {
        let next = self.head.take();
        self.head = Some(Box::new(Node { data: value, next }));
    }

    /// Takes the value at the head, if any.
    pub fn pop_front(&mut self) -> (r: Option<T>)
        ensures
            old(self)@.len() == 0 ==> r is None && final(self)@ == old(self)@,
            old(self)@.len() > 0 ==> r == Some(old(self)@[0]) && final(self)@
                == old(self)@.drop_first(),
    {
        match self.head.take() {
            None => None,
            Some(node) => {
                let node = *node;
                self.head = node.next;
                Some(node.data)
            },
        }
    }

    /// Walks the values by reference, from the head down.
    pub fn iter(&self) -> (it: LinkedListIter<'_, T>)
        ensures
            it@ == self@,
    {
        LinkedListIter { next_item: &self.head }
    }

    /// Walks the values by mutable reference, from the head down.
    pub fn iter_mut(&mut self) -> (it: LinkedListIterMut<'_, T>)
        ensures
            it@ == old(self)@,
    {
        LinkedListIterMut { next_item: self.head.as_mut() }
    }

    /// Hands the values out by value, from the head down.
    pub fn into_iter(self) -> (it: LinkedListIntoIter<T>)
        ensures
            it@ == self@,
    {
        LinkedListIntoIter { inner: self }
    }
}

/// A walk over a list by reference.
pub struct LinkedListIter<'a, T> {
    next_item: &'a Link<T>,
}

impl<'a, T> View for LinkedListIter<'a, T> {
    type V = Seq<T>;

    /// The values not yet handed out.
    closed spec fn view(&self) -> Seq<T> {
        link_view(*self.next_item)
    }
}

impl<'a, T> LinkedListIter<'a, T> {
    /// The next value, if any.
    pub fn next(&mut self) -> (r: Option<&'a T>)
        ensures
            old(self)@.len() == 0 ==> r is None && final(self)@ == old(self)@,
            old(self)@.len() > 0 ==> (r matches Some(x) && *x == old(self)@[0]),
            old(self)@.len() > 0 ==> final(self)@ == old(self)@.drop_first(),
    {
        match self.next_item {
            None => None,
            Some(node) => {
                self.next_item = &node.next;
                Some(&node.data)
            },
        }
    }
}

/// A walk over a list by mutable reference.
pub struct LinkedListIterMut<'a, T> {
    next_item: Option<&'a mut Box<Node<T>>>,
}

impl<'a, T> View for LinkedListIterMut<'a, T> {
    type V = Seq<T>;

    /// The values not yet handed out.
    closed spec fn view(&self) -> Seq<T> {
        match self.next_item {
            None => Seq::empty(),
            Some(node) => seq![node.data] + link_view(node.next),
        }
    }
}

impl<'a, T> LinkedListIterMut<'a, T> {
    /// The next value, if any.
    pub fn next(&mut self) -> (r: Option<&'a mut T>)
        ensures
            old(self)@.len() == 0 ==> r is None,
            old(self)@.len() > 0 ==> (r matches Some(x) && *x == old(self)@[0]),
            old(self)@.len() > 0 ==> final(self)@ == old(self)@.drop_first(),
    {
        match self.next_item.take() {
            None => None,
            Some(node) => {
                self.next_item = node.next.as_mut();
                Some(&mut node.data)
            },
        }
    }
}

/// A walk over a list that hands its values out by value.
pub struct LinkedListIntoIter<T> {
    inner: LinkedList<T>,
}

impl<T> View for LinkedListIntoIter<T> {
    type V = Seq<T>;

    /// The values not yet handed out.
    closed spec fn view(&self) -> Seq<T> {
        self.inner@
    }
}

impl<T> LinkedListIntoIter<T> {
    /// The next value, if any.
    pub fn next(&mut self) -> (r: Option<T>)
        ensures
            old(self)@.len() == 0 ==> r is None && final(self)@ == old(self)@,
            old(self)@.len() > 0 ==> r == Some(old(self)@[0]) && final(self)@
                == old(self)@.drop_first(),
    {
        self.inner.pop_front()
    }
}

} // verus!
