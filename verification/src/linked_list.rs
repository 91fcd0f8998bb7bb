//! A singly linked list that owns its items.
//!
//! The list is modelled by the sequence of its items, first item first: the
//! view of a [`LinkedList`]. Every operation is specified over that sequence.
use vstd::pervasive::cloned;
use vstd::prelude::*;
use vstd::std_specs::cmp::{PartialEqSpec, PartialEqSpecImpl};
use vstd::string::{to_string_from_display_ensures, StringExecFns};

verus! {

/// One cell of the list: an item and the rest of the list behind it.
pub struct Node<T> {
    value: T,
    next: Option<Box<Node<T>>>,
}

/// A singly linked list with its length.
pub struct LinkedList<T> {
    head: Option<Box<Node<T>>>,
    size: usize,
}

/// A list that is being taken apart from the front, item by item.
pub struct LinkedListIntoIter<T> {
    list: LinkedList<T>,
}

impl<T> Node<T> {
    /// The items from this cell on, in order: its own, then those behind it.
    pub closed spec fn items(self) -> Seq<T>
        decreases self,
    {
        seq![self.value] + Node::chain(self.next)
    }

    /// The items of the chain of cells that starts at `link`, in order.
    pub open spec fn chain(link: Option<Box<Node<T>>>) -> Seq<T>
        decreases link,
    {
        match link {
            None => Seq::empty(),
            Some(node) => node.items(),
        }
    }

    /// Makes a cell that holds `value` in front of the chain `next`.
    pub fn new(value: T, next: Option<Box<Node<T>>>) -> (node: Node<T>)
        ensures
            node.items() == seq![value] + Node::chain(next),
    {
        Node { value, next }
    }
}

impl<T> View for LinkedList<T> {
    type V = Seq<T>;

    closed spec fn view(&self) -> Seq<T> {
        Node::chain(self.head)
    }
}

impl<T> LinkedList<T> {
    /// The stored length is the number of items.
    ///
    /// Every list that this module hands out is well formed, and every
    /// operation keeps it so.
    pub closed spec fn well_formed(&self) -> bool {
        self.size == Node::chain(self.head).len()
    }

    /// Makes an empty list.
    pub fn new() -> (list: LinkedList<T>)
        ensures
            list.well_formed(),
            list@ == Seq::<T>::empty(),
    {
        LinkedList { head: None, size: 0 }
    }

    /// Returns the number of items.
    pub fn get_size(&self) -> (size: usize)
        requires
            self.well_formed(),
        ensures
            size == self@.len(),
    {
        self.size
    }

    /// Tells whether the list holds no item.
    pub fn is_empty(&self) -> (empty: bool)
        requires
            self.well_formed(),
        ensures
            empty == (self@.len() == 0),
    {
        self.size == 0
    }

    /// Puts `value` in front of all items.
    ///
    /// The length is kept in a `usize`, so the list must have room for one more.
    pub fn push_front(&mut self, value: T)
        requires
            old(self).well_formed(),
            old(self)@.len() < usize::MAX,
        ensures
            final(self).well_formed(),
            final(self)@ == seq![value] + old(self)@,
    {
        let new_node = Box::new(Node::new(value, self.head.take()));
        self.head = Some(new_node);
        self.size += 1;
    }

    /// Takes the first item off the list and returns it; `None` if the list is
    /// empty, which then stays as it is.
    pub fn pop_front(&mut self) -> (front: Option<T>)
        requires
            old(self).well_formed(),
        ensures
            final(self).well_formed(),
            old(self)@.len() == 0 ==> front is None && final(self)@ == old(self)@,
            old(self)@.len() > 0 ==> front == Some(old(self)@[0]) && final(self)@ == old(self)@.drop_first(),
    {
        match self.head.take() {
            None => None,
            Some(node) => {
                let node = *node;
                assert((seq![node.value] + Node::chain(node.next)).drop_first() =~= Node::chain(
                    node.next,
                ));
                self.head = node.next;
                self.size -= 1;
                Some(node.value)
            },
        }
    }

    /// Turns the list into an iterator that hands out its items front to back.
    pub fn into_iter(self) -> (iter: LinkedListIntoIter<T>)
        requires
            self.well_formed(),
        ensures
            iter.well_formed(),
            iter@ == self@,
    {
        LinkedListIntoIter { list: self }
    }
}

impl<T> View for LinkedListIntoIter<T> {
    type V = Seq<T>;

    /// The items that are still to come, in the order in which they come.
    closed spec fn view(&self) -> Seq<T> {
        self.list@
    }
}

impl<T> LinkedListIntoIter<T> {
    /// The list behind the iterator is well formed.
    pub closed spec fn well_formed(&self) -> bool {
        self.list.well_formed()
    }

    /// Hands out the next item, or `None` when none is left.
    pub fn next(&mut self) -> (item: Option<T>)
        requires
            old(self).well_formed(),
        ensures
            final(self).well_formed(),
            old(self)@.len() == 0 ==> item is None && final(self)@ == old(self)@,
            old(self)@.len() > 0 ==> item == Some(old(self)@[0]) && final(self)@ == old(self)@.drop_first(),
    {
        self.list.pop_front()
    }
}

impl<T> Drop for LinkedList<T> {
    /// Frees the cells one after the other, front to back, so that a long list
    /// needs no deep recursion to be freed.
    fn drop(&mut self)
        opens_invariants none
        no_unwind
    {
        let mut current: Option<Box<Node<T>>> = None;
        core::mem::swap(&mut self.head, &mut current);
        loop
            decreases Node::chain(current).len(),
        {
            match current {
                None => {
                    break ;
                },
                Some(mut node) => {
                    let mut next: Option<Box<Node<T>>> = None;
                    core::mem::swap(&mut node.next, &mut next);
                    current = next;
                },
            }
        }
    }
}

impl<T: Clone> Clone for LinkedList<T> {
    /// Makes a list of the clones of the items, in the same order.
    fn clone(&self) -> (copy: Self)
        ensures
            self.well_formed() ==> copy.well_formed(),
            copy@.len() == self@.len(),
            forall|i: int| 0 <= i < self@.len() ==> cloned(#[trigger] self@[i], copy@[i]),
    {
        let mut values: Vec<T> = Vec::new();
        let mut current = &self.head;
        loop
            invariant
                values@.len() + Node::chain(*current).len() == self@.len(),
                Node::chain(*current) == self@.skip(values@.len() as int),
                forall|i: int| 0 <= i < values@.len() ==> cloned(#[trigger] self@[i], values@[i]),
            ensures
                values@.len() == self@.len(),
            decreases Node::chain(*current).len(),
        {
            match current {
                None => {
                    break ;
                },
                Some(node) => {
                    assert(Node::chain(node.next) =~= Node::chain(*current).drop_first());
                    assert(Node::chain(*current)[0] == node.value);
                    assert(self@.skip(values@.len() as int)[0] == self@[values@.len() as int]);
                    values.push(node.value.clone());
                    current = &node.next;
                    assert(Node::chain(*current) =~= self@.skip(values@.len() as int));
                },
            }
        }
        let mut head: Option<Box<Node<T>>> = None;
        let ghost total = values@;
        while values.len() > 0
            invariant
                total.len() == self@.len(),
                values@.len() <= total.len(),
                values@ == total.take(values@.len() as int),
                Node::chain(head) == total.skip(values@.len() as int),
            decreases values.len(),
        {
            let value = values.pop().unwrap();
            assert(seq![value] + Node::chain(head) =~= total.skip(values@.len() as int));
            head = Some(Box::new(Node::new(value, head)));
        }
        assert(Node::chain(head) =~= total);
        LinkedList { head, size: self.size }
    }
}

impl<T: PartialEq> PartialEq for LinkedList<T> {
    /// Two lists are equal when they have the same length and equal items at
    /// every place.
    fn eq(&self, other: &Self) -> (equal: bool) {
        let mut a = &self.head;
        let mut b = &other.head;
        let ghost mut seen: int = 0;
        loop
            invariant
                0 <= seen <= self@.len(),
                seen <= other@.len(),
                Node::chain(*a) == self@.skip(seen),
                Node::chain(*b) == other@.skip(seen),
                T::obeys_eq_spec() ==> forall|i: int|
                    0 <= i < seen ==> (#[trigger] self@[i]).eq_spec(&other@[i]),
            ensures
                *a is None || *b is None,
            decreases Node::chain(*a).len(),
        {
            match (a, b) {
                (Some(node_a), Some(node_b)) => {
                    assert(Node::chain(node_a.next) =~= Node::chain(*a).drop_first());
                    assert(Node::chain(node_b.next) =~= Node::chain(*b).drop_first());
                    assert(Node::chain(*a)[0] == node_a.value);
                    assert(Node::chain(*b)[0] == node_b.value);
                    assert(self@.skip(seen)[0] == self@[seen]);
                    assert(other@.skip(seen)[0] == other@[seen]);
                    if node_a.value != node_b.value {
                        return false;
                    }
                    a = &node_a.next;
                    b = &node_b.next;
                    proof {
                        seen = seen + 1;
                    }
                    assert(Node::chain(*a) =~= self@.skip(seen));
                    assert(Node::chain(*b) =~= other@.skip(seen));
                },
                _ => {
                    break ;
                },
            }
        }
        assert(*a is None ==> seen == self@.len());
        assert(*b is None ==> seen == other@.len());
        a.is_none() && b.is_none()
    }
}

impl<T: PartialEq> PartialEqSpecImpl for LinkedList<T> {
    open spec fn obeys_eq_spec() -> bool {
        T::obeys_eq_spec()
    }

    open spec fn eq_spec(&self, other: &Self) -> bool {
        &&& self@.len() == other@.len()
        &&& forall|i: int| 0 <= i < self@.len() ==> (#[trigger] self@[i]).eq_spec(&other@[i])
    }
}

/// The texts `parts` in a row, with a comma and a space between neighbours.
pub open spec fn joined(parts: Seq<Seq<char>>) -> Seq<char>
    decreases parts.len(),
{
    if parts.len() == 0 {
        Seq::empty()
    } else if parts.len() == 1 {
        parts[0]
    } else {
        joined(parts.drop_last()) + seq![',', ' '] + parts.last()
    }
}

/// The text of a list whose items read `parts`: the items in a row, separated
/// by a comma and a space, between square brackets.
pub open spec fn bracketed(parts: Seq<Seq<char>>) -> Seq<char> {
    seq!['['] + joined(parts) + seq![']']
}

/// Writes a list whose items read `parts`, as `[a, b, c]`.
pub fn bracket(parts: &Vec<String>) -> (text: String)
    ensures
        text@ == bracketed(parts.deep_view()),
{
    let ghost texts = parts.deep_view();
    let mut text = String::from_str("[");
    proof {
        reveal_strlit("[");
        reveal_strlit(", ");
        reveal_strlit("]");
        assert("["@ =~= seq!['[']);
        assert(", "@ =~= seq![',', ' ']);
        assert("]"@ =~= seq![']']);
    }
    let mut i: usize = 0;
    while i < parts.len()
        invariant
            i <= parts.len(),
            texts == parts.deep_view(),
            texts.len() == parts.len(),
            ", "@ == seq![',', ' '],
            text@ == seq!['['] + joined(texts.take(i as int)),
        decreases parts.len() - i,
    {
        let ghost before = texts.take(i as int);
        let ghost after = texts.take(i + 1);
        assert(after.drop_last() =~= before);
        assert(after.last() == parts[i as int]@);
        if i > 0 {
            text.append(", ");
        }
        text.append(parts[i].as_str());
        assert(text@ =~= seq!['['] + joined(after));
        i += 1;
    }
    assert(texts.take(i as int) =~= texts);
    text.append("]");
    text
}

impl<T: core::fmt::Display> LinkedList<T> {
    /// Writes the list as `[a, b, c]`, each item as its `Display` writes it.
    pub fn to_string(&self) -> (text: String)
        ensures
            exists|parts: Seq<String>|
                {
                    &&& parts.len() == self@.len()
                    &&& forall|i: int|
                        0 <= i < parts.len() ==> to_string_from_display_ensures(
                            &self@[i],
                            #[trigger] parts[i],
                        )
                    &&& text@ == bracketed(parts.map_values(|part: String| part@))
                },
    {
        let mut parts: Vec<String> = Vec::new();
        let mut current = &self.head;
        loop
            invariant
                parts@.len() + Node::chain(*current).len() == self@.len(),
                Node::chain(*current) == self@.skip(parts@.len() as int),
                forall|i: int|
                    0 <= i < parts@.len() ==> to_string_from_display_ensures(
                        &self@[i],
                        #[trigger] parts@[i],
                    ),
            ensures
                parts@.len() == self@.len(),
            decreases Node::chain(*current).len(),
        {
            match current {
                None => {
                    break ;
                },
                Some(node) => {
                    assert(Node::chain(node.next) =~= Node::chain(*current).drop_first());
                    assert(Node::chain(*current)[0] == node.value);
                    assert(self@.skip(parts@.len() as int)[0] == self@[parts@.len() as int]);
                    parts.push(node.value.to_string());
                    current = &node.next;
                    assert(Node::chain(*current) =~= self@.skip(parts@.len() as int));
                },
            }
        }
        assert(parts.deep_view() =~= parts@.map_values(|part: String| part@));
        bracket(&parts)
    }
}

} // verus!
