use deet::linked_list::{bracket, LinkedList, Node};

#[test]
fn new_list_is_empty() {
    let list: LinkedList<u32> = LinkedList::new();
    assert_eq!(list.get_size(), 0);
    assert!(list.is_empty());
    assert_eq!(list.to_string(), "[]");
}

#[test]
fn push_front_puts_item_first() {
    let mut list: LinkedList<u32> = LinkedList::new();
    for i in 1..12 {
        list.push_front(i);
    }
    assert_eq!(list.get_size(), 11);
    assert!(!list.is_empty());
    assert_eq!(list.to_string(), "[11, 10, 9, 8, 7, 6, 5, 4, 3, 2, 1]");
}

#[test]
fn pop_front_returns_items_last_in_first_out() {
    let mut list: LinkedList<u32> = LinkedList::new();
    list.push_front(1);
    list.push_front(2);
    list.push_front(3);
    assert_eq!(list.pop_front(), Some(3));
    assert_eq!(list.get_size(), 2);
    assert_eq!(list.to_string(), "[2, 1]");
    assert_eq!(list.pop_front(), Some(2));
    assert_eq!(list.pop_front(), Some(1));
    assert_eq!(list.get_size(), 0);
    assert!(list.is_empty());
}

#[test]
fn pop_front_on_empty_list_is_none() {
    let mut list: LinkedList<String> = LinkedList::new();
    assert_eq!(list.pop_front(), None);
    assert_eq!(list.get_size(), 0);
    list.push_front(String::from("a"));
    assert_eq!(list.pop_front(), Some(String::from("a")));
    assert_eq!(list.pop_front(), None);
    assert!(list.is_empty());
}

#[test]
fn push_then_pop_gives_the_item_back() {
    let mut list: LinkedList<i64> = LinkedList::new();
    list.push_front(-7);
    list.push_front(40);
    let before = list.to_string();
    list.push_front(99);
    assert_eq!(list.pop_front(), Some(99));
    assert_eq!(list.to_string(), before);
}

#[test]
fn clone_keeps_items_and_order() {
    let mut list: LinkedList<String> = LinkedList::new();
    list.push_front(String::from("c"));
    list.push_front(String::from("b"));
    list.push_front(String::from("a"));
    let mut copy = list.clone();
    assert_eq!(copy.get_size(), 3);
    assert_eq!(copy.to_string(), "[a, b, c]");
    assert!(copy == list);
    copy.push_front(String::from("z"));
    assert_eq!(list.to_string(), "[a, b, c]");
    assert_eq!(list.get_size(), 3);
    assert_eq!(copy.to_string(), "[z, a, b, c]");
    assert_eq!(copy.get_size(), 4);
}

#[test]
fn clone_of_empty_list_is_empty() {
    let list: LinkedList<u8> = LinkedList::new();
    let copy = list.clone();
    assert!(copy.is_empty());
    assert!(copy == list);
}

#[test]
fn lists_are_equal_item_by_item() {
    let mut a: LinkedList<u32> = LinkedList::new();
    let mut b: LinkedList<u32> = LinkedList::new();
    assert!(a == b);
    a.push_front(1);
    assert!(a != b);
    assert!(b != a);
    b.push_front(1);
    assert!(a == b);
    a.push_front(2);
    b.push_front(3);
    assert!(a != b);
    a.pop_front();
    b.pop_front();
    assert!(a == b);
    a.push_front(5);
    a.push_front(6);
    b.push_front(6);
    assert!(a != b);
}

#[test]
fn iterator_hands_out_items_front_to_back() {
    let mut list: LinkedList<u32> = LinkedList::new();
    list.push_front(30);
    list.push_front(20);
    list.push_front(10);
    let mut iter = list.into_iter();
    assert_eq!(iter.next(), Some(10));
    assert_eq!(iter.next(), Some(20));
    assert_eq!(iter.next(), Some(30));
    assert_eq!(iter.next(), None);
    assert_eq!(iter.next(), None);
}

#[test]
fn long_list_is_freed_without_deep_recursion() {
    let mut list: LinkedList<u64> = LinkedList::new();
    for i in 0..400_000u64 {
        list.push_front(i);
    }
    assert_eq!(list.get_size(), 400_000);
    assert_eq!(list.pop_front(), Some(399_999));
}

#[test]
fn bracket_joins_with_comma_and_space() {
    assert_eq!(bracket(&vec![]), "[]");
    assert_eq!(bracket(&vec![String::from("x")]), "[x]");
    assert_eq!(bracket(&vec![String::from("x"), String::new(), String::from("yz")]), "[x, , yz]");
}

#[test]
fn node_new_takes_a_value_and_the_rest() {
    let last = Node::new(2u32, None);
    let _first = Node::new(1u32, Some(Box::new(last)));
}
