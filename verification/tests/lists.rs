use hello_web::first;
use hello_web::fourth;
use hello_web::second;
use hello_web::third;

#[test]
fn basics() {
    let mut list: first::List<i32> = first::List::new();

    assert_eq!(list.pop(), None);

    list.push(1);
    list.push(2);
    list.push(3);

    assert_eq!(list.pop(), Some(3));
    assert_eq!(list.pop(), Some(2));

    list.push(4);
    list.push(5);

    assert_eq!(list.pop(), Some(5));
    assert_eq!(list.pop(), Some(4));

    assert_eq!(list.pop(), Some(1));
    assert_eq!(list.pop(), None);
}

#[test]
fn peek() {
    let mut list: fourth::List<i32> = fourth::List::new();
    assert!(list.peek().is_none());
    assert!(list.peek_back().is_none());
    assert!(list.peek_mut().is_none());
    assert!(list.peek_back_mut().is_none());

    list.push_front(1);
    list.push_front(2);
    list.push_front(3);

    assert_eq!(list.peek().unwrap(), &3);
    assert_eq!(list.peek_mut().unwrap(), &mut 3);
    assert_eq!(list.peek_back().unwrap(), &1);
    assert_eq!(list.peek_back_mut().unwrap(), &mut 1);
}

#[test]
fn test1() {
    let mut list: second::List<i32> = second::List::new();
    list.push(1);
    list.push(2);
    list.push(3);

    let mut iter: second::IntoIter<i32> = list.into_iter();
    assert_eq!(iter.next(), Some(3));
    assert_eq!(iter.next(), Some(2));
    assert_eq!(iter.next(), Some(1));
    assert_eq!(iter.next(), None);
}

#[test]
fn second_test() {
    let mut list: second::List<i32> = second::List::new();

    assert_eq!(list.pop(), None);
    assert_eq!(list.peek(), None);
    assert_eq!(list.peek_mut(), None);

    list.push(1);
    list.push(2);
    list.push(3);

    assert_eq!(list.peek(), Some(&3));
    assert_eq!(list.peek_mut(), Some(&mut 3));
    list.peek_mut().map(|value: &mut i32| *value = 42);

    assert_eq!(list.peek(), Some(&42));
    assert_eq!(list.pop(), Some(42));
}

#[test]
fn third_test() {
    let list: third::List<i32> = third::List::new();
    assert_eq!(list.head(), None);

    let list: third::List<i32> = list.prepend(1).prepend(2).prepend(3);
    assert_eq!(list.head(), Some(&3));

    let list: third::List<i32> = list.tail();
    assert_eq!(list.head(), Some(&2));

    let list: third::List<i32> = list.tail();
    assert_eq!(list.head(), Some(&1));

    let list: third::List<i32> = list.tail();
    assert_eq!(list.head(), None);

    let list: third::List<i32> = list.tail();
    assert_eq!(list.head(), None);

    let list: third::List<i32> = list.prepend(1).prepend(2).prepend(3);
    let mut iter: third::Iter<'_, i32> = list.iter();
    assert_eq!(iter.next(), Some(&3));
    assert_eq!(iter.next(), Some(&2));
    assert_eq!(iter.next(), Some(&1));
    assert_eq!(iter.next(), None);
}

#[test]
fn second_iterators() {
    let mut list: second::List<i32> = second::List::new();
    list.push(1);
    list.push(2);
    list.push(3);

    let mut iter = list.iter();
    assert_eq!(iter.next(), Some(&3));
    assert_eq!(iter.next(), Some(&2));
    assert_eq!(iter.next(), Some(&1));
    assert_eq!(iter.next(), None);

    let mut iter_mut = list.iter_mut();
    while let Some(value) = iter_mut.next() {
        *value += 10;
    }
    assert_eq!(list.pop(), Some(13));
    assert_eq!(list.pop(), Some(12));
    assert_eq!(list.pop(), Some(11));
    assert_eq!(list.pop(), None);
}

#[test]
fn fourth_both_ends() {
    let mut list: fourth::List<i32> = fourth::List::new();
    assert_eq!(list.pop_front(), None);
    assert_eq!(list.pop_back(), None);

    list.push_back(1);
    list.push_back(2);
    list.push_front(0);

    assert_eq!(list.pop_front(), Some(0));
    assert_eq!(list.pop_back(), Some(2));
    assert_eq!(list.pop_front(), Some(1));
    assert_eq!(list.pop_front(), None);

    list.push_front(5);
    list.push_front(6);
    let mut iter = list.into_iter();
    assert_eq!(iter.next(), Some(6));
    assert_eq!(iter.next_back(), Some(5));
    assert_eq!(iter.next(), None);
    assert_eq!(iter.next_back(), None);
}

#[test]
fn third_shared_tails() {
    let base: third::List<i32> = third::List::new().prepend(1).prepend(2);
    let left: third::List<i32> = base.prepend(3);
    let right: third::List<i32> = base.prepend(4);

    assert_eq!(left.head(), Some(&3));
    assert_eq!(right.head(), Some(&4));
    assert_eq!(left.tail().head(), Some(&2));
    assert_eq!(right.tail().head(), Some(&2));
}
