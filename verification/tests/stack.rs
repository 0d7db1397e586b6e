use exercise_runner::task4::stack::{Stack, StackEmptyError, StackOverflowError};

#[test]
fn new_stack_is_empty() {
    let mut stack: Stack<i32> = Stack::new(3);
    assert_eq!(stack.get_len(), 0);
    assert_eq!(stack.peek(), None);
    assert_eq!(stack.pop(), Err(StackEmptyError));
}

#[test]
fn items_come_off_in_reverse_order() {
    let mut stack: Stack<i32> = Stack::new(3);
    assert_eq!(stack.push(1), Ok(()));
    assert_eq!(stack.push(2), Ok(()));
    assert_eq!(stack.push(3), Ok(()));
    assert_eq!(stack.get_len(), 3);
    assert_eq!(stack.peek(), Some(&3));
    assert_eq!(stack.pop(), Ok(3));
    assert_eq!(stack.peek(), Some(&2));
    assert_eq!(stack.pop(), Ok(2));
    assert_eq!(stack.pop(), Ok(1));
    assert_eq!(stack.get_len(), 0);
    assert_eq!(stack.pop(), Err(StackEmptyError));
}

#[test]
fn push_beyond_the_capacity_fails_and_changes_nothing() {
    let mut stack: Stack<char> = Stack::new(2);
    assert_eq!(stack.push('a'), Ok(()));
    assert_eq!(stack.push('b'), Ok(()));
    assert_eq!(stack.push('c'), Err(StackOverflowError));
    assert_eq!(stack.get_len(), 2);
    assert_eq!(stack.peek(), Some(&'b'));
    assert_eq!(stack.pop(), Ok('b'));
    assert_eq!(stack.push('c'), Ok(()));
    assert_eq!(stack.peek(), Some(&'c'));
}

#[test]
fn stack_without_room_takes_nothing() {
    let mut stack: Stack<u8> = Stack::new(0);
    assert_eq!(stack.push(1), Err(StackOverflowError));
    assert_eq!(stack.get_len(), 0);
    assert_eq!(stack.peek(), None);
}

#[test]
fn peek_does_not_take_the_item() {
    let mut stack: Stack<String> = Stack::new(1);
    assert!(stack.push(String::from("top")).is_ok());
    assert_eq!(stack.peek().map(|s| s.as_str()), Some("top"));
    assert_eq!(stack.peek().map(|s| s.as_str()), Some("top"));
    assert_eq!(stack.get_len(), 1);
}
