use keet_8::{CallStack, Keet8Error, STACK_SIZE};

#[test]
fn thirty_two_pushes_succeed_and_the_next_overflows() {
    let mut stack = CallStack::new();
    for i in 0..32u16 {
        assert_eq!(stack.push(0x200 + 2 * i), Ok(()));
    }
    assert_eq!(stack.depth(), STACK_SIZE);
    assert_eq!(stack.push(0x300), Err(Keet8Error::CallStackFull));
    assert_eq!(stack.depth(), 32);
    assert_eq!(stack.pop(), Some(0x200 + 2 * 31));
}

#[test]
fn pop_on_empty_fails() {
    let mut stack = CallStack::new();
    assert_eq!(stack.pop(), None);
    assert_eq!(stack.depth(), 0);
}

#[test]
fn pushes_pop_in_reverse_order() {
    let mut stack = CallStack::new();
    assert_eq!(stack.push(0xA), Ok(()));
    assert_eq!(stack.push(0xB), Ok(()));
    assert_eq!(stack.push(0xC), Ok(()));
    assert_eq!(stack.pop(), Some(0xC));
    assert_eq!(stack.pop(), Some(0xB));
    assert_eq!(stack.pop(), Some(0xA));
    assert_eq!(stack.pop(), None);
}
