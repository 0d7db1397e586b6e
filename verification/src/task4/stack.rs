//! A stack of bounded height, kept as a linked list.

use vstd::prelude::*;

verus! {

struct Node<T> {
    value: T,
    next: Option<Box<Node<T>>>,
}

/// The stack is as high as it may get.
#[derive(Debug, Clone, Copy, PartialEq, Eq)]
pub struct StackOverflowError;

/// The stack holds nothing.
#[derive(Debug, Clone, Copy, PartialEq, Eq)]
pub struct StackEmptyError;

/// A stack that holds at most as many items as it was made for.
pub struct Stack<T> {
    head: Option<Box<Node<T>>>,
    len: usize,
    size: usize,
}

/// The items of a list, first node first.
spec fn items<T>(list: Option<Box<Node<T>>>) -> Seq<T>
    decreases list,
{
    match list {
        None => Seq::empty(),
        Some(node) => seq![node.value] + items(node.next),
    }
}

impl<T> Stack<T> {
    /// The items, the top one first.
    pub closed spec fn view(&self) -> Seq<T> {
        items(self.head)
    }

    /// The greatest height the stack may reach.
    pub closed spec fn capacity(&self) -> nat {
        self.size as nat
    }

    /// The height is counted right and within the capacity.
    pub closed spec fn wf(&self) -> bool {
        &&& self.len == items(self.head).len()
        &&& self.len <= self.size
    }

    /// An empty stack for at most `size` items.
    pub fn new(size: usize) -> (stack: Self)
        ensures
            stack.wf(),
            stack@ == Seq::<T>::empty(),
            stack.capacity() == size,
    {
        Stack { head: None, len: 0, size }
    }

    /// The number of items.
    pub fn get_len(&self) -> (len: usize)
        requires
            self.wf(),
        ensures
            len == self@.len(),
    {
        self.len
    }

    /// The top item, if there is one.
    pub fn peek(&self) -> (top: Option<&T>)
        ensures
            match top {
                Some(item) => self@.len() > 0 && *item == self@[0],
                None => self@.len() == 0,
            },
    {
        match &self.head {
            Some(node) => Some(&node.value),
            None => None,
        }
    }

    /// Takes the top item off. Fails on an empty stack, which stays as it is.
    pub fn pop(&mut self) -> (popped: Result<T, StackEmptyError>)
        requires
            old(self).wf(),
        ensures
            final(self).wf(),
            final(self).capacity() == old(self).capacity(),
            match popped {
                Ok(item) => old(self)@.len() > 0 && item == old(self)@[0] && final(self)@ == old(
                    self,
                )@.skip(1),
                Err(_) => old(self)@.len() == 0 && final(self)@ == old(self)@,
            },
    {
        if self.len == 0 {
            return Err(StackEmptyError);
        }
        let head_node = self.head.take().unwrap();
        let node = *head_node;
        self.head = node.next;
        self.len -= 1;
        Ok(node.value)
    }

    /// Puts an item on top. Fails on a stack that has reached its capacity,
    /// which stays as it is.
    pub fn push(&mut self, value: T) -> (pushed: Result<(), StackOverflowError>)
        requires
            old(self).wf(),
        ensures
            final(self).wf(),
            final(self).capacity() == old(self).capacity(),
            match pushed {
                Ok(_) => old(self)@.len() < old(self).capacity() && final(self)@ == seq![value]
                    + old(self)@,
                Err(_) => old(self)@.len() == old(self).capacity() && final(self)@ == old(self)@,
            },
    {
        if self.len == self.size {
            return Err(StackOverflowError);
        }
        let old_head = self.head.take();
        self.head = Some(Box::new(Node { value, next: old_head }));
        self.len += 1;
        Ok(())
    }
}

} // verus!
