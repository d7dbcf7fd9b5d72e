//! A last-in, first-out stack that keeps count of its items.

use vstd::prelude::*;

verus! {

/// A stack, top last.
pub struct Stack<T> {
    data: Vec<T>,
    len: usize,
}

impl<T> Stack<T> {
    /// The count matches the items.
    pub closed spec fn wf(&self) -> bool {
        self.len == self.data@.len()
    }

    /// The items, bottom first.
    pub closed spec fn view(&self) -> Seq<T> {
        self.data@
    }

    /// An empty stack.
    pub fn new() -> (r: Self)
        ensures
            r@ == Seq::<T>::empty(),
            r.wf(),
    {
        Stack { data: Vec::new(), len: 0 }
    }

    /// Puts `item` on top.
    pub fn push(&mut self, item: T)
        requires
            old(self).wf(),
            old(self)@.len() < usize::MAX,
        ensures
            final(self).wf(),
            final(self)@ == old(self)@.push(item),
    {
        self.data.push(item);
        self.len = self.len + 1;
    }

    /// Takes the top item off, if there is one.
    pub fn pop(&mut self) -> (r: Option<T>)
        requires
            old(self).wf(),
        ensures
            final(self).wf(),
            old(self)@.len() == 0 ==> r is None && final(self)@ == old(self)@,
            old(self)@.len() > 0 ==> r == Some(old(self)@.last()) && final(self)@ == old(
                self,
            )@.drop_last(),
    {
        if self.len == 0 {
            return None;
        }
        self.len = self.len - 1;
        self.data.pop()
    }

    /// The top item, if there is one.
    pub fn peek(&self) -> (r: Option<&T>)
        requires
            self.wf(),
        ensures
            self@.len() == 0 ==> r is None,
            self@.len() > 0 ==> r == Some(&self@.last()),
    {
        if self.len == 0 {
            return None;
        }
        self.data.last()
    }

    /// The number of items.
    pub fn len(&self) -> (r: usize)
        requires
            self.wf(),
        ensures
            r == self@.len(),
    {
        self.len
    }

    /// The items, bottom first.
    pub fn items(&self) -> (r: &Vec<T>)
        ensures
            r@ == self@,
    {
        &self.data
    }
}

} // verus!
