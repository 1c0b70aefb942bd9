use vstd::prelude::*;

use crate::error::Keet8Error;

verus! {

/// How many return addresses the call stack can hold.
pub const STACK_SIZE: usize = 32;

/// The stack is last in, first out: after pushing `a`, `b` and `c`, three
/// pops give `c`, `b`, `a` in that order and leave the stack as it was.
pub proof fn lemma_push_pop_lifo(s: Seq<u16>, a: u16, b: u16, c: u16)
    ensures
        s.push(a).push(b).push(c).last() == c,
        s.push(a).push(b).push(c).drop_last().last() == b,
        s.push(a).push(b).push(c).drop_last().drop_last().last() == a,
        s.push(a).push(b).push(c).drop_last().drop_last().drop_last() == s,
{
    assert(s.push(a).push(b).push(c).drop_last() =~= s.push(a).push(b));
    assert(s.push(a).push(b).drop_last() =~= s.push(a));
    assert(s.push(a).drop_last() =~= s);
}

/// A bounded last-in, first-out stack of return addresses.
pub struct CallStack {
    /// The pushed addresses, oldest first
    data: Vec<u16>,
}

impl View for CallStack {
    type V = Seq<u16>;

    /// The pushed addresses, oldest first.
    closed spec fn view(&self) -> Seq<u16> {
        self.data@
    }
}

impl CallStack {
    /// The stack never holds more than `STACK_SIZE` addresses.
    pub open spec fn wf(&self) -> bool {
        self@.len() <= STACK_SIZE
    }

    /// Creates an empty call stack.
    pub fn new() -> (r: Self)
        ensures
            r.wf(),
            r@ == Seq::<u16>::empty(),
    {
        CallStack { data: Vec::with_capacity(STACK_SIZE) }
    }

    /// The number of addresses on the stack.
    pub fn depth(&self) -> (r: usize)
        ensures
            r == self@.len(),
    {
        self.data.len()
    }

    /// Pushes an address; fails, leaving the stack as it was, when it already
    /// holds `STACK_SIZE` addresses.
    pub fn push(&mut self, addr: u16) -> (r: Result<(), Keet8Error>)
        requires
            old(self).wf(),
        ensures
            final(self).wf(),
            old(self)@.len() == STACK_SIZE ==> r == Err::<(), Keet8Error>(Keet8Error::CallStackFull)
                && final(self)@ == old(self)@,
            old(self)@.len() < STACK_SIZE ==> r == Ok::<(), Keet8Error>(()) && final(self)@
                == old(self)@.push(addr),
    {
        if self.data.len() == STACK_SIZE {
            return Err(Keet8Error::CallStackFull);
        }
        self.data.push(addr);
        Ok(())
    }

    /// Removes and returns the most recently pushed address, or `None` when
    /// the stack is empty.
    pub fn pop(&mut self) -> (r: Option<u16>)
        requires
            old(self).wf(),
        ensures
            final(self).wf(),
            old(self)@.len() == 0 ==> r == None::<u16> && final(self)@ == old(self)@,
            old(self)@.len() > 0 ==> r == Some(old(self)@.last()) && final(self)@
                == old(self)@.drop_last(),
    {
        self.data.pop()
    }
}

} // verus!
