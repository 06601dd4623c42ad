//! The command queue: unbounded, first in, first out.
use vstd::prelude::*;
use std::collections::VecDeque;
use crate::command::Command;

verus! {

/// Commands waiting for dispatch, head first.
pub struct CommandQueue {
    items: VecDeque<Command>,
}

impl View for CommandQueue {
    type V = Seq<Command>;

    closed spec fn view(&self) -> Seq<Command> {
        self.items@
    }
}

impl CommandQueue {
    pub fn new() -> (q: CommandQueue)
        ensures
            q@ == Seq::<Command>::empty(),
    {
        CommandQueue { items: VecDeque::new() }
    }

    /// Appends `command` at the tail.
    pub fn enqueue(&mut self, command: Command)
        ensures
            final(self)@ == old(self)@.push(command),
    {
        self.items.push_back(command);
    }

    /// Removes and returns the head, or `None` when the queue is empty.
    pub fn dequeue(&mut self) -> (r: Option<Command>)
        ensures
            old(self)@.len() == 0 ==> r is None && final(self)@ == old(self)@,
            old(self)@.len() > 0 ==> r == Some(old(self)@[0]) && final(self)@ == old(
                self,
            )@.drop_first(),
    {
        let r = self.items.pop_front();
        proof {
            if old(self)@.len() > 0 {
                assert(self@ =~= old(self)@.drop_first());
            }
        }
        r
    }

    pub fn len(&self) -> (r: usize)
        ensures
            r == self@.len(),
    {
        self.items.len()
    }

    pub fn is_empty(&self) -> (r: bool)
        ensures
            r == (self@.len() == 0),
    {
        self.items.len() == 0
    }
}

} // verus!
