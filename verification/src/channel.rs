//! The command queue: an ordered, unbounded queue of commands between the
//! request handlers and the one controller worker.
//!
//! Commands are applied in the exact order they were admitted, whichever
//! caller produced them.  The process around the library serializes the
//! admission itself (many concurrent senders share one locked send handle);
//! the library states and verifies the queue discipline: strictly first-in
//! first-out, nothing reordered, nothing coalesced.

use vstd::prelude::*;

use crate::command::CommandModel;
use crate::command::Message;

verus! {

/// A first-in first-out queue of commands, viewed as the sequence of models
/// of its commands, oldest first.
pub struct CommandQueue {
    items: Vec<Message>,
}

impl View for CommandQueue {
    type V = Seq<CommandModel>;

    closed spec fn view(&self) -> Seq<CommandModel> {
        self.items@.map_values(|m: Message| m@)
    }
}

impl CommandQueue {
    /// A fresh queue holds nothing.
    pub fn new() -> (q: CommandQueue)
        ensures
            q@ == Seq::<CommandModel>::empty(),
    {
        let q = CommandQueue { items: Vec::new() };
        proof {
            assert(q@ =~= Seq::<CommandModel>::empty());
        }
        q
    }

    /// How many commands are waiting.
    pub fn len(&self) -> (n: usize)
        ensures
            n == self@.len(),
    {
        self.items.len()
    }

    /// Admit one command at the tail; everything already admitted stays,
    /// in its order, ahead of it.
    pub fn send(&mut self, m: Message)
        ensures
            final(self)@ == old(self)@.push(m@),
    {
        let ghost before = self.items@;
        self.items.push(m);
        proof {
            assert(self.items@.map_values(|x: Message| x@) =~= before.map_values(
                |x: Message| x@,
            ).push(m@));
        }
    }

    /// Remove and return the oldest waiting command; the rest move up,
    /// keeping their order.  Returns nothing exactly when the queue is
    /// empty.
    pub fn receive(&mut self) -> (r: Option<Message>)
        ensures
            old(self)@.len() == 0 ==> r is None && final(self)@ == old(self)@,
            old(self)@.len() > 0 ==> (r matches Some(m) && m@ == old(self)@[0] && final(self)@
                == old(self)@.drop_first()),
    {
        if self.items.len() == 0 {
            None
        } else {
            let ghost before = self.items@;
            let m = self.items.remove(0);
            proof {
                assert(self.items@.map_values(|x: Message| x@) =~= before.map_values(
                    |x: Message| x@,
                ).drop_first());
            }
            Some(m)
        }
    }
}

} // verus!
