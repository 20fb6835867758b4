//! The action bus: a first-in-first-out queue of actions. Sending never
//! blocks and never drops; draining hands back everything queued so far, in
//! arrival order, which bounds each drain to the queue contents at its start.

use vstd::prelude::*;

use crate::action::Action;

verus! {

pub struct ActionBus {
    queue: Vec<Action>,
}

impl View for ActionBus {
    type V = Seq<Action>;

    closed spec fn view(&self) -> Seq<Action> {
        self.queue@
    }
}

impl ActionBus {
    pub fn new() -> (r: Self)
        ensures
            r@ == Seq::<Action>::empty(),
    {
        let queue: Vec<Action> = Vec::new();
        proof {
            assert(queue@ =~= Seq::<Action>::empty());
        }
        ActionBus { queue }
    }

    /// Enqueues the action at the back; nothing is ever dropped.
    pub fn send(&mut self, action: Action)
        ensures
            final(self)@ == old(self)@.push(action),
    {
        self.queue.push(action);
    }

    pub fn len(&self) -> (n: usize)
        ensures
            n == self@.len(),
    {
        self.queue.len()
    }

    pub fn is_empty(&self) -> (b: bool)
        ensures
            b == (self@.len() == 0),
    {
        self.queue.len() == 0
    }

    /// Removes and returns everything queued, in arrival order.
    pub fn try_receive_all(&mut self) -> (r: Vec<Action>)
        ensures
            r@ == old(self)@,
            final(self)@ == Seq::<Action>::empty(),
    {
        let mut taken: Vec<Action> = Vec::new();
        proof {
            assert(taken@ =~= Seq::<Action>::empty());
        }
        core::mem::swap(&mut taken, &mut self.queue);
        taken
    }
}

} // verus!
