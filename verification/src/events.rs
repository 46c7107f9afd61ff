//! Filesystem-change events and the queue that carries them from the
//! watcher to the protocol loop. The queue is strictly first-in first-out:
//! events are handed out in arrival order, never deduplicated or coalesced
//! — a rapid modify-then-modify yields two events, which is harmless
//! because re-scanning is idempotent.

use vstd::prelude::*;

verus! {

/// A filesystem change, as the watcher reported it.
pub enum ChangeEvent {
    Created(String),
    Modified(String),
    Removed(String),
}

/// Mathematical content of a [`ChangeEvent`].
pub ghost enum ChangeEventV {
    Created(Seq<char>),
    Modified(Seq<char>),
    Removed(Seq<char>),
}

impl View for ChangeEvent {
    type V = ChangeEventV;

    open spec fn view(&self) -> ChangeEventV {
        match self {
            ChangeEvent::Created(p) => ChangeEventV::Created(p@),
            ChangeEvent::Modified(p) => ChangeEventV::Modified(p@),
            ChangeEvent::Removed(p) => ChangeEventV::Removed(p@),
        }
    }
}

impl DeepView for ChangeEvent {
    type V = ChangeEventV;

    open spec fn deep_view(&self) -> ChangeEventV {
        self.view()
    }
}

/// Pending change events, in arrival order: the producer appends at the
/// back, the consumer takes from the front.
pub struct EventQueue {
    items: Vec<ChangeEvent>,
}

impl View for EventQueue {
    type V = Seq<ChangeEventV>;

    closed spec fn view(&self) -> Seq<ChangeEventV> {
        self.items.deep_view()
    }
}

impl EventQueue {
    /// Creates an empty queue.
    pub fn new() -> (r: EventQueue)
        ensures
            r@ =~= Seq::<ChangeEventV>::empty(),
    {
        EventQueue { items: Vec::new() }
    }

    /// Number of queued events.
    pub fn len(&self) -> (n: usize)
        ensures
            n == self@.len(),
    {
        self.items.len()
    }

    /// Enqueues one event at the back.
    pub fn push(&mut self, ev: ChangeEvent)
        ensures
            final(self)@ =~= old(self)@.push(ev@),
    {
        let ghost evv = ev@;
        let ghost pre = self@;
        self.items.push(ev);
        proof {
            assert forall|j: int| 0 <= j < self.items@.len() implies self@[j] == pre.push(
                evv,
            )[j] by {
                if j < pre.len() {
                    assert(self.items@[j] == old(self).items@[j]);
                } else {
                    assert(self.items@[j]@ == evv);
                }
            }
            assert(self@ =~= pre.push(evv));
        }
    }

    /// Non-blocking poll: takes the oldest queued event, or returns nothing
    /// when the queue is empty. Repeated polling drains the queue in
    /// arrival order.
    pub fn try_receive(&mut self) -> (r: Option<ChangeEvent>)
        ensures
            old(self)@.len() == 0 ==> r is None && final(self)@ == old(self)@,
            old(self)@.len() > 0 ==> r is Some && r->Some_0@ == old(self)@[0] && final(self)@
                =~= old(self)@.drop_first(),
    {
        if self.items.len() == 0 {
            Option::None
        } else {
            let ghost pre = self@;
            let ev = self.items.remove(0);
            proof {
                assert(ev@ == pre[0]);
                assert forall|j: int| 0 <= j < self.items@.len() implies self@[j]
                    == pre.drop_first()[j] by {
                    assert(self.items@[j] == old(self).items@[j + 1]);
                }
                assert(self@ =~= pre.drop_first());
            }
            Option::Some(ev)
        }
    }
}

} // verus!
