//! Events: the unit of input to the action worker.

use vstd::prelude::*;

verus! {

/// One thing an event says about what happened.
#[derive(Debug, Clone, PartialEq, Eq)]
pub enum Tag {
    /// A path that changed on the filesystem.
    Path(String),
    /// The number of a signal that was delivered to the process.
    Signal(u8),
}

/// A filesystem change, a signal, or an event injected by the caller.
///
/// An event without tags is the empty event: no filter applies to it.
#[derive(Debug, Clone, PartialEq, Eq)]
pub struct Event {
    pub tags: Vec<Tag>,
}

impl View for Event {
    type V = Seq<Tag>;

    open spec fn view(&self) -> Seq<Tag> {
        self.tags@
    }
}

impl Event {
    /// Whether the event carries no tag at all.
    pub fn is_empty(&self) -> (r: bool)
        ensures
            r == (self@.len() == 0),
    {
        self.tags.len() == 0
    }
}

impl Default for Event {
    /// The empty event.
    fn default() -> (r: Event)
        ensures
            r@ == Seq::<Tag>::empty(),
    {
        Event { tags: Vec::new() }
    }
}

} // verus!
