use vstd::prelude::*;

use crate::generator::{next_counter, Generator};
use crate::text::{dec_rep, u32_text};

verus! {

/// A task's numeric identifier.
#[derive(Debug, Clone, Copy, PartialEq, Eq, Structural)]
pub struct TaskId(u32);

impl TaskId {
    /// The number behind the identifier.
    pub closed spec fn value(&self) -> u32 {
        self.0
    }

    /// Draws the next identifier from the generator.
    pub fn new(generator: &mut Generator) -> (r: TaskId)
        ensures
            r.value() == old(generator).current(),
            final(generator).current() == next_counter(old(generator).current()),
    {
        TaskId(generator.poll())
    }

    /// Wraps an already-stored identifier.
    pub fn from(id: u32) -> (r: TaskId)
        ensures
            r.value() == id,
    {
        TaskId(id)
    }

    /// The identifier in decimal.
    pub fn to_text(&self) -> (r: String)
        ensures
            r@ == dec_rep(self.value() as nat),
    {
        u32_text(self.0)
    }
}

impl From<TaskId> for u32 {
    fn from(value: TaskId) -> (r: u32) {
        value.0
    }
}

impl vstd::std_specs::convert::FromSpecImpl<TaskId> for u32 {
    open spec fn obeys_from_spec() -> bool {
        true
    }

    open spec fn from_spec(v: TaskId) -> u32 {
        v.value()
    }
}

} // verus!
