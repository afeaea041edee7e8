use vstd::prelude::*;

verus! {

/// The counter value after one identifier is handed out: one more, wrapping
/// at the numeric limit.
pub open spec fn next_counter(c: u32) -> u32 {
    if c == u32::MAX {
        0u32
    } else {
        (c + 1) as u32
    }
}

/// Hands out consecutive task identifiers.
pub struct Generator {
    counter: u32,
}

impl Generator {
    /// The identifier the next `poll` returns.
    pub closed spec fn current(&self) -> u32 {
        self.counter
    }

    /// A generator whose first identifier is 1.
    pub fn new() -> (r: Generator)
        ensures
            r.current() == 1,
    {
        Generator { counter: 1 }
    }

    /// A generator whose first identifier is `value`.
    pub fn from(value: u32) -> (r: Generator)
        ensures
            r.current() == value,
    {
        Generator { counter: value }
    }

    /// Returns the current identifier and steps to the next one.
    pub fn poll(&mut self) -> (r: u32)
        ensures
            r == old(self).current(),
            final(self).current() == next_counter(old(self).current()),
    {
        let value = self.counter;
        self.counter = self.counter.wrapping_add(1);
        value
    }
}

impl Default for Generator {
    fn default() -> (r: Generator)
        ensures
            r.current() == 1,
    {
        Generator::new()
    }
}

/// The counter a freshly opened store starts its generator at: one past the
/// last stored identifier, or 1 when nothing is stored yet.
pub fn initial_counter(last_id: Option<u32>) -> (r: u32)
    requires
        last_id matches Some(v) ==> v < u32::MAX,
    ensures
        r == (match last_id {
            Some(v) => v + 1,
            None => 1int,
        }),
{
    match last_id {
        Some(v) => v + 1,
        None => 1,
    }
}

} // verus!
