//! The reflected record driven by the dynamic-operation exerciser.

use vstd::prelude::*;

verus! {

/// A record with one reflected counter field.
#[derive(Debug, PartialEq, Eq, Structural)]
pub struct DynamicRecord {
    pub value: u64,
}

/// Addition modulo 2^64.
pub open spec fn wrapped_sum(value: u64, delta: u64) -> u64 {
    ((value as nat + delta as nat) % 0x1_0000_0000_0000_0000nat) as u64
}

impl DynamicRecord {
    /// Adds `delta` to the counter, wrapping on overflow.
    pub fn add(&mut self, delta: u64)
        ensures
            final(self).value == wrapped_sum(old(self).value, delta),
    {
        self.value = self.value.wrapping_add(delta);
    }
}

} // verus!
