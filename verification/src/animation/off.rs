use vstd::prelude::*;
use crate::strip::{Strip, blacks};

verus! {

/// The strip switched off.
pub struct Off {}

impl Off {
    pub fn new() -> (o: Off) {
        Off {}
    }

    /// Turns every pixel black.
    pub fn initialize(&self, strip: &mut Strip)
        ensures
            final(strip)@ == blacks(old(strip)@.len()),
            final(strip).is_shut_down() == old(strip).is_shut_down(),
    {
        strip.reset();
    }
}

} // verus!
