//! What the two views share: each takes in one frequency per tick.

use vstd::prelude::*;

verus! {

/// A view that is driven by the frequency heard at each tick.
pub trait Ui {
    /// Whether the view can take another tick.
    spec fn ready(&self) -> bool;

    /// Takes in the frequency of this tick, in millihertz; zero stands for
    /// no reading.
    fn update(&mut self, freq: u32)
        requires
            old(self).ready(),
    ;
}

} // verus!
