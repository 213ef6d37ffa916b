//! Edge detection for a push button that is sampled periodically.

use vstd::prelude::*;

verus! {

/// Remembers whether the button was pressed at the last sample.
pub struct Button {
    was_pressed: bool,
}

impl Button {
    /// Whether the button was pressed at the last sample.
    pub closed spec fn was_pressed(&self) -> bool {
        self.was_pressed
    }

    /// Creates the detector of a button that has not been pressed yet.
    pub fn new() -> (button: Button)
        ensures
            !button.was_pressed(),
    {
        Button { was_pressed: false }
    }

    /// Takes the current sample and tells whether the button has just been
    /// released: it was pressed at the last sample and is not pressed now.
    /// A button that is held down reports nothing until it is let go.
    pub fn check_rising_edge(&mut self, is_pressed: bool) -> (rising_edge: bool)
        ensures
            rising_edge == (old(self).was_pressed() && !is_pressed),
            final(self).was_pressed() == is_pressed,
    {
        let rising_edge = self.was_pressed && !is_pressed;
        self.was_pressed = is_pressed;
        rising_edge
    }
}

} // verus!
