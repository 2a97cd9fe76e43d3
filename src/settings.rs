use vstd::prelude::*;
use crate::cell::Cell;

verus! {

/// What the user has asked of the simulation loop: whether it is paused,
/// which state a click paints, and whether one single step is pending.
#[derive(Clone, Copy, PartialEq, Eq, Debug, Structural)]
pub struct Settings {
    pub paused: bool,
    pub click_mode: Cell,
    pub step: bool,
}

impl Default for Settings {
    /// Running, painting live cells, no step pending.
    fn default() -> (r: Settings)
        ensures
            r == (Settings { paused: false, click_mode: Cell::Alive, step: false }),
    {
        Settings { paused: false, click_mode: Cell::Alive, step: false }
    }
}

impl Settings {
    /// Pauses a running simulation, or resumes a paused one.
    pub fn toggle_paused(&mut self)
        ensures
            *final(self) == (Settings { paused: !old(self).paused, ..*old(self) }),
    {
        self.paused = !self.paused;
    }

    /// Switches the state that a click paints.
    pub fn toggle_click_mode(&mut self)
        ensures
            *final(self) == (Settings { click_mode: old(self).click_mode.flipped(), ..*old(self) }),
    {
        self.click_mode = self.click_mode.flip();
    }

    /// Asks for one generation to be advanced, even while paused.
    pub fn request_step(&mut self)
        ensures
            *final(self) == (Settings { step: true, ..*old(self) }),
    {
        self.step = true;
    }

    /// Decides whether this pass of the loop advances a generation: when
    /// running, or when a step is pending. A pending step is used up here,
    /// so one request never advances more than once.
    pub fn take_advance(&mut self) -> (r: bool)
        ensures
            r == (!old(self).paused || old(self).step),
            *final(self) == (Settings { step: false, ..*old(self) }),
    {
        let advance = !self.paused || self.step;
        self.step = false;
        advance
    }
}

} // verus!
