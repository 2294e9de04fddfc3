use vstd::prelude::*;

verus! {

/// A fade through the colour wheel in whole degrees: the strip shows one hue,
/// which moves on by `step_size` degrees a frame. The library keeps the hue; the
/// caller paints it.
pub struct RainbowFade {
    current_color_hue: u16,
    initial_color_hue: u16,
    step_size: u16,
}

impl RainbowFade {
    pub closed spec fn current_hue(&self) -> u16 {
        self.current_color_hue
    }

    pub closed spec fn initial_hue(&self) -> u16 {
        self.initial_color_hue
    }

    pub closed spec fn step_size(&self) -> u16 {
        self.step_size
    }

    /// A fade that starts from `initial_color_hue` once initialized; before that
    /// its hue is 0.
    pub fn new(initial_color_hue: u16, step_size: u16) -> (r: RainbowFade)
        ensures
            r.current_hue() == 0,
            r.initial_hue() == initial_color_hue,
            r.step_size() == step_size,
    {
        RainbowFade { current_color_hue: 0, initial_color_hue, step_size }
    }

    /// Goes back to the initial hue.
    pub fn initialize(&mut self)
        ensures
            final(self).current_hue() == old(self).initial_hue(),
            final(self).initial_hue() == old(self).initial_hue(),
            final(self).step_size() == old(self).step_size(),
    {
        self.current_color_hue = self.initial_color_hue;
    }

    /// Moves the hue on by one step and returns it; the whole strip shows it.
    pub fn update(&mut self) -> (hue: u16)
        requires
            old(self).current_hue() + old(self).step_size() <= u16::MAX,
        ensures
            hue == final(self).current_hue(),
            final(self).current_hue() == (old(self).current_hue() + old(self).step_size()) % 360,
            final(self).initial_hue() == old(self).initial_hue(),
            final(self).step_size() == old(self).step_size(),
    {
        self.current_color_hue = self.current_color_hue + self.step_size;
        self.current_color_hue = self.current_color_hue % 360;
        self.current_color_hue
    }
}

} // verus!
