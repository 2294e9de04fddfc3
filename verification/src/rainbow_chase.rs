use vstd::prelude::*;

verus! {

/// Bands of colour that run along a strip of `width` pixels: every frame one
/// pixel of the current hue enters the strip, and after `width` pixels the hue
/// moves on by `step_size` degrees. The library keeps the hues; the caller
/// paints them.
pub struct RainbowChase {
    initial_color_hue: u16,
    step_size: u16,
    current_color_hue: u16,
    current_color_step: u32,
    width: u32,
}

impl RainbowChase {
    pub closed spec fn initial_hue(&self) -> u16 {
        self.initial_color_hue
    }

    pub closed spec fn step_size(&self) -> u16 {
        self.step_size
    }

    pub closed spec fn current_hue(&self) -> u16 {
        self.current_color_hue
    }

    /// How many pixels of the current hue have entered the strip.
    pub closed spec fn current_step(&self) -> u32 {
        self.current_color_step
    }

    pub closed spec fn width(&self) -> u32 {
        self.width
    }

    pub fn new(initial_color_hue: u16, step_size: u16, width: u32) -> (r: RainbowChase)
        ensures
            r.initial_hue() == initial_color_hue,
            r.step_size() == step_size,
            r.current_hue() == initial_color_hue,
            r.current_step() == 0,
            r.width() == width,
    {
        RainbowChase {
            initial_color_hue,
            step_size,
            current_color_hue: initial_color_hue,
            current_color_step: 0,
            width,
        }
    }

    /// Starts over: returns the initial hue, which the whole strip shows, and
    /// makes the next hue the current one.
    pub fn initialize(&mut self) -> (fill_hue: u16)
        requires
            old(self).initial_hue() + old(self).step_size() <= u16::MAX,
        ensures
            fill_hue == old(self).initial_hue(),
            final(self).current_hue() == (old(self).initial_hue() + old(self).step_size()) % 360,
            final(self).current_step() == 0,
            final(self).initial_hue() == old(self).initial_hue(),
            final(self).step_size() == old(self).step_size(),
            final(self).width() == old(self).width(),
    {
        self.current_color_hue = (self.initial_color_hue + self.step_size) % 360;
        self.current_color_step = 0;
        self.initial_color_hue
    }

    /// One frame: returns the hue of the pixel that enters the strip; after
    /// `width` pixels of one hue the hue moves on first.
    pub fn update(&mut self) -> (hue: u16)
        requires
            old(self).current_step() == old(self).width() ==> old(self).current_hue() + old(self).step_size() <= u16::MAX,
            old(self).current_step() != old(self).width() ==> old(self).current_step() < u32::MAX,
        ensures
            hue == final(self).current_hue(),
            old(self).current_step() == old(self).width() ==> {
                &&& final(self).current_hue() == (old(self).current_hue() + old(self).step_size()) % 360
                &&& final(self).current_step() == 1
            },
            old(self).current_step() != old(self).width() ==> {
                &&& final(self).current_hue() == old(self).current_hue()
                &&& final(self).current_step() == old(self).current_step() + 1
            },
            final(self).initial_hue() == old(self).initial_hue(),
            final(self).step_size() == old(self).step_size(),
            final(self).width() == old(self).width(),
    {
        if self.current_color_step == self.width {
            self.current_color_hue = (self.current_color_hue + self.step_size) % 360;
            self.current_color_step = 0;
        }
        self.current_color_step = self.current_color_step + 1;
        self.current_color_hue
    }
}

} // verus!
