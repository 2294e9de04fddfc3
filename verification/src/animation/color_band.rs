use vstd::prelude::*;

verus! {

/// Counts the pixels of one colour that have entered a chase: once a whole
/// strip's length of them has entered, the colour moves on and the count starts
/// again.
pub struct ColorBand {
    current_color_step: u32,
}

impl ColorBand {
    /// How many pixels of the current colour have entered the strip.
    pub closed spec fn count(&self) -> u32 {
        self.current_color_step
    }

    pub fn new() -> (b: ColorBand)
        ensures
            b.count() == 0,
    {
        ColorBand { current_color_step: 0 }
    }

    /// Starts the count again.
    pub fn reset(&mut self)
        ensures
            final(self).count() == 0,
    {
        self.current_color_step = 0;
    }

    /// Whether `advance` can count one more pixel on a strip of `pixel_length`
    /// pixels without overflowing.
    pub fn can_advance(&self, pixel_length: u32) -> (r: bool)
        ensures
            r == (self.count() == pixel_length || self.count() < u32::MAX),
    {
        self.current_color_step == pixel_length || self.current_color_step < u32::MAX
    }

    /// One pixel enters a strip of `pixel_length` pixels. Returns whether the
    /// colour moves on first, which it does once the band fills the strip; the
    /// new pixel then starts the next band.
    pub fn advance(&mut self, pixel_length: u32) -> (next_color: bool)
        requires
            old(self).count() == pixel_length || old(self).count() < u32::MAX,
        ensures
            next_color == (old(self).count() == pixel_length),
            final(self).count() == if next_color { 1 } else { old(self).count() + 1 },
    {
        let next_color = self.current_color_step == pixel_length;
        if next_color {
            self.current_color_step = 0;
        }
        self.current_color_step = self.current_color_step + 1;
        next_color
    }
}

} // verus!
