use vstd::prelude::*;

verus! {

/// The whole colour wheel spread over the strip, turning by `step_size` degrees
/// a frame. The library keeps the turning; the colours along the strip are
/// computed from the hue it gives.
pub struct FullRainbow {
    offset: u32,
    step_size: u32,
}

impl FullRainbow {
    /// The hue, in degrees, of the first pixel.
    pub closed spec fn offset(&self) -> u32 {
        self.offset
    }

    /// How many degrees the wheel turns per frame.
    pub closed spec fn step_size(&self) -> u32 {
        self.step_size
    }

    pub fn new(step_size: u32) -> (r: FullRainbow)
        ensures
            r.offset() == 0,
            r.step_size() == step_size,
    {
        FullRainbow { offset: 0, step_size }
    }

    /// Turns the wheel back to hue 0.
    pub fn initialize(&mut self)
        ensures
            final(self).offset() == 0,
            final(self).step_size() == old(self).step_size(),
    {
        self.offset = 0;
    }

    /// Whether the next step can be taken without overflowing the hue counter.
    pub fn can_update(&self) -> (r: bool)
        ensures
            r == (self.offset() + self.step_size() <= u32::MAX),
    {
        self.step_size <= u32::MAX - self.offset
    }

    /// Turns the wheel by one step and returns the hue of the first pixel.
    pub fn update(&mut self) -> (hue: u32)
        requires
            old(self).offset() + old(self).step_size() <= u32::MAX,
        ensures
            hue == final(self).offset(),
            final(self).offset() == (old(self).offset() + old(self).step_size()) % 360,
            final(self).step_size() == old(self).step_size(),
    {
        self.offset = self.offset + self.step_size;
        self.offset = self.offset % 360;
        self.offset
    }
}

} // verus!
