use vstd::prelude::*;
use vstd::arithmetic::power2::pow2;
use crate::color::{Rgb, black, white, filled};

verus! {

/// Whether bit `k` of `v` is set, counting from the most significant bit (`k == 0`).
pub open spec fn bit_set(v: u8, k: int) -> bool {
    (v as nat / pow2((7 - k) as nat)) % 2 == 1
}

/// The sixteen SPI bytes that carry one colour channel to a WS28xx LED: each data
/// bit, most significant first, becomes two bytes, `0xFF 0x80` for a one and
/// `0xF8 0x00` for a zero.
pub open spec fn spi_channel(v: u8) -> Seq<u8> {
    Seq::new(16, |i: int|
        if bit_set(v, i / 2) {
            if i % 2 == 0 { 0xFFu8 } else { 0x80u8 }
        } else {
            if i % 2 == 0 { 0xF8u8 } else { 0x00u8 }
        })
}

/// The SPI bytes of one pixel: green, then red, then blue.
pub open spec fn spi_pixel(c: Rgb) -> Seq<u8> {
    spi_channel(c.green) + spi_channel(c.red) + spi_channel(c.blue)
}

/// The SPI bytes of a whole row of pixels, pixel after pixel.
pub open spec fn spi_pixels(colors: Seq<Rgb>) -> Seq<u8>
    decreases colors.len(),
{
    if colors.len() == 0 {
        Seq::empty()
    } else {
        spi_pixels(colors.drop_last()) + spi_pixel(colors.last())
    }
}

/// `n` black pixels.
pub open spec fn blacks(n: nat) -> Seq<Rgb> {
    Seq::new(n, |_i: int| black())
}

/// The colour a strip with pixels `pixels` shows at position `x`: black once it
/// is shut down, white beyond its end.
pub open spec fn shown_pixel(pixels: Seq<Rgb>, shut_down: bool, x: int) -> Rgb {
    if shut_down {
        black()
    } else if x >= pixels.len() {
        white()
    } else {
        pixels[x]
    }
}

/// `pixels` with position `x` set to `color`; a position beyond the end changes
/// nothing.
pub open spec fn with_pixel(pixels: Seq<Rgb>, x: int, color: Rgb) -> Seq<Rgb> {
    if 0 <= x < pixels.len() {
        pixels.update(x, color)
    } else {
        pixels
    }
}

/// `pixels` shifted one place along, with `color` entering at the front and the
/// last pixel dropped.
pub open spec fn pushed(pixels: Seq<Rgb>, color: Rgb) -> Seq<Rgb> {
    if pixels.len() == 0 {
        pixels
    } else {
        seq![color] + pixels.take(pixels.len() - 1)
    }
}

/// Calls `ws2818_rgb_led_spi_driver::encoding::encode_rgb(r, g, b)`. Its documentation
/// and the constants of its `timings` module give the result: for each of green, red
/// and blue in that order, for each bit from the most significant one, the bytes
/// `0xFF 0x80` for a one and `0xF8 0x00` for a zero; the contract claims exactly that.
#[verifier::external_body]
fn encode_rgb(r: u8, g: u8, b: u8) -> (bytes: Vec<u8>)
    ensures
        bytes@ == spi_pixel(Rgb { red: r, green: g, blue: b }),
{
    ws2818_rgb_led_spi_driver::encoding::encode_rgb(r, g, b).to_vec()
}

/// The pixel buffer of an LED strip of fixed width.
pub struct Strip {
    pixels: Vec<Rgb>,
    width: usize,
    shut_down: bool,
}

impl View for Strip {
    type V = Seq<Rgb>;

    /// The colours of the pixels, first pixel first.
    closed spec fn view(&self) -> Seq<Rgb> {
        self.pixels@
    }
}

impl Clone for Strip {
    fn clone(&self) -> (s: Strip)
        ensures
            s@ == self@,
            s.is_shut_down() == self.is_shut_down(),
    {
        proof { use_type_invariant(self); }
        let pixels = self.pixels.clone();
        assert(pixels@ =~= self.pixels@);
        Strip { pixels, width: self.width, shut_down: self.shut_down }
    }
}

impl Strip {
    #[verifier::type_invariant]
    spec fn width_matches(&self) -> bool {
        self.pixels@.len() == self.width
    }

    /// Whether the strip was shut down; it then shows black everywhere.
    pub closed spec fn is_shut_down(&self) -> bool {
        self.shut_down
    }

    /// A strip of `width` black pixels that is not shut down.
    pub fn new(width: usize) -> (s: Strip)
        ensures
            s@ == blacks(width as nat),
            !s.is_shut_down(),
    {
        Strip { pixels: filled(Rgb::black(), width), width, shut_down: false }
    }

    pub fn get_pixel_length(&self) -> (n: usize)
        ensures
            n == self@.len(),
    {
        proof { use_type_invariant(self); }
        self.pixels.len()
    }

    pub fn get_width(&self) -> (n: usize)
        ensures
            n == self@.len(),
    {
        proof { use_type_invariant(self); }
        self.width
    }

    /// Marks the strip as shut down; the pixel buffer itself is kept.
    pub fn shutdown(&mut self)
        ensures
            final(self)@ == old(self)@,
            final(self).is_shut_down(),
    {
        proof { use_type_invariant(&*self); }
        self.shut_down = true;
    }

    /// The colours the strip shows: black everywhere once it is shut down.
    pub fn get_pixels(&self) -> (v: Vec<Rgb>)
        ensures
            v@ == (if self.is_shut_down() { blacks(self@.len()) } else { self@ }),
    {
        proof { use_type_invariant(self); }
        if self.shut_down {
            filled(Rgb::black(), self.width)
        } else {
            self.pixels.clone()
        }
    }

    /// Sets every pixel to black.
    pub fn reset(&mut self)
        ensures
            final(self)@ == blacks(old(self)@.len()),
            final(self).is_shut_down() == old(self).is_shut_down(),
    {
        proof { use_type_invariant(&*self); }
        self.pixels = filled(Rgb::black(), self.width);
    }

    /// Sets every pixel to `color`.
    pub fn set_all(&mut self, color: Rgb)
        ensures
            final(self)@ == Seq::new(old(self)@.len(), |_i: int| color),
            final(self).is_shut_down() == old(self).is_shut_down(),
    {
        proof { use_type_invariant(&*self); }
        self.pixels = filled(color, self.width);
    }

    /// Sets pixel `x` to `color`; a position beyond the strip is ignored.
    pub fn set_pixel(&mut self, x: usize, color: Rgb)
        ensures
            final(self)@ == with_pixel(old(self)@, x as int, color),
            final(self).is_shut_down() == old(self).is_shut_down(),
    {
        proof { use_type_invariant(&*self); }
        if x >= self.width {
            return;
        }
        let mut pixels = self.pixels.clone();
        pixels.set(x, color);
        self.pixels = pixels;
    }

    /// The colour shown at `x`: black once shut down, white beyond the strip.
    pub fn get_pixel(&self, x: usize) -> (c: Rgb)
        ensures
            c == shown_pixel(self@, self.is_shut_down(), x as int),
    {
        proof { use_type_invariant(self); }
        if self.shut_down {
            return Rgb::black();
        }
        if x >= self.width {
            return Rgb::white();
        }
        self.pixels[x]
    }

    /// Shifts every pixel one place along the strip and puts `color` first; the
    /// last pixel falls off the end.
    pub fn push_pixel(&mut self, color: Rgb)
        ensures
            final(self)@ == pushed(old(self)@, color),
            final(self).is_shut_down() == old(self).is_shut_down(),
    {
        proof { use_type_invariant(&*self); }
        let mut pixels = self.pixels.clone();
        pixels.insert(0, color);
        let last = pixels.len() - 1;
        pixels.remove(last);
        assert(pixels@ =~= pushed(old(self)@, color));
        self.pixels = pixels;
    }

    /// The SPI bytes that make the strip show `shown`, which holds the strip's
    /// pixels with the brightness already applied; all black once the strip is
    /// shut down.
    pub fn get_led_stip_pixels(&self, shown: &Vec<Rgb>) -> (bytes: Vec<u8>)
        requires
            shown@.len() == self@.len(),
        ensures
            bytes@ == spi_pixels(if self.is_shut_down() { blacks(self@.len()) } else { shown@ }),
    {
        proof { use_type_invariant(self); }
        let ghost target = if self.shut_down { blacks(self@.len()) } else { shown@ };
        let mut bytes: Vec<u8> = Vec::new();
        let mut i: usize = 0;
        while i < shown.len()
            invariant
                i <= shown@.len(),
                target.len() == shown@.len(),
                target == (if self.shut_down { blacks(shown@.len()) } else { shown@ }),
                bytes@ == spi_pixels(target.take(i as int)),
            decreases shown@.len() - i,
        {
            let encoded = if self.shut_down {
                encode_rgb(0, 0, 0)
            } else {
                let c = shown[i];
                encode_rgb(c.red, c.green, c.blue)
            };
            let mut k: usize = 0;
            let ghost before = bytes@;
            while k < encoded.len()
                invariant
                    k <= encoded@.len(),
                    bytes@ == before + encoded@.take(k as int),
                decreases encoded@.len() - k,
            {
                bytes.push(encoded[k]);
                k = k + 1;
                assert(encoded@.take(k as int) == encoded@.take(k - 1) + seq![encoded@[k - 1]]);
            }
            assert(encoded@.take(k as int) == encoded@);
            assert(target.take(i + 1).drop_last() == target.take(i as int));
            assert(encoded@ == spi_pixel(target[i as int]));
            i = i + 1;
        }
        assert(target.take(i as int) == target);
        bytes
    }
}

/// What is written to a pixel of a running strip is read back there, and no
/// other pixel changes.
pub proof fn law_read_after_write(pixels: Seq<Rgb>, x: usize, color: Rgb, y: usize)
    requires
        x < pixels.len(),
    ensures
        shown_pixel(with_pixel(pixels, x as int, color), false, x as int) == color,
        y != x ==> shown_pixel(with_pixel(pixels, x as int, color), false, y as int)
            == shown_pixel(pixels, false, y as int),
{
}

/// No operation on the pixels changes how many there are.
pub proof fn law_length_kept(pixels: Seq<Rgb>, x: int, color: Rgb)
    ensures
        with_pixel(pixels, x, color).len() == pixels.len(),
        pushed(pixels, color).len() == pixels.len(),
        blacks(pixels.len()).len() == pixels.len(),
{
}

/// Pushing a colour puts it first and moves every other pixel one place along.
pub proof fn law_push_shifts(pixels: Seq<Rgb>, color: Rgb, i: int)
    requires
        pixels.len() > 0,
        0 <= i < pixels.len() - 1,
    ensures
        pushed(pixels, color)[0] == color,
        pushed(pixels, color)[i + 1] == pixels[i],
{
}

/// A shut-down strip shows black everywhere, whatever its pixels hold.
pub proof fn law_shut_down_is_dark(pixels: Seq<Rgb>, x: int)
    ensures
        shown_pixel(pixels, true, x) == black(),
{
}

/// Every pixel takes the same number of SPI bytes: 48.
pub proof fn law_spi_length(colors: Seq<Rgb>)
    ensures
        spi_pixels(colors).len() == 48 * colors.len(),
    decreases colors.len(),
{
    if colors.len() > 0 {
        law_spi_length(colors.drop_last());
    }
}

/// The SPI bytes of a row are those of its first part followed by those of the
/// rest: each pixel is encoded on its own.
pub proof fn law_spi_concatenates(a: Seq<Rgb>, b: Seq<Rgb>)
    ensures
        spi_pixels(a + b) == spi_pixels(a) + spi_pixels(b),
    decreases b.len(),
{
    if b.len() == 0 {
        assert(a + b =~= a);
        assert(spi_pixels(a) + spi_pixels(b) =~= spi_pixels(a));
    } else {
        law_spi_concatenates(a, b.drop_last());
        assert((a + b).drop_last() =~= a + b.drop_last());
        assert(spi_pixels(a) + spi_pixels(b) =~= spi_pixels(a) + spi_pixels(b.drop_last()) + spi_pixel(b.last()));
    }
}

} // verus!
