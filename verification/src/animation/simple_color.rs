use vstd::prelude::*;
use crate::color::Rgb;
use crate::strip::Strip;
use crate::text::{split, split_on, views, to_chars, parse_decimal, parse_unsigned};

verus! {

/// Why a colour message was refused; `code` gives the number that is reported.
#[derive(Clone, Copy, Debug, PartialEq, Eq, Structural)]
pub enum ColorFormatError {
    /// The payload is not three values separated by `/`.
    WrongPartCount,
    /// The red value is not a number from 0 to 255.
    InvalidRed,
    /// The green value is not a number from 0 to 255.
    InvalidGreen,
    /// The blue value is not a number from 0 to 255.
    InvalidBlue,
}

impl ColorFormatError {
    /// The number by which the error is reported.
    pub fn code(&self) -> (c: u8)
        ensures
            c == match *self {
                ColorFormatError::WrongPartCount => 0u8,
                ColorFormatError::InvalidRed => 1u8,
                ColorFormatError::InvalidGreen => 2u8,
                ColorFormatError::InvalidBlue => 3u8,
            },
    {
        match self {
            ColorFormatError::WrongPartCount => 0,
            ColorFormatError::InvalidRed => 1,
            ColorFormatError::InvalidGreen => 2,
            ColorFormatError::InvalidBlue => 3,
        }
    }
}

/// The colour that a payload `r/g/b` names, each value a decimal number from 0
/// to 255, or the first thing wrong with it.
pub open spec fn slash_color(payload: Seq<char>) -> Result<Rgb, ColorFormatError> {
    let parts = split_on(payload, '/');
    if parts.len() != 3 {
        Err(ColorFormatError::WrongPartCount)
    } else if parse_unsigned(parts[0], 255) is None {
        Err(ColorFormatError::InvalidRed)
    } else if parse_unsigned(parts[1], 255) is None {
        Err(ColorFormatError::InvalidGreen)
    } else if parse_unsigned(parts[2], 255) is None {
        Err(ColorFormatError::InvalidBlue)
    } else {
        Ok(Rgb {
            red: parse_unsigned(parts[0], 255)->0 as u8,
            green: parse_unsigned(parts[1], 255)->0 as u8,
            blue: parse_unsigned(parts[2], 255)->0 as u8,
        })
    }
}

/// Parses one colour value, a decimal number from 0 to 255.
pub fn parse_channel(s: &Vec<char>) -> (r: Option<u8>)
    ensures
        r matches Some(v) ==> parse_unsigned(s@, 255) == Some(v as nat),
        r is None ==> parse_unsigned(s@, 255) is None,
{
    match parse_decimal(s, 255) {
        Some(v) => Some(v as u8),
        None => None,
    }
}

/// The whole strip in one colour, which messages can change.
pub struct SimpleColor {
    color: Rgb,
}

impl SimpleColor {
    /// The colour shown.
    pub closed spec fn color(&self) -> Rgb {
        self.color
    }

    pub fn new(color: Rgb) -> (s: SimpleColor)
        ensures
            s.color() == color,
    {
        SimpleColor { color }
    }

    /// Paints the whole strip in the colour.
    pub fn initialize(&self, strip: &mut Strip)
        ensures
            final(strip)@ == Seq::new(old(strip)@.len(), |_i: int| self.color()),
            final(strip).is_shut_down() == old(strip).is_shut_down(),
    {
        strip.set_all(self.color);
    }

    /// Takes the colour from a payload `r/g/b`; a payload in any other form is
    /// refused with the reason, and the colour stays.
    pub fn on_message(&mut self, payload: &str) -> (r: Result<(), ColorFormatError>)
        ensures
            match slash_color(payload@) {
                Ok(c) => r is Ok && final(self).color() == c,
                Err(e) => r == Err::<(), ColorFormatError>(e) && final(self).color() == old(self).color(),
            },
    {
        let body = to_chars(payload);
        let color_rgb = split(&body, '/');
        assert(views(color_rgb@).len() == color_rgb@.len());
        if color_rgb.len() != 3 {
            return Err(ColorFormatError::WrongPartCount);
        }
        assert(views(color_rgb@)[0] == color_rgb@[0]@);
        assert(views(color_rgb@)[1] == color_rgb@[1]@);
        assert(views(color_rgb@)[2] == color_rgb@[2]@);
        let r = match parse_channel(&color_rgb[0]) {
            Some(v) => v,
            None => return Err(ColorFormatError::InvalidRed),
        };
        let g = match parse_channel(&color_rgb[1]) {
            Some(v) => v,
            None => return Err(ColorFormatError::InvalidGreen),
        };
        let b = match parse_channel(&color_rgb[2]) {
            Some(v) => v,
            None => return Err(ColorFormatError::InvalidBlue),
        };
        self.color = Rgb::new(r, g, b);
        Ok(())
    }
}

} // verus!
