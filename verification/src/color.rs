use vstd::prelude::*;

verus! {

/// An 8-bit-per-channel RGB colour.
#[derive(Clone, Copy, Debug, PartialEq, Eq, Structural)]
pub struct Rgb {
    pub red: u8,
    pub green: u8,
    pub blue: u8,
}

/// The colour of a pixel that is switched off.
pub open spec fn black() -> Rgb {
    Rgb { red: 0, green: 0, blue: 0 }
}

/// The colour that is reported for positions outside the strip.
pub open spec fn white() -> Rgb {
    Rgb { red: 255, green: 255, blue: 255 }
}

impl Rgb {
    pub fn new(red: u8, green: u8, blue: u8) -> (c: Rgb)
        ensures
            c == (Rgb { red, green, blue }),
    {
        Rgb { red, green, blue }
    }

    pub fn black() -> (c: Rgb)
        ensures
            c == black(),
    {
        Rgb { red: 0, green: 0, blue: 0 }
    }

    pub fn white() -> (c: Rgb)
        ensures
            c == white(),
    {
        Rgb { red: 255, green: 255, blue: 255 }
    }
}

/// A vector of `n` copies of `color`.
pub fn filled(color: Rgb, n: usize) -> (v: Vec<Rgb>)
    ensures
        v@ == Seq::new(n as nat, |_i: int| color),
{
    let mut v: Vec<Rgb> = Vec::new();
    let mut i: usize = 0;
    while i < n
        invariant
            i <= n,
            v@ == Seq::new(i as nat, |_i: int| color),
        decreases n - i,
    {
        v.push(color);
        i = i + 1;
    }
    v
}

} // verus!
