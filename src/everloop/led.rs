//! The colour of one LED.
use vstd::prelude::*;

verus! {

/// The colours of a single LED.
#[derive(Clone, Copy, Debug, PartialEq, Eq, Structural)]
pub struct Rgbw {
    pub r: u8,
    pub g: u8,
    pub b: u8,
    pub w: u8,
}

/// The bytes an LED's colour is sent as: red, green, blue, white.
pub open spec fn rgbw_bytes(c: Rgbw) -> Seq<u8> {
    seq![c.r, c.g, c.b, c.w]
}

/// The `i32` whose big-endian bytes are red, green, blue, white.
pub open spec fn rgbw_word(c: Rgbw) -> i32 {
    let v = c.r * 16777216 + c.g * 65536 + c.b * 256 + c.w;
    if v >= 0x8000_0000 {
        (v - 0x1_0000_0000) as i32
    } else {
        v as i32
    }
}

impl Rgbw {
    /// An LED colour from its four components.
    pub fn new(r: u8, g: u8, b: u8, w: u8) -> (c: Rgbw)
        ensures
            c == (Rgbw { r, g, b, w }),
    {
        Rgbw { r, g, b, w }
    }

    /// All components at 0.
    pub fn black() -> (c: Self)
        ensures
            c == (Rgbw { r: 0, g: 0, b: 0, w: 0 }),
    {
        Self::new(0, 0, 0, 0)
    }

    /// All components at their maximum.
    pub fn white() -> (c: Self)
        ensures
            c == (Rgbw { r: 255, g: 255, b: 255, w: 255 }),
    {
        Self::new(255, 255, 255, 255)
    }

    /// The colour as one word: red in the most significant byte, then
    /// green, blue and white.
    pub fn as_bytes(self) -> (v: i32)
        ensures
            v == rgbw_word(self),
    {
        let v: u32 = self.r as u32 * 16777216 + self.g as u32 * 65536 + self.b as u32 * 256
            + self.w as u32;
        if v >= 0x8000_0000 {
            (v as i64 - 0x1_0000_0000) as i32
        } else {
            v as i32
        }
    }

    /// The bytes the colour is sent as: red, green, blue, white.
    pub fn to_bytes(self) -> (r: Vec<u8>)
        ensures
            r@ == rgbw_bytes(self),
    {
        let r = vec![self.r, self.g, self.b, self.w];
        assert(r@ =~= rgbw_bytes(self));
        r
    }
}

} // verus!
