//! The ring of LEDs of a MATRIX device.
use vstd::prelude::*;

pub mod led;

pub use led::Rgbw;

use crate::bus::MatrixBus;
use crate::Error;

verus! {

/// The frame sent to a ring of `device_leds` LEDs to show `leds`: four
/// bytes per LED, the LEDs past the given ones black.
pub open spec fn led_frame_spec(leds: Seq<Rgbw>, device_leds: nat) -> Seq<u8> {
    Seq::new(
        4 * device_leds,
        |j: int|
            if j / 4 < leds.len() {
                led::rgbw_bytes(leds[j / 4])[j % 4]
            } else {
                0u8
            },
    )
}

/// The frame for a ring of `device_leds` LEDs that shows `leds` on its
/// first LEDs and leaves the others black.
pub fn led_frame(leds: &[Rgbw], device_leds: u8) -> (r: Vec<u8>)
    requires
        leds@.len() <= device_leds,
    ensures
        r@ == led_frame_spec(leds@, device_leds as nat),
{
    let n: usize = device_leds as usize;
    let mut r: Vec<u8> = Vec::with_capacity(4 * n);
    let mut i: usize = 0;
    while i < n
        invariant
            n == device_leds,
            leds@.len() <= n,
            i <= n,
            r@.len() == 4 * i,
            forall|j: int| 0 <= j < 4 * i ==> #[trigger] r@[j] == led_frame_spec(leds@, n as nat)[j],
        decreases n - i,
    {
        let c = if i < leds.len() {
            leds[i]
        } else {
            Rgbw::black()
        };
        let mut b = c.to_bytes();
        r.append(&mut b);
        proof {
            assert forall|j: int| 4 * i <= j < 4 * i + 4 implies #[trigger] r@[j] == led_frame_spec(
                leds@,
                n as nat,
            )[j] by {
                assert(j / 4 == i);
                assert(j % 4 == j - 4 * i);
            }
        }
        i = i + 1;
    }
    proof {
        assert(r@ =~= led_frame_spec(leds@, n as nat));
    }
    r
}

/// Controls the ring of LEDs of a MATRIX device.
pub struct Everloop<'a, B: MatrixBus> {
    bus: &'a B,
}

impl<'a, B: MatrixBus> Everloop<'a, B> {
    /// The LED ring on `bus`.
    pub fn new(bus: &'a B) -> (r: Everloop<'a, B>) {
        Everloop { bus }
    }

    /// Shows `leds` on the first LEDs of the ring and turns the others off,
    /// in one write of the whole frame (`led_frame`). More colours than the
    /// device has LEDs are refused with `InvalidInput`, and nothing is
    /// written; a failed bus write is returned.
    pub fn set(&self, leds: &[Rgbw]) -> (r: Result<(), Error>) {
        let device_leds = self.bus.device_leds();
        if leds.len() > device_leds as usize {
            return Err(Error::InvalidInput);
        }
        self.write_frame(leds, device_leds)
    }

    /// Shows `color` on every LED of the ring. A failed bus write is
    /// returned.
    pub fn set_all(&self, color: Rgbw) -> (r: Result<(), Error>) {
        let device_leds = self.bus.device_leds();
        let leds: Vec<Rgbw> = vec![color; device_leds as usize];
        self.write_frame(leds.as_slice(), device_leds)
    }

    fn write_frame(&self, leds: &[Rgbw], device_leds: u8) -> (r: Result<(), Error>)
        requires
            leds@.len() <= device_leds,
    {
        let request = led_frame(leds, device_leds);
        self.bus.write(crate::bus::EVERLOOP, request.as_slice())
    }
}

} // verus!
