//! PWM banks: four sets of four GPIO pins, each with its own timer.
use vstd::prelude::*;

use crate::bus::MatrixBus;
use crate::codec::LeBytes;
use crate::Error;

verus! {

/// The register offset of bank `i`'s timer block: four past the GPIO base,
/// six registers per bank.
pub open spec fn bank_offset(i: int) -> int {
    crate::bus::GPIO + 4 + 6 * i
}

/// Configures the PWM of one bank of four pins.
///
/// Bank 0 holds pins 0 to 3, bank 1 pins 4 to 7, bank 2 pins 8 to 11 and
/// bank 3 pins 12 to 15.
pub struct Bank<'a, B: MatrixBus> {
    bus: &'a B,
    /// FPGA memory offset of the bank's timer block.
    pub memory_offset: u16,
    pub timer_setup: u16,
}

impl<'a, B: MatrixBus> Bank<'a, B> {
    pub closed spec fn spec_memory_offset(&self) -> u16 {
        self.memory_offset
    }

    pub closed spec fn spec_timer_setup(&self) -> u16 {
        self.timer_setup
    }

    /// A bank at offset 0.
    pub fn new(bus: &'a B) -> (r: Bank<'a, B>)
        ensures
            r.spec_memory_offset() == 0,
            r.spec_timer_setup() == 0,
    {
        Bank { bus, memory_offset: 0x0, timer_setup: 0x0 }
    }

    /// The four banks of a MATRIX device, each at its own offset.
    pub fn new_set(bus: &'a B) -> (r: [Bank<'a, B>; 4])
        ensures
            forall|i: int| 0 <= i < 4 ==> #[trigger] r[i].spec_memory_offset() == bank_offset(i),
            forall|i: int| 0 <= i < 4 ==> #[trigger] r[i].spec_timer_setup() == 0,
    {
        let mut gpio_base_address: u16 = crate::bus::GPIO + 4;
        let mut b0 = Bank::new(bus);
        b0.memory_offset = gpio_base_address;
        gpio_base_address = gpio_base_address + 6;
        let mut b1 = Bank::new(bus);
        b1.memory_offset = gpio_base_address;
        gpio_base_address = gpio_base_address + 6;
        let mut b2 = Bank::new(bus);
        b2.memory_offset = gpio_base_address;
        gpio_base_address = gpio_base_address + 6;
        let mut b3 = Bank::new(bus);
        b3.memory_offset = gpio_base_address;
        [b0, b1, b2, b3]
    }

    /// Sets the PWM period: writes `period` to the register after the bank's
    /// offset. A failed bus write is returned.
    pub fn set_period(&self, period: u16) -> (r: Result<(), Error>)
        requires
            self.spec_memory_offset() + 1 <= u16::MAX,
    {
        self.bus_write(self.memory_offset + 1, period)
    }

    /// Sets the PWM duty cycle of `channel` (0 to 3): writes `duty` to the
    /// register `2 + channel` past the bank's offset. A failed bus write is
    /// returned.
    pub fn set_duty(&self, channel: u16, duty: u16) -> (r: Result<(), Error>)
        requires
            self.spec_memory_offset() + 2 + channel <= u16::MAX,
    {
        self.bus_write(self.memory_offset + 2 + channel, duty)
    }

    fn bus_write(&self, memory_offset: u16, timer_setup: u16) -> (r: Result<(), Error>) {
        let buffer = timer_setup.le_bytes();
        self.bus.write(memory_offset, buffer.as_slice())
    }
}

} // verus!
