//! The 16 GPIO pins of a MATRIX device, with their PWM banks.
use vstd::prelude::*;

pub mod bank;
pub mod config;

pub use bank::Bank;
pub use config::{Function, Mode, PinConfig, State};

use crate::bus::MatrixBus;
use crate::codec;
use crate::codec::LeBytes;
use crate::error::Error;

verus! {

/// Number of GPIO pins.
pub const NUM_PINS: u8 = 16;

/// Bit `pin` of `pin_map` is set.
pub open spec fn pin_bit(pin_map: u16, pin: u8) -> bool {
    (pin_map >> (pin as u16)) & 1u16 == 1u16
}

/// `pin_map` with bits `4 * bank` to `4 * bank + 3` set to `prescaler`.
pub open spec fn bank_prescaler(bank: usize, prescaler: u16, pin_map: u16) -> u16 {
    ((prescaler << (4 * bank) as u16) | (pin_map & !(0xFu16 << (4 * bank) as u16))) as u16
}

/// `pin_map` after setting each pin of `pins`, in order, to `config`.
pub open spec fn pins_config(pins: Seq<u8>, config: u16, pin_map: u16) -> u16
    decreases pins.len(),
{
    if pins.len() == 0 {
        pin_map
    } else {
        config::pin_config(pins.last(), config, pins_config(pins.drop_last(), config, pin_map))
    }
}

/// Whether bit `pin` of `pin_map`, a word of pin states, is set.
pub fn pin_state(pin_map: u16, pin: u8) -> (r: bool)
    requires
        pin < 16,
    ensures
        r == pin_bit(pin_map, pin),
{
    let state: u16 = (pin_map >> (pin as u16)) & 1u16;
    state == 1
}

/// The state of each of the 16 pins in `pin_map`.
pub fn pin_states(pin_map: u16) -> (r: [bool; 16])
    ensures
        forall|i: int| 0 <= i < 16 ==> #[trigger] r[i] == pin_bit(pin_map, i as u8),
{
    let mut pins: [bool; 16] = [false; 16];
    let mut i: u8 = 0;
    while i < 16
        invariant
            i <= 16,
            forall|k: int| 0 <= k < i ==> #[trigger] pins[k] == pin_bit(pin_map, k as u8),
        decreases 16 - i,
    {
        pins[i as usize] = pin_state(pin_map, i);
        i = i + 1;
    }
    pins
}

/// Controls the GPIO pins of a MATRIX device.
pub struct Gpio<'a, B: MatrixBus> {
    bus: &'a B,
    /// Current mode of each pin, one bit per pin.
    mode_pin_map: u16,
    /// Current state of each pin, one bit per pin.
    state_pin_map: u16,
    /// Current function of each pin, one bit per pin.
    function_pin_map: u16,
    /// Current prescaler of each bank, four bits per bank.
    prescaler_bank_map: u16,
    /// The four banks of four pins that configure PWM.
    banks: [Bank<'a, B>; 4],
}

impl<'a, B: MatrixBus> Gpio<'a, B> {
    /// The map kept for the setting register at `offset` from the GPIO base:
    /// modes at 0, states at 1, functions at 2, bank prescalers at 3.
    pub closed spec fn pin_map(&self, offset: u16) -> u16 {
        if offset == 0 {
            self.mode_pin_map
        } else if offset == 1 {
            self.state_pin_map
        } else if offset == 2 {
            self.function_pin_map
        } else {
            self.prescaler_bank_map
        }
    }

    /// GPIO control with every pin map cleared and the four PWM banks at
    /// their offsets.
    pub fn new(bus: &'a B) -> (r: Gpio<'a, B>)
        ensures
            forall|offset: u16| #[trigger] r.pin_map(offset) == 0,
    {
        Gpio {
            bus,
            mode_pin_map: 0x0,
            state_pin_map: 0x0,
            function_pin_map: 0x0,
            prescaler_bank_map: 0x0,
            banks: Bank::new_set(bus),
        }
    }

    /// Pins 0 to 15 exist; any other is refused with `InvalidGpioPin`.
    pub fn is_pin_valid(pin: u8) -> (r: Result<(), Error>)
        ensures
            pin < 16 ==> r is Ok,
            pin >= 16 ==> r == Err::<(), Error>(Error::InvalidGpioPin),
    {
        if pin > 15 {
            return Err(Error::InvalidGpioPin);
        }
        Ok(())
    }

    /// The bus these pins are reached through.
    pub fn bus(&self) -> (r: &'a B) {
        self.bus
    }

    /// The four PWM banks.
    pub fn banks(&self) -> (r: &[Bank<'a, B>; 4]) {
        &self.banks
    }

    /// The mode of each pin, one bit per pin.
    pub fn mode_pin_map(&self) -> (r: u16)
        ensures
            r == self.pin_map(0),
    {
        self.mode_pin_map
    }

    /// The state of each pin, one bit per pin.
    pub fn state_pin_map(&self) -> (r: u16)
        ensures
            r == self.pin_map(1),
    {
        self.state_pin_map
    }

    /// The function of each pin, one bit per pin.
    pub fn function_pin_map(&self) -> (r: u16)
        ensures
            r == self.pin_map(2),
    {
        self.function_pin_map
    }

    /// The prescaler of each bank, four bits per bank.
    pub fn prescaler_bank_map(&self) -> (r: u16)
        ensures
            r == self.pin_map(3),
    {
        self.prescaler_bank_map
    }

    /// The current digital value of `pin`, read from the device: bit `pin`
    /// of the word of pin states (see `pin_state`). A failed bus read is
    /// returned.
    pub fn get_state(&self, pin: u8) -> (r: Result<bool, Error>)
        requires
            pin < 16,
    {
        let word = self.bus_read(1)?;
        Ok(pin_state(word, pin))
    }

    /// The current digital value of every pin, read from the device in one
    /// word of pin states (see `pin_states`). A failed bus read is returned.
    pub fn get_states(&self) -> (r: Result<[bool; 16], Error>) {
        let word = self.bus_read(1)?;
        Ok(pin_states(word))
    }

    fn bus_read(&self, address_offset: u16) -> (r: Result<u16, Error>)
        requires
            address_offset <= 3,
    {
        let mut buffer: Vec<u8> = vec![0u8; 2];
        self.bus.read(crate::bus::GPIO + address_offset, buffer.as_mut_slice())?;
        Ok(codec::read_u16_le(buffer.as_slice(), 0))
    }

    fn bus_write(&self, value: u16, address_offset: u16) -> (r: Result<(), Error>)
        requires
            address_offset <= 3,
    {
        let buffer = value.le_bytes();
        self.bus.write(crate::bus::GPIO + address_offset, buffer.as_slice())
    }

    fn store_pin_map(&mut self, offset: u16, value: u16)
        requires
            offset <= 2,
        ensures
            final(self).pin_map(offset) == value,
            forall|o: u16| o != offset && o <= 3 ==> #[trigger] final(self).pin_map(o) == old(
                self,
            ).pin_map(o),
    {
        if offset == 0 {
            self.mode_pin_map = value;
        } else if offset == 1 {
            self.state_pin_map = value;
        } else {
            self.function_pin_map = value;
        }
    }

    /// Sets `pin`'s mode, state or function: writes the updated map to its
    /// register and keeps it. A pin past 15 is refused with `InvalidGpioPin`;
    /// a failed bus write is returned; either way the maps stay as they were.
    pub fn set_config<T: PinConfig>(&mut self, pin: u8, config: T) -> (r: Result<(), Error>)
        ensures
            pin >= 16 ==> r == Err::<(), Error>(Error::InvalidGpioPin),
            r is Ok ==> pin < 16,
            forall|o: u16| #![trigger final(self).pin_map(o)]
                o <= 3 ==> final(self).pin_map(o) == if r is Ok && o == config.spec_offset() {
                    config::pin_config(pin, config.spec_value(), old(self).pin_map(o))
                } else {
                    old(self).pin_map(o)
                },
    {
        proof {
            config.lemma_bounds();
        }
        Gpio::<B>::is_pin_valid(pin)?;
        let (value, fpga_address_offset) = config.update_pin_map(pin, self)?;
        self.bus_write(value, fpga_address_offset)?;
        self.store_pin_map(fpga_address_offset, value);
        Ok(())
    }

    /// Sets each pin of `pins`, in order, to `config` (see `set_config`).
    /// At the first pin past 15 it stops with `InvalidGpioPin`, and at the
    /// first failed bus write with its error, the pins before it set.
    pub fn set_configs<T: PinConfig>(&mut self, pins: &[u8], config: T) -> (r: Result<(), Error>)
        ensures
            !(forall|i: int| 0 <= i < pins@.len() ==> #[trigger] pins@[i] < 16) ==> r is Err,
            r is Ok ==> forall|i: int| 0 <= i < pins@.len() ==> #[trigger] pins@[i] < 16,
            r is Ok ==> forall|o: u16| #![trigger final(self).pin_map(o)]
                o <= 3 ==> final(self).pin_map(o) == if o == config.spec_offset() {
                    pins_config(pins@, config.spec_value(), old(self).pin_map(o))
                } else {
                    old(self).pin_map(o)
                },
    {
        proof {
            config.lemma_bounds();
        }
        let mut i: usize = 0;
        while i < pins.len()
            invariant
                i <= pins@.len(),
                forall|k: int| 0 <= k < i ==> #[trigger] pins@[k] < 16,
                config.spec_offset() <= 2,
                config.spec_value() <= 1,
                forall|o: u16| #![trigger self.pin_map(o)]
                    o <= 3 ==> self.pin_map(o) == if o == config.spec_offset() {
                        pins_config(pins@.subrange(0, i as int), config.spec_value(), old(self).pin_map(o))
                    } else {
                        old(self).pin_map(o)
                    },
            decreases pins@.len() - i,
        {
            let pin = pins[i];
            if pin > 15 {
                return Err(Error::InvalidGpioPin);
            }
            let (value, fpga_address_offset) = config.update_pin_map(pin, self)?;
            self.bus_write(value, fpga_address_offset)?;
            self.store_pin_map(fpga_address_offset, value);
            proof {
                let t = pins@.subrange(0, i + 1);
                assert(t.drop_last() =~= pins@.subrange(0, i as int));
            }
            i = i + 1;
        }
        proof {
            assert(pins@.subrange(0, pins@.len() as int) =~= pins@);
        }
        Ok(())
    }

    /// Sets the prescaler of `bank` (0 to 3): writes the updated bank map to
    /// its register and keeps it. Another bank is refused with
    /// `InvalidInput`; a failed bus write is returned; either way the maps
    /// stay as they were.
    pub fn set_prescaler(&mut self, bank: usize, prescaler: u16) -> (r: Result<(), Error>)
        ensures
            bank >= 4 ==> r == Err::<(), Error>(Error::InvalidInput),
            r is Ok ==> bank < 4,
            forall|o: u16| #![trigger final(self).pin_map(o)]
                o <= 3 ==> final(self).pin_map(o) == if r is Ok && o == 3 {
                    bank_prescaler(bank, prescaler, old(self).pin_map(3))
                } else {
                    old(self).pin_map(o)
                },
    {
        if bank >= 4 {
            return Err(Error::InvalidInput);
        }
        let shift: u16 = (4 * bank) as u16;
        let mask: u16 = 0xFu16 << shift;
        let bank_map: u16 = (prescaler << shift) | (self.prescaler_bank_map & !mask);
        self.bus_write(bank_map, 3)?;
        self.prescaler_bank_map = bank_map;
        Ok(())
    }
}

} // verus!
