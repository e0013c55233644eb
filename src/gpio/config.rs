//! Pin settings: mode, state and function, each kept as one bit per pin.
use vstd::prelude::*;

use super::Gpio;
use crate::bus::MatrixBus;
use crate::error::Error;

verus! {

/// `pin_map` with bit `pin` set to `config` (0 or 1).
pub open spec fn pin_config(pin: u8, config: u16, pin_map: u16) -> u16 {
    ((config << (pin as u16)) | (pin_map & !(1u16 << (pin as u16)))) as u16
}

/// A setting of one pin, kept by the device as bit `pin` of one register.
pub trait PinConfig {
    /// The bit this setting stands for.
    spec fn spec_value(&self) -> u16;

    /// The offset, from the GPIO base, of the register that holds this kind
    /// of setting.
    spec fn spec_offset(&self) -> u16;

    /// The register value with bit `pin` of `gpio`'s current map for this
    /// kind of setting set to this setting, and the register's offset.
    fn update_pin_map<'a, B: MatrixBus>(&self, pin: u8, gpio: &Gpio<'a, B>) -> (r: Result<
        (u16, u16),
        Error,
    >)
        requires
            pin < 16,
        ensures
            r == Ok::<(u16, u16), Error>(
                (
                    pin_config(pin, self.spec_value(), gpio.pin_map(self.spec_offset())),
                    self.spec_offset(),
                ),
            ),
    ;

    /// A setting is one bit, kept in one of the first three registers.
    proof fn lemma_bounds(&self)
        ensures
            self.spec_value() <= 1,
            self.spec_offset() <= 2,
    ;
}

/// A pin used for input or for output.
#[derive(Clone, Copy, Debug, PartialEq, Eq, Structural)]
pub enum Mode {
    Input,
    Output,
}

impl PinConfig for Mode {
    open spec fn spec_value(&self) -> u16 {
        match self {
            Mode::Input => 0,
            Mode::Output => 1,
        }
    }

    open spec fn spec_offset(&self) -> u16 {
        0
    }

    proof fn lemma_bounds(&self) {
    }

    fn update_pin_map<'a, B: MatrixBus>(&self, pin: u8, gpio: &Gpio<'a, B>) -> (r: Result<
        (u16, u16),
        Error,
    >) {
        let value: u16 = match self {
            Mode::Input => 0,
            Mode::Output => 1,
        };
        Ok((set_pin_config(pin, value, &gpio.mode_pin_map()), 0))
    }
}

/// A pin that is off or on.
#[derive(Clone, Copy, Debug, PartialEq, Eq, Structural)]
pub enum State {
    Off,
    On,
}

impl PinConfig for State {
    open spec fn spec_value(&self) -> u16 {
        match self {
            State::Off => 0,
            State::On => 1,
        }
    }

    open spec fn spec_offset(&self) -> u16 {
        1
    }

    proof fn lemma_bounds(&self) {
    }

    fn update_pin_map<'a, B: MatrixBus>(&self, pin: u8, gpio: &Gpio<'a, B>) -> (r: Result<
        (u16, u16),
        Error,
    >) {
        let value: u16 = match self {
            State::Off => 0,
            State::On => 1,
        };
        Ok((set_pin_config(pin, value, &gpio.state_pin_map()), 1))
    }
}

/// A pin used for digital signals or for PWM.
#[derive(Clone, Copy, Debug, PartialEq, Eq, Structural)]
pub enum Function {
    Digital,
    Pwm,
}

impl PinConfig for Function {
    open spec fn spec_value(&self) -> u16 {
        match self {
            Function::Digital => 0,
            Function::Pwm => 1,
        }
    }

    open spec fn spec_offset(&self) -> u16 {
        2
    }

    proof fn lemma_bounds(&self) {
    }

    fn update_pin_map<'a, B: MatrixBus>(&self, pin: u8, gpio: &Gpio<'a, B>) -> (r: Result<
        (u16, u16),
        Error,
    >) {
        let value: u16 = match self {
            Function::Digital => 0,
            Function::Pwm => 1,
        };
        Ok((set_pin_config(pin, value, &gpio.function_pin_map()), 2))
    }
}

/// Sets bit `pin` of `pin_map` to `config`, leaving the other bits as they
/// are.
pub fn set_pin_config(pin: u8, config: u16, pin_map: &u16) -> (r: u16)
    requires
        pin < 16,
        config <= 1,
    ensures
        r == pin_config(pin, config, *pin_map),
        r & (1u16 << (pin as u16)) == config << (pin as u16),
        r & !(1u16 << (pin as u16)) == *pin_map & !(1u16 << (pin as u16)),
{
    let p: u16 = pin as u16;
    let mask: u16 = 1u16 << p;
    let r: u16 = (config << p) | (*pin_map & !mask);
    let m = *pin_map;
    assert(r & mask == config << p && r & !mask == m & !mask) by (bit_vector)
        requires
            p < 16,
            config <= 1,
            mask == 1u16 << p,
            r == (config << p) | (m & !mask),
    ;
    r
}

} // verus!
