use super::dyn_pin::DynPin;
use super::pin::{DisabledState, ErasePin, InputState, OutputState, PinState};
use super::{bit_high, read_pin, with_bit, write_pin, GpioRegisters};
use crate::utils::Error;
use core::marker::PhantomData;
use vstd::prelude::*;

verus! {

/// A statically typed GPIO pin: port `P` (as a character code), index `N`
/// and direction tag `S` all live in the type, so a pin value costs no
/// storage and a misdirected operation is a compile-time error.
pub struct StaticPin<const P: u8, const N: u8, S> {
    _mode: PhantomData<S>,
}

impl<const P: u8, const N: u8, S> StaticPin<P, N, S> {
    pub fn new() -> (r: StaticPin<P, N, S>) {
        StaticPin { _mode: PhantomData }
    }

    /// The pin's index inside its port.
    pub fn id(&self) -> (r: u8)
        ensures
            r == N,
    {
        N
    }

    /// The pin's port letter, as its character code.
    pub fn port(&self) -> (r: u8)
        ensures
            r == P,
    {
        P
    }
}

impl<const P: u8, const N: u8, S> ErasePin for StaticPin<P, N, S> {
    type ErasedPin = DynPin<S>;

    open spec fn pin_port(&self) -> u8 {
        P
    }

    open spec fn pin_index(&self) -> u8 {
        N
    }

    open spec fn erased_port(e: &DynPin<S>) -> u8 {
        e.spec_port()
    }

    open spec fn erased_index(e: &DynPin<S>) -> u8 {
        e.spec_id()
    }

    fn erase(self) -> (r: DynPin<S>) {
        DynPin::new(P, N)
    }

    fn into_dynamic(self) -> (r: DynPin<S>) {
        DynPin::new(P, N)
    }
}

/// The full set of a port's 16 pins, each in the disabled state; produced
/// once when the port's ownership token is split.
pub struct PortPins<const P: u8> {
    pub pin0: StaticPin<P, 0, DisabledState>,
    pub pin1: StaticPin<P, 1, DisabledState>,
    pub pin2: StaticPin<P, 2, DisabledState>,
    pub pin3: StaticPin<P, 3, DisabledState>,
    pub pin4: StaticPin<P, 4, DisabledState>,
    pub pin5: StaticPin<P, 5, DisabledState>,
    pub pin6: StaticPin<P, 6, DisabledState>,
    pub pin7: StaticPin<P, 7, DisabledState>,
    pub pin8: StaticPin<P, 8, DisabledState>,
    pub pin9: StaticPin<P, 9, DisabledState>,
    pub pin10: StaticPin<P, 10, DisabledState>,
    pub pin11: StaticPin<P, 11, DisabledState>,
    pub pin12: StaticPin<P, 12, DisabledState>,
    pub pin13: StaticPin<P, 13, DisabledState>,
    pub pin14: StaticPin<P, 14, DisabledState>,
    pub pin15: StaticPin<P, 15, DisabledState>,
}

impl<const P: u8> PortPins<P> {
    pub fn new() -> (r: PortPins<P>) {
        PortPins {
            pin0: StaticPin::new(),
            pin1: StaticPin::new(),
            pin2: StaticPin::new(),
            pin3: StaticPin::new(),
            pin4: StaticPin::new(),
            pin5: StaticPin::new(),
            pin6: StaticPin::new(),
            pin7: StaticPin::new(),
            pin8: StaticPin::new(),
            pin9: StaticPin::new(),
            pin10: StaticPin::new(),
            pin11: StaticPin::new(),
            pin12: StaticPin::new(),
            pin13: StaticPin::new(),
            pin14: StaticPin::new(),
            pin15: StaticPin::new(),
        }
    }
}

impl<const P: u8, const N: u8> StaticPin<P, N, DisabledState> {
    pub fn into_input(self) -> (r: StaticPin<P, N, InputState>) {
        StaticPin::new()
    }

    pub fn into_output(self) -> (r: StaticPin<P, N, OutputState>) {
        StaticPin::new()
    }
}

impl<const P: u8, const N: u8> StaticPin<P, N, OutputState> {
    pub fn into_input(self) -> (r: StaticPin<P, N, InputState>) {
        StaticPin::new()
    }

    /// Drives the pin low through its port's output register.
    pub fn set_low(&self, regs: &mut GpioRegisters) -> (r: Result<(), Error>)
        requires
            N < 16,
        ensures
            final(regs).output == with_bit(old(regs).output, N, false),
            final(regs).input == old(regs).input,
            r is Ok,
    {
        write_pin(regs, N, false);
        Ok(())
    }

    /// Drives the pin high through its port's output register.
    pub fn set_high(&self, regs: &mut GpioRegisters) -> (r: Result<(), Error>)
        requires
            N < 16,
        ensures
            final(regs).output == with_bit(old(regs).output, N, true),
            final(regs).input == old(regs).input,
            r is Ok,
    {
        write_pin(regs, N, true);
        Ok(())
    }

    /// Drives the pin to `state`.
    pub fn set_state(&self, regs: &mut GpioRegisters, state: PinState) -> (r: Result<(), Error>)
        requires
            N < 16,
        ensures
            final(regs).output == with_bit(old(regs).output, N, state == PinState::High),
            final(regs).input == old(regs).input,
            r is Ok,
    {
        let value = match state {
            PinState::Low => false,
            PinState::High => true,
        };
        write_pin(regs, N, value);
        Ok(())
    }
}

impl<const P: u8, const N: u8> StaticPin<P, N, InputState> {
    pub fn into_output(self) -> (r: StaticPin<P, N, OutputState>) {
        StaticPin::new()
    }

    /// Whether the pin's pad reads high in the port's input register.
    pub fn is_high(&self, regs: &GpioRegisters) -> (r: Result<bool, Error>)
        requires
            N < 16,
        ensures
            r == Ok::<bool, Error>(bit_high(regs.input, N)),
    {
        Ok(read_pin(regs, N))
    }

    /// Whether the pin's pad reads low in the port's input register.
    pub fn is_low(&self, regs: &GpioRegisters) -> (r: Result<bool, Error>)
        requires
            N < 16,
        ensures
            r == Ok::<bool, Error>(!bit_high(regs.input, N)),
    {
        Ok(!read_pin(regs, N))
    }
}

/// Ownership token of GPIO port A, split once into its typed pins.
pub struct GpioA;

impl super::pin::GpioExt for GpioA {
    type Pins = PortPins<b'A'>;

    fn pins(self) -> (r: PortPins<b'A'>) {
        PortPins::new()
    }

    fn split(self) -> (r: PortPins<b'A'>) {
        PortPins::new()
    }
}

} // verus!
