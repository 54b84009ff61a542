use super::pin::{DisabledState, InputState, OutputState, PinState};
use super::{bit_high, read_pin, with_bit, write_pin, GpioRegisters};
use crate::utils::Error;
use core::marker::PhantomData;
use vstd::prelude::*;

verus! {

/// A runtime-typed GPIO pin: the `(port, index)` pair is stored as
/// ordinary fields, so pins of different indices share one type and can
/// live in homogeneous arrays. The direction tag survives only as a type
/// parameter; erased pins of one direction are interchangeable.
pub struct DynPin<S> {
    port: u8,
    id: u8,
    _mode: PhantomData<S>,
}

impl<S> DynPin<S> {
    /// A pin's index always fits the port's 16 bit-per-pin register bits.
    #[verifier::type_invariant]
    pub closed spec fn inv(self) -> bool {
        self.id < 16
    }

    /// The pin's port letter, as its character code.
    pub closed spec fn spec_port(&self) -> u8 {
        self.port
    }

    /// The pin's index inside its port.
    pub closed spec fn spec_id(&self) -> u8 {
        self.id
    }

    pub fn new(port: u8, id: u8) -> (r: DynPin<S>)
        requires
            id < 16,
        ensures
            r.spec_port() == port,
            r.spec_id() == id,
    {
        DynPin { port, id, _mode: PhantomData }
    }

    pub fn id(&self) -> (r: u8)
        ensures
            r == self.spec_id(),
    {
        self.id
    }

    pub fn port(&self) -> (r: u8)
        ensures
            r == self.spec_port(),
    {
        self.port
    }
}

impl DynPin<DisabledState> {
    pub fn into_input(self) -> (r: DynPin<InputState>)
        ensures
            r.spec_port() == self.spec_port(),
            r.spec_id() == self.spec_id(),
    {
        proof {
            use_type_invariant(&self);
        }
        DynPin::new(self.port, self.id)
    }

    pub fn into_output(self) -> (r: DynPin<OutputState>)
        ensures
            r.spec_port() == self.spec_port(),
            r.spec_id() == self.spec_id(),
    {
        proof {
            use_type_invariant(&self);
        }
        DynPin::new(self.port, self.id)
    }
}

impl DynPin<OutputState> {
    pub fn into_input(self) -> (r: DynPin<InputState>)
        ensures
            r.spec_port() == self.spec_port(),
            r.spec_id() == self.spec_id(),
    {
        proof {
            use_type_invariant(&self);
        }
        DynPin::new(self.port, self.id)
    }

    /// Drives the pin low through its port's output register.
    pub fn set_low(&self, regs: &mut GpioRegisters) -> (r: Result<(), Error>)
        ensures
            final(regs).output == with_bit(old(regs).output, self.spec_id(), false),
            final(regs).input == old(regs).input,
            r is Ok,
    {
        proof {
            use_type_invariant(self);
        }
        write_pin(regs, self.id, false);
        Ok(())
    }

    /// Drives the pin high through its port's output register.
    pub fn set_high(&self, regs: &mut GpioRegisters) -> (r: Result<(), Error>)
        ensures
            final(regs).output == with_bit(old(regs).output, self.spec_id(), true),
            final(regs).input == old(regs).input,
            r is Ok,
    {
        proof {
            use_type_invariant(self);
        }
        write_pin(regs, self.id, true);
        Ok(())
    }

    /// Drives the pin to `state`.
    pub fn set_state(&self, regs: &mut GpioRegisters, state: PinState) -> (r: Result<(), Error>)
        ensures
            final(regs).output == with_bit(old(regs).output, self.spec_id(), state == PinState::High),
            final(regs).input == old(regs).input,
            r is Ok,
    {
        proof {
            use_type_invariant(self);
        }
        let value = match state {
            PinState::Low => false,
            PinState::High => true,
        };
        write_pin(regs, self.id, value);
        Ok(())
    }
}

impl DynPin<InputState> {
    pub fn into_output(self) -> (r: DynPin<OutputState>)
        ensures
            r.spec_port() == self.spec_port(),
            r.spec_id() == self.spec_id(),
    {
        proof {
            use_type_invariant(&self);
        }
        DynPin::new(self.port, self.id)
    }

    /// Whether the pin's pad reads high in the port's input register.
    pub fn is_high(&self, regs: &GpioRegisters) -> (r: Result<bool, Error>)
        ensures
            r == Ok::<bool, Error>(bit_high(regs.input, self.spec_id())),
    {
        proof {
            use_type_invariant(self);
        }
        Ok(read_pin(regs, self.id))
    }

    /// Whether the pin's pad reads low in the port's input register.
    pub fn is_low(&self, regs: &GpioRegisters) -> (r: Result<bool, Error>)
        ensures
            r == Ok::<bool, Error>(!bit_high(regs.input, self.spec_id())),
    {
        proof {
            use_type_invariant(self);
        }
        Ok(!read_pin(regs, self.id))
    }
}

} // verus!
