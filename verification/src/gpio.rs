pub mod dyn_pin;
pub mod pin;
pub mod static_pin;

pub use dyn_pin::DynPin;
pub use static_pin::{PortPins, StaticPin};

use vstd::prelude::*;

verus! {

/// The register block of one GPIO port: a bit-per-pin `output` register
/// that drives the pins and a bit-per-pin `input` register that reflects
/// the level seen on them.
///
/// The struct stands for the hardware's state at the register interface;
/// tests and the surrounding program play the part of the pad ring by
/// setting `input` and reading `output`.
pub struct GpioRegisters {
    pub output: u32,
    pub input: u32,
}

/// The single-bit mask of the pin at `index`.
pub open spec fn pin_mask(index: u8) -> u32
    recommends
        index < 16,
{
    1u32 << index
}

/// One read-modify-write step on a bit-per-pin register: the bit at
/// `index` becomes `value` and every other bit keeps its old state.
pub open spec fn with_bit(reg: u32, index: u8, value: bool) -> u32
    recommends
        index < 16,
{
    (reg & !pin_mask(index)) | ((if value { 1u32 } else { 0u32 }) << index)
}

/// Whether the bit at `index` of a bit-per-pin register is driven high.
pub open spec fn bit_high(reg: u32, index: u8) -> bool
    recommends
        index < 16,
{
    reg & pin_mask(index) == pin_mask(index)
}

impl GpioRegisters {
    /// A port whose pins all rest low and whose inputs read low.
    pub fn new() -> (r: GpioRegisters)
        ensures
            r.output == 0,
            r.input == 0,
    {
        GpioRegisters { output: 0, input: 0 }
    }
}

/// Drives the pin at `index` to `value` with a read-modify-write sequence
/// on the port's output register, leaving every other pin's bit alone.
pub fn write_pin(regs: &mut GpioRegisters, index: u8, value: bool)
    requires
        index < 16,
    ensures
        final(regs).output == with_bit(old(regs).output, index, value),
        final(regs).input == old(regs).input,
{
    let mask: u32 = 1u32 << index;
    let bit: u32 = (if value { 1u32 } else { 0u32 }) << index;
    regs.output = (regs.output & !mask) | bit;
}

/// Reads the level of the pin at `index` from the port's input register.
pub fn read_pin(regs: &GpioRegisters, index: u8) -> (r: bool)
    requires
        index < 16,
    ensures
        r == bit_high(regs.input, index),
{
    let mask: u32 = 1u32 << index;
    (regs.input & mask) == mask
}

/// Driving one pin reads back: after `with_bit(reg, index, value)` the bit
/// at `index` is exactly `value`.
pub proof fn lemma_with_bit_reads_back(reg: u32, index: u8, value: bool)
    requires
        index < 16,
    ensures
        bit_high(with_bit(reg, index, value), index) == value,
{
    assert((((reg & !(1u32 << index)) | ((if value { 1u32 } else { 0u32 }) << index)) & (1u32
        << index) == (1u32 << index)) == value) by (bit_vector)
        requires
            index < 16,
    ;
}

/// Read-modify-write isolation: driving the pin at `i` does not alter the
/// bit of any other pin `j` in the same register.
pub proof fn lemma_with_bit_isolated(reg: u32, i: u8, j: u8, value: bool)
    requires
        i < 16,
        j < 16,
        i != j,
    ensures
        bit_high(with_bit(reg, i, value), j) == bit_high(reg, j),
{
    assert((((reg & !(1u32 << i)) | ((if value { 1u32 } else { 0u32 }) << i)) & (1u32 << j) == (
    1u32 << j)) == (reg & (1u32 << j) == (1u32 << j))) by (bit_vector)
        requires
            i < 16,
            j < 16,
            i != j,
    ;
}

} // verus!
