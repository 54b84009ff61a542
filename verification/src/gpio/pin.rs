use vstd::prelude::*;

verus! {

/// Direction tag of a pin that has not been configured yet.
pub struct DisabledState;

/// Direction tag of a pin configured to drive its pad.
pub struct OutputState;

/// Direction tag of a pin configured to sample its pad.
pub struct InputState;

/// The level an output pin can be driven to.
#[derive(Clone, Copy, Debug, PartialEq, Eq, Structural)]
pub enum PinState {
    Low,
    High,
}

/// Conversion of a statically typed pin into the uniform, runtime-typed
/// form, preserving the pin's `(port, index)` identity losslessly.
pub trait ErasePin: Sized {
    type ErasedPin;

    /// The pin's port letter, as its character code.
    spec fn pin_port(&self) -> u8;

    /// The pin's index inside its port.
    spec fn pin_index(&self) -> u8;

    /// The port read back off the erased form.
    spec fn erased_port(e: &Self::ErasedPin) -> u8;

    /// The index read back off the erased form.
    spec fn erased_index(e: &Self::ErasedPin) -> u8;

    /// Erases the compile-time identity, keeping `(port, index)` as
    /// runtime fields.
    fn erase(self) -> (r: Self::ErasedPin)
        requires
            self.pin_index() < 16,
        ensures
            Self::erased_port(&r) == self.pin_port(),
            Self::erased_index(&r) == self.pin_index(),
    ;

    /// Synonym of `erase`.
    fn into_dynamic(self) -> (r: Self::ErasedPin)
        requires
            self.pin_index() < 16,
        ensures
            Self::erased_port(&r) == self.pin_port(),
            Self::erased_index(&r) == self.pin_index(),
    ;
}

/// Extension trait that splits a GPIO port ownership token into its set of
/// typed pins.
pub trait GpioExt: Sized {
    type Pins;

    fn pins(self) -> Self::Pins;

    /// Synonym of `pins`.
    fn split(self) -> Self::Pins;
}

} // verus!
