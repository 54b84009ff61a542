use vstd::prelude::*;

verus! {

/// The single error taxonomy shared by every driver.
///
/// The hardware reports no transient faults; the only failure a driver can
/// surface is that an operation is structurally unsupported (for example a
/// read on the receive-less SPI controller).
#[derive(Clone, Copy, Debug, PartialEq, Eq, Structural)]
pub enum Error {
    NotSupported,
}

} // verus!
