//! Errors of the driver.
use vstd::prelude::*;

verus! {

/// Errors of the driver's operations.
#[derive(Debug)]
pub enum DriverError<E> {
    /// The bus reported an error.
    I2C(E),
    /// A threshold lies outside the range that the device can hold.
    InvalidInputData,
}

/// A failed change of the operating mode: the bus error, and the device in
/// the mode that it had.
#[derive(Debug)]
pub enum ModeChangeError<E, DEV> {
    /// The bus reported an error while the mode was written.
    I2C(E, DEV),
}

} // verus!
