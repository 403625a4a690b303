//! The two-wire bus that the driver talks through, and the framing of
//! register transfers on it.
use vstd::prelude::*;

verus! {

/// The outcome of a non-blocking operation in `nb`: another error, or
/// `WouldBlock` where the operation has to be called again. Its two variants
/// are public and declared here as they stand in nb's source.
#[verifier::external_type_specification]
#[verifier::reject_recursive_types(E)]
pub struct ExNbError<E>(nb::Error<E>);

/// A blocking two-wire (I²C) bus controller, the transport of the driver.
///
/// The host platform provides it; the driver makes no assumption about what
/// it does beyond the signatures.
pub trait I2cBus {
    /// Error reported by the bus.
    type BusError;

    /// Writes `bytes` to the target at the 7-bit `address`.
    fn write(&mut self, address: u8, bytes: &[u8]) -> Result<(), Self::BusError>;

    /// Writes `bytes` to the target at the 7-bit `address`, then reads two
    /// bytes from it into `buffer`.
    fn write_read(&mut self, address: u8, bytes: &[u8], buffer: &mut [u8; 2]) -> Result<
        (),
        Self::BusError,
    >;
}

/// A register transfer that the driver issued, as the driver records it.
pub enum Transfer {
    /// A 16-bit value written to a register; `done` tells whether the bus
    /// reported success.
    Write { register: u8, value: u16, done: bool },
    /// A register read; `result` is what came back, `None` where the bus
    /// reported an error.
    Read { register: u8, result: Option<u16> },
}

/// The bytes that write `value` to `register`: the register address, then the
/// value big-endian.
pub open spec fn spec_write_frame(register: u8, value: u16) -> Seq<u8> {
    seq![register, (value / 256) as u8, (value % 256) as u8]
}

/// The bytes that write `value` to `register`.
pub fn write_frame(register: u8, value: u16) -> (r: [u8; 3])
    ensures
        r@ == spec_write_frame(register, value),
{
    let high: u8 = (value >> 8u16) as u8;
    let low: u8 = (value & 0xFF) as u8;
    assert(high == (value / 256) as u8 && low == (value % 256) as u8) by (bit_vector)
        requires
            high == (value >> 8u16) as u8,
            low == (value & 0xFF) as u8,
    ;
    let r: [u8; 3] = [register, high, low];
    assert(r@ =~= spec_write_frame(register, value));
    r
}

/// The register value that two bytes read from the bus hold, big-endian.
pub fn read_value(buffer: &[u8; 2]) -> (r: u16)
    ensures
        r == buffer@[0] as int * 256 + buffer@[1] as int,
{
    let high: u8 = buffer[0];
    let low: u8 = buffer[1];
    let r: u16 = ((high as u16) << 8u16) | (low as u16);
    assert(r == high as int * 256 + low as int) by (bit_vector)
        requires
            r == ((high as u16) << 8u16) | (low as u16),
    ;
    r
}

} // verus!
