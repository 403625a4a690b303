//! Driver for the ADS1013, ADS1014, ADS1015, ADS1113, ADS1114 and ADS1115
//! analog-to-digital converters, over a two-wire bus that the host provides.
//!
//! The device, its sample width and its operating mode are type parameters
//! of the handle, so that an operation a device lacks (the comparator of an
//! ADS1x13, a channel that a one-input device cannot select, a data rate of
//! the other sample width) does not compile. Every register write leaves the
//! driver's shadow of the configuration register equal to what the device
//! holds, and the handle records each register transfer it issues, so that
//! the contracts of the operations say what goes on the bus.
pub mod channel;
pub mod continuous;
pub mod conversion;
pub mod device;
pub mod error;
pub mod ic;
pub mod interface;
pub mod mode;
pub mod oneshot;
pub mod register;
mod sealed;
mod tier2;
pub mod types;

pub use channel::{ChannelId, ChannelSelection};
pub use conversion::{ConvertMeasurement, ConvertThreshold};
pub use device::{Ads1013, Ads1014, Ads1015, Ads1113, Ads1114, Ads1115, Ads1x1x};
pub use error::{DriverError, ModeChangeError};
pub use interface::{I2cBus, Transfer};
pub use mode::{Continuous, OneShot};
pub use register::{Conversion12, Conversion16};
pub use types::{
    ComparatorLatching, ComparatorMode, ComparatorPolarity, ComparatorQueue, DataRate12Bit,
    DataRate16Bit, FullScaleRange, TargetAddr,
};
