//! Continuous conversion mode: the device converts without pause and `read`
//! returns the latest sample.
use crate::channel::ChannelId;
use crate::conversion::ConvertMeasurement;
use crate::device::{is_bus_error, Ads1x1x, OperatingMode};
use crate::error::{DriverError, ModeChangeError};
use crate::interface::{I2cBus, Transfer};
use crate::mode::{Continuous, OneShot};
use crate::register::{with_field, Config, CONFIG, CONVERSION, MUX_SHIFT, OP_MODE};
use core::marker::PhantomData;
use vstd::prelude::*;

verus! {

impl<I2C: I2cBus, IC, CONV: ConvertMeasurement> Ads1x1x<I2C, IC, CONV, Continuous> {
    /// Changes to one-shot mode. Where the bus fails, the error comes back
    /// with this device, unchanged and still in continuous mode.
    pub fn into_one_shot(self) -> (r: Result<
        Ads1x1x<I2C, IC, CONV, OneShot>,
        ModeChangeError<I2C::BusError, Self>,
    >)
        ensures
            ({
                let bits = self.config().bits | OP_MODE;
                match r {
                    Ok(dev) => {
                        &&& dev.config() == Config { bits }
                        &&& !dev.conversion_started()
                        &&& dev.address() == self.address()
                        &&& dev.transfers() == self.transfers().push(
                            Transfer::Write { register: CONFIG, value: bits, done: true },
                        )
                    },
                    Err(ModeChangeError::I2C(_, dev)) => {
                        &&& dev.same_state(&self)
                        &&& dev.transfers() == self.transfers().push(
                            Transfer::Write { register: CONFIG, value: bits, done: false },
                        )
                    },
                }
            }),
    {
        let mut dev = self;
        match dev.set_operating_mode(OperatingMode::OneShot) {
            Err(DriverError::I2C(e)) => Err(ModeChangeError::I2C(e, dev)),
            _ => Ok(
                Ads1x1x {
                    i2c: dev.i2c,
                    address: dev.address,
                    config: dev.config,
                    a_conversion_was_started: false,
                    transfers: dev.transfers,
                    _ic: PhantomData,
                    _conv: PhantomData,
                    _mode: PhantomData,
                },
            ),
        }
    }

    /// Reads the latest sample from the conversion register.
    ///
    /// There is no "would block" here: the register holds the last completed
    /// conversion, or its power-up content before the first one completes.
    pub fn read(&mut self) -> (r: Result<i16, DriverError<I2C::BusError>>)
        ensures
            final(self).same_state(old(self)),
            ({
                let last = final(self).transfers().last();
                &&& final(self).transfers().drop_last() == old(self).transfers()
                &&& final(self).transfers().len() == old(self).transfers().len() + 1
                &&& last is Read
                &&& last->Read_register == CONVERSION
                &&& match r {
                    Ok(sample) => last->Read_result is Some && sample as int == CONV::sample(
                        last->Read_result->Some_0,
                    ),
                    Err(e) => e is I2C && last->Read_result is None,
                }
            }),
    {
        let value = self.read_register(CONVERSION)?;
        Ok(CONV::convert_measurement(value))
    }

    /// Selects the channel of the following conversions. A conversion in
    /// progress completes on the channel it started with.
    pub fn select_channel<CH: ChannelId<IC>>(&mut self, channel: CH) -> (r: Result<
        (),
        DriverError<I2C::BusError>,
    >)
        ensures
            final(self).wrote_config(
                old(self),
                Config {
                    bits: with_field(
                        old(self).config().bits,
                        MUX_SHIFT,
                        7,
                        CH::spec_channel_id().spec_mux_bits(),
                    ),
                },
                r is Ok,
            ),
            r is Err ==> is_bus_error(r),
    {
        let config = self.config.with_mux_bits(CH::channel_id());
        self.write_config(config)
    }
}

} // verus!
