//! The device handle: the bus, the device's address, the shadow of its
//! configuration register, and the operations common to every mode.
use crate::error::DriverError;
use crate::ic;
use crate::interface::{read_value, write_frame, I2cBus, Transfer};
use crate::mode::OneShot;
use crate::register::{with_field, Config, CONFIG, CONFIG_DEFAULT, DR_SHIFT, OP_MODE, OS};
use crate::types::{DataRate12Bit, DataRate16Bit, TargetAddr, DEVICE_BASE_ADDRESS};
use core::marker::PhantomData;
use vstd::prelude::*;

verus! {

/// A device of the family on the bus `I2C`.
///
/// `IC` is the device, `CONV` its sample width (`Resolution12Bit` or
/// `Resolution16Bit`), and `MODE` its operating mode (`OneShot` or
/// `Continuous`). The shadow of the configuration register changes only
/// once the bus reports that a write of the new value succeeded, and the
/// handle records every register transfer it issues (`transfers`).
pub struct Ads1x1x<I2C, IC, CONV, MODE> {
    pub(crate) i2c: I2C,
    pub(crate) address: u8,
    pub(crate) config: Config,
    pub(crate) a_conversion_was_started: bool,
    pub(crate) transfers: Ghost<Seq<Transfer>>,
    pub(crate) _ic: PhantomData<IC>,
    pub(crate) _conv: PhantomData<CONV>,
    pub(crate) _mode: PhantomData<MODE>,
}

/// An ADS1013 in the operating mode `MODE`.
pub type Ads1013<I2C, MODE> = Ads1x1x<I2C, ic::Ads1013, ic::Resolution12Bit, MODE>;

/// An ADS1113 in the operating mode `MODE`.
pub type Ads1113<I2C, MODE> = Ads1x1x<I2C, ic::Ads1113, ic::Resolution16Bit, MODE>;

/// An ADS1014 in the operating mode `MODE`.
pub type Ads1014<I2C, MODE> = Ads1x1x<I2C, ic::Ads1014, ic::Resolution12Bit, MODE>;

/// An ADS1114 in the operating mode `MODE`.
pub type Ads1114<I2C, MODE> = Ads1x1x<I2C, ic::Ads1114, ic::Resolution16Bit, MODE>;

/// An ADS1015 in the operating mode `MODE`.
pub type Ads1015<I2C, MODE> = Ads1x1x<I2C, ic::Ads1015, ic::Resolution12Bit, MODE>;

/// An ADS1115 in the operating mode `MODE`.
pub type Ads1115<I2C, MODE> = Ads1x1x<I2C, ic::Ads1115, ic::Resolution16Bit, MODE>;

/// The outcome of a read from the bus as the transfer record holds it.
pub open spec fn read_outcome<T, E>(r: Result<T, DriverError<E>>) -> Option<T> {
    match r {
        Ok(v) => Some(v),
        Err(_) => None,
    }
}

/// Whether `r` is a failure that the bus reported.
pub open spec fn is_bus_error<T, E>(r: Result<T, DriverError<E>>) -> bool {
    r is Err && r->Err_0 is I2C
}

/// Operating mode as the MODE bit of the configuration register encodes it.
pub(crate) enum OperatingMode {
    OneShot,
    Continuous,
}

impl<I2C, IC, CONV, MODE> Ads1x1x<I2C, IC, CONV, MODE> {
    /// The shadow of the configuration register.
    pub open(crate) spec fn config(&self) -> Config {
        self.config
    }

    /// Whether a one-shot conversion was started and its result not yet read.
    pub open(crate) spec fn conversion_started(&self) -> bool {
        self.a_conversion_was_started
    }

    /// The 7-bit bus address of the device.
    pub open(crate) spec fn address(&self) -> u8 {
        self.address
    }

    /// The register transfers that the driver has issued, oldest first.
    pub open(crate) spec fn transfers(&self) -> Seq<Transfer> {
        self.transfers@
    }

    /// Whether `other` holds the same driver state as `self`.
    pub open spec fn same_state(&self, other: &Self) -> bool {
        &&& self.config() == other.config()
        &&& self.conversion_started() == other.conversion_started()
        &&& self.address() == other.address()
    }

    /// `self` is `before` after `config` was written to the configuration
    /// register, with success where `ok`: the shadow is then `config`, else
    /// unchanged.
    pub open spec fn wrote_config(&self, before: &Self, config: Config, ok: bool) -> bool {
        &&& self.config() == (if ok {
            config
        } else {
            before.config()
        })
        &&& self.conversion_started() == before.conversion_started()
        &&& self.address() == before.address()
        &&& self.transfers() == before.transfers().push(
            Transfer::Write { register: CONFIG, value: config.bits, done: ok },
        )
    }

    /// Destroys the driver and returns the bus.
    pub fn release(self) -> I2C {
        self.i2c
    }

    /// Resets the configuration shadow to the power-up value of the device.
    ///
    /// This changes nothing on the device. It is needed after the device was
    /// reset by other means than this driver (a general-call reset on the
    /// bus, for example), so that driver and device agree again.
    pub fn reset_internal_driver_state(&mut self)
        ensures
            final(self).config().bits == CONFIG_DEFAULT,
            final(self).conversion_started() == old(self).conversion_started(),
            final(self).address() == old(self).address(),
            final(self).transfers() == old(self).transfers(),
    {
        self.config = Config { bits: CONFIG_DEFAULT };
    }
}

impl<I2C, IC, CONV> Ads1x1x<I2C, IC, CONV, OneShot> {
    /// A driver for a device at `address` in one-shot mode, with the power-up
    /// configuration as its shadow. Nothing is sent on the bus.
    pub(crate) fn create(i2c: I2C, address: TargetAddr) -> (r: Self)
        ensures
            r.config().bits == CONFIG_DEFAULT,
            !r.conversion_started(),
            r.address() == DEVICE_BASE_ADDRESS + address.offset(),
            r.transfers() == Seq::<Transfer>::empty(),
    {
        Ads1x1x {
            i2c,
            address: address.bits(),
            config: Config { bits: CONFIG_DEFAULT },
            a_conversion_was_started: false,
            transfers: Ghost(Seq::empty()),
            _ic: PhantomData,
            _conv: PhantomData,
            _mode: PhantomData,
        }
    }
}

impl<I2C> Ads1x1x<I2C, ic::Ads1013, ic::Resolution12Bit, OneShot> {
    /// Creates the driver of an ADS1013 in one-shot mode. Nothing is sent on
    /// the bus.
    pub fn new_ads1013(i2c: I2C, address: TargetAddr) -> (r: Self)
        ensures
            r.config().bits == CONFIG_DEFAULT,
            !r.conversion_started(),
            r.address() == DEVICE_BASE_ADDRESS + address.offset(),
            r.transfers() == Seq::<Transfer>::empty(),
    {
        Self::create(i2c, address)
    }
}

impl<I2C, CONV, MODE> Ads1x1x<I2C, ic::Ads1013, CONV, MODE> {
    /// Destroys the driver and returns the bus.
    pub fn destroy_ads1013(self) -> I2C {
        self.i2c
    }
}

impl<I2C> Ads1x1x<I2C, ic::Ads1113, ic::Resolution16Bit, OneShot> {
    /// Creates the driver of an ADS1113 in one-shot mode. Nothing is sent on
    /// the bus.
    pub fn new_ads1113(i2c: I2C, address: TargetAddr) -> (r: Self)
        ensures
            r.config().bits == CONFIG_DEFAULT,
            !r.conversion_started(),
            r.address() == DEVICE_BASE_ADDRESS + address.offset(),
            r.transfers() == Seq::<Transfer>::empty(),
    {
        Self::create(i2c, address)
    }
}

impl<I2C, CONV, MODE> Ads1x1x<I2C, ic::Ads1113, CONV, MODE> {
    /// Destroys the driver and returns the bus.
    pub fn destroy_ads1113(self) -> I2C {
        self.i2c
    }
}

impl<I2C> Ads1x1x<I2C, ic::Ads1014, ic::Resolution12Bit, OneShot> {
    /// Creates the driver of an ADS1014 in one-shot mode. Nothing is sent on
    /// the bus.
    pub fn new_ads1014(i2c: I2C, address: TargetAddr) -> (r: Self)
        ensures
            r.config().bits == CONFIG_DEFAULT,
            !r.conversion_started(),
            r.address() == DEVICE_BASE_ADDRESS + address.offset(),
            r.transfers() == Seq::<Transfer>::empty(),
    {
        Self::create(i2c, address)
    }
}

impl<I2C, CONV, MODE> Ads1x1x<I2C, ic::Ads1014, CONV, MODE> {
    /// Destroys the driver and returns the bus.
    pub fn destroy_ads1014(self) -> I2C {
        self.i2c
    }
}

impl<I2C> Ads1x1x<I2C, ic::Ads1114, ic::Resolution16Bit, OneShot> {
    /// Creates the driver of an ADS1114 in one-shot mode. Nothing is sent on
    /// the bus.
    pub fn new_ads1114(i2c: I2C, address: TargetAddr) -> (r: Self)
        ensures
            r.config().bits == CONFIG_DEFAULT,
            !r.conversion_started(),
            r.address() == DEVICE_BASE_ADDRESS + address.offset(),
            r.transfers() == Seq::<Transfer>::empty(),
    {
        Self::create(i2c, address)
    }
}

impl<I2C, CONV, MODE> Ads1x1x<I2C, ic::Ads1114, CONV, MODE> {
    /// Destroys the driver and returns the bus.
    pub fn destroy_ads1114(self) -> I2C {
        self.i2c
    }
}

impl<I2C> Ads1x1x<I2C, ic::Ads1015, ic::Resolution12Bit, OneShot> {
    /// Creates the driver of an ADS1015 in one-shot mode. Nothing is sent on
    /// the bus.
    pub fn new_ads1015(i2c: I2C, address: TargetAddr) -> (r: Self)
        ensures
            r.config().bits == CONFIG_DEFAULT,
            !r.conversion_started(),
            r.address() == DEVICE_BASE_ADDRESS + address.offset(),
            r.transfers() == Seq::<Transfer>::empty(),
    {
        Self::create(i2c, address)
    }
}

impl<I2C, CONV, MODE> Ads1x1x<I2C, ic::Ads1015, CONV, MODE> {
    /// Destroys the driver and returns the bus.
    pub fn destroy_ads1015(self) -> I2C {
        self.i2c
    }
}

impl<I2C> Ads1x1x<I2C, ic::Ads1115, ic::Resolution16Bit, OneShot> {
    /// Creates the driver of an ADS1115 in one-shot mode. Nothing is sent on
    /// the bus.
    pub fn new_ads1115(i2c: I2C, address: TargetAddr) -> (r: Self)
        ensures
            r.config().bits == CONFIG_DEFAULT,
            !r.conversion_started(),
            r.address() == DEVICE_BASE_ADDRESS + address.offset(),
            r.transfers() == Seq::<Transfer>::empty(),
    {
        Self::create(i2c, address)
    }
}

impl<I2C, CONV, MODE> Ads1x1x<I2C, ic::Ads1115, CONV, MODE> {
    /// Destroys the driver and returns the bus.
    pub fn destroy_ads1115(self) -> I2C {
        self.i2c
    }
}

impl<I2C: I2cBus, IC, CONV, MODE> Ads1x1x<I2C, IC, CONV, MODE> {
    /// Writes `data` to `register`: one bus write of three bytes, the register
    /// address and then the value big-endian.
    pub(crate) fn write_register(&mut self, register: u8, data: u16) -> (r: Result<
        (),
        DriverError<I2C::BusError>,
    >)
        ensures
            final(self).same_state(old(self)),
            final(self).transfers() == old(self).transfers().push(
                Transfer::Write { register, value: data, done: r is Ok },
            ),
            r is Err ==> is_bus_error(r),
    {
        let payload = write_frame(register, data);
        let result = self.i2c.write(self.address, &payload);
        self.transfers = Ghost(
            self.transfers@.push(Transfer::Write { register, value: data, done: result is Ok }),
        );
        match result {
            Ok(()) => Ok(()),
            Err(e) => Err(DriverError::I2C(e)),
        }
    }

    /// Reads `register`: one bus write of the register address, then a read
    /// of two bytes, big-endian.
    pub(crate) fn read_register(&mut self, register: u8) -> (r: Result<
        u16,
        DriverError<I2C::BusError>,
    >)
        ensures
            final(self).same_state(old(self)),
            final(self).transfers() == old(self).transfers().push(
                Transfer::Read { register, result: read_outcome(r) },
            ),
            r is Err ==> is_bus_error(r),
    {
        let mut buffer: [u8; 2] = [0, 0];
        let request: [u8; 1] = [register];
        let result = self.i2c.write_read(self.address, &request, &mut buffer);
        let r = match result {
            Ok(()) => Ok(read_value(&buffer)),
            Err(e) => Err(DriverError::I2C(e)),
        };
        self.transfers = Ghost(
            self.transfers@.push(Transfer::Read { register, result: read_outcome(r) }),
        );
        r
    }

    /// Writes `config` to the configuration register and, once the bus
    /// reports success, makes it the shadow.
    pub(crate) fn write_config(&mut self, config: Config) -> (r: Result<
        (),
        DriverError<I2C::BusError>,
    >)
        ensures
            final(self).wrote_config(old(self), config, r is Ok),
            r is Err ==> is_bus_error(r),
    {
        self.write_register(CONFIG, config.bits)?;
        self.config = config;
        Ok(())
    }

    /// Writes the MODE bit for `mode` into the configuration register.
    pub(crate) fn set_operating_mode(&mut self, mode: OperatingMode) -> (r: Result<
        (),
        DriverError<I2C::BusError>,
    >)
        ensures
            final(self).wrote_config(
                old(self),
                Config {
                    bits: match mode {
                        OperatingMode::OneShot => old(self).config().bits | OP_MODE,
                        OperatingMode::Continuous => old(self).config().bits & !OP_MODE,
                    },
                },
                r is Ok,
            ),
            r is Err ==> is_bus_error(r),
    {
        let config = match mode {
            OperatingMode::OneShot => self.config.with_high(OP_MODE),
            OperatingMode::Continuous => self.config.with_low(OP_MODE),
        };
        self.write_config(config)
    }

    /// Reads whether a conversion is in progress: reads the configuration
    /// register from the device (not the shadow); its OS bit is clear while
    /// the device converts.
    pub fn is_measurement_in_progress(&mut self) -> (r: Result<bool, DriverError<I2C::BusError>>)
        ensures
            final(self).same_state(old(self)),
            final(self).transfers().len() == old(self).transfers().len() + 1,
            final(self).transfers().drop_last() == old(self).transfers(),
            ({
                let last = final(self).transfers().last();
                &&& last is Read
                &&& last->Read_register == CONFIG
                &&& match r {
                    Ok(busy) => last->Read_result is Some && busy == (last->Read_result->Some_0 & OS
                        != OS),
                    Err(e) => e is I2C && last->Read_result is None,
                }
            }),
    {
        let bits = self.read_register(CONFIG)?;
        let status = Config { bits };
        Ok(!status.is_high(OS))
    }
}

impl<I2C: I2cBus, IC, MODE> Ads1x1x<I2C, IC, ic::Resolution12Bit, MODE> {
    /// Sets the data rate of a 12-bit device.
    pub fn set_data_rate(&mut self, rate: DataRate12Bit) -> (r: Result<
        (),
        DriverError<I2C::BusError>,
    >)
        ensures
            final(self).wrote_config(
                old(self),
                Config { bits: with_field(old(self).config().bits, DR_SHIFT, 7, rate.spec_bits()) },
                r is Ok,
            ),
            r is Err ==> is_bus_error(r),
    {
        let config = rate.configure(self.config);
        self.write_config(config)
    }
}

impl<I2C: I2cBus, IC, MODE> Ads1x1x<I2C, IC, ic::Resolution16Bit, MODE> {
    /// Sets the data rate of a 16-bit device.
    pub fn set_data_rate(&mut self, rate: DataRate16Bit) -> (r: Result<
        (),
        DriverError<I2C::BusError>,
    >)
        ensures
            final(self).wrote_config(
                old(self),
                Config { bits: with_field(old(self).config().bits, DR_SHIFT, 7, rate.spec_bits()) },
                r is Ok,
            ),
            r is Err ==> is_bus_error(r),
    {
        let config = rate.configure(self.config);
        self.write_config(config)
    }
}

} // verus!
