//! Features of the devices with a comparator and a programmable gain
//! amplifier (ADS1x14, ADS1x15).
use crate::conversion::ConvertThreshold;
use crate::device::{is_bus_error, Ads1x1x};
use crate::error::DriverError;
use crate::ic::Tier2Features;
use crate::interface::{I2cBus, Transfer};
use crate::register::{
    field, with_field, Config, COMP_LAT_SHIFT, COMP_MODE_SHIFT, COMP_POL_SHIFT, COMP_QUE_DISABLED,
    COMP_QUE_SHIFT, CONFIG, HIGH_TH, LOW_TH, PGA_SHIFT,
};
use crate::types::{
    ComparatorLatching, ComparatorMode, ComparatorPolarity, ComparatorQueue, FullScaleRange,
};
use vstd::prelude::*;

verus! {

/// `log` is the record of register writes issued from `steps` in order,
/// stopping at the first that failed; `ok` tells whether all succeeded.
pub open spec fn writes_in_order(log: Seq<Transfer>, steps: Seq<(u8, u16)>, ok: bool) -> bool {
    &&& 1 <= log.len() <= steps.len()
    &&& ok ==> log.len() == steps.len()
    &&& forall|i: int|
        0 <= i < log.len() ==> #[trigger] log[i] == (Transfer::Write {
            register: steps[i].0,
            value: steps[i].1,
            done: i < log.len() - 1 || ok,
        })
}

impl<I2C, IC, CONV, MODE> Ads1x1x<I2C, IC, CONV, MODE> where
    I2C: I2cBus,
    IC: Tier2Features,
    CONV: ConvertThreshold<I2C::BusError>,
 {
    /// Sets the full-scale range: the gain of the programmable amplifier,
    /// which sets the measurable input voltage range.
    pub fn set_full_scale_range(&mut self, range: FullScaleRange) -> (r: Result<
        (),
        DriverError<I2C::BusError>,
    >)
        ensures
            final(self).wrote_config(
                old(self),
                Config {
                    bits: with_field(old(self).config().bits, PGA_SHIFT, 7, range.spec_bits()),
                },
                r is Ok,
            ),
            r is Err ==> is_bus_error(r),
    {
        let config = range.configure(self.config);
        self.write_config(config)
    }

    /// Sets the raw low threshold of the comparator.
    ///
    /// The value must lie within `[-2048, 2047]` on 12-bit devices (else
    /// `InvalidInputData`, and nothing is sent) and within the `i16` range on
    /// 16-bit devices. What voltage it stands for depends on the full-scale
    /// range.
    pub fn set_low_threshold_raw(&mut self, value: i16) -> (r: Result<
        (),
        DriverError<I2C::BusError>,
    >)
        ensures
            final(self).same_state(old(self)),
            (match CONV::threshold(value) {
                None => {
                    &&& r == Err::<(), _>(DriverError::<I2C::BusError>::InvalidInputData)
                    &&& final(self).transfers() == old(self).transfers()
                },
                Some(raw) => {
                    &&& final(self).transfers() == old(self).transfers().push(
                        Transfer::Write { register: LOW_TH, value: raw, done: r is Ok },
                    )
                    &&& r is Err ==> is_bus_error(r)
                },
            }),
    {
        let register_value = CONV::convert_threshold(value)?;
        self.write_register(LOW_TH, register_value)
    }

    /// Sets the raw high threshold of the comparator.
    ///
    /// The value must lie within `[-2048, 2047]` on 12-bit devices (else
    /// `InvalidInputData`, and nothing is sent) and within the `i16` range on
    /// 16-bit devices. What voltage it stands for depends on the full-scale
    /// range.
    pub fn set_high_threshold_raw(&mut self, value: i16) -> (r: Result<
        (),
        DriverError<I2C::BusError>,
    >)
        ensures
            final(self).same_state(old(self)),
            (match CONV::threshold(value) {
                None => {
                    &&& r == Err::<(), _>(DriverError::<I2C::BusError>::InvalidInputData)
                    &&& final(self).transfers() == old(self).transfers()
                },
                Some(raw) => {
                    &&& final(self).transfers() == old(self).transfers().push(
                        Transfer::Write { register: HIGH_TH, value: raw, done: r is Ok },
                    )
                    &&& r is Err ==> is_bus_error(r)
                },
            }),
    {
        let register_value = CONV::convert_threshold(value)?;
        self.write_register(HIGH_TH, register_value)
    }

    /// Sets the comparator mode.
    pub fn set_comparator_mode(&mut self, mode: ComparatorMode) -> (r: Result<
        (),
        DriverError<I2C::BusError>,
    >)
        ensures
            final(self).wrote_config(
                old(self),
                Config {
                    bits: with_field(old(self).config().bits, COMP_MODE_SHIFT, 1, mode.spec_bits()),
                },
                r is Ok,
            ),
            r is Err ==> is_bus_error(r),
    {
        let config = mode.configure(self.config);
        self.write_config(config)
    }

    /// Sets the polarity of the ALERT/RDY pin.
    pub fn set_comparator_polarity(&mut self, polarity: ComparatorPolarity) -> (r: Result<
        (),
        DriverError<I2C::BusError>,
    >)
        ensures
            final(self).wrote_config(
                old(self),
                Config {
                    bits: with_field(
                        old(self).config().bits,
                        COMP_POL_SHIFT,
                        1,
                        polarity.spec_bits(),
                    ),
                },
                r is Ok,
            ),
            r is Err ==> is_bus_error(r),
    {
        let config = polarity.configure(self.config);
        self.write_config(config)
    }

    /// Sets whether the ALERT/RDY pin latches.
    pub fn set_comparator_latching(&mut self, latching: ComparatorLatching) -> (r: Result<
        (),
        DriverError<I2C::BusError>,
    >)
        ensures
            final(self).wrote_config(
                old(self),
                Config {
                    bits: with_field(
                        old(self).config().bits,
                        COMP_LAT_SHIFT,
                        1,
                        latching.spec_bits(),
                    ),
                },
                r is Ok,
            ),
            r is Err ==> is_bus_error(r),
    {
        let config = latching.configure(self.config);
        self.write_config(config)
    }

    /// Activates the comparator and sets how many conversions beyond the
    /// thresholds assert the ALERT/RDY pin. `disable_comparator` turns it
    /// off again.
    pub fn set_comparator_queue(&mut self, queue: ComparatorQueue) -> (r: Result<
        (),
        DriverError<I2C::BusError>,
    >)
        ensures
            final(self).wrote_config(
                old(self),
                Config {
                    bits: with_field(old(self).config().bits, COMP_QUE_SHIFT, 3, queue.spec_bits()),
                },
                r is Ok,
            ),
            r is Err ==> is_bus_error(r),
    {
        let config = queue.configure(self.config);
        self.write_config(config)
    }

    /// Disables the comparator (the power-up state): the ALERT/RDY pin goes to
    /// high impedance. `set_comparator_queue` enables it again.
    pub fn disable_comparator(&mut self) -> (r: Result<(), DriverError<I2C::BusError>>)
        ensures
            final(self).wrote_config(
                old(self),
                Config {
                    bits: with_field(
                        old(self).config().bits,
                        COMP_QUE_SHIFT,
                        3,
                        COMP_QUE_DISABLED,
                    ),
                },
                r is Ok,
            ),
            r is Err ==> is_bus_error(r),
    {
        let config = self.config.with_field(COMP_QUE_SHIFT, 3, COMP_QUE_DISABLED);
        self.write_config(config)
    }

    /// Makes the ALERT/RDY pin signal conversion-ready: in one-shot mode it
    /// follows the OS bit, in continuous mode it pulses after each conversion.
    ///
    /// Disables the comparator first where it is enabled, then writes 0x8000
    /// to the high threshold and 0 to the low threshold.
    pub fn use_alert_rdy_pin_as_ready(&mut self) -> (r: Result<(), DriverError<I2C::BusError>>)
        ensures
            ({
                let enabled = field(old(self).config().bits, COMP_QUE_SHIFT, 3)
                    != COMP_QUE_DISABLED;
                let disabled = Config {
                    bits: with_field(
                        old(self).config().bits,
                        COMP_QUE_SHIFT,
                        3,
                        COMP_QUE_DISABLED,
                    ),
                };
                let thresholds = seq![(HIGH_TH, 0x8000u16), (LOW_TH, 0u16)];
                let steps = if enabled {
                    seq![(CONFIG, disabled.bits)] + thresholds
                } else {
                    thresholds
                };
                let log = final(self).transfers().subrange(
                    old(self).transfers().len() as int,
                    final(self).transfers().len() as int,
                );
                &&& final(self).transfers().len() >= old(self).transfers().len()
                &&& final(self).transfers().subrange(0, old(self).transfers().len() as int)
                    == old(self).transfers()
                &&& writes_in_order(log, steps, r is Ok)
                &&& final(self).config() == (if enabled && log[0]->Write_done {
                    disabled
                } else {
                    old(self).config()
                })
            }),
            final(self).conversion_started() == old(self).conversion_started(),
            final(self).address() == old(self).address(),
            r is Err ==> is_bus_error(r),
    {
        if self.config.field(COMP_QUE_SHIFT, 3) != COMP_QUE_DISABLED {
            self.disable_comparator()?;
        }
        self.write_register(HIGH_TH, 0x8000)?;
        self.write_register(LOW_TH, 0)
    }
}

} // verus!
