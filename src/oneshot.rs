//! One-shot mode: each conversion is started on request, and `read` polls
//! until its result is there.
use crate::channel::{lemma_mux_selected, ChannelId, ChannelSelection};
use crate::conversion::ConvertMeasurement;
use crate::device::{is_bus_error, Ads1x1x, OperatingMode};
use crate::error::{DriverError, ModeChangeError};
use crate::interface::{I2cBus, Transfer};
use crate::mode::{Continuous, OneShot};
use crate::register::{
    field, is_field, lemma_field_read_back, with_field, Config, CONFIG, CONVERSION, MUX_SHIFT,
    OP_MODE, OS,
};
use core::marker::PhantomData;
use vstd::prelude::*;

verus! {

/// What a one-shot read does once it has read the configuration register
/// from the device.
#[derive(Debug, Clone, Copy, PartialEq, Eq, Structural)]
pub enum ReadStep {
    /// A conversion is in progress: the read would block, and nothing more is
    /// sent.
    Busy,
    /// The conversion started earlier on the requested channel is done: read
    /// its result.
    Fetch,
    /// Start a conversion with this configuration, whose multiplexer field
    /// selects the requested channel, and report that the read would block.
    Start(Config),
}

/// The step of a one-shot read of `channel`, from the shadow `shadow`, the
/// flag `started` of a conversion in flight, and the configuration register
/// `status` as just read from the device.
///
/// The OS bit of `status` is clear while the device converts. A result is
/// fetched only where a conversion was started and the shadow selects the
/// same channel; otherwise a new conversion is started, and the result of
/// one in flight on another channel is dropped.
pub open spec fn spec_next_read_step(
    shadow: Config,
    started: bool,
    status: u16,
    channel: ChannelSelection,
) -> ReadStep {
    if status & OS != OS {
        ReadStep::Busy
    } else if started && field(shadow.bits, MUX_SHIFT, 7) == channel.spec_mux_bits() {
        ReadStep::Fetch
    } else {
        ReadStep::Start(
            Config { bits: with_field(shadow.bits, MUX_SHIFT, 7, channel.spec_mux_bits()) },
        )
    }
}

/// The step of a one-shot read of `channel` (see `spec_next_read_step`).
pub fn next_read_step(
    shadow: Config,
    started: bool,
    status: Config,
    channel: ChannelSelection,
) -> (r: ReadStep)
    ensures
        r == spec_next_read_step(shadow, started, status.bits, channel),
{
    if !status.is_high(OS) {
        return ReadStep::Busy;
    }
    let config = shadow.with_mux_bits(channel);
    proof {
        lemma_mux_selected(shadow.bits, channel);
    }
    let same_channel = config.bits == shadow.bits;
    if started && same_channel {
        ReadStep::Fetch
    } else {
        ReadStep::Start(config)
    }
}

/// Whether `after` and `r` are what a one-shot read of `channel` on `before`
/// gives, step by step as the bus answered.
pub open spec fn one_shot_read_done<I2C: I2cBus, IC, CONV: ConvertMeasurement>(
    before: &Ads1x1x<I2C, IC, CONV, OneShot>,
    after: &Ads1x1x<I2C, IC, CONV, OneShot>,
    channel: ChannelSelection,
    r: nb::Result<i16, DriverError<I2C::BusError>>,
) -> bool {
    let n = before.transfers().len();
    let log = after.transfers().subrange(n as int, after.transfers().len() as int);
    let failed = match r {
        Err(nb::Error::Other(DriverError::I2C(_))) => true,
        _ => false,
    };
    let would_block = match r {
        Err(nb::Error::WouldBlock) => true,
        _ => false,
    };
    &&& after.transfers().len() >= n
    &&& after.transfers().subrange(0, n as int) == before.transfers()
    &&& log.len() >= 1
    &&& log[0] is Read
    &&& log[0]->Read_register == CONFIG
    &&& match log[0]->Read_result {
        None => log.len() == 1 && failed && after.same_state(before),
        Some(status) => match spec_next_read_step(
            before.config(),
            before.conversion_started(),
            status,
            channel,
        ) {
            ReadStep::Busy => log.len() == 1 && would_block && after.same_state(before),
            ReadStep::Fetch => {
                &&& log.len() == 2
                &&& log[1] is Read
                &&& log[1]->Read_register == CONVERSION
                &&& match log[1]->Read_result {
                    None => failed && after.same_state(before),
                    Some(raw) => {
                        &&& r is Ok
                        &&& r->Ok_0 as int == CONV::sample(raw)
                        &&& after.config() == before.config()
                        &&& !after.conversion_started()
                        &&& after.address() == before.address()
                    },
                }
            },
            ReadStep::Start(config) => {
                &&& log.len() == 2
                &&& log[1] is Write
                &&& log[1]->Write_register == CONFIG
                &&& log[1]->value == config.bits | OS
                &&& if log[1]->done {
                    &&& would_block
                    &&& after.config() == config
                    &&& after.conversion_started()
                    &&& after.address() == before.address()
                } else {
                    failed && after.same_state(before)
                }
            },
        },
    }
}

/// The configuration that starts a conversion from the shadow `shadow` on
/// `channel` has the OS bit set and selects `channel`.
pub proof fn lemma_start_word(shadow: Config, channel: ChannelSelection)
    ensures
        ({
            let word = with_field(shadow.bits, MUX_SHIFT, 7, channel.spec_mux_bits()) | OS;
            word & OS == OS && field(word, MUX_SHIFT, 7) == channel.spec_mux_bits()
        }),
{
    let bits = shadow.bits;
    let c = channel.spec_mux_bits();
    assert(c <= 7);
    assert((with_field(bits, 12, 7, c) | 0x8000) & 0x8000 == 0x8000 && field(
        with_field(bits, 12, 7, c) | 0x8000,
        12,
        7,
    ) == c) by (bit_vector)
        requires
            c <= 7,
    ;
}

/// A one-shot read that finds a conversion in progress returns `WouldBlock`
/// after that one register read, and changes no driver state.
pub proof fn lemma_read_while_busy<I2C: I2cBus, IC, CONV: ConvertMeasurement>(
    before: &Ads1x1x<I2C, IC, CONV, OneShot>,
    after: &Ads1x1x<I2C, IC, CONV, OneShot>,
    channel: ChannelSelection,
    r: nb::Result<i16, DriverError<I2C::BusError>>,
    status: u16,
)
    requires
        one_shot_read_done(before, after, channel, r),
        after.transfers()[before.transfers().len() as int] == (Transfer::Read {
            register: CONFIG,
            result: Some(status),
        }),
        status & OS != OS,
    ensures
        r == Err::<i16, nb::Error<DriverError<I2C::BusError>>>(nb::Error::WouldBlock),
        after.transfers().len() == before.transfers().len() + 1,
        after.same_state(before),
{
    let n = before.transfers().len() as int;
    assert(after.transfers().subrange(n, after.transfers().len() as int)[0]
        == after.transfers()[n]);
}

/// A one-shot read with no conversion in flight, on an idle device, writes
/// a configuration with the OS bit set that selects the channel; once that
/// write succeeds it returns `WouldBlock` with a conversion in flight.
pub proof fn lemma_first_read_starts_conversion<I2C: I2cBus, IC, CONV: ConvertMeasurement>(
    before: &Ads1x1x<I2C, IC, CONV, OneShot>,
    after: &Ads1x1x<I2C, IC, CONV, OneShot>,
    channel: ChannelSelection,
    r: nb::Result<i16, DriverError<I2C::BusError>>,
    status: u16,
)
    requires
        one_shot_read_done(before, after, channel, r),
        after.transfers()[before.transfers().len() as int] == (Transfer::Read {
            register: CONFIG,
            result: Some(status),
        }),
        status & OS == OS,
        !before.conversion_started(),
    ensures
        ({
            let written = after.transfers()[before.transfers().len() + 1int];
            &&& after.transfers().len() == before.transfers().len() + 2
            &&& written is Write
            &&& written->Write_register == CONFIG
            &&& written->value & OS == OS
            &&& field(written->value, MUX_SHIFT, 7) == channel.spec_mux_bits()
            &&& written->done ==> r == Err::<i16, nb::Error<DriverError<I2C::BusError>>>(
                nb::Error::WouldBlock,
            ) && after.conversion_started() && field(after.config().bits, MUX_SHIFT, 7)
                == channel.spec_mux_bits()
        }),
{
    let n = before.transfers().len() as int;
    let log = after.transfers().subrange(n, after.transfers().len() as int);
    assert(log[0] == after.transfers()[n]);
    assert(log[1] == after.transfers()[n + 1]);
    lemma_start_word(before.config(), channel);
    assert(is_field(MUX_SHIFT, 7)) by (bit_vector);
    lemma_field_read_back(before.config().bits, MUX_SHIFT, 7, channel.spec_mux_bits());
}

/// A one-shot read, on an idle device, of the channel whose conversion is in
/// flight reads the conversion register next; where that read succeeds it
/// returns the decoded sample and clears the flag.
pub proof fn lemma_read_fetches_result<I2C: I2cBus, IC, CONV: ConvertMeasurement>(
    before: &Ads1x1x<I2C, IC, CONV, OneShot>,
    after: &Ads1x1x<I2C, IC, CONV, OneShot>,
    channel: ChannelSelection,
    r: nb::Result<i16, DriverError<I2C::BusError>>,
    status: u16,
    raw: u16,
)
    requires
        one_shot_read_done(before, after, channel, r),
        after.transfers()[before.transfers().len() as int] == (Transfer::Read {
            register: CONFIG,
            result: Some(status),
        }),
        status & OS == OS,
        before.conversion_started(),
        field(before.config().bits, MUX_SHIFT, 7) == channel.spec_mux_bits(),
        after.transfers()[before.transfers().len() + 1int] == (Transfer::Read {
            register: CONVERSION,
            result: Some(raw),
        }),
    ensures
        r is Ok,
        r->Ok_0 as int == CONV::sample(raw),
        after.transfers().len() == before.transfers().len() + 2,
        !after.conversion_started(),
        after.config() == before.config(),
{
    let n = before.transfers().len() as int;
    let log = after.transfers().subrange(n, after.transfers().len() as int);
    assert(log[0] == after.transfers()[n]);
    assert(log[1] == after.transfers()[n + 1]);
}

/// A one-shot read of another channel than the one whose conversion is in
/// flight never returns a sample: on an idle device it writes a
/// configuration that starts a conversion on the new channel.
pub proof fn lemma_read_other_channel_restarts<I2C: I2cBus, IC, CONV: ConvertMeasurement>(
    before: &Ads1x1x<I2C, IC, CONV, OneShot>,
    after: &Ads1x1x<I2C, IC, CONV, OneShot>,
    channel: ChannelSelection,
    r: nb::Result<i16, DriverError<I2C::BusError>>,
    status: u16,
)
    requires
        one_shot_read_done(before, after, channel, r),
        after.transfers()[before.transfers().len() as int] == (Transfer::Read {
            register: CONFIG,
            result: Some(status),
        }),
        status & OS == OS,
        before.conversion_started(),
        field(before.config().bits, MUX_SHIFT, 7) != channel.spec_mux_bits(),
    ensures
        !(r is Ok),
        ({
            let written = after.transfers()[before.transfers().len() + 1int];
            &&& after.transfers().len() == before.transfers().len() + 2
            &&& written is Write
            &&& written->Write_register == CONFIG
            &&& written->value & OS == OS
            &&& field(written->value, MUX_SHIFT, 7) == channel.spec_mux_bits()
        }),
{
    let n = before.transfers().len() as int;
    let log = after.transfers().subrange(n, after.transfers().len() as int);
    assert(log[0] == after.transfers()[n]);
    assert(log[1] == after.transfers()[n + 1]);
    lemma_start_word(before.config(), channel);
}

impl<I2C: I2cBus, IC, CONV: ConvertMeasurement> Ads1x1x<I2C, IC, CONV, OneShot> {
    /// Changes to continuous conversion mode. Where the bus fails, the error
    /// comes back with this device, unchanged and still in one-shot mode.
    pub fn into_continuous(self) -> (r: Result<
        Ads1x1x<I2C, IC, CONV, Continuous>,
        ModeChangeError<I2C::BusError, Self>,
    >)
        ensures
            ({
                let bits = self.config().bits & !OP_MODE;
                match r {
                    Ok(dev) => {
                        &&& dev.config() == Config { bits }
                        &&& dev.conversion_started()
                        &&& dev.address() == self.address()
                        &&& dev.transfers() == self.transfers().push(
                            Transfer::Write { register: CONFIG, value: bits, done: true },
                        )
                    },
                    Err(ModeChangeError::I2C(_, dev)) => {
                        &&& dev.same_state(&self)
                        &&& dev.transfers() == self.transfers().push(
                            Transfer::Write { register: CONFIG, value: bits, done: false },
                        )
                    },
                }
            }),
    {
        let mut dev = self;
        match dev.set_operating_mode(OperatingMode::Continuous) {
            Err(DriverError::I2C(e)) => Err(ModeChangeError::I2C(e, dev)),
            _ => Ok(
                Ads1x1x {
                    i2c: dev.i2c,
                    address: dev.address,
                    config: dev.config,
                    a_conversion_was_started: true,
                    transfers: dev.transfers,
                    _ic: PhantomData,
                    _conv: PhantomData,
                    _mode: PhantomData,
                },
            ),
        }
    }

    /// Writes `config` with the OS bit set to the configuration register,
    /// which starts a conversion.
    fn trigger_measurement(&mut self, config: &Config) -> (r: Result<
        (),
        DriverError<I2C::BusError>,
    >)
        ensures
            final(self).same_state(old(self)),
            final(self).transfers() == old(self).transfers().push(
                Transfer::Write { register: CONFIG, value: config.bits | OS, done: r is Ok },
            ),
            r is Err ==> is_bus_error(r),
    {
        let config = config.with_high(OS);
        self.write_register(CONFIG, config.bits)
    }

    /// Reads a sample of `channel`, one step per call.
    ///
    /// Reads the configuration register from the device first. While a
    /// conversion is in progress this returns `WouldBlock`. Once the
    /// conversion started on `channel` is done, this reads and returns its
    /// result. Otherwise it starts a conversion on `channel` (dropping one in
    /// flight on another channel) and returns `WouldBlock`. Call again until
    /// a sample comes back; the caller owns any timeout.
    ///
    /// The sample lies within `[-2048, 2047]` on 12-bit devices and within
    /// the `i16` range on 16-bit devices; its voltage depends on the
    /// full-scale range.
    pub fn read<CH: ChannelId<IC>>(&mut self, channel: CH) -> (r: nb::Result<
        i16,
        DriverError<I2C::BusError>,
    >)
        ensures
            one_shot_read_done(old(self), final(self), CH::spec_channel_id(), r),
    {
        let ghost before = *self;
        let status = match self.read_register(CONFIG) {
            Ok(bits) => Config { bits },
            Err(e) => {
                assert(self.transfers@.subrange(0, before.transfers@.len() as int)
                    =~= before.transfers@);
                return Err(nb::Error::Other(e));
            },
        };
        match next_read_step(self.config, self.a_conversion_was_started, status, CH::channel_id()) {
            ReadStep::Busy => {
                assert(self.transfers@.subrange(0, before.transfers@.len() as int)
                    =~= before.transfers@);
                Err(nb::Error::WouldBlock)
            },
            ReadStep::Fetch => {
                let value = match self.read_register(CONVERSION) {
                    Ok(value) => value,
                    Err(e) => {
                        assert(self.transfers@.subrange(0, before.transfers@.len() as int)
                            =~= before.transfers@);
                        return Err(nb::Error::Other(e));
                    },
                };
                self.a_conversion_was_started = false;
                assert(self.transfers@.subrange(0, before.transfers@.len() as int)
                    =~= before.transfers@);
                Ok(CONV::convert_measurement(value))
            },
            ReadStep::Start(config) => {
                if let Err(e) = self.trigger_measurement(&config) {
                    assert(self.transfers@.subrange(0, before.transfers@.len() as int)
                        =~= before.transfers@);
                    return Err(nb::Error::Other(e));
                }
                self.config = config;
                self.a_conversion_was_started = true;
                assert(self.transfers@.subrange(0, before.transfers@.len() as int)
                    =~= before.transfers@);
                Err(nb::Error::WouldBlock)
            },
        }
    }
}

} // verus!
