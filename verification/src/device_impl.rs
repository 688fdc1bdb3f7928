use crate::bus::Bus;
use crate::registers::{
    decode_register_value, encode_register_write, interrupt_status_from_raw, psm_register_value,
    spec_interrupt_status, spec_with_fault_count, spec_with_gain, spec_with_integration_time,
    Config, ALS_INT_EN, ALS_SD, DEVICE_ADDRESS, REGISTER_ALS, REGISTER_ALS_CONF, REGISTER_ALS_INT,
    REGISTER_ALS_WH, REGISTER_ALS_WL, REGISTER_PSM, REGISTER_WHITE,
};
use crate::threshold::spec_is_raw_threshold;
use crate::types::{FaultCount, Gain, IntegrationTime, InterruptStatus, PowerSavingMode};
use crate::Error;
use vstd::prelude::*;

verus! {

/// VEML7700 device driver.
///
/// It mirrors the device's configuration register together with the
/// gain and integration time that were last confirmed written, so that
/// later conversions can rely on them. A failed transaction never
/// changes the mirror.
pub struct Veml7700<I2C> {
    /// The concrete bus implementation.
    i2c: I2C,
    /// Mirror of the configuration register, updated only after a
    /// successful write.
    config: Config,
    /// Gain last confirmed written to the device.
    gain: Gain,
    /// Integration time last confirmed written to the device.
    it: IntegrationTime,
}

impl<I2C> Veml7700<I2C> {
    /// The mirrored configuration register word.
    pub closed spec fn spec_config(&self) -> Config {
        self.config
    }

    /// The cached gain, as last confirmed written.
    pub closed spec fn spec_gain(&self) -> Gain {
        self.gain
    }

    /// The cached integration time, as last confirmed written.
    pub closed spec fn spec_integration_time(&self) -> IntegrationTime {
        self.it
    }

    /// The whole in-memory mirror: configuration word, gain and
    /// integration time.
    pub open spec fn spec_mirror(&self) -> (Config, Gain, IntegrationTime) {
        (self.spec_config(), self.spec_gain(), self.spec_integration_time())
    }
}

impl<I2C: Bus> Veml7700<I2C> {
    /// Create a new instance of the VEML7700 device, consuming the bus
    /// handle. The device starts shut down, with gain 1 and an
    /// integration time of 100 ms mirrored.
    pub fn new(i2c: I2C) -> (device: Veml7700<I2C>)
        ensures
            device.spec_config().bits == ALS_SD,
            device.spec_gain() == Gain::One,
            device.spec_integration_time() == IntegrationTime::_100ms,
    {
        Veml7700 { i2c, config: Config { bits: ALS_SD }, gain: Gain::One, it: IntegrationTime::_100ms }
    }

    /// Destroy driver instance, return the bus instance.
    pub fn destroy(self) -> I2C {
        self.i2c
    }

    /// Enable the device by clearing the shutdown bit; every other
    /// configuration field keeps its value. On a transport error
    /// nothing changes.
    ///
    /// Note that when activating the sensor a wait time of 4 ms should
    /// be observed before the first measurement is picked up to allow
    /// for a correct start of the signal processor and oscillator.
    pub fn enable(&mut self) -> (res: Result<(), Error<I2C::BusError>>)
        ensures
            final(self).spec_gain() == old(self).spec_gain(),
            final(self).spec_integration_time() == old(self).spec_integration_time(),
            res is Ok ==> final(self).spec_config().bits == (old(self).spec_config().bits
                & !ALS_SD),
            res is Err ==> final(self).spec_config() == old(self).spec_config(),
    {
        let config = self.config.with_low(ALS_SD);
        self.set_config(config)
    }

    /// Disable the device (shutdown) by setting the shutdown bit; every
    /// other configuration field keeps its value. On a transport error
    /// nothing changes.
    pub fn disable(&mut self) -> (res: Result<(), Error<I2C::BusError>>)
        ensures
            final(self).spec_gain() == old(self).spec_gain(),
            final(self).spec_integration_time() == old(self).spec_integration_time(),
            res is Ok ==> final(self).spec_config().bits == (old(self).spec_config().bits
                | ALS_SD),
            res is Err ==> final(self).spec_config() == old(self).spec_config(),
    {
        let config = self.config.with_high(ALS_SD);
        self.set_config(config)
    }

    /// Set the integration time.
    ///
    /// On success the configuration mirror carries the new
    /// integration-time field, with every other field untouched, and
    /// the cached integration time follows. On a transport error
    /// nothing changes.
    pub fn set_integration_time(&mut self, it: IntegrationTime) -> (res: Result<
        (),
        Error<I2C::BusError>,
    >)
        ensures
            final(self).spec_gain() == old(self).spec_gain(),
            res is Ok ==> final(self).spec_config() == spec_with_integration_time(
                old(self).spec_config(),
                it,
            ) && final(self).spec_integration_time() == it,
            res is Err ==> final(self).spec_config() == old(self).spec_config()
                && final(self).spec_integration_time() == old(self).spec_integration_time(),
    {
        let config = self.config.with_integration_time(it);
        match self.set_config(config) {
            Ok(()) => {
                self.it = it;
                Ok(())
            },
            Err(e) => Err(e),
        }
    }

    /// Set the gain.
    ///
    /// On success the configuration mirror carries the new gain field,
    /// with every other field untouched, and the cached gain follows.
    /// On a transport error nothing changes.
    pub fn set_gain(&mut self, gain: Gain) -> (res: Result<(), Error<I2C::BusError>>)
        ensures
            final(self).spec_integration_time() == old(self).spec_integration_time(),
            res is Ok ==> final(self).spec_config() == spec_with_gain(old(self).spec_config(), gain)
                && final(self).spec_gain() == gain,
            res is Err ==> final(self).spec_config() == old(self).spec_config()
                && final(self).spec_gain() == old(self).spec_gain(),
    {
        let config = self.config.with_gain(gain);
        match self.set_config(config) {
            Ok(()) => {
                self.gain = gain;
                Ok(())
            },
            Err(e) => Err(e),
        }
    }

    /// Set the number of times a threshold crossing must happen
    /// consecutively to trigger an interrupt. On a transport error
    /// nothing changes.
    pub fn set_fault_count(&mut self, fc: FaultCount) -> (res: Result<(), Error<I2C::BusError>>)
        ensures
            final(self).spec_gain() == old(self).spec_gain(),
            final(self).spec_integration_time() == old(self).spec_integration_time(),
            res is Ok ==> final(self).spec_config() == spec_with_fault_count(
                old(self).spec_config(),
                fc,
            ),
            res is Err ==> final(self).spec_config() == old(self).spec_config(),
    {
        let config = self.config.with_fault_count(fc);
        self.set_config(config)
    }

    /// Enable interrupt generation; only the interrupt-enable bit
    /// changes. On a transport error nothing changes.
    pub fn enable_interrupts(&mut self) -> (res: Result<(), Error<I2C::BusError>>)
        ensures
            final(self).spec_gain() == old(self).spec_gain(),
            final(self).spec_integration_time() == old(self).spec_integration_time(),
            res is Ok ==> final(self).spec_config().bits == (old(self).spec_config().bits
                | ALS_INT_EN),
            res is Err ==> final(self).spec_config() == old(self).spec_config(),
    {
        let config = self.config.with_high(ALS_INT_EN);
        self.set_config(config)
    }

    /// Disable interrupt generation; only the interrupt-enable bit
    /// changes. On a transport error nothing changes.
    pub fn disable_interrupts(&mut self) -> (res: Result<(), Error<I2C::BusError>>)
        ensures
            final(self).spec_gain() == old(self).spec_gain(),
            final(self).spec_integration_time() == old(self).spec_integration_time(),
            res is Ok ==> final(self).spec_config().bits == (old(self).spec_config().bits
                & !ALS_INT_EN),
            res is Err ==> final(self).spec_config() == old(self).spec_config(),
    {
        let config = self.config.with_low(ALS_INT_EN);
        self.set_config(config)
    }

    /// Set the ALS high threshold in raw format. The threshold register
    /// is not mirrored, so the in-memory state is untouched either way.
    pub fn set_high_threshold_raw(&mut self, threshold: u16) -> (res: Result<
        (),
        Error<I2C::BusError>,
    >)
        ensures
            final(self).spec_mirror() == old(self).spec_mirror(),
    {
        self.write_register(REGISTER_ALS_WH, threshold)
    }

    /// Set the ALS low threshold in raw format. The threshold register
    /// is not mirrored, so the in-memory state is untouched either way.
    pub fn set_low_threshold_raw(&mut self, threshold: u16) -> (res: Result<
        (),
        Error<I2C::BusError>,
    >)
        ensures
            final(self).spec_mirror() == old(self).spec_mirror(),
    {
        self.write_register(REGISTER_ALS_WL, threshold)
    }

    /// Set the ALS high threshold in microlux, under the cached gain
    /// and integration time.
    ///
    /// For values higher than 1000 lux at 1/4 or 1/8 gain, the inverse
    /// of the compensation formula is applied.
    pub fn set_high_threshold_lux(&mut self, lux: u64) -> (res: Result<(), Error<I2C::BusError>>)
        ensures
            final(self).spec_mirror() == old(self).spec_mirror(),
    {
        let raw = self.calculate_raw_threshold_value(lux);
        self.set_high_threshold_raw(raw)
    }

    /// Set the ALS low threshold in microlux, under the cached gain and
    /// integration time.
    ///
    /// For values higher than 1000 lux at 1/4 or 1/8 gain, the inverse
    /// of the compensation formula is applied.
    pub fn set_low_threshold_lux(&mut self, lux: u64) -> (res: Result<(), Error<I2C::BusError>>)
        ensures
            final(self).spec_mirror() == old(self).spec_mirror(),
    {
        let raw = self.calculate_raw_threshold_value(lux);
        self.set_low_threshold_raw(raw)
    }

    /// Calculate the raw value for a microlux threshold, applying
    /// compensation if necessary.
    ///
    /// This takes into consideration the cached integration time and
    /// gain and inverts the compensation where it would apply. It
    /// involves quite some math, so it may be interesting to calculate
    /// the threshold values ahead of time.
    pub fn calculate_raw_threshold_value(&self, lux: u64) -> (raw: u16)
        ensures
            spec_is_raw_threshold(
                self.spec_integration_time(),
                self.spec_gain(),
                lux as int,
                raw as int,
            ),
    {
        crate::threshold::calculate_raw_threshold_value(self.it, self.gain, lux)
    }

    /// Enable the power-saving mode. The power-saving register is not
    /// mirrored, so the in-memory state is untouched either way.
    pub fn enable_power_saving(&mut self, psm: PowerSavingMode) -> (res: Result<
        (),
        Error<I2C::BusError>,
    >)
        ensures
            final(self).spec_mirror() == old(self).spec_mirror(),
    {
        let value = psm_register_value(psm);
        self.write_register(REGISTER_PSM, value)
    }

    /// Disable the power-saving mode. The power-saving register is not
    /// mirrored, so the in-memory state is untouched either way.
    pub fn disable_power_saving(&mut self) -> (res: Result<(), Error<I2C::BusError>>)
        ensures
            final(self).spec_mirror() == old(self).spec_mirror(),
    {
        self.write_register(REGISTER_PSM, 0)
    }

    /// Read whether an interrupt has occurred: the decoded word of the
    /// interrupt status register.
    ///
    /// Note that the interrupt status is updated at the same rate as
    /// the measurements. Once triggered, flags will stay true until a
    /// measurement is taken which does not exceed the threshold.
    pub fn read_interrupt_status(&mut self) -> (res: Result<InterruptStatus, Error<I2C::BusError>>)
        ensures
            final(self).spec_mirror() == old(self).spec_mirror(),
            res matches Ok(status) ==> exists|raw: u16| status == #[trigger] spec_interrupt_status(
                raw,
            ),
    {
        match self.read_register(REGISTER_ALS_INT) {
            Ok(data) => Ok(interrupt_status_from_raw(data)),
            Err(e) => Err(e),
        }
    }

    /// Read the ALS high-resolution output data in raw format.
    pub fn read_raw(&mut self) -> (res: Result<u16, Error<I2C::BusError>>)
        ensures
            final(self).spec_mirror() == old(self).spec_mirror(),
    {
        self.read_register(REGISTER_ALS)
    }

    /// Read the ALS high-resolution output data converted to microlux,
    /// under the cached gain and integration time.
    ///
    /// For values higher than 1000 lux at 1/4 or 1/8 gain, the
    /// compensation formula is applied.
    pub fn read_lux(&mut self) -> (res: Result<u64, Error<I2C::BusError>>)
        ensures
            final(self).spec_mirror() == old(self).spec_mirror(),
            res matches Ok(lux) ==> exists|raw: u16|
                lux == #[trigger] crate::conversion::spec_convert_microlux(
                    old(self).spec_integration_time(),
                    old(self).spec_gain(),
                    raw as int,
                ),
    {
        match self.read_register(REGISTER_ALS) {
            Ok(raw) => Ok(self.convert_raw_als_to_lux(raw)),
            Err(e) => Err(e),
        }
    }

    /// Calculate the microlux value for a raw ALS measurement, under
    /// the cached gain and integration time.
    ///
    /// For values higher than 1000 lux at 1/4 or 1/8 gain, the
    /// compensation formula is applied.
    pub fn convert_raw_als_to_lux(&self, raw_als: u16) -> (lux: u64)
        ensures
            lux == crate::conversion::spec_convert_microlux(
                self.spec_integration_time(),
                self.spec_gain(),
                raw_als as int,
            ),
    {
        crate::conversion::convert_raw_als_to_lux(self.it, self.gain, raw_als)
    }

    /// Read the white channel measurement.
    pub fn read_white(&mut self) -> (res: Result<u16, Error<I2C::BusError>>)
        ensures
            final(self).spec_mirror() == old(self).spec_mirror(),
    {
        self.read_register(REGISTER_WHITE)
    }

    /// Write the configuration register; the mirror follows strictly
    /// after the transaction reports success, never speculatively.
    fn set_config(&mut self, config: Config) -> (res: Result<(), Error<I2C::BusError>>)
        ensures
            final(self).spec_gain() == old(self).spec_gain(),
            final(self).spec_integration_time() == old(self).spec_integration_time(),
            res is Ok ==> final(self).spec_config() == config,
            res is Err ==> final(self).spec_config() == old(self).spec_config(),
    {
        match self.write_register(REGISTER_ALS_CONF, config.bits) {
            Ok(()) => {
                self.config = config;
                Ok(())
            },
            Err(e) => Err(e),
        }
    }

    /// Write a 16-bit register value, little-endian, as one
    /// transaction. The mirror is untouched either way.
    fn write_register(&mut self, register: u8, value: u16) -> (res: Result<
        (),
        Error<I2C::BusError>,
    >)
        ensures
            final(self).spec_mirror() == old(self).spec_mirror(),
    {
        let frame = encode_register_write(register, value);
        match self.i2c.write(DEVICE_ADDRESS, frame) {
            Ok(()) => Ok(()),
            Err(e) => Err(Error::I2C(e)),
        }
    }

    /// Read a 16-bit register value, little-endian, as one write-read
    /// transaction. The mirror is untouched either way.
    fn read_register(&mut self, register: u8) -> (res: Result<u16, Error<I2C::BusError>>)
        ensures
            final(self).spec_mirror() == old(self).spec_mirror(),
    {
        match self.i2c.write_read(DEVICE_ADDRESS, register) {
            Ok(data) => Ok(decode_register_value(data)),
            Err(e) => Err(Error::I2C(e)),
        }
    }
}

} // verus!
