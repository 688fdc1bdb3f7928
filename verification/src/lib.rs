//! Platform-agnostic driver for the VEML7700 high-accuracy ambient light
//! sensor.
//!
//! The driver owns a two-wire bus handle, mirrors the device's 16-bit
//! configuration register in memory, and converts raw 16-bit measurements
//! into illuminance. All illuminance values are carried as integer
//! microlux so that the conversion and threshold arithmetic is exact.
//!
//! This driver allows you to:
//! - Enable/disable the device.
//! - Read the measured ambient light value in raw format or in microlux.
//! - Read the white channel measurement.
//! - Set the gain, integration time and fault count.
//! - Enable/disable and configure the power-saving mode.
//! - Enable/disable interrupts and read the interrupt status.
//! - Set the high/low thresholds in microlux or raw.
//! - Calculate the compensated raw threshold value ahead of time.

use vstd::prelude::*;

mod bus;
mod conversion;
mod device_impl;
mod registers;
mod threshold;
mod types;

pub use crate::bus::Bus;
pub use crate::device_impl::Veml7700;
pub use crate::conversion::{
    convert_raw_als_to_lux, lemma_convert_monotone, lemma_convert_strictly_increasing,
    lemma_corrected_exceeds_linear, lemma_factor_bounds, lemma_linear_bounds,
    lemma_low_lux_is_linear, lemma_resolution_factor_table, resolution_factor_microlux,
    spec_convert_microlux, spec_gain_is_low, spec_gain_times_8, spec_linear_microlux,
    spec_resolution_factor_microlux, CORRECTION_THRESHOLD_MICROLUX, MAX_ALS_MICROLUX,
};
pub use crate::threshold::{
    calculate_raw_threshold_value, lemma_low_threshold_divides_directly, lemma_raw_lux_round_trip,
    spec_is_raw_threshold, spec_round_div, spec_threshold_linear,
};
pub use crate::registers::{
    decode_register_value, encode_register_write, interrupt_status_from_raw,
    lemma_enable_then_disable_preserves_fields, lemma_with_gain_changes_only_gain_bits,
    psm_register_value, spec_fault_count_bits, spec_gain_bits, spec_integration_time_bits,
    spec_interrupt_status, spec_psm_bits, spec_psm_register_value, spec_with_fault_count,
    spec_with_gain, spec_with_integration_time, Config, ALS_INT_EN, ALS_SD, DEVICE_ADDRESS,
    FAULT_COUNT_MASK, GAIN_MASK, INTEGRATION_TIME_MASK, INT_TH_HIGH, INT_TH_LOW, PSM_EN,
    REGISTER_ALS, REGISTER_ALS_CONF, REGISTER_ALS_INT, REGISTER_ALS_WH, REGISTER_ALS_WL,
    REGISTER_PSM, REGISTER_WHITE,
};
pub use crate::types::{FaultCount, Gain, IntegrationTime, InterruptStatus, PowerSavingMode};

verus! {

/// All possible errors in this crate.
#[derive(Debug)]
pub enum Error<E> {
    /// Bus error during a register transaction.
    I2C(E),
}

impl<E> From<E> for Error<E> {
    /// Wrap a transport error.
    fn from(other: E) -> (r: Self) {
        Error::I2C(other)
    }
}

impl<E> vstd::std_specs::convert::FromSpecImpl<E> for Error<E> {
    open spec fn obeys_from_spec() -> bool {
        true
    }

    open spec fn from_spec(t: E) -> Self {
        Error::I2C(t)
    }
}

} // verus!
