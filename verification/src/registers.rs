use crate::types::{FaultCount, Gain, IntegrationTime, InterruptStatus, PowerSavingMode};
use vstd::prelude::*;

verus! {

/// 7-bit bus address of the device.
pub const DEVICE_ADDRESS: u8 = 0x10;

/// Configuration register (gain, integration time, persistence,
/// interrupt enable, shutdown).
pub const REGISTER_ALS_CONF: u8 = 0x00;

/// High threshold register.
pub const REGISTER_ALS_WH: u8 = 0x01;

/// Low threshold register.
pub const REGISTER_ALS_WL: u8 = 0x02;

/// Power-saving mode register.
pub const REGISTER_PSM: u8 = 0x03;

/// Ambient light measurement register (read-only).
pub const REGISTER_ALS: u8 = 0x04;

/// White channel measurement register (read-only).
pub const REGISTER_WHITE: u8 = 0x05;

/// Interrupt status register (read-only).
pub const REGISTER_ALS_INT: u8 = 0x06;

/// Shutdown bit of the configuration register (bit 0).
pub const ALS_SD: u16 = 0x0001;

/// Interrupt-enable bit of the configuration register (bit 1).
pub const ALS_INT_EN: u16 = 0x0002;

/// Persistence (fault count) field of the configuration register
/// (bits 4 and 5).
pub const FAULT_COUNT_MASK: u16 = 0x0030;

/// Integration-time field of the configuration register (bits 6 to 9).
pub const INTEGRATION_TIME_MASK: u16 = 0x03c0;

/// Gain field of the configuration register (bits 11 and 12).
pub const GAIN_MASK: u16 = 0x1800;

/// Enable bit of the power-saving register (bit 0).
pub const PSM_EN: u16 = 0x0001;

/// Too-low flag of the interrupt status register (bit 15).
pub const INT_TH_LOW: u16 = 0x8000;

/// Too-high flag of the interrupt status register (bit 14).
pub const INT_TH_HIGH: u16 = 0x4000;

/// In-memory mirror of the 16-bit configuration register.
#[derive(Debug, Clone, Copy, PartialEq, Eq, Structural)]
pub struct Config {
    /// The register word.
    pub bits: u16,
}

/// Device code for an integration time (bits 6 to 9 of the
/// configuration register, before shifting).
pub open spec fn spec_integration_time_bits(it: IntegrationTime) -> u16 {
    match it {
        IntegrationTime::_25ms => 0b1100,
        IntegrationTime::_50ms => 0b1000,
        IntegrationTime::_100ms => 0b0000,
        IntegrationTime::_200ms => 0b0001,
        IntegrationTime::_400ms => 0b0010,
        IntegrationTime::_800ms => 0b0011,
    }
}

/// Device code for a gain (bits 11 and 12 of the configuration
/// register, before shifting).
pub open spec fn spec_gain_bits(gain: Gain) -> u16 {
    match gain {
        Gain::One => 0,
        Gain::Two => 1,
        Gain::OneEighth => 2,
        Gain::OneQuarter => 3,
    }
}

/// Device code for a fault count (bits 4 and 5 of the configuration
/// register, before shifting).
pub open spec fn spec_fault_count_bits(fc: FaultCount) -> u16 {
    match fc {
        FaultCount::One => 0,
        FaultCount::Two => 1,
        FaultCount::Four => 2,
        FaultCount::Eight => 3,
    }
}

/// Device code for a power-saving mode (bits 1 and 2 of the power-saving
/// register, before shifting).
pub open spec fn spec_psm_bits(psm: PowerSavingMode) -> u16 {
    match psm {
        PowerSavingMode::One => 0,
        PowerSavingMode::Two => 1,
        PowerSavingMode::Three => 2,
        PowerSavingMode::Four => 3,
    }
}

/// The configuration word after replacing the integration-time field.
pub open spec fn spec_with_integration_time(c: Config, it: IntegrationTime) -> Config {
    Config { bits: (c.bits & !INTEGRATION_TIME_MASK) | (spec_integration_time_bits(it) << 6) }
}

/// The configuration word after replacing the gain field.
pub open spec fn spec_with_gain(c: Config, gain: Gain) -> Config {
    Config { bits: (c.bits & !GAIN_MASK) | (spec_gain_bits(gain) << 11) }
}

/// The configuration word after replacing the persistence field.
pub open spec fn spec_with_fault_count(c: Config, fc: FaultCount) -> Config {
    Config { bits: (c.bits & !FAULT_COUNT_MASK) | (spec_fault_count_bits(fc) << 4) }
}

/// The full power-saving register word for an enabled mode.
pub open spec fn spec_psm_register_value(psm: PowerSavingMode) -> u16 {
    PSM_EN | (spec_psm_bits(psm) << 1)
}

impl Default for Config {
    /// The all-clear configuration word.
    fn default() -> (c: Self)
        ensures
            c.bits == 0,
    {
        Config { bits: 0 }
    }
}

impl Config {
    /// The word with every bit of the mask set.
    pub fn with_high(self, mask: u16) -> (r: Config)
        ensures
            r.bits == self.bits | mask,
    {
        Config { bits: self.bits | mask }
    }

    /// The word with every bit of the mask cleared.
    pub fn with_low(self, mask: u16) -> (r: Config)
        ensures
            r.bits == self.bits & !mask,
    {
        Config { bits: self.bits & !mask }
    }

    /// The word with the integration-time field replaced and every other
    /// field untouched.
    pub fn with_integration_time(self, it: IntegrationTime) -> (r: Config)
        ensures
            r == spec_with_integration_time(self, it),
    {
        let code: u16 = match it {
            IntegrationTime::_25ms => 0b1100,
            IntegrationTime::_50ms => 0b1000,
            IntegrationTime::_100ms => 0b0000,
            IntegrationTime::_200ms => 0b0001,
            IntegrationTime::_400ms => 0b0010,
            IntegrationTime::_800ms => 0b0011,
        };
        Config { bits: (self.bits & !INTEGRATION_TIME_MASK) | (code << 6) }
    }

    /// The word with the gain field replaced and every other field
    /// untouched.
    pub fn with_gain(self, gain: Gain) -> (r: Config)
        ensures
            r == spec_with_gain(self, gain),
    {
        let code: u16 = match gain {
            Gain::One => 0,
            Gain::Two => 1,
            Gain::OneEighth => 2,
            Gain::OneQuarter => 3,
        };
        Config { bits: (self.bits & !GAIN_MASK) | (code << 11) }
    }

    /// The word with the persistence field replaced and every other field
    /// untouched.
    pub fn with_fault_count(self, fc: FaultCount) -> (r: Config)
        ensures
            r == spec_with_fault_count(self, fc),
    {
        let code: u16 = match fc {
            FaultCount::One => 0,
            FaultCount::Two => 1,
            FaultCount::Four => 2,
            FaultCount::Eight => 3,
        };
        Config { bits: (self.bits & !FAULT_COUNT_MASK) | (code << 4) }
    }
}

/// The full power-saving register word for an enabled mode: the enable
/// bit plus the 2-bit mode code.
pub fn psm_register_value(psm: PowerSavingMode) -> (value: u16)
    ensures
        value == spec_psm_register_value(psm),
{
    let code: u16 = match psm {
        PowerSavingMode::One => 0,
        PowerSavingMode::Two => 1,
        PowerSavingMode::Three => 2,
        PowerSavingMode::Four => 3,
    };
    PSM_EN | (code << 1)
}

/// The 3-byte write frame for a register: the register address followed
/// by the 16-bit value, little-endian.
pub fn encode_register_write(register: u8, value: u16) -> (frame: [u8; 3])
    ensures
        frame@[0] == register,
        frame@[1] == value as int % 256,
        frame@[2] == value as int / 256,
{
    proof {
        assert(value >> 8 == value / 256 && value >> 8 < 256 && value & 0xff == value % 256)
            by (bit_vector);
    }
    [register, (value & 0xff) as u8, (value >> 8) as u8]
}

/// The 16-bit register value carried by a 2-byte read, little-endian.
pub fn decode_register_value(data: [u8; 2]) -> (value: u16)
    ensures
        value == data@[0] + 256 * data@[1],
{
    let lo = data[0];
    let hi = data[1];
    proof {
        assert((lo as u16) | ((hi as u16) << 8) == lo + 256 * hi) by (bit_vector);
    }
    (lo as u16) | ((hi as u16) << 8)
}

/// The interrupt status carried by the interrupt status register:
/// bit 15 latches a low-threshold violation, bit 14 a high-threshold one.
pub open spec fn spec_interrupt_status(raw: u16) -> InterruptStatus {
    InterruptStatus {
        was_too_low: raw & INT_TH_LOW != 0,
        was_too_high: raw & INT_TH_HIGH != 0,
    }
}

/// Decode the raw interrupt status register word.
pub fn interrupt_status_from_raw(raw: u16) -> (status: InterruptStatus)
    ensures
        status == spec_interrupt_status(raw),
        status.was_too_low == (raw & INT_TH_LOW != 0),
        status.was_too_high == (raw & INT_TH_HIGH != 0),
{
    InterruptStatus {
        was_too_low: raw & INT_TH_LOW != 0,
        was_too_high: raw & INT_TH_HIGH != 0,
    }
}

/// Law: replacing the gain field changes bits 11 and 12 only; the
/// shutdown, interrupt-enable, persistence and integration-time fields
/// keep their previous values, and the gain field carries the new code.
pub proof fn lemma_with_gain_changes_only_gain_bits(c: Config, gain: Gain)
    ensures
        spec_with_gain(c, gain).bits & !GAIN_MASK == c.bits & !GAIN_MASK,
        spec_with_gain(c, gain).bits & GAIN_MASK == spec_gain_bits(gain) << 11,
        spec_with_gain(c, gain).bits & ALS_SD == c.bits & ALS_SD,
        spec_with_gain(c, gain).bits & ALS_INT_EN == c.bits & ALS_INT_EN,
        spec_with_gain(c, gain).bits & FAULT_COUNT_MASK == c.bits & FAULT_COUNT_MASK,
        spec_with_gain(c, gain).bits & INTEGRATION_TIME_MASK == c.bits & INTEGRATION_TIME_MASK,
{
    let bits = c.bits;
    let code = spec_gain_bits(gain);
    assert(code <= 3) by {
        match gain {
            Gain::One => {},
            Gain::Two => {},
            Gain::OneEighth => {},
            Gain::OneQuarter => {},
        }
    }
    assert(code <= 3 ==> {
        &&& ((bits & !0x1800) | (code << 11)) & !0x1800u16 == bits & !0x1800
        &&& ((bits & !0x1800) | (code << 11)) & 0x1800u16 == code << 11
        &&& ((bits & !0x1800) | (code << 11)) & 0x0001u16 == bits & 0x0001
        &&& ((bits & !0x1800) | (code << 11)) & 0x0002u16 == bits & 0x0002
        &&& ((bits & !0x1800) | (code << 11)) & 0x0030u16 == bits & 0x0030
        &&& ((bits & !0x1800) | (code << 11)) & 0x03c0u16 == bits & 0x03c0
    }) by (bit_vector);
}

/// Law: clearing the shutdown bit and then setting it again (an enable
/// followed by a disable) leaves the integration-time, gain, persistence
/// and interrupt-enable fields bit-identical to their values before.
pub proof fn lemma_enable_then_disable_preserves_fields(c: Config)
    ensures
        ((c.bits & !ALS_SD) | ALS_SD) & ALS_INT_EN == c.bits & ALS_INT_EN,
        ((c.bits & !ALS_SD) | ALS_SD) & FAULT_COUNT_MASK == c.bits & FAULT_COUNT_MASK,
        ((c.bits & !ALS_SD) | ALS_SD) & INTEGRATION_TIME_MASK == c.bits & INTEGRATION_TIME_MASK,
        ((c.bits & !ALS_SD) | ALS_SD) & GAIN_MASK == c.bits & GAIN_MASK,
{
    let bits = c.bits;
    assert({
        &&& ((bits & !0x0001) | 0x0001) & 0x0002u16 == bits & 0x0002
        &&& ((bits & !0x0001) | 0x0001) & 0x0030u16 == bits & 0x0030
        &&& ((bits & !0x0001) | 0x0001) & 0x03c0u16 == bits & 0x03c0
        &&& ((bits & !0x0001) | 0x0001) & 0x1800u16 == bits & 0x1800
    }) by (bit_vector);
}

} // verus!
