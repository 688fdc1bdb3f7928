use veml7700::{
    Bus, Error, FaultCount, Gain, IntegrationTime, PowerSavingMode, Veml7700, DEVICE_ADDRESS,
};

/// A scripted bus: records every transaction and fails the calls whose
/// index is listed.
struct MockBus {
    writes: Vec<(u8, [u8; 3])>,
    reads: Vec<(u8, u8)>,
    response: [u8; 2],
    failures: Vec<usize>,
    calls: usize,
}

impl MockBus {
    fn new() -> Self {
        MockBus { writes: Vec::new(), reads: Vec::new(), response: [0, 0], failures: Vec::new(), calls: 0 }
    }

    fn failing_at(failures: Vec<usize>) -> Self {
        MockBus { failures, ..MockBus::new() }
    }

    fn with_response(response: [u8; 2]) -> Self {
        MockBus { response, ..MockBus::new() }
    }

    fn next_outcome(&mut self) -> Result<(), u8> {
        let call = self.calls;
        self.calls += 1;
        if self.failures.contains(&call) {
            Err(0x55)
        } else {
            Ok(())
        }
    }
}

impl Bus for MockBus {
    type BusError = u8;

    fn write(&mut self, address: u8, bytes: [u8; 3]) -> Result<(), u8> {
        self.next_outcome()?;
        self.writes.push((address, bytes));
        Ok(())
    }

    fn write_read(&mut self, address: u8, register: u8) -> Result<[u8; 2], u8> {
        self.next_outcome()?;
        self.reads.push((address, register));
        Ok(self.response)
    }
}

#[test]
fn new_then_destroy_returns_the_bus() {
    let device = Veml7700::new(MockBus::new());
    let bus = device.destroy();
    assert!(bus.writes.is_empty());
    assert!(bus.reads.is_empty());
}

#[test]
fn enable_and_disable_toggle_only_the_shutdown_bit() {
    let mut device = Veml7700::new(MockBus::new());
    device.enable().unwrap();
    device.disable().unwrap();
    let bus = device.destroy();
    assert_eq!(bus.writes[0], (DEVICE_ADDRESS, [0x00, 0x00, 0x00]));
    assert_eq!(bus.writes[1], (DEVICE_ADDRESS, [0x00, 0x01, 0x00]));
}

#[test]
fn set_gain_preserves_other_config_bits() {
    let mut device = Veml7700::new(MockBus::new());
    device.enable_interrupts().unwrap();
    device.set_gain(Gain::Two).unwrap();
    let bus = device.destroy();
    // interrupt enable on top of the initial shutdown bit
    assert_eq!(bus.writes[0], (DEVICE_ADDRESS, [0x00, 0x03, 0x00]));
    // gain code 1 lands in bits 11 and 12; shutdown and
    // interrupt-enable bits read back unchanged in the full word
    assert_eq!(bus.writes[1], (DEVICE_ADDRESS, [0x00, 0x03, 0x08]));
}

#[test]
fn enable_then_disable_preserves_configured_fields() {
    let mut device = Veml7700::new(MockBus::new());
    device.set_fault_count(FaultCount::Four).unwrap();
    device.set_gain(Gain::OneEighth).unwrap();
    device.enable().unwrap();
    device.disable().unwrap();
    let bus = device.destroy();
    assert_eq!(bus.writes[0], (DEVICE_ADDRESS, [0x00, 0x21, 0x00]));
    assert_eq!(bus.writes[1], (DEVICE_ADDRESS, [0x00, 0x21, 0x10]));
    // enable clears bit 0 only
    assert_eq!(bus.writes[2], (DEVICE_ADDRESS, [0x00, 0x20, 0x10]));
    // disable restores the word exactly as it was before the sequence
    assert_eq!(bus.writes[3], (DEVICE_ADDRESS, [0x00, 0x21, 0x10]));
}

#[test]
fn set_integration_time_writes_the_code_table() {
    let mut device = Veml7700::new(MockBus::new());
    device.set_integration_time(IntegrationTime::_25ms).unwrap();
    device.set_integration_time(IntegrationTime::_800ms).unwrap();
    device.set_integration_time(IntegrationTime::_100ms).unwrap();
    let bus = device.destroy();
    // 25 ms is code 0b1100, shifted to bits 6 to 9
    assert_eq!(bus.writes[0], (DEVICE_ADDRESS, [0x00, 0x01, 0x03]));
    // 800 ms is code 0b0011
    assert_eq!(bus.writes[1], (DEVICE_ADDRESS, [0x00, 0xC1, 0x00]));
    // 100 ms is code 0b0000
    assert_eq!(bus.writes[2], (DEVICE_ADDRESS, [0x00, 0x01, 0x00]));
}

#[test]
fn failed_transaction_leaves_mirror_untouched() {
    // second transaction fails
    let mut device = Veml7700::new(MockBus::failing_at(vec![1]));
    device.set_integration_time(IntegrationTime::_400ms).unwrap();
    // the cached integration time now drives the conversion
    assert_eq!(device.convert_raw_als_to_lux(100), 100 * 14400);
    let result = device.set_integration_time(IntegrationTime::_25ms);
    assert!(matches!(result, Err(Error::I2C(0x55))));
    // the cache still holds 400 ms, not the rejected 25 ms
    assert_eq!(device.convert_raw_als_to_lux(100), 100 * 14400);
    // a later write carries the unchanged configuration word
    device.disable().unwrap();
    let bus = device.destroy();
    assert_eq!(bus.writes.len(), 2);
    assert_eq!(bus.writes[0], (DEVICE_ADDRESS, [0x00, 0x81, 0x00]));
    assert_eq!(bus.writes[1], (DEVICE_ADDRESS, [0x00, 0x81, 0x00]));
}

#[test]
fn failed_set_gain_keeps_cached_gain() {
    let mut device = Veml7700::new(MockBus::failing_at(vec![0]));
    let result = device.set_gain(Gain::OneQuarter);
    assert!(matches!(result, Err(Error::I2C(0x55))));
    // conversion still runs at the initial gain 1
    assert_eq!(device.convert_raw_als_to_lux(100), 100 * 57600);
    let bus = device.destroy();
    assert!(bus.writes.is_empty());
}

#[test]
fn threshold_registers_take_raw_values_little_endian() {
    let mut device = Veml7700::new(MockBus::new());
    device.set_high_threshold_raw(0x1234).unwrap();
    device.set_low_threshold_raw(0xABCD).unwrap();
    let bus = device.destroy();
    assert_eq!(bus.writes[0], (DEVICE_ADDRESS, [0x01, 0x34, 0x12]));
    assert_eq!(bus.writes[1], (DEVICE_ADDRESS, [0x02, 0xCD, 0xAB]));
}

#[test]
fn lux_thresholds_use_the_cached_settings() {
    let mut device = Veml7700::new(MockBus::new());
    // gain 1, 100 ms: 5.76 lux is exactly 100 counts
    device.set_high_threshold_lux(5_760_000).unwrap();
    device.set_low_threshold_lux(2_419_200).unwrap();
    assert_eq!(device.calculate_raw_threshold_value(5_760_000), 100);
    let bus = device.destroy();
    assert_eq!(bus.writes[0], (DEVICE_ADDRESS, [0x01, 100, 0x00]));
    // 2.4192 lux is 42.5 counts, rounded half up
    assert_eq!(bus.writes[1], (DEVICE_ADDRESS, [0x02, 42, 0x00]));
}

#[test]
fn power_saving_writes_its_own_register() {
    let mut device = Veml7700::new(MockBus::new());
    device.enable_power_saving(PowerSavingMode::Three).unwrap();
    device.disable_power_saving().unwrap();
    let bus = device.destroy();
    assert_eq!(bus.writes[0], (DEVICE_ADDRESS, [0x03, 0x05, 0x00]));
    assert_eq!(bus.writes[1], (DEVICE_ADDRESS, [0x03, 0x00, 0x00]));
}

#[test]
fn read_raw_and_white_use_their_registers() {
    let mut device = Veml7700::new(MockBus::with_response([0x34, 0x12]));
    assert_eq!(device.read_raw().unwrap(), 0x1234);
    assert_eq!(device.read_white().unwrap(), 0x1234);
    let bus = device.destroy();
    assert_eq!(bus.reads[0], (DEVICE_ADDRESS, 0x04));
    assert_eq!(bus.reads[1], (DEVICE_ADDRESS, 0x05));
}

#[test]
fn read_lux_converts_under_cached_settings() {
    let mut device = Veml7700::new(MockBus::with_response([100, 0x00]));
    assert_eq!(device.read_lux().unwrap(), 5_760_000);
    let bus = device.destroy();
    assert_eq!(bus.reads[0], (DEVICE_ADDRESS, 0x04));
}

#[test]
fn read_interrupt_status_decodes_the_flags() {
    let mut device = Veml7700::new(MockBus::with_response([0x00, 0x40]));
    let status = device.read_interrupt_status().unwrap();
    assert!(status.was_too_high);
    assert!(!status.was_too_low);
    let bus = device.destroy();
    assert_eq!(bus.reads[0], (DEVICE_ADDRESS, 0x06));

    let mut device = Veml7700::new(MockBus::with_response([0x00, 0x80]));
    let status = device.read_interrupt_status().unwrap();
    assert!(!status.was_too_high);
    assert!(status.was_too_low);
}

#[test]
fn read_errors_surface_to_the_caller() {
    let mut device = Veml7700::new(MockBus::failing_at(vec![0]));
    assert!(matches!(device.read_raw(), Err(Error::I2C(0x55))));
}
