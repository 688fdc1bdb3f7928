use veml7700::{calculate_raw_threshold_value, convert_raw_als_to_lux, Gain, IntegrationTime};

const ALL_TIMES: [IntegrationTime; 6] = [
    IntegrationTime::_25ms,
    IntegrationTime::_50ms,
    IntegrationTime::_100ms,
    IntegrationTime::_200ms,
    IntegrationTime::_400ms,
    IntegrationTime::_800ms,
];

#[test]
fn threshold_round_trip_is_exact_at_full_gain() {
    // at gain 1 or 2 no compensation applies, so converting a raw count
    // to microlux and back recovers it exactly
    for gain in [Gain::One, Gain::Two] {
        for it in ALL_TIMES {
            for raw in [0u16, 1, 2, 99, 1000, 4341, 32767, 65534, 65535] {
                let lux = convert_raw_als_to_lux(it, gain, raw);
                assert_eq!(calculate_raw_threshold_value(it, gain, lux), raw);
            }
        }
    }
}

#[test]
fn threshold_divides_directly_at_low_gain_below_crossover() {
    // 921.6 lux at 1/4 gain, 100 ms: direct division, no inversion
    assert_eq!(
        calculate_raw_threshold_value(IntegrationTime::_100ms, Gain::OneQuarter, 921_600_000),
        4000
    );
    // round trip below the crossover is exact for low gains too
    for gain in [Gain::OneQuarter, Gain::OneEighth] {
        for raw in [0u16, 1, 100, 4000] {
            let lux = convert_raw_als_to_lux(IntegrationTime::_100ms, gain, raw);
            if lux <= 1_000_000_000 {
                assert_eq!(
                    calculate_raw_threshold_value(IntegrationTime::_100ms, gain, lux),
                    raw
                );
            }
        }
    }
}

#[test]
fn threshold_rounds_to_nearest_count() {
    // 2.4192 lux at gain 1, 100 ms is 42.5 counts: rounds half up
    assert_eq!(
        calculate_raw_threshold_value(IntegrationTime::_100ms, Gain::One, 2_419_200),
        42
    );
    // 41.5 counts rounds half up as well
    assert_eq!(
        calculate_raw_threshold_value(IntegrationTime::_100ms, Gain::One, 2_390_400),
        42
    );
    // just below half rounds down
    assert_eq!(
        calculate_raw_threshold_value(IntegrationTime::_100ms, Gain::One, 2_390_399),
        41
    );
    assert_eq!(calculate_raw_threshold_value(IntegrationTime::_100ms, Gain::One, 0), 0);
}

#[test]
fn threshold_clamps_to_register_range() {
    // a target far over full scale clamps to the 16-bit maximum
    assert_eq!(
        calculate_raw_threshold_value(IntegrationTime::_100ms, Gain::One, 1_000_000_000_000_000),
        65535
    );
    // the compensated branch clamps too: nothing reaches 200 million lux
    assert_eq!(
        calculate_raw_threshold_value(
            IntegrationTime::_25ms,
            Gain::OneEighth,
            200_000_000_000_000,
        ),
        65535
    );
    // the largest representable target clamps in every regime
    assert_eq!(
        calculate_raw_threshold_value(IntegrationTime::_800ms, Gain::Two, u64::MAX),
        65535
    );
    assert_eq!(
        calculate_raw_threshold_value(IntegrationTime::_800ms, Gain::OneEighth, u64::MAX),
        65535
    );
}

#[test]
fn threshold_inverts_compensation_over_crossover() {
    // 2000 lux at 1/4 gain, 100 ms: a direct division would give 8681
    // counts, but the compensation is super-linear there, so fewer
    // counts already reach the target
    let raw = calculate_raw_threshold_value(IntegrationTime::_100ms, Gain::OneQuarter, 2_000_000_000);
    assert_eq!(raw, 7743);
    // the result is the least count whose conversion reaches the target
    assert!(convert_raw_als_to_lux(IntegrationTime::_100ms, Gain::OneQuarter, 7742) < 2_000_000_000);
    assert!(convert_raw_als_to_lux(IntegrationTime::_100ms, Gain::OneQuarter, 7743) >= 2_000_000_000);

    let raw8 = calculate_raw_threshold_value(IntegrationTime::_25ms, Gain::OneEighth, 100_000_000_000_000);
    assert_eq!(raw8, 63651);
    assert!(
        convert_raw_als_to_lux(IntegrationTime::_25ms, Gain::OneEighth, 63650)
            < 100_000_000_000_000
    );
    assert!(
        convert_raw_als_to_lux(IntegrationTime::_25ms, Gain::OneEighth, 63651)
            >= 100_000_000_000_000
    );
}
