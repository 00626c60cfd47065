use bevy_stutter::ieee::{chance_from_bits, ticks_from_bits};

#[test]
fn every_power_of_two_converts_exactly() {
    let mut x: f64 = 1.0;
    for power in 0..64u32 {
        assert_eq!(ticks_from_bits(x.to_bits(), 1), Some(1u64 << power));
        x *= 2.0;
    }
    let mut x: f64 = 1.0;
    for power in 0..64u32 {
        assert_eq!(ticks_from_bits(x.to_bits(), 1u64 << 63), Some(1u64 << (63 - power)));
        x /= 2.0;
    }
    assert_eq!(ticks_from_bits(x.to_bits(), 1u64 << 63), Some(1));
    assert_eq!(ticks_from_bits((x / 2.0).to_bits(), 1u64 << 63), Some(0));
}

#[test]
fn whole_and_binary_fractions_convert_exactly() {
    assert_eq!(ticks_from_bits(0.0f64.to_bits(), 240_000_000), Some(0));
    assert_eq!(ticks_from_bits(1.0f64.to_bits(), 240_000_000), Some(240_000_000));
    assert_eq!(ticks_from_bits(0.5f64.to_bits(), 240_000_000), Some(120_000_000));
    assert_eq!(ticks_from_bits(2.5f64.to_bits(), 240_000), Some(600_000));
    assert_eq!(ticks_from_bits(3.0f64.to_bits(), 1), Some(3));
    assert_eq!(ticks_from_bits(1e15f64.to_bits(), 1), Some(1_000_000_000_000_000));
    assert_eq!(ticks_from_bits(123.0f64.to_bits(), 0), Some(0));
}

#[test]
fn decimal_fractions_round_to_the_nearest_tick() {
    assert_eq!(ticks_from_bits((1.0f64 / 60.0).to_bits(), 240_000_000), Some(4_000_000));
    assert_eq!(ticks_from_bits((1.0f64 / 240.0).to_bits(), 240_000_000), Some(1_000_000));
    assert_eq!(ticks_from_bits(0.001f64.to_bits(), 240_000_000), Some(240_000));
    assert_eq!(ticks_from_bits(0.1f64.to_bits(), 10), Some(1));
    assert_eq!(ticks_from_bits(16.0f64.to_bits(), 240_000), Some(3_840_000));
}

#[test]
fn halves_round_upwards() {
    assert_eq!(ticks_from_bits(0.5f64.to_bits(), 1), Some(1));
    assert_eq!(ticks_from_bits(1.5f64.to_bits(), 1), Some(2));
    assert_eq!(ticks_from_bits(2.5f64.to_bits(), 1), Some(3));
    assert_eq!(ticks_from_bits(0.49999999999999994f64.to_bits(), 1), Some(0));
    assert_eq!(ticks_from_bits(0.25f64.to_bits(), 2), Some(1));
    assert_eq!(ticks_from_bits(0.25f64.to_bits(), 1), Some(0));
}

#[test]
fn tiny_readings_are_zero_ticks() {
    assert_eq!(ticks_from_bits(f64::MIN_POSITIVE.to_bits(), u64::MAX), Some(0));
    assert_eq!(ticks_from_bits(1u64, u64::MAX), Some(0));
    assert_eq!(ticks_from_bits(1e-30f64.to_bits(), 240_000_000), Some(0));
    assert_eq!(ticks_from_bits(1e-9f64.to_bits(), 240_000_000), Some(0));
    assert_eq!(ticks_from_bits(1e-8f64.to_bits(), 240_000_000), Some(2));
}

#[test]
fn huge_readings_are_held_at_the_largest_count() {
    assert_eq!(ticks_from_bits(f64::MAX.to_bits(), 1), Some(u64::MAX));
    assert_eq!(ticks_from_bits(1e30f64.to_bits(), 240_000_000), Some(u64::MAX));
    assert_eq!(ticks_from_bits(18446744073709551616.0f64.to_bits(), 1), Some(u64::MAX));
    assert_eq!(ticks_from_bits(9223372036854775808.0f64.to_bits(), 1), Some(1u64 << 63));
    assert_eq!(ticks_from_bits(9223372036854775808.0f64.to_bits(), 2), Some(u64::MAX));
    assert_eq!(ticks_from_bits(1e12f64.to_bits(), u64::MAX), Some(u64::MAX));
}

#[test]
fn unusable_readings_are_refused() {
    assert_eq!(ticks_from_bits(f64::NAN.to_bits(), 240_000_000), None);
    assert_eq!(ticks_from_bits(f64::INFINITY.to_bits(), 240_000_000), None);
    assert_eq!(ticks_from_bits(f64::NEG_INFINITY.to_bits(), 240_000_000), None);
    assert_eq!(ticks_from_bits((-1.0f64).to_bits(), 240_000_000), None);
    assert_eq!(ticks_from_bits((-1e-300f64).to_bits(), 240_000_000), None);
    assert_eq!(ticks_from_bits((-0.0f64).to_bits(), 240_000_000), Some(0));
}

#[test]
fn conversion_agrees_with_exact_float_products() {
    let mut x: f64 = 1.0 / 1024.0;
    while x < 1.0e6 {
        let expected = (x * 1024.0).round() as u64;
        assert_eq!(ticks_from_bits(x.to_bits(), 1024), Some(expected));
        x = x * 1.5 + 1.0 / 4096.0;
    }
}

#[test]
fn probabilities_count_draws() {
    assert_eq!(chance_from_bits(0.0f32.to_bits()), Some(0));
    assert_eq!(chance_from_bits((-0.0f32).to_bits()), Some(0));
    assert_eq!(chance_from_bits(1.0f32.to_bits()), Some(8_388_608));
    assert_eq!(chance_from_bits(0.5f32.to_bits()), Some(4_194_304));
    assert_eq!(chance_from_bits(0.25f32.to_bits()), Some(2_097_152));
    assert_eq!(chance_from_bits(0.02f32.to_bits()), Some(167_773));
    assert_eq!(chance_from_bits(0.04f32.to_bits()), Some(335_545));
    assert_eq!(chance_from_bits(0.00004f32.to_bits()), Some(336));
    assert_eq!(chance_from_bits(f32::MIN_POSITIVE.to_bits()), Some(1));
    assert_eq!(chance_from_bits(1u32), Some(1));
    assert_eq!(chance_from_bits(0.99999994f32.to_bits()), Some(8_388_608));
    assert_eq!(chance_from_bits(0.9999999f32.to_bits()), Some(8_388_607));
}

#[test]
fn probabilities_outside_the_unit_interval_are_refused() {
    assert_eq!(chance_from_bits(1.0000001f32.to_bits()), None);
    assert_eq!(chance_from_bits(2.0f32.to_bits()), None);
    assert_eq!(chance_from_bits(f32::MAX.to_bits()), None);
    assert_eq!(chance_from_bits(f32::INFINITY.to_bits()), None);
    assert_eq!(chance_from_bits(f32::NAN.to_bits()), None);
    assert_eq!(chance_from_bits((-0.5f32).to_bits()), None);
    assert_eq!(chance_from_bits((-1e-40f32).to_bits()), None);
    assert_eq!(chance_from_bits(f32::NEG_INFINITY.to_bits()), None);
}

#[test]
fn a_draw_is_below_the_count_exactly_if_its_fraction_is_below_the_probability() {
    let probabilities: [f32; 8] = [0.0, 1e-7, 0.00004, 0.02, 0.3333, 0.5, 0.75, 1.0];
    for p in probabilities {
        let count = chance_from_bits(p.to_bits()).unwrap();
        let mut draw: u32 = 0;
        while draw < 8_388_608 {
            let fraction = draw as f32 / 8_388_608.0;
            assert_eq!(draw < count, fraction < p);
            draw += 4_099;
        }
        if count > 0 {
            assert!(((count - 1) as f32 / 8_388_608.0) < p);
        }
        if count < 8_388_608 {
            assert!(!((count as f32 / 8_388_608.0) < p));
        }
    }
}
