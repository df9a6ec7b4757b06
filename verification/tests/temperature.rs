use resource_sampler::binary32::Binary32;
use resource_sampler::temperature::peak_reading;

fn reading(value: f32) -> Binary32 {
    Binary32::from_bits(value.to_bits())
}

fn readings(values: &[f32]) -> Vec<Binary32> {
    values.iter().map(|v| reading(*v)).collect()
}

fn celsius(reported: Option<Binary32>) -> Option<f32> {
    reported.map(|r| f32::from_bits(r.to_bits()))
}

#[test]
fn peak_skips_readings_that_are_no_numbers() {
    let sensors = readings(&[45.0, f32::NAN, 62.3, f32::NEG_INFINITY]);
    assert_eq!(celsius(peak_reading(&sensors)), Some(62.3));
}

#[test]
fn no_valid_reading_gives_no_temperature() {
    assert_eq!(peak_reading(&readings(&[f32::NAN, f32::NAN])), None);
    assert_eq!(peak_reading(&readings(&[f32::INFINITY, f32::NEG_INFINITY, f32::NAN])), None);
}

#[test]
fn no_sensor_gives_no_temperature() {
    assert_eq!(peak_reading(&Vec::new()), None);
}

#[test]
fn positive_infinity_is_not_a_peak() {
    assert_eq!(celsius(peak_reading(&readings(&[30.5, f32::INFINITY, 31.0]))), Some(31.0));
}

#[test]
fn single_valid_reading_is_the_peak() {
    assert_eq!(celsius(peak_reading(&readings(&[f32::NAN, -12.25, f32::NAN]))), Some(-12.25));
}

#[test]
fn peak_among_negative_readings_is_the_one_nearest_zero() {
    assert_eq!(celsius(peak_reading(&readings(&[-40.0, -3.5, -17.0]))), Some(-3.5));
}

#[test]
fn peak_among_mixed_signs_is_positive() {
    assert_eq!(celsius(peak_reading(&readings(&[-40.0, 0.5, -0.75, 0.25]))), Some(0.5));
    assert_eq!(celsius(peak_reading(&readings(&[-1.0e-40, 1.0e-42]))), Some(1.0e-42));
}

#[test]
fn peak_does_not_depend_on_where_it_stands() {
    assert_eq!(celsius(peak_reading(&readings(&[90.0, 45.0, 62.3]))), Some(90.0));
    assert_eq!(celsius(peak_reading(&readings(&[45.0, 90.0, 62.3]))), Some(90.0));
    assert_eq!(celsius(peak_reading(&readings(&[45.0, 62.3, 90.0]))), Some(90.0));
}

#[test]
fn largest_and_smallest_numbers_are_valid() {
    assert_eq!(celsius(peak_reading(&readings(&[f32::MIN, f32::MAX, 0.0]))), Some(f32::MAX));
    assert_eq!(celsius(peak_reading(&readings(&[f32::MIN]))), Some(f32::MIN));
}

#[test]
fn earliest_of_the_two_zeros_is_kept() {
    let reported = peak_reading(&readings(&[-0.0, 0.0])).unwrap();
    assert_eq!(reported.to_bits(), (-0.0f32).to_bits());
    let reported = peak_reading(&readings(&[0.0, -0.0])).unwrap();
    assert_eq!(reported.to_bits(), 0.0f32.to_bits());
}

#[test]
fn finite_agrees_with_the_numbers_encoded() {
    let mut bits: u32 = 0;
    loop {
        let value = f32::from_bits(bits);
        assert_eq!(Binary32::from_bits(bits).finite(), value.is_finite(), "bits {bits:#x}");
        match bits.checked_add(65_521) {
            Some(next) => bits = next,
            None => break,
        }
    }
    for bits in [0x7f7f_ffffu32, 0x7f80_0000, 0x7f80_0001, 0xff7f_ffff, 0xff80_0000, 0xffff_ffff] {
        assert_eq!(Binary32::from_bits(bits).finite(), f32::from_bits(bits).is_finite());
    }
}

#[test]
fn outranks_agrees_with_the_order_of_numbers() {
    let samples: Vec<f32> = vec![
        f32::MIN, -1.0e30, -273.15, -1.0, -1.0e-40, -0.0, 0.0, 1.0e-45, 1.0e-40, 0.5, 1.0, 45.0,
        62.3, 62.300003, 1.0e30, f32::MAX,
    ];
    for a in &samples {
        for b in &samples {
            assert_eq!(reading(*a).outranks(reading(*b)), a > b, "{a} against {b}");
        }
    }
}

#[test]
fn bits_go_in_and_come_out_unchanged() {
    for bits in [0u32, 1, 0x4279_3333, 0x7fc0_0000, 0x8000_0000, u32::MAX] {
        assert_eq!(Binary32::from_bits(bits).to_bits(), bits);
        assert_eq!(Binary32::from_bits(bits), Binary32 { bits });
    }
}
