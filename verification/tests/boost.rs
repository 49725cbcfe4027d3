use geiger_core::boost::{
    BoostRegulator, DUTY_LIMIT, DUTY_ONE, DUTY_START, MV_PER_VOLT, R1_OHMS, R2_OHMS, VREF_INT_MV,
};
use geiger_core::fraction::Fraction;

#[test]
fn regulator_constants() {
    assert_eq!(VREF_INT_MV, 1200);
    assert_eq!(MV_PER_VOLT, 1000);
    assert_eq!(R1_OHMS, 4_700_000);
    assert_eq!(R2_OHMS, 24_900);
    assert_eq!(DUTY_ONE, 1_000_000_000);
    assert_eq!(DUTY_LIMIT, 900_000_000);
    assert_eq!(DUTY_START, 500_000_000);
}

#[test]
fn regulator_needs_a_floor_and_a_plausible_fallback() {
    assert!(BoostRegulator::new(0, 1500).is_none());
    assert!(BoostRegulator::new(0, 0).is_none());
    assert!(BoostRegulator::new(1000, 999).is_none());
    assert!(BoostRegulator::new(1, 1).is_some());
    let regulator = BoostRegulator::new(1000, 1489).unwrap();
    assert_eq!(regulator.current_duty(), 500_000_000);
    assert_eq!(regulator.current_reference(), 1489);
}

#[test]
fn measure_scales_the_sample_to_volts() {
    let mut regulator = BoostRegulator::new(1000, 1489).unwrap();
    let volts = regulator.measure(2500, 1500);
    assert_eq!(regulator.current_reference(), 1500);
    assert_eq!(
        volts,
        Fraction { num: 2500 * 1200 * 4_700_000, den: 1500 * 1000 * 24_900 }
    );
    let as_float = volts.num as f64 / volts.den as f64;
    let expected = 2500.0 * 1200.0 / 1500.0 / 1000.0 * (4.7e6 / 24.9e3);
    assert!((as_float - expected).abs() < 1e-9);
    assert_eq!(regulator.current_duty(), 500_000_000);
}

#[test]
fn measure_sets_an_implausible_reference_aside() {
    let mut regulator = BoostRegulator::new(1000, 1489).unwrap();
    let zero = regulator.measure(2000, 0);
    assert_eq!(regulator.current_reference(), 1489);
    assert_eq!(zero, Fraction { num: 2000 * 5_640_000_000, den: 1489 * 24_900_000 });
    let good = regulator.measure(2000, 1600);
    assert_eq!(regulator.current_reference(), 1600);
    assert_eq!(good.den, 1600 * 24_900_000);
    let small = regulator.measure(2000, 999);
    assert_eq!(regulator.current_reference(), 1600);
    assert_eq!(small.den, 1600 * 24_900_000);
    let edge = regulator.measure(2000, 1000);
    assert_eq!(regulator.current_reference(), 1000);
    assert_eq!(edge.den, 1000 * 24_900_000);
}

#[test]
fn measured_voltage_is_always_a_number() {
    let mut regulator = BoostRegulator::new(1, 1).unwrap();
    for reference in [0u16, 1, 2, 4095, u16::MAX] {
        for sample in [0u16, 1, 4095, u16::MAX] {
            let volts = regulator.measure(sample, reference);
            assert!(volts.den > 0);
            assert!(volts.num >= 0);
        }
    }
    let top = regulator.measure(u16::MAX, u16::MAX);
    assert_eq!(top.num, 65_535 * 5_640_000_000);
    assert_eq!(top.den, 65_535 * 24_900_000);
}

#[test]
fn adjust_adds_the_increment() {
    let mut regulator = BoostRegulator::new(1000, 1489).unwrap();
    assert_eq!(regulator.adjust(100_000_000), 600_000_000);
    assert_eq!(regulator.adjust(-250_000_000), 350_000_000);
    assert_eq!(regulator.adjust(0), 350_000_000);
    assert_eq!(regulator.current_duty(), 350_000_000);
    assert_eq!(regulator.current_reference(), 1489);
}

#[test]
fn adjust_clamps_at_both_ends() {
    let mut regulator = BoostRegulator::new(1000, 1489).unwrap();
    assert_eq!(regulator.adjust(400_000_000), 900_000_000);
    assert_eq!(regulator.adjust(1), 900_000_000);
    assert_eq!(regulator.adjust(i64::MAX), 900_000_000);
    assert_eq!(regulator.adjust(-900_000_001), 0);
    assert_eq!(regulator.adjust(-1), 0);
    assert_eq!(regulator.adjust(i64::MIN), 0);
    assert_eq!(regulator.adjust(900_000_000), 900_000_000);
    assert_eq!(regulator.adjust(-900_000_000), 0);
}

#[test]
fn duty_stays_in_range_under_constant_pushes() {
    let mut up = BoostRegulator::new(1000, 1489).unwrap();
    let mut down = BoostRegulator::new(1000, 1489).unwrap();
    for _ in 0..1000 {
        let high = up.adjust(300_000_000);
        let low = down.adjust(-300_000_000);
        assert!(high <= 900_000_000);
        assert!(low <= 900_000_000);
    }
    assert_eq!(up.current_duty(), 900_000_000);
    assert_eq!(down.current_duty(), 0);
}

#[test]
fn register_value_inverts_the_duty() {
    let mut regulator = BoostRegulator::new(1000, 1489).unwrap();
    assert_eq!(regulator.register_value(14_400), 7_200);
    assert_eq!(regulator.register_value(0), 0);
    assert_eq!(regulator.register_value(1), 0);
    regulator.adjust(400_000_000);
    assert_eq!(regulator.register_value(14_400), 1_440);
    assert_eq!(regulator.register_value(u32::MAX), 429_496_729);
    regulator.adjust(-900_000_000);
    assert_eq!(regulator.register_value(14_400), 14_400);
    assert_eq!(regulator.register_value(u32::MAX), u32::MAX);
    regulator.adjust(333_333_333);
    assert_eq!(regulator.register_value(1_000), 666);
}
