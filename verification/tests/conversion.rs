use pyro_fw::adc::conversion::{
    calculate_bat_voltage_mv, calculate_out_voltage_mv, calculate_temperature_tenth_deg,
    calculate_vref,
};
use pyro_fw::adc::factory_calibrated_values::FactoryCalibratedValues;
use pyro_fw::adc::Conversion;

fn calib() -> FactoryCalibratedValues {
    FactoryCalibratedValues::new(1000, 1300, 1500)
}

#[test]
fn factory_values_are_scaled() {
    assert_eq!(
        calib(),
        FactoryCalibratedValues { ts_cal_1: 16000, ts_cal_rel: 4800, v_refint: 24000 }
    );
    assert_eq!(
        FactoryCalibratedValues::new(0xFFFF, 0, 0xFFFF),
        FactoryCalibratedValues { ts_cal_1: 1048560, ts_cal_rel: -1048560, v_refint: 1048560 }
    );
}

#[test]
fn vref_from_reference_reading() {
    assert_eq!(calculate_vref(24000, &calib()), 3000);
    assert_eq!(calculate_vref(20000, &calib()), 3600);
    assert_eq!(calculate_vref(0xFFFF, &calib()), 1098);
    assert_eq!(calculate_vref(1, &calib()), 72_000_000);
}

#[test]
fn temperature_at_calibration_points() {
    assert_eq!(calculate_temperature_tenth_deg(16000, 24000, &calib()), 300);
    assert_eq!(calculate_temperature_tenth_deg(20800, 24000, &calib()), 1300);
}

#[test]
fn temperature_between_and_beyond_calibration_points() {
    assert_eq!(calculate_temperature_tenth_deg(18400, 24000, &calib()), 800);
    assert_eq!(calculate_temperature_tenth_deg(16000, 20000, &calib()), 966);
    // The quotient is rounded toward zero on both sides of the first point.
    assert_eq!(calculate_temperature_tenth_deg(15999, 24000, &calib()), 300);
    assert_eq!(calculate_temperature_tenth_deg(15000, 24000, &calib()), 92);
    assert_eq!(calculate_temperature_tenth_deg(0, 24000, &calib()), -3033);
}

#[test]
fn temperature_of_a_falling_sensor() {
    let falling = FactoryCalibratedValues { ts_cal_1: 16000, ts_cal_rel: -4800, v_refint: 24000 };
    assert_eq!(calculate_temperature_tenth_deg(15000, 24000, &falling), 508);
    assert_eq!(calculate_temperature_tenth_deg(18400, 24000, &falling), -200);
}

#[test]
fn temperature_is_monotonic() {
    let mut last = i16::MIN;
    for measurement in (14000..22000).step_by(7) {
        let value = calculate_temperature_tenth_deg(measurement, 24000, &calib());
        assert!(last <= value);
        last = value;
    }
}

#[test]
fn battery_voltage() {
    assert_eq!(calculate_bat_voltage_mv(0, 24000, &calib()), 0);
    assert_eq!(calculate_bat_voltage_mv(30000, 24000, &calib()), 4203);
    assert_eq!(calculate_bat_voltage_mv(0xFFFF, 24000, &calib()), 9181);
    assert_eq!(calculate_bat_voltage_mv(16000, 20000, &calib()), 2690);
}

#[test]
fn output_voltage() {
    assert_eq!(calculate_out_voltage_mv(0, 24000, &calib()), 0);
    assert_eq!(calculate_out_voltage_mv(30000, 24000, &calib()), 6459);
    assert_eq!(calculate_out_voltage_mv(0xFFFF, 24000, &calib()), 14111);
    assert_eq!(calculate_out_voltage_mv(16000, 20000, &calib()), 4134);
}

#[test]
fn voltages_are_monotonic() {
    let mut last = (0, 0);
    for measurement in (0..0xFFFF).step_by(11) {
        let bat = calculate_bat_voltage_mv(measurement, 24000, &calib());
        let out = calculate_out_voltage_mv(measurement, 24000, &calib());
        assert!(last.0 <= bat && last.1 <= out);
        last = (bat, out);
    }
}

#[test]
fn results_are_cut_to_16_bits() {
    assert_eq!(calculate_temperature_tenth_deg(0xFFFF, 1, &calib()), -8034);
    assert_eq!(calculate_bat_voltage_mv(0xFFFF, 1, &calib()), 31604);
    assert_eq!(calculate_out_voltage_mv(0xFFFF, 1, &calib()), -23382);
}

#[test]
fn conversions_apply_their_formula() {
    assert_eq!(Conversion::Temperature.apply(18400, 24000, &calib()), 800);
    assert_eq!(Conversion::BatVoltage.apply(30000, 24000, &calib()), 4203);
    assert_eq!(Conversion::OutVoltage.apply(30000, 24000, &calib()), 6459);
    assert_eq!(Conversion::Reference.apply(30000, 24000, &calib()), 0);
}

#[test]
fn conversions_need_a_reference_reading() {
    let flat = FactoryCalibratedValues { ts_cal_1: 16000, ts_cal_rel: 0, v_refint: 24000 };
    assert!(Conversion::Temperature.can_apply(1, &calib()));
    assert!(!Conversion::Temperature.can_apply(0, &calib()));
    assert!(!Conversion::Temperature.can_apply(1, &flat));
    assert!(!Conversion::BatVoltage.can_apply(0, &calib()));
    assert!(Conversion::BatVoltage.can_apply(1, &flat));
    assert!(!Conversion::OutVoltage.can_apply(0, &calib()));
    assert!(Conversion::OutVoltage.can_apply(1, &flat));
    assert!(Conversion::Reference.can_apply(0, &flat));
}

#[test]
fn voltages_fall_as_the_reference_reading_rises() {
    let mut last = (i16::MAX, i16::MAX);
    for reference in 24000..26000 {
        let bat = calculate_bat_voltage_mv(30000, reference, &calib());
        let out = calculate_out_voltage_mv(30000, reference, &calib());
        assert!(bat <= last.0 && out <= last.1);
        last = (bat, out);
    }
    assert!(last.0 < 4203 && last.1 < 6459);
}

#[test]
fn voltages_fit_up_to_their_supply_limit() {
    let supply = |v_refint: u16, reference: u16| 3000 * 16 * v_refint as i64 / reference as i64;
    let bat = FactoryCalibratedValues::new(1000, 1300, 10706);
    assert_eq!(supply(10706, 48000), 10_706);
    assert_eq!(calculate_bat_voltage_mv(0xFFFF, 48000, &bat), 32_766);
    let above = FactoryCalibratedValues::new(1000, 1300, 10707);
    assert_eq!(supply(10707, 48000), 10_707);
    assert_eq!(calculate_bat_voltage_mv(0xFFFF, 48000, &above), -32_767);
    let out = FactoryCalibratedValues::new(1000, 1300, 6966);
    assert_eq!(supply(6966, 48000), 6_966);
    assert_eq!(calculate_out_voltage_mv(0xFFFF, 48000, &out), 32_766);
    let above = FactoryCalibratedValues::new(1000, 1300, 6967);
    assert_eq!(supply(6967, 48000), 6_967);
    assert_eq!(calculate_out_voltage_mv(0xFFFF, 48000, &above), -32_766);
}
