//! Conversion of raw ADC readings into physical quantities.
use vstd::prelude::*;

use super::factory_calibrated_values::FactoryCalibratedValues;

verus! {

// Datasheet reference conditions.
/// Supply voltage at which the factory readings were taken, in millivolts.
pub const VREF_CALIB_MV: i64 = 3_000;

/// Temperature of the first calibration point, in tenths of a degree Celsius.
pub const TS_1_VAL_TENTH_DEG: i64 = 300;

/// Temperature of the second calibration point, in tenths of a degree Celsius.
pub const TS_2_VAL_TENTH_DEG: i64 = 1300;

/// Distance between the two calibration points.
pub const TS_REL_VAL_TENTH_DEG: i64 = TS_2_VAL_TENTH_DEG - TS_1_VAL_TENTH_DEG;

/// The full scale reading.
pub const RAW_VALUE_RANGE: i64 = 0xFFFF;

/// Upper and lower resistor of the divider in front of a battery input.
pub const BAT_R1_KOHM: i64 = 680;

pub const BAT_R2_KOHM: i64 = 330;

/// Upper and lower resistor of the divider in front of an output monitor.
pub const OUT_R1_KOHM: i64 = 100;

pub const OUT_R2_KOHM: i64 = 27;

/// Division that rounds toward zero.
pub open spec fn trunc_div(a: int, b: int) -> int {
    if a >= 0 {
        a / b
    } else {
        -((-a) / b)
    }
}

/// The number in `-0x8000..0x8000` that agrees with `v` modulo 2^16.
pub open spec fn wrap_i16(v: int) -> int {
    let low = v % 0x1_0000;
    if low < 0x8000 {
        low
    } else {
        low - 0x1_0000
    }
}

/// The supply voltage in millivolts, from a reading of the internal reference.
pub open spec fn vref_mv(calib_measurement: int, calib: FactoryCalibratedValues) -> int {
    VREF_CALIB_MV * calib.v_refint / calib_measurement
}

/// The largest supply voltage that a conversion can come to: the largest factory
/// reading over a reading of one.
pub open spec fn max_vref_mv() -> int {
    3_145_680_000
}

/// The temperature in tenths of a degree: the line through the two calibration
/// points, taken at the reading as it would have been at `VREF_CALIB_MV`.
pub open spec fn temperature_tenth_deg(
    measurement: int,
    calib_measurement: int,
    calib: FactoryCalibratedValues,
) -> int {
    let at_calib_voltage = measurement * vref_mv(calib_measurement, calib) / (VREF_CALIB_MV as int);
    trunc_div(
        TS_REL_VAL_TENTH_DEG * (at_calib_voltage - calib.ts_cal_1),
        calib.ts_cal_rel as int,
    ) + TS_1_VAL_TENTH_DEG
}

/// The voltage in front of a divider of `r1` over `r2` whose tap gives
/// `measurement` out of `RAW_VALUE_RANGE` at a supply of `vref`.
pub open spec fn divider_input_mv(measurement: int, vref: int, r1: int, r2: int) -> int {
    measurement * (r1 + r2) * vref / (r2 * RAW_VALUE_RANGE)
}

pub open spec fn bat_voltage_mv(
    measurement: int,
    calib_measurement: int,
    calib: FactoryCalibratedValues,
) -> int {
    divider_input_mv(
        measurement,
        vref_mv(calib_measurement, calib),
        BAT_R1_KOHM as int,
        BAT_R2_KOHM as int,
    )
}

pub open spec fn out_voltage_mv(
    measurement: int,
    calib_measurement: int,
    calib: FactoryCalibratedValues,
) -> int {
    divider_input_mv(
        measurement,
        vref_mv(calib_measurement, calib),
        OUT_R1_KOHM as int,
        OUT_R2_KOHM as int,
    )
}

/// A quotient is no further from zero than its dividend.
proof fn lemma_quotient_bound(a: int, b: int)
    requires
        b != 0,
    ensures
        a >= 0 ==> -a <= a / b <= a,
        a >= 0 && b > 0 ==> 0 <= a / b,
{
    if a >= 0 {
        let q = a / b;
        let r = a % b;
        assert(a == b * q + r && 0 <= r) by {
            vstd::arithmetic::div_mod::lemma_fundamental_div_mod(a, b);
        }
        assert(-a <= q <= a && (b > 0 ==> 0 <= q)) by (nonlinear_arith)
            requires
                a >= 0,
                b != 0,
                a == b * q + r,
                0 <= r,
                r < b || r < -b,
        ;
    }
}

/// Signed machine division rounds toward zero.
fn div_i64(a: i64, b: i64) -> (q: i64)
    requires
        b != 0,
        a != i64::MIN,
    ensures
        q == trunc_div(a as int, b as int),
{
    proof {
        if a >= 0 {
            lemma_quotient_bound(a as int, b as int);
        } else {
            lemma_quotient_bound(-a, b as int);
        }
    }
    a / b
}

/// Keeps the low 16 bits of a result.
fn truncate_i16(v: i64) -> (r: i16)
    ensures
        r == wrap_i16(v as int),
{
    assert((v & 0xffff) == v % 0x1_0000) by (bit_vector);
    assert(v as i16 == (if (v & 0xffff) >= 0x8000 {
        (v & 0xffff) - 0x1_0000
    } else {
        (v & 0xffff) as int
    })) by (bit_vector);
    #[verifier::truncate]
    (v as i16)
}

/// The supply voltage in millivolts, from a reading of the internal reference.
pub fn calculate_vref(calib_measurement: u16, calib: &FactoryCalibratedValues) -> (vref: i64)
    requires
        calib.wf(),
        calib_measurement != 0,
    ensures
        vref == vref_mv(calib_measurement as int, *calib),
        0 <= vref <= max_vref_mv(),
        vref * calib_measurement <= 3_000 * calib.v_refint < (vref + 1) * calib_measurement,
{
    let vref_measurement: i64 = calib_measurement as i64;
    proof {
        lemma_quotient_bound(VREF_CALIB_MV * calib.v_refint, calib_measurement as int);
        law_supply_is_rounded_down(calib_measurement as int, *calib);
    }
    div_i64(VREF_CALIB_MV * calib.v_refint, vref_measurement)
}

/// The temperature in tenths of a degree Celsius, cut to 16 bits.
pub fn calculate_temperature_tenth_deg(
    measurement: u16,
    calib_measurement: u16,
    calib: &FactoryCalibratedValues,
) -> (tenth_deg: i16)
    requires
        calib.wf(),
        calib_measurement != 0,
        calib.ts_cal_rel != 0,
    ensures
        tenth_deg == wrap_i16(
            temperature_tenth_deg(measurement as int, calib_measurement as int, *calib),
        ),
{
    let vref_mv: i64 = calculate_vref(calib_measurement, calib);
    let temp_measurement: i64 = measurement as i64;
    assert(0 <= temp_measurement * vref_mv <= 0xFFFF * 3_145_680_000) by (nonlinear_arith)
        requires
            0 <= temp_measurement <= 0xFFFF,
            0 <= vref_mv <= 3_145_680_000,
    ;
    let temp_calibrated_measurement: i64 = div_i64(temp_measurement * vref_mv, VREF_CALIB_MV);
    let dividend: i64 = TS_REL_VAL_TENTH_DEG * (temp_calibrated_measurement - calib.ts_cal_1);
    proof {
        if dividend >= 0 {
            lemma_quotient_bound(dividend as int, calib.ts_cal_rel as int);
        } else {
            lemma_quotient_bound(-dividend, calib.ts_cal_rel as int);
        }
    }
    let temp_tenth_deg: i64 = div_i64(dividend, calib.ts_cal_rel) + TS_1_VAL_TENTH_DEG;
    truncate_i16(temp_tenth_deg)
}

/// The voltage in front of a divider, for readings and supplies that a
/// conversion can meet.
fn divider_input(measurement: u16, vref_mv: i64, r1: i64, r2: i64) -> (mv: i64)
    requires
        0 <= vref_mv <= max_vref_mv(),
        0 < r1 <= 1000,
        0 < r2 <= 1000,
    ensures
        mv == divider_input_mv(measurement as int, vref_mv as int, r1 as int, r2 as int),
{
    let v_measurement: i64 = measurement as i64;
    assert(0 <= v_measurement * (r1 + r2) <= 0xFFFF * 2000) by (nonlinear_arith)
        requires
            0 <= v_measurement <= 0xFFFF,
            0 < r1 + r2 <= 2000,
    ;
    let scaled: i64 = v_measurement * (r1 + r2);
    assert(0 <= scaled * vref_mv <= 0xFFFF * 2000 * 3_145_680_000) by (nonlinear_arith)
        requires
            0 <= scaled <= 0xFFFF * 2000,
            0 <= vref_mv <= 3_145_680_000,
    ;
    div_i64(scaled * vref_mv, r2 * RAW_VALUE_RANGE)
}

/// The voltage of a battery in millivolts, cut to 16 bits.
pub fn calculate_bat_voltage_mv(
    measurement: u16,
    calib_measurement: u16,
    calib: &FactoryCalibratedValues,
) -> (mv: i16)
    requires
        calib.wf(),
        calib_measurement != 0,
    ensures
        mv == wrap_i16(bat_voltage_mv(measurement as int, calib_measurement as int, *calib)),
        ({
            let supply = 3_000 * calib.v_refint / calib_measurement as int;
            supply <= 10_706 ==> mv * (330 * 65_535) <= measurement * 1_010 * supply < (mv + 1) * (
            330 * 65_535)
        }),
{
    proof {
        law_voltages_fit(measurement, calib_measurement, *calib);
        law_battery_voltage(measurement as int, calib_measurement as int, *calib);
    }
    let vref_mv: i64 = calculate_vref(calib_measurement, calib);
    truncate_i16(divider_input(measurement, vref_mv, BAT_R1_KOHM, BAT_R2_KOHM))
}

/// The voltage of an output in millivolts, cut to 16 bits.
pub fn calculate_out_voltage_mv(
    measurement: u16,
    calib_measurement: u16,
    calib: &FactoryCalibratedValues,
) -> (mv: i16)
    requires
        calib.wf(),
        calib_measurement != 0,
    ensures
        mv == wrap_i16(out_voltage_mv(measurement as int, calib_measurement as int, *calib)),
        ({
            let supply = 3_000 * calib.v_refint / calib_measurement as int;
            supply <= 6_966 ==> mv * (27 * 65_535) <= measurement * 127 * supply < (mv + 1) * (27
                * 65_535)
        }),
{
    proof {
        law_voltages_fit(measurement, calib_measurement, *calib);
        law_output_voltage(measurement as int, calib_measurement as int, *calib);
    }
    let vref_mv: i64 = calculate_vref(calib_measurement, calib);
    truncate_i16(divider_input(measurement, vref_mv, OUT_R1_KOHM, OUT_R2_KOHM))
}

/// A quotient by a positive number, rounded down.
proof fn lemma_rounded_down(a: int, b: int)
    requires
        0 < b,
    ensures
        (a / b) * b <= a < (a / b + 1) * b,
{
    vstd::arithmetic::div_mod::lemma_fundamental_div_mod(a, b);
    assert((a / b) * b == b * (a / b) && (a / b + 1) * b == b * (a / b) + b) by (nonlinear_arith);
}

/// There is only one such quotient.
pub(crate) proof fn lemma_rounded_down_is_unique(a: int, b: int, q: int)
    requires
        0 < b,
        q * b <= a < (q + 1) * b,
    ensures
        q == a / b,
{
    assert((q + 1) * b == q * b + b) by (nonlinear_arith);
    vstd::arithmetic::div_mod::lemma_fundamental_div_mod_converse(a, b, q, a - q * b);
}

/// There is only one quotient rounded toward zero.
pub(crate) proof fn lemma_truncated_is_unique(a: int, b: int, p: int, q: int)
    requires
        b != 0,
        ({
            let span = if b > 0 {
                b
            } else {
                -b
            };
            &&& a >= 0 ==> 0 <= a - p * b < span && 0 <= a - q * b < span
            &&& a <= 0 ==> -span < a - p * b <= 0 && -span < a - q * b <= 0
        }),
    ensures
        p == q,
{
    assert(p == q) by (nonlinear_arith)
        requires
            b != 0,
            b > 0 ==> -b < p * b - q * b < b,
            b < 0 ==> b < p * b - q * b < -b,
    ;
}

/// The supply voltage times the reading of the reference is 3000 mV times the factory
/// reading, up to what is lost by rounding the voltage down.
pub proof fn law_supply_is_rounded_down(calib_measurement: int, calib: FactoryCalibratedValues)
    requires
        0 < calib_measurement,
        calib.wf(),
    ensures
        ({
            let supply = vref_mv(calib_measurement, calib);
            &&& 0 <= supply
            &&& supply * calib_measurement <= 3_000 * calib.v_refint < (supply + 1)
                * calib_measurement
            &&& supply == 3_000 * calib.v_refint / calib_measurement
        }),
{
    lemma_rounded_down(3_000 * calib.v_refint, calib_measurement);
    vstd::arithmetic::div_mod::lemma_div_pos_is_pos(3_000 * calib.v_refint, calib_measurement);
}

/// Over the whole range of readings, the voltage of a battery is that of the tap times
/// (680 + 330) / 330, rounded down, at the supply that the reading of the reference stands for.
pub proof fn law_battery_voltage(
    measurement: int,
    calib_measurement: int,
    calib: FactoryCalibratedValues,
)
    requires
        0 <= measurement,
        0 < calib_measurement,
        calib.wf(),
    ensures
        ({
            let supply = 3_000 * calib.v_refint / calib_measurement;
            let mv = bat_voltage_mv(measurement, calib_measurement, calib);
            mv * (330 * 65_535) <= measurement * 1_010 * supply < (mv + 1) * (330 * 65_535)
        }),
{
    law_supply_is_rounded_down(calib_measurement, calib);
    let supply = vref_mv(calib_measurement, calib);
    lemma_rounded_down(measurement * 1_010 * supply, 330int * 65_535);
}

/// Over the whole range of readings, the voltage of an output is that of the tap times
/// (100 + 27) / 27, rounded down, at the supply that the reading of the reference stands for.
pub proof fn law_output_voltage(
    measurement: int,
    calib_measurement: int,
    calib: FactoryCalibratedValues,
)
    requires
        0 <= measurement,
        0 < calib_measurement,
        calib.wf(),
    ensures
        ({
            let supply = 3_000 * calib.v_refint / calib_measurement;
            let mv = out_voltage_mv(measurement, calib_measurement, calib);
            mv * (27 * 65_535) <= measurement * 127 * supply < (mv + 1) * (27 * 65_535)
        }),
{
    law_supply_is_rounded_down(calib_measurement, calib);
    let supply = vref_mv(calib_measurement, calib);
    lemma_rounded_down(measurement * 127 * supply, 27int * 65_535);
}

/// What a divider gives, for any resistors: the voltage of the tap times their ratio, rounded
/// down.
pub proof fn law_divider_is_rounded_down(measurement: int, vref: int, r1: int, r2: int)
    requires
        0 < r2,
    ensures
        ({
            let mv = divider_input_mv(measurement, vref, r1, r2);
            mv * (r2 * 65_535) <= measurement * (r1 + r2) * vref < (mv + 1) * (r2 * 65_535)
        }),
{
    lemma_rounded_down(measurement * (r1 + r2) * vref, r2 * 65_535);
}

/// The temperature lies on the line through the calibration points: `at` is the reading as it
/// would have been at 3000 mV, rounded down. To 300 tenths of a degree come 1000 for each
/// `ts_cal_rel` that it is above `ts_cal_1`, rounded toward zero.
pub proof fn law_temperature_is_on_the_line(
    measurement: int,
    calib_measurement: int,
    calib: FactoryCalibratedValues,
    at: int,
)
    requires
        0 <= measurement,
        0 < calib_measurement,
        calib.wf(),
        calib.ts_cal_rel != 0,
        at * 3_000 <= measurement * (3_000 * calib.v_refint / calib_measurement) < (at + 1) * 3_000,
    ensures
        ({
            let above = temperature_tenth_deg(measurement, calib_measurement, calib) - 300;
            let lost = 1_000 * (at - calib.ts_cal_1) - above * calib.ts_cal_rel;
            let span = if calib.ts_cal_rel > 0 {
                calib.ts_cal_rel as int
            } else {
                -calib.ts_cal_rel
            };
            &&& at >= calib.ts_cal_1 ==> 0 <= lost < span
            &&& at <= calib.ts_cal_1 ==> -span < lost <= 0
        }),
{
    law_supply_is_rounded_down(calib_measurement, calib);
    let supply = vref_mv(calib_measurement, calib);
    lemma_rounded_down_is_unique(measurement * supply, 3_000, at);
    let d = 1_000 * (at - calib.ts_cal_1);
    let rel = calib.ts_cal_rel as int;
    law_division_rounds_toward_zero(d, rel);
    assert(trunc_div(d, rel) * rel == rel * trunc_div(d, rel)) by (nonlinear_arith);
}

/// Division rounds toward zero: what is lost has the sign of the dividend and is less than
/// the divisor.
pub proof fn law_division_rounds_toward_zero(a: int, b: int)
    requires
        b != 0,
    ensures
        ({
            let lost = a - trunc_div(a, b) * b;
            let span = if b > 0 {
                b
            } else {
                -b
            };
            &&& a >= 0 ==> 0 <= lost < span
            &&& a <= 0 ==> -span < lost <= 0
        }),
{
    if a >= 0 {
        let q = a / b;
        vstd::arithmetic::div_mod::lemma_fundamental_div_mod(a, b);
        assert(q * b == b * q) by (nonlinear_arith);
        assert(0 <= a % b && (a % b < b || a % b < -b)) by (nonlinear_arith)
            requires
                b != 0,
        ;
        assert(a == 0 ==> q * b == 0) by (nonlinear_arith)
            requires
                b != 0,
                q == a / b,
        ;
    } else {
        let q = (-a) / b;
        vstd::arithmetic::div_mod::lemma_fundamental_div_mod(-a, b);
        assert((-q) * b == -(b * q)) by (nonlinear_arith);
        assert(0 <= (-a) % b && ((-a) % b < b || (-a) % b < -b)) by (nonlinear_arith)
            requires
                b != 0,
        ;
    }
}

/// The cut to 16 bits keeps a result up to multiples of 65536, and keeps one that fits.
pub proof fn law_cut_to_16_bits(v: int)
    ensures
        -32_768 <= wrap_i16(v) <= 32_767,
        (v - wrap_i16(v)) % 65_536 == 0,
        -32_768 <= v <= 32_767 ==> wrap_i16(v) == v,
{
}

/// A reference reading equal to the factory reading means that the supply is at
/// the calibration voltage.
pub proof fn law_vref_at_calibration(calib: FactoryCalibratedValues)
    requires
        calib.wf(),
        calib.v_refint != 0,
    ensures
        vref_mv(calib.v_refint as int, calib) == VREF_CALIB_MV,
{
    vstd::arithmetic::div_mod::lemma_div_by_multiple(VREF_CALIB_MV as int, calib.v_refint as int);
}

/// At the calibration voltage, the two factory readings of the temperature sensor
/// convert to the temperatures at which they were taken.
pub proof fn law_temperature_calibration_points(calib: FactoryCalibratedValues)
    requires
        calib.wf(),
        calib.v_refint != 0,
        calib.ts_cal_rel != 0,
    ensures
        temperature_tenth_deg(calib.ts_cal_1 as int, calib.v_refint as int, calib)
            == TS_1_VAL_TENTH_DEG,
        temperature_tenth_deg(
            calib.ts_cal_1 + calib.ts_cal_rel,
            calib.v_refint as int,
            calib,
        ) == TS_2_VAL_TENTH_DEG,
{
    let rel = calib.ts_cal_rel as int;
    law_vref_at_calibration(calib);
    assert(0int / rel == 0) by (nonlinear_arith)
        requires
            rel != 0,
    ;
    if rel > 0 {
        vstd::arithmetic::div_mod::lemma_div_by_multiple(TS_REL_VAL_TENTH_DEG as int, rel);
    } else {
        let pos = -rel;
        assert((1000 * pos) / rel == -1000) by (nonlinear_arith)
            requires
                pos == -rel,
                rel < 0,
        ;
        assert(-(TS_REL_VAL_TENTH_DEG * rel) == 1000 * pos);
    }
}

/// A higher reading never converts to a lower temperature, for a sensor whose
/// reading grows with the temperature.
pub proof fn law_temperature_monotonic(
    low: int,
    high: int,
    calib_measurement: int,
    calib: FactoryCalibratedValues,
)
    requires
        low <= high,
        0 < calib_measurement,
        calib.wf(),
        0 < calib.ts_cal_rel,
    ensures
        temperature_tenth_deg(low, calib_measurement, calib) <= temperature_tenth_deg(
            high,
            calib_measurement,
            calib,
        ),
{
    let vref = vref_mv(calib_measurement, calib);
    let rel = calib.ts_cal_rel as int;
    assert(0 <= vref) by (nonlinear_arith)
        requires
            vref == (3000 * calib.v_refint) / calib_measurement,
            0 <= 3000 * calib.v_refint,
            0 < calib_measurement,
    ;
    assert(low * vref <= high * vref) by (nonlinear_arith)
        requires
            low <= high,
            0 <= vref,
    ;
    let a = TS_REL_VAL_TENTH_DEG * (low * vref / 3000 - calib.ts_cal_1);
    let b = TS_REL_VAL_TENTH_DEG * (high * vref / 3000 - calib.ts_cal_1);
    assert(trunc_div(a, rel) <= trunc_div(b, rel)) by {
        lemma_trunc_div_ordered(a, b, rel);
    }
}

proof fn lemma_trunc_div_ordered(a: int, b: int, d: int)
    requires
        a <= b,
        0 < d,
    ensures
        trunc_div(a, d) <= trunc_div(b, d),
{
    if 0 <= a {
        vstd::arithmetic::div_mod::lemma_div_is_ordered(a, b, d);
    } else if b < 0 {
        vstd::arithmetic::div_mod::lemma_div_is_ordered(-b, -a, d);
    } else {
        vstd::arithmetic::div_mod::lemma_div_pos_is_pos(-a, d);
        vstd::arithmetic::div_mod::lemma_div_pos_is_pos(b, d);
    }
}

/// A divider reads nothing at zero, and at full scale the supply voltage times
/// its ratio.
pub proof fn law_divider_end_points(vref: int, r1: int, r2: int)
    requires
        0 <= vref,
        0 < r1,
        0 < r2,
    ensures
        divider_input_mv(0, vref, r1, r2) == 0,
        divider_input_mv(RAW_VALUE_RANGE as int, vref, r1, r2) == (r1 + r2) * vref / r2,
{
    let d = r2 * RAW_VALUE_RANGE;
    assert(0 * (r1 + r2) * vref == 0) by (nonlinear_arith);
    assert(0int / d == 0) by (nonlinear_arith)
        requires
            d != 0,
    ;
    let x = (r1 + r2) * vref;
    assert(0xFFFF * (r1 + r2) * vref == 0xFFFF * x) by (nonlinear_arith)
        requires
            x == (r1 + r2) * vref,
    ;
    assert(d == 0xFFFF * r2);
    assert(0 <= x) by (nonlinear_arith)
        requires
            x == (r1 + r2) * vref,
            0 <= vref,
            0 < r1 + r2,
    ;
    vstd::arithmetic::div_mod::lemma_div_denominator(0xFFFF * x, 0xFFFF, r2);
    assert((0xFFFF * x) / 0xFFFF == x);
}

/// A higher reading never converts to a lower voltage.
pub proof fn law_divider_monotonic(low: int, high: int, vref: int, r1: int, r2: int)
    requires
        low <= high,
        0 <= vref,
        0 < r1,
        0 < r2,
    ensures
        divider_input_mv(low, vref, r1, r2) <= divider_input_mv(high, vref, r1, r2),
{
    assert(low * (r1 + r2) * vref <= high * (r1 + r2) * vref) by (nonlinear_arith)
        requires
            low <= high,
            0 <= vref,
            0 < r1 + r2,
    ;
    vstd::arithmetic::div_mod::lemma_div_is_ordered(
        low * (r1 + r2) * vref,
        high * (r1 + r2) * vref,
        r2 * RAW_VALUE_RANGE,
    );
}

/// The supply voltage falls as the reading of the reference rises, and so do the voltages
/// that a reading stands for.
pub proof fn law_voltages_fall_with_the_reference(
    measurement: int,
    low: int,
    high: int,
    calib: FactoryCalibratedValues,
)
    requires
        0 <= measurement,
        0 < low <= high,
        calib.wf(),
    ensures
        vref_mv(high, calib) <= vref_mv(low, calib),
        bat_voltage_mv(measurement, high, calib) <= bat_voltage_mv(measurement, low, calib),
        out_voltage_mv(measurement, high, calib) <= out_voltage_mv(measurement, low, calib),
{
    let less = vref_mv(high, calib);
    let more = vref_mv(low, calib);
    vstd::arithmetic::div_mod::lemma_div_is_ordered_by_denominator(
        VREF_CALIB_MV * calib.v_refint,
        low,
        high,
    );
    lemma_divider_grows_with_the_supply(
        measurement,
        less,
        more,
        BAT_R1_KOHM as int,
        BAT_R2_KOHM as int,
    );
    lemma_divider_grows_with_the_supply(
        measurement,
        less,
        more,
        OUT_R1_KOHM as int,
        OUT_R2_KOHM as int,
    );
}

proof fn lemma_divider_grows_with_the_supply(
    measurement: int,
    less: int,
    more: int,
    r1: int,
    r2: int,
)
    requires
        0 <= measurement,
        less <= more,
        0 < r1,
        0 < r2,
    ensures
        divider_input_mv(measurement, less, r1, r2) <= divider_input_mv(measurement, more, r1, r2),
{
    let scaled = measurement * (r1 + r2);
    assert(0 <= scaled) by (nonlinear_arith)
        requires
            scaled == measurement * (r1 + r2),
            0 <= measurement,
            0 < r1 + r2,
    ;
    assert(scaled * less <= scaled * more) by (nonlinear_arith)
        requires
            0 <= scaled,
            less <= more,
    ;
    vstd::arithmetic::div_mod::lemma_div_is_ordered(
        scaled * less,
        scaled * more,
        r2 * RAW_VALUE_RANGE,
    );
}

/// Up to a supply of 10706 mV no voltage of a battery is lost to the cut to 16 bits, and up
/// to 6966 mV none of an output. At one millivolt more, full scale readings are.
pub proof fn law_voltages_fit(
    measurement: u16,
    calib_measurement: u16,
    calib: FactoryCalibratedValues,
)
    ensures
        0 <= vref_mv(calib_measurement as int, calib) <= 10_706 ==> {
            let bat = bat_voltage_mv(measurement as int, calib_measurement as int, calib);
            0 <= bat <= 0x7FFF && wrap_i16(bat) == bat
        },
        0 <= vref_mv(calib_measurement as int, calib) <= 6_966 ==> {
            let out = out_voltage_mv(measurement as int, calib_measurement as int, calib);
            0 <= out <= 0x7FFF && wrap_i16(out) == out
        },
        vref_mv(calib_measurement as int, calib) == 10_707 && measurement == 0xFFFF
            ==> bat_voltage_mv(measurement as int, calib_measurement as int, calib) > 0x7FFF,
        vref_mv(calib_measurement as int, calib) == 6_967 && measurement == 0xFFFF
            ==> out_voltage_mv(measurement as int, calib_measurement as int, calib) > 0x7FFF,
{
    let vref = vref_mv(calib_measurement as int, calib);
    let m = measurement as int;
    let bat = m * 1010 * vref;
    let out = m * 127 * vref;
    assert(0 <= vref <= 10_706 ==> 0 <= bat <= 0xFFFF * 1010 * 10_706) by (nonlinear_arith)
        requires
            bat == m * 1010 * vref,
            0 <= m <= 0xFFFF,
    ;
    assert(0 <= vref <= 6_966 ==> 0 <= out <= 0xFFFF * 127 * 6_966) by (nonlinear_arith)
        requires
            out == m * 127 * vref,
            0 <= m <= 0xFFFF,
    ;
    assert(vref == 10_707 && m == 0xFFFF ==> bat == 0xFFFF * 1010 * 10_707);
    assert(vref == 6_967 && m == 0xFFFF ==> out == 0xFFFF * 127 * 6_967);
    assert(bat_voltage_mv(m, calib_measurement as int, calib) == bat / (330int * 0xFFFF));
    assert(out_voltage_mv(m, calib_measurement as int, calib) == out / (27int * 0xFFFF));
}

} // verus!
