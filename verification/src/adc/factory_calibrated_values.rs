use vstd::prelude::*;

verus! {

/// Address of the factory reading of the temperature sensor at 30 degrees Celsius.
pub const TS_CAL_1_REG: usize = 0x1FFF_75A8;

/// Address of the factory reading of the temperature sensor at 130 degrees Celsius.
pub const TS_CAL_2_REG: usize = 0x1FFF_75CA;

/// Address of the factory reading of the internal voltage reference.
pub const V_REFINT_REG: usize = 0x1FFF_75AA;

/// The factory calibration readings, scaled from 12 to 16 bit resolution.
#[derive(Clone, Copy, Debug, PartialEq, Eq, Structural)]
pub struct FactoryCalibratedValues {
    /// Temperature sensor reading at the first calibration point.
    pub ts_cal_1: i64,
    /// Reading at the second calibration point, relative to the first.
    pub ts_cal_rel: i64,
    /// Reading of the internal voltage reference.
    pub v_refint: i64,
}

/// The largest scaled reading: a 16 bit register times 16.
pub open spec fn max_scaled_reading() -> int {
    16int * 0xFFFF
}

impl FactoryCalibratedValues {
    /// Every value is one that 16 bit registers can give.
    pub open spec fn wf(self) -> bool {
        &&& 0 <= self.ts_cal_1 <= max_scaled_reading()
        &&& -max_scaled_reading() <= self.ts_cal_rel <= max_scaled_reading()
        &&& 0 <= self.v_refint <= max_scaled_reading()
    }

    /// Scales the contents of the three calibration registers.
    pub fn new(ts_cal_1: u16, ts_cal_2: u16, v_refint: u16) -> (values: Self)
        ensures
            values.ts_cal_1 == 16 * ts_cal_1,
            values.ts_cal_rel == 16 * ts_cal_2 - 16 * ts_cal_1,
            values.v_refint == 16 * v_refint,
            values.wf(),
    {
        // Multiply by 16 (left shift by 4) for 16 bit resolution.
        let ts_cal_1: i64 = 16 * ts_cal_1 as i64;
        let ts_cal_2: i64 = 16 * ts_cal_2 as i64;
        let ts_cal_rel: i64 = ts_cal_2 - ts_cal_1;
        let v_refint: i64 = 16 * v_refint as i64;
        FactoryCalibratedValues { ts_cal_1, ts_cal_rel, v_refint }
    }
}

/// The values are sixteen times what the registers hold, the second relative to the first;
/// the registers are told apart by their addresses.
pub proof fn law_register_values(values: FactoryCalibratedValues)
    ensures
        values.wf() <==> {
            &&& 0 <= values.ts_cal_1 <= 16 * 65_535
            &&& -16 * 65_535 <= values.ts_cal_rel <= 16 * 65_535
            &&& 0 <= values.v_refint <= 16 * 65_535
        },
        TS_CAL_1_REG == 0x1FFF_75A8,
        TS_CAL_2_REG == 0x1FFF_75CA,
        V_REFINT_REG == 0x1FFF_75AA,
{
}

} // verus!
