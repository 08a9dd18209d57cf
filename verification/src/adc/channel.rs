//! What is known of each ADC channel.
use vstd::prelude::*;

use super::conversion::{
    bat_voltage_mv, calculate_bat_voltage_mv, calculate_out_voltage_mv,
    calculate_temperature_tenth_deg, law_battery_voltage, law_cut_to_16_bits,
    law_output_voltage, law_temperature_is_on_the_line, lemma_rounded_down_is_unique,
    lemma_truncated_is_unique, out_voltage_mv, temperature_tenth_deg, wrap_i16,
};
use super::factory_calibrated_values::FactoryCalibratedValues;

verus! {

/// How the readings of a channel are converted.
#[derive(Clone, Copy, Debug, PartialEq, Eq, Structural)]
pub enum Conversion {
    /// To tenths of a degree Celsius.
    Temperature,
    /// To the millivolts of a battery.
    BatVoltage,
    /// To the millivolts of an output.
    OutVoltage,
    /// To nothing: the reading serves the other channels.
    Reference,
}

impl Conversion {
    /// A reading of the reference allows this conversion.
    pub open spec fn is_defined(
        self,
        calib_measurement: u16,
        calib: FactoryCalibratedValues,
    ) -> bool {
        match self {
            Conversion::Temperature => calib_measurement != 0 && calib.ts_cal_rel != 0,
            Conversion::BatVoltage => calib_measurement != 0,
            Conversion::OutVoltage => calib_measurement != 0,
            Conversion::Reference => true,
        }
    }

    /// The converted reading.
    pub open spec fn converted(
        self,
        measurement: u16,
        calib_measurement: u16,
        calib: FactoryCalibratedValues,
    ) -> int {
        match self {
            Conversion::Temperature => wrap_i16(
                temperature_tenth_deg(measurement as int, calib_measurement as int, calib),
            ),
            Conversion::BatVoltage => wrap_i16(
                bat_voltage_mv(measurement as int, calib_measurement as int, calib),
            ),
            Conversion::OutVoltage => wrap_i16(
                out_voltage_mv(measurement as int, calib_measurement as int, calib),
            ),
            Conversion::Reference => 0,
        }
    }

    /// Whether `apply` can be called with this reading of the reference.
    pub fn can_apply(&self, calib_measurement: u16, calib: &FactoryCalibratedValues) -> (possible:
        bool)
        ensures
            possible == self.is_defined(calib_measurement, *calib),
    {
        match *self {
            Conversion::Temperature => calib_measurement != 0 && calib.ts_cal_rel != 0,
            Conversion::BatVoltage => calib_measurement != 0,
            Conversion::OutVoltage => calib_measurement != 0,
            Conversion::Reference => true,
        }
    }

    /// Converts a reading.
    pub fn apply(
        &self,
        measurement: u16,
        calib_measurement: u16,
        calib: &FactoryCalibratedValues,
    ) -> (value: i16)
        requires
            calib.wf(),
            self.is_defined(calib_measurement, *calib),
        ensures
            value == self.converted(measurement, calib_measurement, *calib),
    {
        match *self {
            Conversion::Temperature => calculate_temperature_tenth_deg(
                measurement,
                calib_measurement,
                calib,
            ),
            Conversion::BatVoltage => calculate_bat_voltage_mv(
                measurement,
                calib_measurement,
                calib,
            ),
            Conversion::OutVoltage => calculate_out_voltage_mv(
                measurement,
                calib_measurement,
                calib,
            ),
            Conversion::Reference => 0,
        }
    }
}

/// An input of the ADC: its hardware channel, and the handle by which its owner
/// finds it again.
#[derive(Clone, Copy, Debug, PartialEq, Eq, Structural)]
pub struct AdcInput {
    pub hw_channel: u8,
    pub handle: usize,
}

/// A channel to be sampled. The sender is the handle of whoever gets its values.
#[derive(Clone, Copy, Debug, PartialEq, Eq, Structural)]
pub struct AdcCtrlChannel {
    pub channel: AdcInput,
    pub sender: Option<usize>,
    pub conversion_func: Conversion,
}

impl AdcCtrlChannel {
    /// A channel whose converted values go to `sender`.
    pub fn new(channel: AdcInput, sender: usize, conversion_func: Conversion) -> (created: Self)
        ensures
            created == (AdcCtrlChannel { channel, sender: Some(sender), conversion_func }),
    {
        AdcCtrlChannel { channel, sender: Some(sender), conversion_func }
    }

    /// The channel of the voltage reference, whose values go to nobody.
    pub(crate) fn new_ref(channel: AdcInput) -> (created: Self)
        ensures
            created == (AdcCtrlChannel {
                channel,
                sender: None,
                conversion_func: Conversion::Reference,
            }),
    {
        AdcCtrlChannel { channel, sender: None, conversion_func: Conversion::Reference }
    }

    /// What is kept of the channel once it is being sampled.
    pub open spec fn ctx(self) -> AdcChannelCtx {
        AdcChannelCtx { sender: self.sender, conversion_func: self.conversion_func }
    }
}

/// What to do with the readings of a channel.
#[derive(Clone, Copy, Debug, PartialEq, Eq, Structural)]
pub struct AdcChannelCtx {
    pub sender: Option<usize>,
    pub conversion_func: Conversion,
}

impl AdcChannelCtx {
    /// Takes the sender over from a channel.
    pub fn from(value: &mut AdcCtrlChannel) -> (ctx: Self)
        ensures
            ctx == old(value).ctx(),
            ctx.sender == old(value).sender,
            ctx.conversion_func == old(value).conversion_func,
            *final(value) == (AdcCtrlChannel { sender: None, ..*old(value) }),
    {
        AdcChannelCtx { sender: value.sender.take(), conversion_func: value.conversion_func }
    }
}

/// A battery channel converts to the millivolts `mv` that its reading stands for at the
/// supply `supply` that the measured reference reading stands for, cut to 16 bits.
pub proof fn law_battery_conversion(
    measurement: u16,
    calib_measurement: u16,
    calib: FactoryCalibratedValues,
    supply: int,
    mv: int,
)
    requires
        calib.wf(),
        calib_measurement != 0,
        supply * calib_measurement <= 3_000 * calib.v_refint < (supply + 1) * calib_measurement,
        mv * (330 * 65_535) <= measurement * 1_010 * supply < (mv + 1) * (330 * 65_535),
    ensures
        ({
            let value = Conversion::BatVoltage.converted(measurement, calib_measurement, calib);
            &&& -32_768 <= value <= 32_767
            &&& (mv - value) % 65_536 == 0
            &&& mv <= 32_767 ==> value == mv
        }),
{
    let (m, c) = (measurement as int, calib_measurement as int);
    lemma_rounded_down_is_unique(3_000 * calib.v_refint, c, supply);
    law_battery_voltage(m, c, calib);
    lemma_rounded_down_is_unique(m * 1_010 * supply, 330int * 65_535, mv);
    lemma_rounded_down_is_unique(
        m * 1_010 * supply,
        330int * 65_535,
        bat_voltage_mv(m, c, calib),
    );
    lemma_not_negative(m, 1_010, supply, c, 3_000 * calib.v_refint);
    law_cut_to_16_bits(mv);
}

/// An output channel converts to the millivolts `mv` that its reading stands for at the
/// supply `supply` that the measured reference reading stands for, cut to 16 bits.
pub proof fn law_output_conversion(
    measurement: u16,
    calib_measurement: u16,
    calib: FactoryCalibratedValues,
    supply: int,
    mv: int,
)
    requires
        calib.wf(),
        calib_measurement != 0,
        supply * calib_measurement <= 3_000 * calib.v_refint < (supply + 1) * calib_measurement,
        mv * (27 * 65_535) <= measurement * 127 * supply < (mv + 1) * (27 * 65_535),
    ensures
        ({
            let value = Conversion::OutVoltage.converted(measurement, calib_measurement, calib);
            &&& -32_768 <= value <= 32_767
            &&& (mv - value) % 65_536 == 0
            &&& mv <= 32_767 ==> value == mv
        }),
{
    let (m, c) = (measurement as int, calib_measurement as int);
    lemma_rounded_down_is_unique(3_000 * calib.v_refint, c, supply);
    law_output_voltage(m, c, calib);
    lemma_rounded_down_is_unique(m * 127 * supply, 27int * 65_535, mv);
    lemma_rounded_down_is_unique(m * 127 * supply, 27int * 65_535, out_voltage_mv(m, c, calib));
    lemma_not_negative(m, 127, supply, c, 3_000 * calib.v_refint);
    law_cut_to_16_bits(mv);
}

proof fn lemma_not_negative(m: int, ratio: int, supply: int, c: int, reference: int)
    requires
        0 <= m,
        0 < ratio,
        0 < c,
        0 <= reference < (supply + 1) * c,
    ensures
        0 <= supply,
        0 <= m * ratio * supply,
{
    assert(0 <= supply) by (nonlinear_arith)
        requires
            0 < c,
            0 <= reference < (supply + 1) * c,
    ;
    assert(0 <= m * ratio * supply) by (nonlinear_arith)
        requires
            0 <= m,
            0 < ratio,
            0 <= supply,
    ;
}

/// A temperature channel converts to 300 tenths of a degree plus `above`: `at` is its reading
/// as it would have been at 3000 mV, given the supply `supply` that the measured reference
/// reading stands for, and `above` is 1000 for each `ts_cal_rel` of `at` above `ts_cal_1`,
/// rounded toward zero. The sum is cut to 16 bits.
pub proof fn law_temperature_conversion(
    measurement: u16,
    calib_measurement: u16,
    calib: FactoryCalibratedValues,
    supply: int,
    at: int,
    above: int,
)
    requires
        calib.wf(),
        calib_measurement != 0,
        calib.ts_cal_rel != 0,
        supply * calib_measurement <= 3_000 * calib.v_refint < (supply + 1) * calib_measurement,
        at * 3_000 <= measurement * supply < (at + 1) * 3_000,
        ({
            let lost = 1_000 * (at - calib.ts_cal_1) - above * calib.ts_cal_rel;
            let span = if calib.ts_cal_rel > 0 {
                calib.ts_cal_rel as int
            } else {
                -calib.ts_cal_rel
            };
            &&& at >= calib.ts_cal_1 ==> 0 <= lost < span
            &&& at <= calib.ts_cal_1 ==> -span < lost <= 0
        }),
    ensures
        ({
            let value = Conversion::Temperature.converted(measurement, calib_measurement, calib);
            &&& -32_768 <= value <= 32_767
            &&& (300 + above - value) % 65_536 == 0
            &&& -32_768 <= 300 + above <= 32_767 ==> value == 300 + above
        }),
{
    let (m, c) = (measurement as int, calib_measurement as int);
    lemma_rounded_down_is_unique(3_000 * calib.v_refint, c, supply);
    law_temperature_is_on_the_line(m, c, calib, at);
    let found = temperature_tenth_deg(m, c, calib) - 300;
    lemma_truncated_is_unique(
        1_000 * (at - calib.ts_cal_1),
        calib.ts_cal_rel as int,
        above,
        found,
    );
    law_cut_to_16_bits(300 + above);
}

/// The reference converts to nothing, whatever it reads.
pub proof fn law_reference_conversion(
    measurement: u16,
    calib_measurement: u16,
    calib: FactoryCalibratedValues,
)
    ensures
        Conversion::Reference.converted(measurement, calib_measurement, calib) == 0,
{
}

/// A conversion is possible just if it divides by nothing that is zero: the measured
/// reference reading for all but the reference itself, and the distance of the calibration
/// points for the temperature.
pub proof fn law_conversions_divide_by_no_zero(
    conversion: Conversion,
    calib_measurement: u16,
    calib: FactoryCalibratedValues,
)
    ensures
        conversion.is_defined(calib_measurement, calib) <==> {
            &&& conversion !is Reference ==> calib_measurement != 0
            &&& conversion is Temperature ==> calib.ts_cal_rel != 0
        },
{
}

/// What is kept of a channel is its own sender and its own conversion.
pub proof fn law_context_is_that_of_the_channel(channel: AdcCtrlChannel)
    ensures
        channel.ctx().sender == channel.sender,
        channel.ctx().conversion_func == channel.conversion_func,
{
}

} // verus!
