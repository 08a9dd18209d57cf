//! Hardware oversampling of the ADC.
use embassy_stm32::adc::Averaging as DriverAveraging;
use embassy_stm32::adc::{AdcConfig, Ovsr, Ovss, Resolution};
use vstd::prelude::*;

verus! {

/// `embassy_stm32::adc::Ovsr`: the oversampling ratio as the ADC registers encode
/// it, one variant for each ratio.
#[verifier::external_type_specification]
pub struct ExOvsr(embassy_stm32::adc::Ovsr);

/// `embassy_stm32::adc::Ovss`: the right shift of the oversampled sum as the ADC
/// registers encode it, one variant for each shift.
#[verifier::external_type_specification]
pub struct ExOvss(embassy_stm32::adc::Ovss);

/// `embassy_stm32::adc::Resolution`: the width of one sample. It is only handed on.
#[verifier::external_type_specification]
#[verifier::external_body]
pub struct ExResolution(embassy_stm32::adc::Resolution);

/// `embassy_stm32::adc::Clock`: a choice of the ADC clock. None is ever made here.
#[verifier::external_type_specification]
#[verifier::external_body]
pub struct ExClock(embassy_stm32::adc::Clock);

/// `embassy_stm32::adc::Averaging`: a shorthand of the driver for oversampling. It is
/// left unused here.
#[verifier::external_type_specification]
#[verifier::external_body]
pub struct ExDriverAveraging(DriverAveraging);

/// `embassy_stm32::adc::AdcConfig`: what the driver is asked to configure, each part
/// of it optional.
#[verifier::external_type_specification]
pub struct ExAdcConfig(embassy_stm32::adc::AdcConfig);

/// `AdcConfig::default` asks for nothing.
#[verifier::external_body]
fn default_config() -> (config: AdcConfig)
    ensures
        config.oversampling_shift is None,
        config.oversampling_ratio is None,
        config.oversampling_enable is None,
        config.clock is None,
        config.resolution is None,
        config.averaging is None,
{
    AdcConfig::default()
}

/// Number of samples that the hardware adds up for one reading.
#[derive(Clone, Copy, Debug, PartialEq, Eq, Structural)]
pub enum Averaging {
    Samples16,
    Samples32,
    Samples64,
    Samples128,
    Samples256,
}

/// The number of samples that a ratio stands for.
pub open spec fn ratio_samples(ratio: Ovsr) -> int {
    match ratio {
        Ovsr::MUL2 => 2,
        Ovsr::MUL4 => 4,
        Ovsr::MUL8 => 8,
        Ovsr::MUL16 => 16,
        Ovsr::MUL32 => 32,
        Ovsr::MUL64 => 64,
        Ovsr::MUL128 => 128,
        Ovsr::MUL256 => 256,
    }
}

/// What a shift divides the sum by. Reserved encodings divide by nothing known.
pub open spec fn shift_divisor(shift: Ovss) -> Option<int> {
    match shift {
        Ovss::NO_SHIFT => Some(1),
        Ovss::SHIFT1 => Some(2),
        Ovss::SHIFT2 => Some(4),
        Ovss::SHIFT3 => Some(8),
        Ovss::SHIFT4 => Some(16),
        Ovss::SHIFT5 => Some(32),
        Ovss::SHIFT6 => Some(64),
        Ovss::SHIFT7 => Some(128),
        Ovss::SHIFT8 => Some(256),
        _ => None,
    }
}

impl Averaging {
    /// The number of samples in one reading.
    pub open spec fn samples(self) -> int {
        match self {
            Averaging::Samples16 => 16,
            Averaging::Samples32 => 32,
            Averaging::Samples64 => 64,
            Averaging::Samples128 => 128,
            Averaging::Samples256 => 256,
        }
    }

    /// The ratio that adds up this many samples.
    pub fn oversampeling_ratio(&self) -> (ratio: Ovsr)
        ensures
            ratio_samples(ratio) == self.samples(),
            *self is Samples16 <==> ratio is MUL16,
            *self is Samples32 <==> ratio is MUL32,
            *self is Samples64 <==> ratio is MUL64,
            *self is Samples128 <==> ratio is MUL128,
            *self is Samples256 <==> ratio is MUL256,
    {
        match *self {
            Averaging::Samples16 => Ovsr::MUL16,
            Averaging::Samples32 => Ovsr::MUL32,
            Averaging::Samples64 => Ovsr::MUL64,
            Averaging::Samples128 => Ovsr::MUL128,
            Averaging::Samples256 => Ovsr::MUL256,
        }
    }

    /// The shift that scales the sum to sixteen times one sample.
    pub fn oversampeling_shift(&self) -> (shift: Ovss)
        ensures
            shift_divisor(shift) == Some(self.samples() / 16),
            *self is Samples16 <==> shift is NO_SHIFT,
            *self is Samples32 <==> shift is SHIFT1,
            *self is Samples64 <==> shift is SHIFT2,
            *self is Samples128 <==> shift is SHIFT3,
            *self is Samples256 <==> shift is SHIFT4,
    {
        match *self {
            Averaging::Samples16 => Ovss::NO_SHIFT,
            Averaging::Samples32 => Ovss::SHIFT1,
            Averaging::Samples64 => Ovss::SHIFT2,
            Averaging::Samples128 => Ovss::SHIFT3,
            Averaging::Samples256 => Ovss::SHIFT4,
        }
    }
}

/// The driver configuration for a resolution and an averaging: oversampling on, with
/// the ratio and the shift of the averaging, and nothing else asked for.
pub fn adc_config(resolution: Resolution, averaging: Averaging) -> (config: AdcConfig)
    ensures
        config.resolution == Some(resolution),
        config.oversampling_ratio matches Some(ratio) && ratio_samples(ratio)
            == averaging.samples(),
        config.oversampling_shift matches Some(shift) && shift_divisor(shift) == Some(
            averaging.samples() / 16,
        ),
        config.oversampling_enable == Some(true),
        config.clock is None,
        config.averaging is None,
{
    let mut config = default_config();
    config.resolution = Some(resolution);
    // Number of samples that are added up.
    config.oversampling_ratio = Some(averaging.oversampeling_ratio());
    // Right shift of the sum.
    config.oversampling_shift = Some(averaging.oversampeling_shift());
    config.oversampling_enable = Some(true);
    config
}

/// The settings for each averaging: the ratio that adds up as many samples as its name says,
/// and the shift that leaves sixteen of them.
pub proof fn law_oversampling_settings(averaging: Averaging, ratio: Ovsr, shift: Ovss)
    ensures
        ratio_samples(ratio) == averaging.samples() <==> match averaging {
            Averaging::Samples16 => ratio is MUL16,
            Averaging::Samples32 => ratio is MUL32,
            Averaging::Samples64 => ratio is MUL64,
            Averaging::Samples128 => ratio is MUL128,
            Averaging::Samples256 => ratio is MUL256,
        },
        shift_divisor(shift) == Some(averaging.samples() / 16) <==> match averaging {
            Averaging::Samples16 => shift is NO_SHIFT,
            Averaging::Samples32 => shift is SHIFT1,
            Averaging::Samples64 => shift is SHIFT2,
            Averaging::Samples128 => shift is SHIFT3,
            Averaging::Samples256 => shift is SHIFT4,
        },
{
}

/// Whatever the averaging, a steady input that converts to `sample` at 12 bits is
/// read as sixteen times that, and fits in 16 bits: the scale of the factory
/// calibration values.
pub proof fn law_reading_scale(averaging: Averaging, ratio: Ovsr, shift: Ovss, sample: int)
    requires
        ratio_samples(ratio) == averaging.samples(),
        shift_divisor(shift) == Some(averaging.samples() / 16),
        0 <= sample <= 0xFFF,
    ensures
        sample * ratio_samples(ratio) / shift_divisor(shift)->0 == 16 * sample,
        16 * sample <= 0xFFFF,
{
    let divisor = averaging.samples() / 16;
    assert(averaging.samples() == 16 * divisor && divisor > 0);
    assert(sample * (16 * divisor) == (16 * sample) * divisor) by (nonlinear_arith);
    vstd::arithmetic::div_mod::lemma_div_by_multiple(16 * sample, divisor);
}

} // verus!
