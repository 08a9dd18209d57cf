//! The fixed settings of the board.
use vstd::prelude::*;

verus! {

/// Time from power on to the start of the tasks, in milliseconds.
pub const STARTUP_DELAY_MS: u64 = 300;

/// The watchdog resets the board after this time without being petted, in microseconds.
pub const WATCHDOG_TIMEOUT_US: u32 = 300_000;

/// How often the watchdog is petted, in microseconds.
pub const WATCHDOG_PETTING_INTERVAL_US: u32 = WATCHDOG_TIMEOUT_US / 2;

/// The number of ADC channels.
pub const ADC_NUM_CHANNELS: usize = 6;

/// The number of readings in the ADC buffer, at least two for each channel.
pub const ADC_BUF_SIZE: usize = ADC_NUM_CHANNELS * 14;

/// The number of readings in one half of the ADC buffer.
pub const ADC_MES_SIZE: usize = ADC_BUF_SIZE / 2;

/// The frequency of the internal oscillator.
pub const HSI_HZ: u32 = 16_000_000;

/// What feeds the PLL.
#[derive(Clone, Copy, Debug, PartialEq, Eq, Structural)]
pub enum PllSource {
    /// The internal oscillator.
    Hsi,
    /// An external oscillator.
    Hse,
}

/// Where a clock is taken from.
#[derive(Clone, Copy, Debug, PartialEq, Eq, Structural)]
pub enum PllOutput {
    P,
    Q,
    R,
}

/// How the clocks are made: an oscillator feeds a PLL, whose outputs feed the system, the
/// CAN peripheral and the ADC.
#[derive(Clone, Copy, Debug, PartialEq, Eq, Structural)]
pub struct RccConfig {
    /// Divider between the oscillator and the system, apart from the PLL.
    pub hsi_sys_div: u32,
    /// What feeds the PLL.
    pub source: PllSource,
    /// Divider in front of the PLL.
    pub prediv: u32,
    /// Factor of the PLL.
    pub mul: u32,
    /// Dividers behind the PLL, for each of its outputs.
    pub divp: u32,
    pub divq: u32,
    pub divr: u32,
    /// The output that drives the system.
    pub sys: PllOutput,
    /// The output that drives the CAN peripheral.
    pub fdcansel: PllOutput,
    /// The output that drives the ADC.
    pub adcsel: PllOutput,
}

impl RccConfig {
    /// The frequency inside the PLL, where the internal oscillator feeds it.
    pub open spec fn vco_hz(self) -> int
        recommends
            self.source is Hsi,
    {
        HSI_HZ as int / self.prediv as int * self.mul
    }

    /// The frequency of an output of the PLL.
    pub open spec fn output_hz(self, output: PllOutput) -> int {
        match output {
            PllOutput::P => self.vco_hz() / self.divp as int,
            PllOutput::Q => self.vco_hz() / self.divq as int,
            PllOutput::R => self.vco_hz() / self.divr as int,
        }
    }
}

/// The clocks of the board: a fast system and CAN clock, so that no message is dropped,
/// and a slow ADC clock.
pub fn get_rcc_config() -> (config: RccConfig)
    ensures
        config == (RccConfig {
            hsi_sys_div: 1,
            source: PllSource::Hsi,
            prediv: 1,
            mul: 8,
            divp: 32,
            divq: 2,
            divr: 2,
            sys: PllOutput::R,
            fdcansel: PllOutput::Q,
            adcsel: PllOutput::P,
        }),
        config.vco_hz() == 128_000_000,
        config.output_hz(config.sys) == 64_000_000,
        config.output_hz(config.fdcansel) == 64_000_000,
        config.output_hz(config.adcsel) == 4_000_000,
{
    RccConfig {
        hsi_sys_div: 1,
        source: PllSource::Hsi,  // 16 MHz
        prediv: 1,  // 16 MHz
        mul: 8,  // 128 MHz
        divp: 32,  // 4 MHz
        divq: 2,  // 64 MHz
        divr: 2,  // 64 MHz
        sys: PllOutput::R,  // 64 MHz
        fdcansel: PllOutput::Q,  // 64 MHz
        adcsel: PllOutput::P,  // 4 MHz
    }
}

/// The watchdog is petted before it can run out, with as much time to spare.
pub proof fn law_watchdog_is_petted_in_time()
    ensures
        0 < WATCHDOG_PETTING_INTERVAL_US,
        2 * WATCHDOG_PETTING_INTERVAL_US <= WATCHDOG_TIMEOUT_US,
{
}

/// The halves of the ADC buffer hold whole scans, so that each reading counts.
pub proof fn law_adc_buffer_holds_whole_scans()
    ensures
        2 * ADC_MES_SIZE == ADC_BUF_SIZE,
        ADC_MES_SIZE % ADC_NUM_CHANNELS == 0,
        ADC_MES_SIZE / ADC_NUM_CHANNELS == 7,
        2 * ADC_NUM_CHANNELS <= ADC_BUF_SIZE,
{
}

/// The clock that a configuration gives an output: the oscillator through the divider in
/// front of the PLL, its factor, and the divider behind it.
pub proof fn law_output_frequency(config: RccConfig, output: PllOutput)
    ensures
        ({
            let divider = match output {
                PllOutput::P => config.divp as int,
                PllOutput::Q => config.divq as int,
                PllOutput::R => config.divr as int,
            };
            config.output_hz(output) == 16_000_000int / config.prediv as int * config.mul / divider
        }),
{
}

/// The tasks start 300 ms after power on. The watchdog resets the board after 300 ms and is
/// petted every 150 ms. The ADC reads 6 channels, 7 times for each half of its buffer.
pub proof fn law_board_settings()
    ensures
        STARTUP_DELAY_MS == 300,
        WATCHDOG_TIMEOUT_US == 300_000,
        WATCHDOG_PETTING_INTERVAL_US == 150_000,
        ADC_NUM_CHANNELS == 6,
        ADC_MES_SIZE == 7 * 6,
        ADC_BUF_SIZE == 2 * 7 * 6,
{
}

} // verus!
