use pyro_fw::board::{
    get_rcc_config, PllOutput, PllSource, RccConfig, ADC_BUF_SIZE, ADC_MES_SIZE, ADC_NUM_CHANNELS, HSI_HZ,
    WATCHDOG_PETTING_INTERVAL_US, WATCHDOG_TIMEOUT_US,
};

#[test]
fn clock_frequencies() {
    let config = get_rcc_config();
    let vco = HSI_HZ / config.prediv * config.mul;
    assert_eq!(vco, 128_000_000);
    assert_eq!(vco / config.divp, 4_000_000);
    assert_eq!(vco / config.divq, 64_000_000);
    assert_eq!(vco / config.divr, 64_000_000);
    assert_eq!(
        config,
        RccConfig {
            hsi_sys_div: 1,
            source: PllSource::Hsi,
            prediv: 1,
            mul: 8,
            divp: 32,
            divq: 2,
            divr: 2,
            sys: PllOutput::R,
            fdcansel: PllOutput::Q,
            adcsel: PllOutput::P,
        }
    );
}

#[test]
fn watchdog_timing() {
    assert_eq!(WATCHDOG_TIMEOUT_US, 300_000);
    assert_eq!(WATCHDOG_PETTING_INTERVAL_US, 150_000);
}

#[test]
fn adc_buffer_sizes() {
    assert_eq!(ADC_NUM_CHANNELS, 6);
    assert_eq!(ADC_BUF_SIZE, 84);
    assert_eq!(ADC_MES_SIZE, 42);
}
