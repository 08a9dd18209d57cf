use embassy_stm32::adc::{Ovsr, Ovss, Resolution, SampleTime};
use pyro_fw::adc::averaging::adc_config;
use pyro_fw::adc::factory_calibrated_values::FactoryCalibratedValues;
use pyro_fw::adc::util::Sortable;
use pyro_fw::adc::{AdcChannelCtx, AdcCtrl, AdcCtrlChannel, AdcInput, Averaging, Conversion};

fn input(hw_channel: u8, handle: usize) -> AdcInput {
    AdcInput { hw_channel, handle }
}

const TIME: SampleTime = SampleTime::CYCLES160_5;

/// The inputs of a sequence.
fn inputs<const N: usize>(sequence: [(AdcInput, SampleTime); N]) -> [AdcInput; N] {
    sequence.map(|(input, _)| input)
}

/// The channels of the board: two outputs, two batteries, temperature and reference.
fn board() -> (AdcCtrl<6, 42>, [(AdcInput, SampleTime); 6]) {
    AdcCtrl::new(
        84,
        TIME,
        input(12, 4),
        40,
        input(13, 5),
        [
            AdcCtrlChannel::new(input(1, 0), 10, Conversion::OutVoltage),
            AdcCtrlChannel::new(input(0, 1), 11, Conversion::OutVoltage),
            AdcCtrlChannel::new(input(3, 2), 20, Conversion::BatVoltage),
            AdcCtrlChannel::new(input(2, 3), 21, Conversion::BatVoltage),
        ],
    )
}

#[test]
fn scan_goes_up_through_the_hardware_channels() {
    let (_, sequence) = board();
    assert_eq!(
        inputs(sequence),
        [input(0, 1), input(1, 0), input(2, 3), input(3, 2), input(12, 4), input(13, 5)]
    );
}

#[test]
fn every_input_is_sampled_for_the_same_time() {
    let (_, sequence) = board();
    assert_eq!(sequence.map(|(_, time)| time), [TIME; 6]);
    let (_, sequence): (AdcCtrl<2, 2>, [(AdcInput, SampleTime); 2]) =
        AdcCtrl::new(4, SampleTime::CYCLES1_5, input(9, 1), 1, input(2, 2), []);
    assert_eq!(
        sequence,
        [(input(2, 2), SampleTime::CYCLES1_5), (input(9, 1), SampleTime::CYCLES1_5)]
    );
}

#[test]
fn ascending_channels_keep_their_order() {
    let (_, sequence): (AdcCtrl<4, 4>, [(AdcInput, SampleTime); 4]) = AdcCtrl::new(
        8,
        TIME,
        input(4, 2),
        2,
        input(4, 3),
        [
            AdcCtrlChannel::new(input(4, 0), 0, Conversion::BatVoltage),
            AdcCtrlChannel::new(input(4, 1), 1, Conversion::OutVoltage),
        ],
    );
    assert_eq!(inputs(sequence), [input(4, 0), input(4, 1), input(4, 2), input(4, 3)]);
}

#[test]
fn every_sender_gets_its_own_value_and_the_reference_none() {
    let (ctrl, _) = board();
    let deliveries = ctrl.send([1, 2, 3, 4, 5, 6]);
    assert_eq!(
        deliveries,
        [Some((11, 1)), Some((10, 2)), Some((21, 3)), Some((20, 4)), Some((40, 5)), None]
    );
}

#[test]
fn reference_is_found_wherever_it_is_scanned() {
    let calib = FactoryCalibratedValues::new(1000, 1300, 1500);
    let (ctrl, sequence): (AdcCtrl<3, 3>, [(AdcInput, SampleTime); 3]) = AdcCtrl::new(
        6,
        TIME,
        input(9, 1),
        1,
        input(2, 2),
        [AdcCtrlChannel::new(input(5, 0), 0, Conversion::BatVoltage)],
    );
    assert_eq!(inputs(sequence), [input(2, 2), input(5, 0), input(9, 1)]);
    assert_eq!(ctrl.convert([24000, 30000, 18400], &calib), [0, 4203, 800]);
    assert_eq!(ctrl.send([0, 4203, 800]), [None, Some((0, 4203)), Some((1, 800))]);
}

#[test]
fn values_are_converted_by_channel() {
    let calib = FactoryCalibratedValues::new(1000, 1300, 1500);
    let (ctrl, _) = board();
    let values = [30000, 0xFFFF, 30000, 0xFFFF, 18400, 24000];
    assert!(ctrl.can_convert(&values, &calib));
    assert_eq!(ctrl.convert(values, &calib), [6459, 14111, 4203, 9181, 800, 0]);
}

#[test]
fn values_without_a_reference_reading_cannot_be_converted() {
    let calib = FactoryCalibratedValues::new(1000, 1300, 1500);
    let flat = FactoryCalibratedValues::new(1000, 1000, 1500);
    let (ctrl, _) = board();
    assert!(!ctrl.can_convert(&[1, 1, 1, 1, 1, 0], &calib));
    assert!(!ctrl.can_convert(&[1, 1, 1, 1, 1, 1], &flat));
    assert!(ctrl.can_convert(&[0, 0, 0, 0, 0, 1], &calib));
}

#[test]
fn equal_hardware_channels_are_kept() {
    let (ctrl, sequence): (AdcCtrl<4, 8>, [(AdcInput, SampleTime); 4]) = AdcCtrl::new(
        16,
        TIME,
        input(7, 2),
        2,
        input(1, 3),
        [
            AdcCtrlChannel::new(input(7, 0), 0, Conversion::BatVoltage),
            AdcCtrlChannel::new(input(7, 1), 1, Conversion::OutVoltage),
        ],
    );
    // Exchanging the first with the last leaves the others in their order.
    assert_eq!(inputs(sequence), [input(1, 3), input(7, 1), input(7, 2), input(7, 0)]);
    assert_eq!(ctrl.send([1, 2, 3, 4]), [None, Some((1, 2)), Some((2, 3)), Some((0, 4))]);
}

#[test]
fn longest_scan() {
    let external: [AdcCtrlChannel; 14] = core::array::from_fn(|i| {
        AdcCtrlChannel::new(input(20 - i as u8, i), i, Conversion::BatVoltage)
    });
    let (ctrl, sequence): (AdcCtrl<16, 16>, [(AdcInput, SampleTime); 16]) =
        AdcCtrl::new(32, TIME, input(0, 14), 14, input(255, 15), external);
    assert_eq!(sequence[0], (input(0, 14), TIME));
    assert_eq!(sequence[15], (input(255, 15), TIME));
    for i in 1..15 {
        assert_eq!(sequence[i].0.hw_channel, 6 + i as u8);
    }
    assert_eq!(ctrl.send([0; 16])[15], None);
}

#[test]
fn measurement_is_the_mean_of_each_channel() {
    let measurements = [10, 100, 1000, 20, 200, 2000, 31, 301, 0xFFFF];
    let values = AdcCtrl::<3, 9>::measure(&measurements, false).values;
    assert_eq!(values, [20, 200, 22845]);
}

#[test]
fn readings_after_the_last_whole_scan_do_not_count() {
    let values = AdcCtrl::<2, 5>::measure(&[10, 20, 30, 40, 9999], false).values;
    assert_eq!(values, [20, 30]);
}

#[test]
fn full_scale_readings_average_to_full_scale() {
    let values = AdcCtrl::<6, 42>::measure(&[0xFFFF; 42], false).values;
    assert_eq!(values, [0xFFFF; 6]);
    let values = AdcCtrl::<1, 65537>::measure(&[0xFFFF; 65537], false).values;
    assert_eq!(values, [0xFFFF]);
}

#[test]
fn overrun_reads_clear_the_buffer_and_are_averaged() {
    let measurements = [10, 100, 20, 200];
    let good = AdcCtrl::<2, 4>::measure(&measurements, false);
    assert_eq!((good.values, good.clear_buffer), ([15, 150], false));
    let overrun = AdcCtrl::<2, 4>::measure(&measurements, true);
    assert_eq!((overrun.values, overrun.clear_buffer), ([15, 150], true));
}

#[test]
fn context_takes_the_sender() {
    let mut channel = AdcCtrlChannel::new(input(3, 2), 20, Conversion::BatVoltage);
    let ctx = AdcChannelCtx::from(&mut channel);
    assert_eq!(
        ctx,
        AdcChannelCtx { sender: Some(20), conversion_func: Conversion::BatVoltage }
    );
    assert_eq!(channel.sender, None);
    assert_eq!(channel.channel, input(3, 2));
    assert_eq!(channel.conversion_func, Conversion::BatVoltage);
}

#[test]
fn slices_are_sorted() {
    let mut items = [5, 3, 9, 3, 1, 8];
    Sortable::sort_by(&mut items[..], |a: &i32, b: &i32| a.cmp(b));
    assert_eq!(items, [1, 3, 3, 5, 8, 9]);
    let mut none: [i32; 0] = [];
    Sortable::sort_by(&mut none[..], |a: &i32, b: &i32| a.cmp(b));
    // By exchanges, equal keys do not keep their order.
    let mut pairs = [(2, 'a'), (2, 'b'), (1, 'c')];
    Sortable::sort_by(&mut pairs[..], |a: &(i32, char), b: &(i32, char)| a.0.cmp(&b.0));
    assert_eq!(pairs, [(1, 'c'), (2, 'b'), (2, 'a')]);
}

#[test]
fn lists_are_sorted() {
    let mut list: heapless::Vec<AdcCtrlChannel, 16> = heapless::Vec::new();
    for hw_channel in [4u8, 1, 3] {
        list.push(AdcCtrlChannel::new(
            input(hw_channel, hw_channel as usize),
            0,
            Conversion::BatVoltage,
        ))
        .unwrap();
    }
    Sortable::sort_by(&mut list, |a: &AdcCtrlChannel, b: &AdcCtrlChannel| {
        b.channel.hw_channel.cmp(&a.channel.hw_channel)
    });
    let order: Vec<u8> = list.iter().map(|c| c.channel.hw_channel).collect();
    assert_eq!(order, [4, 3, 1]);
}

#[test]
fn oversampling_settings() {
    let all = [
        (Averaging::Samples16, Ovsr::MUL16, Ovss::NO_SHIFT, 16u32, 0),
        (Averaging::Samples32, Ovsr::MUL32, Ovss::SHIFT1, 32, 1),
        (Averaging::Samples64, Ovsr::MUL64, Ovss::SHIFT2, 64, 2),
        (Averaging::Samples128, Ovsr::MUL128, Ovss::SHIFT3, 128, 3),
        (Averaging::Samples256, Ovsr::MUL256, Ovss::SHIFT4, 256, 4),
    ];
    for (averaging, ratio, shift, samples, bits) in all {
        assert_eq!(averaging.oversampeling_ratio(), ratio);
        assert_eq!(averaging.oversampeling_shift(), shift);
        assert_eq!((0xFFF * samples) >> bits, 16 * 0xFFF);
    }
}

#[test]
fn driver_configuration() {
    let config = adc_config(Resolution::BITS12, Averaging::Samples256);
    assert_eq!(config.resolution, Some(Resolution::BITS12));
    assert_eq!(config.oversampling_ratio, Some(Ovsr::MUL256));
    assert_eq!(config.oversampling_shift, Some(Ovss::SHIFT4));
    assert_eq!(config.oversampling_enable, Some(true));
    assert!(config.clock.is_none());
    assert!(config.averaging.is_none());
}
