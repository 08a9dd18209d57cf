//! Sampling of the ADC channels.
use embassy_stm32::adc::SampleTime;
use vstd::prelude::*;

pub mod averaging;
pub mod channel;
pub mod channel_list;
pub mod conversion;
pub mod factory_calibrated_values;
pub mod util;

pub use averaging::Averaging;
pub use channel::{AdcChannelCtx, AdcCtrlChannel, AdcInput, Conversion};

use channel::law_conversions_divide_by_no_zero;
use channel_list::{
    hw_greater, into_array, listed, new_list, push, sort_by_hw_channel, MAX_SCAN_LEN,
};
use factory_calibrated_values::FactoryCalibratedValues;
use util::{
    exchange_sorted, is_strict_weak_order, law_exchange_sort_keeps_sorted,
    law_exchange_sort_permutes, law_exchange_sort_sorts, law_exchange_sort_step, lemma_occurs,
};

verus! {

/// `embassy_stm32::adc::SampleTime`: how long an input is sampled. It is only handed on.
#[verifier::external_type_specification]
#[verifier::external_body]
pub struct ExSampleTime(embassy_stm32::adc::SampleTime);

/// Everything that is sampled: the external channels, the temperature sensor and the
/// voltage reference.
pub open spec fn sampled_channels(
    external_channels: Seq<AdcCtrlChannel>,
    temp_channel: AdcInput,
    temp_sender: usize,
    ref_channel: AdcInput,
) -> Seq<AdcCtrlChannel> {
    external_channels.push(
        AdcCtrlChannel {
            channel: temp_channel,
            sender: Some(temp_sender),
            conversion_func: Conversion::Temperature,
        },
    ).push(
        AdcCtrlChannel {
            channel: ref_channel,
            sender: None,
            conversion_func: Conversion::Reference,
        },
    )
}

/// The channels in the order in which the hardware scans them.
pub open spec fn scan_order(channels: Seq<AdcCtrlChannel>) -> Seq<AdcCtrlChannel> {
    exchange_sorted(channels, hw_greater())
}

/// `idx` is the first channel whose values go to nobody.
pub open spec fn is_first_unsent(channels: Seq<AdcCtrlChannel>, idx: int) -> bool {
    &&& 0 <= idx < channels.len()
    &&& channels[idx].sender is None
    &&& forall|k: int| 0 <= k < idx ==> (#[trigger] channels[k]).sender is Some
}

/// What scan `row` read on channel `c`, of scans of `channels` readings each.
pub open spec fn reading(measurements: Seq<u16>, channels: int, c: int, row: int) -> u16 {
    measurements[row * channels + c]
}

/// The sum of the first `rows` readings of channel `c`.
pub open spec fn column_sum(measurements: Seq<u16>, channels: int, c: int, rows: int) -> int
    decreases rows,
{
    if rows <= 0 {
        0
    } else {
        column_sum(measurements, channels, c, rows - 1) + reading(
            measurements,
            channels,
            c,
            rows - 1,
        )
    }
}

/// All readings of channel `c` in the whole scans of a buffer, in scan order.
pub open spec fn channel_readings(measurements: Seq<u16>, channels: int, c: int) -> Seq<int> {
    Seq::new(
        (measurements.len() as int / channels) as nat,
        |row: int| measurements[row * channels + c] as int,
    )
}

/// `value` is the mean of `readings`, rounded down.
pub open spec fn is_rounded_mean(value: u16, readings: Seq<int>) -> bool {
    let sum = readings.fold_left(0, |total: int, reading: int| total + reading);
    value * readings.len() <= sum < (value + 1) * readings.len()
}

/// What is measured on channel `c`: the mean over the whole scans, in 32 bit
/// arithmetic and cut to 16 bits.
pub open spec fn measured(measurements: Seq<u16>, channels: int, c: int) -> int {
    let rows = measurements.len() as int / channels;
    column_sum(measurements, channels, c, rows) / (rows % 0x1_0000_0000) % 0x1_0000
}

/// The readings hold at least one scan, and no sum over them overflows.
pub open spec fn is_measurable(measurements: Seq<u16>, channels: int) -> bool {
    let rows = measurements.len() as int / channels;
    &&& channels > 0
    &&& rows % 0x1_0000_0000 != 0
    &&& forall|c: int|
        0 <= c < channels ==> #[trigger] column_sum(measurements, channels, c, rows) <= u32::MAX
}

/// The bookkeeping of a continuous scan over `CHANNELS` channels, read `MES_SZE`
/// readings at a time.
pub struct AdcCtrl<const CHANNELS: usize, const MES_SZE: usize> {
    channel_ctx: [AdcChannelCtx; CHANNELS],
    ref_channel_idx: usize,
}

/// What comes of a read of the ring buffer.
#[derive(Clone, Copy, Debug, PartialEq, Eq)]
pub struct Measurement<const CHANNELS: usize> {
    /// The mean of each channel, in scan order.
    pub values: [u16; CHANNELS],
    /// The ring buffer has to be cleared before it is read again.
    pub clear_buffer: bool,
}

proof fn lemma_column_sum_monotonic(
    measurements: Seq<u16>,
    channels: int,
    c: int,
    rows: int,
    more: int,
)
    requires
        0 <= rows <= more,
    ensures
        0 <= column_sum(measurements, channels, c, rows) <= column_sum(
            measurements,
            channels,
            c,
            more,
        ),
    decreases more,
{
    if more > 0 {
        if rows < more {
            lemma_column_sum_monotonic(measurements, channels, c, rows, more - 1);
        } else {
            lemma_column_sum_monotonic(measurements, channels, c, rows - 1, more - 1);
        }
    }
}

impl<const CHANNELS: usize, const MES_SZE: usize> AdcCtrl<CHANNELS, MES_SZE> {
    #[verifier::type_invariant]
    spec fn inv(self) -> bool {
        self.ref_channel_idx < CHANNELS
    }

    /// What to do with the readings, in scan order.
    pub closed spec fn contexts(self) -> Seq<AdcChannelCtx> {
        self.channel_ctx@
    }

    /// Where in the scan the voltage reference is read.
    pub closed spec fn reference(self) -> int {
        self.ref_channel_idx as int
    }

    /// Arranges the channels for the scan, and gives with the bookkeeping the inputs in
    /// the order in which they have to be scanned, each with the time to sample it.
    pub fn new<const EXT_CHANNELS: usize>(
        dma_buffer_len: usize,
        sample_time: SampleTime,
        temp_channel: AdcInput,
        temp_sender: usize,
        ref_channel: AdcInput,
        external_channels: [AdcCtrlChannel; EXT_CHANNELS],
    ) -> (created: (Self, [(AdcInput, SampleTime); CHANNELS]))
        requires
            EXT_CHANNELS + 2 == CHANNELS,
            CHANNELS <= MAX_SCAN_LEN,
            MES_SZE * 2 == dma_buffer_len,
        ensures
            ({
                let scan = scan_order(
                    sampled_channels(external_channels@, temp_channel, temp_sender, ref_channel),
                );
                &&& scan.len() == CHANNELS
                &&& created.0.contexts() == scan.map_values(|c: AdcCtrlChannel| c.ctx())
                &&& created.1@ == scan.map_values(|c: AdcCtrlChannel| (c.channel, sample_time))
                &&& is_first_unsent(scan, created.0.reference())
                &&& forall|i: int|
                    0 <= i < CHANNELS ==> (#[trigger] created.0.contexts()[i]).sender
                        == scan[i].sender && created.0.contexts()[i].conversion_func
                        == scan[i].conversion_func
                &&& forall|i: int|
                    0 <= i < CHANNELS ==> #[trigger] created.1@[i] == (scan[i].channel, sample_time)
                &&& 0 <= created.0.reference() < CHANNELS
                &&& created.0.contexts()[created.0.reference()].sender is None
                &&& forall|i: int|
                    0 <= i < created.0.reference() ==> (
                    #[trigger] created.0.contexts()[i]).sender is Some
            }),
    {
        let mut channels = new_list();
        let mut k: usize = 0;
        while k < EXT_CHANNELS
            invariant
                k <= EXT_CHANNELS,
                EXT_CHANNELS + 2 <= MAX_SCAN_LEN,
                listed(channels) == external_channels@.take(k as int),
            decreases EXT_CHANNELS - k,
        {
            let _ = push(&mut channels, external_channels[k]);
            assert(external_channels@.take(k + 1) =~= external_channels@.take(k as int).push(
                external_channels@[k as int],
            ));
            k += 1;
        }
        assert(external_channels@.take(k as int) =~= external_channels@);
        let _ = push(
            &mut channels,
            AdcCtrlChannel::new(temp_channel, temp_sender, Conversion::Temperature),
        );
        let _ = push(&mut channels, AdcCtrlChannel::new_ref(ref_channel));
        let ghost unsorted = listed(channels);
        sort_by_hw_channel(&mut channels);
        let ghost scan = listed(channels);
        proof {
            law_exchange_sort_permutes(unsorted, hw_greater());
            lemma_occurs(scan, unsorted, unsorted.len() - 1);
        }
        let sorted: [AdcCtrlChannel; CHANNELS] = into_array(channels).unwrap();

        let mut ref_channel_idx: usize = 0;
        while sorted[ref_channel_idx].sender.is_some()
            invariant
                ref_channel_idx < CHANNELS,
                sorted@ == scan,
                scan.contains(unsorted.last()),
                unsorted.last().sender is None,
                forall|m: int| 0 <= m < ref_channel_idx ==> (#[trigger] scan[m]).sender is Some,
            decreases CHANNELS - ref_channel_idx,
        {
            ref_channel_idx += 1;
        }

        let mut channel_ctx = [AdcChannelCtx {
            sender: None,
            conversion_func: Conversion::Reference,
        };CHANNELS];
        let mut sequence = [(ref_channel, sample_time);CHANNELS];
        let mut n: usize = 0;
        while n < CHANNELS
            invariant
                n <= CHANNELS,
                sorted@ == scan,
                forall|m: int| 0 <= m < n ==> #[trigger] channel_ctx@[m] == scan[m].ctx(),
                forall|m: int|
                    0 <= m < n ==> #[trigger] sequence@[m] == (scan[m].channel, sample_time),
            decreases CHANNELS - n,
        {
            let mut channel = sorted[n];
            channel_ctx[n] = AdcChannelCtx::from(&mut channel);
            sequence[n] = (channel.channel, sample_time);
            n += 1;
        }
        assert(channel_ctx@ =~= scan.map_values(|c: AdcCtrlChannel| c.ctx()));
        assert(sequence@ =~= scan.map_values(|c: AdcCtrlChannel| (c.channel, sample_time)));
        (AdcCtrl { channel_ctx, ref_channel_idx }, sequence)
    }

    /// Averages the readings of each channel over the scans. Where the read was overrun, the
    /// ring buffer has to be cleared, and what was read is averaged all the same.
    pub fn measure(measurements: &[u16; MES_SZE], overrun: bool) -> (measurement: Measurement<
        CHANNELS,
    >)
        requires
            is_measurable(measurements@, CHANNELS as int),
        ensures
            forall|c: int|
                0 <= c < CHANNELS ==> #[trigger] measurement.values@[c] == measured(
                    measurements@,
                    CHANNELS as int,
                    c,
                ),
            MES_SZE as int / CHANNELS as int <= u32::MAX ==> forall|c: int|
                0 <= c < CHANNELS ==> is_rounded_mean(
                    #[trigger] measurement.values@[c],
                    channel_readings(measurements@, CHANNELS as int, c),
                ),
            measurement.clear_buffer == overrun,
    {
        let swr_ovs: usize = MES_SZE / CHANNELS;
        let ghost chs = CHANNELS as int;
        let mut averaged = [0u32;CHANNELS];
        let mut row: usize = 0;
        while row < swr_ovs
            invariant
                row <= swr_ovs,
                chs == CHANNELS,
                chs > 0,
                swr_ovs == MES_SZE as int / chs,
                measurements@.len() == MES_SZE,
                is_measurable(measurements@, chs),
                forall|c: int|
                    0 <= c < chs ==> #[trigger] averaged@[c] == column_sum(
                        measurements@,
                        chs,
                        c,
                        row as int,
                    ),
            decreases swr_ovs - row,
        {
            let mut ch: usize = 0;
            assert((row + 1) * chs <= MES_SZE && row * chs + chs == (row + 1) * chs)
                by (nonlinear_arith)
                requires
                    row + 1 <= MES_SZE as int / chs,
                    chs > 0,
            ;
            assert(0 <= row * chs) by (nonlinear_arith)
                requires
                    0 <= row,
                    chs > 0,
            ;
            let start: usize = row * CHANNELS;
            while ch < CHANNELS
                invariant
                    ch <= CHANNELS,
                    row < swr_ovs,
                    chs == CHANNELS,
                    swr_ovs == MES_SZE as int / chs,
                    measurements@.len() == MES_SZE,
                    start == row * chs,
                    start + chs <= MES_SZE,
                    is_measurable(measurements@, chs),
                    forall|c: int|
                        0 <= c < ch ==> #[trigger] averaged@[c] == column_sum(
                            measurements@,
                            chs,
                            c,
                            row + 1,
                        ),
                    forall|c: int|
                        ch <= c < chs ==> #[trigger] averaged@[c] == column_sum(
                            measurements@,
                            chs,
                            c,
                            row as int,
                        ),
                decreases CHANNELS - ch,
            {
                proof {
                    lemma_column_sum_monotonic(
                        measurements@,
                        chs,
                        ch as int,
                        row + 1,
                        swr_ovs as int,
                    );
                }
                averaged[ch] = averaged[ch] + measurements[start + ch] as u32;
                ch += 1;
            }
            row += 1;
        }

        let mut values = [0u16;CHANNELS];
        let mut n: usize = 0;
        let wide: u64 = swr_ovs as u64;
        assert(wide as u32 == wide % 0x1_0000_0000) by (bit_vector);
        let divisor: u32 = wide as u32;
        while n < CHANNELS
            invariant
                n <= CHANNELS,
                divisor == swr_ovs as int % 0x1_0000_0000,
                divisor != 0,
                swr_ovs == measurements@.len() as int / CHANNELS as int,
                forall|c: int|
                    0 <= c < CHANNELS ==> #[trigger] averaged@[c] == column_sum(
                        measurements@,
                        CHANNELS as int,
                        c,
                        swr_ovs as int,
                    ),
                forall|c: int|
                    0 <= c < n ==> #[trigger] values@[c] == measured(
                        measurements@,
                        CHANNELS as int,
                        c,
                    ),
            decreases CHANNELS - n,
        {
            let mean: u32 = averaged[n] / divisor;
            assert(mean as u16 == mean % 0x1_0000) by (bit_vector);
            values[n] = mean as u16;
            n += 1;
        }
        proof {
            assert forall|c: int|
                0 <= c < CHANNELS && MES_SZE as int / CHANNELS as int
                    <= u32::MAX implies is_rounded_mean(
                #[trigger] values@[c],
                channel_readings(measurements@, CHANNELS as int, c),
            ) by {
                law_measured_is_the_mean_of_all_scans(measurements@, CHANNELS as int, c);
            }
        }
        Measurement { values, clear_buffer: overrun }
    }

    /// The reading of the reference among `values` allows the conversion of all others.
    pub open spec fn is_convertible(
        self,
        values: Seq<u16>,
        calib: FactoryCalibratedValues,
    ) -> bool {
        forall|i: int|
            0 <= i < CHANNELS ==> (#[trigger] self.contexts()[i]).conversion_func.is_defined(
                values[self.reference()],
                calib,
            )
    }

    /// Whether `convert` can be called on these values.
    pub fn can_convert(
        &self,
        values: &[u16; CHANNELS],
        calib: &FactoryCalibratedValues,
    ) -> (possible: bool)
        ensures
            possible == self.is_convertible(values@, *calib),
    {
        proof {
            use_type_invariant(&*self);
        }
        let v_ref_measurement: u16 = values[self.ref_channel_idx];
        let mut n: usize = 0;
        while n < CHANNELS
            invariant
                n <= CHANNELS,
                v_ref_measurement == values@[self.reference()],
                forall|i: int|
                    0 <= i < n ==> (#[trigger] self.contexts()[i]).conversion_func.is_defined(
                        values@[self.reference()],
                        *calib,
                    ),
            decreases CHANNELS - n,
        {
            let ctx = self.channel_ctx[n];
            assert(ctx == self.contexts()[n as int]);
            if !ctx.conversion_func.can_apply(v_ref_measurement, calib) {
                return false;
            }
            n += 1;
        }
        true
    }

    /// Converts what was measured on each channel, by the reading of the reference.
    pub fn convert(
        &self,
        values: [u16; CHANNELS],
        calib: &FactoryCalibratedValues,
    ) -> (converted: [i16; CHANNELS])
        requires
            calib.wf(),
            self.is_convertible(values@, *calib),
        ensures
            forall|i: int|
                0 <= i < CHANNELS ==> #[trigger] converted@[i]
                    == self.contexts()[i].conversion_func.converted(
                    values@[i],
                    values@[self.reference()],
                    *calib,
                ),
    {
        proof {
            use_type_invariant(&*self);
        }
        let v_ref_measurement: u16 = values[self.ref_channel_idx];
        let mut converted = [0i16;CHANNELS];
        let mut n: usize = 0;
        while n < CHANNELS
            invariant
                n <= CHANNELS,
                calib.wf(),
                self.is_convertible(values@, *calib),
                v_ref_measurement == values@[self.reference()],
                forall|i: int|
                    0 <= i < n ==> #[trigger] converted@[i]
                        == self.contexts()[i].conversion_func.converted(
                        values@[i],
                        values@[self.reference()],
                        *calib,
                    ),
            decreases CHANNELS - n,
        {
            let ctx = self.channel_ctx[n];
            assert(ctx == self.contexts()[n as int]);
            converted[n] = ctx.conversion_func.apply(values[n], v_ref_measurement, calib);
            n += 1;
        }
        converted
    }

    /// Says for each channel to which sender its value goes, if to any.
    pub fn send(&self, values: [i16; CHANNELS]) -> (deliveries: [Option<(usize, i16)>; CHANNELS])
        ensures
            forall|i: int|
                0 <= i < CHANNELS ==> #[trigger] deliveries@[i] == delivery(
                    self.contexts()[i],
                    values@[i],
                ),
            forall|i: int|
                0 <= i < CHANNELS ==> match self.contexts()[i].sender {
                    Some(sender) => #[trigger] deliveries@[i] == Some((sender, values@[i])),
                    None => deliveries@[i] is None,
                },
    {
        let mut deliveries: [Option<(usize, i16)>; CHANNELS] = [None;CHANNELS];
        let mut n: usize = 0;
        while n < CHANNELS
            invariant
                n <= CHANNELS,
                forall|i: int|
                    0 <= i < n ==> #[trigger] deliveries@[i] == delivery(
                        self.contexts()[i],
                        values@[i],
                    ),
            decreases CHANNELS - n,
        {
            let ctx = self.channel_ctx[n];
            assert(ctx == self.contexts()[n as int]);
            deliveries[n] = match ctx.sender {
                Some(sender) => Some((sender, values[n])),
                None => None,
            };
            n += 1;
        }
        deliveries
    }
}

/// The value and who gets it.
pub open spec fn delivery(ctx: AdcChannelCtx, value: i16) -> Option<(usize, i16)> {
    match ctx.sender {
        Some(sender) => Some((sender, value)),
        None => None,
    }
}

/// A value is delivered as it is, to the sender of its channel; without a sender it is not
/// delivered.
pub proof fn law_values_are_delivered_unchanged(ctx: AdcChannelCtx, value: i16)
    ensures
        ctx.sender is None <==> delivery(ctx, value) is None,
        delivery(ctx, value) matches Some((sender, sent)) ==> ctx.sender == Some(sender) && sent
            == value,
        forall|other: i16|
            ctx.sender is Some && #[trigger] delivery(ctx, other) == delivery(ctx, value) ==> other
                == value,
{
}

/// What is sampled: first the external channels as they are, then the temperature sensor
/// with its sender, converted to a temperature, and last the reference, which nobody gets.
pub proof fn law_everything_is_sampled(
    external_channels: Seq<AdcCtrlChannel>,
    temp_channel: AdcInput,
    temp_sender: usize,
    ref_channel: AdcInput,
)
    ensures
        ({
            let n = external_channels.len() as int;
            let channels = sampled_channels(
                external_channels,
                temp_channel,
                temp_sender,
                ref_channel,
            );
            &&& channels.len() == n + 2
            &&& forall|i: int| 0 <= i < n ==> #[trigger] channels[i] == external_channels[i]
            &&& channels[n].channel == temp_channel
            &&& channels[n].sender == Some(temp_sender)
            &&& channels[n].conversion_func is Temperature
            &&& channels[n + 1].channel == ref_channel
            &&& channels[n + 1].sender is None
            &&& channels[n + 1].conversion_func is Reference
        }),
{
}

/// Values can be converted just if no conversion divides by zero: where some channel is no
/// reference the reference must not have read zero, and where some channel is a temperature
/// the calibration points must differ.
pub proof fn law_convertible_scans<const CHANNELS: usize, const MES_SZE: usize>(
    ctrl: AdcCtrl<CHANNELS, MES_SZE>,
    values: Seq<u16>,
    calib: FactoryCalibratedValues,
)
    ensures
        ctrl.is_convertible(values, calib) <==> forall|i: int|
            0 <= i < CHANNELS ==> {
                let conversion = (#[trigger] ctrl.contexts()[i]).conversion_func;
                &&& conversion is Reference || values[ctrl.reference()] != 0
                &&& conversion is Temperature ==> calib.ts_cal_rel != 0
            },
        values[ctrl.reference()] != 0 && calib.ts_cal_rel != 0 ==> ctrl.is_convertible(
            values,
            calib,
        ),
{
    assert forall|i: int| 0 <= i < CHANNELS implies {
        let conversion = (#[trigger] ctrl.contexts()[i]).conversion_func;
        conversion.is_defined(values[ctrl.reference()], calib) <==> {
            &&& conversion is Reference || values[ctrl.reference()] != 0
            &&& conversion is Temperature ==> calib.ts_cal_rel != 0
        }
    } by {
        law_conversions_divide_by_no_zero(
            ctrl.contexts()[i].conversion_func,
            values[ctrl.reference()],
            calib,
        );
    }
}

/// The scan holds each sampled channel, and nothing else.
pub proof fn law_scan_is_complete(channels: Seq<AdcCtrlChannel>)
    ensures
        scan_order(channels).len() == channels.len(),
        scan_order(channels).to_multiset() == channels.to_multiset(),
{
    law_exchange_sort_permutes(channels, hw_greater());
}

/// The scan goes up through the hardware channels, strictly so where no two inputs
/// share one.
pub proof fn law_scan_is_ascending(channels: Seq<AdcCtrlChannel>)
    ensures
        forall|i: int, j: int|
            0 <= i < j < scan_order(channels).len()
                ==> (#[trigger] scan_order(channels)[i]).channel.hw_channel <= (
            #[trigger] scan_order(channels)[j]).channel.hw_channel,
        (forall|i: int, j: int|
            0 <= i < j < channels.len() ==> (#[trigger] channels[i]).channel.hw_channel != (
            #[trigger] channels[j]).channel.hw_channel) ==> (forall|i: int, j: int|
            0 <= i < j < scan_order(channels).len()
                ==> (#[trigger] scan_order(channels)[i]).channel.hw_channel < (
            #[trigger] scan_order(channels)[j]).channel.hw_channel),
{
    let scan = scan_order(channels);
    assert(is_strict_weak_order(hw_greater()));
    law_exchange_sort_sorts(channels, hw_greater());
    assert forall|i: int, j: int| 0 <= i < j < scan.len() implies (
    #[trigger] scan[i]).channel.hw_channel <= (#[trigger] scan[j]).channel.hw_channel by {
        assert(!hw_greater()(scan[i], scan[j]));
    }
    if forall|i: int, j: int|
        0 <= i < j < channels.len() ==> (#[trigger] channels[i]).channel.hw_channel != (
        #[trigger] channels[j]).channel.hw_channel {
        law_exchange_sort_permutes(channels, hw_greater());
        assert(channels.no_duplicates());
        channels.lemma_multiset_has_no_duplicates();
        scan.lemma_multiset_has_no_duplicates_conv();
        assert forall|i: int, j: int| 0 <= i < j < scan.len() implies (
        #[trigger] scan[i]).channel.hw_channel < (#[trigger] scan[j]).channel.hw_channel by {
            lemma_occurs(channels, scan, i);
            lemma_occurs(channels, scan, j);
            let a = choose|a: int| 0 <= a < channels.len() && channels[a] == scan[i];
            let b = choose|b: int| 0 <= b < channels.len() && channels[b] == scan[j];
            assert(a != b);
            if a < b {
                assert(channels[a].channel.hw_channel != channels[b].channel.hw_channel);
            } else {
                assert(channels[b].channel.hw_channel != channels[a].channel.hw_channel);
            }
        }
    }
}

/// Channels that already go up through the hardware channels are scanned as they are.
pub proof fn law_ascending_channels_keep_their_order(channels: Seq<AdcCtrlChannel>)
    requires
        forall|i: int, j: int|
            0 <= i < j < channels.len() ==> (#[trigger] channels[i]).channel.hw_channel <= (
            #[trigger] channels[j]).channel.hw_channel,
    ensures
        scan_order(channels) == channels,
{
    law_exchange_sort_keeps_sorted(channels, hw_greater());
}

/// How the scan comes about: the first channel that is above one behind it changes places with
/// the first such one, and so on. This settles the order of inputs that share a hardware
/// channel.
pub proof fn law_scan_step(channels: Seq<AdcCtrlChannel>, i: int, j: int)
    requires
        0 <= i < j < channels.len(),
        channels[i].channel.hw_channel > channels[j].channel.hw_channel,
        forall|k: int|
            i < k < j ==> channels[i].channel.hw_channel <= (
            #[trigger] channels[k]).channel.hw_channel,
        forall|k: int, l: int|
            0 <= k < i && k < l < channels.len() ==> (#[trigger] channels[k]).channel.hw_channel
                <= (#[trigger] channels[l]).channel.hw_channel,
    ensures
        scan_order(channels) == scan_order(
            channels.update(i, channels[j]).update(j, channels[i]),
        ),
{
    assert(is_strict_weak_order(hw_greater()));
    law_exchange_sort_step(channels, i, j, hw_greater());
}

/// Where every external channel has a sender, the first channel without one is the
/// voltage reference, and it is the only one.
pub proof fn law_reference_is_found(
    external_channels: Seq<AdcCtrlChannel>,
    temp_channel: AdcInput,
    temp_sender: usize,
    ref_channel: AdcInput,
    idx: int,
)
    requires
        forall|k: int|
            0 <= k < external_channels.len() ==> (#[trigger] external_channels[k]).sender is Some,
        is_first_unsent(
            scan_order(
                sampled_channels(external_channels, temp_channel, temp_sender, ref_channel),
            ),
            idx,
        ),
    ensures
        ({
            let channels = sampled_channels(
                external_channels,
                temp_channel,
                temp_sender,
                ref_channel,
            );
            let scan = scan_order(channels);
            &&& scan[idx] == channels.last()
            &&& forall|k: int|
                0 <= k < scan.len() && k != idx ==> (#[trigger] scan[k]).sender is Some
        }),
{
    let channels = sampled_channels(external_channels, temp_channel, temp_sender, ref_channel);
    let scan = scan_order(channels);
    let last = channels.last();
    law_exchange_sort_permutes(channels, hw_greater());
    lemma_occurs(channels, scan, idx);
    assert(scan[idx] == last);
    assert forall|k: int| 0 <= k < scan.len() && k != idx implies (
    #[trigger] scan[k]).sender is Some by {
        lemma_occurs(channels, scan, k);
        if scan[k].sender is None {
            assert(scan[k] == last);
            lemma_occurs_once(channels, last);
            lemma_occurs_twice(scan, k, idx);
        }
    }
}

/// An item that occurs at the end alone counts once.
proof fn lemma_occurs_once(s: Seq<AdcCtrlChannel>, x: AdcCtrlChannel)
    requires
        s.len() > 0,
        s.last() == x,
        forall|k: int| 0 <= k < s.len() - 1 ==> #[trigger] s[k] != x,
    ensures
        s.to_multiset().count(x) == 1,
{
    broadcast use vstd::seq_lib::group_to_multiset_ensures;

    let rest = s.drop_last();
    assert(s =~= rest.push(x));
    assert(!rest.contains(x));
    assert(rest.to_multiset().count(x) == 0);
}

/// An item that occurs at two places counts more than once.
proof fn lemma_occurs_twice(s: Seq<AdcCtrlChannel>, i: int, j: int)
    requires
        0 <= i < s.len(),
        0 <= j < s.len(),
        i != j,
        s[i] == s[j],
    ensures
        s.to_multiset().count(s[i]) > 1,
{
    broadcast use vstd::seq_lib::group_to_multiset_ensures;

    let rest = s.remove(i);
    assert(rest.contains(s[j])) by {
        if j < i {
            assert(rest[j] == s[j]);
        } else {
            assert(rest[j - 1] == s[j]);
        }
    }
    assert(rest.to_multiset().count(s[i]) > 0);
    assert(s.contains(s[i]));
    assert(s.to_multiset().count(s[i]) > 0);
}

/// A sum over readings between `low` and `high`.
#[verifier::spinoff_prover]
proof fn lemma_column_sum_bounds(
    measurements: Seq<u16>,
    channels: int,
    c: int,
    rows: int,
    low: int,
    high: int,
)
    requires
        0 <= rows,
        forall|row: int|
            0 <= row < rows ==> low <= #[trigger] reading(measurements, channels, c, row) <= high,
    ensures
        low * rows <= column_sum(measurements, channels, c, rows) <= high * rows,
    decreases rows,
{
    let sum = column_sum(measurements, channels, c, rows);
    if rows > 0 {
        let before = column_sum(measurements, channels, c, rows - 1);
        let last = reading(measurements, channels, c, rows - 1);
        lemma_column_sum_bounds(measurements, channels, c, rows - 1, low, high);
        assert(sum == before + last);
        assert(low <= last <= high);
        assert(low * rows == low * (rows - 1) + low) by (nonlinear_arith);
        assert(high * rows == high * (rows - 1) + high) by (nonlinear_arith);
    } else {
        assert(sum == 0);
        assert(low * rows == 0 && high * rows == 0) by (nonlinear_arith)
            requires
                rows == 0,
        ;
    }
}

/// The sum of a channel is the total of its readings in the scans.
proof fn lemma_column_sum_is_total(
    measurements: Seq<u16>,
    channels: int,
    c: int,
    rows: int,
    plus: spec_fn(int, int) -> int,
)
    requires
        0 <= rows,
        forall|a: int, b: int| #[trigger] plus(a, b) == a + b,
    ensures
        column_sum(measurements, channels, c, rows) == Seq::new(
            rows as nat,
            |row: int| measurements[row * channels + c] as int,
        ).fold_left(0, plus),
    decreases rows,
{
    let readings = Seq::new(rows as nat, |row: int| measurements[row * channels + c] as int);
    if rows > 0 {
        lemma_column_sum_is_total(measurements, channels, c, rows - 1, plus);
        assert(readings.drop_last() =~= Seq::new(
            (rows - 1) as nat,
            |row: int| measurements[row * channels + c] as int,
        ));
        assert(readings.last() == measurements[(rows - 1) * channels + c]);
    }
}

/// A measurement times the number of whole scans is at most the total of all readings of the
/// channel in them, and less than one for each scan below it.
pub proof fn law_measured_is_the_mean_of_all_scans(measurements: Seq<u16>, channels: int, c: int)
    requires
        0 <= c < channels,
        0 < measurements.len() as int / channels <= u32::MAX,
    ensures
        ({
            let scans = measurements.len() as int / channels;
            let total = Seq::new(
                scans as nat,
                |scan: int| measurements[scan * channels + c] as int,
            ).fold_left(0, |total: int, reading: int| total + reading);
            let value = measured(measurements, channels, c);
            &&& 0 <= value <= 65_535
            &&& value * scans <= total < (value + 1) * scans
        }),
        is_rounded_mean(
            measured(measurements, channels, c) as u16,
            channel_readings(measurements, channels, c),
        ),
{
    let rows = measurements.len() as int / channels;
    let sum = column_sum(measurements, channels, c, rows);
    let plus = |total: int, reading: int| total + reading;
    lemma_column_sum_is_total(measurements, channels, c, rows, plus);
    assert(channel_readings(measurements, channels, c) =~= Seq::new(
        rows as nat,
        |scan: int| measurements[scan * channels + c] as int,
    ));
    law_measured_is_a_mean(measurements, channels, c, 0, 0xFFFF);
    lemma_column_sum_bounds(measurements, channels, c, rows, 0, 0xFFFF);
    assert(0 <= sum / rows <= 0xFFFF) by (nonlinear_arith)
        requires
            0 <= sum <= 0xFFFF * rows,
            0 < rows,
    ;
    assert((sum / rows) * rows <= sum < (sum / rows + 1) * rows) by (nonlinear_arith)
        requires
            0 < rows,
    ;
}

/// Every reading of every whole scan counts alike: one that is higher by the number of scans
/// makes the measurement of its channel higher by one, and changes no other channel.
pub proof fn law_every_reading_counts(
    measurements: Seq<u16>,
    channels: int,
    c: int,
    row: int,
    raised: u16,
)
    requires
        0 <= c < channels,
        0 <= row < measurements.len() as int / channels <= u32::MAX,
        raised == measurements[row * channels + c] + measurements.len() as int / channels,
    ensures
        measured(measurements.update(row * channels + c, raised), channels, c) == measured(
            measurements,
            channels,
            c,
        ) + 1,
        forall|other: int|
            0 <= other < channels && other != c ==> #[trigger] measured(
                measurements.update(row * channels + c, raised),
                channels,
                other,
            ) == measured(measurements, channels, other),
{
    let rows = measurements.len() as int / channels;
    let more = measurements.update(row * channels + c, raised);
    let sum = column_sum(measurements, channels, c, rows);
    let len = measurements.len() as int;
    assert(0 <= row * channels && row * channels + channels <= len) by (nonlinear_arith)
        requires
            0 <= row < len / channels,
            0 < channels,
    ;
    assert(more.len() == measurements.len());
    lemma_updated_column_sum(measurements, channels, c, row, raised, c, rows);
    assert(column_sum(more, channels, c, rows) == sum + rows);
    lemma_column_sum_bounds(measurements, channels, c, rows, 0, 0xFFFF);
    lemma_column_sum_bounds(more, channels, c, rows, 0, 0xFFFF);
    assert((sum + rows) / rows == sum / rows + 1 && 0 <= sum / rows && (sum + rows) / rows
        <= 0xFFFF) by (nonlinear_arith)
        requires
            0 <= sum,
            sum + rows <= 0xFFFF * rows,
            0 < rows,
    ;
    assert forall|other: int| 0 <= other < channels && other != c implies #[trigger] measured(
        more,
        channels,
        other,
    ) == measured(measurements, channels, other) by {
        lemma_updated_column_sum(measurements, channels, c, row, raised, other, rows);
    }
}

/// What one changed reading does to the sum of a channel.
proof fn lemma_updated_column_sum(
    measurements: Seq<u16>,
    channels: int,
    c: int,
    row: int,
    value: u16,
    other: int,
    rows: int,
)
    requires
        0 <= c < channels,
        0 <= other < channels,
        0 <= row,
        row < measurements.len() as int / channels,
        0 <= rows <= measurements.len() as int / channels,
    ensures
        column_sum(
            measurements.update(row * channels + c, value),
            channels,
            other,
            rows,
        ) == column_sum(measurements, channels, other, rows) + (if other == c && row < rows {
            value - measurements[row * channels + c]
        } else {
            0
        }),
    decreases rows,
{
    if rows > 0 {
        let last = rows - 1;
        lemma_updated_column_sum(measurements, channels, c, row, value, other, last);
        let len = measurements.len() as int;
        assert(0 <= row * channels && row * channels + channels <= len) by (nonlinear_arith)
            requires
                0 <= row,
                0 < channels,
                row < len / channels,
        ;
        assert(0 <= last * channels && last * channels + channels <= len) by (nonlinear_arith)
            requires
                0 <= last < len / channels,
                0 < channels,
        ;
        assert(last * channels + other == row * channels + c ==> last == row && other == c)
            by (nonlinear_arith)
            requires
                0 <= other < channels,
                0 <= c < channels,
        ;
    }
}

/// The readings of a channel are those at its place in each whole scan.
pub proof fn law_channel_readings(measurements: Seq<u16>, channels: int, c: int)
    requires
        0 <= c < channels,
    ensures
        channel_readings(measurements, channels, c).len() == measurements.len() as int / channels,
        forall|row: int|
            0 <= row < measurements.len() as int / channels ==> #[trigger] channel_readings(
                measurements,
                channels,
                c,
            )[row] == measurements[row * channels + c],
{
    vstd::arithmetic::div_mod::lemma_div_pos_is_pos(measurements.len() as int, channels);
}

/// Readings can be averaged just if they hold a whole scan and no total of a channel goes
/// beyond 32 bits.
pub proof fn law_measurable_buffers(measurements: Seq<u16>, channels: int)
    requires
        0 < channels,
        measurements.len() as int / channels <= u32::MAX,
    ensures
        is_measurable(measurements, channels) <==> {
            &&& channels <= measurements.len()
            &&& forall|c: int|
                0 <= c < channels ==> (#[trigger] channel_readings(
                    measurements,
                    channels,
                    c,
                )).fold_left(0, |total: int, reading: int| total + reading) <= 0xFFFF_FFFF
        },
{
    let rows = measurements.len() as int / channels;
    let plus = |total: int, reading: int| total + reading;
    assert(0 <= rows && (rows > 0 <==> channels <= measurements.len())) by (nonlinear_arith)
        requires
            rows == measurements.len() as int / channels,
            0 < channels,
            0 <= measurements.len(),
    ;
    assert forall|c: int|
        #![trigger channel_readings(measurements, channels, c)]
        #![trigger column_sum(measurements, channels, c, rows)]
        0 <= c < channels implies column_sum(measurements, channels, c, rows) == channel_readings(
        measurements,
        channels,
        c,
    ).fold_left(0, plus) by {
        lemma_column_sum_is_total(measurements, channels, c, rows, plus);
    }
}

/// A measurement lies between the least and the greatest reading that went into it.
pub proof fn law_measured_is_a_mean(
    measurements: Seq<u16>,
    channels: int,
    c: int,
    low: u16,
    high: u16,
)
    requires
        0 <= c < channels,
        0 < measurements.len() as int / channels <= u32::MAX,
        forall|row: int|
            0 <= row < measurements.len() as int / channels ==> low <= #[trigger] reading(
                measurements,
                channels,
                c,
                row,
            ) <= high,
    ensures
        low <= measured(measurements, channels, c) <= high,
{
    let rows = measurements.len() as int / channels;
    let sum = column_sum(measurements, channels, c, rows);
    lemma_column_sum_bounds(measurements, channels, c, rows, low as int, high as int);
    assert(low <= sum / rows <= high) by (nonlinear_arith)
        requires
            low * rows <= sum <= high * rows,
            rows > 0,
    ;
}

/// Up to 65537 scans, whatever was read can be averaged.
pub proof fn law_short_buffers_are_measurable(measurements: Seq<u16>, channels: int)
    requires
        0 < channels,
        0 < measurements.len() as int / channels <= 65537,
    ensures
        is_measurable(measurements, channels),
{
    let rows = measurements.len() as int / channels;
    assert forall|c: int| 0 <= c < channels implies #[trigger] column_sum(
        measurements,
        channels,
        c,
        rows,
    ) <= u32::MAX by {
        lemma_column_sum_bounds(measurements, channels, c, rows, 0, 0xFFFF);
    }
}

} // verus!
