//! The channels of a scan, in a list without allocation.
use core::cmp::Ordering;
use vstd::prelude::*;

use super::channel::AdcCtrlChannel;
use super::util::Sortable;

verus! {

/// The longest scan that the ADC takes.
pub const MAX_SCAN_LEN: usize = 16;

/// `heapless::Vec`, a vector of a fixed capacity.
#[verifier::external_type_specification]
#[verifier::external_body]
#[verifier::reject_recursive_types(Item)]
pub struct ExHeaplessVec<Item, const CAP: usize>(heapless::Vec<Item, CAP>);

/// The channels that a list holds, first to last.
pub uninterp spec fn listed(list: heapless::Vec<AdcCtrlChannel, MAX_SCAN_LEN>) -> Seq<AdcCtrlChannel>;

/// `heapless::Vec::new` makes an empty list.
#[verifier::external_body]
pub(crate) fn new_list() -> (list: heapless::Vec<AdcCtrlChannel, MAX_SCAN_LEN>)
    ensures
        listed(list) == Seq::<AdcCtrlChannel>::empty(),
{
    heapless::Vec::new()
}

/// `heapless::Vec::push` appends an item, or hands it back where the list is full.
#[verifier::external_body]
pub(crate) fn push(
    list: &mut heapless::Vec<AdcCtrlChannel, MAX_SCAN_LEN>,
    item: AdcCtrlChannel,
) -> (pushed: Result<(), AdcCtrlChannel>)
    ensures
        pushed is Ok <==> listed(*old(list)).len() < MAX_SCAN_LEN,
        pushed is Ok ==> listed(*final(list)) == listed(*old(list)).push(item),
        pushed is Err ==> pushed->Err_0 == item && listed(*final(list)) == listed(*old(list)),
{
    list.push(item)
}

/// `heapless::Vec::as_mut_slice` gives the items as a slice that writes through to
/// the list.
#[verifier::external_body]
pub(crate) fn as_mut_slice(list: &mut heapless::Vec<AdcCtrlChannel, MAX_SCAN_LEN>) -> (slice:
    &mut [AdcCtrlChannel])
    ensures
        slice@ == listed(*old(list)),
        listed(*final(list)) == final(slice)@,
{
    list.as_mut_slice()
}

/// `heapless::Vec::into_array` gives the items as an array where their number is that
/// of the array, and the list back otherwise.
#[verifier::external_body]
pub(crate) fn into_array<const LEN: usize>(
    list: heapless::Vec<AdcCtrlChannel, MAX_SCAN_LEN>,
) -> (array: Result<[AdcCtrlChannel; LEN], heapless::Vec<AdcCtrlChannel, MAX_SCAN_LEN>>)
    ensures
        array is Ok <==> listed(list).len() == LEN,
        array is Ok ==> array->Ok_0@ == listed(list),
        array is Err ==> listed(array->Err_0) == listed(list),
{
    list.into_array()
}

impl Sortable<AdcCtrlChannel> for heapless::Vec<AdcCtrlChannel, MAX_SCAN_LEN> {
    open spec fn items(&self) -> Seq<AdcCtrlChannel> {
        listed(*self)
    }

    fn sort_by<F: FnMut(&AdcCtrlChannel, &AdcCtrlChannel) -> Ordering>(&mut self, order: F) {
        Sortable::sort_by(as_mut_slice(self), order)
    }
}

/// The first channel has the higher hardware channel.
pub open spec fn hw_greater() -> spec_fn(AdcCtrlChannel, AdcCtrlChannel) -> bool {
    |x: AdcCtrlChannel, y: AdcCtrlChannel| x.channel.hw_channel > y.channel.hw_channel
}

/// Brings the channels into the order in which the hardware scans them.
pub(crate) fn sort_by_hw_channel(list: &mut heapless::Vec<AdcCtrlChannel, MAX_SCAN_LEN>)
    ensures
        listed(*final(list)) == super::util::exchange_sorted(listed(*old(list)), hw_greater()),
{
    let order = |c1: &AdcCtrlChannel, c2: &AdcCtrlChannel| -> (r: Ordering)
        ensures
            r == Ordering::Greater <==> c1.channel.hw_channel > c2.channel.hw_channel,
        { c1.channel.hw_channel.cmp(&c2.channel.hw_channel) };
    assert(super::util::agrees(order, hw_greater()));
    list.sort_by(order);
}

} // verus!
