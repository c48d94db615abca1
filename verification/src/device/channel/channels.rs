use super::{Channel, ChannelFromFfiError, ChannelFromFfiErrorView, ChannelView};
use crate::marshal::{
    all_or_errors, classify_array, element_count, failures, lemma_take_next, spec_classify_array,
    spec_elements, successes, ArrayShape,
};
use crate::native::{RawChannelInfo, RawChannelsInfo};
use vstd::prelude::*;

verus! {

/// The various errors that can happen when reading all of the channels of a
/// device.
#[derive(Debug, Clone, PartialEq, Eq)]
pub enum ChannelsFromFfiError {
    /// The number of channels is negative.
    InvalidChannelsCount(i32),
    /// Channels were announced but the pointer to them is null.
    NullChannelsPointer,
    /// Some channels could not be converted; one error for each.
    ChannelFromFFIErrors(Vec<ChannelFromFfiError>),
}

/// The mathematical content of a [`ChannelsFromFfiError`].
pub ghost enum ChannelsFromFfiErrorView {
    InvalidChannelsCount(i32),
    NullChannelsPointer,
    ChannelFromFFIErrors(Seq<ChannelFromFfiErrorView>),
}

impl DeepView for ChannelsFromFfiError {
    type V = ChannelsFromFfiErrorView;

    open spec fn deep_view(&self) -> ChannelsFromFfiErrorView {
        match self {
            ChannelsFromFfiError::InvalidChannelsCount(count) => {
                ChannelsFromFfiErrorView::InvalidChannelsCount(*count)
            },
            ChannelsFromFfiError::NullChannelsPointer => {
                ChannelsFromFfiErrorView::NullChannelsPointer
            },
            ChannelsFromFfiError::ChannelFromFFIErrors(errors) => {
                ChannelsFromFfiErrorView::ChannelFromFFIErrors(errors.deep_view())
            },
        }
    }
}

/// The outcome of converting each channel, in element order.
pub open spec fn spec_channel_results(items: Seq<RawChannelInfo>) -> Seq<
    Result<ChannelView, ChannelFromFfiErrorView>,
> {
    items.map_values(|c: RawChannelInfo| Channel::spec_from_ffi(c))
}

/// What the channel array of a device converts to: judged by its shape, then
/// converted all-or-nothing. A failed channel keeps its own error, so the
/// place of a failure in the hierarchy is not lost.
pub open spec fn spec_channels_from_ffi(info: RawChannelsInfo) -> Result<
    Seq<ChannelView>,
    ChannelsFromFfiErrorView,
> {
    match spec_classify_array(info.channels_count, info.channels is None) {
        ArrayShape::Empty => Ok(Seq::empty()),
        ArrayShape::InvalidCount(count) => Err(
            ChannelsFromFfiErrorView::InvalidChannelsCount(count),
        ),
        ArrayShape::NullPointer => Err(ChannelsFromFfiErrorView::NullChannelsPointer),
        ArrayShape::Elements => match all_or_errors(
            spec_channel_results(spec_elements(info.channels_count as int, info.channels->0@)),
        ) {
            Ok(channels) => Ok(channels),
            Err(errors) => Err(ChannelsFromFfiErrorView::ChannelFromFFIErrors(errors)),
        },
    }
}

/// Converts the channel array of a device.
pub fn channels_from_ffi(info: &RawChannelsInfo) -> (res: Result<
    Vec<Channel>,
    ChannelsFromFfiError,
>)
    ensures
        match res {
            Ok(channels) => spec_channels_from_ffi(*info) == Ok::<
                Seq<ChannelView>,
                ChannelsFromFfiErrorView,
            >(channels.deep_view()),
            Err(error) => spec_channels_from_ffi(*info) == Err::<
                Seq<ChannelView>,
                ChannelsFromFfiErrorView,
            >(error.deep_view()),
        },
        info.channels_count < 0 ==> res == Err::<Vec<Channel>, ChannelsFromFfiError>(
            ChannelsFromFfiError::InvalidChannelsCount(info.channels_count),
        ),
        info.channels_count == 0 ==> (res matches Ok(channels) && channels@.len() == 0),
{
    match classify_array(info.channels_count, info.channels.is_none()) {
        ArrayShape::Empty => {
            let channels: Vec<Channel> = Vec::new();
            proof {
                assert(channels.deep_view() =~= Seq::<ChannelView>::empty());
            }
            Ok(channels)
        },
        ArrayShape::InvalidCount(count) => Err(ChannelsFromFfiError::InvalidChannelsCount(count)),
        ArrayShape::NullPointer => Err(ChannelsFromFfiError::NullChannelsPointer),
        ArrayShape::Elements => {
            let items = info.channels.as_ref().unwrap();
            let n = element_count(info.channels_count, items.len());
            let ghost results = spec_channel_results(
                spec_elements(info.channels_count as int, items@),
            );
            let mut errs: Vec<ChannelFromFfiError> = Vec::new();
            let mut channels_out: Vec<Channel> = Vec::new();
            let mut i: usize = 0;
            proof {
                assert(channels_out.deep_view() =~= successes(results.take(0)));
                assert(errs.deep_view() =~= failures(results.take(0)));
            }
            while i < n
                invariant
                    i <= n,
                    n <= items.len(),
                    results == spec_channel_results(items@.take(n as int)),
                    channels_out.deep_view() == successes(results.take(i as int)),
                    errs.deep_view() == failures(results.take(i as int)),
                decreases n - i,
            {
                proof {
                    lemma_take_next(results, i as int);
                }
                let ghost prev_out = channels_out.deep_view();
                let ghost prev_errs = errs.deep_view();
                match Channel::from_ffi(&items[i]) {
                    Ok(channel) => {
                        channels_out.push(channel);
                        proof {
                            assert(channels_out.deep_view() =~= prev_out.push(channel.deep_view()));
                        }
                    },
                    Err(e) => {
                        errs.push(e);
                        proof {
                            assert(errs.deep_view() =~= prev_errs.push(e.deep_view()));
                        }
                    },
                }
                i += 1;
            }
            proof {
                assert(results.take(i as int) =~= results);
            }
            if errs.len() == 0 {
                Ok(channels_out)
            } else {
                Err(ChannelsFromFfiError::ChannelFromFFIErrors(errs))
            }
        },
    }
}

} // verus!
