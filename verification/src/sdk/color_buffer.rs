//! Buffering colours: how a list of colour updates is cut into the batches
//! that the service takes, and what the answers to those batches change.
use super::CueSdkClient;
use crate::device::DeviceIndex;
use crate::errors::{get_last_error, CueSdkError};
use crate::led::{CueLed, LedColor};
use crate::marshal::{failures, lemma_take_next};
use crate::native::RawLedColor;
use std::collections::HashSet;
use vstd::prelude::*;

verus! {

/// The error that can be returned from the `update_leds_color_buffer` method:
/// for each device whose colours the service refused, what it named as the
/// cause.
#[derive(Debug, Clone, PartialEq, Eq)]
pub struct UpdateLedsColorBufferError(pub Vec<Option<CueSdkError>>);

/// The colours to hand to the service in one call: the updates for the LEDs
/// of one device. `members` are the places of those updates in the list that
/// the batch was cut from, ascending, and `colors` the native colours, in the
/// same order.
#[derive(Debug, Clone, PartialEq, Eq)]
pub struct ColorBufferBatch {
    pub device_index: DeviceIndex,
    pub members: Vec<usize>,
    pub colors: Vec<RawLedColor>,
}

/// The mathematical content of a [`ColorBufferBatch`].
pub ghost struct ColorBufferBatchView {
    pub device_index: DeviceIndex,
    pub members: Seq<usize>,
    pub colors: Seq<RawLedColor>,
}

impl DeepView for ColorBufferBatch {
    type V = ColorBufferBatchView;

    open spec fn deep_view(&self) -> ColorBufferBatchView {
        ColorBufferBatchView {
            device_index: self.device_index,
            members: self.members@,
            colors: self.colors@,
        }
    }
}

/// The devices that a list of updates touches, each once, in the order in
/// which they first occur.
pub open spec fn spec_batch_devices(updates: Seq<(LedColor, CueLed)>) -> Seq<DeviceIndex>
    decreases updates.len(),
{
    if updates.len() == 0 {
        Seq::empty()
    } else {
        let earlier = spec_batch_devices(updates.drop_last());
        let device = updates.last().1.device_index;
        if earlier.contains(device) {
            earlier
        } else {
            earlier.push(device)
        }
    }
}

/// The places of the updates for the LEDs of `device`, ascending.
pub open spec fn spec_batch_members(updates: Seq<(LedColor, CueLed)>, device: DeviceIndex) -> Seq<
    usize,
>
    decreases updates.len(),
{
    if updates.len() == 0 {
        Seq::empty()
    } else {
        let earlier = spec_batch_members(updates.drop_last(), device);
        if updates.last().1.device_index == device {
            earlier.push((updates.len() - 1) as usize)
        } else {
            earlier
        }
    }
}

/// The native colours of the updates for the LEDs of `device`, in the order
/// of the updates.
pub open spec fn spec_batch_colors(updates: Seq<(LedColor, CueLed)>, device: DeviceIndex) -> Seq<
    RawLedColor,
>
    decreases updates.len(),
{
    if updates.len() == 0 {
        Seq::empty()
    } else {
        let earlier = spec_batch_colors(updates.drop_last(), device);
        if updates.last().1.device_index == device {
            earlier.push(updates.last().0.spec_to_ffi(updates.last().1.id))
        } else {
            earlier
        }
    }
}

/// The batch for one device.
pub open spec fn spec_batch(
    updates: Seq<(LedColor, CueLed)>,
    device: DeviceIndex,
) -> ColorBufferBatchView {
    ColorBufferBatchView {
        device_index: device,
        members: spec_batch_members(updates, device),
        colors: spec_batch_colors(updates, device),
    }
}

/// The batches that a list of updates is cut into: one for each device that
/// the list touches.
pub open spec fn spec_color_buffer_batches(updates: Seq<(LedColor, CueLed)>) -> Seq<
    ColorBufferBatchView,
> {
    spec_batch_devices(updates).map_values(|device: DeviceIndex| spec_batch(updates, device))
}

/// The batches split the updates by device. The members of the batch for a
/// device are places of the list, ascending, and exactly the places of the
/// updates for that device; the colour at each place of a batch is the one
/// of the update that the member at the same place names. Every device that
/// the list touches has its batch, and no device has two.
pub proof fn lemma_batches_split_by_device(updates: Seq<(LedColor, CueLed)>, device: DeviceIndex)
    requires
        updates.len() <= usize::MAX,
    ensures
        spec_batch_colors(updates, device).len() == spec_batch_members(updates, device).len(),
        forall|k: int|
            0 <= k < spec_batch_members(updates, device).len() ==> {
                let m = #[trigger] spec_batch_members(updates, device)[k];
                &&& m < updates.len()
                &&& updates[m as int].1.device_index == device
                &&& spec_batch_colors(updates, device)[k] == updates[m as int].0.spec_to_ffi(
                    updates[m as int].1.id,
                )
            },
        forall|j: int, k: int|
            0 <= j < k < spec_batch_members(updates, device).len() ==> spec_batch_members(
                updates,
                device,
            )[j] < spec_batch_members(updates, device)[k],
        forall|i: int|
            0 <= i < updates.len() && updates[i].1.device_index == device ==> spec_batch_members(
                updates,
                device,
            ).contains(i as usize),
        forall|i: int|
            0 <= i < updates.len() ==> spec_batch_devices(updates).contains(
                #[trigger] updates[i].1.device_index,
            ),
        spec_batch_devices(updates).no_duplicates(),
    decreases updates.len(),
{
    if updates.len() > 0 {
        let init = updates.drop_last();
        lemma_batches_split_by_device(init, device);
        let members = spec_batch_members(updates, device);
        assert forall|k: int| 0 <= k < members.len() implies {
            let m = #[trigger] members[k];
            &&& m < updates.len()
            &&& updates[m as int].1.device_index == device
            &&& spec_batch_colors(updates, device)[k] == updates[m as int].0.spec_to_ffi(
                updates[m as int].1.id,
            )
        } by {
            if k < spec_batch_members(init, device).len() {
                let m = spec_batch_members(init, device)[k];
                assert(init[m as int] == updates[m as int]);
            }
        }
        assert forall|i: int|
            0 <= i < updates.len() && updates[i].1.device_index == device implies members.contains(
            i as usize,
        ) by {
            if i < init.len() {
                assert(init[i] == updates[i]);
                let k = choose|k: int|
                    0 <= k < spec_batch_members(init, device).len() && spec_batch_members(
                        init,
                        device,
                    )[k] == i as usize;
                assert(members[k] == i as usize);
            } else {
                assert(members[members.len() - 1] == i as usize);
            }
        }
        let devices = spec_batch_devices(updates);
        let earlier = spec_batch_devices(init);
        assert forall|i: int| 0 <= i < updates.len() implies devices.contains(
            #[trigger] updates[i].1.device_index,
        ) by {
            let d = updates[i].1.device_index;
            if i < init.len() {
                assert(init[i] == updates[i]);
                assert(earlier.contains(d));
                let k = choose|k: int| 0 <= k < earlier.len() && earlier[k] == d;
                assert(devices[k] == d);
            } else if earlier.contains(d) {
            } else {
                assert(devices[devices.len() - 1] == d);
            }
        }
    }
}

/// Cuts a list of colour updates into the batches that the service takes:
/// one call sets LEDs of one device, so the updates are grouped by the device
/// of their LED. A hash set tells which devices were met before; the batches
/// themselves are kept in a list, so that they come in the order in which
/// their devices first occur, whatever the order in which a hash table is
/// walked. Within a batch the updates keep their order.
pub fn color_buffer_batches(updates: &Vec<(LedColor, CueLed)>) -> (batches: Vec<ColorBufferBatch>)
    ensures
        batches.deep_view() == spec_color_buffer_batches(updates@),
{
    broadcast use vstd::std_specs::hash::group_hash_axioms;

    let mut devices: Vec<DeviceIndex> = Vec::new();
    let mut seen: HashSet<DeviceIndex> = HashSet::new();
    let mut i: usize = 0;
    while i < updates.len()
        invariant
            i <= updates.len(),
            devices@ == spec_batch_devices(updates@.take(i as int)),
            forall|d: DeviceIndex| seen@.contains(d) <==> devices@.contains(d),
        decreases updates.len() - i,
    {
        proof {
            assert(updates@.take(i + 1).drop_last() =~= updates@.take(i as int));
        }
        let device = updates[i].1.device_index;
        let ghost earlier = devices@;
        if seen.insert(device) {
            devices.push(device);
            proof {
                assert forall|d: DeviceIndex| seen@.contains(d) <==> devices@.contains(
                    d,
                ) by {
                    if earlier.contains(d) {
                        let k = choose|k: int| 0 <= k < earlier.len() && earlier[k] == d;
                        assert(devices@[k] == d);
                    }
                    if d == device {
                        assert(devices@[devices@.len() - 1] == d);
                    }
                }
            }
        }
        i += 1;
    }
    proof {
        assert(updates@.take(i as int) =~= updates@);
    }
    let mut batches: Vec<ColorBufferBatch> = Vec::new();
    let mut k: usize = 0;
    while k < devices.len()
        invariant
            k <= devices.len(),
            devices@ == spec_batch_devices(updates@),
            batches@.len() == k,
            forall|b: int|
                0 <= b < k ==> (#[trigger] batches@[b]).deep_view() == spec_batch(
                    updates@,
                    devices@[b],
                ),
        decreases devices.len() - k,
    {
        let device = devices[k];
        let mut members: Vec<usize> = Vec::new();
        let mut colors: Vec<RawLedColor> = Vec::new();
        let mut j: usize = 0;
        while j < updates.len()
            invariant
                j <= updates.len(),
                members@ == spec_batch_members(updates@.take(j as int), device),
                colors@ == spec_batch_colors(updates@.take(j as int), device),
            decreases updates.len() - j,
        {
            proof {
                assert(updates@.take(j + 1).drop_last() =~= updates@.take(j as int));
            }
            if updates[j].1.device_index == device {
                members.push(j);
                colors.push(updates[j].0.to_ffi(updates[j].1.id));
            }
            j += 1;
        }
        proof {
            assert(updates@.take(j as int) =~= updates@);
        }
        batches.push(ColorBufferBatch { device_index: device, members, colors });
        k += 1;
    }
    proof {
        assert(batches.deep_view() =~= spec_color_buffer_batches(updates@));
    }
    batches
}

/// Whether the update at place `i` was accepted by the service: whether one
/// of the first `n` batches has `i` among its members and was answered with
/// success.
pub open spec fn spec_buffered(
    batches: Seq<ColorBufferBatchView>,
    outcomes: Seq<(bool, u32)>,
    n: int,
    i: usize,
) -> bool
    decreases n,
{
    if n <= 0 {
        false
    } else {
        spec_buffered(batches, outcomes, n - 1, i) || (outcomes[n - 1].0 && batches[n
            - 1].members.contains(i))
    }
}

/// An update after the service accepted it: its LED remembers the colour as
/// the last one buffered.
pub open spec fn spec_accepted(update: (LedColor, CueLed)) -> (LedColor, CueLed) {
    (update.0, CueLed { last_buffed_color: Some(update.0), ..update.1 })
}

/// The answers for the batches as results: success, or the error that the
/// code names.
pub open spec fn spec_batch_results(outcomes: Seq<(bool, u32)>) -> Seq<
    Result<(), Option<CueSdkError>>,
> {
    outcomes.map_values(
        |o: (bool, u32)|
            if o.0 {
                Ok(())
            } else {
                Err(CueSdkError::spec_from_u32(o.1))
            },
    )
}

impl CueSdkClient {
    /// Takes in the answers to buffering a list of colour updates.
    ///
    /// `batches` are the batches that the updates were cut into (see
    /// [`color_buffer_batches`]) and `outcomes` the answers of the service,
    /// the answer at each place belonging to the batch at the same place:
    /// whether the call succeeded, and the service's last error code, which
    /// is only looked at when it failed. A batch without an answer was not
    /// sent. The LED of every update in an accepted batch remembers its
    /// colour as the last one buffered; nothing else changes. For every
    /// refused batch the error is reported, in the order of the batches.
    pub fn update_leds_color_buffer(
        &self,
        updates: &mut Vec<(LedColor, CueLed)>,
        batches: &Vec<ColorBufferBatch>,
        outcomes: &Vec<(bool, u32)>,
    ) -> (res: Result<(), UpdateLedsColorBufferError>)
        ensures
            final(updates)@.len() == old(updates)@.len(),
            forall|i: int|
                0 <= i < old(updates)@.len() ==> #[trigger] final(updates)@[i] == (if spec_buffered(
                    batches.deep_view(),
                    outcomes@,
                    spec_answered(batches@.len() as int, outcomes@.len() as int),
                    i as usize,
                ) {
                    spec_accepted(old(updates)@[i])
                } else {
                    old(updates)@[i]
                }),
            match res {
                Ok(()) => failures(
                    spec_batch_results(
                        outcomes@.take(spec_answered(batches@.len() as int, outcomes@.len() as int)),
                    ),
                ).len() == 0,
                Err(error) => error.0@.len() > 0 && error.0@ == failures(
                    spec_batch_results(
                        outcomes@.take(spec_answered(batches@.len() as int, outcomes@.len() as int)),
                    ),
                ),
            },
    {
        let n = if batches.len() <= outcomes.len() {
            batches.len()
        } else {
            outcomes.len()
        };
        let ghost results = spec_batch_results(outcomes@.take(n as int));
        let ghost bviews = batches.deep_view();
        let mut errs: Vec<Option<CueSdkError>> = Vec::new();
        let mut k: usize = 0;
        while k < n
            invariant
                k <= n,
                n == spec_answered(batches@.len() as int, outcomes@.len() as int),
                results == spec_batch_results(outcomes@.take(n as int)),
                bviews == batches.deep_view(),
                updates@.len() == old(updates)@.len(),
                forall|i: int|
                    0 <= i < updates@.len() ==> #[trigger] updates@[i] == (if spec_buffered(
                        bviews,
                        outcomes@,
                        k as int,
                        i as usize,
                    ) {
                        spec_accepted(old(updates)@[i])
                    } else {
                        old(updates)@[i]
                    }),
                errs@ == failures(results.take(k as int)),
            decreases n - k,
        {
            proof {
                lemma_take_next(results, k as int);
                assert(bviews[k as int] == batches@[k as int].deep_view());
            }
            let (was_successful, last_error) = outcomes[k];
            if was_successful {
                let members = &batches[k].members;
                let mut t: usize = 0;
                while t < members.len()
                    invariant
                        t <= members.len(),
                        k < n,
                        n == spec_answered(batches@.len() as int, outcomes@.len() as int),
                        members@ == bviews[k as int].members,
                        outcomes@[k as int].0,
                        updates@.len() == old(updates)@.len(),
                        forall|i: int|
                            0 <= i < updates@.len() ==> #[trigger] updates@[i] == (if spec_buffered(
                                bviews,
                                outcomes@,
                                k as int,
                                i as usize,
                            ) || members@.take(t as int).contains(i as usize) {
                                spec_accepted(old(updates)@[i])
                            } else {
                                old(updates)@[i]
                            }),
                    decreases members.len() - t,
                {
                    let m = members[t];
                    proof {
                        assert(members@.take(t + 1) =~= members@.take(t as int).push(m));
                        assert forall|i: usize|
                            members@.take(t + 1).contains(i) <==> (members@.take(t as int).contains(
                                i,
                            ) || i == m) by {
                            if members@.take(t as int).contains(i) {
                                let x = choose|x: int|
                                    0 <= x < t && members@.take(t as int)[x] == i;
                                assert(members@.take(t + 1)[x] == i);
                            }
                            if i == m {
                                assert(members@.take(t + 1)[t as int] == i);
                            }
                        }
                    }
                    if m < updates.len() {
                        let (color, mut led) = updates[m];
                        led.last_buffed_color = Some(color);
                        updates.set(m, (color, led));
                    }
                    t += 1;
                }
                proof {
                    assert(members@.take(t as int) =~= members@);
                }
            } else {
                errs.push(get_last_error(last_error));
            }
            k += 1;
        }
        proof {
            assert(results.take(k as int) =~= results);
        }
        if errs.len() == 0 {
            Ok(())
        } else {
            Err(UpdateLedsColorBufferError(errs))
        }
    }
}

/// The number of batches that have an answer.
pub open spec fn spec_answered(batches: int, outcomes: int) -> int {
    if batches <= outcomes {
        batches
    } else {
        outcomes
    }
}

} // verus!
