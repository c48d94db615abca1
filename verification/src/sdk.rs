//! Top-level SDK functionality, including getting devices, writing and
//! flushing color buffers, and subscribing to events.
//!
//! This module contains the `CueSdkClient`, which keeps the book on what this
//! process holds at the service (exclusive access, an event subscription) and
//! turns the answers of the service into results.
use crate::device::info::{CueDeviceInfoFromFfiErrorView, CueDeviceInfoView};
use crate::device::{
    spec_leds_for_device_index, CueDevice, CueDeviceFromDeviceInfoAndIndexError, CueDeviceInfo,
    CueDeviceInfoFromFfiError, CueDeviceView, DeviceCount, DeviceIndex, GetLedPositionsError,
};
use crate::errors::{get_last_error, CueSdkError, CueSdkErrorResult};
use crate::event::subscription::{
    spec_teardown, spec_unregistered, EventSubscription, SubscriptionState,
};
use crate::initialization::{
    perform_handshake, spec_perform_handshake, HandshakeError, HandshakeErrorView,
    ProtocolDetails,
};
use crate::initialization::protocol_details::ProtocolDetailsView;
use crate::led::LedId;
use crate::marshal::{
    all_or_errors, element_count, failures, lemma_take_next, spec_elements, successes,
};
use crate::native::{RawDeviceInfo, RawLedPositions, RawProtocolDetails, CLI_INVALID};
use vstd::prelude::*;

pub mod color_buffer;

pub use crate::event::subscription::{SubscribeForEventsError, UnsubscribeFromEventsError};
pub use color_buffer::{color_buffer_batches, ColorBufferBatch, UpdateLedsColorBufferError};

verus! {

/// The priority that every client of the service starts with.
pub const DEFAULT_SDK_CLIENT_PRIORITY: u8 = 128;

/// The LayerPriority for the `CueSdkClient`.
/// All clients to the SDK start at 128, and higher values = higher priority
/// (or rather authority).
pub type LayerPriority = u8;

/// The primary struct for interacting with top level iCUE SDK functionality.
///
/// The struct does the book-keeping around exclusive access and event
/// subscriptions, and says what has to be given back when it is dropped.
/// It also houses the `ProtocolDetails` for the current session, and the
/// current `LayerPriority`.
#[derive(Debug)]
pub struct CueSdkClient {
    has_exclusive_access: bool,
    subscription: Option<EventSubscription>,
    protocol_details: ProtocolDetails,
    priority: LayerPriority,
}

/// The error that can be returned from the `get_all_devices` method.
#[derive(Debug, Clone, PartialEq, Eq)]
pub enum GetAllDevicesError {
    /// The service did not give a device count; the value is what it named
    /// as the cause.
    GetDeviceCountError(Option<CueSdkError>),
    /// Some devices could not be read; one error for each.
    GetDeviceAtIndexErrors(Vec<GetDeviceAtIndexError>),
}

/// The error that can be returned from the `get_device_at` method.
#[derive(Debug, Clone, PartialEq, Eq)]
pub enum GetDeviceAtIndexError {
    /// The description of the device is unusable.
    DeviceInfoFromFfiError(CueDeviceInfoFromFfiError),
    /// The LEDs of the device could not be read.
    CueDeviceFromDeviceInfoAndIndexError(CueDeviceFromDeviceInfoAndIndexError),
}

/// The mathematical content of a [`GetDeviceAtIndexError`].
pub ghost enum GetDeviceAtIndexErrorView {
    DeviceInfoFromFfiError(CueDeviceInfoFromFfiErrorView),
    CueDeviceFromDeviceInfoAndIndexError(GetLedPositionsError),
}

impl DeepView for GetDeviceAtIndexError {
    type V = GetDeviceAtIndexErrorView;

    open spec fn deep_view(&self) -> GetDeviceAtIndexErrorView {
        match self {
            GetDeviceAtIndexError::DeviceInfoFromFfiError(error) => {
                GetDeviceAtIndexErrorView::DeviceInfoFromFfiError(error.deep_view())
            },
            GetDeviceAtIndexError::CueDeviceFromDeviceInfoAndIndexError(error) => {
                GetDeviceAtIndexErrorView::CueDeviceFromDeviceInfoAndIndexError(error.0)
            },
        }
    }
}

/// The mathematical content of a [`GetAllDevicesError`].
pub ghost enum GetAllDevicesErrorView {
    GetDeviceCountError(Option<CueSdkError>),
    GetDeviceAtIndexErrors(Seq<GetDeviceAtIndexErrorView>),
}

impl DeepView for GetAllDevicesError {
    type V = GetAllDevicesErrorView;

    open spec fn deep_view(&self) -> GetAllDevicesErrorView {
        match self {
            GetAllDevicesError::GetDeviceCountError(error) => {
                GetAllDevicesErrorView::GetDeviceCountError(*error)
            },
            GetAllDevicesError::GetDeviceAtIndexErrors(errors) => {
                GetAllDevicesErrorView::GetDeviceAtIndexErrors(errors.deep_view())
            },
        }
    }
}

/// The error that can be returned from the `request_exclusive_access_control`
/// method.
#[derive(Debug, Clone, Copy, PartialEq, Eq)]
pub enum RequestExclusiveAccessError {
    /// The service refused; the value is what it named as the cause.
    CueSdkError(Option<CueSdkError>),
    /// We already have exclusive access.
    AlreadyHaveExclusiveAccessError,
}

/// The error that can be returned from the `release_exclusive_access_control`
/// method.
#[derive(Debug, Clone, Copy, PartialEq, Eq)]
pub enum ReleaseExclusiveAccessError {
    /// The service refused; the value is what it named as the cause.
    CueSdkError(Option<CueSdkError>),
    /// We do not have exclusive access, so there is nothing to release.
    DoNotHaveExclusiveAccessError,
}

/// What the service answered when it was asked about the device at one
/// index: the description record and the LED positions record, each `None`
/// for a null pointer, and the service's last error code, read after the
/// request for the LED positions.
#[derive(Debug, Clone, PartialEq, Eq)]
pub struct DeviceProbe {
    pub device_info: Option<RawDeviceInfo>,
    pub led_positions: Option<RawLedPositions>,
    pub last_error: u32,
}

/// What the client has to give back at the end of its life.
#[derive(Debug, Clone, Copy, PartialEq, Eq)]
pub struct TeardownPlan {
    /// Exclusive access is held and has to be released.
    pub release_exclusive_access: bool,
    /// The event callback is registered and has to be unregistered.
    pub unsubscribe_from_events: bool,
}

/// A reference to what an optional value holds.
pub open spec fn spec_as_ref<T>(value: &Option<T>) -> Option<&T> {
    match value {
        Some(v) => Some(v),
        None => None,
    }
}

/// What the answers for the device at `index` amount to. The description is
/// judged first; the LEDs only count if the description is usable.
pub open spec fn spec_get_device_at(index: DeviceIndex, probe: DeviceProbe) -> Result<
    CueDeviceView,
    GetDeviceAtIndexErrorView,
> {
    match CueDeviceInfo::spec_from_ffi(spec_as_ref(&probe.device_info)) {
        Err(e) => Err(GetDeviceAtIndexErrorView::DeviceInfoFromFfiError(e)),
        Ok(info) => match spec_leds_for_device_index(
            index,
            spec_as_ref(&probe.led_positions),
            probe.last_error,
        ) {
            Err(e) => Err(GetDeviceAtIndexErrorView::CueDeviceFromDeviceInfoAndIndexError(e)),
            Ok(leds) => Ok(CueDeviceView { device_info: info, device_index: index, leds }),
        },
    }
}

/// The outcome for each index, in index order.
pub open spec fn spec_device_results(probes: Seq<DeviceProbe>) -> Seq<
    Result<CueDeviceView, GetDeviceAtIndexErrorView>,
> {
    Seq::new(probes.len(), |i: int| spec_get_device_at(i as u32, probes[i]))
}

/// What the answers to a full enumeration amount to: without a count there
/// are no devices to ask for; with one, the devices are converted
/// all-or-nothing.
pub open spec fn spec_get_all_devices(
    device_count_or_error: i32,
    last_error: u32,
    probes: Seq<DeviceProbe>,
) -> Result<Seq<CueDeviceView>, GetAllDevicesErrorView> {
    if device_count_or_error < 0 {
        Err(GetAllDevicesErrorView::GetDeviceCountError(CueSdkError::spec_from_u32(last_error)))
    } else if device_count_or_error == 0 {
        Ok(Seq::empty())
    } else {
        match all_or_errors(
            spec_device_results(spec_elements(device_count_or_error as int, probes)),
        ) {
            Ok(devices) => Ok(devices),
            Err(errors) => Err(GetAllDevicesErrorView::GetDeviceAtIndexErrors(errors)),
        }
    }
}

impl CueSdkClient {
    /// Whether this client holds exclusive access.
    pub closed spec fn spec_has_exclusive_access(&self) -> bool {
        self.has_exclusive_access
    }

    /// Where this client's event subscription is in its life.
    pub closed spec fn spec_subscription_state(&self) -> SubscriptionState {
        match self.subscription {
            Some(subscription) => subscription@,
            None => SubscriptionState::Unsubscribed,
        }
    }

    /// The protocol details of the handshake that made this client.
    pub closed spec fn spec_protocol_details(&self) -> ProtocolDetails {
        self.protocol_details
    }

    /// The layer priority of this client.
    pub closed spec fn spec_layer_priority(&self) -> LayerPriority {
        self.priority
    }

    /// Makes the client from the answer to the protocol handshake (see
    /// [`perform_handshake`]). A new client holds nothing at the service: no
    /// exclusive access and no subscription; its priority is the default.
    /// The service starts every client in the shared mode, so a client that
    /// began as if it held exclusive access could never request it and would
    /// release at its end what it never had.
    pub fn initialize(details: &RawProtocolDetails, last_error: u32) -> (res: Result<
        Self,
        HandshakeError,
    >)
        ensures
            match res {
                Ok(client) => spec_perform_handshake(*details, last_error) == Ok::<
                    ProtocolDetailsView,
                    HandshakeErrorView,
                >(client.spec_protocol_details().deep_view())
                    && !client.spec_has_exclusive_access() && client.spec_subscription_state()
                    == SubscriptionState::Unsubscribed && client.spec_layer_priority()
                    == DEFAULT_SDK_CLIENT_PRIORITY,
                Err(e) => spec_perform_handshake(*details, last_error) == Err::<
                    ProtocolDetailsView,
                    HandshakeErrorView,
                >(e.deep_view()),
            },
    {
        match perform_handshake(details, last_error) {
            Ok(pd) => Ok(
                CueSdkClient {
                    has_exclusive_access: false,
                    subscription: None,
                    protocol_details: pd,
                    priority: DEFAULT_SDK_CLIENT_PRIORITY,
                },
            ),
            Err(e) => Err(e),
        }
    }

    /// Get an immutable reference to the protocol details for the current
    /// iCUE SDK handshake.
    pub fn get_protocol_details(&self) -> (details: &ProtocolDetails)
        ensures
            *details == self.spec_protocol_details(),
    {
        &self.protocol_details
    }

    /// Get the current layer priority.
    pub fn get_layer_priority(&self) -> (priority: LayerPriority)
        ensures
            priority == self.spec_layer_priority(),
    {
        self.priority
    }

    /// Whether this client holds exclusive access.
    pub fn has_exclusive_access(&self) -> (held: bool)
        ensures
            held == self.spec_has_exclusive_access(),
    {
        self.has_exclusive_access
    }

    /// Where this client's event subscription is in its life.
    pub fn subscription_state(&self) -> (state: SubscriptionState)
        ensures
            state == self.spec_subscription_state(),
    {
        match &self.subscription {
            Some(subscription) => subscription.state(),
            None => SubscriptionState::Unsubscribed,
        }
    }

    /// Takes in the answer to the request for the number of connected
    /// devices: a negative number tells that the service failed, and
    /// `last_error`, its last error code, is then the cause.
    pub fn get_device_count(&self, device_count_or_error: i32, last_error: u32) -> (res: Result<
        DeviceCount,
        Option<CueSdkError>,
    >)
        ensures
            device_count_or_error < 0 ==> res == Err::<DeviceCount, Option<CueSdkError>>(
                CueSdkError::spec_from_u32(last_error),
            ),
            device_count_or_error >= 0 ==> res == Ok::<DeviceCount, Option<CueSdkError>>(
                device_count_or_error as u32,
            ),
    {
        if device_count_or_error < 0 {
            Err(get_last_error(last_error))
        } else {
            Ok(device_count_or_error as u32)
        }
    }

    /// Takes in what the service answered about the device at `index`.
    pub fn get_device_at(&self, index: u32, probe: &DeviceProbe) -> (res: Result<
        CueDevice,
        GetDeviceAtIndexError,
    >)
        ensures
            match res {
                Ok(device) => spec_get_device_at(index, *probe) == Ok::<
                    CueDeviceView,
                    GetDeviceAtIndexErrorView,
                >(device.deep_view()),
                Err(error) => spec_get_device_at(index, *probe) == Err::<
                    CueDeviceView,
                    GetDeviceAtIndexErrorView,
                >(error.deep_view()),
            },
    {
        let device_info = match CueDeviceInfo::from_ffi(probe.device_info.as_ref()) {
            Ok(info) => info,
            Err(e) => {
                return Err(GetDeviceAtIndexError::DeviceInfoFromFfiError(e));
            },
        };
        match CueDevice::from_device_info_and_index(
            index,
            device_info,
            probe.led_positions.as_ref(),
            probe.last_error,
        ) {
            Ok(device) => Ok(device),
            Err(e) => Err(GetDeviceAtIndexError::CueDeviceFromDeviceInfoAndIndexError(e)),
        }
    }

    /// Takes in what the service answered to a full enumeration:
    /// `device_count_or_error` and `last_error` as for
    /// [`get_device_count`](Self::get_device_count), and in `probes` the
    /// answers about each index below the count, in index order.
    ///
    /// If some devices come back invalid, this fails entirely, with the
    /// errors for each device that did not match some expected invariant.
    pub fn get_all_devices(
        &self,
        device_count_or_error: i32,
        last_error: u32,
        probes: &Vec<DeviceProbe>,
    ) -> (res: Result<Vec<CueDevice>, GetAllDevicesError>)
        ensures
            match res {
                Ok(devices) => spec_get_all_devices(device_count_or_error, last_error, probes@)
                    == Ok::<Seq<CueDeviceView>, GetAllDevicesErrorView>(devices.deep_view()),
                Err(error) => spec_get_all_devices(device_count_or_error, last_error, probes@)
                    == Err::<Seq<CueDeviceView>, GetAllDevicesErrorView>(error.deep_view()),
            },
            device_count_or_error == 0 ==> (res matches Ok(devices) && devices@.len() == 0),
    {
        let device_count = match self.get_device_count(device_count_or_error, last_error) {
            Ok(count) => count,
            Err(e) => {
                return Err(GetAllDevicesError::GetDeviceCountError(e));
            },
        };
        let mut devices: Vec<CueDevice> = Vec::new();
        if device_count == 0 {
            proof {
                assert(devices.deep_view() =~= Seq::<CueDeviceView>::empty());
            }
            return Ok(devices);
        }
        let mut errs: Vec<GetDeviceAtIndexError> = Vec::new();
        let n = element_count(device_count_or_error, probes.len());
        let ghost results = spec_device_results(
            spec_elements(device_count_or_error as int, probes@),
        );
        proof {
            assert(devices.deep_view() =~= successes(results.take(0)));
            assert(errs.deep_view() =~= failures(results.take(0)));
        }
        let mut index: usize = 0;
        while index < n
            invariant
                index <= n,
                n <= probes.len(),
                n <= i32::MAX,
                results == spec_device_results(probes@.take(n as int)),
                devices.deep_view() == successes(results.take(index as int)),
                errs.deep_view() == failures(results.take(index as int)),
            decreases n - index,
        {
            proof {
                lemma_take_next(results, index as int);
            }
            let ghost prev_devices = devices.deep_view();
            let ghost prev_errs = errs.deep_view();
            match self.get_device_at(index as u32, &probes[index]) {
                Ok(d) => {
                    devices.push(d);
                    proof {
                        assert(devices.deep_view() =~= prev_devices.push(d.deep_view()));
                    }
                },
                Err(e) => {
                    errs.push(e);
                    proof {
                        assert(errs.deep_view() =~= prev_errs.push(e.deep_view()));
                    }
                },
            }
            index += 1;
        }
        proof {
            assert(results.take(index as int) =~= results);
        }
        if errs.len() == 0 {
            Ok(devices)
        } else {
            Err(GetAllDevicesError::GetDeviceAtIndexErrors(errs))
        }
    }

    /// Asks for exclusive access control of the SDK. `Ok` tells the caller to
    /// make the request to the service now and to report back with
    /// [`exclusive_access_requested`](Self::exclusive_access_requested). If
    /// exclusive access is already held, the service is not to be asked.
    pub fn request_exclusive_access_control(&self) -> (res: Result<(), RequestExclusiveAccessError>)
        ensures
            self.spec_has_exclusive_access() ==> res == Err::<(), RequestExclusiveAccessError>(
                RequestExclusiveAccessError::AlreadyHaveExclusiveAccessError,
            ),
            !self.spec_has_exclusive_access() ==> res is Ok,
    {
        if self.has_exclusive_access {
            Err(RequestExclusiveAccessError::AlreadyHaveExclusiveAccessError)
        } else {
            Ok(())
        }
    }

    /// Takes in the answer to the request for exclusive access: access is
    /// held from now on exactly if the service granted it.
    pub fn exclusive_access_requested(&mut self, was_successful: bool, last_error: u32) -> (res:
        Result<(), RequestExclusiveAccessError>)
        ensures
            final(self).spec_subscription_state() == old(self).spec_subscription_state(),
            final(self).spec_protocol_details() == old(self).spec_protocol_details(),
            final(self).spec_layer_priority() == old(self).spec_layer_priority(),
            was_successful ==> res is Ok && final(self).spec_has_exclusive_access(),
            !was_successful ==> res == Err::<(), RequestExclusiveAccessError>(
                RequestExclusiveAccessError::CueSdkError(CueSdkError::spec_from_u32(last_error)),
            ) && final(self).spec_has_exclusive_access() == old(self).spec_has_exclusive_access(),
    {
        if was_successful {
            self.has_exclusive_access = true;
            Ok(())
        } else {
            Err(RequestExclusiveAccessError::CueSdkError(get_last_error(last_error)))
        }
    }

    /// Asks to release exclusive access control. `Ok` tells the caller to
    /// make the request to the service now and to report back with
    /// [`exclusive_access_released`](Self::exclusive_access_released). If no
    /// exclusive access is held, the service is not to be asked.
    pub fn release_exclusive_access_control(&self) -> (res: Result<(), ReleaseExclusiveAccessError>)
        ensures
            !self.spec_has_exclusive_access() ==> res == Err::<(), ReleaseExclusiveAccessError>(
                ReleaseExclusiveAccessError::DoNotHaveExclusiveAccessError,
            ),
            self.spec_has_exclusive_access() ==> res is Ok,
    {
        if !self.has_exclusive_access {
            Err(ReleaseExclusiveAccessError::DoNotHaveExclusiveAccessError)
        } else {
            Ok(())
        }
    }

    /// Takes in the answer to the release of exclusive access: access is no
    /// longer held exactly if the service let go of it. The book has to
    /// follow the release, or access that was given back could never be
    /// requested again and would be released a second time at the end.
    pub fn exclusive_access_released(&mut self, was_successful: bool, last_error: u32) -> (res:
        Result<(), ReleaseExclusiveAccessError>)
        ensures
            final(self).spec_subscription_state() == old(self).spec_subscription_state(),
            final(self).spec_protocol_details() == old(self).spec_protocol_details(),
            final(self).spec_layer_priority() == old(self).spec_layer_priority(),
            was_successful ==> res is Ok && !final(self).spec_has_exclusive_access(),
            !was_successful ==> res == Err::<(), ReleaseExclusiveAccessError>(
                ReleaseExclusiveAccessError::CueSdkError(CueSdkError::spec_from_u32(last_error)),
            ) && final(self).spec_has_exclusive_access() == old(self).spec_has_exclusive_access(),
    {
        if was_successful {
            self.has_exclusive_access = false;
            Ok(())
        } else {
            Err(ReleaseExclusiveAccessError::CueSdkError(get_last_error(last_error)))
        }
    }

    /// Takes in the answer to setting the layer priority of the client
    /// (higher value is a higher priority). The service answers `true` when
    /// it has accepted the priority, as for every other call of this
    /// interface; the priority of the client follows then, and only then, so
    /// that [`get_layer_priority`](Self::get_layer_priority) tells what the
    /// service applies.
    pub fn set_layer_priority(
        &mut self,
        priority: LayerPriority,
        was_successful: bool,
        last_error: u32,
    ) -> (res: CueSdkErrorResult)
        ensures
            final(self).spec_subscription_state() == old(self).spec_subscription_state(),
            final(self).spec_protocol_details() == old(self).spec_protocol_details(),
            final(self).spec_has_exclusive_access() == old(self).spec_has_exclusive_access(),
            was_successful ==> res is Ok && final(self).spec_layer_priority() == priority,
            !was_successful ==> res == Err::<(), Option<CueSdkError>>(
                CueSdkError::spec_from_u32(last_error),
            ) && final(self).spec_layer_priority() == old(self).spec_layer_priority(),
    {
        if was_successful {
            self.priority = priority;
            Ok(())
        } else {
            Err(get_last_error(last_error))
        }
    }

    /// Takes in the immediate answer to queueing a flush of the colour
    /// buffer: whether the service accepted the request. The result of the
    /// flush itself arrives later (see [`flush_completed`]).
    pub fn flush_led_colors_update_buffer(&self, immediate_result: bool, last_error: u32) -> (res:
        CueSdkErrorResult)
        ensures
            immediate_result ==> res is Ok,
            !immediate_result ==> res == Err::<(), Option<CueSdkError>>(
                CueSdkError::spec_from_u32(last_error),
            ),
    {
        if !immediate_result {
            Err(get_last_error(last_error))
        } else {
            Ok(())
        }
    }

    /// Takes in the answer to a flush of the colour buffer that the caller
    /// waited for.
    pub fn flush_led_colors_update_buffer_sync(
        &self,
        was_successful: bool,
        last_error: u32,
    ) -> (res: CueSdkErrorResult)
        ensures
            was_successful ==> res is Ok,
            !was_successful ==> res == Err::<(), Option<CueSdkError>>(
                CueSdkError::spec_from_u32(last_error),
            ),
    {
        if was_successful {
            Ok(())
        } else {
            Err(get_last_error(last_error))
        }
    }

    /// Asks to subscribe for the events of the service. `Ok` tells the caller
    /// to allocate the context and to register the callback now. While a
    /// subscription is active nothing more may be registered: the request
    /// fails and nothing changes.
    pub fn subscribe_for_events(&mut self) -> (res: Result<(), SubscribeForEventsError>)
        ensures
            final(self).spec_has_exclusive_access() == old(self).spec_has_exclusive_access(),
            final(self).spec_protocol_details() == old(self).spec_protocol_details(),
            final(self).spec_layer_priority() == old(self).spec_layer_priority(),
            old(self).spec_subscription_state() == SubscriptionState::Unsubscribed ==> res is Ok
                && final(self).spec_subscription_state() == SubscriptionState::Subscribed,
            old(self).spec_subscription_state() != SubscriptionState::Unsubscribed ==> res == Err::<
                (),
                SubscribeForEventsError,
            >(SubscribeForEventsError::AlreadyHaveAnActiveEventSubscriptionError)
                && final(self).spec_subscription_state() == old(self).spec_subscription_state(),
    {
        match self.subscription_state() {
            SubscriptionState::Unsubscribed => {
                self.subscription = Some(EventSubscription::new());
                Ok(())
            },
            _ => Err(SubscribeForEventsError::AlreadyHaveAnActiveEventSubscriptionError),
        }
    }

    /// Asks to subscribe for the events of the service on behalf of a
    /// consumer that awaits them. The rules are those of
    /// [`subscribe_for_events`](Self::subscribe_for_events); on `Ok` the
    /// caller also creates the queue that the callback fills.
    pub fn subscribe_for_events_async(&mut self) -> (res: Result<(), SubscribeForEventsError>)
        ensures
            final(self).spec_has_exclusive_access() == old(self).spec_has_exclusive_access(),
            final(self).spec_protocol_details() == old(self).spec_protocol_details(),
            final(self).spec_layer_priority() == old(self).spec_layer_priority(),
            old(self).spec_subscription_state() == SubscriptionState::Unsubscribed ==> res is Ok
                && final(self).spec_subscription_state() == SubscriptionState::Subscribed,
            old(self).spec_subscription_state() != SubscriptionState::Unsubscribed ==> res == Err::<
                (),
                SubscribeForEventsError,
            >(SubscribeForEventsError::AlreadyHaveAnActiveEventSubscriptionError)
                && final(self).spec_subscription_state() == old(self).spec_subscription_state(),
    {
        self.subscribe_for_events()
    }

    /// Takes in that the service refused the registration that a request to
    /// subscribe ordered: the caller releases the context, no subscription is
    /// active, and the failure to surface is returned.
    pub fn subscription_refused(&mut self, last_error: u32) -> (error: SubscribeForEventsError)
        ensures
            final(self).spec_has_exclusive_access() == old(self).spec_has_exclusive_access(),
            final(self).spec_protocol_details() == old(self).spec_protocol_details(),
            final(self).spec_layer_priority() == old(self).spec_layer_priority(),
            error == SubscribeForEventsError::CueSdkError(CueSdkError::spec_from_u32(last_error)),
            old(self).spec_subscription_state() == SubscriptionState::Subscribed
                ==> final(self).spec_subscription_state() == SubscriptionState::Unsubscribed,
            old(self).spec_subscription_state() != SubscriptionState::Subscribed
                ==> final(self).spec_subscription_state() == old(self).spec_subscription_state(),
    {
        match self.subscription.take() {
            Some(subscription) => {
                let mut subscription = subscription;
                let error = subscription.registration_failed(last_error);
                self.subscription = Some(subscription);
                error
            },
            None => SubscribeForEventsError::CueSdkError(get_last_error(last_error)),
        }
    }

    /// Asks to unsubscribe from all events. `Ok` tells the caller to
    /// unregister the callback now, to keep the context until that call has
    /// returned, and to report back with
    /// [`unsubscribed_from_events`](Self::unsubscribed_from_events). Without
    /// an active subscription the service is not to be asked.
    pub fn unsubscribe_from_events(&mut self) -> (res: Result<(), UnsubscribeFromEventsError>)
        ensures
            final(self).spec_has_exclusive_access() == old(self).spec_has_exclusive_access(),
            final(self).spec_protocol_details() == old(self).spec_protocol_details(),
            final(self).spec_layer_priority() == old(self).spec_layer_priority(),
            final(self).spec_subscription_state() == spec_teardown(
                old(self).spec_subscription_state(),
            ).0,
            old(self).spec_subscription_state() == SubscriptionState::Subscribed ==> res is Ok,
            old(self).spec_subscription_state() != SubscriptionState::Subscribed ==> res == Err::<
                (),
                UnsubscribeFromEventsError,
            >(UnsubscribeFromEventsError::NoActiveSubscriptionError),
    {
        match self.subscription.take() {
            Some(subscription) => {
                let mut subscription = subscription;
                let res = subscription.unsubscribe();
                self.subscription = Some(subscription);
                res
            },
            None => Err(UnsubscribeFromEventsError::NoActiveSubscriptionError),
        }
    }

    /// Takes in that the unregistering call has returned: the context may be
    /// released now, and no subscription is active any more, whatever the
    /// service reported.
    pub fn unsubscribed_from_events(&mut self, was_successful: bool, last_error: u32) -> (res:
        Result<(), UnsubscribeFromEventsError>)
        ensures
            final(self).spec_has_exclusive_access() == old(self).spec_has_exclusive_access(),
            final(self).spec_protocol_details() == old(self).spec_protocol_details(),
            final(self).spec_layer_priority() == old(self).spec_layer_priority(),
            final(self).spec_subscription_state() == spec_unregistered(
                old(self).spec_subscription_state(),
            ),
            was_successful ==> res is Ok,
            !was_successful ==> res == Err::<(), UnsubscribeFromEventsError>(
                UnsubscribeFromEventsError::CueSdkError(CueSdkError::spec_from_u32(last_error)),
            ),
    {
        match self.subscription.take() {
            Some(subscription) => {
                let mut subscription = subscription;
                let res = subscription.unregistered(was_successful, last_error);
                self.subscription = Some(subscription);
                res
            },
            None => if was_successful {
                Ok(())
            } else {
                Err(UnsubscribeFromEventsError::CueSdkError(get_last_error(last_error)))
            },
        }
    }

    /// Takes in the answer to the lookup of the LED for a key name: the
    /// service gives the identifier of no LED when it fails, and
    /// `last_error`, its last error code, is then the cause.
    pub fn get_led_for_key_name(led_id: u32, last_error: u32) -> (res: Result<
        LedId,
        Option<CueSdkError>,
    >)
        ensures
            led_id == CLI_INVALID ==> res == Err::<LedId, Option<CueSdkError>>(
                CueSdkError::spec_from_u32(last_error),
            ),
            led_id != CLI_INVALID ==> res == Ok::<LedId, Option<CueSdkError>>(LedId(led_id)),
    {
        if led_id == CLI_INVALID {
            Err(get_last_error(last_error))
        } else {
            Ok(LedId(led_id))
        }
    }

    /// What has to be given back when the client is dropped: exclusive access
    /// if it is held, and the event subscription if it is active. Each is
    /// then given back through the request for it, so twice dropping gives
    /// nothing back twice.
    pub fn teardown_plan(&self) -> (plan: TeardownPlan)
        ensures
            plan.release_exclusive_access == self.spec_has_exclusive_access(),
            plan.unsubscribe_from_events == (self.spec_subscription_state()
                == SubscriptionState::Subscribed),
    {
        TeardownPlan {
            release_exclusive_access: self.has_exclusive_access,
            unsubscribe_from_events: match &self.subscription {
                Some(subscription) => subscription.is_subscribed(),
                None => false,
            },
        }
    }
}

/// What the completion callback of a queued flush reports to whoever waits
/// for it: success, or the error that the code names.
pub fn flush_completed(was_successful: bool, err: u32) -> (res: CueSdkErrorResult)
    ensures
        was_successful ==> res is Ok,
        !was_successful ==> res == Err::<(), Option<CueSdkError>>(CueSdkError::spec_from_u32(err)),
{
    if was_successful {
        Ok(())
    } else {
        Err(CueSdkError::from_u32(err))
    }
}

} // verus!
