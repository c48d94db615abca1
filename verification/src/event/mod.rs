//! Contains the event types, and event errors that can be returned from the
//! iCUE SDK.
pub mod subscription;

pub use subscription::{EventSubscription, Subscription, SubscriptionState};

use crate::device::{DeviceId, DeviceIdFromFfiError};
use crate::key::KeyId;
use crate::native::{RawEvent, CEI_DEVICE_CONNECTION_STATUS_CHANGED_EVENT, CEI_KEY_EVENT};
use vstd::prelude::*;

verus! {

/// The two-variant event that can come back from the iCUE SDK.
///
/// The first is a notification of device status connection changes, with the
/// device id and whether it is now connected or not.
///
/// The second is a notification of a key event (pressed or released), for the
/// keys that are valid `KeyId`s.
#[derive(Debug, Clone, PartialEq, Eq)]
pub enum CueEvent {
    DeviceConnectedStatusChangedEvent(DeviceId, bool),
    KeyEvent(DeviceId, KeyId, bool),
}

/// The mathematical content of a [`CueEvent`].
pub ghost enum CueEventView {
    DeviceConnectedStatusChangedEvent(Seq<char>, bool),
    KeyEvent(Seq<char>, KeyId, bool),
}

impl DeepView for CueEvent {
    type V = CueEventView;

    open spec fn deep_view(&self) -> CueEventView {
        match self {
            CueEvent::DeviceConnectedStatusChangedEvent(id, connected) => {
                CueEventView::DeviceConnectedStatusChangedEvent(id@, *connected)
            },
            CueEvent::KeyEvent(id, key, pressed) => CueEventView::KeyEvent(id@, *key, *pressed),
        }
    }
}

/// The arms of the payload union of a native event.
#[derive(Debug, Clone, Copy, PartialEq, Eq)]
pub enum EventPayloadArm {
    DeviceConnectionStatusChangedEvent,
    KeyEvent,
}

/// All of the various reasons why creating a CueEvent from the native
/// interface can fail.
#[derive(Debug, Clone, PartialEq, Eq)]
pub enum CueEventFromFfiError {
    /// The device id is not valid UTF-8.
    DeviceIdError(DeviceIdFromFfiError),
    /// The discriminant names no kind of event; the value is the discriminant.
    UnknownEventType(u32),
    /// The key id names no key; the value is the key id.
    UnknownKeyId(u32),
    /// The event is a device connection event but its payload is null.
    NullPointerDeviceConnectStatusChangedEvent,
    /// The event is a key event but its payload is null.
    NullPointerKeyEvent,
}

/// The mathematical content of a [`CueEventFromFfiError`]. The decoder's
/// error value is not part of it.
pub ghost enum CueEventFromFfiErrorView {
    DeviceIdError,
    UnknownEventType(u32),
    UnknownKeyId(u32),
    NullPointerDeviceConnectStatusChangedEvent,
    NullPointerKeyEvent,
}

impl DeepView for CueEventFromFfiError {
    type V = CueEventFromFfiErrorView;

    open spec fn deep_view(&self) -> CueEventFromFfiErrorView {
        match self {
            CueEventFromFfiError::DeviceIdError(_) => CueEventFromFfiErrorView::DeviceIdError,
            CueEventFromFfiError::UnknownEventType(id) => {
                CueEventFromFfiErrorView::UnknownEventType(*id)
            },
            CueEventFromFfiError::UnknownKeyId(id) => CueEventFromFfiErrorView::UnknownKeyId(*id),
            CueEventFromFfiError::NullPointerDeviceConnectStatusChangedEvent => {
                CueEventFromFfiErrorView::NullPointerDeviceConnectStatusChangedEvent
            },
            CueEventFromFfiError::NullPointerKeyEvent => {
                CueEventFromFfiErrorView::NullPointerKeyEvent
            },
        }
    }
}

impl CueEvent {
    /// What a native event converts to. The discriminant decides which arm of
    /// the payload union counts; the other arm has no influence. A
    /// discriminant that names no kind of event is an error of its own,
    /// distinct from a known kind whose payload is null.
    pub open spec fn spec_from_ffi(event: RawEvent) -> Result<
        CueEventView,
        CueEventFromFfiErrorView,
    > {
        if event.id == CEI_DEVICE_CONNECTION_STATUS_CHANGED_EVENT {
            match event.event_union.device_connection_status_changed_event {
                None => Err(CueEventFromFfiErrorView::NullPointerDeviceConnectStatusChangedEvent),
                Some(payload) => match DeviceId::spec_from_ffi(payload.device_id) {
                    None => Err(CueEventFromFfiErrorView::DeviceIdError),
                    Some(id) => Ok(
                        CueEventView::DeviceConnectedStatusChangedEvent(id, payload.is_connected),
                    ),
                },
            }
        } else if event.id == CEI_KEY_EVENT {
            match event.event_union.key_event {
                None => Err(CueEventFromFfiErrorView::NullPointerKeyEvent),
                Some(payload) => match DeviceId::spec_from_ffi(payload.device_id) {
                    None => Err(CueEventFromFfiErrorView::DeviceIdError),
                    Some(id) => match KeyId::spec_from_u32(payload.key_id) {
                        Some(key) => Ok(CueEventView::KeyEvent(id, key, payload.is_pressed)),
                        None => Err(CueEventFromFfiErrorView::UnknownKeyId(payload.key_id)),
                    },
                },
            }
        } else {
            Err(CueEventFromFfiErrorView::UnknownEventType(event.id))
        }
    }

    /// Which arm of the payload union an event with the given discriminant
    /// carries; `None` if the discriminant names no kind of event, and the
    /// union must then not be read.
    pub fn payload_arm(id: u32) -> (arm: Option<EventPayloadArm>)
        ensures
            arm == (if id == CEI_DEVICE_CONNECTION_STATUS_CHANGED_EVENT {
                Some(EventPayloadArm::DeviceConnectionStatusChangedEvent)
            } else if id == CEI_KEY_EVENT {
                Some(EventPayloadArm::KeyEvent)
            } else {
                None
            }),
    {
        if id == CEI_DEVICE_CONNECTION_STATUS_CHANGED_EVENT {
            Some(EventPayloadArm::DeviceConnectionStatusChangedEvent)
        } else if id == CEI_KEY_EVENT {
            Some(EventPayloadArm::KeyEvent)
        } else {
            None
        }
    }

    /// Converts a native event: the discriminant is read first, and only the
    /// arm of the union that it names is looked at.
    pub fn from_ffi(event: &RawEvent) -> (res: Result<CueEvent, CueEventFromFfiError>)
        ensures
            match res {
                Ok(e) => Self::spec_from_ffi(*event) == Ok::<CueEventView, CueEventFromFfiErrorView>(
                    e.deep_view(),
                ),
                Err(e) => Self::spec_from_ffi(*event) == Err::<
                    CueEventView,
                    CueEventFromFfiErrorView,
                >(e.deep_view()),
            },
            event.id != CEI_DEVICE_CONNECTION_STATUS_CHANGED_EVENT && event.id != CEI_KEY_EVENT
                ==> res == Err::<CueEvent, CueEventFromFfiError>(
                CueEventFromFfiError::UnknownEventType(event.id),
            ),
    {
        if event.id == CEI_DEVICE_CONNECTION_STATUS_CHANGED_EVENT {
            let payload = match &event.event_union.device_connection_status_changed_event {
                None => {
                    return Err(CueEventFromFfiError::NullPointerDeviceConnectStatusChangedEvent);
                },
                Some(payload) => payload,
            };
            match DeviceId::from_ffi(&payload.device_id) {
                Err(e) => Err(CueEventFromFfiError::DeviceIdError(e)),
                Ok(device_id) => Ok(
                    CueEvent::DeviceConnectedStatusChangedEvent(device_id, payload.is_connected),
                ),
            }
        } else if event.id == CEI_KEY_EVENT {
            let payload = match &event.event_union.key_event {
                None => {
                    return Err(CueEventFromFfiError::NullPointerKeyEvent);
                },
                Some(payload) => payload,
            };
            let device_id = match DeviceId::from_ffi(&payload.device_id) {
                Err(e) => {
                    return Err(CueEventFromFfiError::DeviceIdError(e));
                },
                Ok(device_id) => device_id,
            };
            match KeyId::from_u32(payload.key_id) {
                Some(k) => Ok(CueEvent::KeyEvent(device_id, k, payload.is_pressed)),
                None => Err(CueEventFromFfiError::UnknownKeyId(payload.key_id)),
            }
        } else {
            Err(CueEventFromFfiError::UnknownEventType(event.id))
        }
    }
}

} // verus!
