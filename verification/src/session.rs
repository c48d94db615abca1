//! Sessions: the connection to the service and what is read through it.
pub mod device;
pub mod keyboard;
pub mod led;
pub mod property;

pub use device::{DeviceId, DeviceInfo, DeviceInfoFromFfiError, DeviceType};
pub use led::{LedColor, LedPosition};
pub use property::{
    DataType, PropertyFlags, PropertyId, PropertyInfo, PropertyValue, PropertyValueFromFfiError,
};

use crate::callback::{SessionSlot, SessionStateChange};
use crate::error::{check, spec_check, SdkError};
use crate::marshal::{
    all_or_errors, element_count, failures, lemma_take_next, spec_elements, successes,
};
use crate::native::{
    RawSessionDetails, RawSessionDeviceInfo, RawSessionLedPosition,
    RawProperty, RawVersion, CE_SUCCESS, CSS_CLOSED, CSS_CONNECTED, CSS_CONNECTING,
    CSS_CONNECTION_LOST, CSS_CONNECTION_REFUSED, CSS_INVALID, CSS_TIMEOUT,
};
use device::DeviceInfoView;
use property::{PropertyValueFromFfiErrorView, PropertyValueView};
use vstd::prelude::*;

verus! {

/// A semantic version triple as reported by the SDK.
#[derive(Debug, Clone, Copy, PartialEq, Eq)]
pub struct Version {
    pub major: i32,
    pub minor: i32,
    pub patch: i32,
}

impl Version {
    /// Convert from the native record.
    pub fn from_ffi(v: &RawVersion) -> (version: Self)
        ensures
            version == Self::spec_from_ffi(*v),
    {
        Self { major: v.major, minor: v.minor, patch: v.patch }
    }

    /// What a native version converts to.
    pub open spec fn spec_from_ffi(v: RawVersion) -> Version {
        Version { major: v.major, minor: v.minor, patch: v.patch }
    }
}

/// Version information about the client, server, and host.
#[derive(Debug, Clone, Copy, PartialEq, Eq)]
pub struct SessionDetails {
    pub client_version: Version,
    pub server_version: Version,
    pub server_host_version: Version,
}

impl SessionDetails {
    /// Convert from the native record.
    pub fn from_ffi(d: &RawSessionDetails) -> (details: Self)
        ensures
            details == Self::spec_from_ffi(*d),
    {
        Self {
            client_version: Version::from_ffi(&d.client_version),
            server_version: Version::from_ffi(&d.server_version),
            server_host_version: Version::from_ffi(&d.server_host_version),
        }
    }

    /// What native session details convert to.
    pub open spec fn spec_from_ffi(d: RawSessionDetails) -> SessionDetails {
        SessionDetails {
            client_version: Version::spec_from_ffi(d.client_version),
            server_version: Version::spec_from_ffi(d.server_version),
            server_host_version: Version::spec_from_ffi(d.server_host_version),
        }
    }
}

/// The current state of the SDK session.
#[derive(Debug, Clone, Copy, PartialEq, Eq)]
pub enum SessionState {
    Invalid,
    Closed,
    Connecting,
    Timeout,
    ConnectionRefused,
    ConnectionLost,
    Connected,
    /// A code that is not known here; the value is the code.
    Unknown(u32),
}

impl SessionState {
    /// The state that a native code names; a code that names none is kept.
    pub open spec fn spec_from_ffi(raw: u32) -> SessionState {
        if raw == CSS_INVALID {
            SessionState::Invalid
        } else if raw == CSS_CLOSED {
            SessionState::Closed
        } else if raw == CSS_CONNECTING {
            SessionState::Connecting
        } else if raw == CSS_TIMEOUT {
            SessionState::Timeout
        } else if raw == CSS_CONNECTION_REFUSED {
            SessionState::ConnectionRefused
        } else if raw == CSS_CONNECTION_LOST {
            SessionState::ConnectionLost
        } else if raw == CSS_CONNECTED {
            SessionState::Connected
        } else {
            SessionState::Unknown(raw)
        }
    }

    /// Reads a native state code.
    pub fn from_ffi(raw: u32) -> (state: Self)
        ensures
            state == Self::spec_from_ffi(raw),
    {
        match raw {
            0 => Self::Invalid,
            1 => Self::Closed,
            2 => Self::Connecting,
            3 => Self::Timeout,
            4 => Self::ConnectionRefused,
            5 => Self::ConnectionLost,
            6 => Self::Connected,
            other => Self::Unknown(other),
        }
    }
}

/// SDK access level for a device.
#[derive(Debug, Clone, Copy, PartialEq, Eq)]
pub enum AccessLevel {
    Shared,
    ExclusiveLightingControl,
    ExclusiveKeyEventsListening,
    ExclusiveLightingControlAndKeyEventsListening,
}

impl AccessLevel {
    /// The native code of this access level.
    pub fn to_ffi(self) -> (code: u32)
        ensures
            code == (match self {
                AccessLevel::Shared => 0u32,
                AccessLevel::ExclusiveLightingControl => 1u32,
                AccessLevel::ExclusiveKeyEventsListening => 2u32,
                AccessLevel::ExclusiveLightingControlAndKeyEventsListening => 3u32,
            }),
    {
        match self {
            AccessLevel::Shared => 0,
            AccessLevel::ExclusiveLightingControl => 1,
            AccessLevel::ExclusiveKeyEventsListening => 2,
            AccessLevel::ExclusiveLightingControlAndKeyEventsListening => 3,
        }
    }
}

/// Why an array that the service filled in could not be read.
#[derive(Debug, Clone, PartialEq, Eq)]
pub enum ReadArrayError {
    /// The call itself failed.
    Sdk(SdkError),
    /// The call succeeded but reported a negative number of elements; the
    /// value is that number.
    InvalidCount(i32),
    /// Some elements are unusable; one error for each, in element order.
    ElementErrors(Vec<DeviceInfoFromFfiError>),
}

/// The mathematical content of a [`ReadArrayError`].
pub ghost enum ReadArrayErrorView {
    Sdk(SdkError),
    InvalidCount(i32),
    ElementErrors(Seq<DeviceInfoFromFfiError>),
}

impl DeepView for ReadArrayError {
    type V = ReadArrayErrorView;

    open spec fn deep_view(&self) -> ReadArrayErrorView {
        match self {
            ReadArrayError::Sdk(e) => ReadArrayErrorView::Sdk(*e),
            ReadArrayError::InvalidCount(count) => ReadArrayErrorView::InvalidCount(*count),
            ReadArrayError::ElementErrors(errors) => ReadArrayErrorView::ElementErrors(errors@),
        }
    }
}

/// Why the description of one device could not be read.
#[derive(Debug, Clone, Copy, PartialEq, Eq)]
pub enum GetDeviceInfoError {
    /// The call itself failed.
    Sdk(SdkError),
    /// The call succeeded but the record is unusable.
    Invalid(DeviceInfoFromFfiError),
}

/// Why a property could not be read.
#[derive(Debug, Clone, PartialEq, Eq)]
pub enum ReadPropertyError {
    /// The call itself failed.
    Sdk(SdkError),
    /// The call succeeded but the property has no value.
    Value(PropertyValueFromFfiError),
}

/// The mathematical content of a [`ReadPropertyError`].
pub ghost enum ReadPropertyErrorView {
    Sdk(SdkError),
    Value(PropertyValueFromFfiErrorView),
}

impl DeepView for ReadPropertyError {
    type V = ReadPropertyErrorView;

    open spec fn deep_view(&self) -> ReadPropertyErrorView {
        match self {
            ReadPropertyError::Sdk(e) => ReadPropertyErrorView::Sdk(*e),
            ReadPropertyError::Value(e) => ReadPropertyErrorView::Value(e.deep_view()),
        }
    }
}

/// The outcome of converting each device record, in element order.
pub open spec fn spec_device_info_results(items: Seq<RawSessionDeviceInfo>) -> Seq<
    Result<DeviceInfoView, DeviceInfoFromFfiError>,
> {
    items.map_values(|d: RawSessionDeviceInfo| DeviceInfo::spec_from_ffi(d))
}

/// What the answer to the request for the connected devices amounts to: the
/// result code is judged first, then the count, then the devices, which are
/// converted all-or-nothing.
pub open spec fn spec_get_devices(code: u32, count: i32, buffer: Seq<RawSessionDeviceInfo>) -> Result<
    Seq<DeviceInfoView>,
    ReadArrayErrorView,
> {
    match spec_check(code) {
        Err(e) => Err(ReadArrayErrorView::Sdk(e)),
        Ok(()) => if count < 0 {
            Err(ReadArrayErrorView::InvalidCount(count))
        } else {
            match all_or_errors(spec_device_info_results(spec_elements(count as int, buffer))) {
                Ok(devices) => Ok(devices),
                Err(errors) => Err(ReadArrayErrorView::ElementErrors(errors)),
            }
        },
    }
}

/// What was observed in one round of waiting for the connection: the time
/// when the round began, and what the wait on the state queue, bounded by
/// the time that was left, ended with. Times are in nanoseconds on a clock
/// that does not go back.
#[derive(Debug, Clone, Copy, PartialEq, Eq)]
pub struct WaitRound {
    pub now_nanos: u128,
    pub received: Received,
}

/// What a bounded wait on the state queue ended with.
#[derive(Debug, Clone, Copy, PartialEq, Eq)]
pub enum Received {
    /// A state change arrived.
    Change(SessionStateChange),
    /// The time ran out.
    Timeout,
    /// The queue was closed: the session is being torn down.
    Disconnected,
}

/// What to do after a step of waiting.
#[derive(Debug, Clone, Copy, PartialEq, Eq)]
pub enum WaitStep {
    /// Wait on the state queue for at most this many nanoseconds.
    Block(u128),
    /// Go on with the next round.
    Again,
    /// The wait is over, with this result.
    Done(Result<SessionDetails, SdkError>),
}

/// The deadline of a wait that starts at `now_nanos` and may take
/// `timeout_nanos`. A deadline beyond the end of the clock is the end of the
/// clock.
pub open spec fn spec_deadline(now_nanos: u128, timeout_nanos: u128) -> u128 {
    if now_nanos + timeout_nanos > u128::MAX {
        u128::MAX
    } else {
        (now_nanos + timeout_nanos) as u128
    }
}

/// How a round of waiting begins: at or after the deadline the wait has
/// failed; before it, the state queue is waited on until the deadline, and
/// no longer.
pub open spec fn spec_wait_begin(deadline_nanos: u128, now_nanos: u128) -> WaitStep {
    if now_nanos >= deadline_nanos {
        WaitStep::Done(Err(SdkError::NotConnected))
    } else {
        WaitStep::Block((deadline_nanos - now_nanos) as u128)
    }
}

/// How a round of waiting ends: `Connected` ends the wait with the details
/// that came with it, `Connecting` asks for another round, and everything
/// else, be it another state, the end of the time or the end of the queue,
/// fails the wait for good.
pub open spec fn spec_wait_received(received: Received) -> WaitStep {
    match received {
        Received::Change(change) => match SessionState::spec_from_ffi(change.state) {
            SessionState::Connected => WaitStep::Done(
                Ok(SessionDetails::spec_from_ffi(change.details)),
            ),
            SessionState::Connecting => WaitStep::Again,
            _ => WaitStep::Done(Err(SdkError::NotConnected)),
        },
        Received::Timeout => WaitStep::Done(Err(SdkError::NotConnected)),
        Received::Disconnected => WaitStep::Done(Err(SdkError::NotConnected)),
    }
}

/// The result of waiting through the given rounds against a deadline, if the
/// wait ends within them.
pub open spec fn spec_wait_for_connection(deadline_nanos: u128, rounds: Seq<WaitRound>) -> Option<
    Result<SessionDetails, SdkError>,
>
    decreases rounds.len(),
{
    if rounds.len() == 0 {
        None
    } else {
        match spec_wait_begin(deadline_nanos, rounds[0].now_nanos) {
            WaitStep::Done(result) => Some(result),
            _ => match spec_wait_received(rounds[0].received) {
                WaitStep::Done(result) => Some(result),
                _ => spec_wait_for_connection(deadline_nanos, rounds.drop_first()),
            },
        }
    }
}

/// Whether a round delivered the `Connected` state.
pub open spec fn spec_delivers_connected(round: WaitRound) -> bool {
    round.received matches Received::Change(change) && change.state == CSS_CONNECTED
}

/// No round waits beyond the deadline. Whenever a round begins, it either
/// ends the wait or blocks for exactly the time that is left until the one
/// deadline; the time that earlier rounds took is never granted again.
pub proof fn law_wait_is_bounded_by_the_deadline(deadline_nanos: u128, now_nanos: u128)
    ensures
        spec_wait_begin(deadline_nanos, now_nanos) matches WaitStep::Block(nanos) ==> nanos > 0
            && now_nanos + nanos == deadline_nanos,
        spec_wait_begin(deadline_nanos, now_nanos) !is Again,
        now_nanos >= deadline_nanos <==> spec_wait_begin(deadline_nanos, now_nanos)
            == WaitStep::Done(Err(SdkError::NotConnected)),
{
}

/// Waiting ends by the deadline, and not with success unless the session got
/// connected. If no round delivers `Connected`, then as soon as a round
/// begins at or after the deadline the wait has ended, at that round or
/// before, and with the not-connected failure.
pub proof fn law_wait_fails_by_deadline(deadline_nanos: u128, rounds: Seq<WaitRound>, expired: int)
    requires
        forall|i: int| 0 <= i < rounds.len() ==> !spec_delivers_connected(#[trigger] rounds[i]),
        0 <= expired < rounds.len(),
        rounds[expired].now_nanos >= deadline_nanos,
    ensures
        spec_wait_for_connection(deadline_nanos, rounds) == Some(
            Err::<SessionDetails, SdkError>(SdkError::NotConnected),
        ),
        spec_wait_for_connection(deadline_nanos, rounds.take(expired + 1)) == Some(
            Err::<SessionDetails, SdkError>(SdkError::NotConnected),
        ),
    decreases rounds.len(),
{
    let first = rounds[0];
    assert(!spec_delivers_connected(first));
    assert(rounds.take(expired + 1)[0] == first);
    if expired > 0 {
        let rest = rounds.drop_first();
        assert forall|i: int| 0 <= i < rest.len() implies !spec_delivers_connected(
            #[trigger] rest[i],
        ) by {
            assert(rest[i] == rounds[i + 1]);
        }
        law_wait_fails_by_deadline(deadline_nanos, rest, expired - 1);
        assert(rounds.take(expired + 1).drop_first() =~= rest.take(expired));
    }
}

/// Without a `Connected` state the wait never succeeds, however long it
/// goes on.
pub proof fn law_wait_needs_connected(deadline_nanos: u128, rounds: Seq<WaitRound>)
    requires
        forall|i: int| 0 <= i < rounds.len() ==> !spec_delivers_connected(#[trigger] rounds[i]),
    ensures
        !(spec_wait_for_connection(deadline_nanos, rounds) matches Some(Ok(_))),
    decreases rounds.len(),
{
    if rounds.len() > 0 {
        assert(!spec_delivers_connected(rounds[0]));
        let rest = rounds.drop_first();
        assert forall|i: int| 0 <= i < rest.len() implies !spec_delivers_connected(
            #[trigger] rest[i],
        ) by {
            assert(rest[i] == rounds[i + 1]);
        }
        law_wait_needs_connected(deadline_nanos, rest);
    }
}

/// A wait for the connection: its deadline, fixed once when the wait starts.
#[derive(Debug, Clone, Copy, PartialEq, Eq)]
pub struct ConnectionWait {
    deadline_nanos: u128,
}

impl View for ConnectionWait {
    type V = u128;

    closed spec fn view(&self) -> u128 {
        self.deadline_nanos
    }
}

impl ConnectionWait {
    /// Starts a wait at `now_nanos` that may take `timeout_nanos`.
    pub fn start(now_nanos: u128, timeout_nanos: u128) -> (wait: Self)
        ensures
            wait@ == spec_deadline(now_nanos, timeout_nanos),
    {
        ConnectionWait { deadline_nanos: now_nanos.saturating_add(timeout_nanos) }
    }

    /// The deadline of the wait.
    pub fn deadline_nanos(&self) -> (deadline: u128)
        ensures
            deadline == self@,
    {
        self.deadline_nanos
    }

    /// Begins a round of waiting at `now_nanos`: the time left is worked out
    /// against the deadline anew.
    pub fn begin_round(&self, now_nanos: u128) -> (step: WaitStep)
        ensures
            step == spec_wait_begin(self@, now_nanos),
            step !is Again,
    {
        if now_nanos >= self.deadline_nanos {
            WaitStep::Done(Err(SdkError::NotConnected))
        } else {
            WaitStep::Block(self.deadline_nanos - now_nanos)
        }
    }

    /// Ends a round of waiting, given what the wait on the state queue ended
    /// with.
    pub fn end_round(&self, received: &Received) -> (step: WaitStep)
        ensures
            step == spec_wait_received(*received),
            step !is Block,
    {
        match received {
            Received::Change(change) => {
                let state = SessionState::from_ffi(change.state);
                match state {
                    SessionState::Connected => WaitStep::Done(
                        Ok(SessionDetails::from_ffi(&change.details)),
                    ),
                    SessionState::Connecting => WaitStep::Again,
                    _ => WaitStep::Done(Err(SdkError::NotConnected)),
                }
            },
            Received::Timeout => WaitStep::Done(Err(SdkError::NotConnected)),
            Received::Disconnected => WaitStep::Done(Err(SdkError::NotConnected)),
        }
    }
}

/// A session with the service.
///
/// It keeps the one rule that teardown has to obey: the destination of the
/// session-state callback is taken out of the process-wide slot before the
/// service is told to disconnect, so that a callback that is still on its
/// way finds an empty slot and nothing that is being released.
#[derive(Debug)]
pub struct Session {
    open: bool,
    subscribed: bool,
}

impl Session {
    /// Whether the session still has to be disconnected.
    pub closed spec fn spec_is_open(&self) -> bool {
        self.open
    }

    /// Whether the session still has to be disconnected.
    pub fn is_open(&self) -> (open: bool)
        ensures
            open == self.spec_is_open(),
    {
        self.open
    }

    /// Whether events are subscribed for through this session.
    pub closed spec fn spec_is_subscribed(&self) -> bool {
        self.subscribed
    }

    /// Whether events are subscribed for through this session.
    pub fn is_subscribed(&self) -> (subscribed: bool)
        ensures
            subscribed == self.spec_is_subscribed(),
    {
        self.subscribed
    }

    /// Asks to subscribe for events. `Ok` tells the caller to begin a
    /// subscription and to register its callback now. The service supports
    /// one subscription: while one is there nothing more may be registered,
    /// the request fails and nothing changes.
    pub fn begin_subscription(&mut self) -> (res: Result<(), SdkError>)
        ensures
            final(self).spec_is_open() == old(self).spec_is_open(),
            !old(self).spec_is_subscribed() ==> res is Ok && final(self).spec_is_subscribed(),
            old(self).spec_is_subscribed() ==> res == Err::<(), SdkError>(
                SdkError::AlreadySubscribed,
            ) && final(self).spec_is_subscribed(),
    {
        if self.subscribed {
            Err(SdkError::AlreadySubscribed)
        } else {
            self.subscribed = true;
            Ok(())
        }
    }

    /// Takes in that the subscription is over: its registration was refused,
    /// or its callback has been unregistered. Events can be subscribed for
    /// again.
    pub fn end_subscription(&mut self)
        ensures
            final(self).spec_is_open() == old(self).spec_is_open(),
            !final(self).spec_is_subscribed(),
    {
        self.subscribed = false;
    }

    /// Begins a connection: `destination`, where the state changes of the
    /// new session are to go, is installed in the slot, replacing any other.
    /// The caller then tells the service to connect, and hands the answer to
    /// [`connected`](Self::connected).
    pub fn connect<D>(slot: &mut SessionSlot<D>, destination: D) -> (session: Self)
        ensures
            final(slot)@ == Some(destination),
            session.spec_is_open(),
            !session.spec_is_subscribed(),
    {
        let _ = slot.install(destination);
        Session { open: true, subscribed: false }
    }

    /// Takes in the answer of the service to the request to connect.
    pub fn connected(self, code: u32) -> (res: Result<Self, SdkError>)
        ensures
            match res {
                Ok(session) => code == CE_SUCCESS && session == self,
                Err(error) => spec_check(code) == Err::<(), SdkError>(error),
            },
    {
        match check(code) {
            Ok(()) => Ok(self),
            Err(e) => Err(e),
        }
    }

    /// Begins the teardown of the session, on an explicit request or at the
    /// end of its life. The slot is cleared here and now; `true` tells the
    /// caller to tell the service to disconnect, after this has returned.
    /// That happens once: a session that was torn down before clears the
    /// slot again and asks for nothing more. What the service answers to the
    /// disconnect cannot be passed on to anyone and is dropped on purpose.
    pub fn disconnect<D>(&mut self, slot: &mut SessionSlot<D>) -> (disconnect: bool)
        ensures
            final(slot)@ is None,
            disconnect == old(self).spec_is_open(),
            !final(self).spec_is_open(),
            final(self).spec_is_subscribed() == old(self).spec_is_subscribed(),
    {
        let _ = slot.clear();
        let was_open = self.open;
        self.open = false;
        was_open
    }

    /// Waits through rounds that were observed, starting at `start_nanos`
    /// with `timeout_nanos` to go: the result of the wait, or `None` if the
    /// rounds end while the wait still goes on.
    pub fn wait_for_connection(
        &self,
        start_nanos: u128,
        timeout_nanos: u128,
        rounds: &Vec<WaitRound>,
    ) -> (res: Option<Result<SessionDetails, SdkError>>)
        ensures
            res == spec_wait_for_connection(spec_deadline(start_nanos, timeout_nanos), rounds@),
    {
        let wait = ConnectionWait::start(start_nanos, timeout_nanos);
        let mut i: usize = 0;
        proof {
            assert(rounds@.skip(0) =~= rounds@);
        }
        while i < rounds.len()
            invariant
                i <= rounds.len(),
                wait@ == spec_deadline(start_nanos, timeout_nanos),
                spec_wait_for_connection(wait@, rounds@) == spec_wait_for_connection(
                    wait@,
                    rounds@.skip(i as int),
                ),
            decreases rounds.len() - i,
        {
            proof {
                assert(rounds@.skip(i as int)[0] == rounds@[i as int]);
                assert(rounds@.skip(i as int).drop_first() =~= rounds@.skip(i + 1));
            }
            match wait.begin_round(rounds[i].now_nanos) {
                WaitStep::Done(result) => {
                    return Some(result);
                },
                _ => {},
            }
            match wait.end_round(&rounds[i].received) {
                WaitStep::Done(result) => {
                    return Some(result);
                },
                _ => {},
            }
            i += 1;
        }
        None
    }

    /// Takes in the answer to the request for the session details.
    pub fn details(&self, code: u32, raw: &RawSessionDetails) -> (res: Result<
        SessionDetails,
        SdkError,
    >)
        ensures
            match spec_check(code) {
                Ok(()) => res == Ok::<SessionDetails, SdkError>(SessionDetails::spec_from_ffi(*raw)),
                Err(e) => res == Err::<SessionDetails, SdkError>(e),
            },
    {
        match check(code) {
            Ok(()) => Ok(SessionDetails::from_ffi(raw)),
            Err(e) => Err(e),
        }
    }

    /// Takes in the answer to the request for the connected devices: the
    /// result code, the number of devices that the service reports to have
    /// written, and the buffer that it wrote them into. Every device is
    /// validated; if some are unusable, the errors of all of them are
    /// reported together and no device is returned.
    pub fn get_devices(&self, code: u32, count: i32, buffer: &Vec<RawSessionDeviceInfo>) -> (res:
        Result<Vec<DeviceInfo>, ReadArrayError>)
        ensures
            match res {
                Ok(devices) => spec_get_devices(code, count, buffer@) == Ok::<
                    Seq<DeviceInfoView>,
                    ReadArrayErrorView,
                >(devices.deep_view()),
                Err(e) => spec_get_devices(code, count, buffer@) == Err::<
                    Seq<DeviceInfoView>,
                    ReadArrayErrorView,
                >(e.deep_view()),
            },
            code == CE_SUCCESS && count < 0 ==> res == Err::<Vec<DeviceInfo>, ReadArrayError>(
                ReadArrayError::InvalidCount(count),
            ),
            code == CE_SUCCESS && count == 0 ==> (res matches Ok(devices) && devices@.len() == 0),
    {
        match check(code) {
            Err(e) => {
                return Err(ReadArrayError::Sdk(e));
            },
            Ok(()) => {},
        }
        if count < 0 {
            return Err(ReadArrayError::InvalidCount(count));
        }
        let n = element_count(count, buffer.len());
        let ghost results = spec_device_info_results(spec_elements(count as int, buffer@));
        let mut devices: Vec<DeviceInfo> = Vec::new();
        let mut errs: Vec<DeviceInfoFromFfiError> = Vec::new();
        let mut i: usize = 0;
        proof {
            assert(devices.deep_view() =~= successes(results.take(0)));
        }
        while i < n
            invariant
                i <= n,
                n <= buffer.len(),
                results == spec_device_info_results(buffer@.take(n as int)),
                devices.deep_view() == successes(results.take(i as int)),
                errs@ == failures(results.take(i as int)),
            decreases n - i,
        {
            proof {
                lemma_take_next(results, i as int);
            }
            let ghost before = devices.deep_view();
            match DeviceInfo::from_ffi(&buffer[i]) {
                Ok(device) => {
                    devices.push(device);
                    proof {
                        assert(devices.deep_view() =~= before.push(device.deep_view()));
                    }
                },
                Err(e) => errs.push(e),
            }
            i += 1;
        }
        proof {
            assert(results.take(i as int) =~= results);
        }
        if errs.len() == 0 {
            Ok(devices)
        } else {
            Err(ReadArrayError::ElementErrors(errs))
        }
    }

    /// Takes in the answer to the request for the description of one device.
    pub fn get_device_info(&self, code: u32, raw: &RawSessionDeviceInfo) -> (res: Result<
        DeviceInfo,
        GetDeviceInfoError,
    >)
        ensures
            match spec_check(code) {
                Err(e) => res == Err::<DeviceInfo, GetDeviceInfoError>(GetDeviceInfoError::Sdk(e)),
                Ok(()) => match DeviceInfo::spec_from_ffi(*raw) {
                    Ok(view) => res matches Ok(info) && info.deep_view() == view,
                    Err(e) => res == Err::<DeviceInfo, GetDeviceInfoError>(
                        GetDeviceInfoError::Invalid(e),
                    ),
                },
            },
    {
        match check(code) {
            Err(e) => Err(GetDeviceInfoError::Sdk(e)),
            Ok(()) => match DeviceInfo::from_ffi(raw) {
                Ok(info) => Ok(info),
                Err(e) => Err(GetDeviceInfoError::Invalid(e)),
            },
        }
    }

    /// Takes in the answer to the request for the LED positions of a device:
    /// the result code, the number of positions that the service reports to
    /// have written, and the buffer that it wrote them into.
    pub fn get_led_positions(
        &self,
        code: u32,
        count: i32,
        buffer: &Vec<RawSessionLedPosition>,
    ) -> (res: Result<Vec<LedPosition>, ReadArrayError>)
        ensures
            match spec_check(code) {
                Err(e) => res == Err::<Vec<LedPosition>, ReadArrayError>(ReadArrayError::Sdk(e)),
                Ok(()) => if count < 0 {
                    res == Err::<Vec<LedPosition>, ReadArrayError>(
                        ReadArrayError::InvalidCount(count),
                    )
                } else {
                    res matches Ok(positions) && positions@ == spec_elements(
                        count as int,
                        buffer@,
                    ).map_values(
                        |p: RawSessionLedPosition| LedPosition { id: p.id, cx: p.cx, cy: p.cy },
                    )
                },
            },
    {
        match check(code) {
            Err(e) => {
                return Err(ReadArrayError::Sdk(e));
            },
            Ok(()) => {},
        }
        if count < 0 {
            return Err(ReadArrayError::InvalidCount(count));
        }
        let n = element_count(count, buffer.len());
        let ghost target = spec_elements(count as int, buffer@).map_values(
            |p: RawSessionLedPosition| LedPosition { id: p.id, cx: p.cx, cy: p.cy },
        );
        let mut positions: Vec<LedPosition> = Vec::new();
        let mut i: usize = 0;
        while i < n
            invariant
                i <= n,
                n <= buffer.len(),
                target.len() == n,
                forall|j: int|
                    0 <= j < n ==> #[trigger] target[j] == (LedPosition {
                        id: buffer@[j].id,
                        cx: buffer@[j].cx,
                        cy: buffer@[j].cy,
                    }),
                positions@ == target.take(i as int),
            decreases n - i,
        {
            positions.push(LedPosition::from_ffi(&buffer[i]));
            i += 1;
            proof {
                assert(positions@ =~= target.take(i as int));
            }
        }
        proof {
            assert(target.take(i as int) =~= target);
        }
        Ok(positions)
    }

    /// Takes in the answer to setting the colours of LEDs at once.
    pub fn set_led_colors(&self, code: u32) -> (res: Result<(), SdkError>)
        ensures
            res == spec_check(code),
    {
        check(code)
    }

    /// Takes in the answer to buffering the colours of LEDs for a later flush.
    pub fn set_led_colors_buffer(&self, code: u32) -> (res: Result<(), SdkError>)
        ensures
            res == spec_check(code),
    {
        check(code)
    }

    /// Takes in the answer to reading the colours of LEDs; on success the service has filled
    /// the colours into the records that were handed to it.
    pub fn get_led_colors(&self, code: u32) -> (res: Result<(), SdkError>)
        ensures
            res == spec_check(code),
    {
        check(code)
    }

    /// Takes in the answer to setting the layer priority of this client.
    pub fn set_layer_priority(&self, code: u32) -> (res: Result<(), SdkError>)
        ensures
            res == spec_check(code),
    {
        check(code)
    }

    /// Takes in the answer to the request for control of a device.
    pub fn request_control(&self, code: u32) -> (res: Result<(), SdkError>)
        ensures
            res == spec_check(code),
    {
        check(code)
    }

    /// Takes in the answer to the release of control of a device.
    pub fn release_control(&self, code: u32) -> (res: Result<(), SdkError>)
        ensures
            res == spec_check(code),
    {
        check(code)
    }

    /// Takes in the answer to configuring whether a macro key event is intercepted.
    pub fn configure_key_event(&self, code: u32) -> (res: Result<(), SdkError>)
        ensures
            res == spec_check(code),
    {
        check(code)
    }

    /// Takes in the answer to writing a boolean property.
    pub fn write_device_property_bool(&self, code: u32) -> (res: Result<(), SdkError>)
        ensures
            res == spec_check(code),
    {
        check(code)
    }

    /// Takes in the answer to writing an integer property.
    pub fn write_device_property_int32(&self, code: u32) -> (res: Result<(), SdkError>)
        ensures
            res == spec_check(code),
    {
        check(code)
    }

    /// Takes in the answer to writing a floating-point property.
    pub fn write_device_property_float64(&self, code: u32) -> (res: Result<(), SdkError>)
        ensures
            res == spec_check(code),
    {
        check(code)
    }

    /// Takes in how a flush of the buffered colours went: `queued` is the
    /// answer to queueing the flush, and `completion` what the completion
    /// callback delivered, `None` if its queue was closed without a
    /// delivery. A flush that was not queued has no completion.
    pub fn flush_led_colors(&self, queued: u32, completion: Option<u32>) -> (res: Result<
        (),
        SdkError,
    >)
        ensures
            res == (match spec_check(queued) {
                Err(e) => Err(e),
                Ok(()) => match completion {
                    Some(code) => spec_check(code),
                    None => Err(SdkError::NotConnected),
                },
            }),
    {
        match check(queued) {
            Err(e) => Err(e),
            Ok(()) => match completion {
                Some(code) => check(code),
                None => Err(SdkError::NotConnected),
            },
        }
    }

    /// Takes in the answer to the lookup of the LED for a key name.
    pub fn get_led_luid_for_key_name(&self, code: u32, luid: u32) -> (res: Result<u32, SdkError>)
        ensures
            res == (match spec_check(code) {
                Ok(()) => Ok(luid),
                Err(e) => Err(e),
            }),
    {
        match check(code) {
            Ok(()) => Ok(luid),
            Err(e) => Err(e),
        }
    }

    /// Takes in the answer to the request for the metadata of a property.
    pub fn get_device_property_info(&self, code: u32, data_type: u32, flags: u32) -> (res: Result<
        PropertyInfo,
        SdkError,
    >)
        ensures
            match spec_check(code) {
                Ok(()) => res matches Ok(info) && info.data_type == (match DataType::spec_from_ffi(
                    data_type,
                ) {
                    Some(t) => t,
                    None => DataType::Int32,
                }) && info.flags@ == flags & property::PROPERTY_FLAG_ALL,
                Err(e) => res == Err::<PropertyInfo, SdkError>(e),
            },
    {
        match check(code) {
            Ok(()) => Ok(PropertyInfo::from_ffi(data_type, flags)),
            Err(e) => Err(e),
        }
    }

    /// Takes in the answer to reading a property. After a successful read
    /// the native property has to be released by the caller, exactly once,
    /// once this has returned, whether or not it has a value.
    pub fn read_device_property(&self, code: u32, prop: &RawProperty) -> (res: Result<
        PropertyValue,
        ReadPropertyError,
    >)
        ensures
            match spec_check(code) {
                Err(e) => res matches Err(error) && error.deep_view() == ReadPropertyErrorView::Sdk(
                    e,
                ),
                Ok(()) => match PropertyValue::spec_from_ffi(*prop) {
                    Ok(v) => res matches Ok(value) && value.deep_view() == v,
                    Err(e) => res matches Err(error) && error.deep_view()
                        == ReadPropertyErrorView::Value(e),
                },
            },
    {
        match check(code) {
            Err(e) => Err(ReadPropertyError::Sdk(e)),
            Ok(()) => match PropertyValue::from_ffi(prop) {
                Ok(value) => Ok(value),
                Err(e) => Err(ReadPropertyError::Value(e)),
            },
        }
    }
}

} // verus!
