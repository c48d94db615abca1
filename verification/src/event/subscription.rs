//! The lifecycle of an event subscription.
//!
//! A subscription hands the service a callback and a context that the
//! callback reads. The context may only be released once the service can no
//! longer call back, that is after the call that unregisters the callback has
//! returned. This module keeps the order: every operation says what the
//! caller has to do next, and the state only moves as those steps are taken.
use crate::errors::{get_last_error, CueSdkError};
use vstd::prelude::*;

verus! {

/// Where a subscription is in its life.
#[derive(Debug, Clone, Copy, PartialEq, Eq)]
pub enum SubscriptionState {
    /// Nothing is registered and no context is held. The initial and the
    /// final state.
    Unsubscribed,
    /// The callback is registered; the context must stay where it is.
    Subscribed,
    /// The call that unregisters the callback has been ordered and has not
    /// returned yet; the context must still stay where it is.
    Unsubscribing,
}

/// The error that can be returned from any of the event subscription methods.
#[derive(Debug, Clone, Copy, PartialEq, Eq)]
pub enum SubscribeForEventsError {
    /// The service refused the registration; the value is what it named as
    /// the cause.
    CueSdkError(Option<CueSdkError>),
    /// The iCUE SDK only supports a single subscription, and there is already
    /// an active subscription.
    AlreadyHaveAnActiveEventSubscriptionError,
}

/// The error that can be returned when unsubscribing.
#[derive(Debug, Clone, Copy, PartialEq, Eq)]
pub enum UnsubscribeFromEventsError {
    /// The service reported a failure; the value is what it named as the
    /// cause.
    CueSdkError(Option<CueSdkError>),
    /// There is no active subscription to end.
    NoActiveSubscriptionError,
}

/// What one request to end a subscription does: the state afterwards, and
/// whether the caller has to unregister the callback.
pub open spec fn spec_teardown(state: SubscriptionState) -> (SubscriptionState, bool) {
    match state {
        SubscriptionState::Subscribed => (SubscriptionState::Unsubscribing, true),
        _ => (state, false),
    }
}

/// What the return of the unregistering call does to the state: the context
/// may be released, and the subscription is over, whatever the call reported.
pub open spec fn spec_unregistered(state: SubscriptionState) -> SubscriptionState {
    match state {
        SubscriptionState::Unsubscribing => SubscriptionState::Unsubscribed,
        _ => state,
    }
}

/// The number of unregistering calls that `requests` requests to end a
/// subscription bring about when each ordered call is made, and returns,
/// before the next request.
pub open spec fn spec_unregister_calls(state: SubscriptionState, requests: nat) -> nat
    decreases requests,
{
    if requests == 0 {
        0
    } else {
        let (next, unregister) = spec_teardown(state);
        let settled = if unregister {
            spec_unregistered(next)
        } else {
            next
        };
        (if unregister {
            1nat
        } else {
            0nat
        }) + spec_unregister_calls(settled, (requests - 1) as nat)
    }
}

/// The state after `requests` requests to end a subscription, each ordered
/// call being made, and returning, before the next request.
pub open spec fn spec_state_after_teardowns(
    state: SubscriptionState,
    requests: nat,
) -> SubscriptionState
    decreases requests,
{
    if requests == 0 {
        state
    } else {
        let (next, unregister) = spec_teardown(state);
        let settled = if unregister {
            spec_unregistered(next)
        } else {
            next
        };
        spec_state_after_teardowns(settled, (requests - 1) as nat)
    }
}

/// Ending a subscription is idempotent. However often the end of an active
/// subscription is requested (by an explicit call, by the end of the object's
/// life, or by both), the callback is unregistered exactly once, and the
/// subscription ends up unsubscribed. A subscription that is not active is
/// never unregistered.
pub proof fn law_unregister_exactly_once(requests: nat)
    ensures
        requests >= 1 ==> spec_unregister_calls(SubscriptionState::Subscribed, requests) == 1,
        requests >= 1 ==> spec_state_after_teardowns(SubscriptionState::Subscribed, requests)
            == SubscriptionState::Unsubscribed,
        spec_unregister_calls(SubscriptionState::Unsubscribed, requests) == 0,
        spec_state_after_teardowns(SubscriptionState::Unsubscribed, requests)
            == SubscriptionState::Unsubscribed,
    decreases requests,
{
    if requests >= 1 {
        law_unregister_exactly_once((requests - 1) as nat);
    }
}

/// A request that comes while the unregistering call is still running orders
/// no second call.
pub proof fn law_no_unregister_while_unsubscribing()
    ensures
        spec_teardown(SubscriptionState::Unsubscribing) == (
            SubscriptionState::Unsubscribing,
            false,
        ),
        spec_teardown(spec_teardown(SubscriptionState::Subscribed).0).1 == false,
{
}

/// What a refused registration does to the state: nothing was registered, so
/// the subscription is over before it began.
pub open spec fn spec_registration_failed(state: SubscriptionState) -> SubscriptionState {
    match state {
        SubscriptionState::Subscribed => SubscriptionState::Unsubscribed,
        _ => state,
    }
}

/// A subscription that has ended stays ended: no step leads out of
/// `Unsubscribed`, so the same object never subscribes twice.
pub proof fn law_unsubscribed_is_final()
    ensures
        spec_teardown(SubscriptionState::Unsubscribed) == (SubscriptionState::Unsubscribed, false),
        spec_unregistered(SubscriptionState::Unsubscribed) == SubscriptionState::Unsubscribed,
        spec_registration_failed(SubscriptionState::Unsubscribed)
            == SubscriptionState::Unsubscribed,
{
}

/// The lifecycle of one event subscription. It begins when the callback is
/// registered and ends when it has been unregistered; it does not begin a
/// second time. There is one value per subscription and it cannot be copied:
/// whoever holds it decides about the one unregistering call.
#[derive(Debug, PartialEq, Eq)]
pub struct EventSubscription {
    state: SubscriptionState,
}

impl View for EventSubscription {
    type V = SubscriptionState;

    closed spec fn view(&self) -> SubscriptionState {
        self.state
    }
}

impl EventSubscription {
    /// Begins a subscription. The caller allocates the context and registers
    /// the callback now; the subscription counts as active from this moment,
    /// because the service may call back before the registering call returns.
    pub fn new() -> (subscription: Self)
        ensures
            subscription@ == SubscriptionState::Subscribed,
    {
        EventSubscription { state: SubscriptionState::Subscribed }
    }

    /// Where the subscription is in its life.
    pub fn state(&self) -> (state: SubscriptionState)
        ensures
            state == self@,
    {
        self.state
    }

    /// Whether the callback is registered with the service, so that events
    /// can arrive.
    pub fn is_subscribed(&self) -> (active: bool)
        ensures
            active == (self@ == SubscriptionState::Subscribed),
    {
        match self.state {
            SubscriptionState::Subscribed => true,
            _ => false,
        }
    }

    /// Takes in that the service refused the registration. Nothing is
    /// registered, so the caller releases the context, and the subscription
    /// is over. The failure to surface is returned; `last_error` is the
    /// service's last error code.
    pub fn registration_failed(&mut self, last_error: u32) -> (error: SubscribeForEventsError)
        ensures
            error == SubscribeForEventsError::CueSdkError(CueSdkError::spec_from_u32(last_error)),
            final(self)@ == spec_registration_failed(old(self)@),
    {
        match self.state {
            SubscriptionState::Subscribed => {
                self.state = SubscriptionState::Unsubscribed;
            },
            _ => {},
        }
        SubscribeForEventsError::CueSdkError(get_last_error(last_error))
    }

    /// Asks to end the subscription, on an explicit request or at the end of
    /// the object's life. `true` tells the caller to unregister the callback
    /// now and to report back with [`unregistered`](Self::unregistered); the
    /// context stays where it is until then. `false` means there is nothing
    /// to do: nothing is registered, or the unregistering call is already on
    /// its way.
    pub fn begin_teardown(&mut self) -> (unregister: bool)
        ensures
            (final(self)@, unregister) == spec_teardown(old(self)@),
            unregister <==> old(self)@ == SubscriptionState::Subscribed,
    {
        match self.state {
            SubscriptionState::Subscribed => {
                self.state = SubscriptionState::Unsubscribing;
                true
            },
            _ => false,
        }
    }

    /// Takes in that the unregistering call has returned. Only now may the
    /// caller release the context. The subscription is over whether or not
    /// the service reported success: a failure is passed on, but changes
    /// nothing. `last_error` is the service's last error code, which is only
    /// looked at when the call failed.
    pub fn unregistered(&mut self, was_successful: bool, last_error: u32) -> (res: Result<
        (),
        UnsubscribeFromEventsError,
    >)
        ensures
            final(self)@ == spec_unregistered(old(self)@),
            was_successful ==> res is Ok,
            !was_successful ==> res == Err::<(), UnsubscribeFromEventsError>(
                UnsubscribeFromEventsError::CueSdkError(CueSdkError::spec_from_u32(last_error)),
            ),
    {
        match self.state {
            SubscriptionState::Unsubscribing => {
                self.state = SubscriptionState::Unsubscribed;
            },
            _ => {},
        }
        if was_successful {
            Ok(())
        } else {
            Err(UnsubscribeFromEventsError::CueSdkError(get_last_error(last_error)))
        }
    }

    /// Asks to unsubscribe on an explicit request. `Ok` tells the caller to
    /// unregister the callback now and to report back with
    /// [`unregistered`](Self::unregistered). Without an active subscription
    /// nothing may be unregistered and the request fails.
    pub fn unsubscribe(&mut self) -> (res: Result<(), UnsubscribeFromEventsError>)
        ensures
            final(self)@ == spec_teardown(old(self)@).0,
            old(self)@ == SubscriptionState::Subscribed ==> res is Ok,
            old(self)@ != SubscriptionState::Subscribed ==> res == Err::<
                (),
                UnsubscribeFromEventsError,
            >(UnsubscribeFromEventsError::NoActiveSubscriptionError),
    {
        if self.begin_teardown() {
            Ok(())
        } else {
            Err(UnsubscribeFromEventsError::NoActiveSubscriptionError)
        }
    }
}

/// An event subscription together with the context that its callback reads.
///
/// The context is handed over when the subscription begins and is kept here,
/// where it does not move, for as long as the service may call back. It is
/// handed out again, to be released, by the two steps after which the
/// service can no longer call back, and by nothing else: by
/// [`registration_failed`](Self::registration_failed), and by
/// [`unregistered`](Self::unregistered), that is after the unregistering call
/// has returned.
#[derive(Debug)]
pub struct Subscription<C> {
    lifecycle: EventSubscription,
    context: Option<C>,
}

/// The mathematical content of a [`Subscription`].
pub ghost struct SubscriptionView<C> {
    pub state: SubscriptionState,
    pub context: Option<C>,
}

impl<C> View for Subscription<C> {
    type V = SubscriptionView<C>;

    closed spec fn view(&self) -> SubscriptionView<C> {
        SubscriptionView { state: self.lifecycle@, context: self.context }
    }
}

/// The context is held exactly while the service may call back.
pub open spec fn spec_holds_context<C>(subscription: SubscriptionView<C>) -> bool {
    subscription.context is Some <==> subscription.state != SubscriptionState::Unsubscribed
}

impl<C> Subscription<C> {
    /// Begins a subscription that owns `context`. The caller registers the
    /// callback now, with the address of the context as it is found by
    /// [`context`](Self::context).
    pub fn new(context: C) -> (subscription: Self)
        ensures
            subscription@.state == SubscriptionState::Subscribed,
            subscription@.context == Some(context),
            spec_holds_context(subscription@),
    {
        Subscription { lifecycle: EventSubscription::new(), context: Some(context) }
    }

    /// Where the subscription is in its life.
    pub fn state(&self) -> (state: SubscriptionState)
        ensures
            state == self@.state,
    {
        self.lifecycle.state()
    }

    /// The context, while it is held.
    pub fn context(&self) -> (context: Option<&C>)
        ensures
            match context {
                Some(c) => self@.context == Some(*c),
                None => self@.context is None,
            },
    {
        self.context.as_ref()
    }

    /// Takes in that the service refused the registration. Nothing is
    /// registered, so the context is handed out for release, and the
    /// subscription is over. The failure to surface comes with it;
    /// `last_error` is the service's last error code.
    pub fn registration_failed(&mut self, last_error: u32) -> (res: (
        SubscribeForEventsError,
        Option<C>,
    ))
        ensures
            res.0 == SubscribeForEventsError::CueSdkError(CueSdkError::spec_from_u32(last_error)),
            final(self)@.state == spec_registration_failed(old(self)@.state),
            old(self)@.state == SubscriptionState::Subscribed ==> res.1 == old(self)@.context
                && final(self)@.context is None,
            old(self)@.state != SubscriptionState::Subscribed ==> res.1 is None
                && final(self)@.context == old(self)@.context,
            spec_holds_context(old(self)@) ==> spec_holds_context(final(self)@),
    {
        let released = if self.lifecycle.is_subscribed() {
            self.context.take()
        } else {
            None
        };
        let error = self.lifecycle.registration_failed(last_error);
        (error, released)
    }

    /// Asks to end the subscription, on an explicit request or at the end of
    /// the object's life. `true` tells the caller to unregister the callback
    /// now and to report back with [`unregistered`](Self::unregistered). The
    /// context stays where it is.
    pub fn begin_teardown(&mut self) -> (unregister: bool)
        ensures
            (final(self)@.state, unregister) == spec_teardown(old(self)@.state),
            unregister <==> old(self)@.state == SubscriptionState::Subscribed,
            final(self)@.context == old(self)@.context,
            spec_holds_context(old(self)@) ==> spec_holds_context(final(self)@),
    {
        self.lifecycle.begin_teardown()
    }

    /// Takes in that the unregistering call has returned: the context is
    /// handed out for release, and the subscription is over, whether or not
    /// the service reported success. A report that comes when no
    /// unregistering call was ordered hands out nothing.
    pub fn unregistered(&mut self, was_successful: bool, last_error: u32) -> (res: (
        Result<(), UnsubscribeFromEventsError>,
        Option<C>,
    ))
        ensures
            final(self)@.state == spec_unregistered(old(self)@.state),
            was_successful ==> res.0 is Ok,
            !was_successful ==> res.0 == Err::<(), UnsubscribeFromEventsError>(
                UnsubscribeFromEventsError::CueSdkError(CueSdkError::spec_from_u32(last_error)),
            ),
            old(self)@.state == SubscriptionState::Unsubscribing ==> res.1 == old(self)@.context
                && final(self)@.context is None,
            old(self)@.state != SubscriptionState::Unsubscribing ==> res.1 is None
                && final(self)@.context == old(self)@.context,
            spec_holds_context(old(self)@) ==> spec_holds_context(final(self)@),
    {
        let released = match self.lifecycle.state() {
            SubscriptionState::Unsubscribing => self.context.take(),
            _ => None,
        };
        let res = self.lifecycle.unregistered(was_successful, last_error);
        (res, released)
    }
}

/// The context outlives every possible callback. Along any run of requests
/// to end a subscription that holds its context, each ordered call being
/// made before the next request, the context is still held when the
/// unregistering call is ordered, and is handed out only by the report that
/// this call has returned.
pub proof fn law_context_is_released_after_unregister<C>(subscription: SubscriptionView<C>)
    requires
        spec_holds_context(subscription),
    ensures
        spec_teardown(subscription.state).1 ==> subscription.context is Some,
        spec_teardown(subscription.state).0 != SubscriptionState::Unsubscribed
            ==> subscription.context is Some,
        spec_teardown(subscription.state).1 ==> spec_unregistered(
            spec_teardown(subscription.state).0,
        ) == SubscriptionState::Unsubscribed,
{
}

} // verus!
