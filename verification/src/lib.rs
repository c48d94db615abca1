//! Marshalling and lifecycle logic for talking to the Corsair iCUE service.
//!
//! The service is reached through a C interface. This library holds what is
//! decided on the host side of that interface: how raw native records are
//! validated and turned into owned values, how batches of such conversions
//! are aggregated, and in which order registrations and releases must happen.
//! Native records are represented by plain mirror types (see [`native`]), so
//! every rule is a function on ordinary values.
pub mod callback;
pub mod device;
pub mod error;
pub mod errors;
pub mod event;
pub mod initialization;
pub mod internal;
pub mod key;
pub mod led;
pub mod marshal;
pub mod native;
pub mod property;
pub mod sdk;
pub mod session;

use crate::initialization::protocol_details::ProtocolDetailsView;
use crate::initialization::{spec_perform_handshake, HandshakeError, HandshakeErrorView};
use crate::native::RawProtocolDetails;
use crate::sdk::{CueSdkClient, DEFAULT_SDK_CLIENT_PRIORITY};
use crate::event::SubscriptionState;
use vstd::prelude::*;

verus! {

/// This is the single and only way to get a client of the index-based
/// interface: from the answer to the protocol handshake, that is the record
/// that the service returned and its last error code, read after the call.
///
/// This can fail for a variety of reasons, the most likely being that the
/// Corsair iCUE software isn't running on the target machine.
///
/// We recommend you keep a single client for your application, as the iCUE
/// SDK does not expect multiple handshakes.
pub fn initialize(details: &RawProtocolDetails, last_error: u32) -> (res: Result<
    CueSdkClient,
    HandshakeError,
>)
    ensures
        match res {
            Ok(client) => spec_perform_handshake(*details, last_error) == Ok::<
                ProtocolDetailsView,
                HandshakeErrorView,
            >(client.spec_protocol_details().deep_view()) && !client.spec_has_exclusive_access()
                && client.spec_subscription_state() == SubscriptionState::Unsubscribed
                && client.spec_layer_priority() == DEFAULT_SDK_CLIENT_PRIORITY,
            Err(e) => spec_perform_handshake(*details, last_error) == Err::<
                ProtocolDetailsView,
                HandshakeErrorView,
            >(e.deep_view()),
        },
{
    CueSdkClient::initialize(details, last_error)
}

} // verus!
