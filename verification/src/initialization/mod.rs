//! The protocol handshake that opens the index-based interface.
pub mod protocol_details;

pub use self::protocol_details::{
    Identifier, ProtocolDetails, ProtocolDetailsFromFfiError, Version,
};

use self::protocol_details::{ProtocolDetailsFromFfiErrorView, ProtocolDetailsView};
use crate::errors::{get_last_error, CueSdkError};
use crate::native::RawProtocolDetails;
use vstd::prelude::*;

verus! {

/// Why a handshake did not give a usable client.
#[derive(Debug, Clone, PartialEq)]
pub enum HandshakeError {
    /// The service reported an error for the handshake.
    InitialHandshakeError(CueSdkError),
    /// The handshake went through but its details are unusable.
    ProtocolDetailsError(ProtocolDetailsFromFfiError),
}

/// The mathematical content of a [`HandshakeError`].
pub ghost enum HandshakeErrorView {
    InitialHandshakeError(CueSdkError),
    ProtocolDetailsError(ProtocolDetailsFromFfiErrorView),
}

impl DeepView for HandshakeError {
    type V = HandshakeErrorView;

    open spec fn deep_view(&self) -> HandshakeErrorView {
        match self {
            HandshakeError::InitialHandshakeError(error) => {
                HandshakeErrorView::InitialHandshakeError(*error)
            },
            HandshakeError::ProtocolDetailsError(error) => {
                HandshakeErrorView::ProtocolDetailsError(error.deep_view())
            },
        }
    }
}

/// What the answer to a handshake amounts to: a known error code means the
/// handshake failed, whatever the record holds; otherwise the record decides.
pub open spec fn spec_perform_handshake(details: RawProtocolDetails, last_error: u32) -> Result<
    ProtocolDetailsView,
    HandshakeErrorView,
> {
    match CueSdkError::spec_from_u32(last_error) {
        Some(e) => Err(HandshakeErrorView::InitialHandshakeError(e)),
        None => match ProtocolDetails::spec_from_ffi(details) {
            Ok(d) => Ok(d),
            Err(e) => Err(HandshakeErrorView::ProtocolDetailsError(e)),
        },
    }
}

/// Takes in the answer to the protocol handshake: `details` is the record
/// that the service returned and `last_error` its last error code, read after
/// the call.
pub fn perform_handshake(details: &RawProtocolDetails, last_error: u32) -> (res: Result<
    ProtocolDetails,
    HandshakeError,
>)
    ensures
        match res {
            Ok(d) => spec_perform_handshake(*details, last_error) == Ok::<
                ProtocolDetailsView,
                HandshakeErrorView,
            >(d.deep_view()),
            Err(e) => spec_perform_handshake(*details, last_error) == Err::<
                ProtocolDetailsView,
                HandshakeErrorView,
            >(e.deep_view()),
        },
{
    match get_last_error(last_error) {
        Some(e) => Err(HandshakeError::InitialHandshakeError(e)),
        None => match ProtocolDetails::from_ffi(details) {
            Ok(d) => Ok(d),
            Err(e) => Err(HandshakeError::ProtocolDetailsError(e)),
        },
    }
}

} // verus!
