//! The errors that the session-based calls of the service report.
use crate::native::{
    CE_DEVICE_NOT_FOUND, CE_INCOMPATIBLE_PROTOCOL, CE_INVALID_ARGUMENTS, CE_INVALID_OPERATION,
    CE_NOT_ALLOWED, CE_NOT_CONNECTED, CE_NO_CONTROL, CE_SUCCESS,
};
use vstd::prelude::*;

verus! {

/// All errors that can be returned by SDK operations.
#[derive(Debug, Clone, Copy, PartialEq, Eq)]
pub enum SdkError {
    /// Not connected to iCUE.
    NotConnected,
    /// No control over the device.
    NoControl,
    /// Incompatible protocol version.
    IncompatibleProtocol,
    /// Invalid arguments.
    InvalidArguments,
    /// Invalid operation.
    InvalidOperation,
    /// Device not found.
    DeviceNotFound,
    /// Operation not allowed.
    NotAllowed,
    /// A code that is not known here; the value is the code, so that codes
    /// of later versions of the service are passed on and never lost.
    Unknown(u32),
    /// Events are already subscribed for. This is no code of the service:
    /// the request is turned down before the service is asked.
    AlreadySubscribed,
}

/// What a result code of the service means: success, or the error that the
/// code names.
pub open spec fn spec_check(code: u32) -> Result<(), SdkError> {
    if code == CE_SUCCESS {
        Ok(())
    } else if code == CE_NOT_CONNECTED {
        Err(SdkError::NotConnected)
    } else if code == CE_NO_CONTROL {
        Err(SdkError::NoControl)
    } else if code == CE_INCOMPATIBLE_PROTOCOL {
        Err(SdkError::IncompatibleProtocol)
    } else if code == CE_INVALID_ARGUMENTS {
        Err(SdkError::InvalidArguments)
    } else if code == CE_INVALID_OPERATION {
        Err(SdkError::InvalidOperation)
    } else if code == CE_DEVICE_NOT_FOUND {
        Err(SdkError::DeviceNotFound)
    } else if code == CE_NOT_ALLOWED {
        Err(SdkError::NotAllowed)
    } else {
        Err(SdkError::Unknown(code))
    }
}

/// Convert a raw result code into a `Result`.
pub fn check(code: u32) -> (res: Result<(), SdkError>)
    ensures
        res == spec_check(code),
        res is Ok <==> code == CE_SUCCESS,
        res != Err::<(), SdkError>(SdkError::AlreadySubscribed),
{
    match code {
        0 => Ok(()),
        1 => Err(SdkError::NotConnected),
        2 => Err(SdkError::NoControl),
        3 => Err(SdkError::IncompatibleProtocol),
        4 => Err(SdkError::InvalidArguments),
        5 => Err(SdkError::InvalidOperation),
        6 => Err(SdkError::DeviceNotFound),
        7 => Err(SdkError::NotAllowed),
        other => Err(SdkError::Unknown(other)),
    }
}

} // verus!
