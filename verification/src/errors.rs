//! The errors that the index-based calls of the service report. The codes
//! are those of the index-based interface; the session-based interface has
//! its own, in `error`.
use vstd::prelude::*;

verus! {

/// Errors received from the iCUE SDK directly.
#[derive(Debug, Copy, Clone, PartialEq, Eq)]
pub enum CueSdkError {
    ServerNotFound,
    NoControl,
    ProtocolHandshakeMissing,
    IncompatibleProtocol,
    InvalidArguments,
}

impl CueSdkError {
    /// The native code of this error.
    pub open spec fn spec_to_u32(self) -> u32 {
        match self {
            CueSdkError::ServerNotFound => 1,
            CueSdkError::NoControl => 2,
            CueSdkError::ProtocolHandshakeMissing => 3,
            CueSdkError::IncompatibleProtocol => 4,
            CueSdkError::InvalidArguments => 5,
        }
    }

    /// The error with the given native code, if there is one.
    pub open spec fn spec_from_u32(code: u32) -> Option<Self> {
        if code == 1 {
            Some(CueSdkError::ServerNotFound)
        } else if code == 2 {
            Some(CueSdkError::NoControl)
        } else if code == 3 {
            Some(CueSdkError::ProtocolHandshakeMissing)
        } else if code == 4 {
            Some(CueSdkError::IncompatibleProtocol)
        } else if code == 5 {
            Some(CueSdkError::InvalidArguments)
        } else {
            None
        }
    }

    /// The native code of this error.
    pub fn to_u32(self) -> (code: u32)
        ensures
            code == self.spec_to_u32(),
            Self::spec_from_u32(code) == Some(self),
    {
        match self {
            CueSdkError::ServerNotFound => 1,
            CueSdkError::NoControl => 2,
            CueSdkError::ProtocolHandshakeMissing => 3,
            CueSdkError::IncompatibleProtocol => 4,
            CueSdkError::InvalidArguments => 5,
        }
    }

    /// The error with the given native code; `None` for a code that names
    /// no error.
    pub fn from_u32(code: u32) -> (res: Option<Self>)
        ensures
            res == Self::spec_from_u32(code),
            res matches Some(v) ==> v.spec_to_u32() == code,
    {
        match code {
            1 => Some(CueSdkError::ServerNotFound),
            2 => Some(CueSdkError::NoControl),
            3 => Some(CueSdkError::ProtocolHandshakeMissing),
            4 => Some(CueSdkError::IncompatibleProtocol),
            5 => Some(CueSdkError::InvalidArguments),
            _ => None,
        }
    }
}

/// Reads the code that the service keeps for its last failed call. It is an
/// option because the service can report a failure and then name no error
/// for it, or name one that is not known here.
pub fn get_last_error(code: u32) -> (error: Option<CueSdkError>)
    ensures
        error == CueSdkError::spec_from_u32(code),
        error is Some <==> 1 <= code <= 5,
{
    CueSdkError::from_u32(code)
}

/// A common `Result` type: the data defaults to unit, and the error is an
/// `Option<CueSdkError>`.
pub type CueSdkErrorResult<T = ()> = Result<T, Option<CueSdkError>>;

} // verus!
