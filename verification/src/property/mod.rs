//! Int32 and Boolean property structs, for reading various device properties
//! for devices with property lookup functionality.
pub mod boolean;
pub mod int32;

pub use self::boolean::{BooleanProperty, BooleanPropertyKey};
pub use self::int32::{Int32Property, Int32PropertyKey};

use crate::errors::CueSdkError;
use vstd::prelude::*;

verus! {

/// A property could not be read again; the value is what the service named
/// as the cause.
#[derive(Debug, Clone, Copy, PartialEq, Eq)]
pub struct RefreshValueError(pub Option<CueSdkError>);

} // verus!
