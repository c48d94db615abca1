use crate::internal::c_utils::{c_string_bytes, decode_utf8_strict, spec_c_string_bytes};
use crate::native::RawCharBuffer;
use vstd::prelude::*;
use vstd::utf8::{decode_utf8, valid_utf8};

verus! {

/// The error that occurs when the service hands over a device identifier that
/// is not valid UTF-8. It holds the decoder's own error.
#[derive(Debug, Clone, PartialEq, Eq)]
pub struct DeviceIdFromFfiError(pub core::str::Utf8Error);

/// The immutable ID of the `CueDevice`.
#[derive(Debug, Clone, PartialEq, Eq)]
pub struct DeviceId(pub String);

impl View for DeviceId {
    type V = Seq<char>;

    open spec fn view(&self) -> Seq<char> {
        self.0@
    }
}

impl DeviceId {
    /// The text of the identifier in a native buffer: the strict decoding of
    /// the C string that the buffer holds, or nothing if that is not
    /// well-formed UTF-8.
    pub open spec fn spec_from_ffi(ffi_id: RawCharBuffer) -> Option<Seq<char>> {
        let bytes = spec_c_string_bytes(ffi_id@);
        if valid_utf8(bytes) {
            Some(decode_utf8(bytes))
        } else {
            None
        }
    }

    /// Reads the identifier out of a native buffer. Identifiers are used for
    /// later lookups, so they are decoded strictly.
    pub fn from_ffi(ffi_id: &RawCharBuffer) -> (res: Result<Self, DeviceIdFromFfiError>)
        ensures
            match res {
                Ok(id) => Self::spec_from_ffi(*ffi_id) == Some(id@),
                Err(_) => Self::spec_from_ffi(*ffi_id) is None,
            },
    {
        let bytes = c_string_bytes(ffi_id.as_slice());
        match decode_utf8_strict(bytes.as_slice()) {
            Ok(text) => Ok(DeviceId(text)),
            Err(error) => Err(DeviceIdFromFfiError(error)),
        }
    }
}

} // verus!
