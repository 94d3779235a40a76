//! Status-code translation: the foreign runtime reports every outcome as a
//! 32-bit status; this module maps statuses and local precondition
//! violations into one typed error.

use vstd::prelude::*;

verus! {

/// The success status.
pub const S_OK: u32 = 0;

/// Status returned when an object does not implement a requested interface.
pub const E_NOINTERFACE: u32 = 0x8000_4002;

/// Status for an invalid argument, such as a null native window identifier.
pub const E_INVALIDARG: u32 = 0x8007_0057;

/// Status for an invalid (null) pointer argument.
pub const E_POINTER: u32 = 0x8000_4003;

/// Unspecified failure.
pub const E_FAIL: u32 = 0x8000_4005;

/// Status returned when the runtime was used before initialization.
pub const CO_E_NOTINITIALIZED: u32 = 0x8004_01F0;

/// Status returned when no activation factory serves a class.
pub const CLASS_E_CLASSNOTAVAILABLE: u32 = 0x8004_0111;

/// Status returned when aggregation is requested but not supported.
pub const CLASS_E_NOAGGREGATION: u32 = 0x8004_0110;

/// One failed outcome of an interop call.
///
/// The first three variants are precondition violations detected locally,
/// before any foreign call is made; `Status` carries a non-zero numeric
/// status reported by the foreign side.
#[derive(Clone, Copy, PartialEq, Eq, Structural, Debug)]
pub enum ComError {
    /// The process-wide runtime initialization call has not been made.
    NotInitialized,
    /// A call was dispatched through a null handle.
    NullHandle,
    /// The surface's native window was requested before a successful attach.
    NotAttached,
    /// A non-zero status code reported by the foreign runtime.
    Status(u32),
}

/// What `check_status` returns: a zero status is success, any other status
/// is a failure carrying that code.
pub open spec fn spec_check_status(code: u32) -> Result<(), ComError> {
    if code == 0 {
        Ok(())
    } else {
        Err(ComError::Status(code))
    }
}

/// Translates a raw foreign status into a result: zero maps to `Ok`, any
/// non-zero status to a failure carrying the numeric code.
pub fn check_status(code: u32) -> (r: Result<(), ComError>)
    ensures
        r == spec_check_status(code),
{
    if code == 0 {
        Ok(())
    } else {
        Err(ComError::Status(code))
    }
}

/// The numeric status that stands for an error when it is reported in the
/// platform's native form: local precondition violations map to the
/// closest canonical status, and a foreign status maps to itself.
pub open spec fn spec_error_status(e: ComError) -> u32 {
    match e {
        ComError::NotInitialized => CO_E_NOTINITIALIZED,
        ComError::NullHandle => E_POINTER,
        ComError::NotAttached => E_FAIL,
        ComError::Status(code) => code,
    }
}

pub fn error_status(e: &ComError) -> (r: u32)
    ensures
        r == spec_error_status(*e),
{
    match e {
        ComError::NotInitialized => CO_E_NOTINITIALIZED,
        ComError::NullHandle => E_POINTER,
        ComError::NotAttached => E_FAIL,
        ComError::Status(code) => *code,
    }
}

} // verus!
