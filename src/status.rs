//! NT status codes used by the driver.
use vstd::prelude::*;

verus! {

/// The request or operation succeeded.
pub const STATUS_SUCCESS: i32 = 0;

/// The request has not been completed yet (`0x00000103`).
pub const STATUS_PENDING: i32 = 259;

/// The operation failed for an unspecified reason (`0xC0000001`).
pub const STATUS_UNSUCCESSFUL: i32 = -1073741823;

/// The request is not valid for the target device (`0xC0000010`).
pub const STATUS_INVALID_DEVICE_REQUEST: i32 = -1073741808;

/// No object of the given name exists (`0xC0000034`).
pub const STATUS_OBJECT_NAME_NOT_FOUND: i32 = -1073741772;

/// An object of the given name already exists (`0xC0000035`).
pub const STATUS_OBJECT_NAME_COLLISION: i32 = -1073741771;

/// Whether a status denotes success: success and informational codes are
/// non-negative.
pub open spec fn is_success(status: i32) -> bool {
    status >= 0
}

/// Executable form of [`is_success`].
pub fn nt_success(status: i32) -> (r: bool)
    ensures
        r == is_success(status),
{
    status >= 0
}

} // verus!
