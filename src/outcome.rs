//! What the operating system answered to a create, open or register request,
//! turned into the library's own results.
use vstd::prelude::*;

verus! {

/// The HRESULT that a Win32 error code is reported as: zero stays zero, any
/// other code keeps its low 16 bits under the Win32 facility with the failure bit set.
pub open spec fn win32_hresult(code: u32) -> i32 {
    if code == 0 {
        0i32
    } else {
        ((code & 0xFFFFu32) | 0x8007_0000u32) as i32
    }
}

/// Relies on `WIN32_ERROR::to_hresult`: the Win32 facility encoding of a code.
#[verifier::external_body]
fn to_hresult(code: u32) -> (r: i32)
    ensures
        r == win32_hresult(code),
{
    windows::Win32::Foundation::WIN32_ERROR(code).to_hresult().0
}

/// Win32 code for a name that no object answers to.
pub const ERROR_FILE_NOT_FOUND: u32 = 2;

/// Win32 code for an object that exists but refuses the requested access.
pub const ERROR_ACCESS_DENIED: u32 = 5;

/// Win32 code left behind by a create request that found the object already there.
pub const ERROR_ALREADY_EXISTS: u32 = 183;

/// Why a named object could not be opened.
#[derive(Debug, Clone, Copy, PartialEq, Eq, Structural)]
pub enum OpenError {
    /// No object of that name exists.
    NotFound,
    /// The object exists but may not be accessed.
    PermissionDenied,
    /// The name cannot be handed to the operating system.
    InvalidName,
    /// Any other refusal, with its HRESULT.
    Os(i32),
}

/// Why a named object could not be created.
#[derive(Debug, Clone, Copy, PartialEq, Eq, Structural)]
pub enum CreationError {
    /// The name cannot be handed to the operating system.
    InvalidName,
    /// The operating system refused, with its HRESULT.
    Os(i32),
}

/// How a successful create request came about.
#[derive(Debug, Clone, Copy, PartialEq, Eq, Structural)]
pub enum Creation {
    /// The object was made by this request.
    Created,
    /// An object of that name was already there and is now shared.
    AlreadyExisted,
}

/// What the last-error value left by a successful create request reports.
pub open spec fn creation_spec(last_error: u32) -> Creation {
    if last_error == ERROR_ALREADY_EXISTS {
        Creation::AlreadyExisted
    } else {
        Creation::Created
    }
}

/// Reads the last-error value left by a successful create request.
pub fn creation_of(last_error: u32) -> (r: Creation)
    ensures
        r == creation_spec(last_error),
{
    if last_error == ERROR_ALREADY_EXISTS {
        Creation::AlreadyExisted
    } else {
        Creation::Created
    }
}

/// The open error that an HRESULT stands for.
pub open spec fn open_error_spec(code: i32) -> OpenError {
    if code == win32_hresult(ERROR_FILE_NOT_FOUND) {
        OpenError::NotFound
    } else if code == win32_hresult(ERROR_ACCESS_DENIED) {
        OpenError::PermissionDenied
    } else {
        OpenError::Os(code)
    }
}

/// Classifies the HRESULT of a failed open request.
pub fn open_error_of(code: i32) -> (r: OpenError)
    ensures
        r == open_error_spec(code),
{
    if code == to_hresult(ERROR_FILE_NOT_FOUND) {
        OpenError::NotFound
    } else if code == to_hresult(ERROR_ACCESS_DENIED) {
        OpenError::PermissionDenied
    } else {
        OpenError::Os(code)
    }
}

} // verus!
