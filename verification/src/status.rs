//! Result codes of the graphics API and what they mean for a frame.

use vstd::prelude::*;

verus! {

/// The call succeeded.
pub const SUCCESS: i32 = 0;

/// A fence or query has not completed yet.
pub const NOT_READY: i32 = 1;

/// A wait ran out of time.
pub const TIMEOUT: i32 = 2;

/// The swapchain still presents but no longer matches the surface.
pub const SUBOPTIMAL: i32 = 1_000_001_003;

/// Host memory is exhausted.
pub const ERROR_OUT_OF_HOST_MEMORY: i32 = -1;

/// Device memory is exhausted.
pub const ERROR_OUT_OF_DEVICE_MEMORY: i32 = -2;

/// An object could not be initialised.
pub const ERROR_INITIALIZATION_FAILED: i32 = -3;

/// The logical device was lost.
pub const ERROR_DEVICE_LOST: i32 = -4;

/// The driver does not offer the API version asked for.
pub const ERROR_INCOMPATIBLE_DRIVER: i32 = -9;

/// The swapchain no longer matches the surface and cannot present.
pub const ERROR_OUT_OF_DATE: i32 = -1_000_001_004;

/// The class of a failure that ends rendering.
#[derive(Clone, Copy, Debug, PartialEq, Eq, Structural)]
pub enum ErrorKind {
    /// No usable device, or the API version is not offered.
    InitializationError,
    /// The device is gone, or stopped answering.
    DeviceLost,
    /// An allocation failed.
    ResourceExhaustion,
}

/// What a result code means.
#[derive(Clone, Copy, Debug, PartialEq, Eq, Structural)]
pub enum Status {
    /// The call did what was asked.
    Success,
    /// The swapchain must be recreated before anything else is presented.
    Stale,
    /// Rendering cannot go on.
    Fatal(ErrorKind),
}

/// The meaning of a result code: zero is success; the suboptimal and
/// out-of-date codes ask for recreation; the two out-of-memory codes are
/// exhaustion; a failed initialisation or an incompatible driver is an
/// initialisation error; every other code, a timeout among them, counts as
/// the loss of the device.
pub open spec fn status_of(code: i32) -> Status {
    if code == SUCCESS {
        Status::Success
    } else if code == SUBOPTIMAL || code == ERROR_OUT_OF_DATE {
        Status::Stale
    } else if code == ERROR_OUT_OF_HOST_MEMORY || code == ERROR_OUT_OF_DEVICE_MEMORY {
        Status::Fatal(ErrorKind::ResourceExhaustion)
    } else if code == ERROR_INITIALIZATION_FAILED || code == ERROR_INCOMPATIBLE_DRIVER {
        Status::Fatal(ErrorKind::InitializationError)
    } else {
        Status::Fatal(ErrorKind::DeviceLost)
    }
}

/// Classifies a result code.
pub fn classify(code: i32) -> (r: Status)
    ensures
        r == status_of(code),
{
    if code == SUCCESS {
        Status::Success
    } else if code == SUBOPTIMAL || code == ERROR_OUT_OF_DATE {
        Status::Stale
    } else if code == ERROR_OUT_OF_HOST_MEMORY || code == ERROR_OUT_OF_DEVICE_MEMORY {
        Status::Fatal(ErrorKind::ResourceExhaustion)
    } else if code == ERROR_INITIALIZATION_FAILED || code == ERROR_INCOMPATIBLE_DRIVER {
        Status::Fatal(ErrorKind::InitializationError)
    } else {
        Status::Fatal(ErrorKind::DeviceLost)
    }
}

/// The class of a failure while a frame is rendered. A call that failed
/// failed, whatever its code says: exhaustion stays exhaustion, and every
/// other code counts as the loss of the device.
pub open spec fn frame_failure_of(code: i32) -> ErrorKind {
    if code == ERROR_OUT_OF_HOST_MEMORY || code == ERROR_OUT_OF_DEVICE_MEMORY {
        ErrorKind::ResourceExhaustion
    } else {
        ErrorKind::DeviceLost
    }
}

/// The class of a failure while a frame is rendered.
pub fn frame_failure(code: i32) -> (r: ErrorKind)
    ensures
        r == frame_failure_of(code),
{
    if code == ERROR_OUT_OF_HOST_MEMORY || code == ERROR_OUT_OF_DEVICE_MEMORY {
        ErrorKind::ResourceExhaustion
    } else {
        ErrorKind::DeviceLost
    }
}

/// The class of a failure to create or allocate a resource: exhaustion,
/// unless the code says that the device is lost.
pub open spec fn allocation_failure_of(code: i32) -> ErrorKind {
    if code == ERROR_DEVICE_LOST {
        ErrorKind::DeviceLost
    } else {
        ErrorKind::ResourceExhaustion
    }
}

/// The class of a failure to create or allocate a resource.
pub fn allocation_failure(code: i32) -> (r: ErrorKind)
    ensures
        r == allocation_failure_of(code),
{
    if code == ERROR_DEVICE_LOST {
        ErrorKind::DeviceLost
    } else {
        ErrorKind::ResourceExhaustion
    }
}

/// The classes agree on exhaustion: a code that `status_of` reads as
/// exhaustion is exhaustion for a frame and for an allocation too, and an
/// allocation never fails with any class but exhaustion and device loss.
pub proof fn lemma_exhaustion_is_exhaustion(code: i32)
    ensures
        status_of(code) == Status::Fatal(ErrorKind::ResourceExhaustion) ==> frame_failure_of(code)
            == ErrorKind::ResourceExhaustion && allocation_failure_of(code)
            == ErrorKind::ResourceExhaustion,
        allocation_failure_of(code) == ErrorKind::ResourceExhaustion || allocation_failure_of(code)
            == ErrorKind::DeviceLost,
        allocation_failure_of(code) == ErrorKind::DeviceLost ==> status_of(code) == Status::Fatal(
            ErrorKind::DeviceLost,
        ),
{
}

} // verus!
