//! The closed error taxonomy of the bridge and how it maps to and from the
//! status codes of the foreign runtime.

use vstd::prelude::*;

verus! {

/// The status with which every foreign entry point reports success.
pub const CV_RETURN_SUCCESS: i32 = 0;

/// An unspecified failure. It has no named kind of its own.
pub const ERROR: i32 = -6660;

pub const INVALID_ARGUMENT: i32 = -6661;

pub const ALLOCATION_FAILED: i32 = -6662;

pub const UNSUPPORTED: i32 = -6663;

pub const INVALID_DISPLAY: i32 = -6670;

pub const DISPLAYLINK_ALREADY_RUNNING: i32 = -6671;

pub const DISPLAYLINK_NOT_RUNNING: i32 = -6672;

pub const DISPLAYLINK_CALLBACKS_NOT_SET: i32 = -6673;

pub const INVALID_PIXEL_FORMAT: i32 = -6680;

pub const INVALID_SIZE: i32 = -6681;

pub const INVALID_PIXEL_BUFFER_ATTRIBUTES: i32 = -6682;

pub const PIXEL_BUFFER_NOT_OPENGL_COMPATIBLE: i32 = -6683;

pub const PIXEL_BUFFER_NOT_METAL_COMPATIBLE: i32 = -6684;

pub const WOULD_EXCEED_ALLOCATION_THRESHOLD: i32 = -6689;

pub const POOL_ALLOCATION_FAILED: i32 = -6690;

pub const INVALID_POOL_ATTRIBUTES: i32 = -6691;

pub const RETRY: i32 = -6692;

/// Everything that an operation of the bridge can fail with.
#[derive(Debug, PartialEq, Eq, Structural)]
pub enum CVPixelBufferError {
    /// Invalid function parameter, out of range or of the wrong type.
    InvalidArgument,
    /// Memory allocation for a buffer or buffer pool failed.
    AllocationFailed,
    /// The requested operation is not supported by the buffer.
    Unsupported,
    /// The display specified when creating a display link is invalid.
    InvalidDisplay,
    /// The specified display link is already running.
    DisplayLinkAlreadyRunning,
    /// The specified display link is not running.
    DisplayLinkNotRunning,
    /// No callback is registered for the specified display link.
    DisplayLinkCallbacksNotSet,
    /// The buffer does not support the specified pixel format.
    InvalidPixelFormat,
    /// The buffer cannot support the requested size.
    InvalidSize,
    /// A buffer cannot be created with the specified attributes.
    InvalidPixelBufferAttributes,
    /// The pixel buffer is not compatible with OpenGL.
    PixelBufferNotOpenGLCompatible,
    /// The pixel buffer is not compatible with Metal.
    PixelBufferNotMetalCompatible,
    /// The allocation would surpass the threshold set for the pool.
    WouldExceedAllocationThreshold,
    /// Allocation for a buffer pool failed.
    PoolAllocationFailed,
    /// A buffer pool cannot be created with the specified attributes.
    InvalidPoolAttributes,
    /// A scan of the pool was cut short by a concurrent operation; the caller may try again.
    Retry,
    /// The base address of a locked buffer could not be resolved.
    BaseAddress,
    /// The base address of a buffer could not be locked.
    Lock,
    /// The base address of a buffer could not be unlocked.
    Unlock,
    /// A status without a named kind, kept for diagnosis.
    UnknownError(i32),
}

/// The error that a status of the foreign runtime stands for. Each of the sixteen
/// named codes gives its kind; every other status, zero and `ERROR` among them,
/// is carried along unchanged as `UnknownError`.
pub open spec fn error_of_status(status: i32) -> CVPixelBufferError {
    if status == INVALID_ARGUMENT {
        CVPixelBufferError::InvalidArgument
    } else if status == ALLOCATION_FAILED {
        CVPixelBufferError::AllocationFailed
    } else if status == UNSUPPORTED {
        CVPixelBufferError::Unsupported
    } else if status == INVALID_DISPLAY {
        CVPixelBufferError::InvalidDisplay
    } else if status == DISPLAYLINK_ALREADY_RUNNING {
        CVPixelBufferError::DisplayLinkAlreadyRunning
    } else if status == DISPLAYLINK_NOT_RUNNING {
        CVPixelBufferError::DisplayLinkNotRunning
    } else if status == DISPLAYLINK_CALLBACKS_NOT_SET {
        CVPixelBufferError::DisplayLinkCallbacksNotSet
    } else if status == INVALID_PIXEL_FORMAT {
        CVPixelBufferError::InvalidPixelFormat
    } else if status == INVALID_SIZE {
        CVPixelBufferError::InvalidSize
    } else if status == INVALID_PIXEL_BUFFER_ATTRIBUTES {
        CVPixelBufferError::InvalidPixelBufferAttributes
    } else if status == PIXEL_BUFFER_NOT_OPENGL_COMPATIBLE {
        CVPixelBufferError::PixelBufferNotOpenGLCompatible
    } else if status == PIXEL_BUFFER_NOT_METAL_COMPATIBLE {
        CVPixelBufferError::PixelBufferNotMetalCompatible
    } else if status == WOULD_EXCEED_ALLOCATION_THRESHOLD {
        CVPixelBufferError::WouldExceedAllocationThreshold
    } else if status == POOL_ALLOCATION_FAILED {
        CVPixelBufferError::PoolAllocationFailed
    } else if status == INVALID_POOL_ATTRIBUTES {
        CVPixelBufferError::InvalidPoolAttributes
    } else if status == RETRY {
        CVPixelBufferError::Retry
    } else {
        CVPixelBufferError::UnknownError(status)
    }
}

/// The status that an error is reported with. The kinds that the foreign runtime
/// has no code for (`BaseAddress`, `Lock`, `Unlock`) and every `UnknownError`
/// collapse to `ERROR`.
pub open spec fn status_of_error(error: CVPixelBufferError) -> i32 {
    match error {
        CVPixelBufferError::InvalidArgument => INVALID_ARGUMENT,
        CVPixelBufferError::AllocationFailed => ALLOCATION_FAILED,
        CVPixelBufferError::Unsupported => UNSUPPORTED,
        CVPixelBufferError::InvalidDisplay => INVALID_DISPLAY,
        CVPixelBufferError::DisplayLinkAlreadyRunning => DISPLAYLINK_ALREADY_RUNNING,
        CVPixelBufferError::DisplayLinkNotRunning => DISPLAYLINK_NOT_RUNNING,
        CVPixelBufferError::DisplayLinkCallbacksNotSet => DISPLAYLINK_CALLBACKS_NOT_SET,
        CVPixelBufferError::InvalidPixelFormat => INVALID_PIXEL_FORMAT,
        CVPixelBufferError::InvalidSize => INVALID_SIZE,
        CVPixelBufferError::InvalidPixelBufferAttributes => INVALID_PIXEL_BUFFER_ATTRIBUTES,
        CVPixelBufferError::PixelBufferNotOpenGLCompatible => PIXEL_BUFFER_NOT_OPENGL_COMPATIBLE,
        CVPixelBufferError::PixelBufferNotMetalCompatible => PIXEL_BUFFER_NOT_METAL_COMPATIBLE,
        CVPixelBufferError::WouldExceedAllocationThreshold => WOULD_EXCEED_ALLOCATION_THRESHOLD,
        CVPixelBufferError::PoolAllocationFailed => POOL_ALLOCATION_FAILED,
        CVPixelBufferError::InvalidPoolAttributes => INVALID_POOL_ATTRIBUTES,
        CVPixelBufferError::Retry => RETRY,
        CVPixelBufferError::BaseAddress => ERROR,
        CVPixelBufferError::Lock => ERROR,
        CVPixelBufferError::Unlock => ERROR,
        CVPixelBufferError::UnknownError(_) => ERROR,
    }
}

/// Whether a status is one of the sixteen codes that have a named kind.
pub open spec fn is_named_status(status: i32) -> bool {
    error_of_status(status) != CVPixelBufferError::UnknownError(status)
}

/// What a foreign entry point's status means for the call that got it: success
/// for zero, the error that it stands for for everything else.
pub open spec fn outcome_of_status(status: i32) -> Result<(), CVPixelBufferError> {
    if status == CV_RETURN_SUCCESS {
        Ok(())
    } else {
        Err(error_of_status(status))
    }
}

impl Clone for CVPixelBufferError {
    fn clone(&self) -> (copy: Self)
        ensures
            copy == *self,
    {
        match self {
            CVPixelBufferError::InvalidArgument => CVPixelBufferError::InvalidArgument,
            CVPixelBufferError::AllocationFailed => CVPixelBufferError::AllocationFailed,
            CVPixelBufferError::Unsupported => CVPixelBufferError::Unsupported,
            CVPixelBufferError::InvalidDisplay => CVPixelBufferError::InvalidDisplay,
            CVPixelBufferError::DisplayLinkAlreadyRunning => {
                CVPixelBufferError::DisplayLinkAlreadyRunning
            },
            CVPixelBufferError::DisplayLinkNotRunning => CVPixelBufferError::DisplayLinkNotRunning,
            CVPixelBufferError::DisplayLinkCallbacksNotSet => {
                CVPixelBufferError::DisplayLinkCallbacksNotSet
            },
            CVPixelBufferError::InvalidPixelFormat => CVPixelBufferError::InvalidPixelFormat,
            CVPixelBufferError::InvalidSize => CVPixelBufferError::InvalidSize,
            CVPixelBufferError::InvalidPixelBufferAttributes => {
                CVPixelBufferError::InvalidPixelBufferAttributes
            },
            CVPixelBufferError::PixelBufferNotOpenGLCompatible => {
                CVPixelBufferError::PixelBufferNotOpenGLCompatible
            },
            CVPixelBufferError::PixelBufferNotMetalCompatible => {
                CVPixelBufferError::PixelBufferNotMetalCompatible
            },
            CVPixelBufferError::WouldExceedAllocationThreshold => {
                CVPixelBufferError::WouldExceedAllocationThreshold
            },
            CVPixelBufferError::PoolAllocationFailed => CVPixelBufferError::PoolAllocationFailed,
            CVPixelBufferError::InvalidPoolAttributes => CVPixelBufferError::InvalidPoolAttributes,
            CVPixelBufferError::Retry => CVPixelBufferError::Retry,
            CVPixelBufferError::BaseAddress => CVPixelBufferError::BaseAddress,
            CVPixelBufferError::Lock => CVPixelBufferError::Lock,
            CVPixelBufferError::Unlock => CVPixelBufferError::Unlock,
            CVPixelBufferError::UnknownError(status) => CVPixelBufferError::UnknownError(*status),
        }
    }
}

impl From<i32> for CVPixelBufferError {
    fn from(value: i32) -> (error: Self)
    {
        if value == INVALID_ARGUMENT {
            CVPixelBufferError::InvalidArgument
        } else if value == ALLOCATION_FAILED {
            CVPixelBufferError::AllocationFailed
        } else if value == UNSUPPORTED {
            CVPixelBufferError::Unsupported
        } else if value == INVALID_DISPLAY {
            CVPixelBufferError::InvalidDisplay
        } else if value == DISPLAYLINK_ALREADY_RUNNING {
            CVPixelBufferError::DisplayLinkAlreadyRunning
        } else if value == DISPLAYLINK_NOT_RUNNING {
            CVPixelBufferError::DisplayLinkNotRunning
        } else if value == DISPLAYLINK_CALLBACKS_NOT_SET {
            CVPixelBufferError::DisplayLinkCallbacksNotSet
        } else if value == INVALID_PIXEL_FORMAT {
            CVPixelBufferError::InvalidPixelFormat
        } else if value == INVALID_SIZE {
            CVPixelBufferError::InvalidSize
        } else if value == INVALID_PIXEL_BUFFER_ATTRIBUTES {
            CVPixelBufferError::InvalidPixelBufferAttributes
        } else if value == PIXEL_BUFFER_NOT_OPENGL_COMPATIBLE {
            CVPixelBufferError::PixelBufferNotOpenGLCompatible
        } else if value == PIXEL_BUFFER_NOT_METAL_COMPATIBLE {
            CVPixelBufferError::PixelBufferNotMetalCompatible
        } else if value == WOULD_EXCEED_ALLOCATION_THRESHOLD {
            CVPixelBufferError::WouldExceedAllocationThreshold
        } else if value == POOL_ALLOCATION_FAILED {
            CVPixelBufferError::PoolAllocationFailed
        } else if value == INVALID_POOL_ATTRIBUTES {
            CVPixelBufferError::InvalidPoolAttributes
        } else if value == RETRY {
            CVPixelBufferError::Retry
        } else {
            CVPixelBufferError::UnknownError(value)
        }
    }
}

impl vstd::std_specs::convert::FromSpecImpl<i32> for CVPixelBufferError {
    open spec fn obeys_from_spec() -> bool {
        true
    }

    open spec fn from_spec(value: i32) -> Self {
        error_of_status(value)
    }
}

impl From<CVPixelBufferError> for i32 {
    fn from(value: CVPixelBufferError) -> (status: Self)
    {
        match value {
            CVPixelBufferError::InvalidArgument => INVALID_ARGUMENT,
            CVPixelBufferError::AllocationFailed => ALLOCATION_FAILED,
            CVPixelBufferError::Unsupported => UNSUPPORTED,
            CVPixelBufferError::InvalidDisplay => INVALID_DISPLAY,
            CVPixelBufferError::DisplayLinkAlreadyRunning => DISPLAYLINK_ALREADY_RUNNING,
            CVPixelBufferError::DisplayLinkNotRunning => DISPLAYLINK_NOT_RUNNING,
            CVPixelBufferError::DisplayLinkCallbacksNotSet => DISPLAYLINK_CALLBACKS_NOT_SET,
            CVPixelBufferError::InvalidPixelFormat => INVALID_PIXEL_FORMAT,
            CVPixelBufferError::InvalidSize => INVALID_SIZE,
            CVPixelBufferError::InvalidPixelBufferAttributes => INVALID_PIXEL_BUFFER_ATTRIBUTES,
            CVPixelBufferError::PixelBufferNotOpenGLCompatible => PIXEL_BUFFER_NOT_OPENGL_COMPATIBLE,
            CVPixelBufferError::PixelBufferNotMetalCompatible => PIXEL_BUFFER_NOT_METAL_COMPATIBLE,
            CVPixelBufferError::WouldExceedAllocationThreshold => WOULD_EXCEED_ALLOCATION_THRESHOLD,
            CVPixelBufferError::PoolAllocationFailed => POOL_ALLOCATION_FAILED,
            CVPixelBufferError::InvalidPoolAttributes => INVALID_POOL_ATTRIBUTES,
            CVPixelBufferError::Retry => RETRY,
            _ => ERROR,
        }
    }
}

impl vstd::std_specs::convert::FromSpecImpl<CVPixelBufferError> for i32 {
    open spec fn obeys_from_spec() -> bool {
        true
    }

    open spec fn from_spec(value: CVPixelBufferError) -> Self {
        status_of_error(value)
    }
}

/// Reads the status that a foreign entry point returned: `Ok` exactly for
/// `CV_RETURN_SUCCESS`, and otherwise the error that the status stands for.
pub fn check_status(status: i32) -> (outcome: Result<(), CVPixelBufferError>)
    ensures
        outcome == outcome_of_status(status),
{
    if status == CV_RETURN_SUCCESS {
        Ok(())
    } else {
        Err(CVPixelBufferError::from(status))
    }
}

/// A status survives the trip through its error and back exactly when it is one
/// of the sixteen named codes or `ERROR`; every other status comes back as `ERROR`.
pub proof fn lemma_status_round_trip(status: i32)
    ensures
        status_of_error(error_of_status(status)) == (if is_named_status(status) {
            status
        } else {
            ERROR
        }),
        is_named_status(status) ==> status != ERROR && status != CV_RETURN_SUCCESS,
{
}

/// An error survives the trip through its status and back exactly when the
/// foreign runtime has a code for it: the sixteen named kinds and
/// `UnknownError(ERROR)`. Every other error comes back as `UnknownError(ERROR)`.
pub proof fn lemma_error_round_trip(error: CVPixelBufferError)
    ensures
        error_of_status(status_of_error(error)) == (if is_named_status(status_of_error(error))
            || error == CVPixelBufferError::UnknownError(ERROR) {
            error
        } else {
            CVPixelBufferError::UnknownError(ERROR)
        }),
        is_named_status(status_of_error(error)) <==> !(error is BaseAddress || error is Lock
            || error is Unlock || error is UnknownError),
{
}

/// The mapping never yields one of the kinds that only this layer raises, and
/// distinct statuses never collapse into one error.
pub proof fn lemma_error_of_status_injective(first: i32, second: i32)
    ensures
        error_of_status(first) == error_of_status(second) ==> first == second,
        !(error_of_status(first) is BaseAddress),
        !(error_of_status(first) is Lock),
        !(error_of_status(first) is Unlock),
{
}

} // verus!
