use core_video_rs::cv_pixel_buffer::error::{
    check_status, CVPixelBufferError, ALLOCATION_FAILED, CV_RETURN_SUCCESS, ERROR,
    INVALID_ARGUMENT, RETRY,
};

fn named() -> Vec<(i32, CVPixelBufferError)> {
    vec![
        (-6661, CVPixelBufferError::InvalidArgument),
        (-6662, CVPixelBufferError::AllocationFailed),
        (-6663, CVPixelBufferError::Unsupported),
        (-6670, CVPixelBufferError::InvalidDisplay),
        (-6671, CVPixelBufferError::DisplayLinkAlreadyRunning),
        (-6672, CVPixelBufferError::DisplayLinkNotRunning),
        (-6673, CVPixelBufferError::DisplayLinkCallbacksNotSet),
        (-6680, CVPixelBufferError::InvalidPixelFormat),
        (-6681, CVPixelBufferError::InvalidSize),
        (-6682, CVPixelBufferError::InvalidPixelBufferAttributes),
        (-6683, CVPixelBufferError::PixelBufferNotOpenGLCompatible),
        (-6684, CVPixelBufferError::PixelBufferNotMetalCompatible),
        (-6689, CVPixelBufferError::WouldExceedAllocationThreshold),
        (-6690, CVPixelBufferError::PoolAllocationFailed),
        (-6691, CVPixelBufferError::InvalidPoolAttributes),
        (-6692, CVPixelBufferError::Retry),
    ]
}

#[test]
fn every_named_status_gives_its_kind() {
    for (status, error) in named() {
        assert_eq!(CVPixelBufferError::from(status), error);
    }
}

#[test]
fn every_named_kind_gives_its_status() {
    for (status, error) in named() {
        assert_eq!(i32::from(error), status);
    }
}

#[test]
fn named_constants_have_their_values() {
    assert_eq!(CV_RETURN_SUCCESS, 0);
    assert_eq!(ERROR, -6660);
    assert_eq!(INVALID_ARGUMENT, -6661);
    assert_eq!(ALLOCATION_FAILED, -6662);
    assert_eq!(RETRY, -6692);
}

#[test]
fn statuses_without_a_kind_are_carried_along() {
    assert_eq!(CVPixelBufferError::from(-6660), CVPixelBufferError::UnknownError(-6660));
    assert_eq!(CVPixelBufferError::from(0), CVPixelBufferError::UnknownError(0));
    assert_eq!(CVPixelBufferError::from(1), CVPixelBufferError::UnknownError(1));
    assert_eq!(CVPixelBufferError::from(-6664), CVPixelBufferError::UnknownError(-6664));
    assert_eq!(CVPixelBufferError::from(-6685), CVPixelBufferError::UnknownError(-6685));
    assert_eq!(CVPixelBufferError::from(-6693), CVPixelBufferError::UnknownError(-6693));
    assert_eq!(CVPixelBufferError::from(i32::MIN), CVPixelBufferError::UnknownError(i32::MIN));
    assert_eq!(CVPixelBufferError::from(i32::MAX), CVPixelBufferError::UnknownError(i32::MAX));
}

#[test]
fn kinds_without_a_status_collapse_to_the_general_error() {
    assert_eq!(i32::from(CVPixelBufferError::BaseAddress), -6660);
    assert_eq!(i32::from(CVPixelBufferError::Lock), -6660);
    assert_eq!(i32::from(CVPixelBufferError::Unlock), -6660);
    assert_eq!(i32::from(CVPixelBufferError::UnknownError(-6660)), -6660);
    assert_eq!(i32::from(CVPixelBufferError::UnknownError(42)), -6660);
    assert_eq!(i32::from(CVPixelBufferError::UnknownError(-6661)), -6660);
}

#[test]
fn round_trips() {
    for (status, error) in named() {
        assert_eq!(i32::from(CVPixelBufferError::from(status)), status);
        assert_eq!(CVPixelBufferError::from(i32::from(error.clone())), error);
    }
    assert_eq!(i32::from(CVPixelBufferError::from(5)), -6660);
    assert_eq!(
        CVPixelBufferError::from(i32::from(CVPixelBufferError::BaseAddress)),
        CVPixelBufferError::UnknownError(-6660)
    );
    assert_eq!(
        CVPixelBufferError::from(i32::from(CVPixelBufferError::UnknownError(-6660))),
        CVPixelBufferError::UnknownError(-6660)
    );
}

#[test]
fn only_zero_is_success() {
    assert_eq!(check_status(0), Ok(()));
    assert_eq!(check_status(-6662), Err(CVPixelBufferError::AllocationFailed));
    assert_eq!(check_status(-6682), Err(CVPixelBufferError::InvalidPixelBufferAttributes));
    assert_eq!(check_status(-6660), Err(CVPixelBufferError::UnknownError(-6660)));
    assert_eq!(check_status(1), Err(CVPixelBufferError::UnknownError(1)));
    assert_eq!(check_status(-1), Err(CVPixelBufferError::UnknownError(-1)));
}

#[test]
fn a_copy_of_an_error_equals_it() {
    let error = CVPixelBufferError::UnknownError(77);
    assert_eq!(error.clone(), error);
    assert_ne!(CVPixelBufferError::UnknownError(78), error);
    assert_ne!(CVPixelBufferError::Lock, CVPixelBufferError::Unlock);
}
