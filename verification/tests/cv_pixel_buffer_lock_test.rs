use core_utils_rs::four_char_code::FourCharCode;
use core_video_rs::cv_pixel_buffer::attributes::PixelBufferAttributes;
use core_video_rs::cv_pixel_buffer::create::CreateReply;
use core_video_rs::cv_pixel_buffer::error::{check_status, CVPixelBufferError, CV_RETURN_SUCCESS};
use core_video_rs::cv_pixel_buffer::lock::{BaseAddressCall, CVPixelBufferLockFlags};
use core_video_rs::cv_pixel_buffer::CVPixelBuffer;

const WIDTH: usize = 10;
const HEIGHT: usize = 10;

#[test]
fn test_create_lock_write() -> Result<(), CVPixelBufferError> {
    let creation = CVPixelBuffer::create(
        WIDTH,
        HEIGHT,
        FourCharCode::from_str("BGRA").unwrap(),
        PixelBufferAttributes::default(),
    );
    // The foreign runtime pads the rows of what it allocates itself.
    let mut pixel_buffer = creation.finish(CreateReply {
        status: CV_RETURN_SUCCESS,
        buffer: 0x7000_2000,
        bytes_per_row: 64,
    })?;
    let mut storage = vec![0u8; pixel_buffer.byte_len()];
    assert_eq!(storage.len(), 640);

    {
        let call = pixel_buffer.internal_lock_base_address(CVPixelBufferLockFlags::ReadWrite);
        assert_eq!(call, BaseAddressCall::Lock { buffer: 0x7000_2000, flags: 0 });
        let mut b = pixel_buffer.lock_mut(CV_RETURN_SUCCESS, Some(&mut storage[..]))?;
        b.fill(123);
        assert_eq!(b.unlock_mut(), BaseAddressCall::Unlock { buffer: 0x7000_2000, flags: 0 });
        check_status(CV_RETURN_SUCCESS)?;
    };
    {
        let call = pixel_buffer.internal_lock_base_address(CVPixelBufferLockFlags::ReadOnly);
        assert_eq!(call, BaseAddressCall::Lock { buffer: 0x7000_2000, flags: 1 });
        let b = pixel_buffer.lock(CV_RETURN_SUCCESS, Some(&storage[..]))?;
        assert_eq!(b.len(), 640);
        for i in 1..b.len() {
            assert_eq!(b[i], 123);
        }
        assert_eq!(b.unlock(), BaseAddressCall::Unlock { buffer: 0x7000_2000, flags: 1 });
        check_status(CV_RETURN_SUCCESS)?;
    };
    Ok(())
}
