use core_utils_rs::four_char_code::FourCharCode;
use core_video_rs::cv_pixel_buffer::attributes::{
    AttributeKey, AttributeValue, PixelBufferAttribute, PixelBufferAttributes,
};
use core_video_rs::cv_pixel_buffer::create::{CreateCall, CreateReply, Surface};
use core_video_rs::cv_pixel_buffer::error::{CVPixelBufferError, CV_RETURN_SUCCESS};
use core_video_rs::cv_pixel_buffer::planar_data::PlanarDataPointer;
use core_video_rs::cv_pixel_buffer::release::ReleaseState;
use core_video_rs::cv_pixel_buffer::CVPixelBuffer;
use core_video_rs::cv_pixel_buffer_planar_data::{CVPixelBufferPlanarDataPointer, PlaneAddress};

const WIDTH: usize = 100;
const BYTE_PER_ROW: usize = 100 * 4;
const HEIGHT: usize = 100;
const SIZE: usize = WIDTH * HEIGHT * 4;
const PIXEL_VALUE: u8 = 0xF2;

/// Stands in for the foreign constructor: grants every call, with rows of four
/// bytes for each pixel unless the call brings its own stride.
fn granted(call: &CreateCall) -> CreateReply {
    let bytes_per_row = match call {
        CreateCall::Create { width, .. } => width * 4,
        CreateCall::WithBytes { bytes_per_row, .. } => *bytes_per_row,
        CreateCall::WithPlanarBytes { width, .. } => width * 4,
        CreateCall::WithIOSurface { surface, .. } => surface.width * 4,
    };
    CreateReply { status: CV_RETURN_SUCCESS, buffer: 0x7000_1000, bytes_per_row }
}

#[derive(Debug)]
struct TestMoveStruct {
    var1: u32,
}

#[test]
fn test_is_planar() -> Result<(), CVPixelBufferError> {
    let creation = CVPixelBuffer::create(
        WIDTH,
        HEIGHT,
        FourCharCode::from_str("BGRA").unwrap(),
        PixelBufferAttributes::default(),
    );
    let reply = granted(creation.call());
    let pixel_buffer = creation.finish(reply)?;

    assert!(!pixel_buffer.is_planar());

    let data = vec![PIXEL_VALUE; SIZE];
    let base_address = data.clone();
    let mut creation = CVPixelBuffer::create_with_planar_bytes(
        WIDTH,
        HEIGHT,
        FourCharCode::from_str("BGRA").unwrap(),
        PlanarDataPointer::new(
            Some(data),
            vec![BYTE_PER_ROW, BYTE_PER_ROW],
            vec![WIDTH, WIDTH],
            vec![HEIGHT, HEIGHT],
            vec![base_address.clone(), base_address],
        ),
        PixelBufferAttributes::default(),
    )?;
    let reply = granted(creation.call());
    let pixel_buffer = creation.finish(reply)?;
    assert!(pixel_buffer.is_planar());
    Ok(())
}

#[test]
fn cv_pixel_buffer_test_create_with_io_surface() -> Result<(), CVPixelBufferError> {
    let io_surface = Surface {
        address: 0x5000_0000,
        width: WIDTH,
        height: HEIGHT,
        pixel_format: FourCharCode::from_str("BGRA").unwrap().as_u32(),
    };
    let creation =
        CVPixelBuffer::create_with_io_surface(&io_surface, PixelBufferAttributes::default());
    match creation.call() {
        CreateCall::WithIOSurface { surface, attributes } => {
            assert_eq!(*surface, io_surface);
            assert!(attributes.is_empty());
        }
        other => panic!("not a surface call: {:?}", other),
    }
    let reply = granted(creation.call());
    let pixel_buffer = creation.finish(reply)?;

    assert_eq!(pixel_buffer.get_width(), WIDTH);
    assert_eq!(pixel_buffer.get_height(), HEIGHT);
    Ok(())
}

#[test]
fn cv_pixel_buffer_test_create() -> Result<(), CVPixelBufferError> {
    let creation = CVPixelBuffer::create(
        WIDTH,
        HEIGHT,
        FourCharCode::from_str("BGRA").unwrap(),
        PixelBufferAttributes::default(),
    );
    let reply = granted(creation.call());
    let pixel_buffer = creation.finish(reply)?;
    assert_eq!(pixel_buffer.get_width(), WIDTH);
    assert_eq!(pixel_buffer.get_height(), HEIGHT);
    Ok(())
}

#[test]
fn cv_pixel_buffer_test_create_with_planar_bytes_and_released() -> Result<(), CVPixelBufferError>
{
    let data = vec![PIXEL_VALUE; SIZE];
    let base_address = PlaneAddress::new(data.as_ptr() as usize, data.len()).unwrap();
    let expected_data = data.clone();
    let b = TestMoveStruct { var1: 33 };
    let mut creation = CVPixelBuffer::create_with_planar_bytes_and_release_callback(
        WIDTH,
        HEIGHT,
        FourCharCode::from_str("BGRA").unwrap(),
        CVPixelBufferPlanarDataPointer::new(
            Some(data),
            vec![BYTE_PER_ROW, BYTE_PER_ROW],
            vec![WIDTH, WIDTH],
            vec![HEIGHT, HEIGHT],
            vec![base_address, base_address],
        ),
        move |refcon, data, size, num, base| {
            println!(
                "Release callback called:{:?} {:?} {:?} {:?} ",
                b, refcon, size, num
            );
            assert_eq!(size, SIZE);
            assert_eq!(num, 2);
            assert_eq!(data.unwrap(), expected_data);
            assert_eq!(base.len(), 2);
        },
        (),
        PixelBufferAttributes::default(),
    )?;
    let reply = granted(creation.call());
    let pixel_buffer = creation.finish(reply)?;
    assert_eq!(pixel_buffer.get_width(), WIDTH);
    assert_eq!(pixel_buffer.get_height(), HEIGHT);

    // The foreign runtime lets go of the buffer once its last handle is gone.
    drop(pixel_buffer);
    assert!(creation.fire());
    assert_eq!(creation.release_state(), ReleaseState::Fired);
    Ok(())
}

#[test]
fn cv_pixel_buffer_test_create_with_bytes_and_release() -> Result<(), CVPixelBufferError> {
    let move_into_closure = vec![1, 2, 3];
    let mut creation = CVPixelBuffer::create_with_bytes_with_release(
        WIDTH,
        HEIGHT,
        FourCharCode::from_str("BGRA").unwrap(),
        vec![PIXEL_VALUE; SIZE],
        BYTE_PER_ROW,
        move |refcon: i32, address: Vec<u8>| {
            println!(
                "Release callback called:{:?} {:?} {:p}",
                move_into_closure, refcon, &address
            );
            assert_eq!(refcon, 32);
            assert_eq!(address, vec![PIXEL_VALUE; SIZE]);
        },
        32,
        PixelBufferAttributes::default(),
    )?;
    let reply = granted(creation.call());
    let pixel_buffer = creation.finish(reply)?;
    assert_eq!(pixel_buffer.get_width(), WIDTH);
    assert_eq!(pixel_buffer.get_height(), HEIGHT);

    // The foreign runtime lets go of the buffer once its last handle is gone.
    drop(pixel_buffer);
    assert!(creation.fire());
    Ok(())
}

#[test]
fn test_create_with_bytes() -> Result<(), CVPixelBufferError> {
    // Create pixel buffer attributes
    let pixel_buffer_attributes = PixelBufferAttributes::new(&[
        PixelBufferAttribute::Width(WIDTH),
        PixelBufferAttribute::Height(HEIGHT),
    ]);
    let mut creation = CVPixelBuffer::create_with_bytes(
        WIDTH,
        HEIGHT,
        FourCharCode::from_str("BGRA").unwrap(),
        vec![PIXEL_VALUE; SIZE],
        BYTE_PER_ROW,
        pixel_buffer_attributes,
    )?;
    match creation.call() {
        CreateCall::WithBytes { width, height, pixel_format, bytes_per_row, attributes } => {
            assert_eq!(*width, WIDTH);
            assert_eq!(*height, HEIGHT);
            assert_eq!(*pixel_format, 0x4247_5241);
            assert_eq!(*bytes_per_row, BYTE_PER_ROW);
            assert_eq!(attributes.len(), 2);
            assert_eq!(attributes[0].key, AttributeKey::Width);
            assert!(matches!(attributes[0].value, AttributeValue::Number(100)));
            assert_eq!(attributes[1].key, AttributeKey::Height);
            assert!(matches!(attributes[1].value, AttributeValue::Number(100)));
        }
        other => panic!("not a call with bytes: {:?}", other),
    }
    let reply = granted(creation.call());
    let pixel_buffer = creation.finish(reply)?;

    assert_eq!(pixel_buffer.get_width(), WIDTH);
    assert_eq!(pixel_buffer.get_height(), HEIGHT);
    Ok(())
}
