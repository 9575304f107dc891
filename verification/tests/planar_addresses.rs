use core_utils_rs::four_char_code::FourCharCode;
use core_video_rs::cv_pixel_buffer::attributes::PixelBufferAttributes;
use core_video_rs::cv_pixel_buffer::create::{CreateCall, CreateReply};
use core_video_rs::cv_pixel_buffer::error::CVPixelBufferError;
use core_video_rs::cv_pixel_buffer::release::ReleaseState;
use core_video_rs::cv_pixel_buffer::CVPixelBuffer;
use core_video_rs::cv_pixel_buffer_planar_data::{CVPixelBufferPlanarDataPointer, PlaneAddress};
use std::cell::Cell;
use std::rc::Rc;

fn place(address: usize, len: usize) -> PlaneAddress {
    PlaneAddress::new(address, len).unwrap()
}

#[test]
fn a_plane_is_never_at_the_null_address() {
    assert_eq!(PlaneAddress::new(0, 16), None);
    assert_eq!(PlaneAddress::new(0, 0), None);
    let plane = place(0x1000, 16);
    assert_eq!(plane.address(), 0x1000);
    assert_eq!(plane.len(), 16);
    assert_eq!(place(1, 0).len(), 0);
    assert_eq!(place(usize::MAX, usize::MAX).address(), usize::MAX);
}

#[test]
fn the_parts_of_an_address_descriptor_are_kept_as_given() {
    let descriptor = CVPixelBufferPlanarDataPointer::new(
        Some(vec![5; 24]),
        vec![4, 2],
        vec![4, 2],
        vec![4, 4],
        vec![place(0x1000, 16), place(0x1010, 8)],
    );
    assert_eq!(descriptor.number_of_planes(), 2);
    assert_eq!(descriptor.data_size(), 24);
    assert_eq!(descriptor.as_ptr(), Some(&vec![5; 24]));
    assert_eq!(descriptor.raw_base_addresses(), &vec![place(0x1000, 16), place(0x1010, 8)]);
    assert_eq!(descriptor.plane_bytes_per_row(), &vec![4, 2]);
    assert_eq!(descriptor.plane_width(), &vec![4, 2]);
    assert_eq!(descriptor.plane_height(), &vec![4, 4]);
    assert!(descriptor.has_matching_lists());

    let bare = CVPixelBufferPlanarDataPointer::new(None, vec![], vec![], vec![], vec![]);
    assert_eq!(bare.number_of_planes(), 0);
    assert_eq!(bare.data_size(), 0);
    assert_eq!(bare.as_ptr(), None);
    assert!(bare.has_matching_lists());
}

#[test]
fn an_address_descriptor_with_mismatched_lists_is_refused() {
    let descriptor = CVPixelBufferPlanarDataPointer::new(
        None,
        vec![4, 2],
        vec![4],
        vec![4, 4],
        vec![place(0x1000, 16), place(0x1010, 8)],
    );
    assert!(!descriptor.has_matching_lists());
    let refused = CVPixelBuffer::create_with_planar_bytes_and_release_callback(
        4,
        4,
        FourCharCode::from_str("BGRA").unwrap(),
        descriptor,
        |_: (), _, _, _, _| panic!("released"),
        (),
        PixelBufferAttributes::default(),
    );
    assert_eq!(refused.err(), Some(CVPixelBufferError::InvalidSize));
}

#[test]
fn the_parts_go_back_to_the_callback_one_by_one() {
    let calls = Rc::new(Cell::new(0));
    let seen = Rc::clone(&calls);
    let mut creation = CVPixelBuffer::create_with_planar_bytes_and_release_callback(
        4,
        4,
        FourCharCode::from_str("420v").unwrap(),
        CVPixelBufferPlanarDataPointer::new(
            Some(vec![5; 24]),
            vec![4, 2],
            vec![4, 2],
            vec![4, 4],
            vec![place(0x1000, 16), place(0x1010, 8)],
        ),
        move |context: &str, data: Option<Vec<u8>>, size, planes, places: Vec<PlaneAddress>| {
            assert_eq!(context, "camera");
            assert_eq!(data, Some(vec![5; 24]));
            assert_eq!(size, 24);
            assert_eq!(planes, 2);
            assert_eq!(places, vec![place(0x1000, 16), place(0x1010, 8)]);
            seen.set(seen.get() + 1);
        },
        "camera",
        PixelBufferAttributes::default(),
    )
    .unwrap();
    match creation.call() {
        CreateCall::WithPlanarBytes { data_size, number_of_planes, pixel_format, .. } => {
            assert_eq!(*data_size, 24);
            assert_eq!(*number_of_planes, 2);
            assert_eq!(*pixel_format, 0x3432_3076);
        }
        other => panic!("not a planar call: {:?}", other),
    }
    let buffer = creation
        .finish(CreateReply { status: 0, buffer: 0x9000, bytes_per_row: 4 })
        .unwrap();
    assert!(buffer.is_planar());
    assert!(creation.fire());
    assert!(!creation.fire());
    assert_eq!(calls.get(), 1);
    assert_eq!(creation.release_state(), ReleaseState::Fired);
}

#[test]
fn address_planes_are_counted_by_the_list_whatever_was_recorded() {
    let mut descriptor = CVPixelBufferPlanarDataPointer::new(None, vec![], vec![], vec![], vec![]);
    assert_eq!(descriptor.number_of_planes(), 0);
    descriptor.base_addresses = vec![place(0x2000, 4)];
    descriptor.plane_bytes_per_row = vec![4];
    descriptor.plane_width = vec![4];
    descriptor.plane_height = vec![1];
    assert_eq!(descriptor.number_of_planes(), 1);
    assert!(descriptor.has_matching_lists());

    let seen = Rc::new(Cell::new(0));
    let counted = Rc::clone(&seen);
    let mut creation = CVPixelBuffer::create_with_planar_bytes_and_release_callback(
        4,
        1,
        FourCharCode::from_str("BGRA").unwrap(),
        descriptor,
        move |_: (), _data, _size, planes, places: Vec<PlaneAddress>| {
            assert_eq!(planes, 1);
            assert_eq!(places.len(), 1);
            counted.set(counted.get() + 1);
        },
        (),
        PixelBufferAttributes::default(),
    )
    .unwrap();
    match creation.call() {
        CreateCall::WithPlanarBytes { number_of_planes, .. } => assert_eq!(*number_of_planes, 1),
        other => panic!("not a planar call: {:?}", other),
    }
    assert!(creation.fire());
    assert_eq!(seen.get(), 1);
}
