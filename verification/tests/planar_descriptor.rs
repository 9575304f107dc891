use core_video_rs::cv_pixel_buffer::planar_data::PlanarDataPointer;

fn two_planes(data: Option<Vec<u8>>) -> PlanarDataPointer {
    PlanarDataPointer::new(
        data,
        vec![8, 4],
        vec![8, 4],
        vec![4, 2],
        vec![vec![1; 32], vec![2; 8]],
    )
}

#[test]
fn the_planes_are_counted_by_their_base_addresses() {
    let descriptor = two_planes(Some(vec![0; 40]));
    assert_eq!(descriptor.number_of_planes(), 2);
    assert_eq!(descriptor.number_of_planes, 2);
    let none = PlanarDataPointer::new(None, vec![1], vec![1], vec![1], vec![]);
    assert_eq!(none.number_of_planes(), 0);
}

#[test]
fn the_parts_are_kept_as_given() {
    let descriptor = two_planes(Some(vec![9; 40]));
    assert_eq!(descriptor.plane_bytes_per_row(), &vec![8, 4]);
    assert_eq!(descriptor.plane_width(), &vec![8, 4]);
    assert_eq!(descriptor.plane_height(), &vec![4, 2]);
    assert_eq!(descriptor.raw_base_addresses(), &vec![vec![1; 32], vec![2; 8]]);
    assert_eq!(descriptor.as_ptr(), Some(&vec![9; 40]));
    assert_eq!(descriptor.data, Some(vec![9; 40]));
}

#[test]
fn the_data_size_is_that_of_the_backing_buffer() {
    assert_eq!(two_planes(Some(vec![0; 40])).data_size(), 40);
    assert_eq!(two_planes(Some(vec![])).data_size(), 0);
    assert_eq!(two_planes(None).data_size(), 0);
    assert_eq!(two_planes(None).as_ptr(), None);
}

#[test]
fn lists_of_one_length_match() {
    assert!(two_planes(None).has_matching_lists());
    assert!(PlanarDataPointer::new(None, vec![], vec![], vec![], vec![]).has_matching_lists());
    let short_strides = PlanarDataPointer::new(None, vec![8], vec![8, 4], vec![4, 2], vec![vec![], vec![]]);
    assert!(!short_strides.has_matching_lists());
    let short_widths = PlanarDataPointer::new(None, vec![8, 4], vec![8], vec![4, 2], vec![vec![], vec![]]);
    assert!(!short_widths.has_matching_lists());
    let long_heights =
        PlanarDataPointer::new(None, vec![8, 4], vec![8, 4], vec![4, 2, 1], vec![vec![], vec![]]);
    assert!(!long_heights.has_matching_lists());
    let short_bases = PlanarDataPointer::new(None, vec![8, 4], vec![8, 4], vec![4, 2], vec![vec![]]);
    assert!(!short_bases.has_matching_lists());
}

#[test]
fn the_planes_are_counted_by_the_list_whatever_was_recorded() {
    let mut descriptor = PlanarDataPointer::new(None, vec![], vec![], vec![], vec![]);
    assert_eq!(descriptor.number_of_planes(), 0);
    descriptor.base_addresses = vec![vec![1, 2, 3]];
    assert_eq!(descriptor.number_of_planes(), 1);
    assert!(!descriptor.has_matching_lists());
    descriptor.plane_bytes_per_row = vec![3];
    descriptor.plane_width = vec![3];
    descriptor.plane_height = vec![1];
    assert_eq!(descriptor.number_of_planes(), 1);
    assert!(descriptor.has_matching_lists());
    assert!(descriptor.is_well_formed());

    let mut recorded_wrong = two_planes(None);
    recorded_wrong.number_of_planes = 3;
    assert_eq!(recorded_wrong.number_of_planes(), 2);
    assert!(recorded_wrong.has_matching_lists());
}

#[test]
fn a_descriptor_is_well_formed_when_every_plane_fits() {
    // The larger plane needs 8 * 4 = 32 bytes.
    assert!(two_planes(Some(vec![0; 32])).is_well_formed());
    assert!(two_planes(Some(vec![0; 33])).is_well_formed());
    assert!(!two_planes(Some(vec![0; 31])).is_well_formed());
    assert!(!two_planes(Some(vec![])).is_well_formed());
    assert!(two_planes(None).is_well_formed());
}

#[test]
fn a_plane_too_large_to_measure_does_not_fit() {
    let descriptor = PlanarDataPointer::new(
        Some(vec![0; 16]),
        vec![usize::MAX, 2],
        vec![1, 1],
        vec![2, 2],
        vec![vec![], vec![]],
    );
    assert!(descriptor.has_matching_lists());
    assert!(!descriptor.is_well_formed());
    let second_too_large = PlanarDataPointer::new(
        Some(vec![0; 16]),
        vec![4, 4],
        vec![1, 1],
        vec![4, 5],
        vec![vec![], vec![]],
    );
    assert!(!second_too_large.is_well_formed());
}

#[test]
fn mismatched_lists_are_never_well_formed() {
    let descriptor = PlanarDataPointer::new(None, vec![8], vec![8, 4], vec![4, 2], vec![vec![]]);
    assert!(!descriptor.is_well_formed());
}
