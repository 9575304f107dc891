//! A planar descriptor that does not own its planes: each plane is named by
//! where it lies in memory.

use crate::cv_pixel_buffer::planar_data::{optional_bytes, PlanarDataModel, PlanarDescriptor};
use crate::cv_pixel_buffer::release::ReleaseHandler;
use vstd::prelude::*;

verus! {

/// Where a plane lies in memory: the address of its first byte, which is never
/// null, and its length in bytes.
#[derive(Debug, Clone, Copy, PartialEq, Eq, Structural)]
pub struct PlaneAddress {
    address: usize,
    len: usize,
}

impl PlaneAddress {
    #[verifier::type_invariant]
    spec fn not_null(self) -> bool {
        self.address != 0
    }

    /// The address that the plane starts at.
    pub closed spec fn start(self) -> usize {
        self.address
    }

    /// The length of the plane in bytes.
    pub closed spec fn byte_len(self) -> usize {
        self.len
    }

    /// The place at `address`, or `None` for the null address.
    pub fn new(address: usize, len: usize) -> (place: Option<PlaneAddress>)
        ensures
            match place {
                Some(place) => address != 0 && place.start() == address && place.byte_len() == len,
                None => address == 0,
            },
    {
        if address == 0 {
            None
        } else {
            Some(PlaneAddress { address, len })
        }
    }

    /// The address that the plane starts at, which is not null.
    pub fn address(&self) -> (address: usize)
        ensures
            address == self.start(),
            address != 0,
    {
        proof {
            use_type_invariant(self);
        }
        self.address
    }

    /// The length of the plane in bytes.
    pub fn len(&self) -> (len: usize)
        ensures
            len == self.byte_len(),
    {
        self.len
    }
}

/// One or more memory planes: an optional backing buffer, and for each plane its
/// row stride, its width, its height and its place in memory. There are as many
/// planes as `base_addresses` has entries. The planes must stay where they are
/// for as long as the descriptor is in use.
#[derive(Debug)]
pub struct CVPixelBufferPlanarDataPointer {
    pub data: Option<Vec<u8>>,
    /// The count that `new` recorded. The planes are counted by `base_addresses`,
    /// whatever this field holds.
    pub number_of_planes: usize,
    pub plane_bytes_per_row: Vec<usize>,
    pub plane_width: Vec<usize>,
    pub plane_height: Vec<usize>,
    pub base_addresses: Vec<PlaneAddress>,
}

impl View for CVPixelBufferPlanarDataPointer {
    type V = PlanarDataModel<PlaneAddress>;

    open spec fn view(&self) -> PlanarDataModel<PlaneAddress> {
        PlanarDataModel {
            data: optional_bytes(self.data),
            number_of_planes: self.number_of_planes as nat,
            plane_bytes_per_row: self.plane_bytes_per_row@,
            plane_width: self.plane_width@,
            plane_height: self.plane_height@,
            base_addresses: self.base_addresses@,
        }
    }
}

impl CVPixelBufferPlanarDataPointer {
    /// A descriptor of the given parts. It has as many planes as `base_addresses`
    /// has entries.
    pub fn new(
        data: Option<Vec<u8>>,
        plane_bytes_per_row: Vec<usize>,
        plane_width: Vec<usize>,
        plane_height: Vec<usize>,
        base_addresses: Vec<PlaneAddress>,
    ) -> (descriptor: CVPixelBufferPlanarDataPointer)
        ensures
            descriptor@ == (PlanarDataModel {
                data: optional_bytes(data),
                number_of_planes: base_addresses@.len(),
                plane_bytes_per_row: plane_bytes_per_row@,
                plane_width: plane_width@,
                plane_height: plane_height@,
                base_addresses: base_addresses@,
            }),
    {
        CVPixelBufferPlanarDataPointer {
            data,
            number_of_planes: base_addresses.len(),
            plane_bytes_per_row,
            plane_width,
            plane_height,
            base_addresses,
        }
    }

    /// The count of planes: the length of the list of base addresses.
    pub fn number_of_planes(&self) -> (count: usize)
        ensures
            count == self.base_addresses@.len(),
            count == self@.plane_count(),
    {
        self.base_addresses.len()
    }

    /// The backing buffer, which the bridge takes the address of; `None` stands
    /// for the null address of a descriptor without one.
    pub fn as_ptr(&self) -> (data: Option<&Vec<u8>>)
        ensures
            match data {
                Some(bytes) => self@.data == Some(bytes@),
                None => self@.data is None,
            },
    {
        self.data.as_ref()
    }

    /// The size of the backing buffer in bytes, zero where there is none.
    pub fn data_size(&self) -> (size: usize)
        ensures
            size == self@.data_size(),
    {
        match &self.data {
            Some(bytes) => bytes.len(),
            None => 0,
        }
    }

    /// The places of the planes.
    pub fn raw_base_addresses(&self) -> (planes: &Vec<PlaneAddress>)
        ensures
            planes@ == self@.base_addresses,
    {
        &self.base_addresses
    }

    /// The row stride of each plane, in bytes.
    pub fn plane_bytes_per_row(&self) -> (strides: &Vec<usize>)
        ensures
            strides@ == self@.plane_bytes_per_row,
    {
        &self.plane_bytes_per_row
    }

    /// The width of each plane.
    pub fn plane_width(&self) -> (widths: &Vec<usize>)
        ensures
            widths@ == self@.plane_width,
    {
        &self.plane_width
    }

    /// The height of each plane.
    pub fn plane_height(&self) -> (heights: &Vec<usize>)
        ensures
            heights@ == self@.plane_height,
    {
        &self.plane_height
    }

    /// Whether the four per-plane lists have equal length.
    pub fn has_matching_lists(&self) -> (matching: bool)
        ensures
            matching == self@.lists_agree(),
    {
        let planes = self.base_addresses.len();
        self.plane_bytes_per_row.len() == planes && self.plane_width.len() == planes
            && self.plane_height.len() == planes
    }
}

impl PlanarDescriptor for CVPixelBufferPlanarDataPointer {
    open spec fn lists_agree(&self) -> bool {
        self@.lists_agree()
    }

    open spec fn plane_count(&self) -> nat {
        self@.plane_count()
    }

    open spec fn backing_size(&self) -> nat {
        self@.data_size()
    }

    fn has_matching_lists(&self) -> (matching: bool) {
        CVPixelBufferPlanarDataPointer::has_matching_lists(self)
    }

    fn number_of_planes(&self) -> (count: usize) {
        CVPixelBufferPlanarDataPointer::number_of_planes(self)
    }

    fn data_size(&self) -> (size: usize) {
        CVPixelBufferPlanarDataPointer::data_size(self)
    }
}

/// A callback that takes back the parts of a descriptor one by one: a context
/// of the caller's, the backing buffer, its size, the number of planes and the
/// places of the planes.
pub struct PlanarCallbackWithContext<C, F> {
    pub callback: F,
    pub context: C,
}

impl<C, F> ReleaseHandler<CVPixelBufferPlanarDataPointer> for PlanarCallbackWithContext<
    C,
    F,
> where F: FnOnce(C, Option<Vec<u8>>, usize, usize, Vec<PlaneAddress>) {
    open spec fn accepts(&self, data: CVPixelBufferPlanarDataPointer) -> bool {
        self.callback.requires(
            (
                self.context,
                data.data,
                data@.data_size() as usize,
                data@.plane_count() as usize,
                data.base_addresses,
            ),
        )
    }

    open spec fn released(&self, data: CVPixelBufferPlanarDataPointer) -> bool {
        self.callback.ensures(
            (
                self.context,
                data.data,
                data@.data_size() as usize,
                data@.plane_count() as usize,
                data.base_addresses,
            ),
            (),
        )
    }

    fn release(self, data: CVPixelBufferPlanarDataPointer) {
        let data_size = data.data_size();
        let number_of_planes = data.number_of_planes();
        (self.callback)(self.context, data.data, data_size, number_of_planes, data.base_addresses)
    }
}

} // verus!
