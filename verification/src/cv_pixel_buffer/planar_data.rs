//! The descriptor of the memory planes that a planar creation hands to the
//! foreign runtime.

use vstd::prelude::*;

verus! {

/// One or more memory planes: an optional backing buffer, and for each plane its
/// row stride, its width, its height and its bytes. There are as many planes as
/// `base_addresses` has entries.
#[derive(Debug)]
pub struct PlanarDataPointer {
    pub data: Option<Vec<u8>>,
    /// The count that `new` recorded. The planes are counted by `base_addresses`,
    /// whatever this field holds.
    pub number_of_planes: usize,
    pub plane_bytes_per_row: Vec<usize>,
    pub plane_width: Vec<usize>,
    pub plane_height: Vec<usize>,
    pub base_addresses: Vec<Vec<u8>>,
}

/// The model of a descriptor whose planes are given as values of `P`.
pub ghost struct PlanarDataModel<P> {
    pub data: Option<Seq<u8>>,
    pub number_of_planes: nat,
    pub plane_bytes_per_row: Seq<usize>,
    pub plane_width: Seq<usize>,
    pub plane_height: Seq<usize>,
    pub base_addresses: Seq<P>,
}

impl<P> PlanarDataModel<P> {
    /// The count of planes: the length of the list of base addresses.
    pub open spec fn plane_count(self) -> nat {
        self.base_addresses.len()
    }

    /// The four per-plane lists have equal length: the lists of strides, widths
    /// and heights have one entry for each base address.
    pub open spec fn lists_agree(self) -> bool {
        &&& self.plane_bytes_per_row.len() == self.base_addresses.len()
        &&& self.plane_width.len() == self.base_addresses.len()
        &&& self.plane_height.len() == self.base_addresses.len()
    }

    /// Where there is a backing buffer, no plane needs more bytes than it holds.
    pub open spec fn planes_fit(self) -> bool {
        self.data matches Some(bytes) ==> forall|i: int|
            0 <= i < self.plane_bytes_per_row.len() && i < self.plane_height.len()
                ==> #[trigger] self.plane_bytes_per_row[i] * self.plane_height[i] <= bytes.len()
    }

    /// The invariant of a descriptor that is fit to be handed over.
    pub open spec fn well_formed(self) -> bool {
        self.lists_agree() && self.planes_fit()
    }

    /// The size of the backing buffer, zero where there is none.
    pub open spec fn data_size(self) -> nat {
        match self.data {
            Some(bytes) => bytes.len(),
            None => 0,
        }
    }
}

/// The bytes of each plane of a list.
pub open spec fn plane_bytes(planes: Seq<Vec<u8>>) -> Seq<Seq<u8>> {
    planes.map_values(|plane: Vec<u8>| plane@)
}

/// The bytes of an optional buffer.
pub open spec fn optional_bytes(data: Option<Vec<u8>>) -> Option<Seq<u8>> {
    match data {
        Some(bytes) => Some(bytes@),
        None => None,
    }
}

/// What a planar creation reads of a descriptor, whichever way it gives its
/// planes.
pub trait PlanarDescriptor: Sized {
    /// The four per-plane lists have equal length.
    spec fn lists_agree(&self) -> bool;

    /// The count of planes: the length of the list of base addresses.
    spec fn plane_count(&self) -> nat;

    /// The size of the backing buffer, zero where there is none.
    spec fn backing_size(&self) -> nat;

    fn has_matching_lists(&self) -> (matching: bool)
        ensures
            matching == self.lists_agree(),
    ;

    fn number_of_planes(&self) -> (count: usize)
        ensures
            count == self.plane_count(),
    ;

    fn data_size(&self) -> (size: usize)
        ensures
            size == self.backing_size(),
    ;
}

impl View for PlanarDataPointer {
    type V = PlanarDataModel<Seq<u8>>;

    open spec fn view(&self) -> PlanarDataModel<Seq<u8>> {
        PlanarDataModel {
            data: optional_bytes(self.data),
            number_of_planes: self.number_of_planes as nat,
            plane_bytes_per_row: self.plane_bytes_per_row@,
            plane_width: self.plane_width@,
            plane_height: self.plane_height@,
            base_addresses: plane_bytes(self.base_addresses@),
        }
    }
}

impl PlanarDataPointer {
    /// A descriptor of the given parts. It has as many planes as `base_addresses`
    /// has entries.
    pub fn new(
        data: Option<Vec<u8>>,
        plane_bytes_per_row: Vec<usize>,
        plane_width: Vec<usize>,
        plane_height: Vec<usize>,
        base_addresses: Vec<Vec<u8>>,
    ) -> (descriptor: PlanarDataPointer)
        ensures
            descriptor@ == (PlanarDataModel {
                data: optional_bytes(data),
                number_of_planes: base_addresses@.len(),
                plane_bytes_per_row: plane_bytes_per_row@,
                plane_width: plane_width@,
                plane_height: plane_height@,
                base_addresses: plane_bytes(base_addresses@),
            }),
    {
        PlanarDataPointer {
            data,
            number_of_planes: base_addresses.len(),
            plane_bytes_per_row,
            plane_width,
            plane_height,
            base_addresses,
        }
    }

    /// The count of planes: the length of the list of base addresses.
    pub fn number_of_planes(&self) -> (count: usize)
        ensures
            count == self.base_addresses@.len(),
            count == self@.plane_count(),
    {
        self.base_addresses.len()
    }

    /// The backing buffer, which the bridge takes the address of; `None` stands
    /// for the null address of a descriptor without one.
    pub fn as_ptr(&self) -> (data: Option<&Vec<u8>>)
        ensures
            match data {
                Some(bytes) => self@.data == Some(bytes@),
                None => self@.data is None,
            },
    {
        self.data.as_ref()
    }

    /// The size of the backing buffer in bytes, zero where there is none.
    pub fn data_size(&self) -> (size: usize)
        ensures
            size == self@.data_size(),
    {
        match &self.data {
            Some(bytes) => bytes.len(),
            None => 0,
        }
    }

    /// The planes, of which the bridge takes the addresses.
    pub fn raw_base_addresses(&self) -> (planes: &Vec<Vec<u8>>)
        ensures
            plane_bytes(planes@) == self@.base_addresses,
    {
        &self.base_addresses
    }

    /// The row stride of each plane, in bytes.
    pub fn plane_bytes_per_row(&self) -> (strides: &Vec<usize>)
        ensures
            strides@ == self@.plane_bytes_per_row,
    {
        &self.plane_bytes_per_row
    }

    /// The width of each plane.
    pub fn plane_width(&self) -> (widths: &Vec<usize>)
        ensures
            widths@ == self@.plane_width,
    {
        &self.plane_width
    }

    /// The height of each plane.
    pub fn plane_height(&self) -> (heights: &Vec<usize>)
        ensures
            heights@ == self@.plane_height,
    {
        &self.plane_height
    }

    /// Whether the four per-plane lists have equal length.
    pub fn has_matching_lists(&self) -> (matching: bool)
        ensures
            matching == self@.lists_agree(),
    {
        let planes = self.base_addresses.len();
        self.plane_bytes_per_row.len() == planes && self.plane_width.len() == planes
            && self.plane_height.len() == planes
    }

    /// Whether the descriptor meets its invariant: matching lists, and no plane
    /// larger than the backing buffer where there is one.
    pub fn is_well_formed(&self) -> (well_formed: bool)
        ensures
            well_formed == self@.well_formed(),
    {
        if !self.has_matching_lists() {
            return false;
        }
        let capacity = match &self.data {
            Some(bytes) => bytes.len(),
            None => {
                return true;
            },
        };
        let mut i: usize = 0;
        while i < self.plane_bytes_per_row.len()
            invariant
                i <= self.plane_bytes_per_row.len(),
                self@.lists_agree(),
                self@.data is Some,
                self@.data_size() == capacity,
                forall|j: int|
                    0 <= j < i ==> #[trigger] self.plane_bytes_per_row@[j] * self.plane_height@[j]
                        <= capacity,
            decreases self.plane_bytes_per_row.len() - i,
        {
            let fits = match self.plane_bytes_per_row[i].checked_mul(self.plane_height[i]) {
                Some(needed) => needed <= capacity,
                None => false,
            };
            if !fits {
                assert(self@.plane_bytes_per_row[i as int] * self@.plane_height[i as int]
                    > capacity);
                return false;
            }
            i += 1;
        }
        true
    }
}

impl PlanarDescriptor for PlanarDataPointer {
    open spec fn lists_agree(&self) -> bool {
        self@.lists_agree()
    }

    open spec fn plane_count(&self) -> nat {
        self@.plane_count()
    }

    open spec fn backing_size(&self) -> nat {
        self@.data_size()
    }

    fn has_matching_lists(&self) -> (matching: bool) {
        PlanarDataPointer::has_matching_lists(self)
    }

    fn number_of_planes(&self) -> (count: usize) {
        PlanarDataPointer::number_of_planes(self)
    }

    fn data_size(&self) -> (size: usize) {
        PlanarDataPointer::data_size(self)
    }
}

} // verus!
