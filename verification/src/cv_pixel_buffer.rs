//! The handle to a pixel buffer that a foreign multimedia runtime owns.
//!
//! The foreign runtime holds the only authoritative reference count of a buffer
//! and decides when its memory is reclaimed. A handle stands for one reference
//! that the bridge holds; it carries the address of the foreign object and what
//! the creation settled of the buffer behind it.

pub mod attributes;
pub mod create;
pub mod error;
pub mod lock;
pub mod pixel_format;
pub mod planar_data;
pub mod release;

use std::marker::PhantomData;
use std::ops::{Deref, DerefMut};
use vstd::prelude::*;

verus! {

/// The model of a handle: the address of the foreign object and what is known
/// of the buffer behind it.
pub ghost struct BufferModel {
    pub address: usize,
    pub width: usize,
    pub height: usize,
    pub bytes_per_row: usize,
    pub pixel_format: u32,
    pub planar: bool,
}

impl BufferModel {
    /// The size of the buffer's pixel storage in bytes.
    pub open spec fn byte_len(self) -> int {
        self.bytes_per_row * self.height
    }

    /// What holds of every handle: the foreign object is not null, and the size
    /// of its pixel storage is a `usize`.
    pub open spec fn live(self) -> bool {
        self.address != 0 && self.byte_len() <= usize::MAX
    }
}

/// A handle to a pixel buffer that the foreign runtime owns. Each handle stands
/// for one reference that the bridge holds to the foreign object.
#[derive(Debug)]
pub struct CVPixelBuffer {
    address: usize,
    width: usize,
    height: usize,
    bytes_per_row: usize,
    pixel_format: u32,
    planar: bool,
}

impl View for CVPixelBuffer {
    type V = BufferModel;

    closed spec fn view(&self) -> BufferModel {
        BufferModel {
            address: self.address,
            width: self.width,
            height: self.height,
            bytes_per_row: self.bytes_per_row,
            pixel_format: self.pixel_format,
            planar: self.planar,
        }
    }
}

impl Clone for CVPixelBuffer {
    /// A further handle to the same foreign object.
    fn clone(&self) -> (copy: Self)
        ensures
            copy@ == self@,
    {
        proof {
            use_type_invariant(self);
        }
        CVPixelBuffer {
            address: self.address,
            width: self.width,
            height: self.height,
            bytes_per_row: self.bytes_per_row,
            pixel_format: self.pixel_format,
            planar: self.planar,
        }
    }
}

impl CVPixelBuffer {
    #[verifier::type_invariant]
    spec fn live(self) -> bool {
        self@.live()
    }

    /// The handle of a buffer that the foreign runtime handed out.
    pub(crate) fn from_parts(
        address: usize,
        width: usize,
        height: usize,
        bytes_per_row: usize,
        pixel_format: u32,
        planar: bool,
    ) -> (buffer: Self)
        requires
            address != 0,
            bytes_per_row * height <= usize::MAX,
        ensures
            buffer@ == (BufferModel {
                address,
                width,
                height,
                bytes_per_row,
                pixel_format,
                planar,
            }),
    {
        CVPixelBuffer { address, width, height, bytes_per_row, pixel_format, planar }
    }

    /// The address of the foreign object, which is never null.
    pub fn address(&self) -> (address: usize)
        ensures
            address == self@.address,
            self@.live(),
    {
        proof {
            use_type_invariant(self);
        }
        self.address
    }

    /// Whether the buffer keeps its channels in separate planes.
    pub fn is_planar(&self) -> (planar: bool)
        ensures
            planar == self@.planar,
    {
        self.planar
    }

    /// The row stride in bytes, as the foreign runtime reported it.
    pub fn get_bytes_per_row(&self) -> (bytes_per_row: usize)
        ensures
            bytes_per_row == self@.bytes_per_row,
    {
        self.bytes_per_row
    }

    /// The width in pixels.
    pub fn get_width(&self) -> (width: usize)
        ensures
            width == self@.width,
    {
        self.width
    }

    /// The height in pixels.
    pub fn get_height(&self) -> (height: usize)
        ensures
            height == self@.height,
    {
        self.height
    }

    /// The pixel format, as the number that the foreign runtime knows it by.
    pub fn get_pixel_format(&self) -> (pixel_format: u32)
        ensures
            pixel_format == self@.pixel_format,
    {
        self.pixel_format
    }

    /// The size of the pixel storage in bytes: the row stride times the height.
    pub fn byte_len(&self) -> (len: usize)
        ensures
            len == self@.byte_len(),
    {
        proof {
            use_type_invariant(self);
        }
        self.bytes_per_row * self.height
    }
}

/// A handle whose buffer holds memory of the caller: it may live no longer than
/// the release callback that was registered with it.
#[derive(Debug)]
pub struct CVPixelBufferWithLifetime<'a>(pub CVPixelBuffer, pub PhantomData<&'a ()>);

impl<'a> Deref for CVPixelBufferWithLifetime<'a> {
    type Target = CVPixelBuffer;

    fn deref(&self) -> (buffer: &CVPixelBuffer)
        ensures
            *buffer == self.0,
    {
        &self.0
    }
}

impl<'a> DerefMut for CVPixelBufferWithLifetime<'a> {
    fn deref_mut(&mut self) -> (buffer: &mut CVPixelBuffer)
        ensures
            *buffer == old(self).0,
            final(self).0 == *final(buffer),
    {
        &mut self.0
    }
}

} // verus!
