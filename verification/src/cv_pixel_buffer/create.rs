//! The protocol by which a pixel buffer is created.
//!
//! A creation is cut at the foreign call. The `create` functions check what
//! they are given and state the call to make; `finish` takes what the foreign
//! constructor answered and yields the handle or the error. Where the caller
//! hands over memory, it is captured in a release context before the call, and
//! `finish` destroys that context when the constructor reports a failure.

use super::attributes::{
    entries_of, entry_models, AttributeEntry, AttributeModel, EntryModel, PixelBufferAttributes,
};
use super::error::{error_of_status, CVPixelBufferError, CV_RETURN_SUCCESS};
use super::pixel_format::{code_value, four_char_code_value};
use super::planar_data::{PlanarDataPointer, PlanarDescriptor};
use super::release::{
    release_invokes, release_step, Callback, CallbackWithContext, ReleaseContext, ReleaseHandler,
    ReleaseModel, ReleaseOp, ReleaseState, Silent,
};
use crate::cv_pixel_buffer_planar_data::{
    CVPixelBufferPlanarDataPointer, PlanarCallbackWithContext, PlaneAddress,
};
use super::{BufferModel, CVPixelBuffer, CVPixelBufferWithLifetime};
use core_utils_rs::four_char_code::FourCharCode;
use std::marker::PhantomData;
use vstd::prelude::*;

verus! {

/// What the bridge reads of a surface that a buffer is to wrap.
#[derive(Debug, Clone, Copy, PartialEq, Eq, Structural)]
pub struct Surface {
    /// The address of the surface object.
    pub address: usize,
    pub width: usize,
    pub height: usize,
    pub pixel_format: u32,
}

/// The call to make to the foreign runtime: which of its four constructors, and
/// the plain arguments to call it with.
#[derive(Debug)]
pub enum CreateCall {
    /// The runtime allocates and owns the pixel storage.
    Create { width: usize, height: usize, pixel_format: u32, attributes: Vec<AttributeEntry> },
    /// The pixel storage is one run of bytes of the caller's.
    WithBytes {
        width: usize,
        height: usize,
        pixel_format: u32,
        bytes_per_row: usize,
        attributes: Vec<AttributeEntry>,
    },
    /// The pixel storage is the planes of a descriptor of the caller's.
    WithPlanarBytes {
        width: usize,
        height: usize,
        pixel_format: u32,
        data_size: usize,
        number_of_planes: usize,
        attributes: Vec<AttributeEntry>,
    },
    /// The buffer wraps a surface, which the runtime retains.
    WithIOSurface { surface: Surface, attributes: Vec<AttributeEntry> },
}

/// The model of a call.
pub ghost enum CreateCallModel {
    Create { width: usize, height: usize, pixel_format: u32, attributes: Seq<EntryModel> },
    WithBytes {
        width: usize,
        height: usize,
        pixel_format: u32,
        bytes_per_row: usize,
        attributes: Seq<EntryModel>,
    },
    WithPlanarBytes {
        width: usize,
        height: usize,
        pixel_format: u32,
        data_size: usize,
        number_of_planes: usize,
        attributes: Seq<EntryModel>,
    },
    WithIOSurface { surface: Surface, attributes: Seq<EntryModel> },
}

impl CreateCallModel {
    /// The width that the call asks for.
    pub open spec fn width(self) -> usize {
        match self {
            CreateCallModel::Create { width, .. } => width,
            CreateCallModel::WithBytes { width, .. } => width,
            CreateCallModel::WithPlanarBytes { width, .. } => width,
            CreateCallModel::WithIOSurface { surface, .. } => surface.width,
        }
    }

    /// The height that the call asks for.
    pub open spec fn height(self) -> usize {
        match self {
            CreateCallModel::Create { height, .. } => height,
            CreateCallModel::WithBytes { height, .. } => height,
            CreateCallModel::WithPlanarBytes { height, .. } => height,
            CreateCallModel::WithIOSurface { surface, .. } => surface.height,
        }
    }

    /// The pixel format that the call asks for.
    pub open spec fn pixel_format(self) -> u32 {
        match self {
            CreateCallModel::Create { pixel_format, .. } => pixel_format,
            CreateCallModel::WithBytes { pixel_format, .. } => pixel_format,
            CreateCallModel::WithPlanarBytes { pixel_format, .. } => pixel_format,
            CreateCallModel::WithIOSurface { surface, .. } => surface.pixel_format,
        }
    }

    /// Whether the call is a planar creation.
    pub open spec fn planar(self) -> bool {
        self is WithPlanarBytes
    }
}

impl View for CreateCall {
    type V = CreateCallModel;

    open spec fn view(&self) -> CreateCallModel {
        match self {
            CreateCall::Create { width, height, pixel_format, attributes } => {
                CreateCallModel::Create {
                    width: *width,
                    height: *height,
                    pixel_format: *pixel_format,
                    attributes: entry_models(attributes@),
                }
            },
            CreateCall::WithBytes { width, height, pixel_format, bytes_per_row, attributes } => {
                CreateCallModel::WithBytes {
                    width: *width,
                    height: *height,
                    pixel_format: *pixel_format,
                    bytes_per_row: *bytes_per_row,
                    attributes: entry_models(attributes@),
                }
            },
            CreateCall::WithPlanarBytes {
                width,
                height,
                pixel_format,
                data_size,
                number_of_planes,
                attributes,
            } => CreateCallModel::WithPlanarBytes {
                width: *width,
                height: *height,
                pixel_format: *pixel_format,
                data_size: *data_size,
                number_of_planes: *number_of_planes,
                attributes: entry_models(attributes@),
            },
            CreateCall::WithIOSurface { surface, attributes } => CreateCallModel::WithIOSurface {
                surface: *surface,
                attributes: entry_models(attributes@),
            },
        }
    }
}

/// What the foreign constructor answered.
#[derive(Debug, Clone, Copy, PartialEq, Eq, Structural)]
pub struct CreateReply {
    /// The status that the constructor returned.
    pub status: i32,
    /// The address of the buffer that it handed out; read only on success.
    pub buffer: usize,
    /// The row stride that the runtime reports for that buffer; read only on success.
    pub bytes_per_row: usize,
}

/// The handle that a successful reply to a call gives: the buffer is the one
/// that the runtime handed out, with the row stride that it reports, and it has
/// the width, the height and the pixel format that were asked for. It is planar
/// exactly when the creation was.
pub open spec fn buffer_of_reply(call: CreateCallModel, reply: CreateReply) -> BufferModel {
    BufferModel {
        address: reply.buffer,
        width: call.width(),
        height: call.height(),
        bytes_per_row: reply.bytes_per_row,
        pixel_format: call.pixel_format(),
        planar: call.planar(),
    }
}

/// What a reply means for the creation: the handle for the success status, and
/// otherwise the error that the status stands for.
pub open spec fn outcome_of_reply(call: CreateCallModel, reply: CreateReply) -> Result<
    BufferModel,
    CVPixelBufferError,
> {
    if reply.status == CV_RETURN_SUCCESS {
        Ok(buffer_of_reply(call, reply))
    } else {
        Err(error_of_status(reply.status))
    }
}

/// A reply that can be finished with: one that reports success names a buffer
/// that is not null and whose pixel storage has a size that fits a `usize`.
pub open spec fn reply_is_sound(call: CreateCallModel, reply: CreateReply) -> bool {
    reply.status == CV_RETURN_SUCCESS ==> buffer_of_reply(call, reply).live()
}

/// Whether a reply is one that `finish` accepts.
pub fn is_sound_reply(call: &CreateCall, reply: &CreateReply) -> (sound: bool)
    ensures
        sound == reply_is_sound(call@, *reply),
{
    if reply.status != CV_RETURN_SUCCESS {
        return true;
    }
    let height = match call {
        CreateCall::Create { height, .. } => *height,
        CreateCall::WithBytes { height, .. } => *height,
        CreateCall::WithPlanarBytes { height, .. } => *height,
        CreateCall::WithIOSurface { surface, .. } => surface.height,
    };
    reply.buffer != 0 && reply.bytes_per_row.checked_mul(height).is_some()
}

fn finish_call(call: &CreateCall, reply: CreateReply) -> (outcome: Result<
    CVPixelBuffer,
    CVPixelBufferError,
>)
    requires
        reply_is_sound(call@, reply),
    ensures
        match outcome {
            Ok(buffer) => outcome_of_reply(call@, reply) == Ok::<BufferModel, CVPixelBufferError>(
                buffer@,
            ),
            Err(error) => outcome_of_reply(call@, reply) == Err::<BufferModel, CVPixelBufferError>(
                error,
            ),
        },
{
    if reply.status != CV_RETURN_SUCCESS {
        return Err(CVPixelBufferError::from(reply.status));
    }
    let (width, height, pixel_format, planar) = match call {
        CreateCall::Create { width, height, pixel_format, .. } => (
            *width,
            *height,
            *pixel_format,
            false,
        ),
        CreateCall::WithBytes { width, height, pixel_format, .. } => (
            *width,
            *height,
            *pixel_format,
            false,
        ),
        CreateCall::WithPlanarBytes { width, height, pixel_format, .. } => (
            *width,
            *height,
            *pixel_format,
            true,
        ),
        CreateCall::WithIOSurface { surface, .. } => (
            surface.width,
            surface.height,
            surface.pixel_format,
            false,
        ),
    };
    Ok(
        CVPixelBuffer::from_parts(
            reply.buffer,
            width,
            height,
            reply.bytes_per_row,
            pixel_format,
            planar,
        ),
    )
}

/// A creation that hands over no memory of the caller's, between its two halves.
#[derive(Debug)]
pub struct Creation {
    call: CreateCall,
}

impl View for Creation {
    type V = CreateCallModel;

    closed spec fn view(&self) -> CreateCallModel {
        self.call@
    }
}

impl Creation {
    /// The call to make.
    pub fn call(&self) -> (call: &CreateCall)
        ensures
            call@ == self@,
    {
        &self.call
    }

    /// Takes the answer of the foreign constructor: the handle where it reports
    /// success, and otherwise the error that its status stands for.
    pub fn finish(self, reply: CreateReply) -> (outcome: Result<
        CVPixelBuffer,
        CVPixelBufferError,
    >)
        requires
            reply_is_sound(self@, reply),
        ensures
            match outcome {
                Ok(buffer) => outcome_of_reply(self@, reply) == Ok::<
                    BufferModel,
                    CVPixelBufferError,
                >(buffer@),
                Err(error) => outcome_of_reply(self@, reply) == Err::<
                    BufferModel,
                    CVPixelBufferError,
                >(error),
            },
    {
        finish_call(&self.call, reply)
    }
}

/// The model of a creation that hands over memory: the call to make, and the
/// release context that holds the memory.
pub ghost struct CreationModel<D, H> {
    pub call: CreateCallModel,
    pub release: ReleaseModel<D, H>,
}

/// A creation that hands over memory of the caller's, between its two halves.
/// The memory is captured in a release context, which the foreign runtime fires
/// once it has let go of the buffer.
pub struct CreationWithRelease<'a, D, H> {
    call: CreateCall,
    release: ReleaseContext<D, H>,
    lifetime: PhantomData<&'a ()>,
}

impl<'a, D, H> View for CreationWithRelease<'a, D, H> {
    type V = CreationModel<D, H>;

    closed spec fn view(&self) -> CreationModel<D, H> {
        CreationModel { call: self.call@, release: self.release@ }
    }
}

impl<'a, D, H: ReleaseHandler<D>> CreationWithRelease<'a, D, H> {
    /// The call to make.
    pub fn call(&self) -> (call: &CreateCall)
        ensures
            call@ == self@.call,
    {
        &self.call
    }

    /// The captured memory, of which the bridge takes the addresses, for as long
    /// as the release context is armed.
    pub fn data(&self) -> (data: Option<&D>)
        ensures
            match data {
                Some(held) => self@.release is Armed && self@.release->data == *held,
                None => !(self@.release is Armed),
            },
    {
        self.release.data()
    }

    /// Where the release context stands.
    pub fn release_state(&self) -> (state: ReleaseState)
        ensures
            state == self@.release.state(),
    {
        self.release.state()
    }

    /// The function that the foreign runtime calls when it has let go of the
    /// buffer: runs the release handler on the captured memory if the context is
    /// still armed, and does nothing otherwise. Returns whether the handler ran.
    pub fn fire(&mut self) -> (ran: bool)
        requires
            old(self)@.release matches ReleaseModel::Armed { handler, data } ==> handler.accepts(
                data,
            ),
        ensures
            final(self)@.call == old(self)@.call,
            final(self)@.release.state() == release_step(
                old(self)@.release.state(),
                ReleaseOp::Fire,
            ),
            ran == release_invokes(old(self)@.release.state(), ReleaseOp::Fire),
            old(self)@.release matches ReleaseModel::Armed { handler, data } ==> handler.released(
                data,
            ),
    {
        self.release.fire()
    }

    /// Takes the answer of the foreign constructor. Where it reports success the
    /// handle is returned and the release context stays as it is, in the hands
    /// of the foreign runtime. Where it reports a failure the release context is
    /// destroyed on the spot, without its handler running, and the error that
    /// the status stands for is returned.
    pub fn finish(&mut self, reply: CreateReply) -> (outcome: Result<
        CVPixelBufferWithLifetime<'a>,
        CVPixelBufferError,
    >)
        requires
            reply_is_sound(old(self)@.call, reply),
        ensures
            final(self)@.call == old(self)@.call,
            match outcome {
                Ok(buffer) => {
                    &&& outcome_of_reply(old(self)@.call, reply) == Ok::<
                        BufferModel,
                        CVPixelBufferError,
                    >(buffer.0@)
                    &&& final(self)@.release == old(self)@.release
                },
                Err(error) => {
                    &&& outcome_of_reply(old(self)@.call, reply) == Err::<
                        BufferModel,
                        CVPixelBufferError,
                    >(error)
                    &&& final(self)@.release.state() == release_step(
                        old(self)@.release.state(),
                        ReleaseOp::Destroy,
                    )
                },
            },
    {
        match finish_call(&self.call, reply) {
            Ok(buffer) => Ok(CVPixelBufferWithLifetime(buffer, PhantomData)),
            Err(error) => {
                self.release.destroy();
                Err(error)
            },
        }
    }
}

/// Whether a run of bytes is large enough for rows of the given stride.
pub open spec fn bytes_suffice(len: nat, bytes_per_row: usize, height: usize) -> bool {
    len >= bytes_per_row * height
}

impl CVPixelBuffer {
    /// A creation for which the foreign runtime allocates and owns the pixel
    /// storage.
    pub fn create(
        width: usize,
        height: usize,
        pixel_format_type: FourCharCode,
        pixel_buffer_attributes: PixelBufferAttributes,
    ) -> (creation: Creation)
        ensures
            creation@ == (CreateCallModel::Create {
                width,
                height,
                pixel_format: four_char_code_value(pixel_format_type),
                attributes: entries_of(pixel_buffer_attributes@),
            }),
    {
        Self::internal_create(width, height, pixel_format_type, pixel_buffer_attributes)
    }

    /// A creation that wraps a surface. The surface stays the caller's; the
    /// foreign runtime retains it.
    pub fn create_with_io_surface(
        surface: &Surface,
        pixel_buffer_attributes: PixelBufferAttributes,
    ) -> (creation: Creation)
        ensures
            creation@ == (CreateCallModel::WithIOSurface {
                surface: *surface,
                attributes: entries_of(pixel_buffer_attributes@),
            }),
    {
        Self::internal_create_with_io_surface(surface, pixel_buffer_attributes)
    }

    /// A planar creation without a release callback: the descriptor is dropped
    /// when the foreign runtime lets go of the buffer.
    pub fn create_with_planar_bytes<'a>(
        width: usize,
        height: usize,
        pixel_format_type: FourCharCode,
        data_pointer: PlanarDataPointer,
        pixel_buffer_attributes: PixelBufferAttributes,
    ) -> (created: Result<CreationWithRelease<'a, PlanarDataPointer, Silent>, CVPixelBufferError>)
        ensures
            planar_creation_agrees(
                created,
                width,
                height,
                four_char_code_value(pixel_format_type),
                data_pointer,
                Silent,
                pixel_buffer_attributes@,
            ),
    {
        Self::internal_create_with_planar_bytes(
            width,
            height,
            pixel_format_type,
            data_pointer,
            Silent,
            pixel_buffer_attributes,
        )
    }

    /// A single-plane creation without a release callback: the bytes are
    /// dropped when the foreign runtime lets go of the buffer.
    pub fn create_with_bytes<'a>(
        width: usize,
        height: usize,
        pixel_format_type: FourCharCode,
        base_address: Vec<u8>,
        bytes_per_row: usize,
        pixel_buffer_attributes: PixelBufferAttributes,
    ) -> (created: Result<CreationWithRelease<'a, Vec<u8>, Silent>, CVPixelBufferError>)
        ensures
            bytes_creation_agrees(
                created,
                width,
                height,
                four_char_code_value(pixel_format_type),
                base_address,
                bytes_per_row,
                Silent,
                pixel_buffer_attributes@,
            ),
    {
        Self::internal_create_with_bytes(
            width,
            height,
            pixel_format_type,
            base_address,
            bytes_per_row,
            Silent,
            pixel_buffer_attributes,
        )
    }

    /// A single-plane creation whose bytes go back to `release_callback` when
    /// the foreign runtime lets go of the buffer.
    pub fn create_with_bytes_release_cb<'a, TReleaseCallback>(
        width: usize,
        height: usize,
        pixel_format_type: FourCharCode,
        base_address: Vec<u8>,
        bytes_per_row: usize,
        release_callback: TReleaseCallback,
        pixel_buffer_attributes: PixelBufferAttributes,
    ) -> (created: Result<
        CreationWithRelease<'a, Vec<u8>, Callback<TReleaseCallback>>,
        CVPixelBufferError,
    >) where TReleaseCallback: 'a + Send + FnOnce(Vec<u8>)
        ensures
            bytes_creation_agrees(
                created,
                width,
                height,
                four_char_code_value(pixel_format_type),
                base_address,
                bytes_per_row,
                Callback(release_callback),
                pixel_buffer_attributes@,
            ),
    {
        Self::internal_create_with_bytes(
            width,
            height,
            pixel_format_type,
            base_address,
            bytes_per_row,
            Callback(release_callback),
            pixel_buffer_attributes,
        )
    }

    /// A planar creation whose descriptor goes back to `release_callback`, as
    /// one value, when the foreign runtime lets go of the buffer.
    pub fn create_with_planar_bytes_release_cb<'a, TReleaseCallback>(
        width: usize,
        height: usize,
        pixel_format_type: FourCharCode,
        data_pointer: PlanarDataPointer,
        release_callback: TReleaseCallback,
        pixel_buffer_attributes: PixelBufferAttributes,
    ) -> (created: Result<
        CreationWithRelease<'a, PlanarDataPointer, Callback<TReleaseCallback>>,
        CVPixelBufferError,
    >) where TReleaseCallback: 'a + Send + FnOnce(PlanarDataPointer)
        ensures
            planar_creation_agrees(
                created,
                width,
                height,
                four_char_code_value(pixel_format_type),
                data_pointer,
                Callback(release_callback),
                pixel_buffer_attributes@,
            ),
    {
        Self::internal_create_with_planar_bytes(
            width,
            height,
            pixel_format_type,
            data_pointer,
            Callback(release_callback),
            pixel_buffer_attributes,
        )
    }

    /// A single-plane creation whose bytes go back to `release_callback`
    /// together with a context of the caller's.
    pub fn create_with_bytes_with_release<TRefCon, TReleaseCallback>(
        width: usize,
        height: usize,
        pixel_format_type: FourCharCode,
        base_address: Vec<u8>,
        bytes_per_row: usize,
        release_callback: TReleaseCallback,
        release_ref_con: TRefCon,
        pixel_buffer_attributes: PixelBufferAttributes,
    ) -> (created: Result<
        CreationWithRelease<'static, Vec<u8>, CallbackWithContext<TRefCon, TReleaseCallback>>,
        CVPixelBufferError,
    >) where TRefCon: 'static, TReleaseCallback: FnOnce(TRefCon, Vec<u8>) + 'static
        ensures
            bytes_creation_agrees(
                created,
                width,
                height,
                four_char_code_value(pixel_format_type),
                base_address,
                bytes_per_row,
                CallbackWithContext { callback: release_callback, context: release_ref_con },
                pixel_buffer_attributes@,
            ),
    {
        Self::internal_create_with_bytes(
            width,
            height,
            pixel_format_type,
            base_address,
            bytes_per_row,
            CallbackWithContext { callback: release_callback, context: release_ref_con },
            pixel_buffer_attributes,
        )
    }

    /// A planar creation from a descriptor that names its planes by address. The
    /// parts of the descriptor go back to `release_callback`, together with a
    /// context of the caller's.
    pub fn create_with_planar_bytes_and_release_callback<TRefCon, TReleaseCallback>(
        width: usize,
        height: usize,
        pixel_format_type: FourCharCode,
        data_pointer: CVPixelBufferPlanarDataPointer,
        release_callback: TReleaseCallback,
        release_ref_con: TRefCon,
        pixel_buffer_attributes: PixelBufferAttributes,
    ) -> (created: Result<
        CreationWithRelease<
            'static,
            CVPixelBufferPlanarDataPointer,
            PlanarCallbackWithContext<TRefCon, TReleaseCallback>,
        >,
        CVPixelBufferError,
    >) where
        TRefCon: 'static,
        TReleaseCallback: FnOnce(TRefCon, Option<Vec<u8>>, usize, usize, Vec<PlaneAddress>)
            + 'static,
        ensures
            planar_creation_agrees(
                created,
                width,
                height,
                four_char_code_value(pixel_format_type),
                data_pointer,
                PlanarCallbackWithContext { callback: release_callback, context: release_ref_con },
                pixel_buffer_attributes@,
            ),
    {
        Self::internal_create_with_planar_bytes(
            width,
            height,
            pixel_format_type,
            data_pointer,
            PlanarCallbackWithContext { callback: release_callback, context: release_ref_con },
            pixel_buffer_attributes,
        )
    }

    pub(crate) fn internal_create(
        width: usize,
        height: usize,
        pixel_format_type: FourCharCode,
        pixel_buffer_attributes: PixelBufferAttributes,
    ) -> (creation: Creation)
        ensures
            creation@ == (CreateCallModel::Create {
                width,
                height,
                pixel_format: four_char_code_value(pixel_format_type),
                attributes: entries_of(pixel_buffer_attributes@),
            }),
    {
        Creation {
            call: CreateCall::Create {
                width,
                height,
                pixel_format: code_value(&pixel_format_type),
                attributes: pixel_buffer_attributes.entries(),
            },
        }
    }

    pub(crate) fn internal_create_with_io_surface(
        surface: &Surface,
        pixel_buffer_attributes: PixelBufferAttributes,
    ) -> (creation: Creation)
        ensures
            creation@ == (CreateCallModel::WithIOSurface {
                surface: *surface,
                attributes: entries_of(pixel_buffer_attributes@),
            }),
    {
        Creation {
            call: CreateCall::WithIOSurface {
                surface: *surface,
                attributes: pixel_buffer_attributes.entries(),
            },
        }
    }

    pub(crate) fn internal_create_with_bytes<'a, H: ReleaseHandler<Vec<u8>>>(
        width: usize,
        height: usize,
        pixel_format_type: FourCharCode,
        base_address: Vec<u8>,
        bytes_per_row: usize,
        release_handler: H,
        pixel_buffer_attributes: PixelBufferAttributes,
    ) -> (created: Result<CreationWithRelease<'a, Vec<u8>, H>, CVPixelBufferError>)
        ensures
            bytes_creation_agrees(
                created,
                width,
                height,
                four_char_code_value(pixel_format_type),
                base_address,
                bytes_per_row,
                release_handler,
                pixel_buffer_attributes@,
            ),
    {
        let given = base_address.len();
        let needed = match bytes_per_row.checked_mul(height) {
            Some(needed) => needed,
            None => {
                // A product beyond `usize` is more than any run of bytes holds.
                return Err(CVPixelBufferError::InvalidSize);
            },
        };
        if given < needed {
            return Err(CVPixelBufferError::InvalidSize);
        }
        Ok(
            CreationWithRelease {
                call: CreateCall::WithBytes {
                    width,
                    height,
                    pixel_format: code_value(&pixel_format_type),
                    bytes_per_row,
                    attributes: pixel_buffer_attributes.entries(),
                },
                release: ReleaseContext::make(release_handler, base_address),
                lifetime: PhantomData,
            },
        )
    }

    pub(crate) fn internal_create_with_planar_bytes<'a, P: PlanarDescriptor, H: ReleaseHandler<P>>(
        width: usize,
        height: usize,
        pixel_format_type: FourCharCode,
        data_pointer: P,
        release_handler: H,
        pixel_buffer_attributes: PixelBufferAttributes,
    ) -> (created: Result<CreationWithRelease<'a, P, H>, CVPixelBufferError>)
        ensures
            planar_creation_agrees(
                created,
                width,
                height,
                four_char_code_value(pixel_format_type),
                data_pointer,
                release_handler,
                pixel_buffer_attributes@,
            ),
    {
        if !PlanarDescriptor::has_matching_lists(&data_pointer) {
            return Err(CVPixelBufferError::InvalidSize);
        }
        let data_size = PlanarDescriptor::data_size(&data_pointer);
        let number_of_planes = PlanarDescriptor::number_of_planes(&data_pointer);
        Ok(
            CreationWithRelease {
                call: CreateCall::WithPlanarBytes {
                    width,
                    height,
                    pixel_format: code_value(&pixel_format_type),
                    data_size,
                    number_of_planes,
                    attributes: pixel_buffer_attributes.entries(),
                },
                release: ReleaseContext::make(release_handler, data_pointer),
                lifetime: PhantomData,
            },
        )
    }
}

/// What a single-plane creation owes. It is refused with `InvalidSize`, before
/// any call is stated and before anything is captured, exactly when the bytes are
/// fewer than `bytes_per_row * height`. Otherwise it states the call with the
/// arguments as given and holds the bytes and the handler in an armed context.
pub open spec fn bytes_creation_agrees<'a, H>(
    created: Result<CreationWithRelease<'a, Vec<u8>, H>, CVPixelBufferError>,
    width: usize,
    height: usize,
    pixel_format: u32,
    base_address: Vec<u8>,
    bytes_per_row: usize,
    release_handler: H,
    attributes: Seq<AttributeModel>,
) -> bool {
    match created {
        Ok(creation) => {
            &&& bytes_suffice(base_address@.len(), bytes_per_row, height)
            &&& creation@.call == (CreateCallModel::WithBytes {
                width,
                height,
                pixel_format,
                bytes_per_row,
                attributes: entries_of(attributes),
            })
            &&& creation@.release == (ReleaseModel::Armed {
                handler: release_handler,
                data: base_address,
            })
        },
        Err(error) => {
            &&& !bytes_suffice(base_address@.len(), bytes_per_row, height)
            &&& error == CVPixelBufferError::InvalidSize
        },
    }
}

/// What a planar creation owes. It is refused with `InvalidSize`, before any call
/// is stated and before anything is captured, exactly when the per-plane lists of
/// the descriptor do not agree. Otherwise it states the call with the arguments as
/// given and holds the descriptor and the handler in an armed context.
pub open spec fn planar_creation_agrees<'a, P: PlanarDescriptor, H>(
    created: Result<CreationWithRelease<'a, P, H>, CVPixelBufferError>,
    width: usize,
    height: usize,
    pixel_format: u32,
    data_pointer: P,
    release_handler: H,
    attributes: Seq<AttributeModel>,
) -> bool {
    match created {
        Ok(creation) => {
            &&& data_pointer.lists_agree()
            &&& creation@.call == (CreateCallModel::WithPlanarBytes {
                width,
                height,
                pixel_format,
                data_size: data_pointer.backing_size() as usize,
                number_of_planes: data_pointer.plane_count() as usize,
                attributes: entries_of(attributes),
            })
            &&& creation@.release == (ReleaseModel::Armed {
                handler: release_handler,
                data: data_pointer,
            })
        },
        Err(error) => {
            &&& !data_pointer.lists_agree()
            &&& error == CVPixelBufferError::InvalidSize
        },
    }
}

/// The handle of a successful creation has the width and the height that the
/// call asked for, whatever the foreign constructor answered besides.
pub proof fn lemma_created_dimensions(call: CreateCallModel, reply: CreateReply)
    ensures
        outcome_of_reply(call, reply) matches Ok(buffer) ==> buffer.width == call.width()
            && buffer.height == call.height(),
{
}

/// The handle of a successful creation is planar exactly when the creation was a
/// planar one.
pub proof fn lemma_created_planarity(call: CreateCallModel, reply: CreateReply)
    ensures
        outcome_of_reply(call, reply) matches Ok(buffer) ==> (buffer.planar <==> call
            is WithPlanarBytes),
{
}

/// A creation succeeds exactly when the foreign constructor reports success, and
/// fails with the error that its status stands for otherwise.
pub proof fn lemma_creation_outcome(call: CreateCallModel, reply: CreateReply)
    ensures
        outcome_of_reply(call, reply) is Ok <==> reply.status == CV_RETURN_SUCCESS,
        outcome_of_reply(call, reply) matches Err(error) ==> error == error_of_status(
            reply.status,
        ),
{
}

} // verus!
