//! Scoped access to the pixel storage of a buffer.
//!
//! While a buffer is locked the foreign runtime keeps its pixel storage at one
//! address. Locking is cut at the foreign calls: the handle states the lock
//! call, and `lock` or `lock_mut` takes the status that it returned and the
//! bytes found at the base address, and builds the guard or gives the error. A
//! guard states the unlock call that ends it, with the mode that it was locked
//! with; `check_status` reads the status of that call.
//!
//! The foreign runtime does not tell shared from exclusive locks. Holding a
//! shared and an exclusive guard on one buffer at a time, or locking a buffer
//! again while a guard is out, is the caller's to avoid.

use super::error::{check_status, error_of_status, CVPixelBufferError, CV_RETURN_SUCCESS};
use super::{BufferModel, CVPixelBuffer};
use std::ops::{Deref, DerefMut};
use vstd::prelude::*;

verus! {

/// The mode of a lock.
#[derive(Debug, Clone, Copy, PartialEq, Eq, Structural)]
pub enum CVPixelBufferLockFlags {
    /// The storage is read and written.
    ReadWrite,
    /// The storage is only read.
    ReadOnly,
}

impl CVPixelBufferLockFlags {
    /// The number that the foreign runtime knows the mode by.
    pub open spec fn bits_spec(self) -> u32 {
        match self {
            CVPixelBufferLockFlags::ReadWrite => 0,
            CVPixelBufferLockFlags::ReadOnly => 1,
        }
    }

    /// The number that the foreign runtime knows the mode by.
    pub fn bits(&self) -> (bits: u32)
        ensures
            bits == self.bits_spec(),
    {
        match self {
            CVPixelBufferLockFlags::ReadWrite => 0,
            CVPixelBufferLockFlags::ReadOnly => 1,
        }
    }
}

/// A call to one of the two foreign entry points that lock and unlock the base
/// address of a buffer.
#[derive(Debug, Clone, Copy, PartialEq, Eq, Structural)]
pub enum BaseAddressCall {
    Lock { buffer: usize, flags: u32 },
    Unlock { buffer: usize, flags: u32 },
}

/// The call that locks a buffer in a mode.
pub open spec fn lock_call_of(buffer: BufferModel, flags: CVPixelBufferLockFlags) -> BaseAddressCall {
    BaseAddressCall::Lock { buffer: buffer.address, flags: flags.bits_spec() }
}

/// The call that unlocks a buffer that was locked in a mode.
pub open spec fn unlock_call_of(
    buffer: BufferModel,
    flags: CVPixelBufferLockFlags,
) -> BaseAddressCall {
    BaseAddressCall::Unlock { buffer: buffer.address, flags: flags.bits_spec() }
}

/// What the answers of the foreign runtime mean for a lock: the error that the
/// status of the lock call stands for where the call failed, `BaseAddress` where
/// it succeeded and the base address is null, and success otherwise.
pub open spec fn lock_outcome(status: i32, has_base: bool) -> Result<(), CVPixelBufferError> {
    if status != CV_RETURN_SUCCESS {
        Err(error_of_status(status))
    } else if !has_base {
        Err(CVPixelBufferError::BaseAddress)
    } else {
        Ok(())
    }
}

/// Where the base address of a buffer stands.
pub ghost enum LockState {
    Unlocked,
    /// Locked in the given mode.
    Locked(CVPixelBufferLockFlags),
}

/// The state of a buffer after a call, for the calls that the protocol allows:
/// a lock of an unlocked buffer, and the unlock that matches the lock that is
/// held. It is `None` for every other call: a lock of a buffer that is locked
/// already, an unlock in another mode, a call for another buffer.
pub open spec fn lock_step(buffer: BufferModel, state: LockState, call: BaseAddressCall) -> Option<
    LockState,
> {
    match state {
        LockState::Unlocked => if call == lock_call_of(buffer, CVPixelBufferLockFlags::ReadOnly) {
            Some(LockState::Locked(CVPixelBufferLockFlags::ReadOnly))
        } else if call == lock_call_of(buffer, CVPixelBufferLockFlags::ReadWrite) {
            Some(LockState::Locked(CVPixelBufferLockFlags::ReadWrite))
        } else {
            None
        },
        LockState::Locked(flags) => if call == unlock_call_of(buffer, flags) {
            Some(LockState::Unlocked)
        } else {
            None
        },
    }
}

/// A shared view of the pixel storage of a locked buffer. It holds a handle of
/// its own, which keeps the foreign object alive for as long as the view is out.
#[derive(Debug)]
pub struct BaseAddressGuard<'a> {
    buffer: CVPixelBuffer,
    bytes: &'a [u8],
}

impl<'a> View for BaseAddressGuard<'a> {
    type V = Seq<u8>;

    /// The bytes of the pixel storage.
    closed spec fn view(&self) -> Seq<u8> {
        self.bytes@
    }
}

impl<'a> BaseAddressGuard<'a> {
    /// The buffer that is locked.
    pub closed spec fn buffer(&self) -> BufferModel {
        self.buffer@
    }

    /// The pixel storage, to read.
    pub fn as_slice(&self) -> (bytes: &[u8])
        ensures
            bytes@ == self@,
    {
        self.bytes
    }

    /// The call that ends the guard: an unlock of the same buffer, read-only as
    /// the lock was.
    pub fn unlock(&self) -> (call: BaseAddressCall)
        ensures
            call == unlock_call_of(self.buffer(), CVPixelBufferLockFlags::ReadOnly),
    {
        self.buffer.internal_unlock_base_address(CVPixelBufferLockFlags::ReadOnly)
    }
}

impl<'a> Deref for BaseAddressGuard<'a> {
    type Target = [u8];

    fn deref(&self) -> (bytes: &[u8])
        ensures
            bytes@ == self@,
    {
        self.bytes
    }
}

/// An exclusive view of the pixel storage of a locked buffer. It holds a handle
/// of its own, which keeps the foreign object alive for as long as the view is
/// out.
#[derive(Debug)]
pub struct MutBaseAddressGuard<'a> {
    buffer: CVPixelBuffer,
    bytes: &'a mut [u8],
}

impl<'a> View for MutBaseAddressGuard<'a> {
    type V = Seq<u8>;

    /// The bytes of the pixel storage.
    closed spec fn view(&self) -> Seq<u8> {
        self.bytes@
    }
}

impl<'a> MutBaseAddressGuard<'a> {
    /// The buffer that is locked.
    pub closed spec fn buffer(&self) -> BufferModel {
        self.buffer@
    }

    /// The pixel storage, to read.
    pub fn as_slice(&self) -> (bytes: &[u8])
        ensures
            bytes@ == self@,
    {
        self.bytes
    }

    /// The pixel storage, to write to. What is written is what the guard holds
    /// from then on.
    pub fn as_mut_slice(&mut self) -> (bytes: &mut [u8])
        ensures
            bytes@ == old(self)@,
            final(self)@ == final(bytes)@,
            final(self).buffer() == old(self).buffer(),
    {
        self.bytes
    }

    /// The call that ends the guard: an unlock of the same buffer, read-write as
    /// the lock was.
    pub fn unlock_mut(&mut self) -> (call: BaseAddressCall)
        ensures
            call == unlock_call_of(old(self).buffer(), CVPixelBufferLockFlags::ReadWrite),
            final(self)@ == old(self)@,
            final(self).buffer() == old(self).buffer(),
    {
        self.buffer.internal_unlock_base_address(CVPixelBufferLockFlags::ReadWrite)
    }
}

impl<'a> Deref for MutBaseAddressGuard<'a> {
    type Target = [u8];

    fn deref(&self) -> (bytes: &[u8])
        ensures
            bytes@ == self@,
    {
        self.bytes
    }
}

impl<'a> DerefMut for MutBaseAddressGuard<'a> {
    fn deref_mut(&mut self) -> (bytes: &mut [u8])
        ensures
            bytes@ == old(self)@,
            final(self)@ == final(bytes)@,
            final(self).buffer() == old(self).buffer(),
    {
        self.bytes
    }
}

impl CVPixelBuffer {
    /// The call that locks the base address of the buffer in the given mode.
    pub fn internal_lock_base_address(&self, lock_flags: CVPixelBufferLockFlags) -> (call:
        BaseAddressCall)
        ensures
            call == lock_call_of(self@, lock_flags),
    {
        BaseAddressCall::Lock { buffer: self.address(), flags: lock_flags.bits() }
    }

    /// The call that unlocks the base address of the buffer, for a lock of the
    /// given mode.
    pub fn internal_unlock_base_address(&self, unlock_flags: CVPixelBufferLockFlags) -> (call:
        BaseAddressCall)
        ensures
            call == unlock_call_of(self@, unlock_flags),
    {
        BaseAddressCall::Unlock { buffer: self.address(), flags: unlock_flags.bits() }
    }

    /// Resolves the base address of the locked buffer. `base` is the pixel
    /// storage found there, `None` where the foreign runtime gave a null address:
    /// that is the error `BaseAddress`.
    pub fn internal_base_address<'a>(&self, base: Option<&'a [u8]>) -> (resolved: Result<
        &'a [u8],
        CVPixelBufferError,
    >)
        requires
            base matches Some(bytes) ==> bytes@.len() == self@.byte_len(),
        ensures
            match base {
                Some(bytes) => resolved == Ok::<&[u8], CVPixelBufferError>(bytes),
                None => resolved == Err::<&[u8], CVPixelBufferError>(
                    CVPixelBufferError::BaseAddress,
                ),
            },
            resolved matches Ok(bytes) ==> bytes@.len() == self@.byte_len(),
    {
        match base {
            Some(bytes) => Ok(bytes),
            None => Err(CVPixelBufferError::BaseAddress),
        }
    }

    /// Resolves the base address of the locked buffer for writing. `base` is the
    /// pixel storage found there, `None` where the foreign runtime gave a null
    /// address: that is the error `BaseAddress`.
    pub fn internal_base_address_mut<'a>(&self, base: Option<&'a mut [u8]>) -> (resolved: Result<
        &'a mut [u8],
        CVPixelBufferError,
    >)
        requires
            base matches Some(bytes) ==> bytes@.len() == self@.byte_len(),
        ensures
            match base {
                Some(bytes) => {
                    &&& resolved matches Ok(storage)
                    &&& storage@ == bytes@
                    &&& final(storage)@ == final(bytes)@
                },
                None => resolved matches Err(error) && error == CVPixelBufferError::BaseAddress,
            },
            resolved matches Ok(storage) ==> storage@.len() == self@.byte_len(),
    {
        match base {
            Some(bytes) => Ok(bytes),
            None => Err(CVPixelBufferError::BaseAddress),
        }
    }

    /// Takes the answer to the read-only lock call and builds the shared guard.
    /// `status` is what the lock call returned. `base` is the pixel storage
    /// found at the base address afterwards, `None` where the foreign runtime
    /// gave a null address or the lock failed. A failed lock is the error that
    /// its status stands for; a null address after a lock that succeeded is
    /// `BaseAddress`. The guard's view is the storage, `bytes_per_row * height`
    /// bytes long.
    pub fn lock<'a>(&self, status: i32, base: Option<&'a [u8]>) -> (locked: Result<
        BaseAddressGuard<'a>,
        CVPixelBufferError,
    >)
        requires
            base matches Some(bytes) ==> bytes@.len() == self@.byte_len(),
        ensures
            match locked {
                Ok(guard) => {
                    &&& lock_outcome(status, base is Some) is Ok
                    &&& base matches Some(bytes)
                    &&& guard@ == bytes@
                    &&& guard@.len() == self@.byte_len()
                    &&& guard.buffer() == self@
                },
                Err(error) => lock_outcome(status, base is Some) == Err::<(), CVPixelBufferError>(
                    error,
                ),
            },
    {
        match check_status(status) {
            Ok(()) => {},
            Err(error) => {
                return Err(error);
            },
        }
        match self.internal_base_address(base) {
            Ok(bytes) => Ok(BaseAddressGuard { buffer: self.clone(), bytes }),
            Err(error) => Err(error),
        }
    }

    /// Takes the answer to the read-write lock call and builds the exclusive
    /// guard. `status` is what the lock call returned. `base` is the pixel
    /// storage found at the base address afterwards, `None` where the foreign
    /// runtime gave a null address or the lock failed. A failed lock is the
    /// error that its status stands for; a null address after a lock that
    /// succeeded is `BaseAddress`. The guard's view is the storage,
    /// `bytes_per_row * height` bytes long.
    pub fn lock_mut<'a>(&mut self, status: i32, base: Option<&'a mut [u8]>) -> (locked: Result<
        MutBaseAddressGuard<'a>,
        CVPixelBufferError,
    >)
        requires
            base matches Some(bytes) ==> bytes@.len() == old(self)@.byte_len(),
        ensures
            final(self)@ == old(self)@,
            match locked {
                Ok(guard) => {
                    &&& lock_outcome(status, base is Some) is Ok
                    &&& base matches Some(bytes)
                    &&& guard@ == bytes@
                    &&& guard@.len() == old(self)@.byte_len()
                    &&& guard.buffer() == old(self)@
                },
                Err(error) => lock_outcome(status, base is Some) == Err::<(), CVPixelBufferError>(
                    error,
                ),
            },
    {
        match check_status(status) {
            Ok(()) => {},
            Err(error) => {
                return Err(error);
            },
        }
        match self.internal_base_address_mut(base) {
            Ok(bytes) => Ok(MutBaseAddressGuard { buffer: self.clone(), bytes }),
            Err(error) => Err(error),
        }
    }
}

/// Round trip: the lock call of a handle takes an unlocked buffer to the state
/// locked in that mode, and the unlock call that the guard of that mode states
/// takes it back to unlocked, from where it can be locked in either mode again.
/// No other call is allowed while the lock is held.
pub proof fn lemma_lock_round_trip(
    buffer: BufferModel,
    first: CVPixelBufferLockFlags,
    second: CVPixelBufferLockFlags,
    other: BaseAddressCall,
)
    ensures
        lock_step(buffer, LockState::Unlocked, lock_call_of(buffer, first)) == Some(
            LockState::Locked(first),
        ),
        lock_step(buffer, LockState::Locked(first), unlock_call_of(buffer, first)) == Some(
            LockState::Unlocked,
        ),
        lock_step(buffer, LockState::Unlocked, lock_call_of(buffer, second)) == Some(
            LockState::Locked(second),
        ),
        other != unlock_call_of(buffer, first) ==> lock_step(
            buffer,
            LockState::Locked(first),
            other,
        ) is None,
{
}

/// The unlock call that a guard states is the match of the lock call that made
/// it: the same buffer and the same mode. The two modes never share a number.
pub proof fn lemma_unlock_matches_lock(buffer: BufferModel, flags: CVPixelBufferLockFlags)
    ensures
        lock_call_of(buffer, flags) matches BaseAddressCall::Lock { buffer: locked, flags: mode }
            && unlock_call_of(buffer, flags) == (BaseAddressCall::Unlock {
            buffer: locked,
            flags: mode,
        }),
        CVPixelBufferLockFlags::ReadOnly.bits_spec() != CVPixelBufferLockFlags::ReadWrite.bits_spec(),
{
}

} // verus!
