//! Raw slice descriptors: lifetime-erased, non-owning views of contiguous
//! memory.
//!
//! A descriptor packages the starting address and element count of a borrowed
//! slice as a plain value, so that the pair can be handed to another execution
//! context (an interrupt handler, a DMA-driven peripheral driver) without a
//! compile-time-checked lifetime. The descriptor never owns or revalidates the
//! memory it names: keeping the referenced memory alive, unaliased and
//! properly synchronized is entirely the caller's responsibility.
//!
//! Two sibling variants exist: [`RawSlice`] is a read-only view and
//! [`RawSliceMut`] a read-write view. They are deliberately independent types,
//! because the safety contracts a caller must uphold differ (shared read
//! access versus exclusive access).
//!
//! Each descriptor is either *null* (it references no buffer at all) or
//! non-null with a cached element count. A null descriptor is distinct from a
//! non-null descriptor of length zero: the latter is a valid, empty view.
//! Observers answer `None` ("unknown"/"absent") on a null descriptor.
//!
//! Reconstructing an actual slice from a descriptor's address and length is an
//! operation the verifier cannot vouch for (the validity window of the memory
//! is known only to the caller), so this library exposes the raw pair and
//! leaves the final dereference to the surrounding unverified code.
//!
//! Both variants are plain values of an address and a length, so a descriptor
//! may be moved across execution contexts (each is `Send` whenever `T` is).
//! That says nothing about the referenced memory: concurrent access to the
//! same underlying memory from two contexts without external locking is a
//! race regardless of how the descriptor is passed.

use vstd::prelude::*;

pub mod raw_slice;
pub mod raw_slice_mut;

pub use raw_slice::RawSlice;
pub use raw_slice_mut::RawSliceMut;

verus! {

/// Read-only descriptor over bytes, the word size of most serial peripherals.
pub type RawBufSlice = RawU8Slice;

/// Read-only descriptor over 8-bit elements.
pub type RawU8Slice = RawSlice<u8>;

/// Read-only descriptor over 16-bit elements.
pub type RawU16Slice = RawSlice<u16>;

/// Read-only descriptor over 32-bit elements.
pub type RawU32Slice = RawSlice<u32>;

/// Read-write descriptor over bytes.
pub type RawBufSliceMut = RawU8SliceMut;

/// Read-write descriptor over 8-bit elements.
pub type RawU8SliceMut = RawSliceMut<u8>;

/// Read-write descriptor over 16-bit elements.
pub type RawU16SliceMut = RawSliceMut<u16>;

/// Read-write descriptor over 32-bit elements.
pub type RawU32SliceMut = RawSliceMut<u32>;

} // verus!
