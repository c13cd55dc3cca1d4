//! Exercises both descriptor variants through their public surface.
//!
//! The original slice can only be reconstructed from a descriptor by
//! unverified code, so where a scenario would dereference the view these
//! tests check the raw address/length pair the library hands out instead.

use raw_slice::{RawBufSlice, RawBufSliceMut, RawSliceMut, RawU16Slice, RawU32SliceMut};

fn generic_empty_test(slice: &RawBufSlice) {
    assert!(slice.is_null());
    assert!(slice.is_empty().is_none());
    assert!(slice.len().is_none());
    assert!(slice.get().is_none());
}

fn generic_empty_test_mut(slice: &mut RawBufSliceMut) {
    assert!(slice.is_null());
    assert!(slice.is_empty().is_none());
    assert!(slice.len().is_none());
    assert!(slice.get().is_none());
    assert!(slice.get_mut().is_none());
}

#[test]
fn test_basic() {
    let slice = [1, 2, 3, 4];
    let mut slice_raw = RawBufSlice::new(&slice);
    assert_eq!(slice_raw.len().unwrap(), 4);
    assert!(!slice_raw.is_null());
    assert!(!slice_raw.is_empty().unwrap());
    assert_eq!(slice_raw.len().unwrap(), 4);
    let (addr, len) = slice_raw.get().unwrap();
    assert_ne!(addr, 0);
    assert_eq!(len, 4);
    slice_raw.set_null();
    generic_empty_test(&slice_raw);
}

#[test]
fn test_empty() {
    let empty = RawBufSlice::new_nulled();
    generic_empty_test(&empty);
}

#[test]
fn test_empty_mut() {
    let mut empty = RawBufSliceMut::new_nulled();
    generic_empty_test_mut(&mut empty);
}

#[test]
fn test_clonable() {
    let slice = [1, 2, 3, 4];
    let slice_raw = RawBufSlice::new(&slice);
    let slice_copied = slice_raw;
    assert!(slice_copied == slice_raw);
}

#[test]
fn test_basic_mut() {
    let mut slice = [1, 2, 3, 4];
    let mut slice_raw = RawBufSliceMut::new(&mut slice);
    assert_eq!(slice_raw.len().unwrap(), 4);
    assert!(!slice_raw.is_null());
    assert!(!slice_raw.is_empty().unwrap());
    assert_eq!(slice_raw.len().unwrap(), 4);
    let read_back = slice_raw.get().unwrap();
    let mut_read_back = slice_raw.get_mut().unwrap();
    assert_eq!(read_back, mut_read_back);
    assert_ne!(read_back.0, 0);
    assert_eq!(read_back.1, 4);
    slice_raw.set_null();
    generic_empty_test_mut(&mut slice_raw);
}

#[test]
fn test_zero_length_is_not_null() {
    let slice: [u8; 0] = [];
    let slice_raw = RawBufSlice::new(&slice);
    assert!(!slice_raw.is_null());
    assert_eq!(slice_raw.is_empty(), Some(true));
    assert_eq!(slice_raw.len(), Some(0));
    let (addr, len) = slice_raw.get().unwrap();
    assert_ne!(addr, 0);
    assert_eq!(len, 0);
}

#[test]
fn test_zero_length_is_not_null_mut() {
    let mut slice: [u8; 0] = [];
    let mut slice_raw = RawBufSliceMut::new(&mut slice);
    assert!(!slice_raw.is_null());
    assert_eq!(slice_raw.is_empty(), Some(true));
    assert_eq!(slice_raw.len(), Some(0));
    assert!(slice_raw.get_mut().is_some());
}

#[test]
fn test_update_reflects_new_slice() {
    let first = [1, 2, 3, 4];
    let second = [9, 8, 7];
    let mut slice_raw = RawBufSlice::new(&first);
    assert_eq!(slice_raw.len(), Some(4));
    slice_raw.set(&second);
    assert_eq!(slice_raw.len(), Some(3));
    assert!(!slice_raw.is_null());
    assert_eq!(slice_raw.is_empty(), Some(false));
    let (addr, len) = slice_raw.get().unwrap();
    assert_eq!((addr, len), (second.as_ptr() as usize, 3));
}

#[test]
fn test_update_reflects_new_slice_mut() {
    let mut first = [1, 2, 3, 4];
    let mut second = [9, 8];
    let mut slice_raw = RawBufSliceMut::new(&mut first);
    assert_eq!(slice_raw.len(), Some(4));
    slice_raw.set(&mut second);
    assert_eq!(slice_raw.len(), Some(2));
    assert!(!slice_raw.is_null());
    assert_eq!(slice_raw.get().unwrap().1, 2);
}

#[test]
fn test_copies_are_independent() {
    let slice = [1, 2, 3, 4];
    let slice_raw = RawBufSlice::new(&slice);
    let mut copy = slice_raw;
    copy.set_null();
    assert!(copy.is_null());
    assert!(!slice_raw.is_null());
    assert_eq!(slice_raw.len(), Some(4));
}

#[test]
fn test_copies_are_independent_mut() {
    let mut slice = [1, 2, 3, 4];
    let slice_raw = RawBufSliceMut::new(&mut slice);
    let mut copy = slice_raw;
    copy.set_null();
    assert!(copy.is_null());
    assert!(!slice_raw.is_null());
    assert_eq!(slice_raw.len(), Some(4));
}

#[test]
fn test_equality_is_address_and_length() {
    let slice = [1, 2, 3, 4];
    let a = RawBufSlice::new(&slice);
    let b = RawBufSlice::new(&slice);
    assert!(a == b);
    let shorter = RawBufSlice::new(&slice[..2]);
    assert!(a != shorter);
    let nulled = RawBufSlice::new_nulled();
    assert!(a != nulled);
    assert!(nulled == RawBufSlice::new_nulled());
}

#[test]
fn test_default_is_nulled() {
    let d: RawBufSlice = Default::default();
    generic_empty_test(&d);
    let mut m: RawBufSliceMut = Default::default();
    generic_empty_test_mut(&mut m);
}

#[test]
fn test_capture_matches_slice_address() {
    let slice = [1u8, 2, 3, 4];
    let slice_raw = RawBufSlice::new(&slice);
    let (addr, len) = slice_raw.get().unwrap();
    assert_eq!(addr, slice.as_ptr() as usize);
    assert_eq!(len, slice.len());
}

#[test]
fn test_buffer_info_read() {
    let slice = [5u16, 6, 7];
    let slice_raw = RawU16Slice::new(&slice);
    assert_eq!(slice_raw.read_buffer_info(), (slice.as_ptr() as usize, 3));
    let nulled = RawU16Slice::new_nulled();
    assert_eq!(nulled.read_buffer_info(), (0, 0));
}

#[test]
fn test_buffer_info_write() {
    let mut slice = [5u32, 6, 7];
    let expected_addr = slice.as_ptr() as usize;
    let mut slice_raw = RawU32SliceMut::new(&mut slice);
    assert_eq!(slice_raw.write_buffer_info(), (expected_addr, 3));
    let mut nulled: RawSliceMut<u32> = RawSliceMut::new_nulled();
    assert_eq!(nulled.write_buffer_info(), (0, 0));
}
