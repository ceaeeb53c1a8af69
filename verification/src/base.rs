//! The base-case catalogue: the leaf types for which the bit-pattern claim
//! of [`SafeUninit`] is intrinsically true, each with its justification.

use crate::SafeUninit;
use core::sync::atomic::AtomicI16;
use core::sync::atomic::AtomicI32;
use core::sync::atomic::AtomicI64;
use core::sync::atomic::AtomicI8;
use core::sync::atomic::AtomicIsize;
use core::sync::atomic::AtomicU16;
use core::sync::atomic::AtomicU32;
use core::sync::atomic::AtomicU64;
use core::sync::atomic::AtomicU8;
use core::sync::atomic::AtomicUsize;
use vstd::prelude::*;

verus! {

/// Justification: every pattern of the unsigned 8-bit integer's bytes is one of its
/// values; the type has no illegal representation.
impl SafeUninit for u8 {
    open spec fn wf(self) -> bool {
        true
    }

    fn safe_uninit() -> (r: Self) {
        0
    }
}

/// Justification: every pattern of the unsigned 16-bit integer's bytes is one of its
/// values; the type has no illegal representation.
impl SafeUninit for u16 {
    open spec fn wf(self) -> bool {
        true
    }

    fn safe_uninit() -> (r: Self) {
        0
    }
}

/// Justification: every pattern of the unsigned 32-bit integer's bytes is one of its
/// values; the type has no illegal representation.
impl SafeUninit for u32 {
    open spec fn wf(self) -> bool {
        true
    }

    fn safe_uninit() -> (r: Self) {
        0
    }
}

/// Justification: every pattern of the unsigned 64-bit integer's bytes is one of its
/// values; the type has no illegal representation.
impl SafeUninit for u64 {
    open spec fn wf(self) -> bool {
        true
    }

    fn safe_uninit() -> (r: Self) {
        0
    }
}

/// Justification: every pattern of the unsigned 128-bit integer's bytes is one of its
/// values; the type has no illegal representation.
impl SafeUninit for u128 {
    open spec fn wf(self) -> bool {
        true
    }

    fn safe_uninit() -> (r: Self) {
        0
    }
}

/// Justification: every pattern of the pointer-sized unsigned integer's bytes is one of its
/// values; the type has no illegal representation.
impl SafeUninit for usize {
    open spec fn wf(self) -> bool {
        true
    }

    fn safe_uninit() -> (r: Self) {
        0
    }
}

/// Justification: every pattern of the signed 8-bit integer's bytes is one of its
/// values; the type has no illegal representation.
impl SafeUninit for i8 {
    open spec fn wf(self) -> bool {
        true
    }

    fn safe_uninit() -> (r: Self) {
        0
    }
}

/// Justification: every pattern of the signed 16-bit integer's bytes is one of its
/// values; the type has no illegal representation.
impl SafeUninit for i16 {
    open spec fn wf(self) -> bool {
        true
    }

    fn safe_uninit() -> (r: Self) {
        0
    }
}

/// Justification: every pattern of the signed 32-bit integer's bytes is one of its
/// values; the type has no illegal representation.
impl SafeUninit for i32 {
    open spec fn wf(self) -> bool {
        true
    }

    fn safe_uninit() -> (r: Self) {
        0
    }
}

/// Justification: every pattern of the signed 64-bit integer's bytes is one of its
/// values; the type has no illegal representation.
impl SafeUninit for i64 {
    open spec fn wf(self) -> bool {
        true
    }

    fn safe_uninit() -> (r: Self) {
        0
    }
}

/// Justification: every pattern of the signed 128-bit integer's bytes is one of its
/// values; the type has no illegal representation.
impl SafeUninit for i128 {
    open spec fn wf(self) -> bool {
        true
    }

    fn safe_uninit() -> (r: Self) {
        0
    }
}

/// Justification: every pattern of the pointer-sized signed integer's bytes is one of its
/// values; the type has no illegal representation.
impl SafeUninit for isize {
    open spec fn wf(self) -> bool {
        true
    }

    fn safe_uninit() -> (r: Self) {
        0
    }
}

/// Justification: the unit type occupies no memory at all, so there is
/// nothing whose pattern could be illegal.
impl SafeUninit for () {
    open spec fn wf(self) -> bool {
        true
    }

    fn safe_uninit() -> (r: Self) {
    }
}

/// Justification: `AtomicU8` has exactly the footprint of `u8`, whose every
/// pattern is legal; before any atomic operation touches it, its initial
/// pattern is simply an integer value.
impl SafeUninit for AtomicU8 {
    open spec fn wf(self) -> bool {
        true
    }

    fn safe_uninit() -> (r: Self) {
        AtomicU8::new(0)
    }
}

/// Justification: `AtomicU16` has exactly the footprint of `u16`, whose every
/// pattern is legal; before any atomic operation touches it, its initial
/// pattern is simply an integer value.
impl SafeUninit for AtomicU16 {
    open spec fn wf(self) -> bool {
        true
    }

    fn safe_uninit() -> (r: Self) {
        AtomicU16::new(0)
    }
}

/// Justification: `AtomicU32` has exactly the footprint of `u32`, whose every
/// pattern is legal; before any atomic operation touches it, its initial
/// pattern is simply an integer value.
impl SafeUninit for AtomicU32 {
    open spec fn wf(self) -> bool {
        true
    }

    fn safe_uninit() -> (r: Self) {
        AtomicU32::new(0)
    }
}

/// Justification: `AtomicU64` has exactly the footprint of `u64`, whose every
/// pattern is legal; before any atomic operation touches it, its initial
/// pattern is simply an integer value.
impl SafeUninit for AtomicU64 {
    open spec fn wf(self) -> bool {
        true
    }

    fn safe_uninit() -> (r: Self) {
        AtomicU64::new(0)
    }
}

/// Justification: `AtomicUsize` has exactly the footprint of `usize`, whose every
/// pattern is legal; before any atomic operation touches it, its initial
/// pattern is simply an integer value.
impl SafeUninit for AtomicUsize {
    open spec fn wf(self) -> bool {
        true
    }

    fn safe_uninit() -> (r: Self) {
        AtomicUsize::new(0)
    }
}

/// Justification: `AtomicI8` has exactly the footprint of `i8`, whose every
/// pattern is legal; before any atomic operation touches it, its initial
/// pattern is simply an integer value.
impl SafeUninit for AtomicI8 {
    open spec fn wf(self) -> bool {
        true
    }

    fn safe_uninit() -> (r: Self) {
        AtomicI8::new(0)
    }
}

/// Justification: `AtomicI16` has exactly the footprint of `i16`, whose every
/// pattern is legal; before any atomic operation touches it, its initial
/// pattern is simply an integer value.
impl SafeUninit for AtomicI16 {
    open spec fn wf(self) -> bool {
        true
    }

    fn safe_uninit() -> (r: Self) {
        AtomicI16::new(0)
    }
}

/// Justification: `AtomicI32` has exactly the footprint of `i32`, whose every
/// pattern is legal; before any atomic operation touches it, its initial
/// pattern is simply an integer value.
impl SafeUninit for AtomicI32 {
    open spec fn wf(self) -> bool {
        true
    }

    fn safe_uninit() -> (r: Self) {
        AtomicI32::new(0)
    }
}

/// Justification: `AtomicI64` has exactly the footprint of `i64`, whose every
/// pattern is legal; before any atomic operation touches it, its initial
/// pattern is simply an integer value.
impl SafeUninit for AtomicI64 {
    open spec fn wf(self) -> bool {
        true
    }

    fn safe_uninit() -> (r: Self) {
        AtomicI64::new(0)
    }
}

/// Justification: `AtomicIsize` has exactly the footprint of `isize`, whose every
/// pattern is legal; before any atomic operation touches it, its initial
/// pattern is simply an integer value.
impl SafeUninit for AtomicIsize {
    open spec fn wf(self) -> bool {
        true
    }

    fn safe_uninit() -> (r: Self) {
        AtomicIsize::new(0)
    }
}

} // verus!
