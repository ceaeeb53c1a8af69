//! Smoke tests for the leaf catalogue and the composition rules: repeated
//! uninitialized construction and read-back must never fault, and composite
//! construction must be observably the same as assembling independently
//! constructed parts.
//!
//! A deliberate boundary, asserted here as part of the test plan: declaring
//! the capability for `bool`, or for a never-zero refinement type, is a
//! contract violation this crate cannot detect — it would be latent
//! undefined behaviour at the point of use, never a caught error.  No such
//! declaration exists in this crate, and none of these tests could expose
//! one if it did.

use core::sync::atomic::Ordering;
use safe_uninit::safe_uninit;
use safe_uninit::SafeUninit;

#[test]
fn base_cases_read_back_many_times() {
    // N = 0 constructions is allowed, then a representative N > 0 for each
    // base-case kind; every result is read back.
    for _ in 0..0u32 {
        let x: u64 = u64::safe_uninit();
        let _ = x.wrapping_add(1);
    }
    let mut acc: u128 = 0;
    for _ in 0..100 {
        let a: u8 = u8::safe_uninit();
        let b: u16 = u16::safe_uninit();
        let c: u32 = u32::safe_uninit();
        let d: u64 = u64::safe_uninit();
        let e: u128 = u128::safe_uninit();
        let f: usize = usize::safe_uninit();
        let g: i8 = i8::safe_uninit();
        let h: i16 = i16::safe_uninit();
        let i: i32 = i32::safe_uninit();
        let j: i64 = i64::safe_uninit();
        let k: i128 = i128::safe_uninit();
        let l: isize = isize::safe_uninit();
        let _unit: () = <()>::safe_uninit();
        acc = acc
            .wrapping_add(a as u128)
            .wrapping_add(b as u128)
            .wrapping_add(c as u128)
            .wrapping_add(d as u128)
            .wrapping_add(e)
            .wrapping_add(f as u128)
            .wrapping_add(g as u128)
            .wrapping_add(h as u128)
            .wrapping_add(i as u128)
            .wrapping_add(j as u128)
            .wrapping_add(k as u128)
            .wrapping_add(l as u128);
    }
    let _ = acc;
}

#[test]
fn atomic_base_cases_read_back() {
    for _ in 0..10 {
        let a = core::sync::atomic::AtomicU8::safe_uninit();
        let b = core::sync::atomic::AtomicU16::safe_uninit();
        let c = core::sync::atomic::AtomicU32::safe_uninit();
        let d = core::sync::atomic::AtomicU64::safe_uninit();
        let e = core::sync::atomic::AtomicUsize::safe_uninit();
        let f = core::sync::atomic::AtomicI8::safe_uninit();
        let g = core::sync::atomic::AtomicI16::safe_uninit();
        let h = core::sync::atomic::AtomicI32::safe_uninit();
        let i = core::sync::atomic::AtomicI64::safe_uninit();
        let j = core::sync::atomic::AtomicIsize::safe_uninit();
        let _ = a.load(Ordering::Relaxed);
        let _ = b.load(Ordering::Relaxed);
        let _ = c.load(Ordering::Relaxed);
        let _ = d.load(Ordering::Relaxed);
        let _ = e.load(Ordering::Relaxed);
        let _ = f.load(Ordering::Relaxed);
        let _ = g.load(Ordering::Relaxed);
        let _ = h.load(Ordering::Relaxed);
        let _ = i.load(Ordering::Relaxed);
        let _ = j.load(Ordering::Relaxed);
    }
}

#[test]
fn array_construction_matches_elementwise_assembly() {
    // Array-level construction.
    let direct: [u64; 16] = <[u64; 16]>::safe_uninit();
    // Element-wise construction, assembled by the caller.
    let assembled: [u64; 16] = core::array::from_fn(|_| u64::safe_uninit());
    // Observably equivalent: same length, same element type, and every
    // element of either can be read back.
    assert_eq!(direct.len(), assembled.len());
    for i in 0..16 {
        let _ = direct[i].wrapping_add(assembled[i]);
    }
}

#[test]
fn array_lengths_zero_and_largest_declared() {
    let empty: [u32; 0] = <[u32; 0]>::safe_uninit();
    assert_eq!(empty.len(), 0);
    let largest: [u8; 32] = <[u8; 32]>::safe_uninit();
    assert_eq!(largest.len(), 32);
    // A longer array than any declared length, assembled element by
    // element, which stays within the capability.
    let big: [usize; 256] = core::array::from_fn(|_| usize::safe_uninit());
    assert_eq!(big.len(), 256);
}

#[test]
fn tuple_components_each_usable() {
    let pair: (u8, u64) = SafeUninit::safe_uninit();
    let _ = pair.0.wrapping_add(1);
    let _ = pair.1.wrapping_add(1);
    // The largest declared arity; every component is read back, and each
    // component is itself a base case or a declared composite.
    let t: (u8, u16, u32, u64, usize, i8, i16, i32, i64, isize, (), [u8; 2]) =
        SafeUninit::safe_uninit();
    let _ = t.0.wrapping_add(1);
    let _ = t.1.wrapping_add(1);
    let _ = t.2.wrapping_add(1);
    let _ = t.3.wrapping_add(1);
    let _ = t.4.wrapping_add(1);
    let _ = t.5.wrapping_add(1);
    let _ = t.6.wrapping_add(1);
    let _ = t.7.wrapping_add(1);
    let _ = t.8.wrapping_add(1);
    let _ = t.9.wrapping_add(1);
    let _unit: () = t.10;
    assert_eq!(t.11.len(), 2);
}

#[test]
fn shorthand_and_trait_call_agree_in_shape() {
    let via_trait: [usize; 32] = SafeUninit::safe_uninit();
    let via_shorthand: [usize; 32] = safe_uninit();
    assert_eq!(via_trait.len(), via_shorthand.len());
}
