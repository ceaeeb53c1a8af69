//! Constructor carriers for the standard containers.
//!
//! The capability operations on the standard types live in their trait
//! implementations ([`crate::containers`], [`crate::sync`]), and Rust does
//! not let a crate declare an inherent method on a type from another
//! crate.  Callers who want the operation spelled as a method of the
//! container's own name — `Vec::resize_uninit`, `Box::new_safe_uninit` —
//! find here, under each standard container's name, a thin carrier that
//! holds one such container and hands the capability's operations on,
//! contracts unchanged.

use crate::laws::resize_shape;
use crate::ResizeUninit;
use crate::SafeUninit;
use crate::UninitContent;
use vstd::prelude::*;

verus! {

/// Carrier of a standard growable contiguous sequence, adding the
/// resize-without-writing operations as inherent methods.
pub struct Vec<T> {
    /// The carried sequence.
    pub seq: std::vec::Vec<T>,
}

impl<T: SafeUninit> Vec<T> {
    /// As [`crate::ResizeUninit::with_uninit_len`] on the carried sequence.
    pub fn with_uninit_len(len: usize) -> (r: Self)
        ensures
            r.seq@.len() == len,
            forall|i: int| 0 <= i < len ==> r.seq@[i].wf(),
    {
        Vec { seq: <std::vec::Vec<T> as ResizeUninit>::with_uninit_len(len) }
    }

    /// As [`crate::ResizeUninit::resize_uninit`] on the carried sequence.
    pub fn resize_uninit(&mut self, new_len: usize)
        ensures
            resize_shape(old(self).seq@, final(self).seq@, new_len as int),
            forall|i: int| old(self).seq@.len() <= i < new_len ==> final(self).seq@[i].wf(),
    {
        self.seq.resize_uninit(new_len);
    }
}

/// Carrier of a standard growable double-ended sequence, adding the
/// resize-without-writing operations as inherent methods.
pub struct VecDeque<T> {
    /// The carried sequence.
    pub seq: std::collections::VecDeque<T>,
}

impl<T: SafeUninit> VecDeque<T> {
    /// As [`crate::ResizeUninit::with_uninit_len`] on the carried sequence.
    pub fn with_uninit_len(len: usize) -> (r: Self)
        ensures
            r.seq@.len() == len,
            forall|i: int| 0 <= i < len ==> r.seq@[i].wf(),
    {
        VecDeque { seq: <std::collections::VecDeque<T> as ResizeUninit>::with_uninit_len(len) }
    }

    /// As [`crate::ResizeUninit::resize_uninit`] on the carried sequence.
    pub fn resize_uninit(&mut self, new_len: usize)
        ensures
            resize_shape(old(self).seq@, final(self).seq@, new_len as int),
            forall|i: int| old(self).seq@.len() <= i < new_len ==> final(self).seq@[i].wf(),
    {
        self.seq.resize_uninit(new_len);
    }
}

/// Carrier of a standard single-owner heap box, adding the
/// unwritten-payload constructor as an inherent method.
pub struct Box<T> {
    /// The carried box.
    pub boxed: std::boxed::Box<T>,
}

impl<T: SafeUninit> Box<T> {
    /// As [`crate::UninitContent::new_safe_uninit`] on the carried box.
    pub fn new_safe_uninit() -> (r: Self)
        ensures
            r.boxed.wf(),
    {
        Box { boxed: <std::boxed::Box<T> as UninitContent>::new_safe_uninit() }
    }
}

/// Carrier of a standard single-thread reference-counted cell, adding the
/// unwritten-payload constructor as an inherent method.
pub struct Rc<T> {
    /// The carried cell.
    pub cell: std::rc::Rc<T>,
}

impl<T: SafeUninit> Rc<T> {
    /// As [`crate::UninitContent::new_safe_uninit`] on the carried cell.
    pub fn new_safe_uninit() -> (r: Self)
        ensures
            r.cell.wf(),
    {
        Rc { cell: <std::rc::Rc<T> as UninitContent>::new_safe_uninit() }
    }
}

/// Carrier of a standard shared-owner reference-counted cell, adding the
/// unwritten-payload constructor as an inherent method.
pub struct Arc<T> {
    /// The carried cell.
    pub cell: std::sync::Arc<T>,
}

impl<T: SafeUninit> Arc<T> {
    /// As [`crate::UninitContent::new_safe_uninit`] on the carried cell.
    pub fn new_safe_uninit() -> (r: Self)
        ensures
            r.cell.wf(),
    {
        Arc { cell: <std::sync::Arc<T> as UninitContent>::new_safe_uninit() }
    }
}

/// Carrier of a standard mutex, adding the unwritten-payload constructor as
/// an inherent method.
#[verifier::reject_recursive_types(T)]
pub struct Mutex<T> {
    /// The carried mutex.
    pub lock: std::sync::Mutex<T>,
}

impl<T: SafeUninit> Mutex<T> {
    /// As [`crate::UninitContent::new_safe_uninit`] on the carried mutex:
    /// the mutex's own state is written by its ordinary constructor, and
    /// the type is opaque to the verifier, so nothing further is stated.
    pub fn new_safe_uninit() -> (r: Self) {
        Mutex { lock: <std::sync::Mutex<T> as UninitContent>::new_safe_uninit() }
    }
}

/// Carrier of a standard reader–writer lock, adding the unwritten-payload
/// constructor as an inherent method.
#[verifier::reject_recursive_types(T)]
pub struct RwLock<T> {
    /// The carried lock.
    pub lock: std::sync::RwLock<T>,
}

impl<T: SafeUninit> RwLock<T> {
    /// As [`crate::UninitContent::new_safe_uninit`] on the carried lock:
    /// the lock's own state is written by its ordinary constructor, and
    /// the type is opaque to the verifier, so nothing further is stated.
    pub fn new_safe_uninit() -> (r: Self) {
        RwLock { lock: <std::sync::RwLock<T> as UninitContent>::new_safe_uninit() }
    }
}

} // verus!
