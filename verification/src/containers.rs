//! Container and wrapper capabilities: growable sequences that can expose
//! unwritten slots, and wrappers that own one unwritten value.

use crate::laws::resize_shape;
use crate::ResizeUninit;
use crate::SafeUninit;
use crate::UninitContent;
use std::collections::VecDeque;
use std::rc::Rc;
use std::sync::Arc;
use vstd::prelude::*;

verus! {

/// Justification: growing is done slot by slot with the element type's own
/// construction operation, so no newly exposed slot ever holds a pattern
/// the element type does not accept; the sequence's own bookkeeping is
/// maintained by its ordinary operations throughout.
impl<T: SafeUninit> ResizeUninit for Vec<T> {
    type Elem = T;

    open spec fn contents(self) -> Seq<T> {
        self@
    }

    fn with_uninit_len(len: usize) -> (r: Self) {
        let mut v: Vec<T> = Vec::with_capacity(len);
        v.resize_uninit(len);
        v
    }

    fn resize_uninit(&mut self, new_len: usize) {
        if new_len <= self.len() {
            self.truncate(new_len);
        } else {
            let ghost start = self@;
            while self.len() < new_len
                invariant
                    start.len() <= self@.len() <= new_len,
                    start =~= self@.subrange(0, start.len() as int),
                    forall|i: int| start.len() <= i < self@.len() ==> self@[i].wf(),
                decreases new_len - self.len(),
            {
                self.push(T::safe_uninit());
                assert(start =~= self@.subrange(0, start.len() as int));
            }
            assert forall|i: int| 0 <= i < start.len() && i < new_len implies self@[i]
                == start[i] by {
                assert(self@.subrange(0, start.len() as int)[i] == self@[i]);
            }
        }
    }
}

/// Justification: as for the contiguous sequence — growth happens one slot
/// at a time through the element type's own construction operation, and the
/// double-ended sequence's bookkeeping is kept by its ordinary operations.
impl<T: SafeUninit> ResizeUninit for VecDeque<T> {
    type Elem = T;

    open spec fn contents(self) -> Seq<T> {
        self@
    }

    fn with_uninit_len(len: usize) -> (r: Self) {
        let mut v: VecDeque<T> = VecDeque::with_capacity(len);
        v.resize_uninit(len);
        v
    }

    fn resize_uninit(&mut self, new_len: usize) {
        if new_len <= self.len() {
            self.truncate(new_len);
        } else {
            let ghost start = self@;
            while self.len() < new_len
                invariant
                    start.len() <= self@.len() <= new_len,
                    start =~= self@.subrange(0, start.len() as int),
                    forall|i: int| start.len() <= i < self@.len() ==> self@[i].wf(),
                decreases new_len - self.len(),
            {
                self.push_back(T::safe_uninit());
                assert(start =~= self@.subrange(0, start.len() as int));
            }
            assert forall|i: int| 0 <= i < start.len() && i < new_len implies self@[i]
                == start[i] by {
                assert(self@.subrange(0, start.len() as int)[i] == self@[i]);
            }
        }
    }
}

/// Justification: the box's allocation header is set up by its ordinary
/// constructor; only the payload it comes to own is an unwritten value of a
/// type that accepts every pattern.
impl<T: SafeUninit> UninitContent for Box<T> {
    open spec fn wraps_uninit(self) -> bool {
        self.wf()
    }

    fn uninit_content() -> (r: Self) {
        Box::new(T::safe_uninit())
    }
}

/// Justification: the cell's reference counts are written by its ordinary
/// constructor; only the payload is an unwritten value of a type that
/// accepts every pattern.
impl<T: SafeUninit> UninitContent for Rc<T> {
    open spec fn wraps_uninit(self) -> bool {
        self.wf()
    }

    fn uninit_content() -> (r: Self) {
        Rc::new(T::safe_uninit())
    }
}

/// Justification: as for the single-thread cell — the atomic reference
/// counts are written by the ordinary constructor; only the payload is an
/// unwritten value of a type that accepts every pattern.
impl<T: SafeUninit> UninitContent for Arc<T> {
    open spec fn wraps_uninit(self) -> bool {
        self.wf()
    }

    fn uninit_content() -> (r: Self) {
        Arc::new(T::safe_uninit())
    }
}

/// Justification: the discriminant is written, normally, to the present
/// variant — an unwritten discriminant is covered by no capability here —
/// and only the payload behind it is left unwritten.  The contract records
/// the written discriminant: the result is always the present variant.
impl<T: SafeUninit> UninitContent for Option<T> {
    open spec fn wraps_uninit(self) -> bool {
        self matches Some(c) && c.wf()
    }

    fn uninit_content() -> (r: Self) {
        Some(T::safe_uninit())
    }
}

} // verus!
