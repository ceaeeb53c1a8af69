//! Wrapper capabilities for the standard synchronization cells.  The
//! verifier has no model of these types, so they are declared opaque here
//! and their constructors are taken on trust; nothing is (or could be)
//! stated of the value a cell guards, which suits a value that is meant to
//! be unspecified.

use crate::SafeUninit;
use crate::UninitContent;
use vstd::prelude::*;

verus! {

#[verifier::external_type_specification]
#[verifier::external_body]
#[verifier::reject_recursive_types(T)]
pub struct ExMutex<T: ?Sized>(std::sync::Mutex<T>);

#[verifier::external_type_specification]
#[verifier::external_body]
#[verifier::reject_recursive_types(T)]
pub struct ExRwLock<T: ?Sized>(std::sync::RwLock<T>);

/// Relies on `std::sync::Mutex::new`: it creates a new mutex, unlocked and
/// ready for use, guarding the value handed to it.  The type is opaque to
/// the verifier, so nothing is stated of the result.
pub assume_specification<T>[ std::sync::Mutex::<T>::new ](t: T) -> std::sync::Mutex<T>;

/// Relies on `std::sync::RwLock::new`: it creates a new lock, unlocked and
/// ready for use, guarding the value handed to it.  The type is opaque to
/// the verifier, so nothing is stated of the result.
pub assume_specification<T>[ std::sync::RwLock::<T>::new ](t: T) -> std::sync::RwLock<T>;

/// Justification: the mutex's poison flag and lock state are written by its
/// ordinary constructor; only the guarded value is an unwritten value of a
/// type that accepts every pattern.  The type is opaque to the verifier, so
/// its bookkeeping predicate can record nothing further.
impl<T: SafeUninit> UninitContent for std::sync::Mutex<T> {
    open spec fn wraps_uninit(self) -> bool {
        true
    }

    fn uninit_content() -> (r: Self) {
        std::sync::Mutex::new(T::safe_uninit())
    }
}

/// Justification: as for the mutex — the lock's own state is written by its
/// ordinary constructor, and only the guarded value is left unwritten.
impl<T: SafeUninit> UninitContent for std::sync::RwLock<T> {
    open spec fn wraps_uninit(self) -> bool {
        true
    }

    fn uninit_content() -> (r: Self) {
        std::sync::RwLock::new(T::safe_uninit())
    }
}

} // verus!
