//! The composition rules: a fixed-length array or fixed-arity tuple holds
//! the [`SafeUninit`] capability exactly when every constituent type holds
//! it — never partially.  The language offers no compile-time repetition
//! over lengths or arities, so each supported length (up to 32) and arity
//! (up to 12) is declared on its own; that bound is a workaround, not part
//! of the design, and a longer array is still constructible by invoking the
//! element operation once per slot and assembling the result — which is
//! exactly what the bodies below do for the declared lengths.

use crate::SafeUninit;
use vstd::prelude::*;

verus! {

// Justification, carried by every tuple declaration below: a tuple is the
// juxtaposition of its components, so a pattern is legal for the tuple
// exactly when each component's slice of it is legal for that component —
// which each `SafeUninit` bound asserts.

impl<T0: SafeUninit, T1: SafeUninit> SafeUninit for (T0, T1) {
    open spec fn wf(self) -> bool {
        self.0.wf() && self.1.wf()
    }

    fn safe_uninit() -> (r: Self) {
        (
            T0::safe_uninit(),
            T1::safe_uninit(),
        )
    }
}

impl<T0: SafeUninit, T1: SafeUninit, T2: SafeUninit> SafeUninit for (T0, T1, T2) {
    open spec fn wf(self) -> bool {
        self.0.wf() && self.1.wf() && self.2.wf()
    }

    fn safe_uninit() -> (r: Self) {
        (
            T0::safe_uninit(),
            T1::safe_uninit(),
            T2::safe_uninit(),
        )
    }
}

impl<
    T0: SafeUninit,
    T1: SafeUninit,
    T2: SafeUninit,
    T3: SafeUninit,
> SafeUninit for (T0, T1, T2, T3) {
    open spec fn wf(self) -> bool {
        self.0.wf() && self.1.wf() && self.2.wf() && self.3.wf()
    }

    fn safe_uninit() -> (r: Self) {
        (
            T0::safe_uninit(),
            T1::safe_uninit(),
            T2::safe_uninit(),
            T3::safe_uninit(),
        )
    }
}

impl<
    T0: SafeUninit,
    T1: SafeUninit,
    T2: SafeUninit,
    T3: SafeUninit,
    T4: SafeUninit,
> SafeUninit for (T0, T1, T2, T3, T4) {
    open spec fn wf(self) -> bool {
        self.0.wf() && self.1.wf() && self.2.wf() && self.3.wf() && self.4.wf()
    }

    fn safe_uninit() -> (r: Self) {
        (
            T0::safe_uninit(),
            T1::safe_uninit(),
            T2::safe_uninit(),
            T3::safe_uninit(),
            T4::safe_uninit(),
        )
    }
}

impl<
    T0: SafeUninit,
    T1: SafeUninit,
    T2: SafeUninit,
    T3: SafeUninit,
    T4: SafeUninit,
    T5: SafeUninit,
> SafeUninit for (T0, T1, T2, T3, T4, T5) {
    open spec fn wf(self) -> bool {
        self.0.wf() && self.1.wf() && self.2.wf() && self.3.wf() && self.4.wf()
            && self.5.wf()
    }

    fn safe_uninit() -> (r: Self) {
        (
            T0::safe_uninit(),
            T1::safe_uninit(),
            T2::safe_uninit(),
            T3::safe_uninit(),
            T4::safe_uninit(),
            T5::safe_uninit(),
        )
    }
}

impl<
    T0: SafeUninit,
    T1: SafeUninit,
    T2: SafeUninit,
    T3: SafeUninit,
    T4: SafeUninit,
    T5: SafeUninit,
    T6: SafeUninit,
> SafeUninit for (T0, T1, T2, T3, T4, T5, T6) {
    open spec fn wf(self) -> bool {
        self.0.wf() && self.1.wf() && self.2.wf() && self.3.wf() && self.4.wf()
            && self.5.wf() && self.6.wf()
    }

    fn safe_uninit() -> (r: Self) {
        (
            T0::safe_uninit(),
            T1::safe_uninit(),
            T2::safe_uninit(),
            T3::safe_uninit(),
            T4::safe_uninit(),
            T5::safe_uninit(),
            T6::safe_uninit(),
        )
    }
}

impl<
    T0: SafeUninit,
    T1: SafeUninit,
    T2: SafeUninit,
    T3: SafeUninit,
    T4: SafeUninit,
    T5: SafeUninit,
    T6: SafeUninit,
    T7: SafeUninit,
> SafeUninit for (T0, T1, T2, T3, T4, T5, T6, T7) {
    open spec fn wf(self) -> bool {
        self.0.wf() && self.1.wf() && self.2.wf() && self.3.wf() && self.4.wf()
            && self.5.wf() && self.6.wf() && self.7.wf()
    }

    fn safe_uninit() -> (r: Self) {
        (
            T0::safe_uninit(),
            T1::safe_uninit(),
            T2::safe_uninit(),
            T3::safe_uninit(),
            T4::safe_uninit(),
            T5::safe_uninit(),
            T6::safe_uninit(),
            T7::safe_uninit(),
        )
    }
}

impl<
    T0: SafeUninit,
    T1: SafeUninit,
    T2: SafeUninit,
    T3: SafeUninit,
    T4: SafeUninit,
    T5: SafeUninit,
    T6: SafeUninit,
    T7: SafeUninit,
    T8: SafeUninit,
> SafeUninit for (T0, T1, T2, T3, T4, T5, T6, T7, T8) {
    open spec fn wf(self) -> bool {
        self.0.wf() && self.1.wf() && self.2.wf() && self.3.wf() && self.4.wf()
            && self.5.wf() && self.6.wf() && self.7.wf() && self.8.wf()
    }

    fn safe_uninit() -> (r: Self) {
        (
            T0::safe_uninit(),
            T1::safe_uninit(),
            T2::safe_uninit(),
            T3::safe_uninit(),
            T4::safe_uninit(),
            T5::safe_uninit(),
            T6::safe_uninit(),
            T7::safe_uninit(),
            T8::safe_uninit(),
        )
    }
}

impl<
    T0: SafeUninit,
    T1: SafeUninit,
    T2: SafeUninit,
    T3: SafeUninit,
    T4: SafeUninit,
    T5: SafeUninit,
    T6: SafeUninit,
    T7: SafeUninit,
    T8: SafeUninit,
    T9: SafeUninit,
> SafeUninit for (T0, T1, T2, T3, T4, T5, T6, T7, T8, T9) {
    open spec fn wf(self) -> bool {
        self.0.wf() && self.1.wf() && self.2.wf() && self.3.wf() && self.4.wf()
            && self.5.wf() && self.6.wf() && self.7.wf() && self.8.wf() && self.9.wf()
    }

    fn safe_uninit() -> (r: Self) {
        (
            T0::safe_uninit(),
            T1::safe_uninit(),
            T2::safe_uninit(),
            T3::safe_uninit(),
            T4::safe_uninit(),
            T5::safe_uninit(),
            T6::safe_uninit(),
            T7::safe_uninit(),
            T8::safe_uninit(),
            T9::safe_uninit(),
        )
    }
}

impl<
    T0: SafeUninit,
    T1: SafeUninit,
    T2: SafeUninit,
    T3: SafeUninit,
    T4: SafeUninit,
    T5: SafeUninit,
    T6: SafeUninit,
    T7: SafeUninit,
    T8: SafeUninit,
    T9: SafeUninit,
    T10: SafeUninit,
> SafeUninit for (T0, T1, T2, T3, T4, T5, T6, T7, T8, T9, T10) {
    open spec fn wf(self) -> bool {
        self.0.wf() && self.1.wf() && self.2.wf() && self.3.wf() && self.4.wf()
            && self.5.wf() && self.6.wf() && self.7.wf() && self.8.wf() && self.9.wf()
            && self.10.wf()
    }

    fn safe_uninit() -> (r: Self) {
        (
            T0::safe_uninit(),
            T1::safe_uninit(),
            T2::safe_uninit(),
            T3::safe_uninit(),
            T4::safe_uninit(),
            T5::safe_uninit(),
            T6::safe_uninit(),
            T7::safe_uninit(),
            T8::safe_uninit(),
            T9::safe_uninit(),
            T10::safe_uninit(),
        )
    }
}

impl<
    T0: SafeUninit,
    T1: SafeUninit,
    T2: SafeUninit,
    T3: SafeUninit,
    T4: SafeUninit,
    T5: SafeUninit,
    T6: SafeUninit,
    T7: SafeUninit,
    T8: SafeUninit,
    T9: SafeUninit,
    T10: SafeUninit,
    T11: SafeUninit,
> SafeUninit for (T0, T1, T2, T3, T4, T5, T6, T7, T8, T9, T10, T11) {
    open spec fn wf(self) -> bool {
        self.0.wf() && self.1.wf() && self.2.wf() && self.3.wf() && self.4.wf()
            && self.5.wf() && self.6.wf() && self.7.wf() && self.8.wf() && self.9.wf()
            && self.10.wf() && self.11.wf()
    }

    fn safe_uninit() -> (r: Self) {
        (
            T0::safe_uninit(),
            T1::safe_uninit(),
            T2::safe_uninit(),
            T3::safe_uninit(),
            T4::safe_uninit(),
            T5::safe_uninit(),
            T6::safe_uninit(),
            T7::safe_uninit(),
            T8::safe_uninit(),
            T9::safe_uninit(),
            T10::safe_uninit(),
            T11::safe_uninit(),
        )
    }
}

// Justification, carried by every array declaration below: an array is its
// elements laid out one after another, so a pattern is legal for the array
// exactly when each element's slice of it is legal for the element type —
// which the `SafeUninit` bound asserts, for every declared length alike.

impl<T: SafeUninit> SafeUninit for [T; 0] {
    open spec fn wf(self) -> bool {
        forall|i: int| 0 <= i < 0 ==> self@[i].wf()
    }

    fn safe_uninit() -> (r: Self) {
        []
    }
}

impl<T: SafeUninit> SafeUninit for [T; 1] {
    open spec fn wf(self) -> bool {
        forall|i: int| 0 <= i < 1 ==> self@[i].wf()
    }

    fn safe_uninit() -> (r: Self) {
        [
            T::safe_uninit(),
        ]
    }
}

impl<T: SafeUninit> SafeUninit for [T; 2] {
    open spec fn wf(self) -> bool {
        forall|i: int| 0 <= i < 2 ==> self@[i].wf()
    }

    fn safe_uninit() -> (r: Self) {
        [
            T::safe_uninit(),
            T::safe_uninit(),
        ]
    }
}

impl<T: SafeUninit> SafeUninit for [T; 3] {
    open spec fn wf(self) -> bool {
        forall|i: int| 0 <= i < 3 ==> self@[i].wf()
    }

    fn safe_uninit() -> (r: Self) {
        [
            T::safe_uninit(),
            T::safe_uninit(),
            T::safe_uninit(),
        ]
    }
}

impl<T: SafeUninit> SafeUninit for [T; 4] {
    open spec fn wf(self) -> bool {
        forall|i: int| 0 <= i < 4 ==> self@[i].wf()
    }

    fn safe_uninit() -> (r: Self) {
        [
            T::safe_uninit(),
            T::safe_uninit(),
            T::safe_uninit(),
            T::safe_uninit(),
        ]
    }
}

impl<T: SafeUninit> SafeUninit for [T; 5] {
    open spec fn wf(self) -> bool {
        forall|i: int| 0 <= i < 5 ==> self@[i].wf()
    }

    fn safe_uninit() -> (r: Self) {
        [
            T::safe_uninit(),
            T::safe_uninit(),
            T::safe_uninit(),
            T::safe_uninit(),
            T::safe_uninit(),
        ]
    }
}

impl<T: SafeUninit> SafeUninit for [T; 6] {
    open spec fn wf(self) -> bool {
        forall|i: int| 0 <= i < 6 ==> self@[i].wf()
    }

    fn safe_uninit() -> (r: Self) {
        [
            T::safe_uninit(),
            T::safe_uninit(),
            T::safe_uninit(),
            T::safe_uninit(),
            T::safe_uninit(),
            T::safe_uninit(),
        ]
    }
}

impl<T: SafeUninit> SafeUninit for [T; 7] {
    open spec fn wf(self) -> bool {
        forall|i: int| 0 <= i < 7 ==> self@[i].wf()
    }

    fn safe_uninit() -> (r: Self) {
        [
            T::safe_uninit(),
            T::safe_uninit(),
            T::safe_uninit(),
            T::safe_uninit(),
            T::safe_uninit(),
            T::safe_uninit(),
            T::safe_uninit(),
        ]
    }
}

impl<T: SafeUninit> SafeUninit for [T; 8] {
    open spec fn wf(self) -> bool {
        forall|i: int| 0 <= i < 8 ==> self@[i].wf()
    }

    fn safe_uninit() -> (r: Self) {
        [
            T::safe_uninit(),
            T::safe_uninit(),
            T::safe_uninit(),
            T::safe_uninit(),
            T::safe_uninit(),
            T::safe_uninit(),
            T::safe_uninit(),
            T::safe_uninit(),
        ]
    }
}

impl<T: SafeUninit> SafeUninit for [T; 9] {
    open spec fn wf(self) -> bool {
        forall|i: int| 0 <= i < 9 ==> self@[i].wf()
    }

    fn safe_uninit() -> (r: Self) {
        [
            T::safe_uninit(),
            T::safe_uninit(),
            T::safe_uninit(),
            T::safe_uninit(),
            T::safe_uninit(),
            T::safe_uninit(),
            T::safe_uninit(),
            T::safe_uninit(),
            T::safe_uninit(),
        ]
    }
}

impl<T: SafeUninit> SafeUninit for [T; 10] {
    open spec fn wf(self) -> bool {
        forall|i: int| 0 <= i < 10 ==> self@[i].wf()
    }

    fn safe_uninit() -> (r: Self) {
        [
            T::safe_uninit(),
            T::safe_uninit(),
            T::safe_uninit(),
            T::safe_uninit(),
            T::safe_uninit(),
            T::safe_uninit(),
            T::safe_uninit(),
            T::safe_uninit(),
            T::safe_uninit(),
            T::safe_uninit(),
        ]
    }
}

impl<T: SafeUninit> SafeUninit for [T; 11] {
    open spec fn wf(self) -> bool {
        forall|i: int| 0 <= i < 11 ==> self@[i].wf()
    }

    fn safe_uninit() -> (r: Self) {
        [
            T::safe_uninit(),
            T::safe_uninit(),
            T::safe_uninit(),
            T::safe_uninit(),
            T::safe_uninit(),
            T::safe_uninit(),
            T::safe_uninit(),
            T::safe_uninit(),
            T::safe_uninit(),
            T::safe_uninit(),
            T::safe_uninit(),
        ]
    }
}

impl<T: SafeUninit> SafeUninit for [T; 12] {
    open spec fn wf(self) -> bool {
        forall|i: int| 0 <= i < 12 ==> self@[i].wf()
    }

    fn safe_uninit() -> (r: Self) {
        [
            T::safe_uninit(),
            T::safe_uninit(),
            T::safe_uninit(),
            T::safe_uninit(),
            T::safe_uninit(),
            T::safe_uninit(),
            T::safe_uninit(),
            T::safe_uninit(),
            T::safe_uninit(),
            T::safe_uninit(),
            T::safe_uninit(),
            T::safe_uninit(),
        ]
    }
}

impl<T: SafeUninit> SafeUninit for [T; 13] {
    open spec fn wf(self) -> bool {
        forall|i: int| 0 <= i < 13 ==> self@[i].wf()
    }

    fn safe_uninit() -> (r: Self) {
        [
            T::safe_uninit(),
            T::safe_uninit(),
            T::safe_uninit(),
            T::safe_uninit(),
            T::safe_uninit(),
            T::safe_uninit(),
            T::safe_uninit(),
            T::safe_uninit(),
            T::safe_uninit(),
            T::safe_uninit(),
            T::safe_uninit(),
            T::safe_uninit(),
            T::safe_uninit(),
        ]
    }
}

impl<T: SafeUninit> SafeUninit for [T; 14] {
    open spec fn wf(self) -> bool {
        forall|i: int| 0 <= i < 14 ==> self@[i].wf()
    }

    fn safe_uninit() -> (r: Self) {
        [
            T::safe_uninit(),
            T::safe_uninit(),
            T::safe_uninit(),
            T::safe_uninit(),
            T::safe_uninit(),
            T::safe_uninit(),
            T::safe_uninit(),
            T::safe_uninit(),
            T::safe_uninit(),
            T::safe_uninit(),
            T::safe_uninit(),
            T::safe_uninit(),
            T::safe_uninit(),
            T::safe_uninit(),
        ]
    }
}

impl<T: SafeUninit> SafeUninit for [T; 15] {
    open spec fn wf(self) -> bool {
        forall|i: int| 0 <= i < 15 ==> self@[i].wf()
    }

    fn safe_uninit() -> (r: Self) {
        [
            T::safe_uninit(),
            T::safe_uninit(),
            T::safe_uninit(),
            T::safe_uninit(),
            T::safe_uninit(),
            T::safe_uninit(),
            T::safe_uninit(),
            T::safe_uninit(),
            T::safe_uninit(),
            T::safe_uninit(),
            T::safe_uninit(),
            T::safe_uninit(),
            T::safe_uninit(),
            T::safe_uninit(),
            T::safe_uninit(),
        ]
    }
}

impl<T: SafeUninit> SafeUninit for [T; 16] {
    open spec fn wf(self) -> bool {
        forall|i: int| 0 <= i < 16 ==> self@[i].wf()
    }

    fn safe_uninit() -> (r: Self) {
        [
            T::safe_uninit(),
            T::safe_uninit(),
            T::safe_uninit(),
            T::safe_uninit(),
            T::safe_uninit(),
            T::safe_uninit(),
            T::safe_uninit(),
            T::safe_uninit(),
            T::safe_uninit(),
            T::safe_uninit(),
            T::safe_uninit(),
            T::safe_uninit(),
            T::safe_uninit(),
            T::safe_uninit(),
            T::safe_uninit(),
            T::safe_uninit(),
        ]
    }
}

impl<T: SafeUninit> SafeUninit for [T; 17] {
    open spec fn wf(self) -> bool {
        forall|i: int| 0 <= i < 17 ==> self@[i].wf()
    }

    fn safe_uninit() -> (r: Self) {
        [
            T::safe_uninit(),
            T::safe_uninit(),
            T::safe_uninit(),
            T::safe_uninit(),
            T::safe_uninit(),
            T::safe_uninit(),
            T::safe_uninit(),
            T::safe_uninit(),
            T::safe_uninit(),
            T::safe_uninit(),
            T::safe_uninit(),
            T::safe_uninit(),
            T::safe_uninit(),
            T::safe_uninit(),
            T::safe_uninit(),
            T::safe_uninit(),
            T::safe_uninit(),
        ]
    }
}

impl<T: SafeUninit> SafeUninit for [T; 18] {
    open spec fn wf(self) -> bool {
        forall|i: int| 0 <= i < 18 ==> self@[i].wf()
    }

    fn safe_uninit() -> (r: Self) {
        [
            T::safe_uninit(),
            T::safe_uninit(),
            T::safe_uninit(),
            T::safe_uninit(),
            T::safe_uninit(),
            T::safe_uninit(),
            T::safe_uninit(),
            T::safe_uninit(),
            T::safe_uninit(),
            T::safe_uninit(),
            T::safe_uninit(),
            T::safe_uninit(),
            T::safe_uninit(),
            T::safe_uninit(),
            T::safe_uninit(),
            T::safe_uninit(),
            T::safe_uninit(),
            T::safe_uninit(),
        ]
    }
}

impl<T: SafeUninit> SafeUninit for [T; 19] {
    open spec fn wf(self) -> bool {
        forall|i: int| 0 <= i < 19 ==> self@[i].wf()
    }

    fn safe_uninit() -> (r: Self) {
        [
            T::safe_uninit(),
            T::safe_uninit(),
            T::safe_uninit(),
            T::safe_uninit(),
            T::safe_uninit(),
            T::safe_uninit(),
            T::safe_uninit(),
            T::safe_uninit(),
            T::safe_uninit(),
            T::safe_uninit(),
            T::safe_uninit(),
            T::safe_uninit(),
            T::safe_uninit(),
            T::safe_uninit(),
            T::safe_uninit(),
            T::safe_uninit(),
            T::safe_uninit(),
            T::safe_uninit(),
            T::safe_uninit(),
        ]
    }
}

impl<T: SafeUninit> SafeUninit for [T; 20] {
    open spec fn wf(self) -> bool {
        forall|i: int| 0 <= i < 20 ==> self@[i].wf()
    }

    fn safe_uninit() -> (r: Self) {
        [
            T::safe_uninit(),
            T::safe_uninit(),
            T::safe_uninit(),
            T::safe_uninit(),
            T::safe_uninit(),
            T::safe_uninit(),
            T::safe_uninit(),
            T::safe_uninit(),
            T::safe_uninit(),
            T::safe_uninit(),
            T::safe_uninit(),
            T::safe_uninit(),
            T::safe_uninit(),
            T::safe_uninit(),
            T::safe_uninit(),
            T::safe_uninit(),
            T::safe_uninit(),
            T::safe_uninit(),
            T::safe_uninit(),
            T::safe_uninit(),
        ]
    }
}

impl<T: SafeUninit> SafeUninit for [T; 21] {
    open spec fn wf(self) -> bool {
        forall|i: int| 0 <= i < 21 ==> self@[i].wf()
    }

    fn safe_uninit() -> (r: Self) {
        [
            T::safe_uninit(),
            T::safe_uninit(),
            T::safe_uninit(),
            T::safe_uninit(),
            T::safe_uninit(),
            T::safe_uninit(),
            T::safe_uninit(),
            T::safe_uninit(),
            T::safe_uninit(),
            T::safe_uninit(),
            T::safe_uninit(),
            T::safe_uninit(),
            T::safe_uninit(),
            T::safe_uninit(),
            T::safe_uninit(),
            T::safe_uninit(),
            T::safe_uninit(),
            T::safe_uninit(),
            T::safe_uninit(),
            T::safe_uninit(),
            T::safe_uninit(),
        ]
    }
}

impl<T: SafeUninit> SafeUninit for [T; 22] {
    open spec fn wf(self) -> bool {
        forall|i: int| 0 <= i < 22 ==> self@[i].wf()
    }

    fn safe_uninit() -> (r: Self) {
        [
            T::safe_uninit(),
            T::safe_uninit(),
            T::safe_uninit(),
            T::safe_uninit(),
            T::safe_uninit(),
            T::safe_uninit(),
            T::safe_uninit(),
            T::safe_uninit(),
            T::safe_uninit(),
            T::safe_uninit(),
            T::safe_uninit(),
            T::safe_uninit(),
            T::safe_uninit(),
            T::safe_uninit(),
            T::safe_uninit(),
            T::safe_uninit(),
            T::safe_uninit(),
            T::safe_uninit(),
            T::safe_uninit(),
            T::safe_uninit(),
            T::safe_uninit(),
            T::safe_uninit(),
        ]
    }
}

impl<T: SafeUninit> SafeUninit for [T; 23] {
    open spec fn wf(self) -> bool {
        forall|i: int| 0 <= i < 23 ==> self@[i].wf()
    }

    fn safe_uninit() -> (r: Self) {
        [
            T::safe_uninit(),
            T::safe_uninit(),
            T::safe_uninit(),
            T::safe_uninit(),
            T::safe_uninit(),
            T::safe_uninit(),
            T::safe_uninit(),
            T::safe_uninit(),
            T::safe_uninit(),
            T::safe_uninit(),
            T::safe_uninit(),
            T::safe_uninit(),
            T::safe_uninit(),
            T::safe_uninit(),
            T::safe_uninit(),
            T::safe_uninit(),
            T::safe_uninit(),
            T::safe_uninit(),
            T::safe_uninit(),
            T::safe_uninit(),
            T::safe_uninit(),
            T::safe_uninit(),
            T::safe_uninit(),
        ]
    }
}

impl<T: SafeUninit> SafeUninit for [T; 24] {
    open spec fn wf(self) -> bool {
        forall|i: int| 0 <= i < 24 ==> self@[i].wf()
    }

    fn safe_uninit() -> (r: Self) {
        [
            T::safe_uninit(),
            T::safe_uninit(),
            T::safe_uninit(),
            T::safe_uninit(),
            T::safe_uninit(),
            T::safe_uninit(),
            T::safe_uninit(),
            T::safe_uninit(),
            T::safe_uninit(),
            T::safe_uninit(),
            T::safe_uninit(),
            T::safe_uninit(),
            T::safe_uninit(),
            T::safe_uninit(),
            T::safe_uninit(),
            T::safe_uninit(),
            T::safe_uninit(),
            T::safe_uninit(),
            T::safe_uninit(),
            T::safe_uninit(),
            T::safe_uninit(),
            T::safe_uninit(),
            T::safe_uninit(),
            T::safe_uninit(),
        ]
    }
}

impl<T: SafeUninit> SafeUninit for [T; 25] {
    open spec fn wf(self) -> bool {
        forall|i: int| 0 <= i < 25 ==> self@[i].wf()
    }

    fn safe_uninit() -> (r: Self) {
        [
            T::safe_uninit(),
            T::safe_uninit(),
            T::safe_uninit(),
            T::safe_uninit(),
            T::safe_uninit(),
            T::safe_uninit(),
            T::safe_uninit(),
            T::safe_uninit(),
            T::safe_uninit(),
            T::safe_uninit(),
            T::safe_uninit(),
            T::safe_uninit(),
            T::safe_uninit(),
            T::safe_uninit(),
            T::safe_uninit(),
            T::safe_uninit(),
            T::safe_uninit(),
            T::safe_uninit(),
            T::safe_uninit(),
            T::safe_uninit(),
            T::safe_uninit(),
            T::safe_uninit(),
            T::safe_uninit(),
            T::safe_uninit(),
            T::safe_uninit(),
        ]
    }
}

impl<T: SafeUninit> SafeUninit for [T; 26] {
    open spec fn wf(self) -> bool {
        forall|i: int| 0 <= i < 26 ==> self@[i].wf()
    }

    fn safe_uninit() -> (r: Self) {
        [
            T::safe_uninit(),
            T::safe_uninit(),
            T::safe_uninit(),
            T::safe_uninit(),
            T::safe_uninit(),
            T::safe_uninit(),
            T::safe_uninit(),
            T::safe_uninit(),
            T::safe_uninit(),
            T::safe_uninit(),
            T::safe_uninit(),
            T::safe_uninit(),
            T::safe_uninit(),
            T::safe_uninit(),
            T::safe_uninit(),
            T::safe_uninit(),
            T::safe_uninit(),
            T::safe_uninit(),
            T::safe_uninit(),
            T::safe_uninit(),
            T::safe_uninit(),
            T::safe_uninit(),
            T::safe_uninit(),
            T::safe_uninit(),
            T::safe_uninit(),
            T::safe_uninit(),
        ]
    }
}

impl<T: SafeUninit> SafeUninit for [T; 27] {
    open spec fn wf(self) -> bool {
        forall|i: int| 0 <= i < 27 ==> self@[i].wf()
    }

    fn safe_uninit() -> (r: Self) {
        [
            T::safe_uninit(),
            T::safe_uninit(),
            T::safe_uninit(),
            T::safe_uninit(),
            T::safe_uninit(),
            T::safe_uninit(),
            T::safe_uninit(),
            T::safe_uninit(),
            T::safe_uninit(),
            T::safe_uninit(),
            T::safe_uninit(),
            T::safe_uninit(),
            T::safe_uninit(),
            T::safe_uninit(),
            T::safe_uninit(),
            T::safe_uninit(),
            T::safe_uninit(),
            T::safe_uninit(),
            T::safe_uninit(),
            T::safe_uninit(),
            T::safe_uninit(),
            T::safe_uninit(),
            T::safe_uninit(),
            T::safe_uninit(),
            T::safe_uninit(),
            T::safe_uninit(),
            T::safe_uninit(),
        ]
    }
}

impl<T: SafeUninit> SafeUninit for [T; 28] {
    open spec fn wf(self) -> bool {
        forall|i: int| 0 <= i < 28 ==> self@[i].wf()
    }

    fn safe_uninit() -> (r: Self) {
        [
            T::safe_uninit(),
            T::safe_uninit(),
            T::safe_uninit(),
            T::safe_uninit(),
            T::safe_uninit(),
            T::safe_uninit(),
            T::safe_uninit(),
            T::safe_uninit(),
            T::safe_uninit(),
            T::safe_uninit(),
            T::safe_uninit(),
            T::safe_uninit(),
            T::safe_uninit(),
            T::safe_uninit(),
            T::safe_uninit(),
            T::safe_uninit(),
            T::safe_uninit(),
            T::safe_uninit(),
            T::safe_uninit(),
            T::safe_uninit(),
            T::safe_uninit(),
            T::safe_uninit(),
            T::safe_uninit(),
            T::safe_uninit(),
            T::safe_uninit(),
            T::safe_uninit(),
            T::safe_uninit(),
            T::safe_uninit(),
        ]
    }
}

impl<T: SafeUninit> SafeUninit for [T; 29] {
    open spec fn wf(self) -> bool {
        forall|i: int| 0 <= i < 29 ==> self@[i].wf()
    }

    fn safe_uninit() -> (r: Self) {
        [
            T::safe_uninit(),
            T::safe_uninit(),
            T::safe_uninit(),
            T::safe_uninit(),
            T::safe_uninit(),
            T::safe_uninit(),
            T::safe_uninit(),
            T::safe_uninit(),
            T::safe_uninit(),
            T::safe_uninit(),
            T::safe_uninit(),
            T::safe_uninit(),
            T::safe_uninit(),
            T::safe_uninit(),
            T::safe_uninit(),
            T::safe_uninit(),
            T::safe_uninit(),
            T::safe_uninit(),
            T::safe_uninit(),
            T::safe_uninit(),
            T::safe_uninit(),
            T::safe_uninit(),
            T::safe_uninit(),
            T::safe_uninit(),
            T::safe_uninit(),
            T::safe_uninit(),
            T::safe_uninit(),
            T::safe_uninit(),
            T::safe_uninit(),
        ]
    }
}

impl<T: SafeUninit> SafeUninit for [T; 30] {
    open spec fn wf(self) -> bool {
        forall|i: int| 0 <= i < 30 ==> self@[i].wf()
    }

    fn safe_uninit() -> (r: Self) {
        [
            T::safe_uninit(),
            T::safe_uninit(),
            T::safe_uninit(),
            T::safe_uninit(),
            T::safe_uninit(),
            T::safe_uninit(),
            T::safe_uninit(),
            T::safe_uninit(),
            T::safe_uninit(),
            T::safe_uninit(),
            T::safe_uninit(),
            T::safe_uninit(),
            T::safe_uninit(),
            T::safe_uninit(),
            T::safe_uninit(),
            T::safe_uninit(),
            T::safe_uninit(),
            T::safe_uninit(),
            T::safe_uninit(),
            T::safe_uninit(),
            T::safe_uninit(),
            T::safe_uninit(),
            T::safe_uninit(),
            T::safe_uninit(),
            T::safe_uninit(),
            T::safe_uninit(),
            T::safe_uninit(),
            T::safe_uninit(),
            T::safe_uninit(),
            T::safe_uninit(),
        ]
    }
}

impl<T: SafeUninit> SafeUninit for [T; 31] {
    open spec fn wf(self) -> bool {
        forall|i: int| 0 <= i < 31 ==> self@[i].wf()
    }

    fn safe_uninit() -> (r: Self) {
        [
            T::safe_uninit(),
            T::safe_uninit(),
            T::safe_uninit(),
            T::safe_uninit(),
            T::safe_uninit(),
            T::safe_uninit(),
            T::safe_uninit(),
            T::safe_uninit(),
            T::safe_uninit(),
            T::safe_uninit(),
            T::safe_uninit(),
            T::safe_uninit(),
            T::safe_uninit(),
            T::safe_uninit(),
            T::safe_uninit(),
            T::safe_uninit(),
            T::safe_uninit(),
            T::safe_uninit(),
            T::safe_uninit(),
            T::safe_uninit(),
            T::safe_uninit(),
            T::safe_uninit(),
            T::safe_uninit(),
            T::safe_uninit(),
            T::safe_uninit(),
            T::safe_uninit(),
            T::safe_uninit(),
            T::safe_uninit(),
            T::safe_uninit(),
            T::safe_uninit(),
            T::safe_uninit(),
        ]
    }
}

impl<T: SafeUninit> SafeUninit for [T; 32] {
    open spec fn wf(self) -> bool {
        forall|i: int| 0 <= i < 32 ==> self@[i].wf()
    }

    fn safe_uninit() -> (r: Self) {
        [
            T::safe_uninit(),
            T::safe_uninit(),
            T::safe_uninit(),
            T::safe_uninit(),
            T::safe_uninit(),
            T::safe_uninit(),
            T::safe_uninit(),
            T::safe_uninit(),
            T::safe_uninit(),
            T::safe_uninit(),
            T::safe_uninit(),
            T::safe_uninit(),
            T::safe_uninit(),
            T::safe_uninit(),
            T::safe_uninit(),
            T::safe_uninit(),
            T::safe_uninit(),
            T::safe_uninit(),
            T::safe_uninit(),
            T::safe_uninit(),
            T::safe_uninit(),
            T::safe_uninit(),
            T::safe_uninit(),
            T::safe_uninit(),
            T::safe_uninit(),
            T::safe_uninit(),
            T::safe_uninit(),
            T::safe_uninit(),
            T::safe_uninit(),
            T::safe_uninit(),
            T::safe_uninit(),
            T::safe_uninit(),
        ]
    }
}

} // verus!
