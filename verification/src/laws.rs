//! The laws the capabilities obey, stated over the mathematical model.

use crate::SafeUninit;
use vstd::prelude::*;

verus! {

/// What one resize-without-writing step promises about the sequence's
/// contents: the new length is exactly the requested one, and every element
/// that survives — every index below both the old and the new length — is
/// unchanged.  Nothing is said of the newly exposed slots beyond their
/// shape law, which [`crate::ResizeUninit::resize_uninit`] states
/// separately.
pub open spec fn resize_shape<T>(pre: Seq<T>, post: Seq<T>, new_len: int) -> bool {
    &&& post.len() == new_len
    &&& forall|i: int| 0 <= i < pre.len() && i < new_len ==> post[i] == pre[i]
}

/// Round-trip law for resizing without writing: growing, shrinking and
/// growing again never corrupts the bookkeeping.  After three resize steps,
/// to lengths `a`, then `b`, then `c`, the sequence has length `c`, and
/// every element that survived all three steps — every index below the
/// original length and below each requested length — still holds its
/// original value.
pub proof fn lemma_resize_round_trip<T>(
    s0: Seq<T>,
    s1: Seq<T>,
    s2: Seq<T>,
    s3: Seq<T>,
    a: int,
    b: int,
    c: int,
)
    requires
        resize_shape(s0, s1, a),
        resize_shape(s1, s2, b),
        resize_shape(s2, s3, c),
    ensures
        s3.len() == c,
        forall|i: int| 0 <= i < s0.len() && i < a && i < b && i < c ==> s3[i] == s0[i],
{
}

/// Law of array composition: an array built by the array-level
/// uninitialized construction is observably the same as one assembled from
/// independently constructed elements.  All that is observable of either is
/// the shape law, and the array's shape law holds exactly when every
/// element's own shape law holds.  (Stated for one representative declared
/// length; the definition is the same for each.)
pub proof fn lemma_array_wf_elementwise<T: SafeUninit>(a: [T; 32])
    ensures
        a.wf() <==> (forall|i: int| 0 <= i < 32 ==> a@[i].wf()),
{
}

/// Law of tuple composition: a tuple holds its shape law exactly when each
/// component independently holds its own, so a component taken out of an
/// uninitialized-constructed tuple satisfies its own capability contract.
/// (Stated for one representative arity; the definition is the same for
/// each.)
pub proof fn lemma_tuple_wf_componentwise<T0: SafeUninit, T1: SafeUninit, T2: SafeUninit>(
    t: (T0, T1, T2),
)
    ensures
        t.wf() <==> (t.0.wf() && t.1.wf() && t.2.wf()),
{
}

} // verus!
