//! Capabilities for values that may be used without initialization.
//!
//! The central trait is [`SafeUninit`]: a type implements it to assert that
//! every bit pattern of its memory footprint is a legal value, so a freshly
//! allocated, never-written instance may be handed out as an ordinary value.
//! Two companion capabilities let containers take part: [`UninitContent`]
//! for wrappers that own one value (a box, a reference-counted cell, an
//! option), and [`ResizeUninit`] for growable sequences that can expose new
//! slots without writing them.
//!
//! The verifier has no notion of memory that was left unwritten, so inside
//! this crate the construction operation is modelled as producing a value
//! with unspecified contents: no contract states which value comes back, and
//! no caller may depend on it.  What the contracts do pin down is structure:
//! lengths, discriminants, preserved prefixes, and the bookkeeping of
//! containers.  Each implementation of a capability carries, beside its
//! code, the justification of the underlying bit-pattern claim, because no
//! run-time check could stand in for it.

use vstd::prelude::*;

pub mod base;
pub mod carriers;
pub mod compose;
pub mod containers;
pub mod laws;
pub mod sync;

verus! {

/// Capability of a type whose every bit pattern is a legal value.
///
/// Implementing this trait is an assertion, made by the implementer and
/// never checked at run time, that holding and reading a value of the type
/// is sound whatever bits occupy its memory.  A wrong implementation is
/// undefined behaviour at the point of use, not a reported error: the
/// assertion is a documented trust boundary, and each implementation site
/// in this crate carries a short justification of the claim.
///
/// Deliberately absent from the catalogue: `bool` (only two of the 256
/// patterns of its byte are legal), the `NonZero` family (the all-zero
/// pattern is never legal), and the floating-point types (signalling-NaN
/// behaviour is platform-dependent and has not been audited, so they are
/// excluded by default).  Absent for a different reason are the raw
/// pointer types: an unwritten pointer is merely an address-sized integer,
/// and dereferencing is guarded separately wherever it happens, so the
/// claim would hold — but the verified part of this crate cannot hold raw
/// pointer types at all, so no declaration for them is made here.
pub trait SafeUninit: Sized {
    /// What is still known of a value that was produced without
    /// initialization: only its shape — for a composite, that every part
    /// satisfies its own shape law — never its contents.
    spec fn wf(self) -> bool;

    /// Produce a value whose contents the caller must treat as unspecified.
    fn safe_uninit() -> (r: Self)
        ensures
            r.wf(),
    ;
}

/// Capability of a wrapper that can be built with valid bookkeeping of its
/// own around one owned value that is left unwritten.
///
/// Implementing this for a wrapper `W` of a [`SafeUninit`] content type
/// asserts that `W` can be constructed in a single step such that the
/// wrapper's own metadata (allocation header, reference count,
/// discriminant) is fully in place while the value it owns was never
/// written.  The construction must wrap the unwritten value directly; it
/// never first materializes a written value and copies it in.
pub trait UninitContent: Sized {
    /// The wrapper's own bookkeeping is in place and the value it owns
    /// satisfies the content type's shape law.
    spec fn wraps_uninit(self) -> bool;

    /// Build the wrapper around a single unwritten content value.
    fn uninit_content() -> (r: Self)
        ensures
            r.wraps_uninit(),
    ;

    /// Constructor-style alias of [`Self::uninit_content`]: the same single
    /// allocation and construction step, under the name container code
    /// conventionally gives its constructors.
    fn new_safe_uninit() -> (r: Self)
        ensures
            r.wraps_uninit(),
    {
        Self::uninit_content()
    }
}

/// Capability of a growable sequence that can change its length without
/// writing the newly exposed elements.
///
/// Implementing this for a sequence of a [`SafeUninit`] element type
/// asserts that the sequence can be built pre-sized from empty, and can
/// grow to any length, with every newly exposed slot left unwritten.
/// Shrinking is untouched: trailing elements are dropped exactly as the
/// sequence's normal shrink operation drops them, and the kept prefix is
/// never disturbed.  The contracts below say so: the length afterwards is
/// the requested one, surviving elements are unchanged, and the slots that
/// were newly exposed satisfy the element's shape law — nothing more is
/// knowable of them.
pub trait ResizeUninit: Sized {
    /// The element type, which must itself be safe to leave unwritten.
    type Elem: SafeUninit;

    /// The elements the sequence currently holds, front to back.
    spec fn contents(self) -> Seq<Self::Elem>;

    /// Allocate a sequence of the given length whose every slot is
    /// unwritten.
    fn with_uninit_len(len: usize) -> (r: Self)
        ensures
            r.contents().len() == len,
            forall|i: int| 0 <= i < len ==> r.contents()[i].wf(),
    ;

    /// Change the length to `new_len`.  Growing leaves the new slots
    /// unwritten; shrinking drops trailing elements as the sequence
    /// normally does.  Either way the kept prefix is untouched.
    fn resize_uninit(&mut self, new_len: usize)
        ensures
            crate::laws::resize_shape(old(self).contents(), final(self).contents(), new_len as int),
            forall|i: int|
                old(self).contents().len() <= i < new_len ==> final(self).contents()[i].wf(),
    ;
}

/// Shorthand for [`SafeUninit::safe_uninit`]: produce a value of any
/// capability-holding type, contents unspecified.
pub fn safe_uninit<T: SafeUninit>() -> (r: T)
    ensures
        r.wf(),
{
    T::safe_uninit()
}

} // verus!
