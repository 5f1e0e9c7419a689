//! Views of a whole slice, element by element.

use vstd::prelude::*;
use crate::guard::{SafeTransmuteMutFrom, TransmuteGuard};

verus! {

/// The reinterpretation of each element of `src`, in the same order.
pub open spec fn transmuted_seq<Src, Dst: TransmuteGuard<Src>>(src: Seq<Src>) -> Seq<Dst> {
    Seq::new(src.len(), |i: int| *Dst::transmuted(&src[i]))
}

/// A view has as many elements as the slice it is a view of.
pub proof fn lemma_transmuted_seq_len<Src, Dst: TransmuteGuard<Src>>(src: Seq<Src>)
    ensures
        transmuted_seq::<Src, Dst>(src).len() == src.len(),
{
}

/// Reinterpreting each element as its own type changes nothing.
pub proof fn lemma_transmuted_seq_identity<T>(src: Seq<T>)
    ensures
        transmuted_seq::<T, T>(src) == src,
{
}

/// A write through a mutable view lands in the slice: if the view differs
/// from what it first showed only by holding `written` at index `i`, then
/// the slice differs from what it was only at `i`, where it now holds the
/// source whose reinterpretation is `written`.
pub proof fn lemma_write_through_view<Src, Dst: SafeTransmuteMutFrom<Src>>(
    before: Seq<Src>,
    after: Seq<Src>,
    i: int,
    written: Dst,
)
    requires
        0 <= i < before.len(),
        transmuted_seq::<Src, Dst>(after) == transmuted_seq::<Src, Dst>(before).update(i, written),
    ensures
        after.len() == before.len(),
        *Dst::transmuted(&after[i]) == written,
        forall|j: int| 0 <= j < before.len() && j != i ==> after[j] == before[j],
{
    let old_view = transmuted_seq::<Src, Dst>(before);
    let new_view = transmuted_seq::<Src, Dst>(after);
    assert(new_view.len() == old_view.len());
    assert(new_view[i] == written);
    assert forall|j: int| 0 <= j < before.len() && j != i implies after[j] == before[j] by {
        assert(new_view[j] == old_view[j]);
        Dst::lemma_transmuted_injective(&after[j], &before[j]);
    }
}

/// Shared view of a slice of `T` as a slice of `Self`.
///
/// Only the layout of one element matters here, so the pair needs its marker
/// and no owning conversion.
pub trait SafeTransmuteSliceFrom<T>: TransmuteGuard<T> + Sized {
    /// Views `value` as a slice of as many elements, each the reinterpretation
    /// of the element at its place.
    fn safe_transmute_slice_from(value: &[T]) -> (r: &[Self])
        ensures
            r@ == transmuted_seq::<T, Self>(value@),
    ;
}

impl<T> SafeTransmuteSliceFrom<T> for T {
    fn safe_transmute_slice_from(value: &[T]) -> (r: &[Self]) {
        value
    }
}

/// Mutable view of a slice of `T` as a slice of `Self`.
pub trait SafeTransmuteSliceMutFrom<T>: SafeTransmuteMutFrom<T> + Sized {
    /// Views `value` as a slice of as many elements. When the view is given
    /// up, each element of `value` is the source whose reinterpretation the
    /// view then holds at that place.
    fn safe_transmute_slice_mut_from(value: &mut [T]) -> (r: &mut [Self])
        ensures
            r@ == transmuted_seq::<T, Self>(old(value)@),
            final(r)@ == transmuted_seq::<T, Self>(final(value)@),
    ;
}

impl<T> SafeTransmuteSliceMutFrom<T> for T {
    fn safe_transmute_slice_mut_from(value: &mut [T]) -> (r: &mut [Self]) {
        value
    }
}

} // verus!
