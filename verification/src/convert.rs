//! The conversions, as free functions over any pair that offers them.

use vstd::prelude::*;
use crate::guard::{SafeTransmuteFrom, SafeTransmuteMutFrom, SafeTransmuteRefFrom};
use crate::slice::{transmuted_seq, SafeTransmuteSliceFrom, SafeTransmuteSliceMutFrom};

verus! {

/// Converts `src` into the `Dst` that shares its representation.
pub fn safe_transmute<Src, Dst>(src: Src) -> (dst: Dst) where Dst: SafeTransmuteFrom<Src>
    ensures
        dst == *Dst::transmuted(&src),
{
    Dst::safe_transmute_from(src)
}

/// Views `src` as the `Dst` that shares its representation.
pub fn safe_transmute_ref<Src, Dst>(src: &Src) -> (dst: &Dst) where
    Dst: SafeTransmuteRefFrom<Src> + ?Sized,
    Src: ?Sized,
    ensures
        dst == Dst::transmuted(src),
{
    Dst::safe_transmute_ref_from(src)
}

/// Views `src` mutably as the `Dst` that shares its representation. What is
/// written through the view is what a later view of `src` shows.
pub fn safe_transmute_mut<Src, Dst>(src: &mut Src) -> (dst: &mut Dst) where
    Dst: SafeTransmuteMutFrom<Src> + ?Sized,
    Src: ?Sized,
    ensures
        &*dst =~= Dst::transmuted(&*old(src)),
        &*final(dst) =~= Dst::transmuted(&*final(src)),
{
    Dst::safe_transmute_mut_from(src)
}

/// Views a slice of `Src` as a slice of `Dst`: as many elements, in the same
/// order, each the reinterpretation of the one at its place.
pub fn safe_transmute_slice<Src, Dst>(src: &[Src]) -> (dst: &[Dst]) where
    Dst: SafeTransmuteSliceFrom<Src>,
    ensures
        dst@ == transmuted_seq::<Src, Dst>(src@),
{
    Dst::safe_transmute_slice_from(src)
}

/// Views a slice of `Src` mutably as a slice of `Dst`. What is written
/// through the view is what a later view of `src` shows.
pub fn safe_transmute_slice_mut<Src, Dst>(src: &mut [Src]) -> (dst: &mut [Dst]) where
    Dst: SafeTransmuteSliceMutFrom<Src>,
    ensures
        dst@ == transmuted_seq::<Src, Dst>(old(src)@),
        final(dst)@ == transmuted_seq::<Src, Dst>(final(src)@),
{
    Dst::safe_transmute_slice_mut_from(src)
}

} // verus!
