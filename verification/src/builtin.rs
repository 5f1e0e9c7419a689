//! Pairs that come with the crate.

use vstd::prelude::*;
use crate::guard::{SafeTransmuteFrom, SafeTransmuteMutFrom, SafeTransmuteRefFrom, TransmuteGuard};

verus! {

/// A `bool` is stored as one byte, `0` for `false` and `1` for `true`.
impl TransmuteGuard<bool> for u8 {
    open spec fn transmuted(src: &bool) -> &u8 {
        if *src {
            &1u8
        } else {
            &0u8
        }
    }
}

impl SafeTransmuteFrom<bool> for u8 {
    fn safe_transmute_from(value: bool) -> (r: Self) {
        if value {
            1
        } else {
            0
        }
    }
}

/// An array is laid out as the slice of its elements. The destination has no
/// size of its own: the view takes its length from the array.
impl<T, const N: usize> TransmuteGuard<[T; N]> for [T] {
    open spec fn transmuted(src: &[T; N]) -> &[T] {
        vstd::array::spec_array_as_slice(src)
    }
}

impl<T, const N: usize> SafeTransmuteRefFrom<[T; N]> for [T] {
    fn safe_transmute_ref_from(value: &[T; N]) -> (r: &Self) {
        value
    }
}

impl<T, const N: usize> SafeTransmuteMutFrom<[T; N]> for [T] {
    proof fn lemma_transmuted_injective(a: &[T; N], b: &[T; N]) {
        broadcast use vstd::array::group_array_axioms;
    }

    fn safe_transmute_mut_from(value: &mut [T; N]) -> (r: &mut Self) {
        broadcast use {vstd::slice::group_slice_axioms, vstd::array::group_array_axioms};

        value
    }
}

} // verus!
