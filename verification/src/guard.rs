//! The marker that relates two types, and the conversions that rest on it.

use vstd::prelude::*;

verus! {

/// `Self` may be viewed as a reinterpretation of `T`.
///
/// Whoever declares the marker for a pair says what the reinterpretation
/// means: `transmuted(src)` is the value of `Self` that has the
/// representation of `src`. Every conversion of this crate returns that value
/// and no other, so the meaning of a pair is stated once, here, and not again
/// at each call. The marker holds no data and does nothing when the program
/// runs.
///
/// The relation has a direction. A pair does not get the marker from the
/// reverse pair, nor from two pairs that meet in the middle.
pub trait TransmuteGuard<T: ?Sized> {
    /// The value of `Self` that shares its representation with `src`.
    spec fn transmuted(src: &T) -> &Self;
}

/// Every type is a reinterpretation of itself, value for value.
impl<T: ?Sized> TransmuteGuard<T> for T {
    open spec fn transmuted(src: &T) -> &T {
        src
    }
}

/// Reinterpreting a value as its own type gives the value back.
pub proof fn lemma_transmuted_identity<T: ?Sized>(x: &T)
    ensures
        <T as TransmuteGuard<T>>::transmuted(x) == x,
{
}

/// Owning conversion from `T`, for a pair that has the marker.
pub trait SafeTransmuteFrom<T>: TransmuteGuard<T> + Sized {
    /// Consumes `value` and returns its reinterpretation.
    fn safe_transmute_from(value: T) -> (r: Self)
        ensures
            r == *Self::transmuted(&value),
    ;
}

impl<T> SafeTransmuteFrom<T> for T {
    fn safe_transmute_from(value: T) -> (r: Self) {
        value
    }
}

/// Shared view of a `T` as a `Self`, for a pair that has the marker.
pub trait SafeTransmuteRefFrom<T: ?Sized>: TransmuteGuard<T> {
    /// Views `value` as its reinterpretation, for as long as `value` stays
    /// borrowed.
    fn safe_transmute_ref_from(value: &T) -> (r: &Self)
        ensures
            r == Self::transmuted(value),
    ;
}

impl<T: ?Sized> SafeTransmuteRefFrom<T> for T {
    fn safe_transmute_ref_from(value: &T) -> (r: &Self) {
        value
    }
}

/// Mutable view of a `T` as a `Self`, for a pair that has the marker.
///
/// The caller may write any `Self` through the view, so the pair has to be
/// compatible in both directions: whatever is written stands for a `T`, and
/// for one only.
pub trait SafeTransmuteMutFrom<T: ?Sized>: TransmuteGuard<T> {
    /// Two sources with the same reinterpretation are the same source.
    proof fn lemma_transmuted_injective(a: &T, b: &T)
        requires
            Self::transmuted(a) == Self::transmuted(b),
        ensures
            a == b,
    ;

    /// Views `value` as its reinterpretation. When the view is given up,
    /// `value` is the source whose reinterpretation the view then holds.
    fn safe_transmute_mut_from(value: &mut T) -> (r: &mut Self)
        ensures
            &*r =~= Self::transmuted(&*old(value)),
            &*final(r) =~= Self::transmuted(&*final(value)),
    ;
}

impl<T: ?Sized> SafeTransmuteMutFrom<T> for T {
    proof fn lemma_transmuted_injective(a: &T, b: &T) {
    }

    fn safe_transmute_mut_from(value: &mut T) -> (r: &mut Self) {
        value
    }
}

} // verus!
