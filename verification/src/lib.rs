//! Reinterpretation between types that share one representation.
//!
//! A pair of types is related by a marker, [`TransmuteGuard`], whose declarer
//! states once which destination value stands for each source value. The
//! conversions of this crate are gated on that marker and promise exactly the
//! value it names: for owned values, for shared and mutable borrows, and for
//! slices. [`alias`] builds on the marker to describe an enumeration that
//! keeps some of the variants of another under the same discriminants.
//!
//! Nothing here casts a pointer. A pair is given the views that safe code can
//! give it; what a conversion returns is stated for every pair, whoever
//! implements it.

pub mod alias;
pub mod builtin;
pub mod color;
pub mod convert;
pub mod guard;
pub mod slice;

pub use crate::alias::{ByteEnum, EnumAlias, ParentEnum};
pub use crate::convert::{
    safe_transmute, safe_transmute_mut, safe_transmute_ref, safe_transmute_slice,
    safe_transmute_slice_mut,
};
pub use crate::guard::{
    SafeTransmuteFrom, SafeTransmuteMutFrom, SafeTransmuteRefFrom, TransmuteGuard,
};
pub use crate::slice::{SafeTransmuteSliceFrom, SafeTransmuteSliceMutFrom};
