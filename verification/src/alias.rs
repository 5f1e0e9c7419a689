//! Enumerations with a one-byte representation, and aliases that keep a
//! subset of a parent's variants under the parent's own discriminants.
//!
//! An alias is declared by implementing [`EnumAlias`]. The implementation is
//! accepted only with a proof that each variant keeps the discriminant of the
//! parent's variant it stands for. From that one fact follow the laws at the
//! end of this file: the two ways to widen agree, narrowing undoes widening,
//! and no variant of the parent is taken twice.

use vstd::prelude::*;
use crate::guard::{SafeTransmuteFrom, TransmuteGuard};

verus! {

/// An enumeration each of whose variants is bound to one byte, its
/// discriminant, and no two to the same.
pub trait ByteEnum: Sized + Copy {
    /// The byte that stands for this variant.
    spec fn discriminant(self) -> u8;

    /// No two variants share a discriminant.
    proof fn lemma_discriminant_injective(a: Self, b: Self)
        requires
            a.discriminant() == b.discriminant(),
        ensures
            a == b,
    ;

    /// The discriminant of this variant.
    fn as_underlying(self) -> (d: u8)
        ensures
            d == self.discriminant(),
    ;
}

/// The variant of `E` bound to `d`, if there is one.
pub open spec fn decoded<E: ByteEnum>(d: u8) -> Option<E> {
    if exists|v: E| v.discriminant() == d {
        Some(choose|v: E| v.discriminant() == d)
    } else {
        None
    }
}

/// An enumeration that aliases are taken from: a byte can be read back as
/// one of its variants.
pub trait ParentEnum: ByteEnum {
    /// Reads `d` as a variant: the one bound to `d`, and nothing where no
    /// variant is bound to it.
    fn from_underlying(d: u8) -> (r: Option<Self>)
        ensures
            r == decoded::<Self>(d),
    ;
}

/// The source that `dst` is the reinterpretation of, and an error where it
/// is the reinterpretation of none.
pub open spec fn narrowed<Src, Dst: TransmuteGuard<Src>>(dst: Dst) -> Result<Src, ()> {
    if exists|src: Src| *Dst::transmuted(&src) == dst {
        Ok(choose|src: Src| *Dst::transmuted(&src) == dst)
    } else {
        Err(())
    }
}

/// An enumeration made of some of the variants of a parent, each under the
/// discriminant that the parent gives it.
///
/// The alias is a pair of the marker system: the marker of the pair names,
/// for each variant of the alias, the parent's variant that it stands for,
/// and the parent converts from the alias like any other destination.
pub trait EnumAlias: ByteEnum {
    /// The enumeration the variants are taken from.
    type Parent: ParentEnum + SafeTransmuteFrom<Self>;

    /// A variant has the discriminant of the parent's variant it stands for.
    proof fn lemma_discriminant_preserved(self)
        ensures
            (*Self::Parent::transmuted(&self)).discriminant() == self.discriminant(),
    ;

    /// Widens by naming the parent's variant, one variant at a time.
    fn as_parent_by_match(self) -> (p: Self::Parent)
        ensures
            p == *Self::Parent::transmuted(&self),
    ;

    /// Narrows `value` to the alias: the variant that stands for it where the
    /// alias has one, and an error for every other variant of the parent.
    fn try_from_parent(value: Self::Parent) -> (r: Result<Self, ()>)
        ensures
            r == narrowed::<Self, Self::Parent>(value),
    ;

    /// Widens by reading the discriminant as one of the parent's. The two
    /// enumerations share one encoding, so this is the variant that
    /// [`as_parent_by_match`](EnumAlias::as_parent_by_match) names.
    fn as_parent(self) -> (p: Self::Parent)
        ensures
            p == *Self::Parent::transmuted(&self),
    {
        proof {
            self.lemma_discriminant_preserved();
            lemma_decoded_discriminant::<Self::Parent>(*Self::Parent::transmuted(&self));
        }
        Self::Parent::from_underlying(self.as_underlying()).unwrap()
    }
}

/// Whether the alias `A` has a variant that stands for `p`.
pub open spec fn selects<A: EnumAlias>(p: A::Parent) -> bool {
    exists|a: A| *A::Parent::transmuted(&a) == p
}

/// A variant is what its own discriminant decodes to.
pub proof fn lemma_decoded_discriminant<E: ByteEnum>(v: E)
    ensures
        decoded::<E>(v.discriminant()) == Some(v),
{
    let w = choose|w: E| w.discriminant() == v.discriminant();
    E::lemma_discriminant_injective(w, v);
}

/// No variant of the parent is taken twice: two variants of the alias that
/// stand for the same variant of the parent are the same variant.
pub proof fn lemma_widening_injective<A: EnumAlias>(a: A, b: A)
    requires
        *A::Parent::transmuted(&a) == *A::Parent::transmuted(&b),
    ensures
        a == b,
{
    a.lemma_discriminant_preserved();
    b.lemma_discriminant_preserved();
    A::lemma_discriminant_injective(a, b);
}

/// Narrowing what widening gave returns the variant one started from.
pub proof fn lemma_narrow_widened<A: EnumAlias>(v: A)
    ensures
        narrowed::<A, A::Parent>(*A::Parent::transmuted(&v)) == Ok::<A, ()>(v),
{
    let p = *A::Parent::transmuted(&v);
    let w = choose|w: A| *A::Parent::transmuted(&w) == p;
    lemma_widening_injective(w, v);
}

/// Narrowing fails on every variant of the parent that the alias left out.
pub proof fn lemma_narrow_unselected<A: EnumAlias>(p: A::Parent)
    requires
        !selects::<A>(p),
    ensures
        narrowed::<A, A::Parent>(p) == Err::<A, ()>(()),
{
}

/// Narrowing succeeds on exactly the variants that the alias took, and then
/// gives a variant that stands for the one narrowed.
pub proof fn lemma_narrow_selected<A: EnumAlias>(p: A::Parent)
    ensures
        narrowed::<A, A::Parent>(p) is Ok <==> selects::<A>(p),
        narrowed::<A, A::Parent>(p) matches Ok(a) ==> *A::Parent::transmuted(&a) == p,
{
}

/// Widening keeps the encoding: a variant and the parent's variant it
/// stands for have one discriminant.
pub proof fn lemma_widening_keeps_discriminant<A: EnumAlias>(v: A)
    ensures
        (*A::Parent::transmuted(&v)).discriminant() == v.discriminant(),
{
    v.lemma_discriminant_preserved();
}

/// The two ways to widen agree: reading the discriminant of `v` as one of
/// the parent's gives the variant that the alias names for `v`.
pub proof fn lemma_widening_paths_agree<A: EnumAlias>(v: A)
    ensures
        decoded::<A::Parent>(v.discriminant()) == Some(*A::Parent::transmuted(&v)),
{
    v.lemma_discriminant_preserved();
    lemma_decoded_discriminant::<A::Parent>(*A::Parent::transmuted(&v));
}

} // verus!
