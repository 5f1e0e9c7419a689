//! A parent enumeration of three colors and the alias of its primaries.
//!
//! The pair is written out in full. It shows what declaring an alias takes,
//! and that every obligation of [`EnumAlias`] can be met.

use vstd::prelude::*;
use vstd::std_specs::convert::{FromSpecImpl, TryFromSpecImpl};
use crate::alias::{
    decoded, lemma_decoded_discriminant, narrowed, ByteEnum, EnumAlias, ParentEnum,
};
use crate::guard::{SafeTransmuteFrom, TransmuteGuard};

verus! {

/// A color, stored as one byte: `Red` as 0, `Green` as 1, `Blue` as 2.
#[derive(Clone, Copy, Debug, PartialEq, Eq, Structural)]
pub enum Color {
    Red,
    Green,
    Blue,
}

/// The colors `Red` and `Blue`, under the bytes that [`Color`] gives them.
#[derive(Clone, Copy, Debug, PartialEq, Eq, Structural)]
pub enum Primary {
    Red,
    Blue,
}

impl ByteEnum for Color {
    open spec fn discriminant(self) -> u8 {
        match self {
            Color::Red => 0,
            Color::Green => 1,
            Color::Blue => 2,
        }
    }

    proof fn lemma_discriminant_injective(a: Self, b: Self) {
    }

    fn as_underlying(self) -> (d: u8) {
        match self {
            Color::Red => 0,
            Color::Green => 1,
            Color::Blue => 2,
        }
    }
}

impl Color {
    /// The color stored as `d`, if `d` is the byte of one.
    pub open spec fn of_byte(d: u8) -> Option<Color> {
        match d {
            0 => Some(Color::Red),
            1 => Some(Color::Green),
            2 => Some(Color::Blue),
            _ => None,
        }
    }
}

impl ParentEnum for Color {
    fn from_underlying(d: u8) -> (r: Option<Self>)
        ensures
            r == Color::of_byte(d),
    {
        proof {
            lemma_of_byte_is_decoding(d);
        }
        match d {
            0 => Some(Color::Red),
            1 => Some(Color::Green),
            2 => Some(Color::Blue),
            _ => None,
        }
    }
}

impl ByteEnum for Primary {
    open spec fn discriminant(self) -> u8 {
        match self {
            Primary::Red => 0,
            Primary::Blue => 2,
        }
    }

    proof fn lemma_discriminant_injective(a: Self, b: Self) {
    }

    fn as_underlying(self) -> (d: u8) {
        match self {
            Primary::Red => 0,
            Primary::Blue => 2,
        }
    }
}

/// Each primary stands for the color of its name.
impl TransmuteGuard<Primary> for Color {
    open spec fn transmuted(src: &Primary) -> &Color {
        match *src {
            Primary::Red => &Color::Red,
            Primary::Blue => &Color::Blue,
        }
    }
}

impl Primary {
    /// The primary of the same name as `value`, and an error for `Green`,
    /// which is no primary.
    pub open spec fn of_color(value: Color) -> Result<Primary, ()> {
        match value {
            Color::Red => Ok(Primary::Red),
            Color::Green => Err(()),
            Color::Blue => Ok(Primary::Blue),
        }
    }
}

impl EnumAlias for Primary {
    type Parent = Color;

    proof fn lemma_discriminant_preserved(self) {
        let p: Color = *Color::transmuted(&self);
        assert(p.discriminant() == self.discriminant());
    }

    fn as_parent_by_match(self) -> (p: Color) {
        match self {
            Primary::Red => Color::Red,
            Primary::Blue => Color::Blue,
        }
    }

    fn try_from_parent(value: Color) -> (r: Result<Self, ()>)
        ensures
            r == Primary::of_color(value),
    {
        proof {
            lemma_of_color_is_narrowing(value);
        }
        match value {
            Color::Red => Ok(Primary::Red),
            Color::Blue => Ok(Primary::Blue),
            _ => Err(()),
        }
    }
}

/// The table of [`Primary::of_color`] is the narrowing of the pair.
pub proof fn lemma_of_color_is_narrowing(value: Color)
    ensures
        Primary::of_color(value) == narrowed::<Primary, Color>(value),
{
    assert(*Color::transmuted(&Primary::Red) == Color::Red);
    assert(*Color::transmuted(&Primary::Blue) == Color::Blue);
}

/// The table of [`Color::of_byte`] is the decoding of a byte.
pub proof fn lemma_of_byte_is_decoding(d: u8)
    ensures
        Color::of_byte(d) == decoded::<Color>(d),
{
    lemma_decoded_discriminant(Color::Red);
    lemma_decoded_discriminant(Color::Green);
    lemma_decoded_discriminant(Color::Blue);
}

impl SafeTransmuteFrom<Primary> for Color {
    fn safe_transmute_from(value: Primary) -> (r: Self) {
        value.as_parent()
    }
}

impl From<Primary> for Color {
    /// Widens both ways. That the two agree is proved here, once, and so is
    /// not compared when the program runs.
    fn from(value: Primary) -> (r: Color) {
        let by_match = value.as_parent_by_match();
        let by_byte = value.as_parent();
        assert(by_byte == by_match);
        by_byte
    }
}

impl FromSpecImpl<Primary> for Color {
    open spec fn obeys_from_spec() -> bool {
        true
    }

    open spec fn from_spec(value: Primary) -> Color {
        *Color::transmuted(&value)
    }
}

impl TryFrom<Color> for Primary {
    type Error = ();

    fn try_from(value: Color) -> (r: Result<Primary, ()>) {
        Primary::try_from_parent(value)
    }
}

impl TryFromSpecImpl<Color> for Primary {
    open spec fn obeys_try_from_spec() -> bool {
        true
    }

    open spec fn try_from_spec(value: Color) -> Result<Primary, ()> {
        Primary::of_color(value)
    }
}

} // verus!
