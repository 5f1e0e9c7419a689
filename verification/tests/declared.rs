use safe_transmute::alias::{ByteEnum, EnumAlias, ParentEnum};
use safe_transmute::color::Color;
use safe_transmute::{safe_transmute, SafeTransmuteFrom, TransmuteGuard};

/// The colors `Green` and `Blue`, declared as an alias should be.
#[derive(Debug, Clone, Copy, PartialEq, Eq)]
enum Cool {
    Green,
    Blue,
}

impl ByteEnum for Cool {
    fn discriminant(self) -> u8 {
        match self {
            Cool::Green => 1,
            Cool::Blue => 2,
        }
    }

    fn lemma_discriminant_injective(_a: Self, _b: Self) {}

    fn as_underlying(self) -> u8 {
        self.discriminant()
    }
}

impl TransmuteGuard<Cool> for Color {
    fn transmuted(src: &Cool) -> &Color {
        match src {
            Cool::Green => &Color::Green,
            Cool::Blue => &Color::Blue,
        }
    }
}

impl SafeTransmuteFrom<Cool> for Color {
    fn safe_transmute_from(value: Cool) -> Color {
        value.as_parent()
    }
}

impl EnumAlias for Cool {
    type Parent = Color;

    fn lemma_discriminant_preserved(self) {}

    fn as_parent_by_match(self) -> Color {
        match self {
            Cool::Green => Color::Green,
            Cool::Blue => Color::Blue,
        }
    }

    fn try_from_parent(value: Color) -> Result<Self, ()> {
        match value {
            Color::Green => Ok(Cool::Green),
            Color::Blue => Ok(Cool::Blue),
            _ => Err(()),
        }
    }
}

/// An alias gone wrong: `Blue` sits under the byte that `Color` gives `Green`.
#[derive(Debug, Clone, Copy, PartialEq, Eq)]
enum Miswired {
    Red,
    Blue,
}

impl ByteEnum for Miswired {
    fn discriminant(self) -> u8 {
        match self {
            Miswired::Red => 0,
            Miswired::Blue => 1,
        }
    }

    fn lemma_discriminant_injective(_a: Self, _b: Self) {}

    fn as_underlying(self) -> u8 {
        self.discriminant()
    }
}

impl TransmuteGuard<Miswired> for Color {
    fn transmuted(src: &Miswired) -> &Color {
        match src {
            Miswired::Red => &Color::Red,
            Miswired::Blue => &Color::Blue,
        }
    }
}

impl SafeTransmuteFrom<Miswired> for Color {
    fn safe_transmute_from(value: Miswired) -> Color {
        value.as_parent()
    }
}

impl EnumAlias for Miswired {
    type Parent = Color;

    fn lemma_discriminant_preserved(self) {}

    fn as_parent_by_match(self) -> Color {
        match self {
            Miswired::Red => Color::Red,
            Miswired::Blue => Color::Blue,
        }
    }

    fn try_from_parent(value: Color) -> Result<Self, ()> {
        match value {
            Color::Red => Ok(Miswired::Red),
            Color::Blue => Ok(Miswired::Blue),
            _ => Err(()),
        }
    }
}

/// An alias of no variant at all.
#[derive(Debug, Clone, Copy, PartialEq, Eq)]
enum Colorless {}

impl ByteEnum for Colorless {
    fn discriminant(self) -> u8 {
        match self {}
    }

    fn lemma_discriminant_injective(_a: Self, _b: Self) {}

    fn as_underlying(self) -> u8 {
        match self {}
    }
}

impl TransmuteGuard<Colorless> for Color {
    fn transmuted(src: &Colorless) -> &Color {
        match *src {}
    }
}

impl SafeTransmuteFrom<Colorless> for Color {
    fn safe_transmute_from(value: Colorless) -> Color {
        match value {}
    }
}

impl EnumAlias for Colorless {
    type Parent = Color;

    fn lemma_discriminant_preserved(self) {}

    fn as_parent_by_match(self) -> Color {
        match self {}
    }

    fn try_from_parent(_value: Color) -> Result<Self, ()> {
        Err(())
    }
}

#[test]
fn declared_alias_widens_by_its_bytes() {
    assert_eq!(Cool::Green.as_parent(), Color::Green);
    assert_eq!(Cool::Blue.as_parent(), Color::Blue);
    assert_eq!(Cool::Green.as_parent(), Cool::Green.as_parent_by_match());
    assert_eq!(Cool::Blue.as_parent(), Cool::Blue.as_parent_by_match());
}

#[test]
fn declared_alias_round_trips() {
    for v in [Cool::Green, Cool::Blue] {
        assert_eq!(Cool::try_from_parent(v.as_parent()), Ok(v));
        assert_eq!(v.as_underlying(), v.as_parent().as_underlying());
    }
    assert_eq!(Cool::try_from_parent(Color::Red), Err(()));
}

#[test]
fn declared_alias_converts_through_the_marker() {
    let c: Color = safe_transmute(Cool::Green);
    assert_eq!(c, Color::Green);
}

#[test]
fn miswired_alias_shows_when_the_two_ways_are_compared() {
    assert_eq!(Miswired::Red.as_parent(), Miswired::Red.as_parent_by_match());
    assert_eq!(Miswired::Blue.as_parent_by_match(), Color::Blue);
    assert_eq!(Miswired::Blue.as_parent(), Color::Green);
    assert_ne!(Miswired::Blue.as_parent(), Miswired::Blue.as_parent_by_match());
}

#[test]
fn empty_alias_narrows_nothing() {
    for d in 0..=255u8 {
        if let Some(c) = Color::from_underlying(d) {
            assert_eq!(Colorless::try_from_parent(c), Err(()));
        }
    }
    assert_eq!(Colorless::try_from_parent(Color::Red), Err(()));
    assert_eq!(Colorless::try_from_parent(Color::Green), Err(()));
    assert_eq!(Colorless::try_from_parent(Color::Blue), Err(()));
}
