//! Face attributes (stretch, weight, style) and cache keys, as the `swash`
//! crate encodes them.

use vstd::prelude::*;

verus! {

/// The cache key of a face. The index carries it from registration to the
/// caller and never looks inside.
#[verifier::external_type_specification]
#[verifier::external_body]
pub struct ExCacheKey(swash::CacheKey);

/// The slope of a face.
#[derive(Clone, Copy, Debug, PartialEq, Eq, Structural, Hash)]
pub enum Style {
    Normal,
    Italic,
    Oblique,
}

/// Stretch, weight and style of a face, packed into 32 bits as in
/// `swash::Attributes`.
#[derive(Clone, Copy, Debug, PartialEq, Eq, Structural, Hash)]
pub struct Attributes(pub u32);

/// Attributes that a caller asks for, as opposed to those a face has.
pub type RequestedAttributes = Attributes;

/// `swash::Attributes::stretch`, read with `Stretch::raw`: the nine bits
/// from bit 19 up.
#[verifier::external_body]
fn packed_stretch(bits: u32) -> (raw: u16)
    ensures
        raw == ((bits >> 19) & 0x1ff),
{
    swash::Attributes(bits).stretch().raw()
}

/// `swash::Attributes::weight`: the ten bits from bit 9 up.
#[verifier::external_body]
fn packed_weight(bits: u32) -> (weight: u16)
    ensures
        weight == ((bits >> 9) & 0x3ff),
{
    swash::Attributes(bits).weight().0
}

/// `swash::Attributes::style`, without the angle of an oblique style. The
/// low nine bits hold the style: an odd value is oblique, 6 is italic, and
/// anything else is normal.
#[verifier::external_body]
fn packed_style(bits: u32) -> (style: Style)
    ensures
        style == if (bits & 1) != 0 {
            Style::Oblique
        } else if (bits & 0x1ff) == 6 {
            Style::Italic
        } else {
            Style::Normal
        },
{
    match swash::Attributes(bits).style() {
        swash::Style::Normal => Style::Normal,
        swash::Style::Italic => Style::Italic,
        swash::Style::Oblique(_) => Style::Oblique,
    }
}

impl Attributes {
    /// The stretch: 0 is the most condensed, 100 is normal.
    pub open spec fn spec_stretch(self) -> u16 {
        ((self.0 >> 19) & 0x1ff) as u16
    }

    /// The weight: 400 is normal, 700 is bold.
    pub open spec fn spec_weight(self) -> u16 {
        ((self.0 >> 9) & 0x3ff) as u16
    }

    /// The slope.
    pub open spec fn spec_style(self) -> Style {
        if (self.0 & 1) != 0 {
            Style::Oblique
        } else if (self.0 & 0x1ff) == 6 {
            Style::Italic
        } else {
            Style::Normal
        }
    }

    /// The stretch: 0 is the most condensed, 100 is normal.
    #[verifier::when_used_as_spec(spec_stretch)]
    pub fn stretch(self) -> (raw: u16)
        ensures
            raw == self.spec_stretch(),
    {
        packed_stretch(self.0)
    }

    /// The weight: 400 is normal, 700 is bold.
    #[verifier::when_used_as_spec(spec_weight)]
    pub fn weight(self) -> (weight: u16)
        ensures
            weight == self.spec_weight(),
    {
        packed_weight(self.0)
    }

    /// The slope.
    #[verifier::when_used_as_spec(spec_style)]
    pub fn style(self) -> (style: Style)
        ensures
            style == self.spec_style(),
    {
        packed_style(self.0)
    }
}

} // verus!
