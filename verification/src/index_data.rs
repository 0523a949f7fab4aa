//! The records an index stores: sources, faces and families.

use crate::attributes::{Attributes, RequestedAttributes, Style};
use crate::ids::{FamilyId, FontId, SourceId};
use swash::CacheKey;
use vstd::prelude::*;

verus! {

/// Where the bytes of a font come from.
#[derive(Clone, Debug)]
pub enum SourceKind {
    /// A buffer in memory.
    Memory(Vec<u8>),
    /// A file, by its path.
    File { path: String },
}

/// One origin of font data.
#[derive(Clone, Debug)]
pub struct SourceData {
    pub id: SourceId,
    pub kind: SourceKind,
}

/// One face.
#[derive(Clone, Copy, Debug)]
pub struct FontData {
    pub id: FontId,
    /// The family the face belongs to.
    pub family: FamilyId,
    /// The source that holds the face.
    pub source: SourceId,
    /// The position of the face in its source, where the source is a
    /// collection.
    pub index: u32,
    /// The offset of the face's table directory in its source.
    pub offset: u32,
    pub attributes: Attributes,
    pub key: CacheKey,
}

/// A face as its family lists it: the identifier, and the attributes by
/// which a face is selected.
#[derive(Clone, Copy, Debug, PartialEq, Eq, Structural)]
pub struct FamilyFont {
    pub id: FontId,
    pub attributes: Attributes,
}

/// A named group of faces.
#[derive(Clone, Debug)]
pub struct FamilyData {
    pub id: FamilyId,
    /// The name as it is displayed; lookups go by its lowercase form.
    pub name: String,
    /// The faces, in the order of their registration.
    pub fonts: Vec<FamilyFont>,
}

/// The distance between two values of an attribute.
pub open spec fn gap(a: u16, b: u16) -> int {
    if a <= b {
        b - a
    } else {
        a - b
    }
}

/// How well a face of style `have` serves a request for `want`: 0 for the
/// style itself, 1 for the substitute tried first, 2 for the last resort.
/// Oblique stands in for both other styles before they stand in for each
/// other; italic is the first substitute for oblique.
pub open spec fn style_rank(want: Style, have: Style) -> int {
    match want {
        Style::Normal => match have {
            Style::Normal => 0,
            Style::Oblique => 1,
            Style::Italic => 2,
        },
        Style::Italic => match have {
            Style::Italic => 0,
            Style::Oblique => 1,
            Style::Normal => 2,
        },
        Style::Oblique => match have {
            Style::Oblique => 0,
            Style::Italic => 1,
            Style::Normal => 2,
        },
    }
}

/// How far the attributes of a face are from those asked for.
pub struct Distance {
    pub stretch: int,
    pub style: int,
    pub weight: int,
}

/// The distance of `have` from `want`.
pub open spec fn distance(want: RequestedAttributes, have: Attributes) -> Distance {
    Distance {
        stretch: gap(want.spec_stretch(), have.spec_stretch()),
        style: style_rank(want.spec_style(), have.spec_style()),
        weight: gap(want.spec_weight(), have.spec_weight()),
    }
}

/// Whether `a` is strictly nearer than `b`: stretch decides, then style,
/// then weight.
pub open spec fn nearer(a: Distance, b: Distance) -> bool {
    a.stretch < b.stretch || (a.stretch == b.stretch && (a.style < b.style || (a.style == b.style
        && a.weight < b.weight)))
}

/// The position in `fonts` of the face nearest to `want`; of several
/// equally near, the first. Meaningful where `fonts` is not empty.
pub open spec fn nearest(fonts: Seq<FamilyFont>, want: RequestedAttributes) -> int
    decreases fonts.len(),
{
    if fonts.len() <= 1 {
        0
    } else {
        let best = nearest(fonts.drop_last(), want);
        if nearer(distance(want, fonts.last().attributes), distance(want, fonts[best].attributes)) {
            fonts.len() - 1
        } else {
            best
        }
    }
}

/// The nearest face is a face of the list, no face of the list is nearer,
/// and every face before it is farther.
pub proof fn lemma_nearest(fonts: Seq<FamilyFont>, want: RequestedAttributes)
    requires
        fonts.len() > 0,
    ensures
        0 <= nearest(fonts, want) < fonts.len(),
        forall|j: int|
            0 <= j < fonts.len() ==> !nearer(
                distance(want, #[trigger] fonts[j].attributes),
                distance(want, fonts[nearest(fonts, want)].attributes),
            ),
        forall|j: int|
            0 <= j < nearest(fonts, want) ==> nearer(
                distance(want, fonts[nearest(fonts, want)].attributes),
                distance(want, #[trigger] fonts[j].attributes),
            ),
    decreases fonts.len(),
{
    if fonts.len() > 1 {
        let front = fonts.drop_last();
        lemma_nearest(front, want);
        let before = nearest(front, want);
        let best = nearest(fonts, want);
        assert forall|j: int| 0 <= j < fonts.len() implies !nearer(
            distance(want, #[trigger] fonts[j].attributes),
            distance(want, fonts[best].attributes),
        ) by {
            if j < front.len() {
                assert(fonts[j] == front[j]);
            }
        }
        assert forall|j: int| 0 <= j < best implies nearer(
            distance(want, fonts[best].attributes),
            distance(want, #[trigger] fonts[j].attributes),
        ) by {
            assert(fonts[j] == front[j]);
        }
    }
}

/// A distance in machine integers.
struct Measured {
    stretch: u16,
    style: u8,
    weight: u16,
}

impl Measured {
    spec fn value(self) -> Distance {
        Distance {
            stretch: self.stretch as int,
            style: self.style as int,
            weight: self.weight as int,
        }
    }

    fn of(want: RequestedAttributes, have: Attributes) -> (m: Measured)
        ensures
            m.value() == distance(want, have),
    {
        let style: u8 = match want.style() {
            Style::Normal => match have.style() {
                Style::Normal => 0,
                Style::Oblique => 1,
                Style::Italic => 2,
            },
            Style::Italic => match have.style() {
                Style::Italic => 0,
                Style::Oblique => 1,
                Style::Normal => 2,
            },
            Style::Oblique => match have.style() {
                Style::Oblique => 0,
                Style::Italic => 1,
                Style::Normal => 2,
            },
        };
        Measured {
            stretch: apart(want.stretch(), have.stretch()),
            style,
            weight: apart(want.weight(), have.weight()),
        }
    }

    fn nearer_than(&self, other: &Measured) -> (r: bool)
        ensures
            r == nearer(self.value(), other.value()),
    {
        self.stretch < other.stretch || (self.stretch == other.stretch && (self.style < other.style
            || (self.style == other.style && self.weight < other.weight)))
    }
}

fn apart(a: u16, b: u16) -> (d: u16)
    ensures
        d == gap(a, b),
{
    if a <= b {
        b - a
    } else {
        a - b
    }
}

impl FamilyData {
    /// The face that `query` selects.
    pub open spec fn spec_query(&self, want: RequestedAttributes) -> Option<FontId> {
        if self.fonts@.len() == 0 {
            None
        } else {
            Some(self.fonts@[nearest(self.fonts@, want)].id)
        }
    }

    /// Selects the face of the family that is nearest to `want`: the first
    /// of those at the least distance. A family without faces has no match.
    pub fn query(&self, want: RequestedAttributes) -> (font: Option<FontId>)
        ensures
            font == self.spec_query(want),
    {
        if self.fonts.len() == 0 {
            return None;
        }
        let mut best: usize = 0;
        let mut best_distance = Measured::of(want, self.fonts[0].attributes);
        let mut i: usize = 1;
        assert(self.fonts@.take(1).len() == 1);
        while i < self.fonts.len()
            invariant
                1 <= i <= self.fonts.len(),
                best == nearest(self.fonts@.take(i as int), want),
                best < i,
                best_distance.value() == distance(want, self.fonts@[best as int].attributes),
            decreases self.fonts.len() - i,
        {
            let candidate = Measured::of(want, self.fonts[i].attributes);
            proof {
                let upto = self.fonts@.take(i + 1);
                assert(upto.drop_last() =~= self.fonts@.take(i as int));
                assert(upto.last() == self.fonts@[i as int]);
                assert(upto[best as int] == self.fonts@[best as int]);
            }
            if candidate.nearer_than(&best_distance) {
                best = i;
                best_distance = candidate;
            }
            i += 1;
        }
        assert(self.fonts@.take(i as int) =~= self.fonts@);
        Some(self.fonts[best].id)
    }
}

} // verus!
