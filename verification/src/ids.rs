//! Dense identifiers of families, faces and sources.

use vstd::prelude::*;

verus! {

/// Identifier of a font family: its position in the family table of the
/// index that issued it.
#[derive(Clone, Copy, Debug, PartialEq, Eq, Structural, Hash)]
pub struct FamilyId(pub u32);

impl FamilyId {
    /// The position this identifier stands for.
    pub open spec fn index(self) -> int {
        self.0 as int
    }

    pub fn new(raw: u32) -> (id: Self)
        ensures
            id == FamilyId(raw),
    {
        FamilyId(raw)
    }

    pub fn to_u32(self) -> (raw: u32)
        ensures
            raw == self.0,
    {
        self.0
    }

    pub fn to_usize(self) -> (i: usize)
        ensures
            i == self.index(),
    {
        self.0 as usize
    }
}

/// Identifier of a face: its position in the face table of the index that
/// issued it.
#[derive(Clone, Copy, Debug, PartialEq, Eq, Structural, Hash)]
pub struct FontId(pub u32);

impl FontId {
    /// The position this identifier stands for.
    pub open spec fn index(self) -> int {
        self.0 as int
    }

    pub fn new(raw: u32) -> (id: Self)
        ensures
            id == FontId(raw),
    {
        FontId(raw)
    }

    pub fn to_u32(self) -> (raw: u32)
        ensures
            raw == self.0,
    {
        self.0
    }

    pub fn to_usize(self) -> (i: usize)
        ensures
            i == self.index(),
    {
        self.0 as usize
    }
}

/// Identifier of a font source: its position in the source table of the
/// index that issued it.
#[derive(Clone, Copy, Debug, PartialEq, Eq, Structural, Hash)]
pub struct SourceId(pub u32);

impl SourceId {
    /// The position this identifier stands for.
    pub open spec fn index(self) -> int {
        self.0 as int
    }

    pub fn new(raw: u32) -> (id: Self)
        ensures
            id == SourceId(raw),
    {
        SourceId(raw)
    }

    pub fn to_u32(self) -> (raw: u32)
        ensures
            raw == self.0,
    {
        self.0
    }

    pub fn to_usize(self) -> (i: usize)
        ensures
            i == self.index(),
    {
        self.0 as usize
    }
}

} // verus!
