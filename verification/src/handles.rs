//! Handles that callers hold in place of families, fonts and glyphs.

use vstd::prelude::*;

verus! {

/// The backend's number for a glyph within one font.
pub type GlyphId = u32;

/// Identifies a loaded family by its position in the cache's family registry.
///
/// Only the cache hands these out, in load order and without gaps. Its view is
/// that position.
#[derive(Copy, Clone, Debug, PartialEq, Eq, Hash, Structural)]
pub struct FamilyId(usize);

impl View for FamilyId {
    type V = nat;

    closed spec fn view(&self) -> nat {
        self.0 as nat
    }
}

impl FamilyId {
    /// The handle of the family registered at position `ix`.
    pub(crate) fn from_index(ix: usize) -> (id: FamilyId)
        ensures
            id@ == ix,
    {
        FamilyId(ix)
    }

    /// The position of the family in the registry.
    pub fn index(&self) -> (ix: usize)
        ensures
            ix == self@,
    {
        self.0
    }

    /// Two handles with the same position are the same handle.
    pub proof fn lemma_view_injective(a: FamilyId, b: FamilyId)
        requires
            a@ == b@,
        ensures
            a == b,
    {
    }
}

/// Identifies one concrete font. The backend assigns the number when it loads
/// a family.
#[derive(Copy, Clone, Debug, PartialEq, Eq, Hash, Structural)]
pub struct FontId(pub usize);

} // verus!
