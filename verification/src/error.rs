//! The two failures of family loading that a caller can recover from.

use vstd::prelude::*;

verus! {

/// Why `load_family` did not return a family.
#[derive(Copy, Clone, Debug, PartialEq, Eq, Structural)]
pub enum FontError {
    /// The backend offered fonts for a candidate name, and one of them has no
    /// glyph for the reference character `'m'`.
    MissingGlyph,
    /// No candidate name is registered, and the backend had fonts for none.
    NoMatchingFamily,
}

impl FontError {
    /// The text of `message`.
    pub open spec fn message_text(self) -> Seq<char> {
        match self {
            FontError::MissingGlyph => "font must contain a glyph for the 'm' character"@,
            FontError::NoMatchingFamily =>
                "could not find a non-empty font family matching one of the given names"@,
        }
    }

    /// A sentence for the user.
    pub fn message(&self) -> (text: String)
        ensures
            text@ == self.message_text(),
    {
        match self {
            FontError::MissingGlyph => "font must contain a glyph for the 'm' character".to_owned(),
            FontError::NoMatchingFamily =>
                "could not find a non-empty font family matching one of the given names".to_owned(),
        }
    }
}

} // verus!
