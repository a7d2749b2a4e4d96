//! Style properties as plain values.
//!
//! `font_kit` keeps weight and stretch as 32-bit floats, which can be neither
//! hashed nor compared for identity. The cache uses properties as a lookup key,
//! so it holds each of the two numbers by its IEEE-754 bit pattern: one pattern
//! for one float, and equal patterns are the same key.

use vstd::prelude::*;

verus! {

/// Upright, italic or oblique faces.
#[derive(Copy, Clone, Debug, PartialEq, Eq, Hash, Structural)]
pub enum Style {
    Normal,
    Italic,
    Oblique,
}

/// The CSS weight of a face, as the bit pattern of its 32-bit float.
#[derive(Copy, Clone, Debug, PartialEq, Eq, Hash, Structural)]
pub struct Weight(pub u32);

/// The CSS stretch of a face, as the bit pattern of its 32-bit float.
#[derive(Copy, Clone, Debug, PartialEq, Eq, Hash, Structural)]
pub struct Stretch(pub u32);

/// The bit pattern of `400.0`, the normal weight.
pub const NORMAL_WEIGHT_BITS: u32 = 0x43c8_0000;

/// The bit pattern of `1.0`, the normal stretch.
pub const NORMAL_STRETCH_BITS: u32 = 0x3f80_0000;

/// The style, weight and stretch that a caller asks for.
#[derive(Copy, Clone, Debug, PartialEq, Eq, Hash, Structural)]
pub struct Properties {
    pub style: Style,
    pub weight: Weight,
    pub stretch: Stretch,
}

impl Style {
    /// The number that stands for a style inside a selection key.
    pub open spec fn code(self) -> nat {
        match self {
            Style::Normal => 0,
            Style::Italic => 1,
            Style::Oblique => 2,
        }
    }
}

impl Properties {
    /// Normal style, normal weight and normal stretch.
    pub open spec fn normal() -> Properties {
        Properties {
            style: Style::Normal,
            weight: Weight(NORMAL_WEIGHT_BITS),
            stretch: Stretch(NORMAL_STRETCH_BITS),
        }
    }

    /// The integer under which the selection index files these properties:
    /// the style code, the weight bits and the stretch bits, side by side.
    pub open spec fn key(self) -> nat {
        self.style.code() * 0x1_0000_0000_0000_0000 + self.weight.0 as nat * 0x1_0000_0000
            + self.stretch.0 as nat
    }

    /// Computes `key`.
    pub fn selection_key(&self) -> (k: u128)
        ensures
            k == self.key(),
    {
        let code: u128 = match self.style {
            Style::Normal => 0,
            Style::Italic => 1,
            Style::Oblique => 2,
        };
        code * 0x1_0000_0000_0000_0000 + (self.weight.0 as u128) * 0x1_0000_0000
            + self.stretch.0 as u128
    }

    /// Different properties have different keys.
    pub proof fn lemma_key_injective(a: Properties, b: Properties)
        requires
            a.key() == b.key(),
        ensures
            a == b,
    {
    }
}

/// `font_kit::properties::Properties::default()`, taken over field by field:
/// the style variant by variant, weight and stretch by `f32::to_bits`.
/// The contract claims what `font_kit` documents of its default: normal style,
/// weight 400 and stretch 1.
#[verifier::external_body]
fn font_kit_default() -> (p: Properties)
    ensures
        p == Properties::normal(),
{
    let d = font_kit::properties::Properties::default();
    Properties {
        style: match d.style {
            font_kit::properties::Style::Normal => Style::Normal,
            font_kit::properties::Style::Italic => Style::Italic,
            font_kit::properties::Style::Oblique => Style::Oblique,
        },
        weight: Weight(d.weight.0.to_bits()),
        stretch: Stretch(d.stretch.0.to_bits()),
    }
}

impl Default for Properties {
    /// The properties of an unstyled request, as `font_kit` defines them.
    fn default() -> (p: Properties)
        ensures
            p == Properties::normal(),
    {
        font_kit_default()
    }
}

} // verus!
