//! The font backend that the cache consumes.

use vstd::prelude::*;
use crate::handles::{FontId, GlyphId};
use crate::properties::Properties;

verus! {

/// `font_kit`'s record of the measurements of a whole font. The cache stores
/// and hands out such records and never looks inside one.
#[verifier::external_type_specification]
#[verifier::external_body]
pub struct ExMetrics(font_kit::metrics::Metrics);

/// `pathfinder_geometry`'s rectangle, in which a backend reports the bounds of
/// a glyph.
#[verifier::external_type_specification]
#[verifier::external_body]
pub struct ExRectF(pathfinder_geometry::rect::RectF);

/// `anyhow`'s error, with which a backend reports a failure. The cache only
/// tells failure from success.
#[verifier::external_type_specification]
#[verifier::external_body]
pub struct ExAnyhowError(anyhow::Error);

/// What a platform offers the cache. The cache shares a backend with other
/// caches and threads and never changes it.
///
/// Nothing is promised of an answer: it depends on the fonts of the machine.
pub trait FontSystem: Send + Sync {
    /// The fonts of the family called `name`. May fail, and may be empty.
    fn load_family(&self, name: &str) -> Result<Vec<FontId>, anyhow::Error>;

    /// The font among `font_ids` that matches `properties` best, if the backend
    /// can tell.
    fn select_font(&self, font_ids: &[FontId], properties: &Properties) -> Option<FontId>;

    /// The metrics record of a font.
    fn font_metrics(&self, font_id: FontId) -> font_kit::metrics::Metrics;

    /// The typographic bounds of one glyph of a font.
    fn typographic_bounds(&self, font_id: FontId, glyph_id: GlyphId) -> Result<
        pathfinder_geometry::rect::RectF,
        anyhow::Error,
    >;

    /// The glyph that a font draws for `ch`, if it has one.
    fn glyph_for_char(&self, font_id: FontId, ch: char) -> Option<GlyphId>;
}

/// `answer` is an answer that `backend` may give when it is asked to load the
/// family called `name`.
pub open spec fn load_answer<B: FontSystem + ?Sized>(
    backend: &B,
    name: &str,
    answer: Result<Vec<FontId>, anyhow::Error>,
) -> bool {
    call_ensures(B::load_family, (backend, name), answer)
}

/// `choice` is an answer that `backend` may give when it is asked to select
/// among `font_ids` for `properties`.
pub open spec fn choice_answer<B: FontSystem + ?Sized>(
    backend: &B,
    font_ids: &[FontId],
    properties: &Properties,
    choice: Option<FontId>,
) -> bool {
    call_ensures(B::select_font, (backend, font_ids, properties), choice)
}

/// `metrics` is an answer that `backend` may give when it is asked for the
/// metrics record of `font_id`.
pub open spec fn metrics_answer<B: FontSystem + ?Sized>(
    backend: &B,
    font_id: FontId,
    metrics: font_kit::metrics::Metrics,
) -> bool {
    call_ensures(B::font_metrics, (backend, font_id), metrics)
}

/// `glyph` is an answer that `backend` may give when it is asked for the glyph
/// of `ch` in `font_id`. Nothing is known of which answers a backend may
/// give; this only ties an answer to the question that was asked.
pub open spec fn glyph_answer<B: FontSystem + ?Sized>(
    backend: &B,
    font_id: FontId,
    ch: char,
    glyph: Option<GlyphId>,
) -> bool {
    call_ensures(B::glyph_for_char, (backend, font_id, ch), glyph)
}

/// `bounds` is an answer that `backend` may give when it is asked for the
/// typographic bounds of the glyph `glyph_id` of `font_id`.
pub open spec fn bounds_answer<B: FontSystem + ?Sized>(
    backend: &B,
    font_id: FontId,
    glyph_id: GlyphId,
    bounds: Result<pathfinder_geometry::rect::RectF, anyhow::Error>,
) -> bool {
    call_ensures(B::typographic_bounds, (backend, font_id, glyph_id), bounds)
}

} // verus!
