use std::sync::atomic::{AtomicUsize, Ordering};
use std::sync::{Arc, Mutex};

use font_cache::{
    FamilyId, FontCache, FontCacheState, FontError, FontId, FontSystem, GlyphId, Properties,
    Stretch, Style, Weight,
};
use font_kit::metrics::Metrics;
use pathfinder_geometry::rect::RectF;
use pathfinder_geometry::vector::Vector2F;

/// A backend with a fixed set of families that counts how often it is asked.
struct MockFonts {
    families: Vec<(&'static str, Vec<FontId>)>,
    broken: Vec<&'static str>,
    without_reference_glyph: Vec<FontId>,
    choice: Option<FontId>,
    loads: AtomicUsize,
    selections: AtomicUsize,
    metrics: AtomicUsize,
    glyphs: AtomicUsize,
    asked_to_load: Mutex<Vec<String>>,
    asked_to_select: Mutex<Vec<(Vec<FontId>, Properties)>>,
    asked_for_metrics: Mutex<Vec<FontId>>,
    asked_for_glyph: Mutex<Vec<(FontId, char)>>,
}

impl MockFonts {
    fn new() -> MockFonts {
        MockFonts {
            families: vec![
                ("Arial", vec![FontId(10), FontId(11), FontId(12)]),
                ("Menlo", vec![FontId(20)]),
                ("Symbols", vec![FontId(30), FontId(31)]),
                ("Ghost", vec![]),
            ],
            broken: vec!["Broken"],
            without_reference_glyph: vec![FontId(31)],
            choice: None,
            loads: AtomicUsize::new(0),
            selections: AtomicUsize::new(0),
            metrics: AtomicUsize::new(0),
            glyphs: AtomicUsize::new(0),
            asked_to_load: Mutex::new(Vec::new()),
            asked_to_select: Mutex::new(Vec::new()),
            asked_for_metrics: Mutex::new(Vec::new()),
            asked_for_glyph: Mutex::new(Vec::new()),
        }
    }

    fn choosing(font: FontId) -> MockFonts {
        let mut fonts = MockFonts::new();
        fonts.choice = Some(font);
        fonts
    }

    fn loads(&self) -> usize {
        self.loads.load(Ordering::SeqCst)
    }

    fn selections(&self) -> usize {
        self.selections.load(Ordering::SeqCst)
    }

    fn metrics(&self) -> usize {
        self.metrics.load(Ordering::SeqCst)
    }

    fn glyphs(&self) -> usize {
        self.glyphs.load(Ordering::SeqCst)
    }
}

impl FontSystem for MockFonts {
    fn load_family(&self, name: &str) -> Result<Vec<FontId>, anyhow::Error> {
        self.loads.fetch_add(1, Ordering::SeqCst);
        self.asked_to_load.lock().unwrap().push(name.to_string());
        if self.broken.contains(&name) {
            return Err(anyhow::Error::msg("the font directory cannot be read"));
        }
        match self.families.iter().find(|(family, _)| *family == name) {
            Some((_, font_ids)) => Ok(font_ids.clone()),
            None => Ok(Vec::new()),
        }
    }

    fn select_font(&self, font_ids: &[FontId], properties: &Properties) -> Option<FontId> {
        self.selections.fetch_add(1, Ordering::SeqCst);
        self.asked_to_select.lock().unwrap().push((font_ids.to_vec(), *properties));
        self.choice
    }

    fn font_metrics(&self, font_id: FontId) -> Metrics {
        self.metrics.fetch_add(1, Ordering::SeqCst);
        self.asked_for_metrics.lock().unwrap().push(font_id);
        Metrics {
            units_per_em: 1000 + font_id.0 as u32,
            ascent: 800.0,
            descent: -200.0,
            line_gap: 0.0,
            underline_position: -100.0,
            underline_thickness: 50.0,
            cap_height: 700.0,
            x_height: 500.0,
            bounding_box: RectF::new(Vector2F::new(0.0, -200.0), Vector2F::new(1200.0, 1000.0)),
        }
    }

    fn typographic_bounds(&self, font_id: FontId, glyph_id: GlyphId) -> Result<RectF, anyhow::Error> {
        if font_id == FontId(30) {
            return Err(anyhow::Error::msg("the glyph has no outline"));
        }
        Ok(RectF::new(Vector2F::new(1.0, 2.0), Vector2F::new(glyph_id as f32, 10.0)))
    }

    fn glyph_for_char(&self, font_id: FontId, ch: char) -> Option<GlyphId> {
        self.glyphs.fetch_add(1, Ordering::SeqCst);
        self.asked_for_glyph.lock().unwrap().push((font_id, ch));
        if ch == 'm' && self.without_reference_glyph.contains(&font_id) {
            None
        } else {
            Some(ch as u32)
        }
    }
}

fn bold() -> Properties {
    Properties { style: Style::Normal, weight: Weight(700.0f32.to_bits()), stretch: Stretch(1.0f32.to_bits()) }
}

fn italic() -> Properties {
    Properties { style: Style::Italic, weight: Weight(400.0f32.to_bits()), stretch: Stretch(1.0f32.to_bits()) }
}

#[test]
fn new_cache_is_empty() {
    let fonts = Arc::new(MockFonts::new());
    let cache = FontCache::new(fonts.clone());
    assert_eq!(cache.state().family_count(), 0);
    assert_eq!(cache.state().find_family("Arial"), None);
    assert!(cache.state().metrics(FontId(10)).is_none());
    assert_eq!(fonts.loads(), 0);
}

#[test]
fn new_state_is_empty() {
    let state = FontCacheState::new();
    assert_eq!(state.family_count(), 0);
    assert_eq!(state.find_family(""), None);
}

#[test]
fn load_family_fails_when_no_candidate_exists() {
    let fonts = Arc::new(MockFonts::new());
    let mut cache = FontCache::new(fonts.clone());
    let r = cache.load_family(&["NonExistentFont1", "NonExistentFont2"]);
    assert_eq!(r, Err(FontError::NoMatchingFamily));
    assert_eq!(cache.state().family_count(), 0);
    assert_eq!(fonts.loads(), 2);
}

#[test]
fn load_family_of_no_names_fails() {
    let fonts = Arc::new(MockFonts::new());
    let mut cache = FontCache::new(fonts.clone());
    assert_eq!(cache.load_family(&[]), Err(FontError::NoMatchingFamily));
    assert_eq!(fonts.loads(), 0);
}

#[test]
fn load_family_skips_a_backend_failure() {
    let fonts = Arc::new(MockFonts::new());
    let mut cache = FontCache::new(fonts.clone());
    assert_eq!(cache.load_family(&["Broken"]), Err(FontError::NoMatchingFamily));
    let id = cache.load_family(&["Broken", "Ghost", "Menlo"]).unwrap();
    assert_eq!(id.index(), 0);
    assert_eq!(cache.state().find_family("Menlo"), Some(id));
    assert_eq!(cache.state().find_family("Broken"), None);
    assert_eq!(cache.state().find_family("Ghost"), None);
}

#[test]
fn load_family_twice_asks_the_backend_once() {
    let fonts = Arc::new(MockFonts::new());
    let mut cache = FontCache::new(fonts.clone());
    let first = cache.load_family(&["Arial"]).unwrap();
    assert_eq!(fonts.loads(), 1);
    let second = cache.load_family(&["Arial"]).unwrap();
    assert_eq!(first, second);
    assert_eq!(fonts.loads(), 1);
    assert_eq!(cache.state().family_count(), 1);
}

#[test]
fn load_family_takes_the_first_available_candidate() {
    let fonts = Arc::new(MockFonts::new());
    let mut cache = FontCache::new(fonts.clone());
    let menlo = cache.load_family(&["Menlo"]).unwrap();
    // "Arial" is not registered and the backend has it: it wins over the
    // registered "Menlo" behind it.
    let arial = cache.load_family(&["Arial", "Menlo"]).unwrap();
    assert_eq!(menlo.index(), 0);
    assert_eq!(arial.index(), 1);
    // A missing first candidate falls through to the registered one.
    assert_eq!(cache.load_family(&["Nowhere", "Menlo"]), Ok(menlo));
    assert_eq!(cache.state().family_count(), 2);
}

#[test]
fn load_family_rejects_a_font_without_the_reference_glyph() {
    let fonts = Arc::new(MockFonts::new());
    let mut cache = FontCache::new(fonts.clone());
    let arial = cache.load_family(&["Arial"]).unwrap();
    assert_eq!(cache.load_family(&["Symbols"]), Err(FontError::MissingGlyph));
    assert_eq!(cache.state().family_count(), 1);
    assert_eq!(cache.state().find_family("Symbols"), None);
    // The failed load did not use up a handle.
    let menlo = cache.load_family(&["Menlo"]).unwrap();
    assert_eq!(arial.index(), 0);
    assert_eq!(menlo.index(), 1);
    assert_eq!(format!("{:?}", menlo), "FamilyId(1)");
}

#[test]
fn load_family_stops_at_a_font_without_the_reference_glyph() {
    let fonts = Arc::new(MockFonts::new());
    let mut cache = FontCache::new(fonts.clone());
    // "Symbols" settles the load with an error: "Menlo" is never tried.
    assert_eq!(cache.load_family(&["Symbols", "Menlo"]), Err(FontError::MissingGlyph));
    assert_eq!(fonts.loads(), 1);
    assert_eq!(cache.state().family_count(), 0);
}

#[test]
fn load_family_checks_every_font_for_the_reference_glyph() {
    let fonts = Arc::new(MockFonts::new());
    let mut cache = FontCache::new(fonts.clone());
    cache.load_family(&["Arial"]).unwrap();
    assert_eq!(fonts.glyphs(), 3);
}

#[test]
fn registered_family_keeps_the_fonts_of_the_backend() {
    let fonts = Arc::new(MockFonts::new());
    let mut cache = FontCache::new(fonts.clone());
    let arial = cache.load_family(&["Arial"]).unwrap();
    assert_eq!(cache.state().family_fonts(arial), &vec![FontId(10), FontId(11), FontId(12)]);
    assert!(cache.state().has_family(arial));
}

#[test]
fn has_family_knows_the_handles_given_out() {
    let fonts = Arc::new(MockFonts::new());
    let mut cache = FontCache::new(fonts.clone());
    let mut other = FontCache::new(fonts.clone());
    other.load_family(&["Arial"]).unwrap();
    let second: FamilyId = other.load_family(&["Menlo"]).unwrap();
    assert!(!cache.state().has_family(second));
    cache.load_family(&["Arial"]).unwrap();
    assert!(!cache.state().has_family(second));
    cache.load_family(&["Menlo"]).unwrap();
    assert!(cache.state().has_family(second));
}

#[test]
fn select_font_twice_gives_the_same_font() {
    let fonts = Arc::new(MockFonts::choosing(FontId(11)));
    let mut cache = FontCache::new(fonts.clone());
    let arial = cache.load_family(&["Arial"]).unwrap();
    let first = cache.select_font(arial, &bold()).unwrap();
    let second = cache.select_font(arial, &bold()).unwrap();
    assert_eq!(first, FontId(11));
    assert_eq!(second, FontId(11));
    assert_eq!(fonts.selections(), 1);
}

#[test]
fn select_font_falls_back_to_the_first_font() {
    let fonts = Arc::new(MockFonts::new());
    let mut cache = FontCache::new(fonts.clone());
    let arial = cache.load_family(&["Arial"]).unwrap();
    assert_eq!(cache.select_font(arial, &italic()), Ok(FontId(10)));
    assert_eq!(cache.state().selection(arial, &italic()), Some(FontId(10)));
    assert_eq!(cache.state().selection(arial, &bold()), None);
}

#[test]
fn select_font_keeps_one_entry_for_each_key() {
    let fonts = Arc::new(MockFonts::new());
    let mut cache = FontCache::new(fonts.clone());
    let arial = cache.load_family(&["Arial"]).unwrap();
    let menlo = cache.load_family(&["Menlo"]).unwrap();
    assert_eq!(cache.select_font(arial, &bold()), Ok(FontId(10)));
    assert_eq!(cache.select_font(menlo, &bold()), Ok(FontId(20)));
    assert_eq!(cache.select_font(arial, &italic()), Ok(FontId(10)));
    assert_eq!(fonts.selections(), 3);
    assert_eq!(cache.select_font(menlo, &bold()), Ok(FontId(20)));
    assert_eq!(cache.select_font(arial, &bold()), Ok(FontId(10)));
    assert_eq!(fonts.selections(), 3);
    assert_eq!(cache.state().selection(menlo, &italic()), None);
}

#[test]
fn default_font_is_the_selection_for_default_properties() {
    let fonts = Arc::new(MockFonts::choosing(FontId(12)));
    let mut cache = FontCache::new(fonts.clone());
    let arial = cache.load_family(&["Arial"]).unwrap();
    let font = cache.default_font(arial);
    assert_eq!(cache.select_font(arial, &Properties::default()), Ok(font));
    assert_eq!(font, FontId(12));
    assert_eq!(fonts.selections(), 1);

    let mut other = FontCache::new(fonts.clone());
    let menlo = other.load_family(&["Menlo"]).unwrap();
    let selected = other.select_font(menlo, &Properties::default()).unwrap();
    assert_eq!(other.default_font(menlo), selected);
}

#[test]
fn record_selection_lets_a_recorded_selection_stand() {
    let mut state = FontCacheState::new();
    let family = state.settle("Arial", vec![FontId(10), FontId(11)], true).unwrap();
    assert_eq!(state.record_selection(family, bold(), Some(FontId(11))), FontId(11));
    assert_eq!(state.record_selection(family, bold(), Some(FontId(10))), FontId(11));
    assert_eq!(state.record_selection(family, bold(), None), FontId(11));
    assert_eq!(state.record_selection(family, italic(), None), FontId(10));
    assert_eq!(state.selection(family, &bold()), Some(FontId(11)));
    assert_eq!(state.selection(family, &italic()), Some(FontId(10)));
}

#[test]
fn settle_registers_at_the_next_position() {
    let mut state = FontCacheState::new();
    let a = state.settle("A", vec![FontId(1)], true).unwrap();
    let b = state.settle("B", vec![FontId(2), FontId(3)], true).unwrap();
    assert_eq!(a.index(), 0);
    assert_eq!(b.index(), 1);
    assert_eq!(state.family_count(), 2);
    assert_eq!(state.find_family("B"), Some(b));
    assert_eq!(state.find_family("b"), None);
    assert_eq!(state.family_fonts(b), &vec![FontId(2), FontId(3)]);
}

#[test]
fn settle_finds_a_registered_name_whatever_is_offered() {
    let mut state = FontCacheState::new();
    let a = state.settle("A", vec![FontId(1)], true).unwrap();
    assert_eq!(state.settle("A", vec![FontId(7), FontId(8)], true), Ok(a));
    assert_eq!(state.settle("A", vec![], true), Ok(a));
    assert_eq!(state.settle("A", vec![FontId(9)], false), Ok(a));
    assert_eq!(state.family_count(), 1);
    assert_eq!(state.family_fonts(a), &vec![FontId(1)]);
}

#[test]
fn settle_registers_nothing_without_fonts_or_glyph() {
    let mut state = FontCacheState::new();
    assert_eq!(state.settle("A", vec![], true), Err(FontError::NoMatchingFamily));
    assert_eq!(state.settle("A", vec![], false), Err(FontError::NoMatchingFamily));
    assert_eq!(state.settle("A", vec![FontId(1)], false), Err(FontError::MissingGlyph));
    assert_eq!(state.family_count(), 0);
    assert_eq!(state.find_family("A"), None);
    assert_eq!(state.settle("A", vec![FontId(1)], true).map(|id| id.index()), Ok(0));
}

#[test]
fn metric_asks_the_backend_once_for_each_font() {
    let fonts = Arc::new(MockFonts::new());
    let mut cache = FontCache::new(fonts.clone());
    assert_eq!(cache.metric(FontId(10), |m| m.units_per_em), 1010);
    assert_eq!(fonts.metrics(), 1);
    assert_eq!(cache.metric(FontId(10), |m| m.cap_height), 700.0);
    assert_eq!(cache.metric(FontId(10), |m| m.bounding_box.height()), 1000.0);
    assert_eq!(fonts.metrics(), 1);
    assert_eq!(cache.metric(FontId(20), |m| m.units_per_em), 1020);
    assert_eq!(fonts.metrics(), 2);
    assert_eq!(cache.state().metrics(FontId(20)).map(|m| m.units_per_em), Some(1020));
    assert!(cache.state().metrics(FontId(30)).is_none());
}

#[test]
fn record_metrics_lets_a_record_stand() {
    let fonts = MockFonts::new();
    let mut state = FontCacheState::new();
    state.record_metrics(FontId(1), fonts.font_metrics(FontId(1)));
    state.record_metrics(FontId(1), fonts.font_metrics(FontId(2)));
    assert_eq!(state.metrics(FontId(1)).map(|m| m.units_per_em), Some(1001));
    assert!(state.metrics(FontId(2)).is_none());
}

#[test]
fn reference_glyph_bounds_are_those_of_the_backend() {
    let fonts = Arc::new(MockFonts::new());
    let cache = FontCache::new(fonts.clone());
    let bounds = cache.reference_glyph_bounds(FontId(10)).unwrap();
    assert_eq!(bounds.width(), 'm' as u32 as f32);
    assert_eq!(bounds.height(), 10.0);
    assert_eq!(bounds.origin_x(), 1.0);
    // Asked anew on every call.
    cache.reference_glyph_bounds(FontId(10)).unwrap();
    assert_eq!(fonts.glyphs(), 2);
    assert_eq!(cache.state().family_count(), 0);
    assert!(cache.state().metrics(FontId(10)).is_none());
}

#[test]
fn reference_glyph_bounds_need_the_glyph_and_its_measure() {
    let fonts = Arc::new(MockFonts::new());
    let cache = FontCache::new(fonts.clone());
    // No glyph for the reference character.
    assert!(cache.reference_glyph_bounds(FontId(31)).is_none());
    // A glyph that the backend cannot measure.
    assert!(cache.reference_glyph_bounds(FontId(30)).is_none());
}

#[test]
fn recorded_selection_survives_later_operations() {
    let fonts = Arc::new(MockFonts::choosing(FontId(11)));
    let mut cache = FontCache::new(fonts.clone());
    let arial = cache.load_family(&["Arial"]).unwrap();
    assert_eq!(cache.select_font(arial, &bold()), Ok(FontId(11)));
    let menlo = cache.load_family(&["Menlo"]).unwrap();
    cache.select_font(menlo, &bold()).unwrap();
    cache.select_font(arial, &italic()).unwrap();
    cache.metric(FontId(11), |m| m.units_per_em);
    assert_eq!(cache.load_family(&["Symbols"]), Err(FontError::MissingGlyph));
    let asked = fonts.selections();
    for _ in 0..10 {
        assert_eq!(cache.select_font(arial, &bold()), Ok(FontId(11)));
    }
    assert_eq!(fonts.selections(), asked);
    assert_eq!(asked, 3);
}

#[test]
fn answers_are_those_of_the_backend_asked_directly() {
    let fonts = Arc::new(MockFonts::choosing(FontId(12)));
    let mut cache = FontCache::new(fonts.clone());
    let arial = cache.load_family(&["Arial"]).unwrap();
    let direct = fonts.select_font(cache.state().family_fonts(arial), &bold()).unwrap();
    assert_eq!(cache.select_font(arial, &bold()), Ok(direct));
    assert_eq!(cache.select_font(arial, &bold()), Ok(direct));
    let units = fonts.font_metrics(FontId(12)).units_per_em;
    assert_eq!(cache.metric(FontId(12), |m| m.units_per_em), units);
    assert_eq!(cache.metric(FontId(12), |m| m.units_per_em), units);

    // Without a choice of the backend, the family's first font.
    let undecided = Arc::new(MockFonts::new());
    let mut cache = FontCache::new(undecided.clone());
    let menlo = cache.load_family(&["Menlo"]).unwrap();
    assert_eq!(undecided.select_font(cache.state().family_fonts(menlo), &bold()), None);
    assert_eq!(cache.select_font(menlo, &bold()), Ok(cache.state().family_fonts(menlo)[0]));
}

#[test]
fn select_font_asks_for_the_whole_family_and_the_properties() {
    let fonts = Arc::new(MockFonts::choosing(FontId(12)));
    let mut cache = FontCache::new(fonts.clone());
    let arial = cache.load_family(&["Arial"]).unwrap();
    assert_eq!(cache.select_font(arial, &italic()), Ok(FontId(12)));
    assert_eq!(cache.select_font(arial, &italic()), Ok(FontId(12)));
    assert_eq!(
        *fonts.asked_to_select.lock().unwrap(),
        vec![(vec![FontId(10), FontId(11), FontId(12)], italic())]
    );
    assert_eq!(cache.state().selection(arial, &italic()), Some(FontId(12)));
    cache.default_font(arial);
    assert_eq!(
        fonts.asked_to_select.lock().unwrap()[1],
        (vec![FontId(10), FontId(11), FontId(12)], Properties::default())
    );
}

#[test]
fn load_family_asks_for_each_candidate_until_one_settles() {
    let fonts = Arc::new(MockFonts::new());
    let mut cache = FontCache::new(fonts.clone());
    cache.load_family(&["Menlo"]).unwrap();
    cache.load_family(&["Broken", "Ghost", "Symbols", "Arial"]).unwrap_err();
    cache.load_family(&["Nowhere", "Menlo", "Arial"]).unwrap();
    assert_eq!(
        *fonts.asked_to_load.lock().unwrap(),
        vec!["Menlo", "Broken", "Ghost", "Symbols", "Nowhere"]
    );
    // The glyph is asked for font by font, up to the first font without it.
    assert_eq!(
        *fonts.asked_for_glyph.lock().unwrap(),
        vec![(FontId(20), 'm'), (FontId(30), 'm'), (FontId(31), 'm')]
    );
}

#[test]
fn metric_asks_for_the_font_that_was_named() {
    let fonts = Arc::new(MockFonts::new());
    let mut cache = FontCache::new(fonts.clone());
    assert_eq!(cache.metric(FontId(7), |m| m.units_per_em), 1007);
    assert_eq!(cache.metric(FontId(7), |m| m.units_per_em), 1007);
    assert_eq!(cache.metric(FontId(0), |m| m.units_per_em), 1000);
    assert_eq!(*fonts.asked_for_metrics.lock().unwrap(), vec![FontId(7), FontId(0)]);
}

#[test]
fn nothing_is_evicted() {
    let fonts = Arc::new(MockFonts::new());
    let mut cache = FontCache::new(fonts.clone());
    let arial = cache.load_family(&["Arial"]).unwrap();
    cache.select_font(arial, &bold()).unwrap();
    cache.metric(FontId(10), |m| m.units_per_em);
    let menlo = cache.load_family(&["Menlo"]).unwrap();
    cache.select_font(menlo, &italic()).unwrap();
    cache.metric(FontId(20), |m| m.units_per_em);
    assert_eq!(cache.state().find_family("Arial"), Some(arial));
    assert_eq!(cache.state().family_fonts(arial), &vec![FontId(10), FontId(11), FontId(12)]);
    assert_eq!(cache.state().selection(arial, &bold()), Some(FontId(10)));
    assert_eq!(cache.state().selection(menlo, &italic()), Some(FontId(20)));
    assert_eq!(cache.state().metrics(FontId(10)).map(|m| m.units_per_em), Some(1010));
    assert_eq!(cache.state().metrics(FontId(20)).map(|m| m.units_per_em), Some(1020));
}

#[test]
fn cache_works_over_a_backend_object() {
    let fonts: Arc<dyn FontSystem> = Arc::new(MockFonts::new());
    let mut cache: FontCache<dyn FontSystem> = FontCache::new(fonts);
    let arial = cache.load_family(&["Helvetica", "Arial"]).unwrap();
    assert_eq!(cache.default_font(arial), FontId(10));
    assert_eq!(cache.metric(FontId(10), |m| m.ascent), 800.0);
}

#[test]
fn error_messages() {
    assert_eq!(
        FontError::MissingGlyph.message(),
        "font must contain a glyph for the 'm' character"
    );
    assert_eq!(
        FontError::NoMatchingFamily.message(),
        "could not find a non-empty font family matching one of the given names"
    );
}
