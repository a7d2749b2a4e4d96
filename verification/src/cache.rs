//! The cache over a backend: family loading, font selection and the metrics
//! accessor.

use vstd::prelude::*;
use std::sync::Arc;
use crate::error::FontError;
use crate::handles::{FamilyId, FontId, GlyphId};
use crate::model::{loaded, CacheView, Offer};
use crate::platform::{
    bounds_answer, choice_answer, glyph_answer, load_answer, metrics_answer, FontSystem,
};
use crate::properties::Properties;
use crate::state::FontCacheState;
use font_kit::metrics::Metrics;
use pathfinder_geometry::rect::RectF;

verus! {

/// The character whose glyph every font of a loaded family must have. Widths
/// in ems are measured on it.
pub const REFERENCE_CHAR: char = 'm';

/// The candidate names as the cache reads them: each as its characters.
pub open spec fn candidate_names(names: Seq<&str>) -> Seq<Seq<char>> {
    names.map_values(|name: &str| name@)
}

/// The backend may answer that `font_id` has a glyph for the reference
/// character.
pub open spec fn has_reference_glyph<B: FontSystem + ?Sized>(backend: &B, font_id: FontId) -> bool {
    exists|glyph_id: GlyphId| glyph_answer(backend, font_id, REFERENCE_CHAR, Some(glyph_id))
}

/// The backend may answer that the font at `i` of `font_ids` has no glyph for
/// the reference character, and that each font before it has one.
pub open spec fn first_without_reference_glyph<B: FontSystem + ?Sized>(
    backend: &B,
    font_ids: Seq<FontId>,
    i: int,
) -> bool {
    &&& 0 <= i < font_ids.len()
    &&& glyph_answer(backend, font_ids[i], REFERENCE_CHAR, None)
    &&& forall|j: int| 0 <= j < i ==> has_reference_glyph(backend, #[trigger] font_ids[j])
}

/// `offer` is what the answers of `backend` make of the candidate `name`.
///
/// The backend may give an answer to the load of `name` that failed, and the
/// offer is `Nothing`; or one that gave fonts, and the offer holds those
/// fonts in that order. Where there are fonts, the flag of the offer is what
/// the backend answered of the reference glyph: set where it named a glyph
/// in every font, unset where it named none in some font, having named one in
/// each font before that.
pub open spec fn offer_made<B: FontSystem + ?Sized>(backend: &B, name: &str, offer: Offer) -> bool {
    exists|answer: Result<Vec<FontId>, anyhow::Error>| #[trigger]
        load_answer(backend, name, answer) && match answer {
            Err(_) => offer == Offer::Nothing,
            Ok(loaded_ids) => {
                &&& offer matches Offer::Fonts { font_ids, all_have_reference_glyph }
                &&& font_ids == loaded_ids@
                &&& font_ids.len() > 0 && all_have_reference_glyph ==> forall|k: int|
                    0 <= k < font_ids.len() ==> has_reference_glyph(backend, #[trigger] font_ids[k])
                &&& font_ids.len() > 0 && !all_have_reference_glyph ==> exists|k: int|
                    first_without_reference_glyph(backend, font_ids, k)
            },
        }
}

/// Each of `offers` for a candidate that the backend is asked for is what the
/// backend's answers make of that candidate's name.
pub open spec fn offers_made<B: FontSystem + ?Sized>(
    backend: &B,
    cache: CacheView,
    names: Seq<&str>,
    offers: Seq<Offer>,
) -> bool {
    forall|i: int|
        cache.asks(candidate_names(names), offers, i) ==> offer_made(
            backend,
            names[i],
            #[trigger] offers[i],
        )
}

/// `choice` is an answer that `backend` may give when it is asked to select
/// among exactly the fonts `font_ids`, in that order, for `properties`.
pub open spec fn chosen<B: FontSystem + ?Sized>(
    backend: &B,
    font_ids: Seq<FontId>,
    properties: Properties,
    choice: Option<FontId>,
) -> bool {
    exists|asked: &[FontId]|
        asked@ == font_ids && #[trigger] choice_answer(backend, asked, &properties, choice)
}

/// What two answers of a backend make the bounds of the reference glyph of
/// `font_id`: none where the backend answers that the font has no such glyph,
/// or names a glyph and fails to measure it; otherwise the bounds that it
/// measures for the glyph that it named.
pub open spec fn reference_bounds<B: FontSystem + ?Sized>(
    backend: &B,
    font_id: FontId,
    bounds: Option<RectF>,
) -> bool {
    ||| glyph_answer(backend, font_id, REFERENCE_CHAR, None) && bounds is None
    ||| exists|glyph_id: GlyphId, measured: Result<RectF, anyhow::Error>|
        glyph_answer(backend, font_id, REFERENCE_CHAR, Some(glyph_id)) && #[trigger] bounds_answer(
            backend,
            font_id,
            glyph_id,
            measured,
        ) && bounds == match measured {
            Ok(rect) => Some(rect),
            Err(_) => None::<RectF>,
        }
}

/// A font cache over the backend `B`.
///
/// It owns its registry and indices and shares the backend. Its view is that
/// of its state and is well formed at all times; `backend()` is the backend,
/// which no operation replaces.
pub struct FontCache<B: FontSystem + ?Sized> {
    state: FontCacheState,
    fonts: Arc<B>,
}

impl<B: FontSystem + ?Sized> View for FontCache<B> {
    type V = CacheView;

    closed spec fn view(&self) -> CacheView {
        self.state@
    }
}

impl<B: FontSystem + ?Sized> FontCache<B> {
    /// The backend that this cache asks.
    pub closed spec fn backend(&self) -> Arc<B> {
        self.fonts
    }

    /// An empty cache over `fonts`.
    pub fn new(fonts: Arc<B>) -> (cache: Self)
        ensures
            cache@ == CacheView::empty(),
            cache@.wf(),
            cache.backend() == fonts,
    {
        FontCache { state: FontCacheState::new(), fonts }
    }

    /// The registry and the indices, for lookups that need no backend.
    pub fn state(&self) -> (state: &FontCacheState)
        ensures
            state@ == self@,
            state@.wf(),
    {
        proof {
            use_type_invariant(&self.state);
        }
        &self.state
    }

    /// Whether the backend has a glyph for the reference character in each of
    /// `font_ids`. It asks font by font and stops at the first without one.
    ///
    /// `true` where the backend answered with a glyph for every font; `false`
    /// where it answered with none for one of them, having answered with a
    /// glyph for each font before that one.
    fn have_reference_glyph(&self, font_ids: &Vec<FontId>) -> (complete: bool)
        ensures
            complete ==> forall|i: int|
                0 <= i < font_ids@.len() ==> has_reference_glyph(
                    &*self.backend(),
                    #[trigger] font_ids@[i],
                ),
            !complete ==> exists|i: int|
                first_without_reference_glyph(&*self.backend(), font_ids@, i),
    {
        let mut i: usize = 0;
        while i < font_ids.len()
            invariant
                i <= font_ids.len(),
                forall|j: int|
                    0 <= j < i ==> has_reference_glyph(&*self.backend(), #[trigger] font_ids@[j]),
            decreases font_ids.len() - i,
        {
            match self.fonts.glyph_for_char(font_ids[i], REFERENCE_CHAR) {
                Some(glyph_id) => {
                    assert(glyph_answer(
                        &*self.backend(),
                        font_ids@[i as int],
                        REFERENCE_CHAR,
                        Some(glyph_id),
                    ));
                },
                None => {
                    assert(first_without_reference_glyph(&*self.backend(), font_ids@, i as int));
                    return false;
                },
            }
            i += 1;
        }
        true
    }

    /// Loads the first available family among `names`.
    ///
    /// The candidates are tried in order. A name that is registered gives its
    /// family at once. For another name the backend is asked: if it fails or
    /// has no font, the next candidate is tried; if one of its fonts lacks the
    /// reference glyph, the load fails with `MissingGlyph`; otherwise the
    /// fonts are registered under the name as the next family. With no
    /// candidate left the load fails with `NoMatchingFamily`.
    ///
    /// The first clause says all of this: the outcome is
    /// `CacheView::load_family` of offers, one for each name, and the offer
    /// for each candidate that the backend is asked for is what the backend's
    /// answers make of that name. The other clauses spell out what holds of
    /// every offer.
    pub fn load_family(&mut self, names: &[&str]) -> (r: Result<FamilyId, FontError>)
        ensures
            exists|offers: Seq<Offer>|
                offers.len() == names@.len() && (final(self)@, loaded(r)) == (
                #[trigger] old(self)@.load_family(candidate_names(names@), offers)) && offers_made(
                    &*old(self).backend(),
                    old(self)@,
                    names@,
                    offers,
                ),
            final(self).backend() == old(self).backend(),
            final(self)@.wf(),
            final(self)@.extends(old(self)@),
            r is Err ==> final(self)@ == old(self)@,
            r == Err::<FamilyId, FontError>(FontError::NoMatchingFamily) ==> forall|i: int|
                0 <= i < names@.len() ==> !old(self)@.has_family_named(
                    #[trigger] candidate_names(names@)[i],
                ),
            names@.len() > 0 && old(self)@.has_family_named(names@[0]@) ==> loaded(r) == Ok::<
                nat,
                FontError,
            >(old(self)@.family_named(names@[0]@)),
            r matches Ok(id) ==> id@ < final(self)@.families.len() && candidate_names(
                names@,
            ).contains(final(self)@.families[id@ as int].name),
    {
        proof {
            use_type_invariant(&self.state);
        }
        let ghost names_view = candidate_names(names@);
        let ghost mut offers: Seq<Offer> = Seq::empty();
        let mut i: usize = 0;
        while i < names.len()
            invariant
                i <= names.len(),
                self@ == old(self)@,
                self.backend() == old(self).backend(),
                self@.wf(),
                names_view == candidate_names(names@),
                offers.len() == i,
                forall|j: int| 0 <= j < i ==> !self@.decides(#[trigger] names_view[j], offers[j]),
                forall|j: int|
                    0 <= j < i ==> offer_made(&*self.backend(), names@[j], #[trigger] offers[j]),
            decreases names.len() - i,
        {
            let name: &str = names[i];
            if let Some(id) = self.state.find_family(name) {
                proof {
                    // The offers made so far; the backend was not asked for
                    // this candidate nor for those behind it.
                    let all = offers + Seq::new((names.len() - i) as nat, |j: int| Offer::Nothing);
                    self@.lemma_first_decided(names_view, all, i as int);
                    self@.lemma_load_family(names_view, all);
                    assert forall|j: int| self@.asks(names_view, all, j) implies offer_made(
                        &*self.backend(),
                        names@[j],
                        #[trigger] all[j],
                    ) by {
                        if j > i {
                            assert(self@.decides(names_view[i as int], all[i as int]));
                        } else if j < i {
                            assert(all[j] == offers[j]);
                        }
                    }
                }
                return Ok(id);
            }
            let answer = self.fonts.load_family(name);
            assert(load_answer(&*self.backend(), name, answer));
            let ghost offer;
            match answer {
                Ok(font_ids) => {
                    if font_ids.len() > 0 {
                        let complete = self.have_reference_glyph(&font_ids);
                        proof {
                            // The offers made so far and this one; the
                            // backend is not asked for the candidates behind.
                            let offer = Offer::Fonts {
                                font_ids: font_ids@,
                                all_have_reference_glyph: complete,
                            };
                            assert(offer_made(&*self.backend(), name, offer));
                            let all = offers.push(offer) + Seq::new(
                                (names.len() - i - 1) as nat,
                                |j: int| Offer::Nothing,
                            );
                            self@.lemma_first_decided(names_view, all, i as int);
                            self@.lemma_load_family(names_view, all);
                            assert forall|j: int| self@.asks(names_view, all, j) implies offer_made(
                                &*self.backend(),
                                names@[j],
                                #[trigger] all[j],
                            ) by {
                                if j > i {
                                    assert(self@.decides(names_view[i as int], all[i as int]));
                                } else if j < i {
                                    assert(all[j] == offers[j]);
                                }
                            }
                        }
                        return self.state.settle(name, font_ids, complete);
                    }
                    proof {
                        offer = Offer::Fonts { font_ids: font_ids@, all_have_reference_glyph: true };
                    }
                },
                Err(_) => {
                    proof {
                        offer = Offer::Nothing;
                    }
                },
            }
            proof {
                assert(offer_made(&*self.backend(), name, offer));
                offers = offers.push(offer);
            }
            i += 1;
        }
        proof {
            assert(self@.load_family(names_view, offers) == (
                self@,
                Err::<nat, FontError>(FontError::NoMatchingFamily),
            ));
            self@.lemma_load_family(names_view, offers);
        }
        Err(FontError::NoMatchingFamily)
    }

    /// Selects the font of a family for `properties`.
    ///
    /// A selection on record is returned without asking the backend.
    /// Otherwise the backend chooses among the family's fonts; where it makes
    /// no choice, the family's first font is taken. The selection is put on
    /// record before it is returned. It never fails for a registered family.
    ///
    /// The outcome is `CacheView::select_font` of a choice; where no
    /// selection was on record, the choice is an answer of the backend, asked
    /// to select among the family's fonts, in the registry's order, for
    /// `properties`.
    pub fn select_font(&mut self, family_id: FamilyId, properties: &Properties) -> (r: Result<
        FontId,
        FontError,
    >)
        requires
            family_id@ < old(self)@.families.len(),
        ensures
            r is Ok,
            exists|choice: Option<FontId>|
                (final(self)@, r->Ok_0) == #[trigger] old(self)@.select_font(
                    family_id@,
                    *properties,
                    choice,
                ) && (old(self)@.selections.contains_key((family_id@, *properties)) || chosen(
                    &*old(self).backend(),
                    old(self)@.families[family_id@ as int].font_ids,
                    *properties,
                    choice,
                )),
            final(self).backend() == old(self).backend(),
            final(self)@.wf(),
            final(self)@ == old(self)@.with_selection(family_id@, *properties, r->Ok_0),
            old(self)@.selections.contains_key((family_id@, *properties)) ==> r->Ok_0 == old(
                self,
            )@.selections[(family_id@, *properties)] && final(self)@ == old(self)@,
    {
        proof {
            use_type_invariant(&self.state);
        }
        if let Some(font) = self.state.selection(family_id, properties) {
            proof {
                let same = self@.with_selection(family_id@, *properties, font);
                assert(same.selections =~= self@.selections);
                assert((self@, font) == self@.select_font(family_id@, *properties, None));
            }
            return Ok(font);
        }
        let asked = self.state.family_fonts(family_id).as_slice();
        let choice = self.fonts.select_font(asked, properties);
        assert(choice_answer(&*self.backend(), asked, properties, choice));
        assert(chosen(
            &*self.backend(),
            self@.families[family_id@ as int].font_ids,
            *properties,
            choice,
        ));
        let font = self.state.record_selection(family_id, *properties, choice);
        Ok(font)
    }

    /// Selects the font of a family for unstyled text: `select_font` with the
    /// default properties, which are `Properties::normal()`.
    ///
    /// The outcome is `CacheView::default_font` of a choice; where no
    /// selection was on record, the choice is an answer of the backend, asked
    /// to select among the family's fonts, in the registry's order, for the
    /// default properties.
    pub fn default_font(&mut self, family_id: FamilyId) -> (font: FontId)
        requires
            family_id@ < old(self)@.families.len(),
        ensures
            exists|choice: Option<FontId>|
                (final(self)@, font) == #[trigger] old(self)@.default_font(family_id@, choice) && (
                old(self)@.selections.contains_key((family_id@, Properties::normal())) || chosen(
                    &*old(self).backend(),
                    old(self)@.families[family_id@ as int].font_ids,
                    Properties::normal(),
                    choice,
                )),
            final(self).backend() == old(self).backend(),
            final(self)@.wf(),
            final(self)@ == old(self)@.with_selection(family_id@, Properties::normal(), font),
            old(self)@.selections.contains_key((family_id@, Properties::normal())) ==> font == old(
                self,
            )@.selections[(family_id@, Properties::normal())] && final(self)@ == old(self)@,
    {
        let properties = Properties::default();
        let font = self.select_font(family_id, &properties).unwrap();
        proof {
            let choice = choose|choice: Option<FontId>|
                {
                    &&& (self@, font) == #[trigger] old(self)@.select_font(
                        family_id@,
                        properties,
                        choice,
                    )
                    &&& old(self)@.selections.contains_key((family_id@, properties)) || chosen(
                        &*old(self).backend(),
                        old(self)@.families[family_id@ as int].font_ids,
                        properties,
                        choice,
                    )
                };
            assert((self@, font) == old(self)@.default_font(family_id@, choice));
        }
        font
    }

    /// Applies `f` to the metrics record of a font.
    ///
    /// A record in the index is used without asking the backend. Otherwise
    /// the backend's record is fetched, handed to `f` and put in the index.
    ///
    /// The state is `CacheView::metric` of a record, and the result is what
    /// `f` makes of the record that the index then holds; where the index had
    /// none, that record is an answer of the backend, asked for the metrics of
    /// `font_id`.
    pub fn metric<F, T>(&mut self, font_id: FontId, f: F) -> (r: T) where
        F: FnOnce(&Metrics) -> T,
        T: 'static,

        requires
            forall|metrics: Metrics| call_requires(f, (&metrics,)),
        ensures
            exists|fetched: Metrics|
                final(self)@ == (#[trigger] old(self)@.metric(font_id, fetched)).0 && call_ensures(
                    f,
                    (&old(self)@.metric(font_id, fetched).1,),
                    r,
                ),
            old(self)@.metrics.contains_key(font_id) || metrics_answer(
                &*old(self).backend(),
                font_id,
                final(self)@.metrics[font_id],
            ),
            final(self).backend() == old(self).backend(),
            final(self)@.wf(),
            final(self)@.metrics.contains_key(font_id),
            call_ensures(f, (&final(self)@.metrics[font_id],), r),
            final(self)@ == old(self)@.with_metrics(font_id, final(self)@.metrics[font_id]),
            old(self)@.metrics.contains_key(font_id) ==> final(self)@ == old(self)@,
    {
        proof {
            use_type_invariant(&self.state);
        }
        match self.state.metrics(font_id) {
            Some(metrics) => {
                let r = f(metrics);
                proof {
                    let same = self@.with_metrics(font_id, *metrics);
                    assert(same.metrics =~= self@.metrics);
                    assert((self@, *metrics) == self@.metric(font_id, *metrics));
                }
                r
            },
            None => {
                let fetched = self.fonts.font_metrics(font_id);
                assert(metrics_answer(&*self.backend(), font_id, fetched));
                let r = f(&fetched);
                assert((old(self)@.with_metrics(font_id, fetched), fetched) == old(self)@.metric(
                    font_id,
                    fetched,
                ));
                self.state.record_metrics(font_id, fetched);
                r
            },
        }
    }

    /// The typographic bounds of the reference glyph of a font, as the
    /// backend measures them now, or `None` where the backend has no such
    /// glyph or cannot measure it.
    ///
    /// Bounds belong to a glyph, not to the metrics record of the font, so
    /// neither index holds them: the backend is asked on every call, first for
    /// the glyph of the reference character in `font_id`, then for the bounds
    /// of that glyph, and the cache stays as it is.
    pub fn reference_glyph_bounds(&self, font_id: FontId) -> (bounds: Option<RectF>)
        ensures
            reference_bounds(&*self.backend(), font_id, bounds),
    {
        match self.fonts.glyph_for_char(font_id, REFERENCE_CHAR) {
            Some(glyph_id) => {
                let measured = self.fonts.typographic_bounds(font_id, glyph_id);
                assert(bounds_answer(&*self.backend(), font_id, glyph_id, measured));
                match measured {
                    Ok(rect) => Some(rect),
                    Err(_) => None,
                }
            },
            None => None,
        }
    }
}

} // verus!
