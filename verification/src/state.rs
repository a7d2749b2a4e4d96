//! The cache's own data: the family registry and the two indices.
//!
//! Nothing here asks a backend. Where an operation of the cache needs an
//! answer of the backend, the function here takes the answer as an argument
//! and says exactly what it makes of it.

use vstd::prelude::*;
use std::collections::HashMap;
use crate::error::FontError;
use crate::handles::{FamilyId, FontId};
use crate::model::{loaded, CacheView, FamilyView, Offer};
use crate::properties::Properties;
use font_kit::metrics::Metrics;

verus! {

struct Family {
    name: String,
    font_ids: Vec<FontId>,
}

impl View for Family {
    type V = FamilyView;

    closed spec fn view(&self) -> FamilyView {
        FamilyView { name: self.name@, font_ids: self.font_ids@ }
    }
}

/// The family registry, the selection index and the metrics index.
///
/// The selection index is kept per family position, and within a family under
/// the key of the properties; the metrics index under the font's number.
pub struct FontCacheState {
    families: Vec<Family>,
    font_selections: HashMap<usize, HashMap<u128, FontId>>,
    metrics: HashMap<usize, Metrics>,
}

impl View for FontCacheState {
    type V = CacheView;

    closed spec fn view(&self) -> CacheView {
        Self::view_of(self.families@, self.font_selections@, self.metrics@)
    }
}

impl FontCacheState {
    /// Every cache is well formed, at every moment.
    #[verifier::type_invariant]
    pub(crate) open spec fn inv(&self) -> bool {
        self@.wf()
    }

    /// The selection index `selections` holds an entry for the family at
    /// `family` under `key`.
    spec fn selected(
        selections: Map<usize, HashMap<u128, FontId>>,
        family: nat,
        key: nat,
    ) -> bool {
        &&& family <= usize::MAX
        &&& key <= u128::MAX
        &&& selections.contains_key(family as usize)
        &&& selections[family as usize]@.contains_key(key as u128)
    }

    /// The view of a cache that holds these three tables.
    spec fn view_of(
        families: Seq<Family>,
        selections: Map<usize, HashMap<u128, FontId>>,
        metrics: Map<usize, Metrics>,
    ) -> CacheView {
        CacheView {
            families: Seq::new(families.len(), |i: int| families[i]@),
            selections: Map::new(
                |k: (nat, Properties)| Self::selected(selections, k.0, k.1.key()),
                |k: (nat, Properties)| selections[k.0 as usize]@[k.1.key() as u128],
            ),
            metrics: Map::new(
                |font: FontId| metrics.contains_key(font.0),
                |font: FontId| metrics[font.0],
            ),
        }
    }

    /// A cache with no family and two empty indices.
    pub fn new() -> (state: FontCacheState)
        ensures
            state@ == CacheView::empty(),
            state@.wf(),
    {
        let families: Vec<Family> = Vec::new();
        let font_selections: HashMap<usize, HashMap<u128, FontId>> = HashMap::new();
        let metrics: HashMap<usize, Metrics> = HashMap::new();
        proof {
            let view = Self::view_of(families@, font_selections@, metrics@);
            assert(view.families =~= Seq::empty());
            assert(view.selections =~= Map::empty());
            assert(view.metrics =~= Map::empty());
        }
        FontCacheState { families, font_selections, metrics }
    }

    /// The number of registered families.
    pub fn family_count(&self) -> (n: usize)
        ensures
            n == self@.families.len(),
    {
        self.families.len()
    }

    /// Whether `family_id` is the handle of a registered family.
    pub fn has_family(&self, family_id: FamilyId) -> (known: bool)
        ensures
            known == (family_id@ < self@.families.len()),
    {
        family_id.index() < self.families.len()
    }

    /// The position of the family whose name is `name`.
    fn position_of(&self, name: &String) -> (r: Option<usize>)
        ensures
            match r {
                Some(ix) => self@.has_family_named(name@) && ix == self@.family_named(name@),
                None => !self@.has_family_named(name@),
            },
    {
        proof {
            use_type_invariant(self);
        }
        let mut i: usize = 0;
        while i < self.families.len()
            invariant
                self@.wf(),
                i <= self.families.len(),
                forall|j: int| 0 <= j < i ==> (#[trigger] self@.families[j]).name != name@,
            decreases self.families.len() - i,
        {
            if self.families[i].name == *name {
                proof {
                    self@.lemma_family_named(name@, i as int);
                }
                return Some(i);
            }
            i += 1;
        }
        None
    }

    /// The family registered under `name`, if there is one.
    pub fn find_family(&self, name: &str) -> (r: Option<FamilyId>)
        ensures
            match r {
                Some(id) => self@.has_family_named(name@) && id@ == self@.family_named(name@),
                None => !self@.has_family_named(name@),
            },
    {
        let owned = name.to_owned();
        match self.position_of(&owned) {
            Some(ix) => Some(FamilyId::from_index(ix)),
            None => None,
        }
    }

    /// Registers `font_ids` as the family `name` and returns its handle, the
    /// next position of the registry.
    fn register_family(&mut self, name: String, font_ids: Vec<FontId>) -> (id: FamilyId)
        requires
            !old(self)@.has_family_named(name@),
            font_ids@.len() > 0,
        ensures
            final(self)@ == old(self)@.register(name@, font_ids@),
            final(self)@.wf(),
            id@ == old(self)@.families.len(),
    {
        proof {
            use_type_invariant(&*self);
        }
        let id = FamilyId::from_index(self.families.len());
        let ghost next = old(self)@.register(name@, font_ids@);
        // While the registry is out, the selection index is out too: the
        // index may speak of registered families only.
        let mut font_selections: HashMap<usize, HashMap<u128, FontId>> = HashMap::new();
        std::mem::swap(&mut font_selections, &mut self.font_selections);
        let mut families: Vec<Family> = Vec::new();
        std::mem::swap(&mut families, &mut self.families);
        families.push(Family { name, font_ids });
        proof {
            old(self)@.lemma_register_wf(name@, font_ids@);
            let with = Self::view_of(families@, font_selections@, self.metrics@);
            assert(with.families =~= next.families);
        }
        self.families = families;
        self.font_selections = font_selections;
        id
    }

    /// Settles one candidate of a load, the backend having `font_ids` for
    /// `name`; `all_have_reference_glyph` says whether it has a glyph for the
    /// reference character in each of them.
    ///
    /// A registered name gives its family, whatever the backend has. For
    /// another name the fonts are registered as the next family, unless there
    /// are none (`NoMatchingFamily`: the candidate settles nothing) or one
    /// lacks the glyph (`MissingGlyph`); neither changes the cache.
    pub fn settle(&mut self, name: &str, font_ids: Vec<FontId>, all_have_reference_glyph: bool) -> (r:
        Result<FamilyId, FontError>)
        ensures
            (final(self)@, loaded(r)) == old(self)@.settle(
                name@,
                (Offer::Fonts { font_ids: font_ids@, all_have_reference_glyph }),
            ),
            final(self)@.wf(),
    {
        proof {
            use_type_invariant(&*self);
        }
        let owned = name.to_owned();
        if let Some(ix) = self.position_of(&owned) {
            return Ok(FamilyId::from_index(ix));
        }
        if font_ids.len() == 0 {
            return Err(FontError::NoMatchingFamily);
        }
        if !all_have_reference_glyph {
            return Err(FontError::MissingGlyph);
        }
        Ok(self.register_family(owned, font_ids))
    }

    /// The fonts of a registered family, in the backend's order.
    pub fn family_fonts(&self, family_id: FamilyId) -> (font_ids: &Vec<FontId>)
        requires
            family_id@ < self@.families.len(),
        ensures
            font_ids@ == self@.families[family_id@ as int].font_ids,
    {
        &self.families[family_id.index()].font_ids
    }

    /// The selection on record for `properties` in the family `family_id`.
    pub fn selection(&self, family_id: FamilyId, properties: &Properties) -> (r: Option<FontId>)
        ensures
            r == if self@.selections.contains_key((family_id@, *properties)) {
                Some(self@.selections[(family_id@, *properties)])
            } else {
                None
            },
    {
        let key = properties.selection_key();
        match self.font_selections.get(&family_id.index()) {
            Some(of_family) => match of_family.get(&key) {
                Some(font) => Some(*font),
                None => None,
            },
            None => None,
        }
    }

    /// Settles a selection, `choice` being the backend's answer for the
    /// family's fonts and `properties`. A selection already on record stands.
    pub fn record_selection(
        &mut self,
        family_id: FamilyId,
        properties: Properties,
        choice: Option<FontId>,
    ) -> (font: FontId)
        requires
            family_id@ < old(self)@.families.len(),
        ensures
            (final(self)@, font) == old(self)@.select_font(family_id@, properties, choice),
            final(self)@.wf(),
    {
        proof {
            use_type_invariant(&*self);
        }
        if let Some(font) = self.selection(family_id, &properties) {
            return font;
        }
        let ix = family_id.index();
        let font_ids = &self.families[ix].font_ids;
        assert(font_ids@ == self@.families[family_id@ as int].font_ids);
        let font = match choice {
            Some(font) => font,
            None => font_ids[0],
        };
        let key = properties.selection_key();
        let mut font_selections: HashMap<usize, HashMap<u128, FontId>> = HashMap::new();
        std::mem::swap(&mut font_selections, &mut self.font_selections);
        let mut of_family = match font_selections.remove(&ix) {
            Some(of_family) => of_family,
            None => HashMap::new(),
        };
        of_family.insert(key, font);
        font_selections.insert(ix, of_family);
        proof {
            let next = old(self)@.with_selection(family_id@, properties, font);
            let with = Self::view_of(self.families@, font_selections@, self.metrics@);
            assert forall|k: (nat, Properties)| #[trigger]
                with.selections.contains_key(k) == next.selections.contains_key(k) by {
                if k.1.key() == properties.key() {
                    Properties::lemma_key_injective(k.1, properties);
                }
            }
            assert(with.selections =~= next.selections);
        }
        self.font_selections = font_selections;
        font
    }

    /// The metrics record in the index for `font_id`.
    pub fn metrics(&self, font_id: FontId) -> (r: Option<&Metrics>)
        ensures
            match r {
                Some(metrics) => self@.metrics.contains_key(font_id) && *metrics
                    == self@.metrics[font_id],
                None => !self@.metrics.contains_key(font_id),
            },
    {
        self.metrics.get(&font_id.0)
    }

    /// Puts the backend's record `fetched` in the index for `font_id`. A
    /// record already in the index stands.
    pub fn record_metrics(&mut self, font_id: FontId, fetched: Metrics)
        ensures
            final(self)@ == old(self)@.metric(font_id, fetched).0,
            final(self)@.wf(),
    {
        proof {
            use_type_invariant(&*self);
        }
        if self.metrics.contains_key(&font_id.0) {
            return ;
        }
        let mut metrics: HashMap<usize, Metrics> = HashMap::new();
        proof {
            let without = Self::view_of(self.families@, self.font_selections@, metrics@);
            assert(without.families == self@.families);
            assert(without.selections == self@.selections);
        }
        std::mem::swap(&mut metrics, &mut self.metrics);
        metrics.insert(font_id.0, fetched);
        proof {
            let next = old(self)@.with_metrics(font_id, fetched);
            let with = Self::view_of(self.families@, self.font_selections@, metrics@);
            assert(with.metrics =~= next.metrics);
        }
        self.metrics = metrics;
    }
}

} // verus!
