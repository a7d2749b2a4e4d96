//! The mathematical view of the cache, and what each operation makes of it.
//!
//! A backend answers from the fonts of the machine, so its answers are no
//! function of the cache. Each operation is therefore described as a function
//! of the view *and of the answers the backend gave*. The description says
//! what follows from every possible answer; the operation itself promises
//! that the description holds of answers that the backend may give to the
//! questions that the operation asks.

use vstd::prelude::*;
use crate::error::FontError;
use crate::handles::{FamilyId, FontId};
use crate::properties::Properties;
use font_kit::metrics::Metrics;

verus! {

/// A registered family: its name and its fonts, in the backend's order.
pub struct FamilyView {
    pub name: Seq<char>,
    pub font_ids: Seq<FontId>,
}

/// What a backend said of one candidate name.
pub enum Offer {
    /// The load failed.
    Nothing,
    /// The load gave these fonts; the flag says whether every one of them has
    /// a glyph for the reference character.
    Fonts { font_ids: Seq<FontId>, all_have_reference_glyph: bool },
}

impl Offer {
    /// The backend has at least one font for the name.
    pub open spec fn usable(self) -> bool {
        self matches Offer::Fonts { font_ids, .. } && font_ids.len() > 0
    }
}

/// The result of a load with the handle as its position.
pub open spec fn loaded(r: Result<FamilyId, FontError>) -> Result<nat, FontError> {
    match r {
        Ok(id) => Ok(id@),
        Err(e) => Err(e),
    }
}

/// The answers of a backend that answers as a function of what it is asked:
/// the same fonts and properties always get the same choice, and the same
/// font always has the same metrics.
pub struct SteadyAnswers {
    pub choice: spec_fn(Seq<FontId>, Properties) -> Option<FontId>,
    pub metrics: spec_fn(FontId) -> Metrics,
}

/// The cache as a value: the family registry, the selection index and the
/// metrics index. A family's handle is its position in `families`.
pub struct CacheView {
    pub families: Seq<FamilyView>,
    pub selections: Map<(nat, Properties), FontId>,
    pub metrics: Map<FontId, Metrics>,
}

impl CacheView {
    /// The cache before anything was loaded.
    pub open spec fn empty() -> CacheView {
        CacheView { families: Seq::empty(), selections: Map::empty(), metrics: Map::empty() }
    }

    /// No family is empty, no name is registered twice, and the selection
    /// index speaks of registered families only.
    pub open spec fn wf(self) -> bool {
        &&& forall|i: int|
            0 <= i < self.families.len() ==> (#[trigger] self.families[i]).font_ids.len() > 0
        &&& forall|i: int, j: int|
            0 <= i < j < self.families.len() ==> (#[trigger] self.families[i]).name != (
            #[trigger] self.families[j]).name
        &&& forall|k: (nat, Properties)| #[trigger]
            self.selections.contains_key(k) ==> k.0 < self.families.len()
    }

    /// A family of that name is registered.
    pub open spec fn has_family_named(self, name: Seq<char>) -> bool {
        exists|i: int| 0 <= i < self.families.len() && (#[trigger] self.families[i]).name == name
    }

    /// The position of the family of that name, where one is registered.
    pub open spec fn family_named(self, name: Seq<char>) -> nat {
        (choose|i: int| 0 <= i < self.families.len() && (#[trigger] self.families[i]).name == name)
            as nat
    }

    /// The cache with one more family, at the end of the registry.
    pub open spec fn register(self, name: Seq<char>, font_ids: Seq<FontId>) -> CacheView {
        CacheView { families: self.families.push(FamilyView { name, font_ids }), ..self }
    }

    /// The cache with `font` on record for `properties` in `family`.
    pub open spec fn with_selection(self, family: nat, properties: Properties, font: FontId)
        -> CacheView {
        CacheView { selections: self.selections.insert((family, properties), font), ..self }
    }

    /// The cache with `metrics` on record for `font`.
    pub open spec fn with_metrics(self, font: FontId, metrics: Metrics) -> CacheView {
        CacheView { metrics: self.metrics.insert(font, metrics), ..self }
    }

    /// This cache holds all that `earlier` held, where `earlier` held it: the
    /// registry begins with the earlier registry, and each index agrees with
    /// the earlier index wherever that had an entry.
    pub open spec fn extends(self, earlier: CacheView) -> bool {
        &&& earlier.families.is_prefix_of(self.families)
        &&& earlier.selections.submap_of(self.selections)
        &&& earlier.metrics.submap_of(self.metrics)
    }

    /// The font that a selection gives when the backend is asked and no index
    /// is used: the backend's choice among the family's fonts, or the family's
    /// first font where it makes none.
    pub open spec fn selected_directly(
        self,
        answers: SteadyAnswers,
        family: nat,
        properties: Properties,
    ) -> FontId {
        let font_ids = self.families[family as int].font_ids;
        match (answers.choice)(font_ids, properties) {
            Some(font) => font,
            None => font_ids[0],
        }
    }

    /// Every entry of the two indices is what the backend would answer now:
    /// to drop an entry and compute it again would change nothing.
    pub open spec fn transparent(self, answers: SteadyAnswers) -> bool {
        &&& forall|k: (nat, Properties)| #[trigger]
            self.selections.contains_key(k) ==> self.selections[k] == self.selected_directly(
                answers,
                k.0,
                k.1,
            )
        &&& forall|font: FontId| #[trigger]
            self.metrics.contains_key(font) ==> self.metrics[font] == (answers.metrics)(font)
    }

    /// A candidate settles a load when its name is registered or the backend
    /// has fonts for it.
    pub open spec fn decides(self, name: Seq<char>, offer: Offer) -> bool {
        self.has_family_named(name) || offer.usable()
    }

    /// Candidate `i` settles the load and no earlier one does.
    pub open spec fn first_decided(self, names: Seq<Seq<char>>, offers: Seq<Offer>, i: int)
        -> bool {
        &&& 0 <= i < names.len()
        &&& self.decides(names[i], offers[i])
        &&& forall|j: int| 0 <= j < i ==> !self.decides(#[trigger] names[j], offers[j])
    }

    /// The backend is asked for candidate `i`: its name is not registered, and
    /// no candidate before it settles the load.
    pub open spec fn asks(self, names: Seq<Seq<char>>, offers: Seq<Offer>, i: int) -> bool {
        &&& 0 <= i < names.len()
        &&& !self.has_family_named(names[i])
        &&& forall|j: int| 0 <= j < i ==> !self.decides(#[trigger] names[j], offers[j])
    }

    /// What one candidate makes of the cache. A registered name gives its
    /// family and changes nothing. For another name the backend's fonts are
    /// registered as the next family, unless one of them lacks the reference
    /// glyph, which fails the load and changes nothing. A name that is not
    /// registered and for which the backend has no font settles nothing.
    pub open spec fn settle(self, name: Seq<char>, offer: Offer) -> (CacheView, Result<nat, FontError>)
    {
        if self.has_family_named(name) {
            (self, Ok(self.family_named(name)))
        } else {
            match offer {
                Offer::Fonts { font_ids, all_have_reference_glyph } if font_ids.len() > 0 => {
                    if all_have_reference_glyph {
                        (self.register(name, font_ids), Ok(self.families.len()))
                    } else {
                        (self, Err(FontError::MissingGlyph))
                    }
                },
                _ => (self, Err(FontError::NoMatchingFamily)),
            }
        }
    }

    /// Loading a family from candidate names, the backend having made
    /// `offers[i]` for `names[i]`: the first candidate that settles the load
    /// does so; where none does, the load fails and changes nothing.
    pub open spec fn load_family(self, names: Seq<Seq<char>>, offers: Seq<Offer>) -> (
        CacheView,
        Result<nat, FontError>,
    )
        recommends
            offers.len() == names.len(),
    {
        if exists|i: int| self.first_decided(names, offers, i) {
            let i = choose|i: int| self.first_decided(names, offers, i);
            self.settle(names[i], offers[i])
        } else {
            (self, Err(FontError::NoMatchingFamily))
        }
    }

    /// Selecting a font, the backend having answered `choice` if it was asked:
    /// a selection on record is returned and nothing changes; otherwise the
    /// backend's choice, or the family's first font where it made none, is put
    /// on record and returned.
    pub open spec fn select_font(self, family: nat, properties: Properties, choice: Option<FontId>)
        -> (CacheView, FontId) {
        if self.selections.contains_key((family, properties)) {
            (self, self.selections[(family, properties)])
        } else {
            let font = match choice {
                Some(font) => font,
                None => self.families[family as int].font_ids[0],
            };
            (self.with_selection(family, properties, font), font)
        }
    }

    /// Selecting the default font of a family: the selection for the properties
    /// of unstyled text.
    pub open spec fn default_font(self, family: nat, choice: Option<FontId>) -> (CacheView, FontId) {
        self.select_font(family, Properties::normal(), choice)
    }

    /// Looking up the metrics of a font, the backend having answered
    /// `fetched` if it was asked: a record in the index is returned and nothing
    /// changes; otherwise the backend's record is put in the index and
    /// returned.
    pub open spec fn metric(self, font: FontId, fetched: Metrics) -> (CacheView, Metrics) {
        if self.metrics.contains_key(font) {
            (self, self.metrics[font])
        } else {
            (self.with_metrics(font, fetched), fetched)
        }
    }

    /// A registered name belongs to exactly one position.
    pub proof fn lemma_family_named(self, name: Seq<char>, i: int)
        requires
            self.wf(),
            0 <= i < self.families.len(),
            self.families[i].name == name,
        ensures
            self.has_family_named(name),
            self.family_named(name) == i,
    {
    }

    /// At most one candidate is the first that settles a load.
    pub proof fn lemma_first_decided(self, names: Seq<Seq<char>>, offers: Seq<Offer>, i: int)
        requires
            self.first_decided(names, offers, i),
        ensures
            self.load_family(names, offers) == self.settle(names[i], offers[i]),
    {
    }

    /// What every load comes to, whatever the backend offers.
    ///
    /// The cache stays well formed and loses nothing. A load that fails
    /// changes nothing, and fails for want of a family only where no
    /// candidate is registered. A load whose first candidate is registered
    /// returns that family. A family that a load returns is registered
    /// afterwards and bears the name of a candidate.
    pub proof fn lemma_load_family(self, names: Seq<Seq<char>>, offers: Seq<Offer>)
        requires
            self.wf(),
        ensures
            ({
                let (next, r) = self.load_family(names, offers);
                &&& next.wf()
                &&& next.extends(self)
                &&& r is Err ==> next == self
                &&& r == Err::<nat, FontError>(FontError::NoMatchingFamily) ==> forall|i: int|
                    0 <= i < names.len() ==> !self.has_family_named(#[trigger] names[i])
                &&& names.len() > 0 && self.has_family_named(names[0]) ==> r == Ok::<
                    nat,
                    FontError,
                >(self.family_named(names[0]))
                &&& r matches Ok(family) ==> family < next.families.len() && names.contains(
                    next.families[family as int].name,
                )
            }),
    {
        if exists|i: int| self.first_decided(names, offers, i) {
            let i = choose|i: int| self.first_decided(names, offers, i);
            let name = names[i];
            if self.has_family_named(name) {
                let j = choose|j: int|
                    0 <= j < self.families.len() && (#[trigger] self.families[j]).name == name;
                self.lemma_family_named(name, j);
            } else if offers[i].usable() && offers[i]->all_have_reference_glyph {
                self.lemma_register_wf(name, offers[i]->font_ids);
            }
        } else {
            assert forall|i: int| 0 <= i < names.len() implies !self.has_family_named(
                #[trigger] names[i],
            ) by {
                if self.has_family_named(names[i]) {
                    self.lemma_some_candidate_decides(names, offers, i);
                }
            }
        }
    }

    /// Where some candidate settles a load, there is a first that does.
    pub proof fn lemma_some_candidate_decides(
        self,
        names: Seq<Seq<char>>,
        offers: Seq<Offer>,
        i: int,
    )
        requires
            0 <= i < names.len(),
            self.decides(names[i], offers[i]),
        ensures
            exists|k: int| self.first_decided(names, offers, k),
        decreases i,
    {
        if exists|j: int| 0 <= j < i && self.decides(names[j], offers[j]) {
            let j = choose|j: int| 0 <= j < i && self.decides(names[j], offers[j]);
            self.lemma_some_candidate_decides(names, offers, j);
        } else {
            assert(self.first_decided(names, offers, i));
        }
    }

    /// Registering a new name with at least one font keeps the cache well
    /// formed.
    pub proof fn lemma_register_wf(self, name: Seq<char>, font_ids: Seq<FontId>)
        requires
            self.wf(),
            !self.has_family_named(name),
            font_ids.len() > 0,
        ensures
            self.register(name, font_ids).wf(),
    {
    }
}

} // verus!
