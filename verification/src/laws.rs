//! What holds of the cache's operations taken together.
//!
//! Each law is stated over the descriptions in `CacheView` that the
//! operations' own contracts use, for every state and for every answer a
//! backend could give.

use vstd::prelude::*;
use crate::error::FontError;
use crate::handles::FontId;
use crate::model::{CacheView, Offer, SteadyAnswers};
use crate::properties::Properties;
use font_kit::metrics::Metrics;

verus! {

/// Selecting a font twice for the same family and properties gives the same
/// font both times: the second selection is answered from the index, whatever
/// the backend would choose then, and changes nothing.
pub proof fn law_select_font_twice(
    cache: CacheView,
    family: nat,
    properties: Properties,
    first: Option<FontId>,
    second: Option<FontId>,
)
    requires
        cache.wf(),
        family < cache.families.len(),
    ensures
        ({
            let (next, font) = cache.select_font(family, properties, first);
            next.select_font(family, properties, second) == (next, font)
        }),
{
}

/// A selection changes neither the registry nor the metrics index, and leaves
/// every other selection as it was.
pub proof fn law_select_font_keeps_the_rest(
    cache: CacheView,
    family: nat,
    properties: Properties,
    choice: Option<FontId>,
)
    requires
        cache.wf(),
        family < cache.families.len(),
    ensures
        ({
            let (next, font) = cache.select_font(family, properties, choice);
            &&& next.wf()
            &&& next.families == cache.families
            &&& next.metrics == cache.metrics
            &&& next.selections == cache.selections.insert((family, properties), font)
        }),
{
}

/// The default font of a family is the font selected for the default
/// properties. Whichever of the two is asked first, the other gives the same
/// font, whatever the backend would choose then, and changes nothing.
pub proof fn law_default_font_is_the_default_selection(
    cache: CacheView,
    family: nat,
    first: Option<FontId>,
    second: Option<FontId>,
)
    requires
        cache.wf(),
        family < cache.families.len(),
    ensures
        ({
            let (next, font) = cache.default_font(family, first);
            next.select_font(family, Properties::normal(), second) == (next, font)
        }),
        ({
            let (next, font) = cache.select_font(family, Properties::normal(), first);
            next.default_font(family, second) == (next, font)
        }),
{
    law_select_font_twice(cache, family, Properties::normal(), first, second);
}

/// Where the first candidate is registered, the load gives its family and
/// changes nothing, whatever the backend would offer: it is not asked.
pub proof fn law_registered_name_is_found(
    cache: CacheView,
    names: Seq<Seq<char>>,
    offers: Seq<Offer>,
)
    requires
        cache.wf(),
        names.len() > 0,
        cache.has_family_named(names[0]),
    ensures
        cache.load_family(names, offers) == (
            cache,
            Ok::<nat, FontError>(cache.family_named(names[0])),
        ),
{
    cache.lemma_first_decided(names, offers, 0);
}

/// Loading one name twice gives the same family both times: the second load
/// finds the name registered, whatever the backend would offer then, and
/// changes nothing.
pub proof fn law_load_family_twice(cache: CacheView, name: Seq<char>, first: Offer, second: Offer)
    requires
        cache.wf(),
        cache.load_family(seq![name], seq![first]).1 is Ok,
    ensures
        ({
            let (next, family) = cache.load_family(seq![name], seq![first]);
            next.load_family(seq![name], seq![second]) == (next, family)
        }),
{
    let names = seq![name];
    let (next, family) = cache.load_family(names, seq![first]);
    if cache.decides(name, first) {
        cache.lemma_first_decided(names, seq![first], 0);
        if !cache.has_family_named(name) {
            let font_ids = first->font_ids;
            cache.lemma_register_wf(name, font_ids);
            next.lemma_family_named(name, cache.families.len() as int);
        }
        next.lemma_first_decided(names, seq![second], 0);
    }
}

/// A load that fails registers nothing: the cache is as it was.
pub proof fn law_failed_load_changes_nothing(
    cache: CacheView,
    names: Seq<Seq<char>>,
    offers: Seq<Offer>,
)
    requires
        cache.load_family(names, offers).1 is Err,
    ensures
        cache.load_family(names, offers).0 == cache,
{
}

/// Handles are dense and never reassigned. A load that succeeds either
/// returns a family that was registered and changes nothing, or registers
/// exactly one family, at the next position, and returns that position. In
/// both cases every family registered before keeps its position, and both
/// indices are as they were.
pub proof fn law_load_family_assigns_the_next_handle(
    cache: CacheView,
    names: Seq<Seq<char>>,
    offers: Seq<Offer>,
)
    requires
        cache.wf(),
        cache.load_family(names, offers).1 is Ok,
    ensures
        ({
            let (next, r) = cache.load_family(names, offers);
            let family = r->Ok_0;
            &&& next.wf()
            &&& next.selections == cache.selections
            &&& next.metrics == cache.metrics
            &&& family < next.families.len()
            &&& forall|i: int|
                0 <= i < cache.families.len() ==> next.families[i] == #[trigger] cache.families[i]
            &&& (next == cache && family < cache.families.len()) || (next.families.len()
                == cache.families.len() + 1 && family == cache.families.len())
        }),
{
    if exists|i: int| cache.first_decided(names, offers, i) {
        let i = choose|i: int| cache.first_decided(names, offers, i);
        let name = names[i];
        if cache.has_family_named(name) {
            let j = choose|j: int|
                0 <= j < cache.families.len() && (#[trigger] cache.families[j]).name == name;
            cache.lemma_family_named(name, j);
        } else {
            cache.lemma_register_wf(name, offers[i]->font_ids);
        }
    }
}

/// A family that a load returns bears the name of one of the candidates.
pub proof fn law_loaded_family_bears_a_candidate_name(
    cache: CacheView,
    names: Seq<Seq<char>>,
    offers: Seq<Offer>,
)
    requires
        cache.wf(),
        cache.load_family(names, offers).1 is Ok,
    ensures
        ({
            let (next, r) = cache.load_family(names, offers);
            names.contains(next.families[r->Ok_0 as int].name)
        }),
{
    if exists|i: int| cache.first_decided(names, offers, i) {
        let i = choose|i: int| cache.first_decided(names, offers, i);
        let name = names[i];
        if cache.has_family_named(name) {
            let j = choose|j: int|
                0 <= j < cache.families.len() && (#[trigger] cache.families[j]).name == name;
            cache.lemma_family_named(name, j);
        }
    }
}

/// Only fonts that were confirmed are registered. A load that adds a family
/// adds the fonts that the backend offered for the first candidate that
/// settled the load, under that candidate's name, and the backend had a glyph
/// for the reference character in every one of them.
pub proof fn law_registered_fonts_were_confirmed(
    cache: CacheView,
    names: Seq<Seq<char>>,
    offers: Seq<Offer>,
)
    requires
        cache.wf(),
        cache.load_family(names, offers).0 != cache,
    ensures
        ({
            let next = cache.load_family(names, offers).0;
            exists|i: int|
                {
                    &&& #[trigger] cache.first_decided(names, offers, i)
                    &&& offers[i] matches Offer::Fonts { font_ids, all_have_reference_glyph }
                    &&& all_have_reference_glyph
                    &&& font_ids.len() > 0
                    &&& next == cache.register(names[i], font_ids)
                }
        }),
{
}

/// Where no candidate is registered and the backend has fonts for none, the
/// load fails for want of a matching family.
pub proof fn law_no_candidate_no_family(
    cache: CacheView,
    names: Seq<Seq<char>>,
    offers: Seq<Offer>,
)
    requires
        offers.len() == names.len(),
        forall|i: int| 0 <= i < names.len() ==> !cache.decides(#[trigger] names[i], offers[i]),
    ensures
        cache.load_family(names, offers) == (
            cache,
            Err::<nat, FontError>(FontError::NoMatchingFamily),
        ),
{
}

/// Where the first candidate that settles the load has a font without the
/// reference glyph, the load fails for that reason.
pub proof fn law_missing_glyph_fails_the_load(
    cache: CacheView,
    names: Seq<Seq<char>>,
    offers: Seq<Offer>,
    i: int,
)
    requires
        cache.first_decided(names, offers, i),
        !cache.has_family_named(names[i]),
        !(offers[i]->all_have_reference_glyph),
    ensures
        cache.load_family(names, offers) == (
            cache,
            Err::<nat, FontError>(FontError::MissingGlyph),
        ),
{
    cache.lemma_first_decided(names, offers, i);
}

/// Nothing is evicted. Whatever an operation finds in the cache is still
/// there afterwards, in its place: a load, a selection and a metrics lookup
/// each only add to the cache, whatever the backend answers.
pub proof fn law_operations_only_add(
    cache: CacheView,
    names: Seq<Seq<char>>,
    offers: Seq<Offer>,
    family: nat,
    properties: Properties,
    choice: Option<FontId>,
    font: FontId,
    fetched: Metrics,
)
    ensures
        cache.load_family(names, offers).0.extends(cache),
        cache.select_font(family, properties, choice).0.extends(cache),
        cache.metric(font, fetched).0.extends(cache),
{
}

/// A selection on record is final. After any operations that only add to the
/// cache, selecting for the same family and properties gives the recorded
/// font, whatever the backend would choose then, and changes nothing. So
/// however many callers ask for one key, and in whatever order they are
/// served, all of them get the font that the first was given.
pub proof fn law_recorded_selection_is_final(
    earlier: CacheView,
    later: CacheView,
    family: nat,
    properties: Properties,
    choice: Option<FontId>,
)
    requires
        earlier.selections.contains_key((family, properties)),
        later.extends(earlier),
    ensures
        later.select_font(family, properties, choice) == (
            later,
            earlier.selections[(family, properties)],
        ),
{
}

/// A metrics record in the index is final. After any operations that only
/// add to the cache, looking the font up gives the recorded metrics, whatever
/// the backend would report then, and changes nothing.
pub proof fn law_recorded_metrics_are_final(
    earlier: CacheView,
    later: CacheView,
    font: FontId,
    fetched: Metrics,
)
    requires
        earlier.metrics.contains_key(font),
        later.extends(earlier),
    ensures
        later.metric(font, fetched) == (later, earlier.metrics[font]),
{
}

/// A registered family is final. After any operations that only add to the
/// cache, its name is found at the same position, with the same fonts, and a
/// load whose first candidate is that name returns it, whatever the backend
/// would offer then.
pub proof fn law_registered_family_is_final(
    earlier: CacheView,
    later: CacheView,
    names: Seq<Seq<char>>,
    offers: Seq<Offer>,
)
    requires
        later.wf(),
        later.extends(earlier),
        names.len() > 0,
        earlier.has_family_named(names[0]),
    ensures
        later.has_family_named(names[0]),
        later.family_named(names[0]) == earlier.family_named(names[0]),
        later.families[later.family_named(names[0]) as int] == earlier.families[earlier.family_named(
            names[0],
        ) as int],
        later.load_family(names, offers) == (
            later,
            Ok::<nat, FontError>(earlier.family_named(names[0])),
        ),
{
    let i = earlier.family_named(names[0]) as int;
    later.lemma_family_named(names[0], i);
    law_registered_name_is_found(later, names, offers);
}

/// Over a steady backend the indices are pure caches. Where every entry is
/// what the backend would answer now, a selection gives the font that the
/// backend would give if asked directly, whether or not the index had it, and
/// every entry is still what the backend would answer.
pub proof fn law_selection_is_transparent(
    cache: CacheView,
    answers: SteadyAnswers,
    family: nat,
    properties: Properties,
)
    requires
        cache.wf(),
        cache.transparent(answers),
        family < cache.families.len(),
    ensures
        ({
            let asked = (answers.choice)(cache.families[family as int].font_ids, properties);
            let (next, font) = cache.select_font(family, properties, asked);
            &&& font == cache.selected_directly(answers, family, properties)
            &&& next.transparent(answers)
        }),
{
}

/// Over a steady backend a metrics lookup gives the record that the backend
/// would give if asked directly, whether or not the index had it, and every
/// entry is still what the backend would answer.
pub proof fn law_metric_is_transparent(cache: CacheView, answers: SteadyAnswers, font: FontId)
    requires
        cache.transparent(answers),
    ensures
        ({
            let (next, metrics) = cache.metric(font, (answers.metrics)(font));
            &&& metrics == (answers.metrics)(font)
            &&& next.transparent(answers)
        }),
{
}

/// A load keeps the indices pure caches: it changes no entry, and the
/// families that the entries speak of stay as they are. The cache is a pure
/// cache to begin with, having no entry.
pub proof fn law_load_family_keeps_transparency(
    cache: CacheView,
    answers: SteadyAnswers,
    names: Seq<Seq<char>>,
    offers: Seq<Offer>,
)
    requires
        cache.wf(),
        cache.transparent(answers),
    ensures
        cache.load_family(names, offers).0.transparent(answers),
        CacheView::empty().transparent(answers),
{
    let next = cache.load_family(names, offers).0;
    cache.lemma_load_family(names, offers);
    assert forall|k: (nat, Properties)| #[trigger] next.selections.contains_key(k) implies
        next.selections[k] == next.selected_directly(answers, k.0, k.1) by {
        assert(cache.selections.contains_key(k));
        assert(next.families[k.0 as int] == cache.families[k.0 as int]);
    }
}

/// Holding all that an earlier cache held is transitive.
pub proof fn law_extends_is_transitive(first: CacheView, second: CacheView, third: CacheView)
    requires
        second.extends(first),
        third.extends(second),
    ensures
        third.extends(first),
{
    assert forall|k: (nat, Properties)| #[trigger]
        first.selections.contains_key(k) implies third.selections.contains_key(k)
        && first.selections[k] == third.selections[k] by {
        assert(second.selections.contains_key(k));
    }
    assert forall|k: FontId| #[trigger] first.metrics.contains_key(k) implies third.metrics.contains_key(
        k,
    ) && first.metrics[k] == third.metrics[k] by {
        assert(second.metrics.contains_key(k));
    }
}

/// Looking up the metrics of a font twice uses the same record both times:
/// the second lookup is answered from the index, whatever the backend would
/// report then, and changes nothing.
pub proof fn law_metric_twice(
    cache: CacheView,
    font: FontId,
    first: Metrics,
    second: Metrics,
)
    ensures
        ({
            let (next, metrics) = cache.metric(font, first);
            next.metric(font, second) == (next, metrics)
        }),
{
}

} // verus!
