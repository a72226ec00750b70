//! Keyboard layouts: the registry that holds them, the list of those in use,
//! and the two composite strings that name them in a command.

use crate::text::{
    free_of, join, joined, lemma_filter_drops_all, lemma_filter_push, lemma_pieces_of_joined,
    pieces, views,
};
use vstd::prelude::*;
use vstd::string::*;

verus! {

/// The name under which a registry holds a layout.
#[derive(Clone, Copy, Debug, PartialEq, Eq, Hash, Structural)]
pub struct LayoutId(pub usize);

/// Where a layout is listed.
#[derive(Clone, Copy, Debug, PartialEq, Eq, Structural)]
pub enum LayoutSource {
    Base,
    Extra,
}

/// A keyboard layout. Commands name it by its locale and its variant; a
/// layout without a variant has the empty one.
#[derive(Debug)]
pub struct LayoutEntry {
    pub locale: String,
    pub variant: String,
    pub description: String,
    pub source: LayoutSource,
}

/// The layouts that can be chosen, each under an identifier of its own.
#[derive(Debug)]
pub struct LayoutRegistry {
    slots: Vec<Option<LayoutEntry>>,
}

impl View for LayoutRegistry {
    type V = Map<LayoutId, LayoutEntry>;

    closed spec fn view(&self) -> Map<LayoutId, LayoutEntry> {
        Map::new(
            |id: LayoutId| id.0 < self.slots@.len() && self.slots@[id.0 as int] is Some,
            |id: LayoutId| self.slots@[id.0 as int]->0,
        )
    }
}

impl LayoutRegistry {
    /// The identifiers that were given out so far, whether or not their
    /// layouts are still held.
    pub closed spec fn issued(self) -> nat {
        self.slots@.len()
    }

    /// A registry without layouts.
    pub fn new() -> (registry: LayoutRegistry)
        ensures
            registry@ == Map::<LayoutId, LayoutEntry>::empty(),
            registry.issued() == 0,
    {
        let registry = LayoutRegistry { slots: Vec::new() };
        registry
    }

    /// Takes a layout in and gives back the identifier under which it is
    /// held from now on. No layout was ever held under that identifier.
    pub fn insert(&mut self, entry: LayoutEntry) -> (id: LayoutId)
        ensures
            id.0 == old(self).issued(),
            !old(self)@.contains_key(id),
            final(self)@ == old(self)@.insert(id, entry),
            final(self).issued() == old(self).issued() + 1,
    {
        let id = LayoutId(self.slots.len());
        self.slots.push(Some(entry));
        id
    }

    /// Lets go of the layout held under `id`, if there is one, and says
    /// whether there was.
    pub fn remove(&mut self, id: LayoutId) -> (held: bool)
        ensures
            held == old(self)@.contains_key(id),
            final(self)@ == old(self)@.remove(id),
            final(self).issued() == old(self).issued(),
    {
        if id.0 < self.slots.len() {
            let held = self.slots[id.0].is_some();
            self.slots.set(id.0, None);
            held
        } else {
            false
        }
    }

    /// The layout held under `id`, or `None` if there is none.
    pub fn get(&self, id: LayoutId) -> (entry: Option<&LayoutEntry>)
        ensures
            entry is Some <==> self@.contains_key(id),
            entry is Some ==> *entry.unwrap() == self@[id],
    {
        if id.0 < self.slots.len() {
            self.slots[id.0].as_ref()
        } else {
            None
        }
    }
}

/// The test that a registry holds a layout under an identifier.
pub open spec fn known(registry: Map<LayoutId, LayoutEntry>) -> spec_fn(LayoutId) -> bool {
    |id: LayoutId| registry.contains_key(id)
}

/// The layouts in use: those of the identifiers in `active` that the
/// registry knows, in the order of `active`. An identifier that the
/// registry does not know is passed over.
pub open spec fn resolved(active: Seq<LayoutId>, registry: Map<LayoutId, LayoutEntry>) -> Seq<
    LayoutEntry,
> {
    active.filter(known(registry)).map_values(|id: LayoutId| registry[id])
}

/// The locales of the layouts, one for each.
pub open spec fn locales(entries: Seq<LayoutEntry>) -> Seq<Seq<char>> {
    entries.map_values(|entry: LayoutEntry| entry.locale@)
}

/// The variants of the layouts, one for each, empty or not: the variant in
/// place `i` is that of the layout whose locale is in place `i`.
pub open spec fn variants(entries: Seq<LayoutEntry>) -> Seq<Seq<char>> {
    entries.map_values(|entry: LayoutEntry| entry.variant@)
}

/// Whether one of the layouts has a variant that is not empty.
pub open spec fn any_variant(entries: Seq<LayoutEntry>) -> bool {
    exists|i: int| 0 <= i < entries.len() && (#[trigger] entries[i]).variant@.len() > 0
}

/// The layouts in use as commands name them.
#[derive(Debug)]
pub struct LayoutSummary {
    /// The locales, joined by commas.
    pub locales: String,
    /// The variants, joined by commas.
    pub variants: String,
    /// Whether a variant is not empty.
    pub any_variant: bool,
}

/// Adding one identifier to the list in use adds its layout, if the
/// registry knows it, behind the layouts in use.
pub proof fn lemma_resolved_push(
    active: Seq<LayoutId>,
    id: LayoutId,
    registry: Map<LayoutId, LayoutEntry>,
)
    ensures
        resolved(active.push(id), registry) == if registry.contains_key(id) {
            resolved(active, registry).push(registry[id])
        } else {
            resolved(active, registry)
        },
{
    lemma_filter_push(active, id, known(registry));
}

/// An identifier that the registry does not know adds nothing, wherever it
/// stands in the list: the layouts in use are those of the list without it.
pub proof fn lemma_unknown_is_skipped(
    before: Seq<LayoutId>,
    id: LayoutId,
    after: Seq<LayoutId>,
    registry: Map<LayoutId, LayoutEntry>,
)
    requires
        !registry.contains_key(id),
    ensures
        resolved(before + seq![id] + after, registry) == resolved(before + after, registry),
{
    lemma_filter_drops_all(seq![id], known(registry));
}

/// The two composite strings have a place for each layout in use, and the
/// same place in both is for the same layout: split at the commas, the
/// first gives the locales and the second the variants, empty ones too.
/// This needs a layout in use, and locales and variants without commas.
pub proof fn lemma_places_are_aligned(entries: Seq<LayoutEntry>)
    requires
        entries.len() > 0,
        forall|i: int|
            0 <= i < entries.len() ==> free_of((#[trigger] entries[i]).locale@, ',') && free_of(
                entries[i].variant@,
                ',',
            ),
    ensures
        pieces(joined(locales(entries), ","@), ',') == locales(entries),
        pieces(joined(variants(entries), ","@), ',') == variants(entries),
        locales(entries).len() == entries.len(),
        variants(entries).len() == entries.len(),
{
    reveal_strlit(",");
    assert(","@ == seq![',']);
    assert forall|i: int| 0 <= i < entries.len() implies free_of(
        #[trigger] locales(entries)[i],
        ',',
    ) && free_of(variants(entries)[i], ',') by {
        assert(free_of(entries[i].locale@, ','));
    }
    lemma_pieces_of_joined(locales(entries), ',');
    lemma_pieces_of_joined(variants(entries), ',');
}

/// Flattens the layouts in use into the two strings of a command.
///
/// The identifiers are taken in order and those that the registry does not
/// know are passed over. Both strings have one place for each layout that
/// is left.
pub fn aggregate(active_ids: &Vec<LayoutId>, registry: &LayoutRegistry) -> (summary: LayoutSummary)
    ensures
        summary.locales@ == joined(locales(resolved(active_ids@, registry@)), ","@),
        summary.variants@ == joined(variants(resolved(active_ids@, registry@)), ","@),
        summary.any_variant == any_variant(resolved(active_ids@, registry@)),
{
    let mut locale_parts: Vec<&str> = Vec::new();
    let mut variant_parts: Vec<&str> = Vec::new();
    let mut found: bool = false;
    let mut i: usize = 0;
    proof {
        reveal(Seq::filter);
    }
    while i < active_ids.len()
        invariant
            i <= active_ids.len(),
            views(locale_parts@) == locales(resolved(active_ids@.take(i as int), registry@)),
            views(variant_parts@) == variants(resolved(active_ids@.take(i as int), registry@)),
            found == any_variant(resolved(active_ids@.take(i as int), registry@)),
        decreases active_ids.len() - i,
    {
        let id = active_ids[i];
        let ghost before = resolved(active_ids@.take(i as int), registry@);
        proof {
            assert(active_ids@.take(i + 1) == active_ids@.take(i as int).push(id));
            lemma_resolved_push(active_ids@.take(i as int), id, registry@);
        }
        match registry.get(id) {
            Some(entry) => {
                let locale = entry.locale.as_str();
                let variant = entry.variant.as_str();
                proof {
                    let after = before.push(*entry);
                    assert(locales(after) == locales(before).push(entry.locale@));
                    assert(variants(after) == variants(before).push(entry.variant@));
                    if any_variant(before) {
                        let k = choose|k: int|
                            0 <= k < before.len() && (#[trigger] before[k]).variant@.len() > 0;
                        assert(after[k] == before[k]);
                    }
                    if variant@.len() > 0 {
                        assert(after[before.len() as int].variant@.len() > 0);
                    }
                    if any_variant(after) {
                        let k = choose|k: int|
                            0 <= k < after.len() && (#[trigger] after[k]).variant@.len() > 0;
                        if k < before.len() {
                            assert(before[k] == after[k]);
                        }
                    }
                }
                locale_parts.push(locale);
                variant_parts.push(variant);
                if !variant.is_empty() {
                    found = true;
                }
            },
            None => {},
        }
        i += 1;
    }
    proof {
        assert(active_ids@.take(active_ids.len() as int) == active_ids@);
    }
    LayoutSummary {
        locales: join(&locale_parts, ","),
        variants: join(&variant_parts, ","),
        any_variant: found,
    }
}

} // verus!
