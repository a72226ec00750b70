//! A model of a row of choices of which at most one is active.

use vstd::prelude::*;

verus! {

/// The name of one choice. It says nothing by itself: two entities are the
/// same choice when their numbers are equal.
#[derive(Clone, Copy, Debug, PartialEq, Eq, Hash, Structural)]
pub struct Entity(pub u64);

/// What a selection model holds: the choices in the order in which they are
/// shown, and the active one.
pub struct Selection {
    pub entities: Seq<Entity>,
    pub active: Option<Entity>,
}

impl Selection {
    /// The selection after `entity` was activated. A choice that the model
    /// does not hold cannot become active: the selection stays as it is.
    pub open spec fn activated(self, entity: Entity) -> Selection {
        if self.entities.contains(entity) {
            Selection { entities: self.entities, active: Some(entity) }
        } else {
            self
        }
    }

    /// The choice in place `position`, counted from zero.
    pub open spec fn entity_at(self, position: nat) -> Option<Entity> {
        if position < self.entities.len() {
            Some(self.entities[position as int])
        } else {
            None
        }
    }
}

/// A row of choices of which at most one is active.
#[derive(Debug)]
pub struct SelectionModel {
    entities: Vec<Entity>,
    active: Option<Entity>,
}

impl View for SelectionModel {
    type V = Selection;

    closed spec fn view(&self) -> Selection {
        Selection { entities: self.entities@, active: self.active }
    }
}

impl SelectionModel {
    /// A model without choices.
    pub fn new() -> (model: SelectionModel)
        ensures
            model@.entities.len() == 0,
            model@.active is None,
    {
        SelectionModel { entities: Vec::new(), active: None }
    }

    /// Adds a choice behind the others. The active choice stays.
    pub fn insert(&mut self, entity: Entity)
        ensures
            final(self)@.entities == old(self)@.entities.push(entity),
            final(self)@.active == old(self)@.active,
    {
        self.entities.push(entity);
    }

    /// Whether the model holds `entity`.
    pub fn contains(&self, entity: Entity) -> (found: bool)
        ensures
            found == self@.entities.contains(entity),
    {
        let mut i: usize = 0;
        while i < self.entities.len()
            invariant
                i <= self.entities.len(),
                forall|j: int| 0 <= j < i ==> self.entities@[j] != entity,
            decreases self.entities.len() - i,
        {
            if self.entities[i] == entity {
                return true;
            }
            i += 1;
        }
        false
    }

    /// Makes `entity` the active choice, if the model holds it.
    pub fn activate(&mut self, entity: Entity)
        ensures
            final(self)@ == old(self)@.activated(entity),
    {
        if self.contains(entity) {
            self.active = Some(entity);
        }
    }

    /// The active choice.
    pub fn active(&self) -> (entity: Option<Entity>)
        ensures
            entity == self@.active,
    {
        self.active
    }

    /// The choice in place `position`, counted from zero.
    pub fn entity_at(&self, position: usize) -> (entity: Option<Entity>)
        ensures
            entity == self@.entity_at(position as nat),
    {
        if position < self.entities.len() {
            Some(self.entities[position])
        } else {
            None
        }
    }
}

} // verus!
