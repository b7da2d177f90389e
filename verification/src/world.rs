//! The component store: entities and their typed components.
//!
//! An entity is an opaque index into the store; it carries no data. Each
//! entity holds at most one component of a given type, in a typed slot, so
//! borrowing "the component of type X of entity E" is a checked operation.
//! Inserting a component of a type the entity already has overwrites it:
//! the later insert wins.

use vstd::prelude::*;
use crate::structs::Rect;
use crate::theme::{Selector, SelectorView};
use crate::widget::{Component, ComponentView, Drawable};

verus! {

/// An opaque entity identifier: a key into the component store. Identifiers
/// are minted in creation order and never reused.
pub type Entity = usize;

/// Ghost model of one entity's component set: each typed slot, possibly
/// empty.
#[verifier::ext_equal]
pub struct ComponentsView {
    pub drawable: Option<u64>,
    pub selector: Option<SelectorView>,
    pub bounds: Option<Rect>,
}

/// One entity's component set: at most one component of each type.
#[derive(Debug)]
pub struct Components {
    pub drawable: Option<Drawable>,
    pub selector: Option<Selector>,
    pub bounds: Option<Rect>,
}

impl View for Components {
    type V = ComponentsView;

    open spec fn view(&self) -> ComponentsView {
        ComponentsView {
            drawable: match self.drawable {
                Some(d) => Some(d.op),
                None => None,
            },
            selector: match self.selector {
                Some(s) => Some(s@),
                None => None,
            },
            bounds: self.bounds,
        }
    }
}

/// A freshly created entity holds no component.
pub open spec fn empty_components() -> ComponentsView {
    ComponentsView { drawable: None, selector: None, bounds: None }
}

/// One insert into a component set: the slot of the component's type is
/// overwritten — of two inserts of the same type, the later wins.
pub open spec fn with_component(cs: ComponentsView, c: ComponentView) -> ComponentsView {
    match c {
        ComponentView::Drawable(op) => ComponentsView { drawable: Some(op), ..cs },
        ComponentView::Selector(s) => ComponentsView { selector: Some(s), ..cs },
        ComponentView::Bounds(r) => ComponentsView { bounds: Some(r), ..cs },
    }
}

/// The component store ("world"): owns every entity and component of one
/// widget manager, and lives exactly as long as it.
#[derive(Debug)]
pub struct World {
    entities: Vec<Components>,
}

impl View for World {
    type V = Seq<ComponentsView>;

    closed spec fn view(&self) -> Seq<ComponentsView> {
        self.entities@.map_values(|c: Components| c@)
    }
}

impl World {
    /// An empty store: no entities.
    pub fn new() -> (w: World)
        ensures
            w@ == Seq::<ComponentsView>::empty(),
    {
        let w = World { entities: Vec::new() };
        proof {
            assert(w@ =~= Seq::<ComponentsView>::empty());
        }
        w
    }

    pub fn entity_count(&self) -> (n: usize)
        ensures
            n == self@.len(),
    {
        self.entities.len()
    }

    /// Mints a fresh entity with no components; its identifier is the number
    /// of entities created before it, so identifiers are unique.
    pub fn create_entity(&mut self) -> (e: Entity)
        ensures
            final(self)@ == old(self)@.push(empty_components()),
            e == old(self)@.len(),
    {
        let e = self.entities.len();
        self.entities.push(Components { drawable: None, selector: None, bounds: None });
        proof {
            assert(final(self)@ =~= old(self)@.push(empty_components()));
        }
        e
    }

    /// Attaches `component` to `entity`; a component of the same type already
    /// attached is overwritten.
    pub fn insert(&mut self, entity: Entity, component: Component)
        requires
            entity < old(self)@.len(),
        ensures
            final(self)@ == old(self)@.update(
                entity as int,
                with_component(old(self)@[entity as int], component@),
            ),
    {
        let slot = &mut self.entities[entity];
        match component {
            Component::Drawable(d) => {
                slot.drawable = Some(d);
            },
            Component::Selector(s) => {
                slot.selector = Some(s);
            },
            Component::Bounds(r) => {
                slot.bounds = Some(r);
            },
        }
        proof {
            assert(final(self)@ =~= old(self)@.update(
                entity as int,
                with_component(old(self)@[entity as int], component@),
            ));
        }
    }

    /// A read borrow of the whole component set of `entity`.
    pub fn borrow_components(&self, entity: Entity) -> (c: &Components)
        requires
            entity < self@.len(),
        ensures
            c@ == self@[entity as int],
    {
        &self.entities[entity]
    }

    /// A read borrow of the drawable of `entity`, if it has one; an absent
    /// component is not an error but "feature absent for this entity".
    pub fn borrow_drawable(&self, entity: Entity) -> (r: Option<&Drawable>)
        requires
            entity < self@.len(),
        ensures
            match r {
                Some(d) => self@[entity as int].drawable == Some(d.op),
                None => self@[entity as int].drawable == None::<u64>,
            },
    {
        match &self.entities[entity].drawable {
            Some(d) => Some(d),
            None => None,
        }
    }

    /// A read borrow of the selector of `entity`, if it has one.
    pub fn borrow_selector(&self, entity: Entity) -> (r: Option<&Selector>)
        requires
            entity < self@.len(),
        ensures
            match r {
                Some(s) => self@[entity as int].selector == Some(s@),
                None => self@[entity as int].selector == None::<SelectorView>,
            },
    {
        match &self.entities[entity].selector {
            Some(s) => Some(s),
            None => None,
        }
    }

    /// A read borrow of the bounding rectangle of `entity`, if it has one.
    pub fn borrow_bounds(&self, entity: Entity) -> (r: Option<&Rect>)
        requires
            entity < self@.len(),
        ensures
            match r {
                Some(b) => self@[entity as int].bounds == Some(*b),
                None => self@[entity as int].bounds == None::<Rect>,
            },
    {
        match &self.entities[entity].bounds {
            Some(b) => Some(b),
            None => None,
        }
    }
}

} // verus!
