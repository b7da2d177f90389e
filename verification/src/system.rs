//! The render system: a filtered system of priority 0.
//!
//! Each run it presents one frame through its backend, then visits every
//! entity of its working set in order. An entity with both a drawable and a
//! selector is drawn; one with a drawable but no selector is visited (and
//! noted on the diagnostic channel) but never drawn. The filter predicate
//! admits exactly the entities whose component set contains a drawable.

use vstd::prelude::*;
use crate::backend::{Effect, RenderBackend};
use crate::world::{Components, ComponentsView, Entity, World};

verus! {

/// The render system's filter: an entity belongs to the working set if and
/// only if its component set contains a drawable.
pub open spec fn matches_filter(cs: ComponentsView) -> bool {
    cs.drawable is Some
}

/// The backend effects of visiting one entity: a draw where both a drawable
/// and a selector are present, then the diagnostic note — a drawable
/// without a selector is never drawn.
pub open spec fn entity_effects(w: Seq<ComponentsView>, e: Entity) -> Seq<Effect> {
    let cs = w[e as int];
    (match (cs.drawable, cs.selector) {
        (Some(op), Some(sel)) => seq![Effect::Draw(op, sel)],
        _ => Seq::<Effect>::empty(),
    }) + seq![Effect::Visited(e, cs.selector)]
}

/// The backend effects of visiting a sequence of entities, in order.
pub open spec fn visit_effects(w: Seq<ComponentsView>, es: Seq<Entity>) -> Seq<Effect>
    decreases es,
{
    if es.len() == 0 {
        Seq::empty()
    } else {
        entity_effects(w, es[0]) + visit_effects(w, es.drop_first())
    }
}

/// Visiting one more entity appends its effects.
pub proof fn lemma_visit_effects_snoc(w: Seq<ComponentsView>, es: Seq<Entity>, e: Entity)
    ensures
        visit_effects(w, es.push(e)) == visit_effects(w, es) + entity_effects(w, e),
    decreases es,
{
    let p = es.push(e);
    if es.len() == 0 {
        assert(p.len() == 1);
        assert(p[0] == e);
        assert(p.drop_first() =~= Seq::<Entity>::empty());
        assert(visit_effects(w, p) == entity_effects(w, e) + visit_effects(w, p.drop_first()));
        assert(visit_effects(w, p.drop_first()) == Seq::<Effect>::empty());
        assert(visit_effects(w, p) =~= visit_effects(w, es) + entity_effects(w, e));
    } else {
        assert(p[0] == es[0]);
        assert(p.drop_first() =~= es.drop_first().push(e));
        lemma_visit_effects_snoc(w, es.drop_first(), e);
        assert(visit_effects(w, p) == entity_effects(w, p[0]) + visit_effects(w, p.drop_first()));
        assert(visit_effects(w, p.drop_first()) == visit_effects(w, es.drop_first())
            + entity_effects(w, e));
        assert(visit_effects(w, es) == entity_effects(w, es[0]) + visit_effects(
            w,
            es.drop_first(),
        ));
        assert(visit_effects(w, p) =~= visit_effects(w, es) + entity_effects(w, e));
    }
}

/// The complete effects of one system run over a working set: one frame,
/// then the per-entity effects in order.
pub open spec fn run_effects(w: Seq<ComponentsView>, es: Seq<Entity>) -> Seq<Effect> {
    seq![Effect::Frame] + visit_effects(w, es)
}

/// The render system: the registered behavior that presents a frame and
/// invokes drawable behaviors. Priority 0: it runs before any system
/// registered with a higher priority number.
pub struct RenderSystem<R: RenderBackend> {
    pub renderer: R,
    pub priority: u32,
}

impl<R: RenderBackend> RenderSystem<R> {
    pub fn new(renderer: R) -> (s: Self)
        ensures
            s.renderer == renderer,
            s.priority == 0,
    {
        RenderSystem { renderer, priority: 0 }
    }

    /// The filter predicate, evaluated over an entity's component set; it
    /// reads the set and mutates nothing.
    pub fn filter(&self, components: &Components) -> (m: bool)
        ensures
            m == matches_filter(components@),
    {
        components.drawable.is_some()
    }

    /// One run over `entities`: presents exactly one frame first, then for
    /// each entity in order draws it if it has both a drawable and a
    /// selector, and notes the visit on the diagnostic channel. The store
    /// is only read.
    #[verifier::loop_isolation(false)]
    pub fn run(&mut self, entities: &Vec<Entity>, world: &World)
        requires
            forall|i: int| 0 <= i < entities@.len() ==> (entities@[i] as int) < world@.len(),
        ensures
            final(self).priority == old(self).priority,
            final(self).renderer.log() == old(self).renderer.log() + run_effects(
                world@,
                entities@,
            ),
    {
        self.renderer.render();
        proof {
            assert(entities@.take(0) =~= Seq::<Entity>::empty());
            assert(self.renderer.log() =~= old(self).renderer.log() + run_effects(
                world@,
                entities@.take(0),
            ));
        }
        let n = entities.len();
        for i in 0..n
            invariant
                n == entities@.len(),
                self.priority == old(self).priority,
                self.renderer.log() == old(self).renderer.log() + run_effects(
                    world@,
                    entities@.take(i as int),
                ),
        {
            let e = entities[i];
            match world.borrow_drawable(e) {
                Some(drawable) => {
                    match world.borrow_selector(e) {
                        Some(selector) => {
                            drawable.draw(selector, &mut self.renderer);
                        },
                        None => {},
                    }
                },
                None => {},
            }
            let noted = world.borrow_selector(e);
            self.renderer.visit(e, noted);
            proof {
                lemma_visit_effects_snoc(world@, entities@.take(i as int), e);
                assert(entities@.take(i + 1) =~= entities@.take(i as int).push(e));
                assert(self.renderer.log() =~= old(self).renderer.log() + run_effects(
                    world@,
                    entities@.take(i + 1),
                ));
            }
        }
        proof {
            assert(entities@.take(n as int) =~= entities@);
        }
    }
}

} // verus!
