//! The widget manager: owns the component store, registers the render
//! system once at construction, materializes expanded widget trees into
//! entities, and drives the per-frame run cycle.

use vstd::prelude::*;
use std::sync::Arc;
use crate::backend::RenderBackend;
use crate::expander::{expand, expand_view, views};
use crate::structs::Rect;
use crate::system::{matches_filter, run_effects, RenderSystem};
use crate::widget::{Component, ComponentView, Widget, WidgetView};
use crate::world::{
    empty_components, with_component, ComponentsView, Entity, World,
};

verus! {

/// The placeholder bounding rectangle attached to every entity (real layout
/// is out of scope).
pub open spec fn default_bounds() -> Rect {
    Rect { x: 0, y: 0, width: 200, height: 50 }
}

/// A component list applied to a set in order: each insert overwrites the
/// slot of its type, so of duplicates the later wins.
pub open spec fn apply_components(cs: ComponentsView, list: Seq<ComponentView>) -> ComponentsView
    decreases list,
{
    if list.len() == 0 {
        cs
    } else {
        apply_components(with_component(cs, list[0]), list.drop_first())
    }
}

/// Applying one more component applies it after the rest.
pub proof fn lemma_apply_components_snoc(
    cs: ComponentsView,
    list: Seq<ComponentView>,
    c: ComponentView,
)
    ensures
        apply_components(cs, list.push(c)) == with_component(apply_components(cs, list), c),
    decreases list,
{
    let p = list.push(c);
    if list.len() == 0 {
        assert(p[0] == c);
        assert(p.drop_first() =~= Seq::<ComponentView>::empty());
    } else {
        assert(p[0] == list[0]);
        assert(p.drop_first() =~= list.drop_first().push(c));
        lemma_apply_components_snoc(with_component(cs, list[0]), list.drop_first(), c);
    }
}

/// The component set of the entity a widget becomes: its declared
/// components in order, then the default bounding rectangle, attached
/// unconditionally and last.
pub open spec fn entity_components(w: WidgetView) -> ComponentsView {
    with_component(
        apply_components(empty_components(), w.components),
        ComponentView::Bounds(default_bounds()),
    )
}

/// The component sets of the entities an expanded widget list becomes.
pub open spec fn materialize(ws: Seq<WidgetView>) -> Seq<ComponentsView> {
    ws.map_values(|w: WidgetView| entity_components(w))
}

/// The entities admitted by the render filter among the first `k` of a
/// store, in ascending order.
pub open spec fn matching_upto(w: Seq<ComponentsView>, k: int) -> Seq<Entity>
    decreases k,
{
    if k <= 0 {
        Seq::empty()
    } else {
        matching_upto(w, k - 1) + (if matches_filter(w[k - 1]) {
            seq![(k - 1) as Entity]
        } else {
            Seq::<Entity>::empty()
        })
    }
}

/// The render system's working set: every entity of the store whose
/// component set passes the filter, in ascending order.
pub open spec fn working_set(w: Seq<ComponentsView>) -> Seq<Entity> {
    matching_upto(w, w.len() as int)
}

/// Every entity of a working-set prefix names a store slot below `k`.
pub proof fn lemma_matching_upto_bounds(w: Seq<ComponentsView>, k: int)
    requires
        k <= usize::MAX,
    ensures
        forall|i: int|
            0 <= i < matching_upto(w, k).len() ==> (matching_upto(w, k)[i] as int) < k,
    decreases k,
{
    if k > 0 {
        lemma_matching_upto_bounds(w, k - 1);
        let s = matching_upto(w, k);
        let p = matching_upto(w, k - 1);
        assert forall|i: int| 0 <= i < s.len() implies (s[i] as int) < k by {
            if i < p.len() {
                assert(s[i] == p[i]);
            } else {
                assert(matches_filter(w[k - 1]));
                assert(s[i] == (k - 1) as Entity);
            }
        }
    }
}

/// Membership in the working set is exactly the filter: an entity below `k`
/// occurs in the prefix set if and only if its components pass the filter.
pub proof fn lemma_matching_upto_membership(w: Seq<ComponentsView>, k: int, e: Entity)
    requires
        (e as int) < k,
        k <= usize::MAX,
    ensures
        matching_upto(w, k).contains(e) <==> matches_filter(w[e as int]),
    decreases k,
{
    let s = matching_upto(w, k);
    let p = matching_upto(w, k - 1);
    lemma_matching_upto_bounds(w, k);
    lemma_matching_upto_bounds(w, k - 1);
    if (e as int) < k - 1 {
        lemma_matching_upto_membership(w, k - 1, e);
        if p.contains(e) {
            let i = choose|i: int| 0 <= i < p.len() && #[trigger] p[i] == e;
            assert(s[i] == e);
            assert(s.contains(e));
        }
        if s.contains(e) {
            let i = choose|i: int| 0 <= i < s.len() && #[trigger] s[i] == e;
            if i < p.len() {
                assert(p[i] == e);
                assert(p.contains(e));
            } else {
                assert(matches_filter(w[k - 1]));
                assert(s[i] == (k - 1) as Entity);
                assert(false);
            }
        }
    } else {
        if matches_filter(w[e as int]) {
            assert(matches_filter(w[k - 1]));
            assert(s.len() == p.len() + 1);
            assert(s[p.len() as int] == (k - 1) as Entity);
            assert(s[p.len() as int] == e);
            assert(s.contains(e));
        } else {
            if s.contains(e) {
                let i = choose|i: int| 0 <= i < s.len() && #[trigger] s[i] == e;
                if i < p.len() {
                    assert((p[i] as int) < k - 1);
                    assert(false);
                } else {
                    assert(matches_filter(w[k - 1]));
                    assert(s[i] == (k - 1) as Entity);
                    assert(false);
                }
            }
        }
    }
}

/// Whether a widget's declared component list includes a drawable.
pub open spec fn declares_drawable(w: WidgetView) -> bool {
    exists|j: int| 0 <= j < w.components.len() && w.components[j] is Drawable
}

/// A folded component list yields a drawable slot exactly when the start
/// set had one or the list declares one.
pub proof fn lemma_apply_components_drawable(cs: ComponentsView, list: Seq<ComponentView>)
    ensures
        (apply_components(cs, list).drawable is Some) <==> (cs.drawable is Some || exists|j: int|
            0 <= j < list.len() && list[j] is Drawable),
    decreases list,
{
    if list.len() > 0 {
        lemma_apply_components_drawable(with_component(cs, list[0]), list.drop_first());
        if apply_components(cs, list).drawable is Some {
            if !(cs.drawable is Some) && !(list[0] is Drawable) {
                let j = choose|j: int|
                    0 <= j < list.drop_first().len() && list.drop_first()[j] is Drawable;
                assert(list[j + 1] is Drawable);
            }
        }
        if cs.drawable is Some || exists|j: int| 0 <= j < list.len() && list[j] is Drawable {
            if !(cs.drawable is Some) {
                let j = choose|j: int| 0 <= j < list.len() && list[j] is Drawable;
                if j > 0 {
                    assert(list.drop_first()[j - 1] is Drawable);
                }
            }
        }
    }
}

/// Filter correctness: after a widget list is materialized onto a store,
/// the next filter re-evaluation admits exactly the new entities whose
/// widget declared a drawable — each entity minted for widget `i` is in the
/// working set if and only if that widget's component list included one.
pub proof fn lemma_filter_correctness(prior: Seq<ComponentsView>, ws: Seq<WidgetView>, i: int)
    requires
        0 <= i < ws.len(),
        prior.len() + ws.len() <= usize::MAX,
    ensures
        working_set(prior + materialize(ws)).contains((prior.len() + i) as Entity)
            <==> declares_drawable(ws[i]),
{
    let s = prior + materialize(ws);
    let e = (prior.len() + i) as Entity;
    assert(s[e as int] == entity_components(ws[i]));
    lemma_matching_upto_membership(s, s.len() as int, e);
    lemma_apply_components_drawable(empty_components(), ws[i].components);
    assert(matches_filter(entity_components(ws[i])) <==> declares_drawable(ws[i]));
}

/// The widget manager: one component store and one registered system — the
/// render system, at priority 0, filtered to entities with a drawable.
pub struct WidgetManager<R: RenderBackend> {
    pub world: World,
    pub render_system: RenderSystem<R>,
}

impl<R: RenderBackend> WidgetManager<R> {
    /// An empty store, with the render system registered once, at priority
    /// 0, its filter admitting entities that carry a drawable.
    pub fn new(renderer: R) -> (m: Self)
        ensures
            m.world@ == Seq::<ComponentsView>::empty(),
            m.render_system.renderer == renderer,
            m.render_system.priority == 0,
    {
        WidgetManager { world: World::new(), render_system: RenderSystem::new(renderer) }
    }

    /// Expands `root` and materializes every resulting widget, in expansion
    /// order, as one fresh entity: its declared components in order, then
    /// the default bounding rectangle. A second call appends a further,
    /// independent entity set; no earlier root is torn down.
    #[verifier::loop_isolation(false)]
    pub fn root(&mut self, root: Arc<Widget>)
        ensures
            final(self).world@ == old(self).world@ + materialize(expand_view(root@)),
            final(self).render_system == old(self).render_system,
    {
        let mut widgets: Vec<Arc<Widget>> = Vec::new();
        expand(&root, &mut widgets);
        proof {
            assert(views(widgets@) =~= expand_view(root@));
            assert(materialize(views(widgets@).take(0)) =~= Seq::<ComponentsView>::empty());
            assert(self.world@ =~= old(self).world@ + materialize(views(widgets@).take(0)));
        }
        let n = widgets.len();
        for i in 0..n
            invariant
                n == widgets@.len(),
                self.world@ == old(self).world@ + materialize(views(widgets@).take(i as int)),
                self.render_system == old(self).render_system,
        {
            let ghost base = self.world@;
            let ghost wv = views(widgets@)[i as int];
            let entity = self.world.create_entity();
            let components = (&*widgets[i]).components();
            proof {
                assert(components@.map_values(|c: Component| c@) == wv.components);
                assert(components@.len() == wv.components.len());
                assert(wv.components.take(0) =~= Seq::<ComponentView>::empty());
                assert(self.world@ =~= base.push(
                    apply_components(empty_components(), wv.components.take(0)),
                ));
            }
            let m = components.len();
            for j in 0..m
                invariant
                    m == components@.len(),
                    entity == base.len(),
                    self.world@ == base.push(
                        apply_components(empty_components(), wv.components.take(j as int)),
                    ),
                    self.render_system == old(self).render_system,
            {
                let c = components[j].duplicate();
                proof {
                    assert(c@ == wv.components[j as int]);
                }
                self.world.insert(entity, c);
                proof {
                    lemma_apply_components_snoc(
                        empty_components(),
                        wv.components.take(j as int),
                        c@,
                    );
                    assert(wv.components.take(j + 1) =~= wv.components.take(j as int).push(c@));
                    assert(self.world@ =~= base.push(
                        apply_components(empty_components(), wv.components.take(j + 1)),
                    ));
                }
            }
            self.world.insert(entity, Component::Bounds(Rect::new(0, 0, 200, 50)));
            proof {
                assert(wv.components.take(m as int) =~= wv.components);
                assert(self.world@ =~= base.push(entity_components(wv)));
                assert(views(widgets@).take(i + 1) =~= views(widgets@).take(i as int).push(wv));
                assert(materialize(views(widgets@).take(i + 1)) =~= materialize(
                    views(widgets@).take(i as int),
                ).push(entity_components(wv)));
                assert(self.world@ =~= old(self).world@ + materialize(
                    views(widgets@).take(i + 1),
                ));
            }
        }
        proof {
            assert(views(widgets@).take(n as int) =~= views(widgets@));
        }
    }

    /// The working set of the render system under the current entities: the
    /// filter re-evaluated against every entity, so entities created since
    /// the previous run are picked up.
    #[verifier::loop_isolation(false)]
    fn collect_matching(&self) -> (es: Vec<Entity>)
        ensures
            es@ == working_set(self.world@),
            forall|i: int| 0 <= i < es@.len() ==> (es@[i] as int) < self.world@.len(),
    {
        let mut es: Vec<Entity> = Vec::new();
        let n = self.world.entity_count();
        proof {
            assert(es@ =~= matching_upto(self.world@, 0));
        }
        for e in 0..n
            invariant
                n == self.world@.len(),
                es@ == matching_upto(self.world@, e as int),
        {
            let components = self.world.borrow_components(e);
            if self.render_system.filter(components) {
                es.push(e);
                proof {
                    assert(es@ =~= matching_upto(self.world@, e + 1));
                }
            } else {
                proof {
                    assert(es@ =~= matching_upto(self.world@, e + 1));
                }
            }
        }
        proof {
            lemma_matching_upto_bounds(self.world@, n as int);
        }
        es
    }

    /// One run cycle: re-evaluates the system's filter against the current
    /// entities, then executes the systems in ascending priority order —
    /// here the render system alone. The store itself is unchanged; the
    /// backend performs one frame and the per-entity effects of the working
    /// set.
    pub fn run(&mut self)
        ensures
            final(self).world == old(self).world,
            final(self).render_system.priority == old(self).render_system.priority,
            final(self).render_system.renderer.log() == old(
                self,
            ).render_system.renderer.log() + run_effects(
                old(self).world@,
                working_set(old(self).world@),
            ),
    {
        let working = self.collect_matching();
        self.render_system.run(&working, &self.world);
    }
}

} // verus!
