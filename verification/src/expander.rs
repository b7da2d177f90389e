//! The template expander: flattens a widget tree into an ordered list of
//! widgets, each of which becomes exactly one entity.
//!
//! Expansion is post-order: all entries produced by a widget's descendants
//! stand in the output strictly before the widget's own entry. The length of
//! the output equals the number of nodes of the template tree.

use vstd::prelude::*;
use std::sync::Arc;
use crate::widget::{arc_clone, children_views, Template, Widget, WidgetView};

verus! {

/// The expansion of one widget: its children's expansions in order, then the
/// widget itself.
pub open spec fn expand_view(w: WidgetView) -> Seq<WidgetView>
    decreases w,
{
    expand_all(w.template.children) + seq![w]
}

/// The concatenated expansions of a sequence of widgets, in order.
pub open spec fn expand_all(ws: Seq<WidgetView>) -> Seq<WidgetView>
    decreases ws,
{
    if ws.len() == 0 {
        Seq::empty()
    } else {
        expand_view(ws[0]) + expand_all(ws.drop_first())
    }
}

/// The number of nodes of a template tree, the root counted too.
pub open spec fn node_count(w: WidgetView) -> nat
    decreases w,
{
    1 + count_all(w.template.children)
}

/// The total node count of a sequence of template trees.
pub open spec fn count_all(ws: Seq<WidgetView>) -> nat
    decreases ws,
{
    if ws.len() == 0 {
        0
    } else {
        node_count(ws[0]) + count_all(ws.drop_first())
    }
}

/// Every node of the template tree, leaf or composite, yields exactly one
/// output entry: the expansion's length is the tree's node count.
pub proof fn lemma_expansion_length(w: WidgetView)
    ensures
        expand_view(w).len() == node_count(w),
    decreases w,
{
    lemma_expand_all_length(w.template.children);
}

pub proof fn lemma_expand_all_length(ws: Seq<WidgetView>)
    ensures
        expand_all(ws).len() == count_all(ws),
    decreases ws,
{
    if ws.len() > 0 {
        lemma_expansion_length(ws[0]);
        lemma_expand_all_length(ws.drop_first());
    }
}

/// Appending one more tree to a sequence appends its expansion to the
/// concatenated expansions.
pub proof fn lemma_expand_all_snoc(ws: Seq<WidgetView>, w: WidgetView)
    ensures
        expand_all(ws.push(w)) == expand_all(ws) + expand_view(w),
    decreases ws,
{
    let p = ws.push(w);
    if ws.len() == 0 {
        assert(p.len() == 1);
        assert(p[0] == w);
        assert(p.drop_first() =~= Seq::<WidgetView>::empty());
        assert(expand_all(p) == expand_view(w) + expand_all(p.drop_first()));
        assert(expand_all(p.drop_first()) == Seq::<WidgetView>::empty());
        assert(expand_all(ws) == Seq::<WidgetView>::empty());
        assert(expand_all(p) =~= expand_all(ws) + expand_view(w));
    } else {
        assert(p[0] == ws[0]);
        assert(p.drop_first() =~= ws.drop_first().push(w));
        lemma_expand_all_snoc(ws.drop_first(), w);
        assert(expand_all(p) == expand_view(p[0]) + expand_all(p.drop_first()));
        assert(expand_all(p.drop_first()) == expand_all(ws.drop_first()) + expand_view(w));
        assert(expand_all(ws) == expand_view(ws[0]) + expand_all(ws.drop_first()));
        assert(expand_all(p) =~= expand_all(ws) + expand_view(w));
    }
}

/// Post-order: a widget's own entry is the last of its expansion, and all
/// entries before it are exactly those produced by expanding its children —
/// every descendant's entry therefore stands strictly earlier than the
/// widget's entry.
pub proof fn lemma_post_order(w: WidgetView)
    ensures
        expand_view(w).len() >= 1,
        expand_view(w).last() == w,
        expand_view(w).drop_last() == expand_all(w.template.children),
{
    assert(expand_view(w).drop_last() =~= expand_all(w.template.children));
}

/// Where the expansion of the `i`-th child begins inside the concatenated
/// expansion of a child sequence.
pub open spec fn block_offset(ws: Seq<WidgetView>, i: int) -> int {
    expand_all(ws.take(i)).len() as int
}

/// The children's expansions stand in the output in child order, each as one
/// contiguous block: the `i`-th child's expansion is exactly the slice of
/// the concatenation that begins at its offset.
pub proof fn lemma_children_blocks(ws: Seq<WidgetView>, i: int)
    requires
        0 <= i < ws.len(),
    ensures
        block_offset(ws, i) + expand_view(ws[i]).len() <= expand_all(ws).len(),
        expand_all(ws).subrange(
            block_offset(ws, i),
            block_offset(ws, i) + expand_view(ws[i]).len() as int,
        ) == expand_view(ws[i]),
    decreases i,
{
    if i == 0 {
        assert(ws.take(0) =~= Seq::<WidgetView>::empty());
        assert(expand_all(ws).subrange(0, expand_view(ws[0]).len() as int) =~= expand_view(
            ws[0],
        ));
    } else {
        let tail = ws.drop_first();
        lemma_children_blocks(tail, i - 1);
        assert(ws.take(i).drop_first() =~= tail.take(i - 1));
        assert(ws.take(i)[0] == ws[0]);
        assert(expand_all(ws.take(i)) == expand_view(ws[0]) + expand_all(tail.take(i - 1)));
        let head = expand_view(ws[0]);
        let o = block_offset(tail, i - 1);
        let l = expand_view(tail[i - 1]).len() as int;
        assert(ws[i] == tail[i - 1]);
        assert(block_offset(ws, i) == head.len() + o);
        assert(expand_all(ws).subrange(head.len() + o, head.len() + o + l) =~= expand_all(
            tail,
        ).subrange(o, o + l));
    }
}

/// Every entry a descendant contributes stands strictly before the
/// widget's own entry: the `i`-th child's whole expansion is a contiguous
/// slice that ends before the output's last position, which the widget
/// itself occupies.
pub proof fn lemma_descendant_entries_precede(w: WidgetView, i: int)
    requires
        0 <= i < w.template.children.len(),
    ensures
        expand_view(w).last() == w,
        block_offset(w.template.children, i) + expand_view(w.template.children[i]).len()
            < expand_view(w).len(),
        expand_view(w).subrange(
            block_offset(w.template.children, i),
            block_offset(w.template.children, i) + expand_view(
                w.template.children[i],
            ).len() as int,
        ) == expand_view(w.template.children[i]),
{
    let cs = w.template.children;
    let o = block_offset(cs, i);
    let l = expand_view(cs[i]).len() as int;
    lemma_post_order(w);
    lemma_children_blocks(cs, i);
    assert(expand_view(w).subrange(o, o + l) =~= expand_all(cs).subrange(o, o + l));
}

/// Expansion is a function of the widget tree alone: two expansions of the
/// same (unmutated) widget agree in length and in the component set at every
/// position, whatever entities are later minted from them.
pub proof fn lemma_expansion_repeatable(w: WidgetView, out1: Seq<WidgetView>, out2: Seq<WidgetView>)
    requires
        out1 == expand_view(w),
        out2 == expand_view(w),
    ensures
        out1.len() == out2.len(),
        forall|i: int| 0 <= i < out1.len() ==> out1[i].components == out2[i].components,
{
}

/// The views of a sequence of shared widget handles.
pub open spec fn views(ws: Seq<Arc<Widget>>) -> Seq<WidgetView> {
    ws.map_values(|a: Arc<Widget>| a@)
}

/// A widget's recursive child-view sequence is the pointwise view of its
/// child handles.
pub proof fn lemma_children_views_are_views(cs: Seq<Arc<Widget>>)
    ensures
        children_views(cs) == views(cs),
    decreases cs,
{
    if cs.len() == 0 {
        assert(children_views(cs) =~= views(cs));
    } else {
        lemma_children_views_are_views(cs.drop_first());
        assert(children_views(cs) =~= views(cs));
    }
}

proof fn lemma_views_push(ws: Seq<Arc<Widget>>, a: Arc<Widget>)
    ensures
        views(ws.push(a)) == views(ws).push(a@),
{
    assert(views(ws.push(a)) =~= views(ws).push(a@));
}

/// Flattens `widget` and its descendants onto the end of `widgets`,
/// post-order: for `Single` and `Multi` templates the children are expanded
/// first, then the widget itself is appended; an `Empty` template appends
/// the widget alone.
#[verifier::loop_isolation(false)]
pub fn expand(widget: &Arc<Widget>, widgets: &mut Vec<Arc<Widget>>)
    ensures
        views(final(widgets)@) == views(old(widgets)@) + expand_view(widget@),
    decreases **widget,
{
    let ghost children = widget@.template.children;
    match &**widget {
        Widget::Border(b) => {
            match &b.child {
                Some(c) => {
                    expand(c, widgets);
                    proof {
                        lemma_singleton_expansion(c@);
                        assert(views(widgets@) == views(old(widgets)@) + expand_all(children));
                    }
                },
                None => {
                    proof {
                        assert(views(widgets@) =~= views(old(widgets)@) + expand_all(children));
                    }
                },
            }
        },
        Widget::Label(_) => {
            proof {
                assert(views(widgets@) =~= views(old(widgets)@) + expand_all(children));
            }
        },
        Widget::Button(b) => {
            expand(&b.border, widgets);
            proof {
                lemma_singleton_expansion(b.border@);
                assert(views(widgets@) == views(old(widgets)@) + expand_all(children));
            }
        },
        Widget::Custom(cu) => {
            proof {
                assert(children == crate::widget::template_view(cu.template).children);
            }
            match &cu.template {
                Template::Empty => {
                    proof {
                        assert(views(widgets@) =~= views(old(widgets)@) + expand_all(children));
                    }
                },
                Template::Single(child) => {
                    expand(child, widgets);
                    proof {
                        lemma_singleton_expansion(child@);
                        assert(views(widgets@) == views(old(widgets)@) + expand_all(children));
                    }
                },
                Template::Multi(cs) => {
                    let n = cs.len();
                    proof {
                        lemma_children_views_are_views(cs@);
                        assert(views(cs@.take(0)) =~= Seq::<WidgetView>::empty());
                        assert(views(widgets@) =~= views(old(widgets)@) + expand_all(
                            views(cs@.take(0)),
                        ));
                    }
                    for i in 0..n
                        invariant
                            n == cs@.len(),
                            views(widgets@) == views(old(widgets)@) + expand_all(
                                views(cs@.take(i as int)),
                            ),
                    {
                        proof {
                            let w0: Widget = **widget;
                            assert(decreases_to!(w0 => w0->Custom_0));
                            let cu0: crate::widget::Custom = w0->Custom_0;
                            assert(decreases_to!(cu0 => cu0.template));
                            let t0: Template = cu0.template;
                            assert(decreases_to!(t0 => t0->Multi_0));
                            let v0: Vec<Arc<Widget>> = t0->Multi_0;
                            assert(decreases_to!(v0 => v0@));
                            assert(decreases_to!(v0@ => v0@[i as int]));
                            assert(decreases_to!(**widget => cs@[i as int]));
                        }
                        expand(&cs[i], widgets);
                        proof {
                            lemma_expand_all_snoc(views(cs@.take(i as int)), cs@[i as int]@);
                            assert(views(cs@.take(i + 1)) =~= views(cs@.take(i as int)).push(
                                cs@[i as int]@,
                            ));
                            assert(views(widgets@) =~= views(old(widgets)@) + expand_all(
                                views(cs@.take(i + 1)),
                            ));
                        }
                    }
                    proof {
                        assert(cs@.take(n as int) =~= cs@);
                        assert(children == children_views(cs@));
                    }
                },
            }
        },
    }
    let ghost pre = widgets@;
    let entry = arc_clone(widget);
    widgets.push(entry);
    proof {
        lemma_views_push(pre, entry);
        assert(views(old(widgets)@) + expand_view(widget@) =~= (views(old(widgets)@) + expand_all(
            children,
        )).push(widget@));
    }
}

/// The expansion of a one-child sequence is the child's expansion.
pub proof fn lemma_singleton_expansion(w: WidgetView)
    ensures
        expand_all(seq![w]) == expand_view(w),
{
    assert(seq![w] =~= Seq::<WidgetView>::empty().push(w));
    lemma_expand_all_snoc(Seq::<WidgetView>::empty(), w);
    assert(expand_all(Seq::<WidgetView>::empty()) == Seq::<WidgetView>::empty());
    assert(expand_all(seq![w]) =~= expand_view(w));
}

} // verus!
