//! Widgets and their declarative templates.
//!
//! A widget produces a template — no child, one child, or many children —
//! and a list of components for the entity it will become. Widgets are held
//! behind shared `Arc` handles so the same subtree may appear in several
//! templates; a shared widget is never mutated. User-defined widgets are
//! expressed as `Custom` nodes carrying their template and component list
//! as data, so that every template tree is finite by construction and
//! expansion always terminates.

use vstd::prelude::*;
use std::sync::Arc;
use crate::structs::Rect;
use crate::theme::{Selector, SelectorView};

verus! {

/// The paint operation of every border widget; render backends dispatch on it.
pub const BORDER_PAINT: u64 = 1;

/// A drawable behavior attached to an entity. The paint routine itself lives
/// in the render backend; the component carries the operation code the
/// backend dispatches on (a boxed callback cannot be stored as component
/// data here).
#[derive(Clone, Copy, Debug, PartialEq, Eq, Structural)]
pub struct Drawable {
    pub op: u64,
}

impl Drawable {
    pub fn new(op: u64) -> (d: Drawable)
        ensures
            d == (Drawable { op }),
    {
        Drawable { op }
    }
}

/// Ghost model of a component value.
#[verifier::ext_equal]
pub enum ComponentView {
    Drawable(u64),
    Selector(SelectorView),
    Bounds(Rect),
}

/// A component: one typed value attachable to an entity. A tagged union
/// replaces type-erased, downcast-on-borrow component boxes, so that
/// borrowing a component of a given type is a checked operation.
#[derive(Debug, PartialEq)]
pub enum Component {
    Drawable(Drawable),
    Selector(Selector),
    Bounds(Rect),
}

impl View for Component {
    type V = ComponentView;

    open spec fn view(&self) -> ComponentView {
        match self {
            Component::Drawable(d) => ComponentView::Drawable(d.op),
            Component::Selector(s) => ComponentView::Selector(s@),
            Component::Bounds(r) => ComponentView::Bounds(*r),
        }
    }
}

impl Component {
    /// An exact copy, component boxes being owned by one entity each.
    pub fn duplicate(&self) -> (c: Component)
        ensures
            c@ == self@,
    {
        match self {
            Component::Drawable(d) => Component::Drawable(Drawable { op: d.op }),
            Component::Selector(s) => Component::Selector(s.duplicate()),
            Component::Bounds(r) => Component::Bounds(*r),
        }
    }
}

/// The child-composition shape of a template.
pub enum TemplateShape {
    Empty,
    Single,
    Multi,
}

/// Ghost model of a template: its shape and the views of its children in
/// order (none for `Empty`, exactly one for `Single`).
#[verifier::ext_equal]
pub struct TemplateView {
    pub shape: TemplateShape,
    pub children: Seq<WidgetView>,
}

/// Ghost model of a widget: its resolved template and its declared
/// components in order.
#[verifier::ext_equal]
pub struct WidgetView {
    pub template: TemplateView,
    pub components: Seq<ComponentView>,
}

/// A widget's composition: no children, exactly one child to delegate to,
/// or many children.
pub enum Template {
    Empty,
    Single(Arc<Widget>),
    Multi(Vec<Arc<Widget>>),
}

/// A border widget: draws a frame, optionally around one child.
pub struct Border {
    pub child: Option<Arc<Widget>>,
}

/// A text label widget, styled by the selector given at construction.
pub struct Label {
    pub selector: Selector,
}

/// A button widget: delegates its look to a border created with it.
pub struct Button {
    pub border: Arc<Widget>,
}

/// A user-defined widget: an arbitrary template and component list as data.
pub struct Custom {
    pub template: Template,
    pub components: Vec<Component>,
}

/// The widget capability as a closed tagged union: every variant yields a
/// template and a component list.
pub enum Widget {
    Border(Border),
    Label(Label),
    Button(Button),
    Custom(Custom),
}

/// The views of a sequence of shared child widgets, in order.
pub open spec fn children_views(cs: Seq<Arc<Widget>>) -> Seq<WidgetView>
    decreases cs,
{
    if cs.len() == 0 {
        Seq::empty()
    } else {
        seq![widget_view(*cs[0])] + children_views(cs.drop_first())
    }
}

/// Ghost model of a template value.
pub open spec fn template_view(t: Template) -> TemplateView
    decreases t,
{
    match t {
        Template::Empty => TemplateView { shape: TemplateShape::Empty, children: Seq::empty() },
        Template::Single(c) => TemplateView {
            shape: TemplateShape::Single,
            children: seq![widget_view(*c)],
        },
        Template::Multi(cs) => TemplateView {
            shape: TemplateShape::Multi,
            children: children_views(cs@),
        },
    }
}

/// Ghost model of a widget: the template it resolves to, and the components
/// it declares.
pub open spec fn widget_view(w: Widget) -> WidgetView
    decreases w,
{
    match w {
        Widget::Border(b) => WidgetView {
            template: match b.child {
                Some(c) => TemplateView {
                    shape: TemplateShape::Single,
                    children: seq![widget_view(*c)],
                },
                None => TemplateView { shape: TemplateShape::Empty, children: Seq::empty() },
            },
            components: seq![ComponentView::Drawable(BORDER_PAINT)],
        },
        Widget::Label(l) => WidgetView {
            template: TemplateView { shape: TemplateShape::Empty, children: Seq::empty() },
            components: seq![ComponentView::Selector(l.selector@)],
        },
        Widget::Button(b) => WidgetView {
            template: TemplateView {
                shape: TemplateShape::Single,
                children: seq![widget_view(*b.border)],
            },
            components: seq![ComponentView::Selector(SelectorView { name: Some("button"@) })],
        },
        Widget::Custom(c) => WidgetView {
            template: template_view(c.template),
            components: c.components@.map_values(|x: Component| x@),
        },
    }
}

impl View for Widget {
    type V = WidgetView;

    open spec fn view(&self) -> WidgetView {
        widget_view(*self)
    }
}

impl View for Template {
    type V = TemplateView;

    open spec fn view(&self) -> TemplateView {
        template_view(*self)
    }
}

/// Relies on std's `Arc::clone`: the returned handle refers to the same
/// value as the argument.
#[verifier::external_body]
pub(crate) fn arc_clone<T>(a: &Arc<T>) -> (r: Arc<T>)
    ensures
        r == *a,
{
    Arc::clone(a)
}

fn clone_template(t: &Template) -> (r: Template)
    ensures
        r@ == t@,
{
    match t {
        Template::Empty => Template::Empty,
        Template::Single(c) => Template::Single(arc_clone(c)),
        Template::Multi(cs) => {
            let mut out: Vec<Arc<Widget>> = Vec::new();
            let n = cs.len();
            for i in 0..n
                invariant
                    n == cs.len(),
                    out@.len() == i,
                    forall|j: int| 0 <= j < i ==> out@[j] == cs@[j],
            {
                out.push(arc_clone(&cs[i]));
            }
            proof {
                assert(out@ =~= cs@);
            }
            Template::Multi(out)
        },
    }
}

impl Widget {
    /// The template this widget resolves to: how its children compose.
    pub fn template(&self) -> (t: Template)
        ensures
            t@ == self@.template,
    {
        match self {
            Widget::Border(b) => match &b.child {
                Some(c) => Template::Single(arc_clone(c)),
                None => Template::Empty,
            },
            Widget::Label(_) => Template::Empty,
            Widget::Button(b) => Template::Single(arc_clone(&b.border)),
            Widget::Custom(c) => clone_template(&c.template),
        }
    }

    /// The components this widget declares for its entity, in order.
    pub fn components(&self) -> (cs: Vec<Component>)
        ensures
            cs@.map_values(|c: Component| c@) == self@.components,
    {
        match self {
            Widget::Border(_) => {
                let out = vec![Component::Drawable(Drawable { op: BORDER_PAINT })];
                proof {
                    assert(out@.map_values(|c: Component| c@) =~= self@.components);
                }
                out
            },
            Widget::Label(l) => {
                let out = vec![Component::Selector(l.selector.duplicate())];
                proof {
                    assert(out@.map_values(|c: Component| c@) =~= self@.components);
                }
                out
            },
            Widget::Button(_) => {
                let out = vec![Component::Selector(Selector::new(Some("button")))];
                proof {
                    assert(out@.map_values(|c: Component| c@) =~= self@.components);
                }
                out
            },
            Widget::Custom(c) => {
                let mut out: Vec<Component> = Vec::new();
                let n = c.components.len();
                for i in 0..n
                    invariant
                        n == c.components.len(),
                        out@.len() == i,
                        forall|j: int| 0 <= j < i ==> out@[j]@ == c.components@[j]@,
                {
                    out.push(c.components[i].duplicate());
                }
                proof {
                    assert(out@.map_values(|x: Component| x@) =~= self@.components);
                }
                out
            },
        }
    }
}

impl Border {
    /// A border with no child.
    pub fn new() -> (b: Border)
        ensures
            b.child == None::<Arc<Widget>>,
    {
        Border { child: None }
    }

    /// Gives the border its one child; the template becomes `Single(child)`.
    pub fn child(&mut self, child: Arc<Widget>)
        ensures
            final(self).child == Some(child),
    {
        self.child = Some(child);
    }
}

impl Label {
    /// A label styled by `selector`; it declares no component beyond it.
    pub fn new(selector: Selector) -> (l: Label)
        ensures
            l == (Label { selector }),
    {
        Label { selector }
    }
}

impl Button {
    /// A button; the border it delegates to is created with it, so the
    /// template tree stays finite.
    pub fn new() -> (b: Button)
        ensures
            *b.border == (Widget::Border(Border { child: None })),
    {
        Button { border: Arc::new(Widget::Border(Border { child: None })) }
    }
}

} // verus!
