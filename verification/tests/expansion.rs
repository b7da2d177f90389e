//! Template expansion: node counts, post-order, and repeatability.

use std::sync::Arc;
use orbtk::widget::{
    Border, Button, Component, Custom, Drawable, Label, Template, Widget, BORDER_PAINT,
};
use orbtk::expander::expand;
use orbtk::theme::Selector;

fn label(name: &str) -> Widget {
    Widget::Label(Label::new(Selector::new(Some(name))))
}

#[test]
fn border_without_child_expands_to_itself() {
    let border = Arc::new(Widget::Border(Border::new()));
    let mut out: Vec<Arc<Widget>> = Vec::new();
    expand(&border, &mut out);
    assert_eq!(out.len(), 1);
    let components = out[0].components();
    assert_eq!(components, vec![Component::Drawable(Drawable::new(BORDER_PAINT))]);
}

#[test]
fn button_expands_to_border_then_button() {
    let button = Arc::new(Widget::Button(Button::new()));
    let mut out: Vec<Arc<Widget>> = Vec::new();
    expand(&button, &mut out);
    assert_eq!(out.len(), 2);
    // Post-order: the border child comes first, the button itself last.
    assert_eq!(
        out[0].components(),
        vec![Component::Drawable(Drawable::new(BORDER_PAINT))]
    );
    assert_eq!(
        out[1].components(),
        vec![Component::Selector(Selector::new(Some("button")))]
    );
    assert!(matches!(out[1].template(), Template::Single(_)));
    assert!(matches!(out[0].template(), Template::Empty));
}

#[test]
fn label_expands_to_itself_with_its_selector() {
    let w = Arc::new(label("caption"));
    let mut out: Vec<Arc<Widget>> = Vec::new();
    expand(&w, &mut out);
    assert_eq!(out.len(), 1);
    assert_eq!(
        out[0].components(),
        vec![Component::Selector(Selector::new(Some("caption")))]
    );
}

#[test]
fn output_length_equals_node_count() {
    // A tree of five nodes: root { border { label }, button { border } }.
    let mut inner = Border::new();
    inner.child(Arc::new(label("a")));
    let root = Arc::new(Widget::Custom(Custom {
        template: Template::Multi(vec![
            Arc::new(Widget::Border(inner)),
            Arc::new(Widget::Button(Button::new())),
        ]),
        components: vec![],
    }));
    let mut out: Vec<Arc<Widget>> = Vec::new();
    expand(&root, &mut out);
    assert_eq!(out.len(), 5);
}

#[test]
fn composite_appears_after_all_descendants() {
    let mut inner = Border::new();
    inner.child(Arc::new(label("a")));
    let root = Arc::new(Widget::Custom(Custom {
        template: Template::Multi(vec![
            Arc::new(Widget::Border(inner)),
            Arc::new(Widget::Button(Button::new())),
        ]),
        components: vec![],
    }));
    let mut out: Vec<Arc<Widget>> = Vec::new();
    expand(&root, &mut out);
    // label, border, button's border, button, root — children precede
    // their ancestors throughout.
    assert_eq!(
        out[0].components(),
        vec![Component::Selector(Selector::new(Some("a")))]
    );
    assert_eq!(
        out[1].components(),
        vec![Component::Drawable(Drawable::new(BORDER_PAINT))]
    );
    assert_eq!(
        out[2].components(),
        vec![Component::Drawable(Drawable::new(BORDER_PAINT))]
    );
    assert_eq!(
        out[3].components(),
        vec![Component::Selector(Selector::new(Some("button")))]
    );
    assert_eq!(out[4].components(), vec![]);
}

#[test]
fn expanding_twice_yields_identical_sequences() {
    let mut inner = Border::new();
    inner.child(Arc::new(label("again")));
    let root = Arc::new(Widget::Border(inner));
    let mut first: Vec<Arc<Widget>> = Vec::new();
    let mut second: Vec<Arc<Widget>> = Vec::new();
    expand(&root, &mut first);
    expand(&root, &mut second);
    assert_eq!(first.len(), second.len());
    for i in 0..first.len() {
        assert_eq!(first[i].components(), second[i].components());
    }
}

#[test]
fn shared_subtree_may_appear_in_two_templates() {
    let shared = Arc::new(label("shared"));
    let root = Arc::new(Widget::Custom(Custom {
        template: Template::Multi(vec![shared.clone(), shared.clone()]),
        components: vec![],
    }));
    let mut out: Vec<Arc<Widget>> = Vec::new();
    expand(&root, &mut out);
    assert_eq!(out.len(), 3);
    assert_eq!(out[0].components(), out[1].components());
}

#[test]
fn empty_multi_template_still_yields_the_widget() {
    let root = Arc::new(Widget::Custom(Custom {
        template: Template::Multi(vec![]),
        components: vec![Component::Drawable(Drawable::new(9))],
    }));
    let mut out: Vec<Arc<Widget>> = Vec::new();
    expand(&root, &mut out);
    assert_eq!(out.len(), 1);
    assert_eq!(out[0].components(), vec![Component::Drawable(Drawable::new(9))]);
}
