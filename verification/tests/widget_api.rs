//! The widget API surface: templates, component lists, and drawables.

use std::sync::Arc;
use orbtk::backend::{RecordedEffect, RecordingBackend};
use orbtk::theme::Selector;
use orbtk::widget::{
    Border, Button, Component, Custom, Drawable, Label, Template, Widget, BORDER_PAINT,
};

#[test]
fn border_template_follows_its_child() {
    let mut border = Border::new();
    assert!(matches!(Widget::Border(Border::new()).template(), Template::Empty));
    border.child(Arc::new(Widget::Label(Label::new(Selector::new(Some("x"))))));
    match Widget::Border(border).template() {
        Template::Single(child) => {
            assert_eq!(
                child.components(),
                vec![Component::Selector(Selector::new(Some("x")))]
            );
        }
        _ => panic!("a border with a child delegates to it"),
    }
}

#[test]
fn custom_template_is_returned_as_declared() {
    let children = vec![
        Arc::new(Widget::Button(Button::new())),
        Arc::new(Widget::Border(Border::new())),
    ];
    let w = Widget::Custom(Custom {
        template: Template::Multi(children),
        components: vec![],
    });
    match w.template() {
        Template::Multi(cs) => {
            assert_eq!(cs.len(), 2);
            assert!(matches!(cs[0].template(), Template::Single(_)));
            assert!(matches!(cs[1].template(), Template::Empty));
        }
        _ => panic!("a multi template keeps its children"),
    }
    let single = Widget::Custom(Custom {
        template: Template::Single(Arc::new(Widget::Border(Border::new()))),
        components: vec![],
    });
    assert!(matches!(single.template(), Template::Single(_)));
}

#[test]
fn custom_components_are_returned_in_order() {
    let w = Widget::Custom(Custom {
        template: Template::Empty,
        components: vec![
            Component::Drawable(Drawable::new(5)),
            Component::Selector(Selector::new(Some("s"))),
        ],
    });
    assert_eq!(
        w.components(),
        vec![
            Component::Drawable(Drawable::new(5)),
            Component::Selector(Selector::new(Some("s"))),
        ]
    );
}

#[test]
fn drawable_draw_goes_through_the_backend() {
    let mut backend = RecordingBackend::new();
    let drawable = Drawable::new(BORDER_PAINT);
    let selector = Selector::new(Some("styled"));
    drawable.draw(&selector, &mut backend);
    assert_eq!(
        backend.events,
        vec![RecordedEffect::Draw(BORDER_PAINT, Selector::new(Some("styled")))]
    );
}
