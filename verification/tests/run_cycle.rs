//! The widget manager's run cycle against a recording backend.

use std::sync::Arc;
use orbtk::backend::{RecordedEffect, RecordingBackend};
use orbtk::manager::WidgetManager;
use orbtk::structs::Rect;
use orbtk::theme::Selector;
use orbtk::widget::{Border, Button, Component, Custom, Drawable, Label, Template, Widget};

#[test]
fn run_with_no_entities_renders_once_and_draws_nothing() {
    let mut manager = WidgetManager::new(RecordingBackend::new());
    manager.run();
    assert_eq!(manager.render_system.renderer.events, vec![RecordedEffect::Frame]);
}

#[test]
fn border_entity_gets_drawable_and_default_bounds() {
    let mut manager = WidgetManager::new(RecordingBackend::new());
    manager.root(Arc::new(Widget::Border(Border::new())));
    assert_eq!(manager.world.entity_count(), 1);
    assert!(manager.world.borrow_drawable(0).is_some());
    assert!(manager.world.borrow_selector(0).is_none());
    assert_eq!(manager.world.borrow_bounds(0), Some(&Rect::new(0, 0, 200, 50)));
}

#[test]
fn button_creates_border_entity_before_button_entity() {
    let mut manager = WidgetManager::new(RecordingBackend::new());
    manager.root(Arc::new(Widget::Button(Button::new())));
    assert_eq!(manager.world.entity_count(), 2);
    // Entity 0 is the border: drawable, no selector.
    assert!(manager.world.borrow_drawable(0).is_some());
    assert!(manager.world.borrow_selector(0).is_none());
    // Entity 1 is the button: its declared selector is "button".
    assert!(manager.world.borrow_drawable(1).is_none());
    let selector = manager.world.borrow_selector(1).expect("button keeps its selector");
    assert_eq!(selector.name, Some("button".to_string()));
}

#[test]
fn label_entity_carries_selector_and_default_bounds() {
    let mut manager = WidgetManager::new(RecordingBackend::new());
    manager.root(Arc::new(Widget::Label(Label::new(Selector::new(Some("caption"))))));
    assert_eq!(manager.world.entity_count(), 1);
    let selector = manager.world.borrow_selector(0).expect("label keeps its selector");
    assert_eq!(selector.name, Some("caption".to_string()));
    assert_eq!(manager.world.borrow_bounds(0), Some(&Rect::new(0, 0, 200, 50)));
    assert!(manager.world.borrow_drawable(0).is_none());
}

#[test]
fn drawable_without_selector_is_visited_but_never_drawn() {
    let mut manager = WidgetManager::new(RecordingBackend::new());
    manager.root(Arc::new(Widget::Custom(Custom {
        template: Template::Empty,
        components: vec![Component::Drawable(Drawable::new(7))],
    })));
    manager.run();
    assert_eq!(
        manager.render_system.renderer.events,
        vec![RecordedEffect::Frame, RecordedEffect::Visited(0, None)]
    );
}

#[test]
fn drawable_with_selector_is_drawn_then_noted() {
    let mut manager = WidgetManager::new(RecordingBackend::new());
    manager.root(Arc::new(Widget::Custom(Custom {
        template: Template::Empty,
        components: vec![
            Component::Drawable(Drawable::new(7)),
            Component::Selector(Selector::new(Some("styled"))),
        ],
    })));
    manager.run();
    assert_eq!(
        manager.render_system.renderer.events,
        vec![
            RecordedEffect::Frame,
            RecordedEffect::Draw(7, Selector::new(Some("styled"))),
            RecordedEffect::Visited(0, Some(Selector::new(Some("styled")))),
        ]
    );
}

#[test]
fn working_set_is_exactly_the_entities_with_a_drawable() {
    let mut manager = WidgetManager::new(RecordingBackend::new());
    // Children first: entity 0 draws, entity 1 is a bare label, and the
    // composite root (entity 2) declares nothing.
    manager.root(Arc::new(Widget::Custom(Custom {
        template: Template::Multi(vec![
            Arc::new(Widget::Custom(Custom {
                template: Template::Empty,
                components: vec![
                    Component::Drawable(Drawable::new(3)),
                    Component::Selector(Selector::new(Some("lit"))),
                ],
            })),
            Arc::new(Widget::Label(Label::new(Selector::new(Some("plain"))))),
        ]),
        components: vec![],
    })));
    assert_eq!(manager.world.entity_count(), 3);
    manager.run();
    assert_eq!(
        manager.render_system.renderer.events,
        vec![
            RecordedEffect::Frame,
            RecordedEffect::Draw(3, Selector::new(Some("lit"))),
            RecordedEffect::Visited(0, Some(Selector::new(Some("lit")))),
        ]
    );
}

#[test]
fn entities_created_after_a_run_are_picked_up_by_the_next() {
    let mut manager = WidgetManager::new(RecordingBackend::new());
    manager.run();
    assert_eq!(manager.render_system.renderer.events.len(), 1);
    manager.root(Arc::new(Widget::Border(Border::new())));
    manager.run();
    assert_eq!(
        manager.render_system.renderer.events,
        vec![
            RecordedEffect::Frame,
            RecordedEffect::Frame,
            RecordedEffect::Visited(0, None),
        ]
    );
}

#[test]
fn second_root_appends_an_independent_entity_set() {
    let mut manager = WidgetManager::new(RecordingBackend::new());
    manager.root(Arc::new(Widget::Border(Border::new())));
    manager.root(Arc::new(Widget::Label(Label::new(Selector::new(Some("late"))))));
    // The first root's entity survives; the second root's entities follow.
    assert_eq!(manager.world.entity_count(), 2);
    assert!(manager.world.borrow_drawable(0).is_some());
    let selector = manager.world.borrow_selector(1).expect("second root materialized");
    assert_eq!(selector.name, Some("late".to_string()));
}

#[test]
fn later_component_of_same_type_wins() {
    let mut manager = WidgetManager::new(RecordingBackend::new());
    manager.root(Arc::new(Widget::Custom(Custom {
        template: Template::Empty,
        components: vec![
            Component::Selector(Selector::new(Some("first"))),
            Component::Selector(Selector::new(Some("second"))),
        ],
    })));
    let selector = manager.world.borrow_selector(0).expect("selector attached");
    assert_eq!(selector.name, Some("second".to_string()));
}

#[test]
fn default_bounds_overwrite_declared_bounds() {
    let mut manager = WidgetManager::new(RecordingBackend::new());
    manager.root(Arc::new(Widget::Custom(Custom {
        template: Template::Empty,
        components: vec![Component::Bounds(Rect::new(9, 9, 9, 9))],
    })));
    // The placeholder rectangle is attached unconditionally, after the
    // declared components, so it wins.
    assert_eq!(manager.world.borrow_bounds(0), Some(&Rect::new(0, 0, 200, 50)));
}
