//! Applications, the window builder, and per-window frame ticks.

use orbtk::backend::{RecordedEffect, RecordingBackend};
use orbtk::structs::{Color, Rect};
use orbtk::theme::Theme;
use orbtk::widget::{Border, Widget};
use orbtk::window::Application;

#[test]
fn build_applies_bounds_and_materializes_the_root() {
    let mut app: Application<RecordingBackend> = Application::new();
    let builder = app.create_window(RecordingBackend::new());
    builder
        .with_bounds(Rect::new(10, 20, 300, 200))
        .with_title("main")
        .with_root(Widget::Border(Border::new()))
        .build(&mut app);
    assert_eq!(app.windows.len(), 1);
    let window = &app.windows[0];
    assert_eq!(window.bounds, Rect::new(10, 20, 300, 200));
    assert_eq!(window.title, "main".to_string());
    assert_eq!(
        window.widget_manager.render_system.renderer.events,
        vec![RecordedEffect::BoundsSet(Rect::new(10, 20, 300, 200))]
    );
    assert_eq!(window.widget_manager.world.entity_count(), 1);
    assert!(window.widget_manager.world.borrow_drawable(0).is_some());
}

#[test]
fn build_without_root_creates_no_entity() {
    let mut app: Application<RecordingBackend> = Application::new();
    app.create_window(RecordingBackend::new()).build(&mut app);
    assert_eq!(app.windows.len(), 1);
    assert_eq!(app.windows[0].widget_manager.world.entity_count(), 0);
}

#[test]
fn application_run_ticks_every_window_once() {
    let mut app: Application<RecordingBackend> = Application::new();
    app.create_window(RecordingBackend::new()).build(&mut app);
    app.create_window(RecordingBackend::new())
        .with_root(Widget::Border(Border::new()))
        .build(&mut app);
    app.run();
    let first = &app.windows[0].widget_manager.render_system.renderer.events;
    assert_eq!(first.len(), 2);
    assert_eq!(first[1], RecordedEffect::Frame);
    let second = &app.windows[1].widget_manager.render_system.renderer.events;
    assert_eq!(
        second[1..],
        [RecordedEffect::Frame, RecordedEffect::Visited(0, None)]
    );
}

#[test]
fn builder_theme_can_be_replaced() {
    let mut app: Application<RecordingBackend> = Application::new();
    let themed = Theme::new().with_fallback(Color::rgb(42, 0, 0));
    app.create_window(RecordingBackend::new())
        .with_theme(themed)
        .build(&mut app);
    let window = &app.windows[0];
    let c = window.theme.color(
        &"anything".to_string(),
        &orbtk::theme::Selector::new(None),
    );
    assert_eq!(c, Color::rgb(42, 0, 0));
}
