//! Windows, the window builder, and the application that owns them.
//!
//! An application holds one theme (explicit configuration, scoped to the
//! application) and a list of windows; each window holds one widget manager
//! and calls its run method each frame tick. Platform backends are injected
//! by the embedding program through the builder.

use vstd::prelude::*;
use std::sync::Arc;
use crate::backend::{Effect, RenderBackend};
use crate::expander::expand_view;
use crate::manager::{materialize, working_set, WidgetManager};
use crate::structs::{Color, Rect};
use crate::system::run_effects;
use crate::theme::Theme;
use crate::widget::{arc_clone, Widget};
use crate::world::ComponentsView;

verus! {

/// One window: its widget manager and the decoration the platform applies.
pub struct Window<R: RenderBackend> {
    pub widget_manager: WidgetManager<R>,
    pub bounds: Rect,
    pub title: String,
    pub theme: Arc<Theme>,
}

/// How one run cycle relates a window's state after to its state before:
/// the store and decoration are unchanged, and the backend performed one
/// frame and the working set's per-entity effects.
pub open spec fn window_ran<R: RenderBackend>(pre: Window<R>, post: Window<R>) -> bool {
    &&& post.widget_manager.world == pre.widget_manager.world
    &&& post.widget_manager.render_system.priority == pre.widget_manager.render_system.priority
    &&& post.widget_manager.render_system.renderer.log()
        == pre.widget_manager.render_system.renderer.log() + run_effects(
        pre.widget_manager.world@,
        working_set(pre.widget_manager.world@),
    )
    &&& post.bounds == pre.bounds
    &&& post.title == pre.title
    &&& post.theme == pre.theme
}

impl<R: RenderBackend> Window<R> {
    /// One frame tick: drives the widget manager's run cycle.
    pub fn run(&mut self)
        ensures
            window_ran(*old(self), *final(self)),
    {
        self.widget_manager.run();
    }
}

/// The application: one theme and the windows it owns.
pub struct Application<R: RenderBackend> {
    pub theme: Arc<Theme>,
    pub windows: Vec<Window<R>>,
}

impl<R: RenderBackend> Application<R> {
    /// An application with the default theme and no windows yet.
    pub fn new() -> (a: Self)
        ensures
            a.windows@ == Seq::<Window<R>>::empty(),
            a.theme@.rules == Seq::<crate::theme::ThemeRuleView>::empty(),
            a.theme@.fallback == (Color { r: 0, g: 0, b: 0, a: 255 }),
    {
        Application { theme: Arc::new(Theme::new()), windows: Vec::new() }
    }

    /// Begins a window: a builder with empty decoration, the application's
    /// theme, no root yet, and the given render backend. The backend is
    /// injected by the embedding program; platform backends live outside
    /// this library.
    pub fn create_window(&self, renderer: R) -> (b: WindowBuilder<R>)
        ensures
            b.bounds == (Rect { x: 0, y: 0, width: 0, height: 0 }),
            b.title@ == Seq::<char>::empty(),
            b.theme == self.theme,
            b.root == None::<Arc<Widget>>,
            b.renderer == renderer,
    {
        WindowBuilder {
            bounds: Rect::default(),
            title: String::new(),
            theme: arc_clone(&self.theme),
            root: None,
            renderer,
        }
    }

    /// One frame tick for every window, in order.
    #[verifier::loop_isolation(false)]
    pub fn run(&mut self)
        ensures
            final(self).theme == old(self).theme,
            final(self).windows@.len() == old(self).windows@.len(),
            forall|i: int|
                0 <= i < old(self).windows@.len() ==> window_ran(
                    old(self).windows@[i],
                    #[trigger] final(self).windows@[i],
                ),
    {
        let n = self.windows.len();
        for i in 0..n
            invariant
                n == self.windows@.len(),
                self.theme == old(self).theme,
                forall|j: int|
                    0 <= j < i ==> window_ran(
                        old(self).windows@[j],
                        #[trigger] self.windows@[j],
                    ),
                forall|j: int|
                    i <= j < n ==> #[trigger] self.windows@[j] == old(self).windows@[j],
        {
            self.windows[i].run();
        }
    }
}

/// A window under construction: decoration, theme, an optional root widget,
/// and the render backend that will drive it.
pub struct WindowBuilder<R: RenderBackend> {
    pub bounds: Rect,
    pub title: String,
    pub theme: Arc<Theme>,
    pub root: Option<Arc<Widget>>,
    pub renderer: R,
}

impl<R: RenderBackend> WindowBuilder<R> {
    pub fn with_bounds(self, bounds: Rect) -> (b: Self)
        ensures
            b == (WindowBuilder { bounds, ..self }),
    {
        WindowBuilder { bounds, ..self }
    }

    pub fn with_title(self, title: &str) -> (b: Self)
        ensures
            b.title@ == title@,
            b.bounds == self.bounds,
            b.theme == self.theme,
            b.root == self.root,
            b.renderer == self.renderer,
    {
        WindowBuilder { title: title.to_owned(), ..self }
    }

    pub fn with_theme(self, theme: Theme) -> (b: Self)
        ensures
            b.theme == theme,
            b.bounds == self.bounds,
            b.title == self.title,
            b.root == self.root,
            b.renderer == self.renderer,
    {
        WindowBuilder { theme: Arc::new(theme), ..self }
    }

    pub fn with_root(self, root: Widget) -> (b: Self)
        ensures
            b.root == Some(Arc::new(root)),
            b.bounds == self.bounds,
            b.title == self.title,
            b.theme == self.theme,
            b.renderer == self.renderer,
    {
        WindowBuilder { root: Some(Arc::new(root)), ..self }
    }

    pub fn with_renderer(self, renderer: R) -> (b: Self)
        ensures
            b.renderer == renderer,
            b.bounds == self.bounds,
            b.title == self.title,
            b.theme == self.theme,
            b.root == self.root,
    {
        WindowBuilder { renderer, ..self }
    }

    /// Finishes the window and hands it to the application: applies the
    /// bounds to the backend, makes a widget manager around it, expands and
    /// materializes the root if one was given, and appends the window.
    pub fn build(self, application: &mut Application<R>)
        ensures
            final(application).theme == old(application).theme,
            final(application).windows@.len() == old(application).windows@.len() + 1,
            forall|j: int| #![trigger final(application).windows@[j]]
                0 <= j < old(application).windows@.len()
                    ==> final(application).windows@[j] == old(application).windows@[j],
            final(application).windows@.last().bounds == self.bounds,
            final(application).windows@.last().title == self.title,
            final(application).windows@.last().theme == self.theme,
            final(application).windows@.last().widget_manager.render_system.priority == 0,
            final(application).windows@.last().widget_manager.render_system.renderer.log()
                == self.renderer.log().push(Effect::BoundsSet(self.bounds)),
            final(application).windows@.last().widget_manager.world@ == match self.root {
                Some(root) => materialize(expand_view(root@)),
                None => Seq::<ComponentsView>::empty(),
            },
    {
        let mut renderer = self.renderer;
        renderer.bounds(&self.bounds);
        let mut widget_manager = WidgetManager::new(renderer);
        match self.root {
            Some(root) => {
                let ghost rv = root@;
                widget_manager.root(root);
                proof {
                    assert(widget_manager.world@ =~= materialize(expand_view(rv)));
                }
            },
            None => {},
        }
        application.windows.push(
            Window { widget_manager, bounds: self.bounds, title: self.title, theme: self.theme },
        );
    }
}

} // verus!
