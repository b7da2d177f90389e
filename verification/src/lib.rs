//! A small retained-mode UI toolkit core: widgets are declarative template
//! trees, flattened into entities of a component store, and driven by a
//! render system that visits matching entities each frame.
//!
//! - [`widget`]: widgets, templates, and their ghost models.
//! - [`expander`]: post-order flattening of a template tree, with its laws.
//! - [`world`]: the typed per-entity component store.
//! - [`system`]: the render system, its filter, and its run effects.
//! - [`manager`]: entity materialization and the per-frame run cycle.
//! - [`backend`]: the render backend contract and a recording backend.
//! - [`window`]: applications, windows, and the window builder.
//! - [`theme`]: selectors and color rules.
//! - [`structs`]: plain geometry and color values.

pub mod structs;
pub mod theme;
pub mod widget;
pub mod expander;
pub mod world;
pub mod backend;
pub mod system;
pub mod manager;
pub mod window;
